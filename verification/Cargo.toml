[package]
name = "assembler"
version = "0.1.0"
edition = "2021"
publish = false

[dependencies]
cranelift-codegen = "=0.122.0"
cranelift-frontend = "=0.122.0"
cranelift-jit = "=0.122.0"
cranelift-module = "=0.122.0"
cranelift-native = "=0.122.0"
cranelift-object = "=0.122.0"
target-lexicon = "=0.13.5"
