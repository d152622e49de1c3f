//! Native-code emission and linking layer for a small compiler toolchain.
//!
//! A [`Generator`] collects function and data declarations under a uniform
//! linkage model, attaches bodies to them, and finalizes the whole set either
//! into in-process executable memory (just-in-time mode) or into a
//! relocatable object byte buffer (ahead-of-time mode).  A separate module
//! builds the exact argument sequence for the system linker that turns such
//! an object buffer into a standalone executable.

pub mod config;
pub mod error;
pub mod generator;
pub mod link;
pub mod paths;
pub mod symbols;
pub mod types;

pub use config::{OptLevel, TargetConfiguration, TargetSelection, TlsModel};
pub use error::AssemblerError;
pub use generator::{Generator, JitBackend, ObjectBackend};
pub use link::{LinkPlan, LinkStrategy};
pub use types::{CallingConvention, FunctionSignature, Linkage, SignatureModel, ValueType};
