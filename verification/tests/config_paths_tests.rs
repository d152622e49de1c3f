//! The backend configuration resolver's fixed policy choices, and the path
//! helpers for temp files and the test-support library.

use assembler::config::{flag_settings, jit_configuration, aot_configuration, OptLevel, TlsModel};
use assembler::paths::{
    get_temp_file_fullpath, get_tests_lib_file_path, get_tests_lib_folder_path, path_join,
    str_ends_with,
};
use assembler::{FunctionSignature, TargetSelection, ValueType};

#[test]
fn test_jit_configuration_policy() {
    let c = jit_configuration();
    assert!(matches!(c.target, TargetSelection::HostNative));
    assert!(!c.position_independent);
    assert_eq!(c.opt_level, OptLevel::Speed);
    assert_eq!(c.tls_model, TlsModel::NoTls);
    assert!(c.enable_atomics);
    assert!(c.preserve_frame_pointers);
    assert!(!c.colocated_libcalls);
}

#[test]
fn test_aot_configuration_policy() {
    let c = aot_configuration(None);
    assert!(matches!(c.target, TargetSelection::Named(t) if t == "x86_64-unknown-linux-gnu"));
    assert!(c.position_independent);
    assert_eq!(c.opt_level, OptLevel::NoOptimization);
    assert_eq!(c.tls_model, TlsModel::ElfGeneralDynamic);
    assert!(c.enable_atomics);
    assert!(c.preserve_frame_pointers);
    assert!(!c.colocated_libcalls);

    let named = aot_configuration(Some("aarch64-unknown-linux-gnu"));
    assert!(matches!(named.target, TargetSelection::Named(t) if t == "aarch64-unknown-linux-gnu"));
}

#[test]
fn test_jit_flag_settings_exact() {
    let settings = flag_settings(&jit_configuration());
    let expected: Vec<(&str, &str)> = vec![
        ("use_colocated_libcalls", "false"),
        ("is_pic", "false"),
        ("opt_level", "speed"),
        ("preserve_frame_pointers", "true"),
        ("tls_model", "none"),
        ("enable_atomics", "true"),
    ];
    assert_eq!(settings.len(), expected.len());
    for (got, want) in settings.iter().zip(expected.iter()) {
        assert_eq!(got.0, want.0);
        assert_eq!(got.1, want.1);
    }
}

#[test]
fn test_aot_flag_settings_exact() {
    let settings = flag_settings(&aot_configuration(None));
    let expected: Vec<(&str, &str)> = vec![
        ("use_colocated_libcalls", "false"),
        ("is_pic", "true"),
        ("opt_level", "none"),
        ("preserve_frame_pointers", "true"),
        ("tls_model", "elf_gd"),
        ("enable_atomics", "true"),
    ];
    assert_eq!(settings.len(), expected.len());
    for (got, want) in settings.iter().zip(expected.iter()) {
        assert_eq!(got.0, want.0);
        assert_eq!(got.1, want.1);
    }
}

#[test]
fn test_path_join_and_temp_file() {
    assert_eq!(path_join("/tmp", "anna.o"), "/tmp/anna.o");
    assert_eq!(get_temp_file_fullpath("/tmp", "prog.elf"), "/tmp/prog.elf");
}

#[test]
fn test_str_ends_with() {
    assert!(str_ends_with("workspace/crates/assembler", "assembler"));
    assert!(str_ends_with("abc", "abc"));
    assert!(str_ends_with("abc", ""));
    assert!(!str_ends_with("abc", "dabc"));
    assert!(!str_ends_with("workspace/crates", "assembler"));
}

#[test]
fn test_tests_lib_paths() {
    assert_eq!(
        get_tests_lib_folder_path("/work/crates/assembler", "assembler"),
        "/work/crates/assembler/tests/lib"
    );
    // A byte suffix that is not a whole path component does not count as
    // the crate directory.
    assert_eq!(
        get_tests_lib_folder_path("/work/myassembler", "assembler"),
        "/work/myassembler/crates/assembler/tests/lib"
    );
    assert_eq!(
        get_tests_lib_folder_path("assembler", "assembler"),
        "assembler/tests/lib"
    );
    assert_eq!(
        get_tests_lib_folder_path("/work", "assembler"),
        "/work/crates/assembler/tests/lib"
    );
    assert_eq!(
        get_tests_lib_file_path("/work/crates/assembler", "assembler", "libtest0.o"),
        "/work/crates/assembler/tests/lib/libtest0.o"
    );
    assert_eq!(
        get_tests_lib_file_path("/work", "assembler", "libtest0.so"),
        "/work/crates/assembler/tests/lib/libtest0.so"
    );
}

#[test]
fn test_signature_matching() {
    let a = FunctionSignature::new(vec![ValueType::I32], vec![ValueType::I32]);
    let b = FunctionSignature::new(vec![ValueType::I32], vec![ValueType::I32]);
    let c = FunctionSignature::new(vec![ValueType::I64], vec![ValueType::I32]);
    let d = FunctionSignature::new(vec![ValueType::I32], vec![]);
    assert!(a.matches_signature(&b));
    assert!(b.matches_signature(&a));
    assert!(!a.matches_signature(&c));
    assert!(!a.matches_signature(&d));
    let e = a.clone();
    assert!(a.matches_signature(&e));
}
