//! The linker argument builder: the exact, order-sensitive command lines
//! of both link strategies.

use assembler::link::{
    link_arguments, link_single_object_file_as_executable_file,
    static_link_single_object_file_as_executable_file_with_musl,
};
use assembler::{LinkPlan, LinkStrategy};

#[test]
fn test_dynamic_link_arguments_plain() {
    let args = link_single_object_file_as_executable_file("/tmp/anna.o", None, None, "/tmp/anna.elf");
    let expected: Vec<&str> = vec![
        "--dynamic-linker",
        "/lib64/ld-linux-x86-64.so.2",
        "-pie",
        "-o",
        "/tmp/anna.elf",
        "/usr/lib/Scrt1.o",
        "/usr/lib/crti.o",
        "-L/lib/",
        "-L/usr/lib",
        "/tmp/anna.o",
        "-lc",
        "/usr/lib/crtn.o",
    ];
    assert_eq!(args, expected);
}

#[test]
fn test_dynamic_link_arguments_with_library() {
    let args = link_single_object_file_as_executable_file(
        "/tmp/prog.o",
        Some("/opt/libs"),
        Some("test0"),
        "/tmp/prog.elf",
    );
    let expected: Vec<&str> = vec![
        "--dynamic-linker",
        "/lib64/ld-linux-x86-64.so.2",
        "-pie",
        "-o",
        "/tmp/prog.elf",
        "/usr/lib/Scrt1.o",
        "/usr/lib/crti.o",
        "-L/lib/",
        "-L/usr/lib",
        "-L",
        "/opt/libs",
        "/tmp/prog.o",
        "-l",
        "test0",
        "-lc",
        "/usr/lib/crtn.o",
    ];
    assert_eq!(args, expected);
}

#[test]
fn test_static_link_arguments_default_lib_dir() {
    let args = static_link_single_object_file_as_executable_file_with_musl(
        "/tmp/prog.o",
        None,
        None,
        "/tmp/prog.elf",
    );
    let expected: Vec<&str> = vec![
        "-nostdlib",
        "-static",
        "-o",
        "/tmp/prog.elf",
        "/usr/lib/musl/lib/Scrt1.o",
        "/usr/lib/musl/lib/crti.o",
        "-L/usr/lib/musl/lib",
        "/tmp/prog.o",
        "-lc",
        "/usr/lib/musl/lib/crtn.o",
    ];
    assert_eq!(args, expected);
}

#[test]
fn test_static_link_arguments_with_extra_object() {
    let args = static_link_single_object_file_as_executable_file_with_musl(
        "/tmp/prog.o",
        Some("/custom/musl"),
        Some("/tmp/libtest0.o"),
        "/tmp/prog.elf",
    );
    let expected: Vec<&str> = vec![
        "-nostdlib",
        "-static",
        "-o",
        "/tmp/prog.elf",
        "/custom/musl/Scrt1.o",
        "/custom/musl/crti.o",
        "-L/custom/musl",
        "/tmp/prog.o",
        "/tmp/libtest0.o",
        "-lc",
        "/custom/musl/crtn.o",
    ];
    assert_eq!(args, expected);
}

#[test]
fn test_link_arguments_follows_plan_strategy() {
    let plan = LinkPlan {
        object_file_path: "/tmp/a.o".to_owned(),
        library_search_path: None,
        library_link_name: None,
        output_file_path: "/tmp/a.elf".to_owned(),
        strategy: LinkStrategy::DynamicPie,
    };
    let args = link_arguments(&plan);
    assert_eq!(args[0], "--dynamic-linker");
    assert_eq!(args[2], "-pie");
    assert_eq!(args[4], "/tmp/a.elf");
    assert_eq!(args[9], "/tmp/a.o");
    assert_eq!(args.last().unwrap(), "/usr/lib/crtn.o");

    let plan = LinkPlan {
        object_file_path: "/tmp/a.o".to_owned(),
        library_search_path: None,
        library_link_name: None,
        output_file_path: "/tmp/a.elf".to_owned(),
        strategy: LinkStrategy::Static,
    };
    let args = link_arguments(&plan);
    assert_eq!(args[0], "-nostdlib");
    assert_eq!(args[1], "-static");
    assert_eq!(args[7], "/tmp/a.o");
    assert_eq!(args.last().unwrap(), "/usr/lib/musl/lib/crtn.o");
}

#[test]
fn test_startup_objects_surround_user_object() {
    // The order is load-bearing: startup objects before the user object,
    // the C library after it, the epilog object last.
    let args = link_single_object_file_as_executable_file("/tmp/x.o", None, None, "/tmp/x.elf");
    let scrt1 = args.iter().position(|a| a == "/usr/lib/Scrt1.o").unwrap();
    let crti = args.iter().position(|a| a == "/usr/lib/crti.o").unwrap();
    let user = args.iter().position(|a| a == "/tmp/x.o").unwrap();
    let libc = args.iter().position(|a| a == "-lc").unwrap();
    let crtn = args.iter().position(|a| a == "/usr/lib/crtn.o").unwrap();
    assert!(scrt1 < crti);
    assert!(crti < user);
    assert!(user < libc);
    assert!(libc < crtn);
    assert_eq!(crtn, args.len() - 1);
}
