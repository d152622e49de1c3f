//! The linking orchestrator's argument builder: the exact command line
//! handed to the system linker to turn one relocatable object file into a
//! standalone executable.
//!
//! The order of the arguments is load-bearing: startup objects before the
//! user object, the user object before the C-library closure, the epilog
//! object last.  Violating it yields a binary that crashes before reaching
//! the program's entry point, so the order is pinned down here exactly and
//! proved.  Invoking the linker process itself is I/O and lives outside
//! this crate; callers hand the argument list to it unchanged.

use vstd::prelude::*;

verus! {

/// How the executable is linked.
#[derive(Clone, Copy, PartialEq, Eq, Structural, Debug)]
pub enum LinkStrategy {
    /// A position-independent executable resolved by the platform's
    /// dynamic loader at startup.
    DynamicPie,
    /// A self-contained executable with the statically-linkable C-library
    /// startup sequence; no dynamic loader is involved.
    Static,
}

/// One link invocation's inputs.  Ephemeral: built for a single call and
/// not persisted.
///
/// Under [`LinkStrategy::DynamicPie`], `library_search_path` is an extra
/// `-L` directory and `library_link_name` an extra `-l` name.  Under
/// [`LinkStrategy::Static`], no dynamic resolution is available, so
/// `library_search_path` overrides the statically-linkable C library's
/// directory and `library_link_name` is the path of an extra object file
/// linked in as-is.
#[derive(Debug)]
pub struct LinkPlan {
    pub object_file_path: String,
    pub library_search_path: Option<String>,
    pub library_link_name: Option<String>,
    pub output_file_path: String,
    pub strategy: LinkStrategy,
}

/// The directory of the statically-linkable C library's startup objects,
/// used when a link plan names no other.
pub open spec fn default_static_lib_dir() -> Seq<char> {
    "/usr/lib/musl/lib"@
}

/// The exact argument sequence of a dynamic position-independent link:
/// dynamic loader and `-pie` first, then the output path, the
/// position-independent C-start object and the init-prolog object, the
/// search paths, the compiled object, the optional extra library, the
/// standard C library, and the init-epilog object last.
pub open spec fn spec_dynamic_link_arguments(
    object_file: Seq<char>,
    library_dir: Option<Seq<char>>,
    library_name: Option<Seq<char>>,
    output_file: Seq<char>,
) -> Seq<Seq<char>> {
    seq![
        "--dynamic-linker"@,
        "/lib64/ld-linux-x86-64.so.2"@,
        "-pie"@,
        "-o"@,
        output_file,
        "/usr/lib/Scrt1.o"@,
        "/usr/lib/crti.o"@,
        "-L/lib/"@,
        "-L/usr/lib"@,
    ] + (match library_dir {
        Some(dir) => seq!["-L"@, dir],
        None => Seq::empty(),
    }) + seq![object_file] + (match library_name {
        Some(name) => seq!["-l"@, name],
        None => Seq::empty(),
    }) + seq!["-lc"@, "/usr/lib/crtn.o"@]
}

/// The exact argument sequence of a static link: `-nostdlib -static`, the
/// output path, the C library's start and init-prolog objects, its search
/// path, the compiled object, the optional extra object file, the C
/// library, and the init-epilog object last.
pub open spec fn spec_static_link_arguments(
    object_file: Seq<char>,
    lib_dir: Option<Seq<char>>,
    extra_object: Option<Seq<char>>,
    output_file: Seq<char>,
) -> Seq<Seq<char>> {
    let dir = match lib_dir {
        Some(d) => d,
        None => default_static_lib_dir(),
    };
    seq![
        "-nostdlib"@,
        "-static"@,
        "-o"@,
        output_file,
        dir + "/Scrt1.o"@,
        dir + "/crti.o"@,
        "-L"@ + dir,
    ] + seq![object_file] + (match extra_object {
        Some(path) => seq![path],
        None => Seq::empty(),
    }) + seq!["-lc"@, dir + "/crtn.o"@]
}

/// The argument sequence of a system-linker invocation that links the
/// single object file of `plan.object_file_path` into the executable of
/// `plan.output_file_path`, following `plan.strategy`.
pub open spec fn spec_link_arguments(plan: LinkPlan) -> Seq<Seq<char>> {
    match plan.strategy {
        LinkStrategy::DynamicPie => spec_dynamic_link_arguments(
            plan.object_file_path@,
            match plan.library_search_path {
                Some(ref d) => Some(d@),
                None => None,
            },
            match plan.library_link_name {
                Some(ref n) => Some(n@),
                None => None,
            },
            plan.output_file_path@,
        ),
        LinkStrategy::Static => spec_static_link_arguments(
            plan.object_file_path@,
            match plan.library_search_path {
                Some(ref d) => Some(d@),
                None => None,
            },
            match plan.library_link_name {
                Some(ref n) => Some(n@),
                None => None,
            },
            plan.output_file_path@,
        ),
    }
}

/// The system-linker argument list that links one object file into a
/// dynamically-linked position-independent executable, in exactly the
/// order [`spec_dynamic_link_arguments`] states.
pub fn link_single_object_file_as_executable_file(
    object_file_path: &str,
    external_library_folder_path: Option<&str>,
    external_library_link_name: Option<&str>,
    output_file_path: &str,
) -> (r: Vec<String>)
    ensures
        r.deep_view() == spec_dynamic_link_arguments(
            object_file_path@,
            (match external_library_folder_path {
                Some(dir) => Some(dir@),
                None => None,
            }),
            (match external_library_link_name {
                Some(name) => Some(name@),
                None => None,
            }),
            output_file_path@,
        ),
{
    let mut args: Vec<String> = Vec::new();
    args.push("--dynamic-linker".to_owned());
    args.push("/lib64/ld-linux-x86-64.so.2".to_owned());
    args.push("-pie".to_owned());
    args.push("-o".to_owned());
    args.push(output_file_path.to_owned());
    args.push("/usr/lib/Scrt1.o".to_owned());
    args.push("/usr/lib/crti.o".to_owned());
    args.push("-L/lib/".to_owned());
    args.push("-L/usr/lib".to_owned());
    match external_library_folder_path {
        Some(dir) => {
            args.push("-L".to_owned());
            args.push(dir.to_owned());
        },
        None => {},
    }
    args.push(object_file_path.to_owned());
    match external_library_link_name {
        Some(name) => {
            args.push("-l".to_owned());
            args.push(name.to_owned());
        },
        None => {},
    }
    args.push("-lc".to_owned());
    args.push("/usr/lib/crtn.o".to_owned());
    proof {
        assert(args.deep_view() =~= spec_dynamic_link_arguments(
            object_file_path@,
            (match external_library_folder_path {
                Some(dir) => Some(dir@),
                None => None,
            }),
            (match external_library_link_name {
                Some(name) => Some(name@),
                None => None,
            }),
            output_file_path@,
        ));
    }
    args
}

/// The system-linker argument list that links one object file into a
/// self-contained, statically-linked executable against the
/// statically-linkable C library, in exactly the order
/// [`spec_static_link_arguments`] states.  External library dependencies
/// are supplied as an object file path, not as a `-l` name, since no
/// dynamic resolution is available.
pub fn static_link_single_object_file_as_executable_file_with_musl(
    object_file_path: &str,
    usr_lib_musl_lib_path: Option<&str>,
    external_library_object_file_path: Option<&str>,
    output_file_path: &str,
) -> (r: Vec<String>)
    ensures
        r.deep_view() == spec_static_link_arguments(
            object_file_path@,
            (match usr_lib_musl_lib_path {
                Some(dir) => Some(dir@),
                None => None,
            }),
            (match external_library_object_file_path {
                Some(path) => Some(path@),
                None => None,
            }),
            output_file_path@,
        ),
{
    let lib_dir: String = match usr_lib_musl_lib_path {
        Some(dir) => dir.to_owned(),
        None => "/usr/lib/musl/lib".to_owned(),
    };
    let mut args: Vec<String> = Vec::new();
    args.push("-nostdlib".to_owned());
    args.push("-static".to_owned());
    args.push("-o".to_owned());
    args.push(output_file_path.to_owned());
    let mut scrt1 = lib_dir.clone();
    scrt1.append("/Scrt1.o");
    args.push(scrt1);
    let mut crti = lib_dir.clone();
    crti.append("/crti.o");
    args.push(crti);
    let mut search = "-L".to_owned();
    search.append(lib_dir.as_str());
    args.push(search);
    args.push(object_file_path.to_owned());
    match external_library_object_file_path {
        Some(path) => {
            args.push(path.to_owned());
        },
        None => {},
    }
    args.push("-lc".to_owned());
    let mut crtn = lib_dir.clone();
    crtn.append("/crtn.o");
    args.push(crtn);
    proof {
        assert(args.deep_view() =~= spec_static_link_arguments(
            object_file_path@,
            (match usr_lib_musl_lib_path {
                Some(dir) => Some(dir@),
                None => None,
            }),
            (match external_library_object_file_path {
                Some(path) => Some(path@),
                None => None,
            }),
            output_file_path@,
        ));
    }
    args
}

/// The system-linker argument list of one link plan, in exactly the order
/// [`spec_link_arguments`] states.
pub fn link_arguments(plan: &LinkPlan) -> (r: Vec<String>)
    ensures
        r.deep_view() == spec_link_arguments(*plan),
{
    let library_search_path: Option<&str> = match &plan.library_search_path {
        Some(dir) => Some(dir.as_str()),
        None => None,
    };
    let library_link_name: Option<&str> = match &plan.library_link_name {
        Some(name) => Some(name.as_str()),
        None => None,
    };
    match plan.strategy {
        LinkStrategy::DynamicPie => link_single_object_file_as_executable_file(
            plan.object_file_path.as_str(),
            library_search_path,
            library_link_name,
            plan.output_file_path.as_str(),
        ),
        LinkStrategy::Static => static_link_single_object_file_as_executable_file_with_musl(
            plan.object_file_path.as_str(),
            library_search_path,
            library_link_name,
            plan.output_file_path.as_str(),
        ),
    }
}

} // verus!
