//! The backend configuration resolver: the fully-specified target
//! configuration of each of the two generation modes, and the exact flag
//! settings handed to the code-generation engine for it.

use vstd::prelude::*;

verus! {

/// Optimization tier of generated code.
#[derive(Clone, Copy, PartialEq, Eq, Structural, Debug)]
pub enum OptLevel {
    /// Minimise compile time by disabling most optimizations.
    NoOptimization,
    /// Generate the fastest possible code.
    Speed,
    /// Like `Speed`, but also reduce code size.
    SpeedAndSize,
}

/// The addressing scheme used to locate per-thread copies of a
/// thread-local data symbol.
#[derive(Clone, Copy, PartialEq, Eq, Structural, Debug)]
pub enum TlsModel {
    /// No thread-local storage; TLS relocations are meaningless inside an
    /// in-process module.
    NoTls,
    /// The general-dynamic model of ELF targets.
    ElfGeneralDynamic,
    /// The Mach-O model.
    MachO,
    /// The COFF model.
    Coff,
}

/// Which machine the configuration targets.
#[derive(Debug)]
pub enum TargetSelection {
    /// The host machine's own instruction set (in-process mode).
    HostNative,
    /// A named target triple (ahead-of-time mode).
    Named(String),
}

/// A fully-specified target configuration.  Immutable once a module is
/// built on it; every policy choice below is fixed at resolution time.
#[derive(Debug)]
pub struct TargetConfiguration {
    pub target: TargetSelection,
    /// Position-independent code is required for ahead-of-time emission.
    /// The in-process engine places code itself and demands that this stay
    /// off.
    pub position_independent: bool,
    pub opt_level: OptLevel,
    pub tls_model: TlsModel,
    /// Atomic instruction support is enabled unconditionally.
    pub enable_atomics: bool,
    /// Frame pointers are preserved so stack-walking tools work without
    /// auxiliary metadata.
    pub preserve_frame_pointers: bool,
    /// Same-compilation-unit call addressing is disabled to keep generated
    /// references simple and uniform.
    pub colocated_libcalls: bool,
}

/// The target triple assumed by ahead-of-time mode when none is given:
/// 64-bit little-endian Linux/glibc.
pub open spec fn default_target_triple() -> Seq<char> {
    "x86_64-unknown-linux-gnu"@
}

/// The in-process configuration: host instruction set, maximum-speed
/// optimization, no thread-local-storage model, and no
/// position-independent code, which the in-process engine refuses.
pub fn jit_configuration() -> (r: TargetConfiguration)
    ensures
        r.target is HostNative,
        !r.position_independent,
        r.opt_level is Speed,
        r.tls_model is NoTls,
        r.enable_atomics,
        r.preserve_frame_pointers,
        !r.colocated_libcalls,
{
    TargetConfiguration {
        target: TargetSelection::HostNative,
        position_independent: false,
        opt_level: OptLevel::Speed,
        tls_model: TlsModel::NoTls,
        enable_atomics: true,
        preserve_frame_pointers: true,
        colocated_libcalls: false,
    }
}

/// The ahead-of-time configuration: the named target triple (or the 64-bit
/// Linux/glibc default), minimal optimization for fast compilation, and the
/// general-dynamic ELF thread-local-storage model.
pub fn aot_configuration(target_triple: Option<&str>) -> (r: TargetConfiguration)
    ensures
        r.target matches TargetSelection::Named(t) && t@ == (match target_triple {
            Some(given) => given@,
            None => default_target_triple(),
        }),
        !(r.target is HostNative),
        r.position_independent,
        r.opt_level is NoOptimization,
        r.tls_model is ElfGeneralDynamic,
        r.enable_atomics,
        r.preserve_frame_pointers,
        !r.colocated_libcalls,
{
    let triple: String = match target_triple {
        Some(given) => given.to_owned(),
        None => "x86_64-unknown-linux-gnu".to_owned(),
    };
    TargetConfiguration {
        target: TargetSelection::Named(triple),
        position_independent: true,
        opt_level: OptLevel::NoOptimization,
        tls_model: TlsModel::ElfGeneralDynamic,
        enable_atomics: true,
        preserve_frame_pointers: true,
        colocated_libcalls: false,
    }
}

/// The flag value naming each optimization tier.
pub open spec fn opt_level_value(o: OptLevel) -> Seq<char> {
    match o {
        OptLevel::NoOptimization => "none"@,
        OptLevel::Speed => "speed"@,
        OptLevel::SpeedAndSize => "speed_and_size"@,
    }
}

/// The flag value naming each thread-local-storage model.
pub open spec fn tls_model_value(t: TlsModel) -> Seq<char> {
    match t {
        TlsModel::NoTls => "none"@,
        TlsModel::ElfGeneralDynamic => "elf_gd"@,
        TlsModel::MachO => "macho"@,
        TlsModel::Coff => "coff"@,
    }
}

/// The flag value of a boolean setting.
pub open spec fn bool_value(b: bool) -> Seq<char> {
    if b {
        "true"@
    } else {
        "false"@
    }
}

/// The exact `(name, value)` flag settings that realize a configuration on
/// the code-generation engine, in the order they are applied.
pub open spec fn spec_flag_settings(c: TargetConfiguration) -> Seq<(Seq<char>, Seq<char>)> {
    seq![
        ("use_colocated_libcalls"@, bool_value(c.colocated_libcalls)),
        ("is_pic"@, bool_value(c.position_independent)),
        ("opt_level"@, opt_level_value(c.opt_level)),
        ("preserve_frame_pointers"@, bool_value(c.preserve_frame_pointers)),
        ("tls_model"@, tls_model_value(c.tls_model)),
        ("enable_atomics"@, bool_value(c.enable_atomics)),
    ]
}

/// The value string of a boolean setting.
fn bool_value_string(b: bool) -> (r: String)
    ensures
        r@ == bool_value(b),
{
    if b {
        "true".to_owned()
    } else {
        "false".to_owned()
    }
}

/// The `(name, value)` flag settings of a configuration, exactly as
/// [`spec_flag_settings`] lists them.
pub fn flag_settings(c: &TargetConfiguration) -> (r: Vec<(String, String)>)
    ensures
        r.deep_view() == spec_flag_settings(*c),
{
    let mut r: Vec<(String, String)> = Vec::new();
    r.push(("use_colocated_libcalls".to_owned(), bool_value_string(c.colocated_libcalls)));
    r.push(("is_pic".to_owned(), bool_value_string(c.position_independent)));
    let opt: String = match c.opt_level {
        OptLevel::NoOptimization => "none".to_owned(),
        OptLevel::Speed => "speed".to_owned(),
        OptLevel::SpeedAndSize => "speed_and_size".to_owned(),
    };
    r.push(("opt_level".to_owned(), opt));
    r.push(("preserve_frame_pointers".to_owned(), bool_value_string(c.preserve_frame_pointers)));
    let tls: String = match c.tls_model {
        TlsModel::NoTls => "none".to_owned(),
        TlsModel::ElfGeneralDynamic => "elf_gd".to_owned(),
        TlsModel::MachO => "macho".to_owned(),
        TlsModel::Coff => "coff".to_owned(),
    };
    r.push(("tls_model".to_owned(), tls));
    r.push(("enable_atomics".to_owned(), bool_value_string(c.enable_atomics)));
    proof {
        assert(r.deep_view() =~= spec_flag_settings(*c));
    }
    r
}

} // verus!
