//! The error taxonomy of the emission layer.

use vstd::prelude::*;

verus! {

/// Everything that can go wrong while configuring a backend, declaring and
/// defining symbols, finalizing a module, or driving the system linker.
///
/// Configuration failures (`UnsupportedHost`, `UnsupportedTarget`) are fatal
/// for the module being built.  Declaration and definition failures do not
/// poison the module: a caller may retry a corrected call.  `LinkError`
/// carries the external linker's diagnostic text verbatim.
#[derive(Clone, Debug, PartialEq, Eq)]
pub enum AssemblerError {
    /// The host machine's architecture/OS is not supported by the
    /// code-generation engine (in-process mode only).
    UnsupportedHost(String),
    /// The named target triple is not recognized (ahead-of-time mode only).
    UnsupportedTarget(String),
    /// The symbol name was already declared with a different signature, an
    /// incompatible linkage, or as a different kind of symbol.
    DuplicateIncompatibleDeclaration(String),
    /// A definition was supplied for a symbol id that was never declared.
    UndeclaredSymbolError,
    /// The named symbol already has a definition.
    RedefinitionError(String),
    /// The named symbol has `Import` linkage: imports are resolved by an
    /// external provider at link time and are never defined locally.
    DefiningImportError(String),
    /// A data definition was zero-sized or its alignment was not a power of
    /// two.
    InvalidDataLayout(String),
    /// `finalize` was called on an already finalized module, or a
    /// declaration/definition arrived after `finalize`.
    AlreadyFinalizedError,
    /// The code-generation engine rejected a function body or failed while
    /// producing the artifact; carries its diagnostic text.
    CodegenFailure(String),
    /// The system linker exited with a nonzero status; carries its standard
    /// error text.
    LinkError(String),
}

} // verus!
