//! The dual-backend code generator: one symbol table and definition
//! lifecycle in front of two code-generation backends, an in-process
//! (just-in-time) one and an ahead-of-time one that emits a relocatable
//! object.
//!
//! All bookkeeping — which names are declared, which symbols are defined,
//! whether the module is finalized, and which error each misuse earns — is
//! verified against [`TableModel`].  The code-generation engine itself is an
//! external collaborator reached through the trusted wrappers in this file.

use vstd::assert_by_contradiction;
use vstd::prelude::*;

use cranelift_codegen::ir::{FuncRef, Function, GlobalValue, Signature};
use cranelift_codegen::settings::Builder as FlagBuilder;
use cranelift_codegen::settings::Configurable as _;
use cranelift_codegen::Context;
use cranelift_frontend::FunctionBuilderContext;
use cranelift_jit::{JITBuilder, JITModule};
use cranelift_module::Module as _;
use cranelift_module::{DataDescription, DataId, FuncId};
use cranelift_object::{ObjectBuilder, ObjectModule};

use crate::config::{flag_settings, jit_configuration, aot_configuration, TargetSelection};
use crate::error::AssemblerError;
use crate::symbols::{
    is_valid_alignment, DataContent, DataInitModel, DataModel, DataSymbol, FuncModel,
    FunctionSymbol, SymbolRef, SymbolTable, TableModel,
};
use crate::types::{CallingConvention, FunctionSignature, Linkage, SignatureModel, ValueType};

verus! {

// ---------------------------------------------------------------------------
// Declarations of the code-generation engine's types.  They are opaque to
// the verifier: values of them are created, carried and consumed, never
// inspected.
// ---------------------------------------------------------------------------

#[verifier::external_type_specification]
#[verifier::external_body]
pub struct ExFlagBuilder(FlagBuilder);

#[verifier::external_type_specification]
#[verifier::external_body]
pub struct ExContext(Context);

#[verifier::external_type_specification]
#[verifier::external_body]
pub struct ExFunction(Function);

#[verifier::external_type_specification]
#[verifier::external_body]
pub struct ExSignature(Signature);

#[verifier::external_type_specification]
#[verifier::external_body]
pub struct ExFuncRef(FuncRef);

#[verifier::external_type_specification]
#[verifier::external_body]
pub struct ExGlobalValue(GlobalValue);

#[verifier::external_type_specification]
#[verifier::external_body]
pub struct ExFunctionBuilderContext(FunctionBuilderContext);

#[verifier::external_type_specification]
#[verifier::external_body]
pub struct ExJitModule(JITModule);

#[verifier::external_type_specification]
#[verifier::external_body]
pub struct ExObjectModule(ObjectModule);

// ---------------------------------------------------------------------------
// The in-process backend.
// ---------------------------------------------------------------------------

/// The in-process (just-in-time) backend: finalizes into executable memory
/// of the running process.
pub struct JitBackend {
    /// The engine's resident-memory module.
    pub(crate) module: JITModule,
    /// The names this module was given at creation for resolving `Import`
    /// symbols, kept so that finalization's demand — every import
    /// resolvable — can be both stated and tested at run time.
    pub(crate) registered_names: Vec<String>,
}

impl JitBackend {
    /// The registered symbol names, as character sequences.
    pub closed spec fn registered_view(&self) -> Seq<Seq<char>> {
        self.registered_names@.map_values(|s: String| s@)
    }
}

/// The ahead-of-time backend: finalizes into a relocatable object byte
/// buffer.  The engine's module is consumed by emission, so it sits behind
/// an `Option` that emission takes.
pub struct ObjectBackend {
    pub(crate) module: Option<ObjectModule>,
}

// ---------------------------------------------------------------------------
// Trusted wrappers around the code-generation engine.
// ---------------------------------------------------------------------------

/// Relies on `cranelift_codegen::settings::builder`: a fresh, all-default
/// flag builder.
#[verifier::external_body]
fn new_flag_builder() -> FlagBuilder {
    cranelift_codegen::settings::builder()
}

/// Relies on `Configurable::set`: sets one named flag on the builder,
/// failing on an unknown name or value.
#[verifier::external_body]
fn set_flag(b: &mut FlagBuilder, name: &str, value: &str) -> Result<(), String> {
    b.set(name, value).map_err(|e| e.to_string())
}

/// Whether a flag-settings list leaves position-independent code off:
/// every entry naming `is_pic` sets it to `"false"`.  The engine's own
/// default for the flag is off, so a list satisfying this never turns it
/// on.
pub open spec fn pic_disabled_in(settings: Seq<(Seq<char>, Seq<char>)>) -> bool {
    forall|i: int|
        0 <= i < settings.len() && settings[i].0 == "is_pic"@ ==> settings[i].1 == "false"@
}

/// Relies on `Configurable::set`, `cranelift_native::builder`,
/// `isa::Builder::finish`, `JITBuilder::with_isa`, `JITBuilder::symbol` and
/// `JITModule::new`: applies the given `(name, value)` flag settings in
/// order to a fresh builder and constructs an in-process module for the
/// host machine, with each `(name, address)` pair registered for `Import`
/// resolution.  Bad flag names or values and an unsupported host
/// architecture/OS come back as errors.
///
/// `JITModule::new` aborts when the flags enable position-independent
/// code; the flag defaults to off, so a settings list that never sets it
/// to anything but `"false"` keeps that abort unreachable.
#[verifier::external_body]
fn jit_module_create(settings: &Vec<(String, String)>, symbols: Vec<(String, usize)>) -> Result<
    JITModule,
    String,
>
    requires
        pic_disabled_in(settings.deep_view()),
{
    let mut flags = cranelift_codegen::settings::builder();
    for (name, value) in settings.iter() {
        flags.set(name, value).map_err(|e| e.to_string())?;
    }
    let isa_builder = cranelift_native::builder().map_err(|msg| msg.to_owned())?;
    let isa = isa_builder.finish(cranelift_codegen::settings::Flags::new(flags)).map_err(
        |e| e.to_string(),
    )?;
    let mut jit_builder = JITBuilder::with_isa(isa, cranelift_module::default_libcall_names());
    for (name, addr) in symbols {
        jit_builder.symbol(name, addr as _);
    }
    Ok(JITModule::new(jit_builder))
}

/// Relies on `target_lexicon::Triple::from_str`, `isa::lookup`,
/// `isa::Builder::finish`, `ObjectBuilder::new` and `ObjectModule::new`:
/// builds an ahead-of-time module for the named target triple with the
/// given flags.  Fails when the triple does not parse or is unsupported.
#[verifier::external_body]
fn object_module_create(flags: FlagBuilder, triple: &str, module_name: &str) -> Result<
    ObjectModule,
    String,
> {
    let parsed: target_lexicon::Triple = triple.parse().map_err(
        |e: target_lexicon::ParseError| e.to_string(),
    )?;
    let isa_builder = cranelift_codegen::isa::lookup(parsed).map_err(|e| e.to_string())?;
    let isa = isa_builder.finish(cranelift_codegen::settings::Flags::new(flags)).map_err(
        |e| e.to_string(),
    )?;
    let builder = ObjectBuilder::new(isa, module_name, cranelift_module::default_libcall_names())
        .map_err(|e| e.to_string())?;
    Ok(ObjectModule::new(builder))
}

/// Relies on `Context::new`: a fresh compilation context.  The context is
/// reused across function definitions and cleared, not reallocated, between
/// them.
#[verifier::external_body]
fn new_context() -> Context {
    Context::new()
}

/// Relies on `FunctionBuilderContext::new`: fresh scratch space for the
/// external IR builder, likewise reused across functions.
#[verifier::external_body]
fn new_function_builder_context() -> FunctionBuilderContext {
    FunctionBuilderContext::new()
}

/// The machine type a value type occupies on the 64-bit targets of both
/// modes: `Pointer` is the 64-bit word, everything else is itself.  The
/// engine-side signature cannot tell `Pointer` from `I64`, so recorded
/// signature contents are normalized through this.
pub open spec fn machine_value_type(t: ValueType) -> ValueType {
    match t {
        ValueType::Pointer => ValueType::I64,
        other => other,
    }
}

/// The parameter slots an engine-side signature was built with, as
/// machine-normalized value types.
pub uninterp spec fn signature_params(s: Signature) -> Seq<ValueType>;

/// The return slots an engine-side signature was built with, as
/// machine-normalized value types.
pub uninterp spec fn signature_results(s: Signature) -> Seq<ValueType>;

/// The calling convention an engine-side signature was built with.
pub uninterp spec fn signature_call_conv(s: Signature) -> CallingConvention;

/// Whether an engine-side signature carries exactly the machine image of
/// the given signature model.
pub open spec fn signature_matches(s: Signature, m: SignatureModel) -> bool {
    &&& signature_params(s) == m.params.map_values(|t: ValueType| machine_value_type(t))
    &&& signature_results(s) == m.results.map_values(|t: ValueType| machine_value_type(t))
    &&& signature_call_conv(s) == m.call_conv
}

/// Relies on `Signature::new`: an empty signature with the given calling
/// convention.
#[verifier::external_body]
fn new_ir_signature(call_conv: CallingConvention) -> (r: Signature)
    ensures
        signature_params(r) == Seq::<ValueType>::empty(),
        signature_results(r) == Seq::<ValueType>::empty(),
        signature_call_conv(r) == call_conv,
{
    let cc = match call_conv {
        CallingConvention::SystemV => cranelift_codegen::isa::CallConv::SystemV,
        CallingConvention::Fast => cranelift_codegen::isa::CallConv::Fast,
        CallingConvention::Cold => cranelift_codegen::isa::CallConv::Cold,
        CallingConvention::WindowsFastcall => cranelift_codegen::isa::CallConv::WindowsFastcall,
        CallingConvention::AppleAarch64 => cranelift_codegen::isa::CallConv::AppleAarch64,
    };
    Signature::new(cc)
}

/// Relies on `AbiParam::new`: appends one parameter slot of `t`'s machine
/// type to the signature, touching nothing else.
#[verifier::external_body]
fn sig_push_param(sig: &mut Signature, t: ValueType)
    ensures
        signature_params(*final(sig)) == signature_params(*old(sig)).push(machine_value_type(t)),
        signature_results(*final(sig)) == signature_results(*old(sig)),
        signature_call_conv(*final(sig)) == signature_call_conv(*old(sig)),
{
    sig.params.push(cranelift_codegen::ir::AbiParam::new(ir_type_of(t)));
}

/// Relies on `AbiParam::new`: appends one return slot of `t`'s machine
/// type to the signature, touching nothing else.
#[verifier::external_body]
fn sig_push_result(sig: &mut Signature, t: ValueType)
    ensures
        signature_params(*final(sig)) == signature_params(*old(sig)),
        signature_results(*final(sig)) == signature_results(*old(sig)).push(
            machine_value_type(t),
        ),
        signature_call_conv(*final(sig)) == signature_call_conv(*old(sig)),
{
    sig.returns.push(cranelift_codegen::ir::AbiParam::new(ir_type_of(t)));
}

/// Relies on the engine's type constants: the machine type standing for
/// each [`ValueType`], with `Pointer` as the 64-bit word.
#[verifier::external_body]
fn ir_type_of(t: ValueType) -> cranelift_codegen::ir::Type {
    match t {
        ValueType::I8 => cranelift_codegen::ir::types::I8,
        ValueType::I16 => cranelift_codegen::ir::types::I16,
        ValueType::I32 => cranelift_codegen::ir::types::I32,
        ValueType::I64 => cranelift_codegen::ir::types::I64,
        ValueType::F32 => cranelift_codegen::ir::types::F32,
        ValueType::F64 => cranelift_codegen::ir::types::F64,
        ValueType::Pointer => cranelift_codegen::ir::types::I64,
    }
}

#[verifier::external_type_specification]
#[verifier::external_body]
pub struct ExIrType(cranelift_codegen::ir::Type);

/// The engine-side signature matching a [`FunctionSignature`]: the same
/// parameter order, the same return order (each slot the machine type of
/// the declared one) and the same calling convention.  Function bodies
/// handed to [`Generator::define_function`] must be built against the
/// signature this returns for their declaration.
pub fn ir_signature(sig: &FunctionSignature) -> (r: Signature)
    ensures
        signature_matches(r, sig@),
{
    let mut s = new_ir_signature(sig.call_conv);
    let mut i: usize = 0;
    while i < sig.params.len()
        invariant
            i <= sig.params.len(),
            signature_params(s) == sig.params@.subrange(0, i as int).map_values(
                |t: ValueType| machine_value_type(t),
            ),
            signature_results(s) == Seq::<ValueType>::empty(),
            signature_call_conv(s) == sig.call_conv,
        decreases sig.params.len() - i,
    {
        sig_push_param(&mut s, sig.params[i]);
        i = i + 1;
        proof {
            assert(sig.params@.subrange(0, i as int).map_values(
                |t: ValueType| machine_value_type(t),
            ) =~= sig.params@.subrange(0, i - 1).map_values(
                |t: ValueType| machine_value_type(t),
            ).push(machine_value_type(sig.params@[i - 1])));
        }
    }
    proof {
        assert(sig.params@.subrange(0, sig.params@.len() as int) =~= sig.params@);
    }
    let mut j: usize = 0;
    while j < sig.results.len()
        invariant
            j <= sig.results.len(),
            signature_params(s) == sig.params@.map_values(|t: ValueType| machine_value_type(t)),
            signature_results(s) == sig.results@.subrange(0, j as int).map_values(
                |t: ValueType| machine_value_type(t),
            ),
            signature_call_conv(s) == sig.call_conv,
        decreases sig.results.len() - j,
    {
        sig_push_result(&mut s, sig.results[j]);
        j = j + 1;
        proof {
            assert(sig.results@.subrange(0, j as int).map_values(
                |t: ValueType| machine_value_type(t),
            ) =~= sig.results@.subrange(0, j - 1).map_values(
                |t: ValueType| machine_value_type(t),
            ).push(machine_value_type(sig.results@[j - 1])));
        }
    }
    proof {
        assert(sig.results@.subrange(0, sig.results@.len() as int) =~= sig.results@);
    }
    s
}

// ---------------------------------------------------------------------------
// The per-backend raw operations.  Each implementation is a trusted wrapper
// around one engine call; everything the layer promises about them is
// proved over the symbol table instead.
// ---------------------------------------------------------------------------

/// The engine operations a backend offers.  Results carry the engine's own
/// numeric ids; the verified layer never promises anything about them
/// beyond handing them back to the engine.
pub trait BackendOps: Sized {
    /// Whether the backend still holds its engine module.  The in-process
    /// backend always does; the ahead-of-time backend loses it to
    /// emission.  No operation here consumes the module, so every one
    /// preserves this.
    spec fn live(&self) -> bool;

    /// Declares a function to the engine, returning its engine id.
    fn declare_function_raw(&mut self, name: &str, linkage: &Linkage, sig: &Signature) -> (r:
        Result<u32, String>)
        ensures
            final(self).live() == old(self).live(),
    ;

    /// Hands a completed function body to the engine for compilation,
    /// clearing the reusable context afterwards in either outcome.
    fn define_function_raw(&mut self, id: u32, body: Function, ctx: &mut Context) -> (r: Result<
        (),
        String,
    >)
        ensures
            final(self).live() == old(self).live(),
    ;

    /// Declares a data object to the engine, returning its engine id.
    fn declare_data_raw(&mut self, name: &str, linkage: &Linkage, writable: bool, tls: bool) -> (r:
        Result<u32, String>)
        ensures
            final(self).live() == old(self).live(),
    ;

    /// Defines a data object with explicit initial bytes.  The engine
    /// asserts the alignment is a power of two, so that is demanded here.
    fn define_data_bytes_raw(&mut self, id: u32, bytes: &Vec<u8>, align: u64) -> (r: Result<
        (),
        String,
    >)
        requires
            is_valid_alignment(align),
        ensures
            final(self).live() == old(self).live(),
    ;

    /// Defines a zero-initialized data object of the given size.  The
    /// engine asserts the alignment is a power of two, so that is demanded
    /// here.
    fn define_data_zero_raw(&mut self, id: u32, size: usize, align: u64) -> (r: Result<(), String>)
        requires
            is_valid_alignment(align),
        ensures
            final(self).live() == old(self).live(),
    ;

    /// An in-body handle for calling the declared function from the body
    /// under construction.  The engine's bookkeeping cannot fail, so the
    /// handle is owed whenever the module is still held.
    fn reference_function_raw(&mut self, id: u32, body: &mut Function) -> (r: Result<
        FuncRef,
        String,
    >)
        ensures
            final(self).live() == old(self).live(),
            old(self).live() ==> r is Ok,
    ;

    /// An in-body handle for addressing the declared data object from the
    /// body under construction, owed whenever the module is still held.
    fn reference_data_raw(&mut self, id: u32, body: &mut Function) -> (r: Result<
        GlobalValue,
        String,
    >)
        ensures
            final(self).live() == old(self).live(),
            old(self).live() ==> r is Ok,
    ;
}


// ---------------------------------------------------------------------------
// The trusted engine calls behind the backend operations, one wrapper per
// call site kind and backend.
// ---------------------------------------------------------------------------

/// Relies on `JITModule::declare_function`.
#[verifier::external_body]
fn jit_declare_function(b: &mut JitBackend, name: &str, linkage: &Linkage, sig: &Signature) ->
    Result<u32, String> {
    let l = match linkage {
        Linkage::Local => cranelift_module::Linkage::Local,
        Linkage::Import => cranelift_module::Linkage::Import,
        Linkage::Export => cranelift_module::Linkage::Export,
    };
    b.module.declare_function(name, l, sig).map(|id| id.as_u32()).map_err(|e| e.to_string())
}

/// Relies on `JITModule::define_function` and `Module::clear_context`: the
/// reusable context receives the body, the engine compiles it, and the
/// context is cleared for reuse in either outcome.
#[verifier::external_body]
fn jit_define_function(b: &mut JitBackend, id: u32, body: Function, ctx: &mut Context) -> Result<
    (),
    String,
> {
    ctx.func = body;
    let r = b.module.define_function(FuncId::from_u32(id), ctx).map_err(|e| e.to_string());
    b.module.clear_context(ctx);
    r
}

/// Relies on `JITModule::declare_data`.  The engine aborts on a
/// thread-local declaration (in-process code has no TLS model), so that
/// case returns its refusal as an error instead of calling it.
#[verifier::external_body]
fn jit_declare_data(b: &mut JitBackend, name: &str, linkage: &Linkage, writable: bool, tls: bool)
    -> Result<u32, String> {
    if tls {
        return Err("thread-local data is not supported by the in-process engine".to_owned());
    }
    let l = match linkage {
        Linkage::Local => cranelift_module::Linkage::Local,
        Linkage::Import => cranelift_module::Linkage::Import,
        Linkage::Export => cranelift_module::Linkage::Export,
    };
    b.module.declare_data(name, l, writable, tls).map(|id| id.as_u32()).map_err(|e| e.to_string())
}

/// Relies on `DataDescription::define`, `DataDescription::set_align` and
/// `JITModule::define_data`.  `set_align` asserts the alignment is a power
/// of two, so that is demanded here.
#[verifier::external_body]
fn jit_define_data_bytes(b: &mut JitBackend, id: u32, bytes: &Vec<u8>, align: u64) -> Result<
    (),
    String,
>
    requires
        is_valid_alignment(align),
{
    let mut d = DataDescription::new();
    d.define(bytes.clone().into_boxed_slice());
    d.set_align(align);
    b.module.define_data(DataId::from_u32(id), &d).map_err(|e| e.to_string())
}

/// Relies on `DataDescription::define_zeroinit`,
/// `DataDescription::set_align` and `JITModule::define_data`.
#[verifier::external_body]
fn jit_define_data_zero(b: &mut JitBackend, id: u32, size: usize, align: u64) -> Result<
    (),
    String,
>
    requires
        is_valid_alignment(align),
{
    let mut d = DataDescription::new();
    d.define_zeroinit(size);
    d.set_align(align);
    b.module.define_data(DataId::from_u32(id), &d).map_err(|e| e.to_string())
}

/// Relies on `Module::declare_func_in_func`: an in-body handle for the
/// declared function, valid only inside the body being built.  The
/// engine's bookkeeping cannot fail, so the handle always comes back.
#[verifier::external_body]
fn jit_reference_function(b: &mut JitBackend, id: u32, body: &mut Function) -> (r: Result<
    FuncRef,
    String,
>)
    ensures
        r is Ok,
{
    Ok(b.module.declare_func_in_func(FuncId::from_u32(id), body))
}

/// Relies on `Module::declare_data_in_func`: an in-body handle for the
/// declared data object, valid only inside the body being built; it
/// always comes back.
#[verifier::external_body]
fn jit_reference_data(b: &mut JitBackend, id: u32, body: &mut Function) -> (r: Result<
    GlobalValue,
    String,
>)
    ensures
        r is Ok,
{
    Ok(b.module.declare_data_in_func(DataId::from_u32(id), body))
}

/// Relies on `ObjectModule::declare_function`.  After emission the module
/// is gone; the verified layer locks the table first, so the error return
/// for that state is unreachable through it.
#[verifier::external_body]
fn object_declare_function(b: &mut ObjectBackend, name: &str, linkage: &Linkage, sig: &Signature)
    -> (r: Result<u32, String>)
    ensures
        (final(b).module is Some) == (old(b).module is Some),
{
    let l = match linkage {
        Linkage::Local => cranelift_module::Linkage::Local,
        Linkage::Import => cranelift_module::Linkage::Import,
        Linkage::Export => cranelift_module::Linkage::Export,
    };
    match b.module.as_mut() {
        None => Err("module already emitted".to_owned()),
        Some(m) => m.declare_function(name, l, sig).map(|id| id.as_u32()).map_err(
            |e| e.to_string(),
        ),
    }
}

/// Relies on `ObjectModule::define_function` and `Module::clear_context`.
#[verifier::external_body]
fn object_define_function(b: &mut ObjectBackend, id: u32, body: Function, ctx: &mut Context) ->
    (r: Result<(), String>)
    ensures
        (final(b).module is Some) == (old(b).module is Some),
{
    match b.module.as_mut() {
        None => Err("module already emitted".to_owned()),
        Some(m) => {
            ctx.func = body;
            let r = m.define_function(FuncId::from_u32(id), ctx).map_err(|e| e.to_string());
            m.clear_context(ctx);
            r
        },
    }
}

/// Relies on `ObjectModule::declare_data`.
#[verifier::external_body]
fn object_declare_data(
    b: &mut ObjectBackend,
    name: &str,
    linkage: &Linkage,
    writable: bool,
    tls: bool,
) -> (r: Result<u32, String>)
    ensures
        (final(b).module is Some) == (old(b).module is Some),
{
    let l = match linkage {
        Linkage::Local => cranelift_module::Linkage::Local,
        Linkage::Import => cranelift_module::Linkage::Import,
        Linkage::Export => cranelift_module::Linkage::Export,
    };
    match b.module.as_mut() {
        None => Err("module already emitted".to_owned()),
        Some(m) => m.declare_data(name, l, writable, tls).map(|id| id.as_u32()).map_err(
            |e| e.to_string(),
        ),
    }
}

/// Relies on `DataDescription::define`, `DataDescription::set_align` and
/// `ObjectModule::define_data`.  `set_align` asserts the alignment is a
/// power of two, so that is demanded here.
#[verifier::external_body]
fn object_define_data_bytes(b: &mut ObjectBackend, id: u32, bytes: &Vec<u8>, align: u64) ->
    (r: Result<(), String>)
    requires
        is_valid_alignment(align),
    ensures
        (final(b).module is Some) == (old(b).module is Some),
{
    match b.module.as_mut() {
        None => Err("module already emitted".to_owned()),
        Some(m) => {
            let mut d = DataDescription::new();
            d.define(bytes.clone().into_boxed_slice());
            d.set_align(align);
            m.define_data(DataId::from_u32(id), &d).map_err(|e| e.to_string())
        },
    }
}

/// Relies on `DataDescription::define_zeroinit`,
/// `DataDescription::set_align` and `ObjectModule::define_data`.
#[verifier::external_body]
fn object_define_data_zero(b: &mut ObjectBackend, id: u32, size: usize, align: u64) -> (r: Result<
    (),
    String,
>)
    requires
        is_valid_alignment(align),
    ensures
        (final(b).module is Some) == (old(b).module is Some),
{
    match b.module.as_mut() {
        None => Err("module already emitted".to_owned()),
        Some(m) => {
            let mut d = DataDescription::new();
            d.define_zeroinit(size);
            d.set_align(align);
            m.define_data(DataId::from_u32(id), &d).map_err(|e| e.to_string())
        },
    }
}

/// Relies on `Module::declare_func_in_func`: the engine's bookkeeping
/// cannot fail, so the handle comes back whenever the module is still
/// present.
#[verifier::external_body]
fn object_reference_function(b: &mut ObjectBackend, id: u32, body: &mut Function) -> (r: Result<
    FuncRef,
    String,
>)
    ensures
        (final(b).module is Some) == (old(b).module is Some),
        old(b).module is Some ==> r is Ok,
{
    match b.module.as_mut() {
        None => Err("module already emitted".to_owned()),
        Some(m) => Ok(m.declare_func_in_func(FuncId::from_u32(id), body)),
    }
}

/// Relies on `Module::declare_data_in_func`: the handle comes back
/// whenever the module is still present.
#[verifier::external_body]
fn object_reference_data(b: &mut ObjectBackend, id: u32, body: &mut Function) -> (r: Result<
    GlobalValue,
    String,
>)
    ensures
        (final(b).module is Some) == (old(b).module is Some),
        old(b).module is Some ==> r is Ok,
{
    match b.module.as_mut() {
        None => Err("module already emitted".to_owned()),
        Some(m) => Ok(m.declare_data_in_func(DataId::from_u32(id), body)),
    }
}

impl BackendOps for JitBackend {
    /// The in-process module lives as long as the backend does.
    open spec fn live(&self) -> bool {
        true
    }

    fn declare_function_raw(&mut self, name: &str, linkage: &Linkage, sig: &Signature) -> Result<
        u32,
        String,
    > {
        jit_declare_function(self, name, linkage, sig)
    }

    fn define_function_raw(&mut self, id: u32, body: Function, ctx: &mut Context) -> Result<
        (),
        String,
    > {
        jit_define_function(self, id, body, ctx)
    }

    fn declare_data_raw(&mut self, name: &str, linkage: &Linkage, writable: bool, tls: bool) ->
        Result<u32, String> {
        jit_declare_data(self, name, linkage, writable, tls)
    }

    fn define_data_bytes_raw(&mut self, id: u32, bytes: &Vec<u8>, align: u64) -> Result<
        (),
        String,
    > {
        jit_define_data_bytes(self, id, bytes, align)
    }

    fn define_data_zero_raw(&mut self, id: u32, size: usize, align: u64) -> Result<(), String> {
        jit_define_data_zero(self, id, size, align)
    }

    fn reference_function_raw(&mut self, id: u32, body: &mut Function) -> Result<FuncRef, String> {
        jit_reference_function(self, id, body)
    }

    fn reference_data_raw(&mut self, id: u32, body: &mut Function) -> Result<GlobalValue, String> {
        jit_reference_data(self, id, body)
    }
}

impl BackendOps for ObjectBackend {
    /// The module is present until emission takes it.
    closed spec fn live(&self) -> bool {
        self.module is Some
    }

    fn declare_function_raw(&mut self, name: &str, linkage: &Linkage, sig: &Signature) -> Result<
        u32,
        String,
    > {
        object_declare_function(self, name, linkage, sig)
    }

    fn define_function_raw(&mut self, id: u32, body: Function, ctx: &mut Context) -> Result<
        (),
        String,
    > {
        object_define_function(self, id, body, ctx)
    }

    fn declare_data_raw(&mut self, name: &str, linkage: &Linkage, writable: bool, tls: bool) ->
        Result<u32, String> {
        object_declare_data(self, name, linkage, writable, tls)
    }

    fn define_data_bytes_raw(&mut self, id: u32, bytes: &Vec<u8>, align: u64) -> Result<
        (),
        String,
    > {
        object_define_data_bytes(self, id, bytes, align)
    }

    fn define_data_zero_raw(&mut self, id: u32, size: usize, align: u64) -> Result<(), String> {
        object_define_data_zero(self, id, size, align)
    }

    fn reference_function_raw(&mut self, id: u32, body: &mut Function) -> Result<FuncRef, String> {
        object_reference_function(self, id, body)
    }

    fn reference_data_raw(&mut self, id: u32, body: &mut Function) -> Result<GlobalValue, String> {
        object_reference_data(self, id, body)
    }
}


// ---------------------------------------------------------------------------
// The generator.
// ---------------------------------------------------------------------------

/// Whether every `Import` symbol of the table is among the names the
/// in-process module was given for resolution.  The engine aborts
/// finalization on an unresolvable import, so in-process finalization
/// demands this.
pub open spec fn imports_registered(m: TableModel, reg: Seq<Seq<char>>) -> bool {
    &&& forall|i: int|
        0 <= i < m.funcs.len() && m.funcs[i].linkage is Import ==> reg.contains(m.funcs[i].name)
    &&& forall|i: int|
        0 <= i < m.datas.len() && m.datas[i].linkage is Import ==> reg.contains(m.datas[i].name)
}

/// The unit of compilation: a symbol table in front of one code-generation
/// backend, plus the reusable compilation context and IR-builder scratch
/// space that are cleared, not reallocated, between function definitions.
///
/// A generator is exclusively owned by one compilation session and must not
/// be shared across threads.
#[verifier::reject_recursive_types(B)]
pub struct Generator<B> {
    backend: B,
    table: SymbolTable,
    context: Context,
    /// Scratch space for the external IR builder.  Bodies handed to
    /// [`Generator::define_function`] are built against this.
    pub function_builder_context: FunctionBuilderContext,
}

impl<B> View for Generator<B> {
    type V = TableModel;

    closed spec fn view(&self) -> TableModel {
        self.table@
    }
}

impl<B: BackendOps> Generator<B> {
    /// Whether the backend still holds its engine module: always for the
    /// in-process backend, and until `finalize`'s emission for the
    /// ahead-of-time one.  Every declaration, definition and in-body
    /// reference preserves this.
    pub closed spec fn backend_live(&self) -> bool {
        self.backend.live()
    }
}

/// Everything [`Generator::declare_function`] promises, as one predicate
/// over the table before (`pre`) and after (`post`) the call and its
/// result.
pub open spec fn declare_function_ensures(
    pre: TableModel,
    post: TableModel,
    n: Seq<char>,
    l: Linkage,
    s: SignatureModel,
    r: Result<usize, AssemblerError>,
) -> bool {
    &&& post.wf()
    &&& pre.finalized ==> r == Err::<usize, AssemblerError>(AssemblerError::AlreadyFinalizedError)
        && post == pre
    &&& !pre.finalized && pre.func_compatible(n, l, s) ==> post == pre && (r matches Ok(i) && i
        == pre.func_index(n))
    &&& !pre.finalized && pre.has_symbol(n) && !pre.func_compatible(n, l, s) ==> post == pre && (
    r matches Err(AssemblerError::DuplicateIncompatibleDeclaration(dup)) && dup@ == n)
    &&& !pre.finalized && !pre.has_symbol(n) ==> ((crate::symbols::declares_func(pre, post, n, l, s)
        && (r matches Ok(i) && i == pre.funcs.len())) || (post == pre && r matches Err(
        AssemblerError::CodegenFailure(_))))
}

/// Everything [`Generator::define_function`] promises.
pub open spec fn define_function_ensures(
    pre: TableModel,
    post: TableModel,
    id: int,
    r: Result<(), AssemblerError>,
) -> bool {
    &&& post.wf()
    &&& pre.finalized ==> r == Err::<(), AssemblerError>(AssemblerError::AlreadyFinalizedError)
        && post == pre
    &&& !pre.finalized && id >= pre.funcs.len() ==> r == Err::<(), AssemblerError>(
        AssemblerError::UndeclaredSymbolError) && post == pre
    &&& !pre.finalized && 0 <= id < pre.funcs.len() && pre.funcs[id].linkage is Import ==> post
        == pre && (r matches Err(AssemblerError::DefiningImportError(n)) && n@
        == pre.funcs[id].name)
    &&& !pre.finalized && 0 <= id < pre.funcs.len() && !(pre.funcs[id].linkage is Import)
        && pre.funcs[id].defined ==> post == pre && (r matches Err(
        AssemblerError::RedefinitionError(n)) && n@ == pre.funcs[id].name)
    &&& !pre.finalized && 0 <= id < pre.funcs.len() && !(pre.funcs[id].linkage is Import)
        && !pre.funcs[id].defined ==> ((r is Ok && post == pre.with_func_defined(id)) || (post
        == pre && r matches Err(AssemblerError::CodegenFailure(_))))
}

impl<B: BackendOps> Generator<B> {
    /// Declares a function under `name` with the given linkage and
    /// signature.
    ///
    /// Declaring the same name again with the same linkage and signature is
    /// idempotent: it returns the identity the first declaration returned
    /// and changes nothing.  A differing signature or linkage, or a data
    /// object of the same name, earns `DuplicateIncompatibleDeclaration`;
    /// after `finalize` every declaration earns `AlreadyFinalizedError`.
    pub fn declare_function(
        &mut self,
        name: &str,
        linkage: Linkage,
        signature: &FunctionSignature,
    ) -> (r: Result<usize, AssemblerError>)
        requires
            old(self)@.wf(),
        ensures
            declare_function_ensures(old(self)@, final(self)@, name@, linkage, signature@, r),
            final(self).backend_live() == old(self).backend_live(),
    {
        if self.table.finalized {
            return Err(AssemblerError::AlreadyFinalizedError);
        }
        match self.table.lookup(name) {
            Some(SymbolRef::Function(i)) => {
                if self.table.funcs[i].linkage == linkage && self.table.funcs[
                    i
                ].signature.matches_signature(signature) {
                    Ok(i)
                } else {
                    Err(AssemblerError::DuplicateIncompatibleDeclaration(name.to_owned()))
                }
            },
            Some(SymbolRef::Data(_)) => {
                Err(AssemblerError::DuplicateIncompatibleDeclaration(name.to_owned()))
            },
            None => {
                let ir_sig = ir_signature(signature);
                match self.backend.declare_function_raw(name, &linkage, &ir_sig) {
                    Err(msg) => Err(AssemblerError::CodegenFailure(msg)),
                    Ok(backend_id) => {
                        let index = self.table.funcs.len();
                        let symbol = FunctionSymbol {
                            name: name.to_owned(),
                            linkage,
                            signature: signature.clone(),
                            defined: false,
                            backend_id,
                        };
                        proof {
                            crate::symbols::lemma_wf_push_func(old(self)@, symbol@);
                        }
                        self.table.funcs.push(symbol);
                        proof {
                            assert(self.table@.funcs =~= old(self)@.funcs.push(symbol@));
                            assert(self.table@.funcs.subrange(0, old(self)@.funcs.len() as int)
                                =~= old(self)@.funcs);
                            assert(self.table@ == old(self)@.with_func(symbol@));
                        }
                        Ok(index)
                    },
                }
            },
        }
    }

    /// Attaches a completed function body to a previously declared,
    /// not-yet-defined `Local`/`Export` function, compiling it through the
    /// backend.  On success the reusable compilation context is cleared for
    /// the next definition, not discarded.
    pub fn define_function(&mut self, id: usize, body: Function) -> (r: Result<
        (),
        AssemblerError,
    >)
        requires
            old(self)@.wf(),
        ensures
            define_function_ensures(old(self)@, final(self)@, id as int, r),
            final(self).backend_live() == old(self).backend_live(),
    {
        if self.table.finalized {
            return Err(AssemblerError::AlreadyFinalizedError);
        }
        if id >= self.table.funcs.len() {
            return Err(AssemblerError::UndeclaredSymbolError);
        }
        if self.table.funcs[id].linkage.is_import() {
            return Err(AssemblerError::DefiningImportError(self.table.funcs[id].name.clone()));
        }
        if self.table.funcs[id].defined {
            return Err(AssemblerError::RedefinitionError(self.table.funcs[id].name.clone()));
        }
        let backend_id = self.table.funcs[id].backend_id;
        match self.backend.define_function_raw(backend_id, body, &mut self.context) {
            Err(msg) => Err(AssemblerError::CodegenFailure(msg)),
            Ok(()) => {
                self.table.funcs[id].defined = true;
                proof {
                    assert(self.table@.funcs =~= old(self)@.funcs.update(
                        id as int,
                        FuncModel { defined: true, ..old(self)@.funcs[id as int] },
                    ));
                    assert(self.table@ == old(self)@.with_func_defined(id as int));
                    crate::symbols::lemma_wf_define_func(old(self)@, id as int);
                }
                Ok(())
            },
        }
    }
}


/// Everything [`Generator::declare_data`] promises.
pub open spec fn declare_data_ensures(
    pre: TableModel,
    post: TableModel,
    n: Seq<char>,
    l: Linkage,
    writable: bool,
    tls: bool,
    r: Result<usize, AssemblerError>,
) -> bool {
    &&& post.wf()
    &&& pre.finalized ==> r == Err::<usize, AssemblerError>(AssemblerError::AlreadyFinalizedError)
        && post == pre
    &&& !pre.finalized && pre.data_compatible(n, l, writable, tls) ==> post == pre && (
    r matches Ok(i) && i == pre.data_index(n))
    &&& !pre.finalized && pre.has_symbol(n) && !pre.data_compatible(n, l, writable, tls) ==> post
        == pre && (r matches Err(AssemblerError::DuplicateIncompatibleDeclaration(dup)) && dup@
        == n)
    &&& !pre.finalized && !pre.has_symbol(n) ==> ((crate::symbols::declares_data(
        pre,
        post,
        n,
        l,
        writable,
        tls,
    ) && (r matches Ok(i) && i == pre.datas.len())) || (post == pre && r matches Err(
        AssemblerError::CodegenFailure(_))))
}

/// Everything [`Generator::define_data`] and
/// [`Generator::define_zero_data`] promise, with `init` the contents being
/// attached.
pub open spec fn define_data_ensures(
    pre: TableModel,
    post: TableModel,
    id: int,
    init: DataInitModel,
    r: Result<(), AssemblerError>,
) -> bool {
    &&& post.wf()
    &&& pre.finalized ==> r == Err::<(), AssemblerError>(AssemblerError::AlreadyFinalizedError)
        && post == pre
    &&& !pre.finalized && id >= pre.datas.len() ==> r == Err::<(), AssemblerError>(
        AssemblerError::UndeclaredSymbolError) && post == pre
    &&& !pre.finalized && 0 <= id < pre.datas.len() && pre.datas[id].linkage is Import ==> post
        == pre && (r matches Err(AssemblerError::DefiningImportError(n)) && n@
        == pre.datas[id].name)
    &&& !pre.finalized && 0 <= id < pre.datas.len() && !(pre.datas[id].linkage is Import)
        && pre.datas[id].init is Some ==> post == pre && (r matches Err(
        AssemblerError::RedefinitionError(n)) && n@ == pre.datas[id].name)
    &&& !pre.finalized && 0 <= id < pre.datas.len() && !(pre.datas[id].linkage is Import)
        && pre.datas[id].init is None && !layout_of(init) ==> post == pre && (r matches Err(
        AssemblerError::InvalidDataLayout(n)) && n@ == pre.datas[id].name)
    &&& !pre.finalized && 0 <= id < pre.datas.len() && !(pre.datas[id].linkage is Import)
        && pre.datas[id].init is None && layout_of(init) ==> ((r is Ok && post
        == pre.with_data_defined(id, init)) || (post == pre && r matches Err(
        AssemblerError::CodegenFailure(_))))
}

/// Whether the contents being attached have an acceptable layout: nonzero
/// size, power-of-two alignment.
pub open spec fn layout_of(init: DataInitModel) -> bool {
    match init {
        DataInitModel::Bytes { bytes, align } => crate::symbols::valid_data_layout(
            bytes.len(),
            align,
        ),
        DataInitModel::Zeroed { size, align } => crate::symbols::valid_data_layout(size, align),
    }
}

impl<B: BackendOps> Generator<B> {
    /// Declares a data object under `name` with the given linkage,
    /// mutability and storage class.  The same idempotency and
    /// incompatibility rules apply as for functions.
    pub fn declare_data(
        &mut self,
        name: &str,
        linkage: Linkage,
        writable: bool,
        thread_local: bool,
    ) -> (r: Result<usize, AssemblerError>)
        requires
            old(self)@.wf(),
        ensures
            declare_data_ensures(
                old(self)@,
                final(self)@,
                name@,
                linkage,
                writable,
                thread_local,
                r,
            ),
            final(self).backend_live() == old(self).backend_live(),
    {
        if self.table.finalized {
            return Err(AssemblerError::AlreadyFinalizedError);
        }
        match self.table.lookup(name) {
            Some(SymbolRef::Data(i)) => {
                if self.table.datas[i].linkage == linkage && self.table.datas[i].writable
                    == writable && self.table.datas[i].thread_local == thread_local {
                    Ok(i)
                } else {
                    Err(AssemblerError::DuplicateIncompatibleDeclaration(name.to_owned()))
                }
            },
            Some(SymbolRef::Function(_)) => {
                Err(AssemblerError::DuplicateIncompatibleDeclaration(name.to_owned()))
            },
            None => {
                match self.backend.declare_data_raw(name, &linkage, writable, thread_local) {
                    Err(msg) => Err(AssemblerError::CodegenFailure(msg)),
                    Ok(backend_id) => {
                        let index = self.table.datas.len();
                        let symbol = DataSymbol {
                            name: name.to_owned(),
                            linkage,
                            writable,
                            thread_local,
                            content: None,
                            backend_id,
                        };
                        proof {
                            crate::symbols::lemma_wf_push_data(old(self)@, symbol@);
                        }
                        self.table.datas.push(symbol);
                        proof {
                            assert(self.table@.datas =~= old(self)@.datas.push(symbol@));
                            assert(self.table@.datas.subrange(0, old(self)@.datas.len() as int)
                                =~= old(self)@.datas);
                        }
                        Ok(index)
                    },
                }
            },
        }
    }

    /// Declares an `Import`-linkage data object: one resolved by an
    /// external provider at link time, carrying no content here.
    pub fn import_data(&mut self, name: &str, writable: bool, thread_local: bool) -> (r: Result<
        usize,
        AssemblerError,
    >)
        requires
            old(self)@.wf(),
        ensures
            declare_data_ensures(
                old(self)@,
                final(self)@,
                name@,
                Linkage::Import,
                writable,
                thread_local,
                r,
            ),
            final(self).backend_live() == old(self).backend_live(),
    {
        self.declare_data(name, Linkage::Import, writable, thread_local)
    }

    /// Attaches explicit initial bytes to a previously declared,
    /// not-yet-defined `Local`/`Export` data object.
    pub fn define_data(&mut self, id: usize, bytes: Vec<u8>, align: u64) -> (r: Result<
        (),
        AssemblerError,
    >)
        requires
            old(self)@.wf(),
        ensures
            define_data_ensures(
                old(self)@,
                final(self)@,
                id as int,
                DataInitModel::Bytes { bytes: bytes@, align },
                r,
            ),
            final(self).backend_live() == old(self).backend_live(),
    {
        if self.table.finalized {
            return Err(AssemblerError::AlreadyFinalizedError);
        }
        if id >= self.table.datas.len() {
            return Err(AssemblerError::UndeclaredSymbolError);
        }
        if self.table.datas[id].linkage.is_import() {
            return Err(AssemblerError::DefiningImportError(self.table.datas[id].name.clone()));
        }
        if matches!(&self.table.datas[id].content, Some(_)) {
            return Err(AssemblerError::RedefinitionError(self.table.datas[id].name.clone()));
        }
        if bytes.len() == 0 || align == 0 || (align & (align - 1)) != 0 {
            return Err(AssemblerError::InvalidDataLayout(self.table.datas[id].name.clone()));
        }
        let backend_id = self.table.datas[id].backend_id;
        match self.backend.define_data_bytes_raw(backend_id, &bytes, align) {
            Err(msg) => Err(AssemblerError::CodegenFailure(msg)),
            Ok(()) => {
                let ghost init = DataInitModel::Bytes { bytes: bytes@, align };
                self.table.datas[id].content = Some(DataContent::Bytes { bytes, align });
                proof {
                    assert(self.table@.datas =~= old(self)@.datas.update(
                        id as int,
                        DataModel { init: Some(init), ..old(self)@.datas[id as int] },
                    ));
                    assert(self.table@ == old(self)@.with_data_defined(id as int, init));
                    crate::symbols::lemma_wf_define_data(old(self)@, id as int, init);
                }
                Ok(())
            },
        }
    }

    /// Attaches zero-initialized storage of the given size to a previously
    /// declared, not-yet-defined `Local`/`Export` data object.
    pub fn define_zero_data(&mut self, id: usize, size: usize, align: u64) -> (r: Result<
        (),
        AssemblerError,
    >)
        requires
            old(self)@.wf(),
        ensures
            define_data_ensures(
                old(self)@,
                final(self)@,
                id as int,
                DataInitModel::Zeroed { size: size as nat, align },
                r,
            ),
            final(self).backend_live() == old(self).backend_live(),
            final(self).backend_live() == old(self).backend_live(),
    {
        if self.table.finalized {
            return Err(AssemblerError::AlreadyFinalizedError);
        }
        if id >= self.table.datas.len() {
            return Err(AssemblerError::UndeclaredSymbolError);
        }
        if self.table.datas[id].linkage.is_import() {
            return Err(AssemblerError::DefiningImportError(self.table.datas[id].name.clone()));
        }
        if matches!(&self.table.datas[id].content, Some(_)) {
            return Err(AssemblerError::RedefinitionError(self.table.datas[id].name.clone()));
        }
        if size == 0 || align == 0 || (align & (align - 1)) != 0 {
            return Err(AssemblerError::InvalidDataLayout(self.table.datas[id].name.clone()));
        }
        let backend_id = self.table.datas[id].backend_id;
        match self.backend.define_data_zero_raw(backend_id, size, align) {
            Err(msg) => Err(AssemblerError::CodegenFailure(msg)),
            Ok(()) => {
                let ghost init = DataInitModel::Zeroed { size: size as nat, align };
                self.table.datas[id].content = Some(DataContent::Zeroed { size, align });
                proof {
                    assert(self.table@.datas =~= old(self)@.datas.update(
                        id as int,
                        DataModel { init: Some(init), ..old(self)@.datas[id as int] },
                    ));
                    assert(self.table@ == old(self)@.with_data_defined(id as int, init));
                    crate::symbols::lemma_wf_define_data(old(self)@, id as int, init);
                }
                Ok(())
            },
        }
    }

    /// An opaque in-body handle for calling declared function `id` from the
    /// function body currently being built.  Handles are valid only within
    /// that body and must not be reused across functions.  For a declared
    /// id, the handle is owed whenever the backend still holds its module
    /// — always, in-process; until emission, ahead-of-time.
    pub fn reference_function_in_body(&mut self, id: usize, body: &mut Function) -> (r: Result<
        FuncRef,
        AssemblerError,
    >)
        requires
            old(self)@.wf(),
        ensures
            final(self)@ == old(self)@,
            final(self).backend_live() == old(self).backend_live(),
            id >= old(self)@.funcs.len() <==> r == Err::<FuncRef, AssemblerError>(
                AssemblerError::UndeclaredSymbolError,
            ),
            old(self).backend_live() && id < old(self)@.funcs.len() ==> r is Ok,
    {
        if id >= self.table.funcs.len() {
            return Err(AssemblerError::UndeclaredSymbolError);
        }
        let backend_id = self.table.funcs[id].backend_id;
        match self.backend.reference_function_raw(backend_id, body) {
            Err(msg) => Err(AssemblerError::CodegenFailure(msg)),
            Ok(handle) => Ok(handle),
        }
    }

    /// An opaque in-body handle for addressing declared data object `id`
    /// (by its symbol, or through the thread-local model for thread-local
    /// objects) from the function body currently being built.  For a
    /// declared id, the handle is owed whenever the backend still holds
    /// its module.
    pub fn reference_data_in_body(&mut self, id: usize, body: &mut Function) -> (r: Result<
        GlobalValue,
        AssemblerError,
    >)
        requires
            old(self)@.wf(),
        ensures
            final(self)@ == old(self)@,
            final(self).backend_live() == old(self).backend_live(),
            id >= old(self)@.datas.len() <==> r == Err::<GlobalValue, AssemblerError>(
                AssemblerError::UndeclaredSymbolError,
            ),
            old(self).backend_live() && id < old(self)@.datas.len() ==> r is Ok,
    {
        if id >= self.table.datas.len() {
            return Err(AssemblerError::UndeclaredSymbolError);
        }
        let backend_id = self.table.datas[id].backend_id;
        match self.backend.reference_data_raw(backend_id, body) {
            Err(msg) => Err(AssemblerError::CodegenFailure(msg)),
            Ok(handle) => Ok(handle),
        }
    }
}


/// Everything [`Generator::define_initialized_data`] and
/// [`Generator::define_uninitialized_data`] promise, with `init` the
/// contents being attached and `l` the linkage chosen from the `export`
/// flag.
pub open spec fn combined_data_ensures(
    pre: TableModel,
    post: TableModel,
    n: Seq<char>,
    l: Linkage,
    writable: bool,
    tls: bool,
    init: DataInitModel,
    r: Result<usize, AssemblerError>,
) -> bool {
    &&& post.wf()
    &&& pre.finalized ==> r == Err::<usize, AssemblerError>(AssemblerError::AlreadyFinalizedError)
        && post == pre
    &&& !pre.finalized && !layout_of(init) ==> post == pre && (r matches Err(
        AssemblerError::InvalidDataLayout(bad)) && bad@ == n)
    &&& !pre.finalized && layout_of(init) && pre.has_symbol(n) && !pre.data_compatible(
        n,
        l,
        writable,
        tls,
    ) ==> post == pre && (r matches Err(AssemblerError::DuplicateIncompatibleDeclaration(dup))
        && dup@ == n)
    &&& !pre.finalized && layout_of(init) && pre.data_compatible(n, l, writable, tls)
        && pre.datas[pre.data_index(n)].init is Some ==> post == pre && (r matches Err(
        AssemblerError::RedefinitionError(m)) && m@ == n)
    &&& !pre.finalized && layout_of(init) && pre.data_compatible(n, l, writable, tls)
        && pre.datas[pre.data_index(n)].init is None ==> (((r matches Ok(i) && i
        == pre.data_index(n)) && post == pre.with_data_defined(pre.data_index(n), init)) || (
    post == pre && r matches Err(AssemblerError::CodegenFailure(_))))
    &&& !pre.finalized && layout_of(init) && !pre.has_symbol(n) ==> (((r matches Ok(i) && i
        == pre.datas.len()) && crate::symbols::declares_data_defined(
        pre,
        post,
        n,
        l,
        writable,
        tls,
        init,
    )) || ((r matches Err(AssemblerError::CodegenFailure(_))) && (post == pre
        || crate::symbols::declares_data(pre, post, n, l, writable, tls))))
}

impl<B: BackendOps> Generator<B> {
    /// Declares and defines a data object with explicit initial content in
    /// one step: `Export` or `Local` linkage according to `export`, with
    /// the given mutability and storage class.
    ///
    /// A name already declared as anything incompatible earns
    /// `DuplicateIncompatibleDeclaration`; content attached twice earns
    /// `RedefinitionError`; empty content or an alignment that is not a
    /// power of two earns `InvalidDataLayout` and changes nothing.
    pub fn define_initialized_data(
        &mut self,
        name: &str,
        data: Vec<u8>,
        align: u64,
        export: bool,
        writable: bool,
        thread_local: bool,
    ) -> (r: Result<usize, AssemblerError>)
        requires
            old(self)@.wf(),
        ensures
            combined_data_ensures(
                old(self)@,
                final(self)@,
                name@,
                if export {
                    Linkage::Export
                } else {
                    Linkage::Local
                },
                writable,
                thread_local,
                DataInitModel::Bytes { bytes: data@, align },
                r,
            ),
            final(self).backend_live() == old(self).backend_live(),
    {
        let ghost init = DataInitModel::Bytes { bytes: data@, align };
        let linkage = if export {
            Linkage::Export
        } else {
            Linkage::Local
        };
        if self.table.finalized {
            return Err(AssemblerError::AlreadyFinalizedError);
        }
        if data.len() == 0 || align == 0 || (align & (align - 1)) != 0 {
            return Err(AssemblerError::InvalidDataLayout(name.to_owned()));
        }
        let id = match self.declare_data(name, linkage, writable, thread_local) {
            Err(e) => {
                return Err(e);
            },
            Ok(id) => id,
        };
        let ghost mid = self@;
        match self.define_data(id, data, align) {
            Err(e) => {
                proof {
                    if !old(self)@.has_symbol(name@) {
                        assert(e matches AssemblerError::CodegenFailure(_));
                    }
                }
                Err(e)
            },
            Ok(()) => {
                proof {
                    if !old(self)@.has_symbol(name@) {
                        assert(self@ == mid.with_data_defined(id as int, init));
                        assert(self@.datas.subrange(0, old(self)@.datas.len() as int)
                            =~= old(self)@.datas);
                        assert(self@.datas.last() == (DataModel {
                            init: Some(init),
                            ..mid.datas.last()
                        }));
                    }
                }
                Ok(id)
            },
        }
    }

    /// Declares and defines a zero-initialized, writable data object in one
    /// step: `Export` or `Local` linkage according to `export`, with the
    /// given storage class.
    pub fn define_uninitialized_data(
        &mut self,
        name: &str,
        size: usize,
        align: u64,
        export: bool,
        thread_local: bool,
    ) -> (r: Result<usize, AssemblerError>)
        requires
            old(self)@.wf(),
        ensures
            combined_data_ensures(
                old(self)@,
                final(self)@,
                name@,
                if export {
                    Linkage::Export
                } else {
                    Linkage::Local
                },
                true,
                thread_local,
                DataInitModel::Zeroed { size: size as nat, align },
                r,
            ),
            final(self).backend_live() == old(self).backend_live(),
    {
        let ghost init = DataInitModel::Zeroed { size: size as nat, align };
        let linkage = if export {
            Linkage::Export
        } else {
            Linkage::Local
        };
        if self.table.finalized {
            return Err(AssemblerError::AlreadyFinalizedError);
        }
        if size == 0 || align == 0 || (align & (align - 1)) != 0 {
            return Err(AssemblerError::InvalidDataLayout(name.to_owned()));
        }
        let id = match self.declare_data(name, linkage, true, thread_local) {
            Err(e) => {
                return Err(e);
            },
            Ok(id) => id,
        };
        let ghost mid = self@;
        match self.define_zero_data(id, size, align) {
            Err(e) => {
                proof {
                    if !old(self)@.has_symbol(name@) {
                        assert(e matches AssemblerError::CodegenFailure(_));
                    }
                }
                Err(e)
            },
            Ok(()) => {
                proof {
                    if !old(self)@.has_symbol(name@) {
                        assert(self@ == mid.with_data_defined(id as int, init));
                        assert(self@.datas.subrange(0, old(self)@.datas.len() as int)
                            =~= old(self)@.datas);
                        assert(self@.datas.last() == (DataModel {
                            init: Some(init),
                            ..mid.datas.last()
                        }));
                    }
                }
                Ok(id)
            },
        }
    }
}

// ---------------------------------------------------------------------------
// Finalization and the harness-facing query surface.
// ---------------------------------------------------------------------------

/// Relies on `JITModule::finalize_definitions`: links all defined symbols
/// of the generator's module into executable memory.  The engine aborts
/// while relocating a compiled body against any symbol it cannot resolve:
/// an unregistered import, or a declared `Local`/`Export` symbol that was
/// never defined.  So this demands every import registered and every
/// `Local`/`Export` symbol defined; under that, resolution succeeds
/// (libcalls the engine inserts are found in the running process itself).
/// The symbol table — which records exactly this module's declarations —
/// is untouched.
#[verifier::external_body]
fn jit_finalize_raw(g: &mut Generator<JitBackend>) -> (r: Result<(), String>)
    requires
        old(g)@.wf(),
        !old(g)@.finalized,
        old(g)@.definitions_complete(),
        imports_registered(old(g)@, old(g).backend.registered_view()),
    ensures
        final(g).table == old(g).table,
{
    g.backend.module.finalize_definitions().map_err(|e| e.to_string())
}

/// Relies on `JITModule::get_finalized_function`: the executable address of
/// a defined, finalized function of the generator's module.  The engine
/// aborts for a function that was never compiled; the table records `id`
/// as defined before finalization, and every definition recorded there was
/// compiled through this module, so the lookup succeeds.  The address is
/// nonzero: it is the checked allocation the function's code was written
/// through at definition time.
#[verifier::external_body]
fn jit_function_address_raw(g: &Generator<JitBackend>, id: usize) -> (r: usize)
    requires
        g@.finalized,
        id < g@.funcs.len(),
        g@.funcs[id as int].defined,
    ensures
        r != 0,
{
    g.backend.module.get_finalized_function(FuncId::from_u32(g.table.funcs[id].backend_id))
        as usize
}

/// Relies on `JITModule::get_finalized_data`: the address and size of a
/// defined, finalized data object of the generator's module, under the
/// same trust as [`jit_function_address_raw`].  The address is a checked,
/// non-null allocation, and the engine records the size of the defined
/// contents beside it.
#[verifier::external_body]
fn jit_data_address_raw(g: &Generator<JitBackend>, id: usize) -> (r: (usize, usize))
    requires
        g@.finalized,
        id < g@.datas.len(),
        g@.datas[id as int].init is Some,
    ensures
        r.0 != 0,
        r.1 == crate::symbols::data_init_size(g@.datas[id as int].init->0),
{
    let (ptr, size) = g.backend.module.get_finalized_data(
        DataId::from_u32(g.table.datas[id].backend_id),
    );
    (ptr as usize, size)
}

/// The relocatable object bytes that emitting an ahead-of-time backend's
/// module serializes: a deterministic function of the module state the
/// backend has accumulated.
pub uninterp spec fn emitted_bytes_of(b: ObjectBackend) -> Seq<u8>;

/// Relies on `ObjectModule::finish` and `ObjectProduct::emit`: consumes the
/// module and serializes every declared and defined symbol into a
/// relocatable object byte buffer — on success, exactly the emission of
/// the backend as it stood before the call.
#[verifier::external_body]
fn object_emit(b: &mut ObjectBackend) -> (r: Result<Vec<u8>, String>)
    ensures
        (r matches Ok(v) ==> v@ == emitted_bytes_of(*old(b))),
{
    match b.module.take() {
        None => Err("module already emitted".to_owned()),
        Some(m) => m.finish().emit().map_err(|e| e.to_string()),
    }
}

/// Whether `name` stands among the registered names, by value.
fn name_is_registered(names: &Vec<String>, name: &String) -> (r: bool)
    ensures
        r == names@.map_values(|s: String| s@).contains(name@),
{
    let mut i: usize = 0;
    while i < names.len()
        invariant
            i <= names.len(),
            forall|k: int| 0 <= k < i ==> #[trigger] names@[k]@ != name@,
        decreases names.len() - i,
    {
        if names[i] == *name {
            proof {
                assert(names@.map_values(|s: String| s@)[i as int] == name@);
            }
            return true;
        }
        i = i + 1;
    }
    proof {
        assert_by_contradiction!(!names@.map_values(|s: String| s@).contains(name@), {
            let k = choose|k: int|
                0 <= k < names@.len() && #[trigger] names@[k]@ == name@;
            assert(names@[k]@ != name@);
        });
    }
    false
}

impl<B: BackendOps> Generator<B> {
    /// Whether every `Local`/`Export` symbol declared so far carries a
    /// definition: the run-time test of the definitions half of in-process
    /// finalization's precondition.
    pub fn definitions_are_complete(&self) -> (r: bool)
        ensures
            r == self@.definitions_complete(),
    {
        let mut i: usize = 0;
        while i < self.table.funcs.len()
            invariant
                i <= self.table.funcs.len(),
                forall|k: int|
                    0 <= k < i && !(self@.funcs[k].linkage is Import) ==> self@.funcs[k].defined,
            decreases self.table.funcs.len() - i,
        {
            if !self.table.funcs[i].linkage.is_import() && !self.table.funcs[i].defined {
                proof {
                    assert(!(self@.funcs[i as int].linkage is Import));
                    assert(!self@.funcs[i as int].defined);
                }
                return false;
            }
            i = i + 1;
        }
        let mut j: usize = 0;
        while j < self.table.datas.len()
            invariant
                j <= self.table.datas.len(),
                forall|k: int|
                    0 <= k < self@.funcs.len() && !(self@.funcs[k].linkage is Import)
                        ==> self@.funcs[k].defined,
                forall|k: int|
                    0 <= k < j && !(self@.datas[k].linkage is Import) ==> self@.datas[k].init
                        is Some,
            decreases self.table.datas.len() - j,
        {
            if !self.table.datas[j].linkage.is_import() && matches!(
                &self.table.datas[j].content,
                None,
            ) {
                proof {
                    assert(!(self@.datas[j as int].linkage is Import));
                    assert(self@.datas[j as int].init is None);
                }
                return false;
            }
            j = j + 1;
        }
        true
    }
}

impl Generator<JitBackend> {
    /// An in-process generator targeting the host machine, with each
    /// `(name, address)` pair registered for resolving `Import` symbols.
    ///
    /// Fails with `UnsupportedHost` when the host architecture/OS is not
    /// supported by the code-generation engine; that failure is fatal for
    /// this mode, there is no fallback.
    pub fn new(symbols: Vec<(String, usize)>) -> (r: Result<Generator<JitBackend>, AssemblerError>)
        ensures
            r matches Ok(g) ==> g@ == TableModel::empty_model() && g@.wf() && g.backend_live()
                && g.registered_symbols() == symbols@.map_values(|p: (String, usize)| p.0@),
            r matches Err(e) ==> e matches AssemblerError::UnsupportedHost(_),
    {
        let mut names: Vec<String> = Vec::new();
        let mut i: usize = 0;
        while i < symbols.len()
            invariant
                i <= symbols.len(),
                names@.len() == i,
                forall|k: int| 0 <= k < i ==> #[trigger] names@[k]@ == symbols@[k].0@,
            decreases symbols.len() - i,
        {
            names.push(symbols[i].0.clone());
            i = i + 1;
        }
        proof {
            assert(names@.map_values(|s: String| s@) =~= symbols@.map_values(
                |p: (String, usize)| p.0@,
            ));
        }
        let config = jit_configuration();
        let settings = flag_settings(&config);
        proof {
            reveal_strlit("is_pic");
            reveal_strlit("opt_level");
            reveal_strlit("preserve_frame_pointers");
            reveal_strlit("tls_model");
            reveal_strlit("enable_atomics");
            let s = settings.deep_view();
            assert forall|k: int| 0 <= k < s.len() && s[k].0 == "is_pic"@ implies s[k].1
                == "false"@ by {
                assert(("is_pic"@).len() == 6);
                if k == 2 {
                    assert(s[2].0 == "opt_level"@);
                    assert(("opt_level"@).len() == 9);
                } else if k == 3 {
                    assert(s[3].0 == "preserve_frame_pointers"@);
                    assert(("preserve_frame_pointers"@).len() == 23);
                } else if k == 4 {
                    assert(s[4].0 == "tls_model"@);
                    assert(("tls_model"@).len() == 9);
                } else if k == 5 {
                    assert(s[5].0 == "enable_atomics"@);
                    assert(("enable_atomics"@).len() == 14);
                }
            }
            assert(pic_disabled_in(settings.deep_view()));
        }
        match jit_module_create(&settings, symbols) {
            Err(msg) => Err(AssemblerError::UnsupportedHost(msg)),
            Ok(module) => Ok(
                Generator {
                    backend: JitBackend { module, registered_names: names },
                    table: SymbolTable::new(),
                    context: new_context(),
                    function_builder_context: new_function_builder_context(),
                },
            ),
        }
    }

    /// The names available to this generator for resolving `Import`
    /// symbols: exactly those it was created with.
    pub closed spec fn registered_symbols(&self) -> Seq<Seq<char>> {
        self.backend.registered_view()
    }

    /// Whether every `Import` symbol declared so far is among the
    /// registered names: the run-time test of the second half of
    /// [`Generator::<JitBackend>::finalize`]'s precondition.
    pub fn imports_are_registered(&self) -> (r: bool)
        requires
            self@.wf(),
        ensures
            r == imports_registered(self@, self.registered_symbols()),
    {
        let mut i: usize = 0;
        while i < self.table.funcs.len()
            invariant
                i <= self.table.funcs.len(),
                forall|k: int|
                    0 <= k < i && self@.funcs[k].linkage is Import
                        ==> self.registered_symbols().contains(self@.funcs[k].name),
            decreases self.table.funcs.len() - i,
        {
            if self.table.funcs[i].linkage.is_import() {
                if !name_is_registered(&self.backend.registered_names, &self.table.funcs[i].name) {
                    proof {
                        assert(self@.funcs[i as int].linkage is Import);
                        assert(!self.registered_symbols().contains(self@.funcs[i as int].name));
                    }
                    return false;
                }
            }
            i = i + 1;
        }
        let mut j: usize = 0;
        while j < self.table.datas.len()
            invariant
                j <= self.table.datas.len(),
                forall|k: int|
                    0 <= k < self@.funcs.len() && self@.funcs[k].linkage is Import
                        ==> self.registered_symbols().contains(self@.funcs[k].name),
                forall|k: int|
                    0 <= k < j && self@.datas[k].linkage is Import
                        ==> self.registered_symbols().contains(self@.datas[k].name),
            decreases self.table.datas.len() - j,
        {
            if self.table.datas[j].linkage.is_import() {
                if !name_is_registered(&self.backend.registered_names, &self.table.datas[j].name) {
                    proof {
                        assert(self@.datas[j as int].linkage is Import);
                        assert(!self.registered_symbols().contains(self@.datas[j as int].name));
                    }
                    return false;
                }
            }
            j = j + 1;
        }
        true
    }

    /// Whether this module may be finalized now: every `Local`/`Export`
    /// symbol defined and every `Import` registered — the run-time test of
    /// [`Generator::<JitBackend>::finalize`]'s whole precondition.
    pub fn ready_to_finalize(&self) -> (r: bool)
        requires
            self@.wf(),
        ensures
            r == (self@.definitions_complete() && imports_registered(
                self@,
                self.registered_symbols(),
            )),
    {
        self.definitions_are_complete() && self.imports_are_registered()
    }

    /// Links all defined symbols into executable memory and locks the
    /// module: no further declaration or definition is accepted, and a
    /// second `finalize` earns `AlreadyFinalizedError`.
    ///
    /// Every `Import` symbol must be among the registered names and every
    /// declared `Local`/`Export` symbol must have been defined, since the
    /// engine aborts while relocating against a symbol it cannot resolve.
    pub fn finalize(&mut self) -> (r: Result<(), AssemblerError>)
        requires
            old(self)@.wf(),
            old(self)@.definitions_complete(),
            imports_registered(old(self)@, old(self).registered_symbols()),
        ensures
            final(self)@.wf(),
            old(self)@.finalized ==> r == Err::<(), AssemblerError>(
                AssemblerError::AlreadyFinalizedError,
            ) && final(self)@ == old(self)@,
            !old(self)@.finalized ==> ((r is Ok && final(self)@ == old(self)@.with_finalized())
                || (r matches Err(AssemblerError::CodegenFailure(_)) && final(self)@ == old(
                self,
            )@)),
            final(self).backend_live(),
    {
        if self.table.finalized {
            return Err(AssemblerError::AlreadyFinalizedError);
        }
        match jit_finalize_raw(self) {
            Err(msg) => Err(AssemblerError::CodegenFailure(msg)),
            Ok(()) => {
                self.table.finalized = true;
                Ok(())
            },
        }
    }

    /// The executable address of function `id`, available exactly for the
    /// `Local`/`Export` functions that were defined before `finalize` —
    /// independent of the order in which symbols were declared — and never
    /// null.
    pub fn get_function_address(&self, id: usize) -> (r: Option<usize>)
        requires
            self@.wf(),
            self@.finalized,
        ensures
            r is Some <==> self@.func_resolvable(id as int),
            r matches Some(a) ==> a != 0,
    {
        if id < self.table.funcs.len() && self.table.funcs[id].defined {
            Some(jit_function_address_raw(self, id))
        } else {
            None
        }
    }

    /// The address and size of data object `id`, available exactly for the
    /// data objects that were defined before `finalize`.  The address is
    /// never null and the size is the defined contents' size as the table
    /// records it.
    pub fn get_data_address(&self, id: usize) -> (r: Option<(usize, usize)>)
        requires
            self@.wf(),
            self@.finalized,
        ensures
            r is Some <==> self@.data_resolvable(id as int),
            (r matches Some(p) ==> p.0 != 0 && (self@.datas[id as int].init matches Some(init)
                && p.1 == crate::symbols::data_init_size(init))),
    {
        if id < self.table.datas.len() && matches!(&self.table.datas[id].content, Some(_)) {
            Some(jit_data_address_raw(self, id))
        } else {
            None
        }
    }
}

impl Generator<ObjectBackend> {
    /// An ahead-of-time generator for the named target triple, or for the
    /// 64-bit little-endian Linux/glibc default when none is given.
    ///
    /// Fails with `UnsupportedTarget` when the triple is unrecognized; that
    /// failure is fatal for this mode.
    pub fn new(module_name: &str, target_triple: Option<&str>) -> (r: Result<
        Generator<ObjectBackend>,
        AssemblerError,
    >)
        ensures
            r matches Ok(g) ==> g@ == TableModel::empty_model() && g@.wf() && g.backend_live(),
            r matches Err(e) ==> e matches AssemblerError::UnsupportedTarget(_),
    {
        let config = aot_configuration(target_triple);
        let settings = flag_settings(&config);
        let mut flags = new_flag_builder();
        let mut i: usize = 0;
        while i < settings.len()
            invariant
                i <= settings.len(),
            decreases settings.len() - i,
        {
            match set_flag(&mut flags, settings[i].0.as_str(), settings[i].1.as_str()) {
                Ok(()) => {},
                Err(msg) => {
                    return Err(AssemblerError::UnsupportedTarget(msg));
                },
            }
            i = i + 1;
        }
        let triple: String = match config.target {
            TargetSelection::Named(t) => t,
            TargetSelection::HostNative => {
                proof {
                    assert(false);
                }
                return Err(AssemblerError::UnsupportedTarget(String::new()));
            },
        };
        match object_module_create(flags, triple.as_str(), module_name) {
            Err(msg) => Err(AssemblerError::UnsupportedTarget(msg)),
            Ok(module) => Ok(
                Generator {
                    backend: ObjectBackend { module: Some(module) },
                    table: SymbolTable::new(),
                    context: new_context(),
                    function_builder_context: new_function_builder_context(),
                },
            ),
        }
    }

    /// The relocatable object bytes this generator's accumulated module
    /// state serializes to.
    pub closed spec fn emitted_bytes(&self) -> Seq<u8> {
        emitted_bytes_of(self.backend)
    }

    /// Serializes all declared and defined symbols into a relocatable
    /// object byte buffer — exactly the emission of the module state as
    /// accumulated, with `Import` symbols left for the external linker to
    /// satisfy — and locks the module: no further declaration or
    /// definition is accepted, and a second `finalize` earns
    /// `AlreadyFinalizedError`.
    pub fn finalize(&mut self) -> (r: Result<Vec<u8>, AssemblerError>)
        requires
            old(self)@.wf(),
        ensures
            final(self)@.wf(),
            old(self)@.finalized ==> (r matches Err(AssemblerError::AlreadyFinalizedError))
                && final(self)@ == old(self)@,
            !old(self)@.finalized ==> final(self)@ == old(self)@.with_finalized() && (r is Ok
                || r matches Err(AssemblerError::CodegenFailure(_))),
            !old(self)@.finalized ==> (r matches Ok(v) ==> v@ == old(self).emitted_bytes()),
    {
        if self.table.finalized {
            return Err(AssemblerError::AlreadyFinalizedError);
        }
        self.table.finalized = true;
        match object_emit(&mut self.backend) {
            Err(msg) => Err(AssemblerError::CodegenFailure(msg)),
            Ok(bytes) => Ok(bytes),
        }
    }
}


// ---------------------------------------------------------------------------
// Laws across calls, derived from the contracts alone.
// ---------------------------------------------------------------------------

/// Declaring the same `(name, linkage, signature)` again after a successful
/// declaration is idempotent: whatever else the table holds, the second
/// call returns the identity the first one returned and changes nothing.
pub proof fn lemma_declare_function_twice(
    m0: TableModel,
    m1: TableModel,
    m2: TableModel,
    n: Seq<char>,
    l: Linkage,
    s: SignatureModel,
    i: usize,
    r2: Result<usize, AssemblerError>,
)
    requires
        m0.wf(),
        !m0.finalized,
        declare_function_ensures(m0, m1, n, l, s, Ok(i)),
        declare_function_ensures(m1, m2, n, l, s, r2),
    ensures
        r2 == Ok::<usize, AssemblerError>(i),
        m2 == m1,
{
    if m0.has_symbol(n) {
        assert(m0.func_compatible(n, l, s));
        assert(m1 == m0);
    } else {
        assert(crate::symbols::declares_func(m0, m1, n, l, s));
        assert(m1.funcs[m0.funcs.len() as int] == m1.funcs.last());
        crate::symbols::lemma_func_index_unique(m1, n, m0.funcs.len() as int);
        assert(m1.func_compatible(n, l, s));
    }
}

/// The data counterpart of [`lemma_declare_function_twice`].
pub proof fn lemma_declare_data_twice(
    m0: TableModel,
    m1: TableModel,
    m2: TableModel,
    n: Seq<char>,
    l: Linkage,
    writable: bool,
    tls: bool,
    i: usize,
    r2: Result<usize, AssemblerError>,
)
    requires
        m0.wf(),
        !m0.finalized,
        declare_data_ensures(m0, m1, n, l, writable, tls, Ok(i)),
        declare_data_ensures(m1, m2, n, l, writable, tls, r2),
    ensures
        r2 == Ok::<usize, AssemblerError>(i),
        m2 == m1,
{
    if m0.has_symbol(n) {
        assert(m0.data_compatible(n, l, writable, tls));
        assert(m1 == m0);
    } else {
        assert(crate::symbols::declares_data(m0, m1, n, l, writable, tls));
        assert(m1.datas[m0.datas.len() as int] == m1.datas.last());
        crate::symbols::lemma_data_index_unique(m1, n, m0.datas.len() as int);
        assert(m1.data_compatible(n, l, writable, tls));
    }
}

/// Defining the same function a second time after a successful definition
/// fails with `RedefinitionError` naming the symbol, and changes nothing.
pub proof fn lemma_define_function_twice(
    m0: TableModel,
    m1: TableModel,
    m2: TableModel,
    id: int,
    r2: Result<(), AssemblerError>,
)
    requires
        !m0.finalized,
        0 <= id < m0.funcs.len(),
        !(m0.funcs[id].linkage is Import),
        !m0.funcs[id].defined,
        define_function_ensures(m0, m1, id, Ok(())),
        define_function_ensures(m1, m2, id, r2),
    ensures
        m2 == m1,
        r2 matches Err(AssemblerError::RedefinitionError(nm)) && nm@ == m0.funcs[id].name,
{
    assert(m1 == m0.with_func_defined(id));
    assert(m1.funcs[id].defined);
}

/// Attaching contents to the same data object a second time after a
/// successful definition fails with `RedefinitionError` naming the symbol,
/// and changes nothing.
pub proof fn lemma_define_data_twice(
    m0: TableModel,
    m1: TableModel,
    m2: TableModel,
    id: int,
    init1: DataInitModel,
    init2: DataInitModel,
    r2: Result<(), AssemblerError>,
)
    requires
        !m0.finalized,
        0 <= id < m0.datas.len(),
        !(m0.datas[id].linkage is Import),
        m0.datas[id].init is None,
        layout_of(init1),
        define_data_ensures(m0, m1, id, init1, Ok(())),
        define_data_ensures(m1, m2, id, init2, r2),
    ensures
        m2 == m1,
        r2 matches Err(AssemblerError::RedefinitionError(nm)) && nm@ == m0.datas[id].name,
{
    assert(m1 == m0.with_data_defined(id, init1));
    assert(m1.datas[id].init is Some);
}

/// Finalization locks the module: on the finalized table, every
/// declaration and every definition — of functions and of data alike —
/// fails with `AlreadyFinalizedError` and changes nothing.
pub proof fn lemma_finalize_locks_module(
    m0: TableModel,
    m1: TableModel,
    after_declare_function: TableModel,
    n_f: Seq<char>,
    l_f: Linkage,
    s_f: SignatureModel,
    r_declare_function: Result<usize, AssemblerError>,
    after_define_function: TableModel,
    id_f: int,
    r_define_function: Result<(), AssemblerError>,
    after_declare_data: TableModel,
    n_d: Seq<char>,
    l_d: Linkage,
    writable: bool,
    tls: bool,
    r_declare_data: Result<usize, AssemblerError>,
    after_define_data: TableModel,
    id_d: int,
    init: DataInitModel,
    r_define_data: Result<(), AssemblerError>,
)
    requires
        m1 == m0.with_finalized(),
        declare_function_ensures(m1, after_declare_function, n_f, l_f, s_f, r_declare_function),
        define_function_ensures(m1, after_define_function, id_f, r_define_function),
        declare_data_ensures(m1, after_declare_data, n_d, l_d, writable, tls, r_declare_data),
        define_data_ensures(m1, after_define_data, id_d, init, r_define_data),
    ensures
        r_declare_function == Err::<usize, AssemblerError>(AssemblerError::AlreadyFinalizedError),
        after_declare_function == m1,
        r_define_function == Err::<(), AssemblerError>(AssemblerError::AlreadyFinalizedError),
        after_define_function == m1,
        r_declare_data == Err::<usize, AssemblerError>(AssemblerError::AlreadyFinalizedError),
        after_declare_data == m1,
        r_define_data == Err::<(), AssemblerError>(AssemblerError::AlreadyFinalizedError),
        after_define_data == m1,
{
}

} // verus!

