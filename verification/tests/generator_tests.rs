//! The generator lifecycle, exercised against the real code-generation
//! engine: declaration idempotency and incompatibility, definition and
//! redefinition, finalization locking, and both backends' artifacts.

use assembler::generator::ir_signature;
use assembler::{
    AssemblerError, FunctionSignature, Generator, JitBackend, Linkage, ObjectBackend, ValueType,
};
use cranelift_codegen::ir::{types, Function, InstBuilder, UserFuncName};
use cranelift_frontend::FunctionBuilder;

/// A body computing `param + 11`, built against `sig`.
fn build_inc_body(
    generator: &mut Generator<JitBackend>,
    id: usize,
    sig: &FunctionSignature,
) -> Function {
    let mut func =
        Function::with_name_signature(UserFuncName::user(0, id as u32), ir_signature(sig));
    let mut fb = FunctionBuilder::new(&mut func, &mut generator.function_builder_context);
    let block = fb.create_block();
    fb.append_block_params_for_function_params(block);
    fb.switch_to_block(block);
    let v0 = fb.ins().iconst(types::I32, 11);
    let v1 = fb.block_params(block)[0];
    let v2 = fb.ins().iadd(v0, v1);
    fb.ins().return_(&[v2]);
    fb.seal_all_blocks();
    fb.finalize();
    func
}

fn inc_signature() -> FunctionSignature {
    FunctionSignature::new(vec![ValueType::I32], vec![ValueType::I32])
}

fn main_signature() -> FunctionSignature {
    FunctionSignature::new(vec![], vec![ValueType::I32])
}

#[test]
fn test_jit_define_and_resolve_function() {
    let mut g = Generator::<JitBackend>::new(Vec::new()).unwrap();
    let sig = inc_signature();
    let fid = g.declare_function("func_inc", Linkage::Export, &sig).unwrap();
    let body = build_inc_body(&mut g, fid, &sig);
    g.define_function(fid, body).unwrap();
    g.finalize().unwrap();
    let addr = g.get_function_address(fid);
    assert!(matches!(addr, Some(a) if a != 0));
}

#[test]
fn test_jit_call_between_functions() {
    // func_inc adds 11; main calls func_inc(13).  Both compile, link in
    // memory, and resolve to addresses.
    let mut g = Generator::<JitBackend>::new(Vec::new()).unwrap();
    let inc_sig = inc_signature();
    let inc_id = g.declare_function("func_inc", Linkage::Export, &inc_sig).unwrap();
    let body = build_inc_body(&mut g, inc_id, &inc_sig);
    g.define_function(inc_id, body).unwrap();

    let main_sig = main_signature();
    let main_id = g.declare_function("main", Linkage::Export, &main_sig).unwrap();
    let mut func = Function::with_name_signature(
        UserFuncName::user(0, main_id as u32),
        ir_signature(&main_sig),
    );
    let inc_ref = g.reference_function_in_body(inc_id, &mut func).unwrap();
    {
        let mut fb = FunctionBuilder::new(&mut func, &mut g.function_builder_context);
        let block = fb.create_block();
        fb.switch_to_block(block);
        let v0 = fb.ins().iconst(types::I32, 13);
        let call = fb.ins().call(inc_ref, &[v0]);
        let result = fb.inst_results(call)[0];
        fb.ins().return_(&[result]);
        fb.seal_all_blocks();
        fb.finalize();
    }
    g.define_function(main_id, func).unwrap();
    g.finalize().unwrap();
    assert!(g.get_function_address(inc_id).is_some());
    assert!(g.get_function_address(main_id).is_some());
    assert_ne!(g.get_function_address(inc_id), g.get_function_address(main_id));
}

#[test]
fn test_declare_function_idempotent() {
    let mut g = Generator::<JitBackend>::new(Vec::new()).unwrap();
    let sig = inc_signature();
    let first = g.declare_function("func_inc", Linkage::Export, &sig).unwrap();
    let again = FunctionSignature::new(vec![ValueType::I32], vec![ValueType::I32]);
    let second = g.declare_function("func_inc", Linkage::Export, &again).unwrap();
    assert_eq!(first, second);
}

#[test]
fn test_declare_function_incompatible_signature() {
    let mut g = Generator::<JitBackend>::new(Vec::new()).unwrap();
    let sig = inc_signature();
    g.declare_function("func_inc", Linkage::Export, &sig).unwrap();
    let other = FunctionSignature::new(vec![ValueType::I64], vec![ValueType::I32]);
    let r = g.declare_function("func_inc", Linkage::Export, &other);
    assert!(matches!(r, Err(AssemblerError::DuplicateIncompatibleDeclaration(n)) if n == "func_inc"));
}

#[test]
fn test_declare_function_incompatible_linkage() {
    // Re-declaring with a different linkage is a fatal incompatibility, not
    // a merge.
    let mut g = Generator::<JitBackend>::new(Vec::new()).unwrap();
    let sig = inc_signature();
    g.declare_function("func_inc", Linkage::Import, &sig).unwrap();
    let r = g.declare_function("func_inc", Linkage::Local, &sig);
    assert!(matches!(r, Err(AssemblerError::DuplicateIncompatibleDeclaration(_))));
}

#[test]
fn test_function_and_data_share_namespace() {
    let mut g = Generator::<JitBackend>::new(Vec::new()).unwrap();
    let sig = inc_signature();
    g.declare_function("thing", Linkage::Export, &sig).unwrap();
    let r = g.declare_data("thing", Linkage::Export, true, false);
    assert!(matches!(r, Err(AssemblerError::DuplicateIncompatibleDeclaration(_))));
}

#[test]
fn test_define_function_twice_is_redefinition() {
    let mut g = Generator::<JitBackend>::new(Vec::new()).unwrap();
    let sig = inc_signature();
    let fid = g.declare_function("func_inc", Linkage::Export, &sig).unwrap();
    let body = build_inc_body(&mut g, fid, &sig);
    g.define_function(fid, body).unwrap();
    let again = build_inc_body(&mut g, fid, &sig);
    let r = g.define_function(fid, again);
    assert!(matches!(r, Err(AssemblerError::RedefinitionError(n)) if n == "func_inc"));
}

#[test]
fn test_define_undeclared_function() {
    let mut g = Generator::<JitBackend>::new(Vec::new()).unwrap();
    let sig = inc_signature();
    let func =
        Function::with_name_signature(UserFuncName::user(0, 7), ir_signature(&sig));
    let r = g.define_function(3, func);
    assert!(matches!(r, Err(AssemblerError::UndeclaredSymbolError)));
}

#[test]
fn test_define_import_function() {
    let mut g = Generator::<JitBackend>::new(Vec::new()).unwrap();
    let sig = inc_signature();
    let fid = g.declare_function("func_add", Linkage::Import, &sig).unwrap();
    let func =
        Function::with_name_signature(UserFuncName::user(0, fid as u32), ir_signature(&sig));
    let r = g.define_function(fid, func);
    assert!(matches!(r, Err(AssemblerError::DefiningImportError(n)) if n == "func_add"));
}

fn add(a: i32, b: i32) -> i32 {
    a + b
}

#[test]
fn test_jit_import_resolves_registered_symbol() {
    // An Import function bound to an address registered at creation: the
    // relocation in main's body resolves against it at finalize.
    let add_fn: fn(i32, i32) -> i32 = add;
    let addr: usize = add_fn as usize;
    let mut g =
        Generator::<JitBackend>::new(vec![("func_add".to_owned(), addr)]).unwrap();
    let add_sig = FunctionSignature::new(
        vec![ValueType::I32, ValueType::I32],
        vec![ValueType::I32],
    );
    let add_id = g.declare_function("func_add", Linkage::Import, &add_sig).unwrap();

    let main_sig = main_signature();
    let main_id = g.declare_function("main", Linkage::Local, &main_sig).unwrap();
    let mut func = Function::with_name_signature(
        UserFuncName::user(0, main_id as u32),
        ir_signature(&main_sig),
    );
    let add_ref = g.reference_function_in_body(add_id, &mut func).unwrap();
    {
        let mut fb = FunctionBuilder::new(&mut func, &mut g.function_builder_context);
        let block = fb.create_block();
        fb.switch_to_block(block);
        let v0 = fb.ins().iconst(types::I32, 11);
        let v1 = fb.ins().iconst(types::I32, 13);
        let call = fb.ins().call(add_ref, &[v0, v1]);
        let result = fb.inst_results(call)[0];
        fb.ins().return_(&[result]);
        fb.seal_all_blocks();
        fb.finalize();
    }
    g.define_function(main_id, func).unwrap();
    g.finalize().unwrap();
    assert!(g.get_function_address(main_id).is_some());
    // The import itself was never defined locally, so it resolves to no
    // finalized body of this module.
    assert!(g.get_function_address(add_id).is_none());
}

#[test]
fn test_ready_to_finalize_checks() {
    let add_fn: fn(i32, i32) -> i32 = add;
    let addr: usize = add_fn as usize;
    let mut g = Generator::<JitBackend>::new(vec![("func_add".to_owned(), addr)]).unwrap();
    // An empty module is trivially ready.
    assert!(g.ready_to_finalize());
    let sig = inc_signature();
    let fid = g.declare_function("func_inc", Linkage::Export, &sig).unwrap();
    // A declared but undefined Export blocks finalization.
    assert!(!g.definitions_are_complete());
    assert!(!g.ready_to_finalize());
    let body = build_inc_body(&mut g, fid, &sig);
    g.define_function(fid, body).unwrap();
    assert!(g.definitions_are_complete());
    // A registered import passes the import check; an unregistered one
    // fails it.
    let add_sig = FunctionSignature::new(
        vec![ValueType::I32, ValueType::I32],
        vec![ValueType::I32],
    );
    g.declare_function("func_add", Linkage::Import, &add_sig).unwrap();
    assert!(g.imports_are_registered());
    assert!(g.ready_to_finalize());
    g.import_data("unknown_var", true, false).unwrap();
    assert!(!g.imports_are_registered());
    assert!(!g.ready_to_finalize());
}

#[test]
fn test_finalize_twice() {
    let mut g = Generator::<JitBackend>::new(Vec::new()).unwrap();
    g.finalize().unwrap();
    let r = g.finalize();
    assert!(matches!(r, Err(AssemblerError::AlreadyFinalizedError)));
}

#[test]
fn test_no_declarations_after_finalize() {
    let mut g = Generator::<JitBackend>::new(Vec::new()).unwrap();
    let sig = inc_signature();
    let fid = g.declare_function("func_inc", Linkage::Export, &sig).unwrap();
    let first = build_inc_body(&mut g, fid, &sig);
    g.define_function(fid, first).unwrap();
    let body = build_inc_body(&mut g, fid, &sig);
    g.finalize().unwrap();
    let r = g.declare_function("late", Linkage::Export, &sig);
    assert!(matches!(r, Err(AssemblerError::AlreadyFinalizedError)));
    let r = g.define_function(fid, body);
    assert!(matches!(r, Err(AssemblerError::AlreadyFinalizedError)));
    let r = g.declare_data("late_data", Linkage::Local, true, false);
    assert!(matches!(r, Err(AssemblerError::AlreadyFinalizedError)));
    let r = g.define_initialized_data("other", vec![1, 2, 3, 4], 4, false, true, false);
    assert!(matches!(r, Err(AssemblerError::AlreadyFinalizedError)));
}

#[test]
fn test_jit_data_definition_and_address() {
    let mut g = Generator::<JitBackend>::new(Vec::new()).unwrap();
    let content: Vec<u8> = 11u32.to_le_bytes().to_vec();
    let ro = g.define_initialized_data("number0", content, 4, false, false, false).unwrap();
    let rw = g
        .define_initialized_data("number1", 13u32.to_le_bytes().to_vec(), 4, false, true, false)
        .unwrap();
    assert_ne!(ro, rw);
    g.finalize().unwrap();
    let (addr0, size0) = g.get_data_address(ro).unwrap();
    let (addr1, size1) = g.get_data_address(rw).unwrap();
    assert_ne!(addr0, 0);
    assert_ne!(addr1, 0);
    assert_ne!(addr0, addr1);
    assert_eq!(size0, 4);
    assert_eq!(size1, 4);
}

#[test]
fn test_define_uninitialized_data_size() {
    let mut g = Generator::<JitBackend>::new(Vec::new()).unwrap();
    let id = g.define_uninitialized_data("buffer", 16, 8, false, false).unwrap();
    g.finalize().unwrap();
    let (_addr, size) = g.get_data_address(id).unwrap();
    assert_eq!(size, 16);
}

#[test]
fn test_invalid_data_layouts() {
    let mut g = Generator::<JitBackend>::new(Vec::new()).unwrap();
    let r = g.define_initialized_data("empty", Vec::new(), 4, false, true, false);
    assert!(matches!(r, Err(AssemblerError::InvalidDataLayout(_))));
    let r = g.define_initialized_data("odd_align", vec![1, 2, 3, 4], 3, false, true, false);
    assert!(matches!(r, Err(AssemblerError::InvalidDataLayout(_))));
    let r = g.define_initialized_data("zero_align", vec![1, 2, 3, 4], 0, false, true, false);
    assert!(matches!(r, Err(AssemblerError::InvalidDataLayout(_))));
    let r = g.define_uninitialized_data("empty_zeroed", 0, 4, false, false);
    assert!(matches!(r, Err(AssemblerError::InvalidDataLayout(_))));
    // A rejected layout leaves nothing behind: the same names are free.
    g.define_initialized_data("empty", vec![1, 2, 3, 4], 4, false, true, false).unwrap();
}

#[test]
fn test_data_redefinition_and_import_rules() {
    let mut g = Generator::<JitBackend>::new(Vec::new()).unwrap();
    let id = g.define_initialized_data("number0", vec![1, 2, 3, 4], 4, false, true, false);
    let id = id.unwrap();
    let r = g.define_data(id, vec![5, 6, 7, 8], 4);
    assert!(matches!(r, Err(AssemblerError::RedefinitionError(n)) if n == "number0"));

    let imported = g.import_data("external_var", true, false).unwrap();
    let r = g.define_data(imported, vec![1, 2, 3, 4], 4);
    assert!(matches!(r, Err(AssemblerError::DefiningImportError(n)) if n == "external_var"));

    let r = g.define_zero_data(99, 4, 4);
    assert!(matches!(r, Err(AssemblerError::UndeclaredSymbolError)));
}

#[test]
fn test_declare_data_idempotent() {
    // Thread-local declarations go through the ahead-of-time backend,
    // whose storage model supports them.
    let mut g = Generator::<ObjectBackend>::new("main", None).unwrap();
    let first = g.declare_data("tls_var", Linkage::Import, true, true).unwrap();
    let second = g.import_data("tls_var", true, true).unwrap();
    assert_eq!(first, second);
    let r = g.declare_data("tls_var", Linkage::Import, true, false);
    assert!(matches!(r, Err(AssemblerError::DuplicateIncompatibleDeclaration(_))));
}

#[test]
fn test_jit_thread_local_data_refused() {
    // The in-process engine has no thread-local-storage model; its refusal
    // surfaces as a structured error, not an abort.
    let mut g = Generator::<JitBackend>::new(Vec::new()).unwrap();
    let r = g.declare_data("tls_var", Linkage::Local, true, true);
    assert!(matches!(r, Err(AssemblerError::CodegenFailure(_))));
}

#[test]
fn test_object_emits_elf_relocatable() {
    // The ahead-of-time backend serializes inc and main into an ELF
    // relocatable object.
    let mut g = Generator::<ObjectBackend>::new("main", None).unwrap();
    let inc_sig = inc_signature();
    let inc_id = g.declare_function("inc", Linkage::Local, &inc_sig).unwrap();
    let mut func = Function::with_name_signature(
        UserFuncName::user(0, inc_id as u32),
        ir_signature(&inc_sig),
    );
    {
        let mut fb = FunctionBuilder::new(&mut func, &mut g.function_builder_context);
        let block = fb.create_block();
        fb.append_block_params_for_function_params(block);
        fb.switch_to_block(block);
        let v0 = fb.ins().iconst(types::I32, 11);
        let v1 = fb.block_params(block)[0];
        let v2 = fb.ins().iadd(v0, v1);
        fb.ins().return_(&[v2]);
        fb.seal_all_blocks();
        fb.finalize();
    }
    g.define_function(inc_id, func).unwrap();

    let main_sig = main_signature();
    let main_id = g.declare_function("main", Linkage::Export, &main_sig).unwrap();
    let mut func = Function::with_name_signature(
        UserFuncName::user(0, main_id as u32),
        ir_signature(&main_sig),
    );
    let inc_ref = g.reference_function_in_body(inc_id, &mut func).unwrap();
    {
        let mut fb = FunctionBuilder::new(&mut func, &mut g.function_builder_context);
        let block = fb.create_block();
        fb.switch_to_block(block);
        let v0 = fb.ins().iconst(types::I32, 13);
        let call = fb.ins().call(inc_ref, &[v0]);
        let result = fb.inst_results(call)[0];
        fb.ins().return_(&[result]);
        fb.seal_all_blocks();
        fb.finalize();
    }
    g.define_function(main_id, func).unwrap();

    let bytes = g.finalize().unwrap();
    assert!(bytes.len() > 4);
    assert_eq!(bytes[0], 0x7f);
    assert_eq!(bytes[1], b'E');
    assert_eq!(bytes[2], b'L');
    assert_eq!(bytes[3], b'F');
}

#[test]
fn test_resolvability_is_declaration_order_independent() {
    // Whichever order inc and main are declared in, every defined
    // Local/Export function resolves to an address after finalize.
    let resolve_both = |main_first: bool| -> (usize, usize) {
        let mut g = Generator::<JitBackend>::new(Vec::new()).unwrap();
        let inc_sig = inc_signature();
        let main_sig = main_signature();
        let (inc_id, main_id) = if main_first {
            let m = g.declare_function("main", Linkage::Export, &main_sig).unwrap();
            let i = g.declare_function("func_inc", Linkage::Export, &inc_sig).unwrap();
            (i, m)
        } else {
            let i = g.declare_function("func_inc", Linkage::Export, &inc_sig).unwrap();
            let m = g.declare_function("main", Linkage::Export, &main_sig).unwrap();
            (i, m)
        };
        let body = build_inc_body(&mut g, inc_id, &inc_sig);
        g.define_function(inc_id, body).unwrap();
        let mut func = Function::with_name_signature(
            UserFuncName::user(0, main_id as u32),
            ir_signature(&main_sig),
        );
        let inc_ref = g.reference_function_in_body(inc_id, &mut func).unwrap();
        {
            let mut fb = FunctionBuilder::new(&mut func, &mut g.function_builder_context);
            let block = fb.create_block();
            fb.switch_to_block(block);
            let v0 = fb.ins().iconst(types::I32, 13);
            let call = fb.ins().call(inc_ref, &[v0]);
            let result = fb.inst_results(call)[0];
            fb.ins().return_(&[result]);
            fb.seal_all_blocks();
            fb.finalize();
        }
        g.define_function(main_id, func).unwrap();
        g.finalize().unwrap();
        (
            g.get_function_address(inc_id).unwrap(),
            g.get_function_address(main_id).unwrap(),
        )
    };
    let (inc_a, main_a) = resolve_both(false);
    let (inc_b, main_b) = resolve_both(true);
    assert_ne!(inc_a, 0);
    assert_ne!(main_a, 0);
    assert_ne!(inc_b, 0);
    assert_ne!(main_b, 0);
}

#[test]
fn test_object_finalize_locks() {
    let mut g = Generator::<ObjectBackend>::new("main", None).unwrap();
    g.finalize().unwrap();
    let r = g.finalize();
    assert!(matches!(r, Err(AssemblerError::AlreadyFinalizedError)));
    let sig = inc_signature();
    let r = g.declare_function("late", Linkage::Export, &sig);
    assert!(matches!(r, Err(AssemblerError::AlreadyFinalizedError)));
}

#[test]
fn test_object_unsupported_target() {
    let r = Generator::<ObjectBackend>::new("main", Some("no-such-target-triple"));
    assert!(matches!(r, Err(AssemblerError::UnsupportedTarget(_))));
}

#[test]
fn test_object_import_function_stays_unresolved() {
    // An Import declaration survives into the artifact for the external
    // linker; the object still emits.
    let mut g = Generator::<ObjectBackend>::new("main", None).unwrap();
    let add_sig = FunctionSignature::new(
        vec![ValueType::I32, ValueType::I32],
        vec![ValueType::I32],
    );
    let add_id = g.declare_function("add", Linkage::Import, &add_sig).unwrap();
    let main_sig = main_signature();
    let main_id = g.declare_function("main", Linkage::Export, &main_sig).unwrap();
    let mut func = Function::with_name_signature(
        UserFuncName::user(0, main_id as u32),
        ir_signature(&main_sig),
    );
    let add_ref = g.reference_function_in_body(add_id, &mut func).unwrap();
    {
        let mut fb = FunctionBuilder::new(&mut func, &mut g.function_builder_context);
        let block = fb.create_block();
        fb.switch_to_block(block);
        let v0 = fb.ins().iconst(types::I32, 11);
        let v1 = fb.ins().iconst(types::I32, 13);
        let call = fb.ins().call(add_ref, &[v0, v1]);
        let result = fb.inst_results(call)[0];
        fb.ins().return_(&[result]);
        fb.seal_all_blocks();
        fb.finalize();
    }
    g.define_function(main_id, func).unwrap();
    let bytes = g.finalize().unwrap();
    assert_eq!(bytes[0], 0x7f);
}

#[test]
fn test_reference_undeclared_symbol() {
    let mut g = Generator::<JitBackend>::new(Vec::new()).unwrap();
    let sig = main_signature();
    let mut func =
        Function::with_name_signature(UserFuncName::user(0, 0), ir_signature(&sig));
    let r = g.reference_function_in_body(2, &mut func);
    assert!(matches!(r, Err(AssemblerError::UndeclaredSymbolError)));
    let r = g.reference_data_in_body(0, &mut func);
    assert!(matches!(r, Err(AssemblerError::UndeclaredSymbolError)));
}
