use cranefront::{BodyBuild, Compiler, CompileError};
use cranelift::frontend::FunctionBuilder;
use cranelift::prelude::{types, InstBuilder, Type};
use cranelift_jit::{JITBuilder, JITModule};
use cranelift_module::{FuncId, Linkage, Module};

fn fresh_compiler() -> Compiler {
    let builder = JITBuilder::new(cranelift_module::default_libcall_names()).unwrap();
    let module = JITModule::new(builder);
    Compiler::new(module)
}

/// Adds its two floating parameters and returns the sum.
struct AddBody;

impl BodyBuild for AddBody {
    fn build_body(
        &self,
        _c: &mut Compiler,
        f: &mut FunctionBuilder<'_>,
        _id: FuncId,
    ) -> Result<(), CompileError> {
        let block = f.create_block();
        f.append_block_params_for_function_params(block);
        f.switch_to_block(block);
        let a = f.block_params(block)[0];
        let b = f.block_params(block)[1];
        let s = f.ins().fadd(a, b);
        f.ins().return_(&[s]);
        Ok(())
    }
}

/// Returns immediately without a value.
struct EmptyBody;

impl BodyBuild for EmptyBody {
    fn build_body(
        &self,
        _c: &mut Compiler,
        f: &mut FunctionBuilder<'_>,
        _id: FuncId,
    ) -> Result<(), CompileError> {
        let block = f.create_block();
        f.append_block_params_for_function_params(block);
        f.switch_to_block(block);
        f.ins().return_(&[]);
        Ok(())
    }
}

/// Stores a constant into the named variable, then returns its value.
struct StoreThenLoadBody {
    name: &'static str,
    value: i64,
}

impl BodyBuild for StoreThenLoadBody {
    fn build_body(
        &self,
        c: &mut Compiler,
        f: &mut FunctionBuilder<'_>,
        _id: FuncId,
    ) -> Result<(), CompileError> {
        let block = f.create_block();
        f.append_block_params_for_function_params(block);
        f.switch_to_block(block);
        let v = f.ins().iconst(types::I64, self.value);
        c.store_var(self.name, v, f)?;
        let loaded = c.load_var(self.name, types::I64, f)?;
        f.ins().return_(&[loaded]);
        Ok(())
    }
}

/// Loads a named variable and returns it.
struct LoadBody {
    name: &'static str,
}

impl BodyBuild for LoadBody {
    fn build_body(
        &self,
        c: &mut Compiler,
        f: &mut FunctionBuilder<'_>,
        _id: FuncId,
    ) -> Result<(), CompileError> {
        let block = f.create_block();
        f.append_block_params_for_function_params(block);
        f.switch_to_block(block);
        let loaded = c.load_var(self.name, types::I64, f)?;
        f.ins().return_(&[loaded]);
        Ok(())
    }
}

/// Stores a constant into a variable that was never created.
struct StoreUnknownBody;

impl BodyBuild for StoreUnknownBody {
    fn build_body(
        &self,
        c: &mut Compiler,
        f: &mut FunctionBuilder<'_>,
        _id: FuncId,
    ) -> Result<(), CompileError> {
        let block = f.create_block();
        f.append_block_params_for_function_params(block);
        f.switch_to_block(block);
        let v = f.ins().iconst(types::I64, 1);
        c.store_var("never_created", v, f)?;
        f.ins().return_(&[]);
        Ok(())
    }
}

/// Takes the address of a variable that was never created.
struct AddressUnknownBody;

impl BodyBuild for AddressUnknownBody {
    fn build_body(
        &self,
        c: &mut Compiler,
        f: &mut FunctionBuilder<'_>,
        _id: FuncId,
    ) -> Result<(), CompileError> {
        let block = f.create_block();
        f.append_block_params_for_function_params(block);
        f.switch_to_block(block);
        let _addr = c.var_ptr("never_created", f)?;
        f.ins().return_(&[]);
        Ok(())
    }
}

/// Inserts no blocks at all and reports success.
struct NoBlocksBody;

impl BodyBuild for NoBlocksBody {
    fn build_body(
        &self,
        _c: &mut Compiler,
        _f: &mut FunctionBuilder<'_>,
        _id: FuncId,
    ) -> Result<(), CompileError> {
        Ok(())
    }
}

/// Jumps to a block that is never filled with instructions or a terminator.
struct DanglingJumpBody;

impl BodyBuild for DanglingJumpBody {
    fn build_body(
        &self,
        _c: &mut Compiler,
        f: &mut FunctionBuilder<'_>,
        _id: FuncId,
    ) -> Result<(), CompileError> {
        let entry = f.create_block();
        f.append_block_params_for_function_params(entry);
        f.switch_to_block(entry);
        let dangling = f.create_block();
        f.ins().jump(dangling, &[]);
        Ok(())
    }
}

/// Imports an external function into the body, without calling it.
struct ImportingBody;

impl BodyBuild for ImportingBody {
    fn build_body(
        &self,
        c: &mut Compiler,
        f: &mut FunctionBuilder<'_>,
        _id: FuncId,
    ) -> Result<(), CompileError> {
        let params: Vec<Type> = vec![types::F64];
        let fref = c.import_func("fabs", &params, Some(types::F64), f)?;
        let _ = fref;
        let block = f.create_block();
        f.append_block_params_for_function_params(block);
        f.switch_to_block(block);
        f.ins().return_(&[]);
        Ok(())
    }
}

#[test]
fn compile_add_registers_function() {
    let mut c = fresh_compiler();
    let params: Vec<Type> = vec![types::F64, types::F64];
    let id = c
        .compile_func("add", &params, Some(types::F64), Linkage::Export, &AddBody)
        .unwrap();
    assert_eq!(c.functions.get("add"), Some(id));
    assert!(c.module.get_name("add").is_some());
}

#[test]
fn duplicate_function_name_rejected() {
    let mut c = fresh_compiler();
    let params: Vec<Type> = vec![types::F64, types::F64];
    c.compile_func("twice", &params, Some(types::F64), Linkage::Local, &AddBody)
        .unwrap();
    let second = c.compile_func("twice", &params, Some(types::F64), Linkage::Local, &AddBody);
    assert!(matches!(second, Err(CompileError::DuplicateSymbol(_))));
}

/// Creates a side-effect variable before finishing the body.
struct SideEffectBody;

impl BodyBuild for SideEffectBody {
    fn build_body(
        &self,
        c: &mut Compiler,
        f: &mut FunctionBuilder<'_>,
        _id: FuncId,
    ) -> Result<(), CompileError> {
        c.create_var("leftover")?;
        let block = f.create_block();
        f.append_block_params_for_function_params(block);
        f.switch_to_block(block);
        f.ins().return_(&[]);
        Ok(())
    }
}

#[test]
fn duplicate_compile_rejected_before_body_runs() {
    let mut c = fresh_compiler();
    let params: Vec<Type> = vec![];
    c.compile_func("again", &params, None, Linkage::Local, &EmptyBody)
        .unwrap();
    let second = c.compile_func("again", &params, None, Linkage::Local, &SideEffectBody);
    assert!(matches!(second, Err(CompileError::DuplicateSymbol(_))));
    assert!(c.vars.get("leftover").is_none());
    assert_eq!(c.functions.get("again").is_some(), true);
}

#[test]
fn distinct_names_distinct_handles() {
    let mut c = fresh_compiler();
    let params: Vec<Type> = vec![];
    let id1 = c
        .compile_func("first", &params, None, Linkage::Local, &EmptyBody)
        .unwrap();
    let id2 = c
        .compile_func("second", &params, None, Linkage::Local, &EmptyBody)
        .unwrap();
    assert_ne!(id1, id2);
    assert_eq!(c.functions.get("first"), Some(id1));
    assert_eq!(c.functions.get("second"), Some(id2));
}

#[test]
fn variable_roundtrip_compiles() {
    let mut c = fresh_compiler();
    c.create_var("x").unwrap();
    let params: Vec<Type> = vec![];
    let body = StoreThenLoadBody { name: "x", value: 42 };
    let r = c.compile_func("roundtrip", &params, Some(types::I64), Linkage::Local, &body);
    assert!(r.is_ok());
}

#[test]
fn variable_usable_in_later_function() {
    let mut c = fresh_compiler();
    c.create_var("cell").unwrap();
    let params: Vec<Type> = vec![];
    let store = StoreThenLoadBody { name: "cell", value: 7 };
    c.compile_func("writer", &params, Some(types::I64), Linkage::Local, &store)
        .unwrap();
    let load = LoadBody { name: "cell" };
    let r = c.compile_func("reader", &params, Some(types::I64), Linkage::Local, &load);
    assert!(r.is_ok());
}

#[test]
fn unknown_variable_rejected() {
    let mut c = fresh_compiler();
    let params: Vec<Type> = vec![];
    let body = LoadBody { name: "never_created" };
    let r = c.compile_func("oops", &params, Some(types::I64), Linkage::Local, &body);
    assert!(matches!(r, Err(CompileError::UnknownVariable(_))));
    assert_eq!(c.functions.get("oops"), None);
}

#[test]
fn unknown_variable_store_rejected() {
    let mut c = fresh_compiler();
    let params: Vec<Type> = vec![];
    let r = c.compile_func("oops_store", &params, None, Linkage::Local, &StoreUnknownBody);
    assert!(matches!(r, Err(CompileError::UnknownVariable(_))));
    assert_eq!(c.functions.get("oops_store"), None);
}

#[test]
fn unknown_variable_address_rejected() {
    let mut c = fresh_compiler();
    let params: Vec<Type> = vec![];
    let r = c.compile_func("oops_addr", &params, None, Linkage::Local, &AddressUnknownBody);
    assert!(matches!(r, Err(CompileError::UnknownVariable(_))));
    assert_eq!(c.functions.get("oops_addr"), None);
}

#[test]
fn duplicate_variable_rejected() {
    let mut c = fresh_compiler();
    c.create_var("x").unwrap();
    let second = c.create_var("x");
    assert!(matches!(second, Err(CompileError::DuplicateSymbol(_))));
}

#[test]
fn variable_name_clashing_with_function_rejected() {
    let mut c = fresh_compiler();
    let params: Vec<Type> = vec![];
    c.compile_func("taken", &params, None, Linkage::Local, &EmptyBody)
        .unwrap();
    let r = c.create_var("taken");
    assert!(matches!(r, Err(CompileError::DuplicateSymbol(_))));
}

#[test]
fn anonymous_data_never_deduplicated() {
    let mut c = fresh_compiler();
    let id1 = c.create_data(vec![1, 2, 3]).unwrap();
    let id2 = c.create_data(vec![1, 2, 3]).unwrap();
    assert_ne!(id1, id2);
    assert!(c.module.get_name("data_0").is_some());
    assert!(c.module.get_name("data_1").is_some());
}

#[test]
fn anonymous_name_collision_surfaces() {
    let mut c = fresh_compiler();
    c.create_var("data_0").unwrap();
    let r = c.create_data(vec![9]);
    assert!(matches!(r, Err(CompileError::DuplicateSymbol(_))));
    let r2 = c.create_data(vec![9]);
    assert!(r2.is_ok());
    assert!(c.module.get_name("data_1").is_some());
}

#[test]
fn body_without_blocks_rejected() {
    let mut c = fresh_compiler();
    let params: Vec<Type> = vec![];
    let r = c.compile_func("empty_body", &params, None, Linkage::Local, &NoBlocksBody);
    assert!(matches!(r, Err(CompileError::Verification(_))));
    assert_eq!(c.functions.get("empty_body"), None);
}

#[test]
fn missing_terminator_fails_verification() {
    let mut c = fresh_compiler();
    let params: Vec<Type> = vec![];
    let r = c.compile_func("dangling", &params, None, Linkage::Local, &DanglingJumpBody);
    assert!(matches!(r, Err(CompileError::Verification(_))));
    assert_eq!(c.functions.get("dangling"), None);
}

#[test]
fn import_resolves_inside_body() {
    let mut c = fresh_compiler();
    let params: Vec<Type> = vec![];
    let r = c.compile_func("importer", &params, None, Linkage::Local, &ImportingBody);
    assert!(r.is_ok());
}

#[test]
fn new_var_handles_are_distinct() {
    let mut c = fresh_compiler();
    let v1 = c.new_var();
    let v2 = c.new_var();
    let v3 = c.new_var();
    assert_ne!(v1, v2);
    assert_ne!(v2, v3);
    assert_ne!(v1, v3);
}
