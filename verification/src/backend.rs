//! The boundary with the code-generation backend.
//!
//! Everything the library asks of cranelift goes through this module: each
//! wrapper makes exactly one backend call, and its contract states only what
//! the backend's own source shows.  The `uninterp` functions below give names
//! to the parts of the backend's state that the contracts speak about:
//!
//! * a module maps symbol names to numeric ids (functions and data objects
//!   live in one namespace, but carry ids of different kinds);
//! * defining a symbol marks its id as defined, exactly once;
//! * a function builder has an insertion point that must be open before
//!   instructions can be appended, and every inserted block must be closed by
//!   a terminator before the builder may be finalized.

use vstd::prelude::*;
use crate::CompileError;
use cranelift::codegen::ir::Function;
use cranelift::codegen::ir::UserFuncName;
use cranelift::prelude::AbiParam;
use cranelift::prelude::EntityRef;
use cranelift::prelude::InstBuilder;

verus! {

#[verifier::external_type_specification]
#[verifier::external_body]
pub struct ExJitModule(cranelift_jit::JITModule);

#[verifier::external_type_specification]
#[verifier::external_body]
pub struct ExFuncId(cranelift_module::FuncId);

#[verifier::external_type_specification]
#[verifier::external_body]
pub struct ExDataId(cranelift_module::DataId);

#[verifier::external_type_specification]
#[verifier::external_body]
pub struct ExLinkage(cranelift_module::Linkage);

#[verifier::external_type_specification]
#[verifier::external_body]
pub struct ExType(cranelift::prelude::Type);

#[verifier::external_type_specification]
#[verifier::external_body]
pub struct ExValue(cranelift::prelude::Value);

#[verifier::external_type_specification]
#[verifier::external_body]
pub struct ExVariable(cranelift::frontend::Variable);

#[verifier::external_type_specification]
#[verifier::external_body]
pub struct ExFuncRef(cranelift::codegen::ir::FuncRef);

#[verifier::external_type_specification]
#[verifier::external_body]
pub struct ExGlobalValue(cranelift::codegen::ir::GlobalValue);

#[verifier::external_type_specification]
#[verifier::external_body]
pub struct ExSignature(cranelift::codegen::ir::Signature);

#[verifier::external_type_specification]
#[verifier::external_body]
pub struct ExContext(cranelift::codegen::Context);

#[verifier::external_type_specification]
#[verifier::external_body]
pub struct ExFunctionBuilderContext(cranelift::frontend::FunctionBuilderContext);

#[verifier::external_type_specification]
#[verifier::external_body]
pub struct ExFunctionBuilder<'a>(cranelift::frontend::FunctionBuilder<'a>);

/// The names a module has declared as functions, each with the numeric index
/// of its `FuncId`.
pub uninterp spec fn jit_funcs(m: cranelift_jit::JITModule) -> Map<Seq<char>, int>;

/// The names a module has declared as data objects, each with the numeric
/// index of its `DataId`.
pub uninterp spec fn jit_data(m: cranelift_jit::JITModule) -> Map<Seq<char>, int>;

/// The indices of the function ids whose bodies have been defined.
pub uninterp spec fn jit_defined_funcs(m: cranelift_jit::JITModule) -> Set<int>;

/// The indices of the data ids whose contents have been defined.
pub uninterp spec fn jit_defined_data(m: cranelift_jit::JITModule) -> Set<int>;

/// The numeric index carried by a `FuncId`.
pub uninterp spec fn func_index(id: cranelift_module::FuncId) -> int;

/// The numeric index carried by a `DataId`.
pub uninterp spec fn data_index(id: cranelift_module::DataId) -> int;

/// The numeric index carried by a `Variable`.
pub uninterp spec fn var_index(v: cranelift::frontend::Variable) -> int;

/// A builder is open when an insertion point is set on a block that has not
/// yet been closed by a terminator, so instructions may be appended.
pub uninterp spec fn builder_open(f: cranelift::frontend::FunctionBuilder) -> bool;

/// A builder is filled when every block inserted in the function layout ends
/// in exactly one terminator, which is what finalization demands.
pub uninterp spec fn builder_filled(f: cranelift::frontend::FunctionBuilder) -> bool;

/// A builder context is clean when it holds no state from an earlier
/// function, as a fresh context does and as a finalized builder leaves it.
pub uninterp spec fn fbc_clean(c: cranelift::frontend::FunctionBuilderContext) -> bool;

/// A complete, injective encoding of one ABI parameter's content (value
/// type, purpose, extension) for the plain parameter `AbiParam::new(t)`.
pub uninterp spec fn param_code(t: cranelift::prelude::Type) -> int;

/// The encodings of a signature's parameters, in order.  A parameter built
/// by `AbiParam::new(t)` encodes as `param_code(t)`.
pub uninterp spec fn sig_params(s: cranelift::codegen::ir::Signature) -> Seq<int>;

/// The encodings of a signature's return slots, in order.
pub uninterp spec fn sig_rets(s: cranelift::codegen::ir::Signature) -> Seq<int>;

/// A complete, injective encoding of a signature's calling convention.
pub uninterp spec fn sig_conv(s: cranelift::codegen::ir::Signature) -> int;

/// The encoding of the module's default calling convention, which
/// `make_signature` installs in every fresh signature.
pub uninterp spec fn jit_conv(m: cranelift_jit::JITModule) -> int;

/// A complete, injective encoding of a linkage classification.
pub uninterp spec fn linkage_code(l: cranelift_module::Linkage) -> int;

/// Whether a linkage is the import classification.
pub uninterp spec fn is_import(l: cranelift_module::Linkage) -> bool;

/// For each name declared as a function: the recorded signature's parameter
/// encodings, return encodings and calling-convention encoding, and the
/// encoding of the currently recorded linkage (which later declarations of
/// the same name may merge).
pub uninterp spec fn jit_func_sigs(m: cranelift_jit::JITModule) -> Map<
    Seq<char>,
    (Seq<int>, Seq<int>, int, int),
>;

/// The names declared as functions whose recorded linkage is import.
pub uninterp spec fn jit_func_import(m: cranelift_jit::JITModule) -> Set<Seq<char>>;

/// The names declared as data whose recorded linkage is local.
pub uninterp spec fn jit_data_local(m: cranelift_jit::JITModule) -> Set<Seq<char>>;

/// The names declared as data that are recorded writable.
pub uninterp spec fn jit_data_writable(m: cranelift_jit::JITModule) -> Set<Seq<char>>;

/// For each defined data name, the exact bytes its definition was committed
/// with.
pub uninterp spec fn jit_data_bytes(m: cranelift_jit::JITModule) -> Map<Seq<char>, Seq<u8>>;

/// A complete, injective encoding of a value type.
pub uninterp spec fn type_code(t: cranelift::prelude::Type) -> int;

/// The encoding of the type of a pointer on the module's target.
pub uninterp spec fn jit_ptr_code(m: cranelift_jit::JITModule) -> int;

/// The numeric index carried by an SSA value.
pub uninterp spec fn value_index(v: cranelift::prelude::Value) -> int;

/// The numeric index carried by a global-value reference.
pub uninterp spec fn gv_index(g: cranelift::codegen::ir::GlobalValue) -> int;

/// The instructions appended through this builder, in order, each encoded as
/// a tuple.  A symbol-address instruction producing value `out` from global
/// value `g` at type `ty` encodes as `(0, ty, g, out)`; a plain load of type
/// `ty` at offset zero from address `a` producing `out` as `(1, ty, a, out)`;
/// a plain store of value `v` at offset zero to address `a` as
/// `(2, v, a, 0)`; any other instruction as a tuple whose first component is
/// at least 3.
pub uninterp spec fn builder_insts(f: cranelift::frontend::FunctionBuilder) -> Seq<
    (int, int, int, int),
>;

/// For each global value (by index) bound into the body under construction
/// from a declared data symbol, the index of the data id it denotes.
pub uninterp spec fn builder_data_syms(f: cranelift::frontend::FunctionBuilder) -> Map<int, int>;

/// Whether the context's function has an entry block in its layout.  The
/// CLIF verifier accepts a function with no blocks at all, but the backend's
/// compilation aborts on one, so the pipeline screens it out before
/// definition.
pub uninterp spec fn ctx_has_entry(c: cranelift::codegen::Context) -> bool;

/// True when a module has no declarations at all, as `JITModule::new` leaves
/// it.
pub open spec fn module_fresh(m: cranelift_jit::JITModule) -> bool {
    &&& jit_funcs(m) == Map::<Seq<char>, int>::empty()
    &&& jit_data(m) == Map::<Seq<char>, int>::empty()
    &&& jit_defined_funcs(m) == Set::<int>::empty()
    &&& jit_defined_data(m) == Set::<int>::empty()
    &&& jit_func_sigs(m) == Map::<Seq<char>, (Seq<int>, Seq<int>, int, int)>::empty()
    &&& jit_func_import(m) == Set::<Seq<char>>::empty()
    &&& jit_data_local(m) == Set::<Seq<char>>::empty()
    &&& jit_data_writable(m) == Set::<Seq<char>>::empty()
    &&& jit_data_bytes(m) == Map::<Seq<char>, Seq<u8>>::empty()
}

/// True when everything the model records about function symbols is
/// unchanged from `a` to `b`.
pub open spec fn jit_funcs_same(a: cranelift_jit::JITModule, b: cranelift_jit::JITModule) -> bool {
    &&& jit_funcs(b) == jit_funcs(a)
    &&& jit_defined_funcs(b) == jit_defined_funcs(a)
    &&& jit_func_sigs(b) == jit_func_sigs(a)
    &&& jit_func_import(b) == jit_func_import(a)
}

/// True when everything the model records about data symbols is unchanged
/// from `a` to `b`.
pub open spec fn jit_data_same(a: cranelift_jit::JITModule, b: cranelift_jit::JITModule) -> bool {
    &&& jit_data(b) == jit_data(a)
    &&& jit_defined_data(b) == jit_defined_data(a)
    &&& jit_data_local(b) == jit_data_local(a)
    &&& jit_data_writable(b) == jit_data_writable(a)
    &&& jit_data_bytes(b) == jit_data_bytes(a)
}

/// True when the module's target constants are unchanged from `a` to `b`
/// (they never change; declarations and definitions keep them).
pub open spec fn jit_consts_same(a: cranelift_jit::JITModule, b: cranelift_jit::JITModule) -> bool {
    &&& jit_conv(b) == jit_conv(a)
    &&& jit_ptr_code(b) == jit_ptr_code(a)
}

/// True when the whole recorded module state of `b` is unchanged from `a`.
pub open spec fn jit_same(a: cranelift_jit::JITModule, b: cranelift_jit::JITModule) -> bool {
    &&& jit_funcs_same(a, b)
    &&& jit_data_same(a, b)
    &&& jit_consts_same(a, b)
}

/// Relies on `Module::make_signature`: a fresh signature with the module's
/// default calling convention and no parameters or returns yet.
#[verifier::external_body]
pub(crate) fn make_signature(m: &cranelift_jit::JITModule) -> (r: cranelift::codegen::ir::Signature)
    ensures
        sig_params(r) == Seq::<int>::empty(),
        sig_rets(r) == Seq::<int>::empty(),
        sig_conv(r) == jit_conv(*m),
{
    cranelift_module::Module::make_signature(m)
}

/// Relies on `Vec::push` on `Signature::params`, with `AbiParam::new` to wrap
/// the value type: appends one plain positional parameter of type `t`.
#[verifier::external_body]
pub(crate) fn sig_push_param(sig: &mut cranelift::codegen::ir::Signature, t: cranelift::prelude::Type)
    ensures
        sig_params(*final(sig)) == sig_params(*old(sig)).push(param_code(t)),
        sig_rets(*final(sig)) == sig_rets(*old(sig)),
        sig_conv(*final(sig)) == sig_conv(*old(sig)),
{
    sig.params.push(AbiParam::new(t));
}

/// Relies on `Vec::push` on `Signature::returns`, with `AbiParam::new` to
/// wrap the value type: appends one plain return slot of type `t`.
#[verifier::external_body]
pub(crate) fn sig_push_return(sig: &mut cranelift::codegen::ir::Signature, t: cranelift::prelude::Type)
    ensures
        sig_rets(*final(sig)) == sig_rets(*old(sig)).push(param_code(t)),
        sig_params(*final(sig)) == sig_params(*old(sig)),
        sig_conv(*final(sig)) == sig_conv(*old(sig)),
{
    sig.returns.push(AbiParam::new(t));
}

/// Relies on `JITModule::declare_function` (through `ModuleDeclarations`):
/// a fresh name is given a brand-new id and recorded together with the given
/// signature and linkage; a name already declared as a function yields its
/// existing id exactly when the recorded signature equals the given one
/// (`IncompatibleSignature` otherwise), merging only the linkage; a name
/// declared as data yields `IncompatibleDeclaration`.  Both errors surface
/// here as `DuplicateSymbol`; any other rejection (this backend version has
/// none) would surface as `BackendDeclaration`.
#[verifier::external_body]
pub(crate) fn declare_function(
    m: &mut cranelift_jit::JITModule,
    name: &str,
    linkage: cranelift_module::Linkage,
    sig: &cranelift::codegen::ir::Signature,
) -> (r: Result<cranelift_module::FuncId, CompileError>)
    ensures
        !jit_funcs(*old(m)).contains_key(name@) && !jit_data(*old(m)).contains_key(name@)
            ==> r.is_ok(),
        jit_funcs(*old(m)).contains_key(name@) && jit_func_sigs(*old(m)).contains_key(name@)
            ==> (r.is_ok() <==> {
            &&& (jit_func_sigs(*old(m))[name@]).0 == sig_params(*sig)
            &&& (jit_func_sigs(*old(m))[name@]).1 == sig_rets(*sig)
            &&& (jit_func_sigs(*old(m))[name@]).2 == sig_conv(*sig)
        }),
        r.is_ok() && jit_funcs(*old(m)).contains_key(name@) ==> {
            &&& func_index(r->Ok_0) == jit_funcs(*old(m))[name@]
            &&& jit_funcs(*final(m)) == jit_funcs(*old(m))
            &&& jit_defined_funcs(*final(m)) == jit_defined_funcs(*old(m))
            &&& jit_data_same(*old(m), *final(m))
            &&& jit_consts_same(*old(m), *final(m))
            &&& jit_func_sigs(*final(m)).dom() == jit_func_sigs(*old(m)).dom()
            &&& forall|n: Seq<char>|
                n != name@ && jit_func_sigs(*old(m)).contains_key(n) ==> jit_func_sigs(
                    *final(m),
                )[n] == jit_func_sigs(*old(m))[n]
            &&& jit_func_sigs(*final(m)).contains_key(name@)
            &&& (jit_func_sigs(*final(m))[name@]).0 == sig_params(*sig)
            &&& (jit_func_sigs(*final(m))[name@]).1 == sig_rets(*sig)
            &&& (jit_func_sigs(*final(m))[name@]).2 == sig_conv(*sig)
            &&& (jit_func_import(*final(m)).contains(name@) <==> (jit_func_import(
                *old(m),
            ).contains(name@) && is_import(linkage)))
            &&& forall|n: Seq<char>|
                n != name@ ==> (jit_func_import(*final(m)).contains(n) <==> jit_func_import(
                    *old(m),
                ).contains(n))
        },
        r.is_ok() && !jit_funcs(*old(m)).contains_key(name@) ==> {
            &&& jit_funcs(*final(m)) == jit_funcs(*old(m)).insert(name@, func_index(r->Ok_0))
            &&& forall|n: Seq<char>| jit_funcs(*old(m)).contains_key(n)
                ==> jit_funcs(*old(m))[n] != func_index(r->Ok_0)
            &&& !jit_func_sigs(*old(m)).contains_key(name@)
            &&& jit_func_sigs(*final(m)) == jit_func_sigs(*old(m)).insert(
                name@,
                (sig_params(*sig), sig_rets(*sig), sig_conv(*sig), linkage_code(linkage)),
            )
            &&& (jit_func_import(*final(m)).contains(name@) <==> is_import(linkage))
            &&& forall|n: Seq<char>|
                n != name@ ==> (jit_func_import(*final(m)).contains(n) <==> jit_func_import(
                    *old(m),
                ).contains(n))
            &&& jit_defined_funcs(*final(m)) == jit_defined_funcs(*old(m))
            &&& jit_data_same(*old(m), *final(m))
            &&& jit_consts_same(*old(m), *final(m))
        },
        r.is_err() ==> {
            &&& jit_funcs(*final(m)) == jit_funcs(*old(m))
            &&& jit_defined_funcs(*final(m)) == jit_defined_funcs(*old(m))
            &&& jit_data_same(*old(m), *final(m))
            &&& jit_consts_same(*old(m), *final(m))
            &&& jit_func_sigs(*final(m)).dom() == jit_func_sigs(*old(m)).dom()
            &&& forall|n: Seq<char>|
                n != name@ && jit_func_sigs(*old(m)).contains_key(n) ==> jit_func_sigs(
                    *final(m),
                )[n] == jit_func_sigs(*old(m))[n]
            &&& (jit_func_sigs(*old(m)).contains_key(name@) ==> {
                &&& (jit_func_sigs(*final(m))[name@]).0 == (jit_func_sigs(*old(m))[name@]).0
                &&& (jit_func_sigs(*final(m))[name@]).1 == (jit_func_sigs(*old(m))[name@]).1
                &&& (jit_func_sigs(*final(m))[name@]).2 == (jit_func_sigs(*old(m))[name@]).2
            })
            &&& (jit_func_import(*final(m)).contains(name@) ==> jit_func_import(
                *old(m),
            ).contains(name@))
            &&& forall|n: Seq<char>|
                n != name@ ==> (jit_func_import(*final(m)).contains(n) <==> jit_func_import(
                    *old(m),
                ).contains(n))
            &&& r->Err_0 is DuplicateSymbol
        },
        jit_data(*old(m)).contains_key(name@) ==> r.is_err(),
{
    match cranelift_module::Module::declare_function(m, name, linkage, sig) {
        Ok(id) => Ok(id),
        Err(
            e @ (cranelift_module::ModuleError::IncompatibleDeclaration(_)
            | cranelift_module::ModuleError::IncompatibleSignature(..)),
        ) => Err(CompileError::DuplicateSymbol(format!("{e}"))),
        Err(e) => Err(CompileError::BackendDeclaration(format!("{e}"))),
    }
}

/// Relies on `JITModule::declare_data` with local linkage and no TLS: a fresh
/// name is given a brand-new id, recorded local and writable exactly as
/// asked; a name already declared as data is merged (writability can only
/// widen, the local linkage never narrows it) and yields its existing id; a
/// name declared as a function yields `IncompatibleDeclaration`, surfaced
/// here as `DuplicateSymbol`; any other rejection (this backend version has
/// none) would surface as `BackendDeclaration`.
#[verifier::external_body]
pub(crate) fn declare_data(
    m: &mut cranelift_jit::JITModule,
    name: &str,
    writable: bool,
) -> (r: Result<cranelift_module::DataId, CompileError>)
    ensures
        !jit_funcs(*old(m)).contains_key(name@) && !jit_data(*old(m)).contains_key(name@)
            ==> r.is_ok(),
        r.is_ok() && jit_data(*old(m)).contains_key(name@) ==> {
            &&& data_index(r->Ok_0) == jit_data(*old(m))[name@]
            &&& jit_funcs_same(*old(m), *final(m))
            &&& jit_consts_same(*old(m), *final(m))
            &&& jit_data(*final(m)) == jit_data(*old(m))
            &&& jit_defined_data(*final(m)) == jit_defined_data(*old(m))
            &&& (jit_data_local(*old(m)).contains(name@) ==> jit_data_local(*final(m)).contains(
                name@,
            ))
            &&& forall|n: Seq<char>|
                n != name@ ==> (jit_data_local(*final(m)).contains(n) <==> jit_data_local(
                    *old(m),
                ).contains(n))
            &&& jit_data_bytes(*final(m)) == jit_data_bytes(*old(m))
            &&& (writable ==> jit_data_writable(*final(m)).contains(name@))
            &&& (!writable ==> jit_data_writable(*final(m)) == jit_data_writable(*old(m)))
            &&& forall|n: Seq<char>|
                n != name@ ==> (jit_data_writable(*final(m)).contains(n) <==> jit_data_writable(
                    *old(m),
                ).contains(n))
        },
        r.is_ok() && !jit_data(*old(m)).contains_key(name@) ==> {
            &&& jit_data(*final(m)) == jit_data(*old(m)).insert(name@, data_index(r->Ok_0))
            &&& forall|n: Seq<char>| jit_data(*old(m)).contains_key(n)
                ==> jit_data(*old(m))[n] != data_index(r->Ok_0)
            &&& jit_data_local(*final(m)) == jit_data_local(*old(m)).insert(name@)
            &&& !jit_data_writable(*old(m)).contains(name@)
            &&& (jit_data_writable(*final(m)).contains(name@) <==> writable)
            &&& forall|n: Seq<char>|
                n != name@ ==> (jit_data_writable(*final(m)).contains(n) <==> jit_data_writable(
                    *old(m),
                ).contains(n))
            &&& jit_data_bytes(*final(m)) == jit_data_bytes(*old(m))
            &&& jit_defined_data(*final(m)) == jit_defined_data(*old(m))
            &&& jit_funcs_same(*old(m), *final(m))
            &&& jit_consts_same(*old(m), *final(m))
        },
        r.is_err() ==> jit_same(*old(m), *final(m)) && r->Err_0 is DuplicateSymbol,
        jit_data(*old(m)).contains_key(name@) ==> r.is_ok(),
        jit_funcs(*old(m)).contains_key(name@) ==> r.is_err(),
{
    match cranelift_module::Module::declare_data(m, name, cranelift_module::Linkage::Local, writable, false) {
        Ok(id) => Ok(id),
        Err(e @ cranelift_module::ModuleError::IncompatibleDeclaration(_)) => Err(
            CompileError::DuplicateSymbol(format!("{e}")),
        ),
        Err(e) => Err(CompileError::BackendDeclaration(format!("{e}"))),
    }
}

/// Relies on `JITModule::define_data`, with `DataDescription::define` to turn
/// the bytes into an initializer: defining an already-defined id yields
/// `DuplicateDefinition`, surfaced as `DuplicateSymbol`; otherwise the
/// contents are committed, though the JIT may still fail to allocate memory,
/// surfaced as `BackendDefinition`.  The id must be declared in this module.
#[verifier::external_body]
pub(crate) fn define_data(
    m: &mut cranelift_jit::JITModule,
    id: cranelift_module::DataId,
    bytes: Vec<u8>,
) -> (r: Result<(), CompileError>)
    requires
        exists|n: Seq<char>| jit_data(*old(m)).contains_pair(n, data_index(id)),
    ensures
        jit_defined_data(*old(m)).contains(data_index(id))
            ==> r.is_err() && r->Err_0 is DuplicateSymbol,
        r.is_ok() ==> {
            &&& !jit_defined_data(*old(m)).contains(data_index(id))
            &&& jit_defined_data(*final(m)) == jit_defined_data(*old(m)).insert(data_index(id))
            &&& jit_data(*final(m)) == jit_data(*old(m))
            &&& jit_data_local(*final(m)) == jit_data_local(*old(m))
            &&& jit_data_writable(*final(m)) == jit_data_writable(*old(m))
            &&& forall|n: Seq<char>|
                jit_data(*old(m)).contains_pair(n, data_index(id)) ==> jit_data_bytes(
                    *final(m),
                ) == jit_data_bytes(*old(m)).insert(n, bytes@)
            &&& jit_data_bytes(*old(m)).submap_of(jit_data_bytes(*final(m)))
            &&& jit_funcs_same(*old(m), *final(m))
            &&& jit_consts_same(*old(m), *final(m))
        },
        r.is_err() ==> jit_same(*old(m), *final(m)),
        r.is_err() && !jit_defined_data(*old(m)).contains(data_index(id))
            ==> r->Err_0 is BackendDefinition,
{
    let mut desc = cranelift_module::DataDescription::new();
    desc.define(bytes.into_boxed_slice());
    match cranelift_module::Module::define_data(m, id, &desc) {
        Ok(()) => Ok(()),
        Err(e @ cranelift_module::ModuleError::DuplicateDefinition(_)) => Err(CompileError::DuplicateSymbol(format!("{e}"))),
        Err(e) => Err(CompileError::BackendDefinition(format!("{e}"))),
    }
}

/// Relies on `JITModule::define_function`: defining an already-defined id
/// yields `DuplicateDefinition`, surfaced as `DuplicateSymbol`; otherwise the
/// body is compiled and committed, and compilation or allocation failures are
/// surfaced as `BackendDefinition`.  The id must be declared in this module,
/// and the context's function must have an entry block: on an empty layout —
/// which the CLIF verifier accepts — the backend's register allocator aborts
/// instead of returning an error, so the pipeline refuses such a body before
/// ever reaching this call.
#[verifier::external_body]
pub(crate) fn define_function(
    m: &mut cranelift_jit::JITModule,
    id: cranelift_module::FuncId,
    ctx: &mut cranelift::codegen::Context,
) -> (r: Result<(), CompileError>)
    requires
        exists|n: Seq<char>| jit_funcs(*old(m)).contains_pair(n, func_index(id)),
        ctx_has_entry(*old(ctx)),
    ensures
        jit_defined_funcs(*old(m)).contains(func_index(id))
            ==> r.is_err() && r->Err_0 is DuplicateSymbol,
        r.is_ok() ==> {
            &&& !jit_defined_funcs(*old(m)).contains(func_index(id))
            &&& jit_defined_funcs(*final(m)) == jit_defined_funcs(*old(m)).insert(func_index(id))
            &&& jit_funcs(*final(m)) == jit_funcs(*old(m))
            &&& jit_func_sigs(*final(m)) == jit_func_sigs(*old(m))
            &&& jit_func_import(*final(m)) == jit_func_import(*old(m))
            &&& jit_data_same(*old(m), *final(m))
            &&& jit_consts_same(*old(m), *final(m))
        },
        r.is_err() ==> jit_same(*old(m), *final(m)),
        r.is_err() && !jit_defined_funcs(*old(m)).contains(func_index(id))
            ==> r->Err_0 is BackendDefinition,
{
    match cranelift_module::Module::define_function(m, id, ctx) {
        Ok(()) => Ok(()),
        Err(e @ cranelift_module::ModuleError::DuplicateDefinition(_)) => Err(CompileError::DuplicateSymbol(format!("{e}"))),
        Err(e) => Err(CompileError::BackendDefinition(format!("{e}"))),
    }
}

/// Relies on `Module::make_context`: a fresh compilation context set up for
/// this module's target.
#[verifier::external_body]
pub(crate) fn make_context(m: &cranelift_jit::JITModule) -> cranelift::codegen::Context {
    cranelift_module::Module::make_context(m)
}

/// Relies on `Function::with_name_signature`, with `UserFuncName::testcase`
/// to build the debug name: installs a fresh function with the given
/// signature in the context.
#[verifier::external_body]
pub(crate) fn set_context_function(
    ctx: &mut cranelift::codegen::Context,
    name: &str,
    sig: cranelift::codegen::ir::Signature,
) {
    ctx.func = Function::with_name_signature(UserFuncName::testcase(name), sig);
}

/// Relies on `FunctionBuilderContext::new`: a fresh, clean builder context.
#[verifier::external_body]
pub(crate) fn new_builder_context() -> (r: cranelift::frontend::FunctionBuilderContext)
    ensures
        fbc_clean(r),
{
    cranelift::frontend::FunctionBuilderContext::new()
}

/// Relies on `FunctionBuilder::new`, which demands a clean builder context:
/// a builder over the context's function, with no insertion point yet.
#[verifier::external_body]
pub(crate) fn new_builder<'a>(
    ctx: &'a mut cranelift::codegen::Context,
    fbc: &'a mut cranelift::frontend::FunctionBuilderContext,
) -> (r: cranelift::frontend::FunctionBuilder<'a>)
    requires
        fbc_clean(*old(fbc)),
{
    cranelift::frontend::FunctionBuilder::new(&mut ctx.func, fbc)
}

/// Relies on `FunctionBuilder::seal_all_blocks` followed by
/// `FunctionBuilder::finalize`; sealing every block first is what makes
/// finalization legal, so the two calls form one protocol step.  Finalization
/// demands that every inserted block is filled, which the caller's contract
/// supplies.
#[verifier::external_body]
pub(crate) fn seal_and_finalize(
    mut f: cranelift::frontend::FunctionBuilder<'_>,
    m: &cranelift_jit::JITModule,
)
    requires
        builder_filled(f),
{
    f.seal_all_blocks();
    f.finalize(cranelift_module::Module::target_config(m));
}

/// Relies on `Layout::entry_block`: whether the context's function has an
/// entry block, which is what makes it safe to hand to the backend's
/// compilation.
#[verifier::external_body]
pub(crate) fn context_has_entry_block(ctx: &cranelift::codegen::Context) -> (r: bool)
    ensures
        r == ctx_has_entry(*ctx),
{
    ctx.func.layout.entry_block().is_some()
}

/// Relies on `cranelift::codegen::verifier::verify_function` run with the
/// module's target flags: structural validation of the finalized body; any
/// diagnostic is surfaced as `Verification`.
#[verifier::external_body]
pub(crate) fn verify_function(
    ctx: &cranelift::codegen::Context,
    m: &cranelift_jit::JITModule,
) -> (r: Result<(), CompileError>)
    ensures
        r.is_err() ==> r->Err_0 is Verification,
{
    match cranelift::codegen::verifier::verify_function(&ctx.func, cranelift_module::Module::isa(m).flags()) {
        Ok(()) => Ok(()),
        Err(e) => Err(CompileError::Verification(format!("{e}"))),
    }
}

/// Relies on `Module::declare_func_in_func`: binds a declared function id
/// into the body under construction and hands back a body-local reference.
/// The id must be declared in this module; the builder's blocks are not
/// touched.
#[verifier::external_body]
pub(crate) fn bind_func_in_body(
    m: &mut cranelift_jit::JITModule,
    f: &mut cranelift::frontend::FunctionBuilder<'_>,
    id: cranelift_module::FuncId,
) -> (r: cranelift::codegen::ir::FuncRef)
    requires
        exists|n: Seq<char>| jit_funcs(*old(m)).contains_pair(n, func_index(id)),
    ensures
        jit_same(*old(m), *final(m)),
        builder_open(*final(f)) == builder_open(*old(f)),
        builder_filled(*final(f)) == builder_filled(*old(f)),
        builder_insts(*final(f)) == builder_insts(*old(f)),
        builder_data_syms(*final(f)) == builder_data_syms(*old(f)),
{
    cranelift_module::Module::declare_func_in_func(m, id, f.func)
}

/// Relies on `Module::declare_data_in_func`: binds a declared data id into
/// the body under construction and hands back a body-local global value.
/// The id must be declared in this module; the builder's blocks are not
/// touched.
#[verifier::external_body]
pub(crate) fn bind_data_in_body(
    m: &cranelift_jit::JITModule,
    f: &mut cranelift::frontend::FunctionBuilder<'_>,
    id: cranelift_module::DataId,
) -> (r: cranelift::codegen::ir::GlobalValue)
    requires
        exists|n: Seq<char>| jit_data(*m).contains_pair(n, data_index(id)),
    ensures
        builder_open(*final(f)) == builder_open(*old(f)),
        builder_filled(*final(f)) == builder_filled(*old(f)),
        builder_insts(*final(f)) == builder_insts(*old(f)),
        !builder_data_syms(*old(f)).contains_key(gv_index(r)),
        builder_data_syms(*final(f)) == builder_data_syms(*old(f)).insert(
            gv_index(r),
            data_index(id),
        ),
{
    cranelift_module::Module::declare_data_in_func(m, id, f.func)
}

/// Relies on `Module::target_config`: the pointer type of the target the
/// module compiles for.
#[verifier::external_body]
pub(crate) fn pointer_type(m: &cranelift_jit::JITModule) -> (r: cranelift::prelude::Type)
    ensures
        type_code(r) == jit_ptr_code(*m),
{
    cranelift_module::Module::target_config(m).pointer_type()
}

/// Relies on `InstBuilder::symbol_value` via `FunctionBuilder::ins`, which
/// demands an open insertion point: appends one instruction producing the
/// address of the bound symbol at the given type.  A non-terminator leaves
/// the block open.
#[verifier::external_body]
pub(crate) fn emit_symbol_addr(
    f: &mut cranelift::frontend::FunctionBuilder<'_>,
    ty: cranelift::prelude::Type,
    gv: cranelift::codegen::ir::GlobalValue,
) -> (r: cranelift::prelude::Value)
    requires
        builder_open(*old(f)),
    ensures
        builder_open(*final(f)),
        builder_filled(*final(f)) == builder_filled(*old(f)),
        builder_insts(*final(f)) == builder_insts(*old(f)).push(
            (0int, type_code(ty), gv_index(gv), value_index(r)),
        ),
        builder_data_syms(*final(f)) == builder_data_syms(*old(f)),
{
    f.ins().symbol_value(ty, gv)
}

/// Relies on `InstBuilder::load` via `FunctionBuilder::ins`, which demands an
/// open insertion point, with plain `MemFlags` and offset zero.  A
/// non-terminator leaves the block open.
#[verifier::external_body]
pub(crate) fn emit_load(
    f: &mut cranelift::frontend::FunctionBuilder<'_>,
    ty: cranelift::prelude::Type,
    addr: cranelift::prelude::Value,
) -> (r: cranelift::prelude::Value)
    requires
        builder_open(*old(f)),
    ensures
        builder_open(*final(f)),
        builder_filled(*final(f)) == builder_filled(*old(f)),
        builder_insts(*final(f)) == builder_insts(*old(f)).push(
            (1int, type_code(ty), value_index(addr), value_index(r)),
        ),
        builder_data_syms(*final(f)) == builder_data_syms(*old(f)),
{
    f.ins().load(ty, cranelift::codegen::ir::MemFlagsData::new(), addr, 0)
}

/// Relies on `InstBuilder::store` via `FunctionBuilder::ins`, which demands
/// an open insertion point, with plain `MemFlags` and offset zero.  A
/// non-terminator leaves the block open.
#[verifier::external_body]
pub(crate) fn emit_store(
    f: &mut cranelift::frontend::FunctionBuilder<'_>,
    val: cranelift::prelude::Value,
    addr: cranelift::prelude::Value,
)
    requires
        builder_open(*old(f)),
    ensures
        builder_open(*final(f)),
        builder_filled(*final(f)) == builder_filled(*old(f)),
        builder_insts(*final(f)) == builder_insts(*old(f)).push(
            (2int, value_index(val), value_index(addr), 0int),
        ),
        builder_data_syms(*final(f)) == builder_data_syms(*old(f)),
{
    f.ins().store(cranelift::codegen::ir::MemFlagsData::new(), val, addr, 0);
}

/// Relies on `Variable::new` (an `EntityRef` constructor): the variable
/// carrying exactly the given index, which must fit in 32 bits.
#[verifier::external_body]
pub(crate) fn make_variable(i: usize) -> (v: cranelift::frontend::Variable)
    requires
        i < 4294967295usize,
    ensures
        var_index(v) == i as int,
{
    cranelift::frontend::Variable::new(i)
}

/// Relies on the `Linkage::Import` constructor: the linkage classification
/// for symbols resolved outside the module.
#[verifier::external_body]
pub(crate) fn import_linkage() -> (r: cranelift_module::Linkage)
    ensures
        is_import(r),
{
    cranelift_module::Linkage::Import
}

} // verus!
