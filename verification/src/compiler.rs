//! The orchestration layer: drives the backend through its
//! declare → build → seal → finalize → verify → define protocol and keeps
//! the session's symbol bookkeeping.

use vstd::prelude::*;
use crate::CompileError;
use crate::backend::bind_data_in_body;
use crate::backend::bind_func_in_body;
use crate::backend::context_has_entry_block;
use crate::backend::builder_data_syms;
use crate::backend::builder_filled;
use crate::backend::builder_insts;
use crate::backend::builder_open;
use crate::backend::data_index;
use crate::backend::gv_index;
use crate::backend::is_import;
use crate::backend::jit_consts_same;
use crate::backend::jit_conv;
use crate::backend::jit_data_bytes;
use crate::backend::jit_data_local;
use crate::backend::jit_data_same;
use crate::backend::jit_data_writable;
use crate::backend::jit_func_import;
use crate::backend::jit_func_sigs;
use crate::backend::jit_funcs_same;
use crate::backend::jit_ptr_code;
use crate::backend::linkage_code;
use crate::backend::param_code;
use crate::backend::sig_conv;
use crate::backend::sig_params;
use crate::backend::sig_rets;
use crate::backend::type_code;
use crate::backend::value_index;
use crate::backend::declare_data;
use crate::backend::declare_function;
use crate::backend::define_data;
use crate::backend::define_function;
use crate::backend::emit_load;
use crate::backend::emit_store;
use crate::backend::emit_symbol_addr;
use crate::backend::func_index;
use crate::backend::import_linkage;
use crate::backend::jit_data;
use crate::backend::jit_defined_data;
use crate::backend::jit_defined_funcs;
use crate::backend::jit_funcs;
use crate::backend::make_context;
use crate::backend::make_signature;
use crate::backend::make_variable;
use crate::backend::module_fresh;
use crate::backend::new_builder;
use crate::backend::new_builder_context;
use crate::backend::pointer_type;
use crate::backend::seal_and_finalize;
use crate::backend::var_index;
use crate::backend::set_context_function;
use crate::backend::sig_push_param;
use crate::backend::sig_push_return;
use crate::backend::verify_function;
use crate::names::anon_data_name;
use crate::names::render_anon_name;
use crate::table::SymbolTable;
use cranelift::codegen::ir::FuncRef;
use cranelift::frontend::FunctionBuilder;
use cranelift::frontend::Variable;
use cranelift::prelude::Type;
use cranelift::prelude::Value;
use cranelift_jit::JITModule;
use cranelift_module::DataId;
use cranelift_module::FuncId;
use cranelift_module::Linkage;

verus! {

/// The parameter encodings of a signature built from these value types.
pub open spec fn param_codes(params: Seq<Type>) -> Seq<int> {
    params.map_values(|t: Type| param_code(t))
}

/// The return-slot encodings of a signature built from this optional return
/// type.
pub open spec fn ret_codes(ret: Option<Type>) -> Seq<int> {
    match ret {
        Some(t) => seq![param_code(t)],
        None => Seq::empty(),
    }
}

/// The eight zero bytes a fresh variable cell is defined with.
pub open spec fn cell_zeros() -> Seq<u8> {
    seq![0u8, 0u8, 0u8, 0u8, 0u8, 0u8, 0u8, 0u8]
}

/// A code-generation session: the exclusively-owned backend module, two
/// monotonic counters, and the session's symbol tables.
pub struct Compiler {
    /// The backend module every declaration and definition flows through.
    pub module: JITModule,
    /// Allocation number for the next anonymous data symbol.
    pub data_id_counter: usize,
    /// Allocation number for the next builder-local variable handle.
    pub var_id_counter: usize,
    /// Names registered as mutable variable cells, with their data handles.
    pub vars: SymbolTable<DataId>,
    /// Names registered as compiled functions, with their function handles.
    pub functions: SymbolTable<FuncId>,
}

impl Compiler {
    /// The bookkeeping is in step with the backend: every table entry names
    /// a declared and defined symbol; ids are assigned one per name; every
    /// defined function is one this session compiled and registered.
    pub open spec fn wf(self) -> bool {
        &&& forall|n: Seq<char>| #[trigger] self.functions@.contains_key(n) ==> {
            &&& jit_funcs(self.module).contains_pair(n, func_index(self.functions@[n]))
            &&& jit_defined_funcs(self.module).contains(func_index(self.functions@[n]))
        }
        &&& forall|n: Seq<char>| #[trigger] self.vars@.contains_key(n) ==> {
            &&& jit_data(self.module).contains_pair(n, data_index(self.vars@[n]))
            &&& jit_defined_data(self.module).contains(data_index(self.vars@[n]))
        }
        &&& forall|j: int| #[trigger] jit_defined_funcs(self.module).contains(j)
            ==> exists|n: Seq<char>| jit_funcs(self.module).contains_pair(n, j)
        &&& forall|j: int| #[trigger] jit_defined_data(self.module).contains(j)
            ==> exists|n: Seq<char>| jit_data(self.module).contains_pair(n, j)
        &&& forall|n: Seq<char>| #[trigger] jit_funcs(self.module).contains_key(n)
            && jit_defined_funcs(self.module).contains(jit_funcs(self.module)[n])
            ==> self.functions@.contains_key(n)
                && func_index(self.functions@[n]) == jit_funcs(self.module)[n]
        &&& forall|n1: Seq<char>, n2: Seq<char>|
            jit_funcs(self.module).contains_key(n1) && jit_funcs(self.module).contains_key(n2)
                && n1 != n2 ==> jit_funcs(self.module)[n1] != jit_funcs(self.module)[n2]
        &&& forall|n1: Seq<char>, n2: Seq<char>|
            jit_data(self.module).contains_key(n1) && jit_data(self.module).contains_key(n2)
                && n1 != n2 ==> jit_data(self.module)[n1] != jit_data(self.module)[n2]
    }

    /// The session only ever grows: no symbol, table entry or counter is
    /// ever taken back; a declared function keeps its recorded signature,
    /// and only a re-declaration can strip its import status.
    pub open spec fn extends(pre: Compiler, post: Compiler) -> bool {
        &&& pre.functions@.submap_of(post.functions@)
        &&& pre.vars@.submap_of(post.vars@)
        &&& jit_funcs(pre.module).submap_of(jit_funcs(post.module))
        &&& jit_data(pre.module).submap_of(jit_data(post.module))
        &&& jit_defined_funcs(pre.module).subset_of(jit_defined_funcs(post.module))
        &&& jit_defined_data(pre.module).subset_of(jit_defined_data(post.module))
        &&& forall|n: Seq<char>| #[trigger] jit_func_sigs(pre.module).contains_key(n) ==> {
            &&& jit_func_sigs(post.module).contains_key(n)
            &&& (jit_func_sigs(post.module)[n]).0 == (jit_func_sigs(pre.module)[n]).0
            &&& (jit_func_sigs(post.module)[n]).1 == (jit_func_sigs(pre.module)[n]).1
            &&& (jit_func_sigs(post.module)[n]).2 == (jit_func_sigs(pre.module)[n]).2
        }
        &&& forall|n: Seq<char>|
            jit_funcs(pre.module).contains_key(n) && #[trigger] jit_func_import(
                post.module,
            ).contains(n) ==> jit_func_import(pre.module).contains(n)
        &&& jit_data_bytes(pre.module).submap_of(jit_data_bytes(post.module))
        &&& jit_data_writable(pre.module).subset_of(jit_data_writable(post.module))
        &&& jit_data_local(pre.module).subset_of(jit_data_local(post.module))
        &&& jit_consts_same(pre.module, post.module)
        &&& pre.data_id_counter <= post.data_id_counter
        &&& pre.var_id_counter <= post.var_id_counter
    }
}

/// Growth composes across successive operations.
#[verifier::rlimit(50)]
pub proof fn lemma_extends_trans(a: Compiler, b: Compiler, c: Compiler)
    requires
        Compiler::extends(a, b),
        Compiler::extends(b, c),
    ensures
        Compiler::extends(a, c),
{
    broadcast use vstd::map_lib::lemma_submap_of_trans;
    assert forall|n: Seq<char>| #[trigger] jit_func_sigs(a.module).contains_key(n) implies {
        &&& jit_func_sigs(c.module).contains_key(n)
        &&& (jit_func_sigs(c.module)[n]).0 == (jit_func_sigs(a.module)[n]).0
        &&& (jit_func_sigs(c.module)[n]).1 == (jit_func_sigs(a.module)[n]).1
        &&& (jit_func_sigs(c.module)[n]).2 == (jit_func_sigs(a.module)[n]).2
    } by {
        assert(jit_func_sigs(b.module).contains_key(n));
    }
    assert forall|n: Seq<char>|
        jit_funcs(a.module).contains_key(n) && #[trigger] jit_func_import(c.module).contains(
            n,
        ) implies jit_func_import(a.module).contains(n) by {
        assert(jit_funcs(a.module).dom().contains(n));
        assert(jit_funcs(b.module).contains_key(n));
        assert(jit_func_import(b.module).contains(n));
    }
}

/// Declaring a fresh data name, with a brand-new id, keeps the session
/// bookkeeping well formed.
proof fn lemma_wf_declare_data(c0: Compiler, c1: Compiler, nm: Seq<char>, idx: int)
    requires
        c0.wf(),
        c1.functions@ == c0.functions@,
        c1.vars@ == c0.vars@,
        jit_funcs(c1.module) == jit_funcs(c0.module),
        jit_defined_funcs(c1.module) == jit_defined_funcs(c0.module),
        jit_defined_data(c1.module) == jit_defined_data(c0.module),
        !jit_data(c0.module).contains_key(nm),
        forall|n: Seq<char>| jit_data(c0.module).contains_key(n) ==> jit_data(c0.module)[n] != idx,
        jit_data(c1.module) == jit_data(c0.module).insert(nm, idx),
    ensures
        c1.wf(),
{
    assert forall|n: Seq<char>| #[trigger] c1.vars@.contains_key(n) implies {
        &&& jit_data(c1.module).contains_pair(n, data_index(c1.vars@[n]))
        &&& jit_defined_data(c1.module).contains(data_index(c1.vars@[n]))
    } by {
        assert(jit_data(c0.module).contains_pair(n, data_index(c0.vars@[n])));
        assert(n != nm);
    }
    assert forall|j: int| #[trigger] jit_defined_data(c1.module).contains(j) implies exists|
        n: Seq<char>,
    | jit_data(c1.module).contains_pair(n, j) by {
        let n0 = choose|n: Seq<char>| jit_data(c0.module).contains_pair(n, j);
        assert(jit_data(c0.module).contains_pair(n0, j));
        assert(n0 != nm);
        assert(jit_data(c1.module).contains_pair(n0, j));
    }
}

/// Defining declared data keeps the session bookkeeping well formed.
proof fn lemma_wf_define_data(c1: Compiler, c2: Compiler, nm: Seq<char>, idx: int)
    requires
        c1.wf(),
        c2.functions@ == c1.functions@,
        c2.vars@ == c1.vars@,
        jit_funcs(c2.module) == jit_funcs(c1.module),
        jit_data(c2.module) == jit_data(c1.module),
        jit_defined_funcs(c2.module) == jit_defined_funcs(c1.module),
        jit_data(c1.module).contains_pair(nm, idx),
        jit_defined_data(c2.module) == jit_defined_data(c1.module).insert(idx),
    ensures
        c2.wf(),
{
    assert forall|j: int| #[trigger] jit_defined_data(c2.module).contains(j) implies exists|
        n: Seq<char>,
    | jit_data(c2.module).contains_pair(n, j) by {
        if j == idx {
            assert(jit_data(c2.module).contains_pair(nm, j));
        } else {
            let n0 = choose|n: Seq<char>| jit_data(c1.module).contains_pair(n, j);
            assert(jit_data(c2.module).contains_pair(n0, j));
        }
    }
}

/// Registering a declared and defined cell in the variable table keeps the
/// session bookkeeping well formed.
proof fn lemma_wf_set_var(c1: Compiler, c2: Compiler, nm: Seq<char>, id: DataId)
    requires
        c1.wf(),
        c2.functions@ == c1.functions@,
        c2.module == c1.module,
        jit_data(c1.module).contains_pair(nm, data_index(id)),
        jit_defined_data(c1.module).contains(data_index(id)),
        c2.vars@ == c1.vars@.insert(nm, id),
    ensures
        c2.wf(),
{
    assert forall|n: Seq<char>| #[trigger] c2.vars@.contains_key(n) implies {
        &&& jit_data(c2.module).contains_pair(n, data_index(c2.vars@[n]))
        &&& jit_defined_data(c2.module).contains(data_index(c2.vars@[n]))
    } by {
        if n != nm {
            assert(c1.vars@.contains_key(n));
        }
    }
}

/// Declaring a fresh function name, with a brand-new id, keeps the session
/// bookkeeping well formed.
proof fn lemma_wf_declare_func(c0: Compiler, c1: Compiler, nm: Seq<char>, idx: int)
    requires
        c0.wf(),
        c1.functions@ == c0.functions@,
        c1.vars@ == c0.vars@,
        jit_data(c1.module) == jit_data(c0.module),
        jit_defined_funcs(c1.module) == jit_defined_funcs(c0.module),
        jit_defined_data(c1.module) == jit_defined_data(c0.module),
        !jit_funcs(c0.module).contains_key(nm),
        forall|n: Seq<char>|
            jit_funcs(c0.module).contains_key(n) ==> jit_funcs(c0.module)[n] != idx,
        jit_funcs(c1.module) == jit_funcs(c0.module).insert(nm, idx),
    ensures
        c1.wf(),
{
    assert forall|n: Seq<char>| #[trigger] c1.functions@.contains_key(n) implies {
        &&& jit_funcs(c1.module).contains_pair(n, func_index(c1.functions@[n]))
        &&& jit_defined_funcs(c1.module).contains(func_index(c1.functions@[n]))
    } by {
        assert(jit_funcs(c0.module).contains_pair(n, func_index(c0.functions@[n])));
        assert(n != nm);
    }
    assert forall|j: int| #[trigger] jit_defined_funcs(c1.module).contains(j) implies exists|
        n: Seq<char>,
    | jit_funcs(c1.module).contains_pair(n, j) by {
        let n0 = choose|n: Seq<char>| jit_funcs(c0.module).contains_pair(n, j);
        assert(jit_funcs(c0.module).contains_pair(n0, j));
        assert(n0 != nm);
        assert(jit_funcs(c1.module).contains_pair(n0, j));
    }
    assert forall|n: Seq<char>|
        #[trigger] jit_funcs(c1.module).contains_key(n) && jit_defined_funcs(
            c1.module,
        ).contains(jit_funcs(c1.module)[n]) implies c1.functions@.contains_key(n) && func_index(
        c1.functions@[n],
    ) == jit_funcs(c1.module)[n] by {
        if n == nm {
            let n0 = choose|k: Seq<char>| jit_funcs(c0.module).contains_pair(k, idx);
            assert(jit_funcs(c0.module).contains_key(n0));
            assert(false);
        } else {
            assert(jit_funcs(c0.module).contains_key(n));
        }
    }
}

/// Defining the declared function and registering its handle keeps the
/// session bookkeeping well formed.
proof fn lemma_wf_define_and_register(c2: Compiler, c3: Compiler, nm: Seq<char>, id: FuncId)
    requires
        c2.wf(),
        c3.vars@ == c2.vars@,
        jit_funcs(c3.module) == jit_funcs(c2.module),
        jit_data(c3.module) == jit_data(c2.module),
        jit_defined_data(c3.module) == jit_defined_data(c2.module),
        jit_funcs(c2.module).contains_pair(nm, func_index(id)),
        !jit_defined_funcs(c2.module).contains(func_index(id)),
        jit_defined_funcs(c3.module) == jit_defined_funcs(c2.module).insert(func_index(id)),
        c3.functions@ == c2.functions@.insert(nm, id),
    ensures
        c3.wf(),
        !c2.functions@.contains_key(nm),
{
    assert(!c2.functions@.contains_key(nm));
    assert forall|n: Seq<char>| #[trigger] c3.functions@.contains_key(n) implies {
        &&& jit_funcs(c3.module).contains_pair(n, func_index(c3.functions@[n]))
        &&& jit_defined_funcs(c3.module).contains(func_index(c3.functions@[n]))
    } by {
        if n != nm {
            assert(c2.functions@.contains_key(n));
        }
    }
    assert forall|j: int| #[trigger] jit_defined_funcs(c3.module).contains(j) implies exists|
        n: Seq<char>,
    | jit_funcs(c3.module).contains_pair(n, j) by {
        if j == func_index(id) {
            assert(jit_funcs(c3.module).contains_pair(nm, j));
        } else {
            let n0 = choose|n: Seq<char>| jit_funcs(c2.module).contains_pair(n, j);
            assert(jit_funcs(c3.module).contains_pair(n0, j));
        }
    }
    assert forall|n: Seq<char>|
        #[trigger] jit_funcs(c3.module).contains_key(n) && jit_defined_funcs(
            c3.module,
        ).contains(jit_funcs(c3.module)[n]) implies c3.functions@.contains_key(n) && func_index(
        c3.functions@[n],
    ) == jit_funcs(c3.module)[n] by {
        if jit_funcs(c3.module)[n] == func_index(id) {
            assert(n == nm);
        } else {
            assert(jit_defined_funcs(c2.module).contains(jit_funcs(c2.module)[n]));
            assert(c2.functions@.contains_key(n));
            assert(n != nm);
        }
    }
}

/// A name that was not registered before compilation began, and whose
/// function the body builder did not define, is still unregistered after the
/// body builder ran.
proof fn lemma_name_unregistered(c0: Compiler, c1: Compiler, c2: Compiler, nm: Seq<char>, id: FuncId)
    requires
        c0.wf(),
        c2.wf(),
        !c0.functions@.contains_key(nm),
        c1.functions@ == c0.functions@,
        jit_funcs(c1.module).contains_pair(nm, func_index(id)),
        jit_funcs(c1.module) == jit_funcs(c0.module) || (!jit_funcs(c0.module).contains_key(nm)
            && (forall|n: Seq<char>|
            jit_funcs(c0.module).contains_key(n) ==> jit_funcs(c0.module)[n] != func_index(id))
            && jit_funcs(c1.module) == jit_funcs(c0.module).insert(nm, func_index(id))),
        jit_defined_funcs(c1.module) == jit_defined_funcs(c0.module),
        Compiler::extends(c1, c2),
        jit_defined_funcs(c2.module).contains(func_index(id)) ==> jit_defined_funcs(
            c1.module,
        ).contains(func_index(id)),
    ensures
        !c2.functions@.contains_key(nm),
        !jit_defined_funcs(c2.module).contains(func_index(id)),
{
    if jit_defined_funcs(c2.module).contains(func_index(id)) {
        assert(jit_defined_funcs(c0.module).contains(func_index(id)));
        if jit_funcs(c1.module) == jit_funcs(c0.module) {
            assert(jit_funcs(c0.module).contains_pair(nm, func_index(id)));
            assert(c0.functions@.contains_key(nm));
            assert(false);
        } else {
            let n0 = choose|n: Seq<char>| jit_funcs(c0.module).contains_pair(n, func_index(id));
            assert(jit_funcs(c0.module).contains_key(n0));
            assert(false);
        }
    }
    if c2.functions@.contains_key(nm) {
        assert(jit_funcs(c2.module).contains_pair(nm, func_index(c2.functions@[nm])));
        assert(jit_funcs(c1.module).dom().contains(nm));
        assert(jit_funcs(c2.module)[nm] == func_index(id));
        assert(jit_defined_funcs(c2.module).contains(func_index(id)));
        assert(false);
    }
}

/// The caller-supplied constructor for a function body.
///
/// An implementation receives the session, the builder for the body under
/// construction, and the handle of the function being compiled.  It may
/// freely create data, variables and imports, and compile other functions,
/// but it promises to leave the function it is building alone — neither
/// defining nor re-declaring it — and, when it reports success, to have
/// closed every block it inserted with a terminator.
pub trait BodyBuild {
    /// Emit every block, instruction and terminator of the body.
    fn build_body(
        &self,
        c: &mut Compiler,
        f: &mut FunctionBuilder<'_>,
        id: FuncId,
    ) -> (r: Result<(), CompileError>)
        requires
            old(c).wf(),
        ensures
            final(c).wf(),
            Compiler::extends(*old(c), *final(c)),
            jit_defined_funcs(final(c).module).contains(func_index(id))
                ==> jit_defined_funcs(old(c).module).contains(func_index(id)),
            forall|n: Seq<char>| #[trigger]
                jit_funcs(old(c).module).contains_pair(n, func_index(id)) ==> jit_func_sigs(
                    final(c).module,
                ).contains_key(n) && jit_func_sigs(final(c).module)[n] == jit_func_sigs(
                    old(c).module,
                )[n],
            r.is_ok() ==> builder_filled(*final(f)),
    ;
}

impl Compiler {
    /// A fresh session over a backend module with no declarations yet.
    pub fn new(module: JITModule) -> (r: Compiler)
        requires
            module_fresh(module),
        ensures
            r.wf(),
            r.module == module,
            r.functions@ == Map::<Seq<char>, FuncId>::empty(),
            r.vars@ == Map::<Seq<char>, DataId>::empty(),
            r.data_id_counter == 0,
            r.var_id_counter == 0,
    {
        Compiler {
            module,
            data_id_counter: 0,
            var_id_counter: 0,
            vars: SymbolTable::new(),
            functions: SymbolTable::new(),
        }
    }

    /// A fresh builder-local variable handle, distinct from every handle
    /// this session has produced before.
    pub fn new_var(&mut self) -> (r: Variable)
        requires
            old(self).var_id_counter < 4294967295usize,
        ensures
            final(self).var_id_counter == old(self).var_id_counter + 1,
            var_index(r) == old(self).var_id_counter as int,
            final(self).module == old(self).module,
            final(self).functions@ == old(self).functions@,
            final(self).vars@ == old(self).vars@,
            final(self).data_id_counter == old(self).data_id_counter,
            old(self).wf() ==> final(self).wf(),
            Compiler::extends(*old(self), *final(self)),
    {
        let id: usize = self.var_id_counter;
        self.var_id_counter = id + 1;
        make_variable(id)
    }

    /// Declares and defines an anonymous, immutable data blob under the name
    /// `data_<n>` drawn from the allocation counter, and returns its handle.
    ///
    /// When the generated name is unclaimed — the intended use — the only
    /// possible failure is the backend refusing the definition itself.
    pub fn create_data(&mut self, data: Vec<u8>) -> (r: Result<DataId, CompileError>)
        requires
            old(self).wf(),
            old(self).data_id_counter < usize::MAX,
        ensures
            final(self).wf(),
            Compiler::extends(*old(self), *final(self)),
            final(self).data_id_counter == old(self).data_id_counter + 1,
            final(self).var_id_counter == old(self).var_id_counter,
            final(self).functions@ == old(self).functions@,
            final(self).vars@ == old(self).vars@,
            jit_funcs_same(old(self).module, final(self).module),
            jit_consts_same(old(self).module, final(self).module),
            !jit_funcs(old(self).module).contains_key(
                anon_data_name(old(self).data_id_counter as nat),
            ) && !jit_data(old(self).module).contains_key(
                anon_data_name(old(self).data_id_counter as nat),
            ) ==> r.is_ok() || r->Err_0 is BackendDefinition,
            r.is_err() ==> r->Err_0 is DuplicateSymbol || r->Err_0 is BackendDefinition,
            r.is_ok() ==> {
                &&& jit_data(final(self).module).contains_pair(
                    anon_data_name(old(self).data_id_counter as nat),
                    data_index(r->Ok_0),
                )
                &&& jit_defined_data(final(self).module).contains(data_index(r->Ok_0))
                &&& jit_data_bytes(final(self).module).contains_pair(
                    anon_data_name(old(self).data_id_counter as nat),
                    data@,
                )
            },
            r.is_ok() && !jit_data(old(self).module).contains_key(
                anon_data_name(old(self).data_id_counter as nat),
            ) ==> {
                &&& jit_data_local(final(self).module).contains(
                    anon_data_name(old(self).data_id_counter as nat),
                )
                &&& !jit_data_writable(final(self).module).contains(
                    anon_data_name(old(self).data_id_counter as nat),
                )
            },
    {
        let ghost c0: Compiler = *self;
        let n: usize = self.data_id_counter;
        self.data_id_counter = n + 1;
        let name: String = render_anon_name(n);
        let id: DataId = match declare_data(&mut self.module, name.as_str(), false) {
            Ok(id) => id,
            Err(e) => {
                return Err(e);
            },
        };
        proof {
            if !jit_data(c0.module).contains_key(name@) {
                lemma_wf_declare_data(c0, *self, name@, data_index(id));
            }
            assert(jit_data(self.module).contains_pair(name@, data_index(id)));
            assert(self.wf());
        }
        let ghost c1: Compiler = *self;
        match define_data(&mut self.module, id, data) {
            Ok(()) => {},
            Err(e) => {
                return Err(e);
            },
        }
        proof {
            lemma_wf_define_data(c1, *self, name@, data_index(id));
        }
        Ok(id)
    }

    /// Declares a writable data cell under exactly `name`, zero-initialized
    /// to the eight bytes of a 64-bit value, registers it as a variable and
    /// returns its handle.  Reusing a name that already denotes a variable or
    /// a function is reported as a duplicate, never silently overwritten.
    pub fn create_var(&mut self, name: &str) -> (r: Result<DataId, CompileError>)
        requires
            old(self).wf(),
        ensures
            final(self).wf(),
            Compiler::extends(*old(self), *final(self)),
            final(self).data_id_counter == old(self).data_id_counter,
            final(self).var_id_counter == old(self).var_id_counter,
            final(self).functions@ == old(self).functions@,
            jit_funcs_same(old(self).module, final(self).module),
            jit_consts_same(old(self).module, final(self).module),
            !jit_funcs(old(self).module).contains_key(name@) && !jit_data(
                old(self).module,
            ).contains_key(name@) ==> r.is_ok() || r->Err_0 is BackendDefinition,
            old(self).vars@.contains_key(name@) ==> r.is_err() && r->Err_0 is DuplicateSymbol,
            old(self).functions@.contains_key(name@) ==> r.is_err() && r->Err_0 is DuplicateSymbol,
            r.is_err() ==> r->Err_0 is DuplicateSymbol || r->Err_0 is BackendDefinition,
            r.is_ok() ==> {
                &&& final(self).vars@ == old(self).vars@.insert(name@, r->Ok_0)
                &&& jit_data(final(self).module).contains_pair(name@, data_index(r->Ok_0))
                &&& jit_defined_data(final(self).module).contains(data_index(r->Ok_0))
                &&& jit_data_bytes(final(self).module).contains_pair(name@, cell_zeros())
                &&& jit_data_writable(final(self).module).contains(name@)
            },
            r.is_ok() && !jit_data(old(self).module).contains_key(name@) ==> jit_data_local(
                final(self).module,
            ).contains(name@),
            r.is_err() ==> final(self).vars@ == old(self).vars@,
    {
        let ghost c0: Compiler = *self;
        let id: DataId = match declare_data(&mut self.module, name, true) {
            Ok(id) => id,
            Err(e) => {
                return Err(e);
            },
        };
        proof {
            if !jit_data(c0.module).contains_key(name@) {
                lemma_wf_declare_data(c0, *self, name@, data_index(id));
            }
            assert(jit_data(self.module).contains_pair(name@, data_index(id)));
            assert(self.wf());
        }
        let ghost c1: Compiler = *self;
        let zeros: Vec<u8> = vec![0u8, 0u8, 0u8, 0u8, 0u8, 0u8, 0u8, 0u8];
        proof {
            assert(zeros@ =~= cell_zeros());
        }
        match define_data(&mut self.module, id, zeros) {
            Ok(()) => {},
            Err(e) => {
                return Err(e);
            },
        }
        proof {
            lemma_wf_define_data(c1, *self, name@, data_index(id));
        }
        let ghost c2: Compiler = *self;
        self.vars.set(name, id);
        proof {
            lemma_wf_set_var(c2, *self, name@, id);
        }
        Ok(id)
    }

    /// Looks the variable up and emits the instruction producing its runtime
    /// address, at the target's pointer width, in the body under
    /// construction.  A name never registered is rejected as unknown.
    pub fn var_ptr(&mut self, name: &str, f: &mut FunctionBuilder<'_>) -> (r: Result<
        Value,
        CompileError,
    >)
        requires
            old(self).wf(),
            builder_open(*old(f)),
        ensures
            *final(self) == *old(self),
            builder_open(*final(f)),
            builder_filled(*final(f)) == builder_filled(*old(f)),
            r.is_ok() <==> old(self).vars@.contains_key(name@),
            r.is_err() ==> r->Err_0 is UnknownVariable,
            r.is_ok() ==> (exists|g: int|
                #![auto]
                {
                    &&& builder_data_syms(*final(f)).contains_pair(
                        g,
                        data_index(old(self).vars@[name@]),
                    )
                    &&& builder_insts(*final(f)) == builder_insts(*old(f)).push(
                        (0int, jit_ptr_code(old(self).module), g, value_index(r->Ok_0)),
                    )
                }),
            r.is_err() ==> builder_insts(*final(f)) == builder_insts(*old(f)) && builder_data_syms(
                *final(f),
            ) == builder_data_syms(*old(f)),
    {
        let id: DataId = match self.vars.get(name) {
            Some(id) => id,
            None => {
                return Err(CompileError::UnknownVariable(name.to_owned()));
            },
        };
        let gv = bind_data_in_body(&self.module, f, id);
        let ty: Type = pointer_type(&self.module);
        let v: Value = emit_symbol_addr(f, ty, gv);
        proof {
            assert(builder_data_syms(*f).contains_pair(gv_index(gv), data_index(id)));
            assert(builder_insts(*f) == builder_insts(*old(f)).push(
                (0int, jit_ptr_code(old(self).module), gv_index(gv), value_index(v)),
            ));
        }
        Ok(v)
    }

    /// Emits a typed load of the variable's cell from offset zero.  The
    /// caller is answerable for the type fitting the eight-byte cell.
    pub fn load_var(
        &mut self,
        name: &str,
        var_type: Type,
        f: &mut FunctionBuilder<'_>,
    ) -> (r: Result<Value, CompileError>)
        requires
            old(self).wf(),
            builder_open(*old(f)),
        ensures
            *final(self) == *old(self),
            builder_open(*final(f)),
            builder_filled(*final(f)) == builder_filled(*old(f)),
            r.is_ok() <==> old(self).vars@.contains_key(name@),
            r.is_err() ==> r->Err_0 is UnknownVariable,
            r.is_ok() ==> (exists|g: int, a: int|
                #![auto]
                {
                    &&& builder_data_syms(*final(f)).contains_pair(
                        g,
                        data_index(old(self).vars@[name@]),
                    )
                    &&& builder_insts(*final(f)) == builder_insts(*old(f)).push(
                        (0int, jit_ptr_code(old(self).module), g, a),
                    ).push((1int, type_code(var_type), a, value_index(r->Ok_0)))
                }),
            r.is_err() ==> builder_insts(*final(f)) == builder_insts(*old(f)) && builder_data_syms(
                *final(f),
            ) == builder_data_syms(*old(f)),
    {
        let ptr: Value = match self.var_ptr(name, f) {
            Ok(p) => p,
            Err(e) => {
                return Err(e);
            },
        };
        let ghost g0: int = choose|g: int|
            builder_data_syms(*f).contains_pair(g, data_index(self.vars@[name@]))
                && builder_insts(*f) == builder_insts(*old(f)).push(
                (0int, jit_ptr_code(self.module), g, value_index(ptr)),
            );
        let v: Value = emit_load(f, var_type, ptr);
        proof {
            assert(builder_data_syms(*f).contains_pair(g0, data_index(self.vars@[name@])));
            assert(builder_insts(*f) == builder_insts(*old(f)).push(
                (0int, jit_ptr_code(self.module), g0, value_index(ptr)),
            ).push((1int, type_code(var_type), value_index(ptr), value_index(v))));
        }
        Ok(v)
    }

    /// Emits a store of `val` to the variable's cell at offset zero.  The
    /// caller is answerable for the value fitting the eight-byte cell.
    pub fn store_var(
        &mut self,
        name: &str,
        val: Value,
        f: &mut FunctionBuilder<'_>,
    ) -> (r: Result<(), CompileError>)
        requires
            old(self).wf(),
            builder_open(*old(f)),
        ensures
            *final(self) == *old(self),
            builder_open(*final(f)),
            builder_filled(*final(f)) == builder_filled(*old(f)),
            r.is_ok() <==> old(self).vars@.contains_key(name@),
            r.is_err() ==> r->Err_0 is UnknownVariable,
            r.is_ok() ==> (exists|g: int, a: int|
                #![auto]
                {
                    &&& builder_data_syms(*final(f)).contains_pair(
                        g,
                        data_index(old(self).vars@[name@]),
                    )
                    &&& builder_insts(*final(f)) == builder_insts(*old(f)).push(
                        (0int, jit_ptr_code(old(self).module), g, a),
                    ).push((2int, value_index(val), a, 0int))
                }),
            r.is_err() ==> builder_insts(*final(f)) == builder_insts(*old(f)) && builder_data_syms(
                *final(f),
            ) == builder_data_syms(*old(f)),
    {
        let ptr: Value = match self.var_ptr(name, f) {
            Ok(p) => p,
            Err(e) => {
                return Err(e);
            },
        };
        let ghost g0: int = choose|g: int|
            builder_data_syms(*f).contains_pair(g, data_index(self.vars@[name@]))
                && builder_insts(*f) == builder_insts(*old(f)).push(
                (0int, jit_ptr_code(self.module), g, value_index(ptr)),
            );
        emit_store(f, val, ptr);
        proof {
            assert(builder_data_syms(*f).contains_pair(g0, data_index(self.vars@[name@])));
            assert(builder_insts(*f) == builder_insts(*old(f)).push(
                (0int, jit_ptr_code(self.module), g0, value_index(ptr)),
            ).push((2int, value_index(val), value_index(ptr), 0int)));
        }
        Ok(())
    }

    /// Declares an externally-resolved function with the given signature and
    /// binds it into the body under construction, returning a body-local
    /// reference.  Re-importing a name is permitted; each call yields a fresh
    /// in-body reference.
    pub fn import_func(
        &mut self,
        name: &str,
        params: &[Type],
        ret: Option<Type>,
        f: &mut FunctionBuilder<'_>,
    ) -> (r: Result<FuncRef, CompileError>)
        requires
            old(self).wf(),
        ensures
            final(self).wf(),
            Compiler::extends(*old(self), *final(self)),
            final(self).data_id_counter == old(self).data_id_counter,
            final(self).var_id_counter == old(self).var_id_counter,
            final(self).functions@ == old(self).functions@,
            final(self).vars@ == old(self).vars@,
            builder_open(*final(f)) == builder_open(*old(f)),
            builder_filled(*final(f)) == builder_filled(*old(f)),
            builder_insts(*final(f)) == builder_insts(*old(f)),
            builder_data_syms(*final(f)) == builder_data_syms(*old(f)),
            jit_data_same(old(self).module, final(self).module),
            jit_consts_same(old(self).module, final(self).module),
            jit_defined_funcs(final(self).module) == jit_defined_funcs(old(self).module),
            !jit_funcs(old(self).module).contains_key(name@) && !jit_data(
                old(self).module,
            ).contains_key(name@) ==> r.is_ok(),
            jit_funcs(old(self).module).contains_key(name@) && jit_func_sigs(
                old(self).module,
            ).contains_key(name@) && (jit_func_sigs(old(self).module)[name@]).0 == param_codes(
                params@,
            ) && (jit_func_sigs(old(self).module)[name@]).1 == ret_codes(ret) && (jit_func_sigs(
                old(self).module,
            )[name@]).2 == jit_conv(old(self).module) ==> r.is_ok(),
            jit_data(old(self).module).contains_key(name@) ==> r.is_err(),
            r.is_err() ==> r->Err_0 is DuplicateSymbol,
            r.is_ok() ==> {
                &&& jit_funcs(final(self).module).contains_key(name@)
                &&& jit_func_sigs(final(self).module).contains_key(name@)
                &&& (jit_func_sigs(final(self).module)[name@]).0 == param_codes(params@)
                &&& (jit_func_sigs(final(self).module)[name@]).1 == ret_codes(ret)
                &&& (jit_func_sigs(final(self).module)[name@]).2 == jit_conv(old(self).module)
            },
            r.is_ok() && !jit_funcs(old(self).module).contains_key(name@) ==> jit_func_import(
                final(self).module,
            ).contains(name@),
    {
        let mut sig = make_signature(&self.module);
        proof {
            assert(param_codes(params@.subrange(0, 0)) =~= Seq::<int>::empty());
        }
        let mut i: usize = 0;
        while i < params.len()
            invariant
                i <= params@.len(),
                sig_params(sig) == param_codes(params@.subrange(0, i as int)),
                sig_rets(sig) == Seq::<int>::empty(),
                sig_conv(sig) == jit_conv(self.module),
                *self == *old(self),
            decreases params@.len() - i,
        {
            sig_push_param(&mut sig, params[i]);
            proof {
                assert(params@.subrange(0, i + 1 as int) =~= params@.subrange(0, i as int).push(
                    params@[i as int],
                ));
                assert(param_codes(params@.subrange(0, i + 1 as int)) =~= param_codes(
                    params@.subrange(0, i as int),
                ).push(param_code(params@[i as int])));
            }
            i = i + 1;
        }
        proof {
            assert(params@.subrange(0, params@.len() as int) =~= params@);
        }
        if let Some(t) = ret {
            sig_push_return(&mut sig, t);
            proof {
                assert(sig_rets(sig) =~= ret_codes(ret));
            }
        }
        let ghost c0: Compiler = *self;
        let id: FuncId = match declare_function(&mut self.module, name, import_linkage(), &sig) {
            Ok(id) => id,
            Err(e) => {
                return Err(e);
            },
        };
        proof {
            if !jit_funcs(c0.module).contains_key(name@) {
                lemma_wf_declare_func(c0, *self, name@, func_index(id));
            }
            assert(jit_funcs(self.module).contains_pair(name@, func_index(id)));
            assert(self.wf());
        }
        Ok(bind_func_in_body(&mut self.module, f, id))
    }

    /// The whole pipeline for one function: build its signature, declare it
    /// under `name` with the given linkage, hand a fresh builder to `body`,
    /// then seal, finalize, verify and define the result, and register the
    /// handle under `name`.
    ///
    /// A name this session already compiled is reported as an error, and no
    /// failure at any stage registers the name.  A body with no blocks at
    /// all — which the CLIF verifier accepts but the backend's compilation
    /// would abort on — is likewise rejected as a verification failure
    /// rather than handed to the backend.
    pub fn compile_func<B: BodyBuild>(
        &mut self,
        name: &str,
        params: &[Type],
        ret: Option<Type>,
        linkage: Linkage,
        body: &B,
    ) -> (r: Result<FuncId, CompileError>)
        requires
            old(self).wf(),
        ensures
            final(self).wf(),
            Compiler::extends(*old(self), *final(self)),
            old(self).functions@.contains_key(name@) ==> r.is_err() && r->Err_0 is DuplicateSymbol
                && *final(self) == *old(self),
            jit_data(old(self).module).contains_key(name@) ==> r.is_err(),
            r.is_ok() ==> {
                &&& final(self).functions@.contains_pair(name@, r->Ok_0)
                &&& jit_funcs(final(self).module).contains_pair(name@, func_index(r->Ok_0))
                &&& jit_defined_funcs(final(self).module).contains(func_index(r->Ok_0))
                &&& jit_func_sigs(final(self).module).contains_key(name@)
                &&& (jit_func_sigs(final(self).module)[name@]).0 == param_codes(params@)
                &&& (jit_func_sigs(final(self).module)[name@]).1 == ret_codes(ret)
                &&& (jit_func_sigs(final(self).module)[name@]).2 == jit_conv(old(self).module)
            },
            r.is_ok() && !jit_funcs(old(self).module).contains_key(name@) ==> (forall|
                n: Seq<char>,
            |
                jit_funcs(old(self).module).contains_key(n) ==> jit_funcs(old(self).module)[n]
                    != func_index(r->Ok_0)),
            r.is_ok() && !jit_funcs(old(self).module).contains_key(name@) ==> (jit_func_sigs(
                final(self).module,
            )[name@]).3 == linkage_code(linkage),
            r.is_ok() && !jit_funcs(old(self).module).contains_key(name@) && !is_import(linkage)
                ==> !jit_func_import(final(self).module).contains(name@),
            r.is_err() && !old(self).functions@.contains_key(name@)
                ==> !final(self).functions@.contains_key(name@),
            r.is_err() && !old(self).functions@.contains_key(name@) ==> !(jit_funcs(
                final(self).module,
            ).contains_key(name@) && jit_defined_funcs(final(self).module).contains(
                jit_funcs(final(self).module)[name@],
            )),
    {
        if self.functions.contains(name) {
            return Err(CompileError::DuplicateSymbol(name.to_owned()));
        }
        let ghost c0: Compiler = *self;
        let mut sig = make_signature(&self.module);
        proof {
            assert(param_codes(params@.subrange(0, 0)) =~= Seq::<int>::empty());
        }
        let mut i: usize = 0;
        while i < params.len()
            invariant
                i <= params@.len(),
                sig_params(sig) == param_codes(params@.subrange(0, i as int)),
                sig_rets(sig) == Seq::<int>::empty(),
                sig_conv(sig) == jit_conv(self.module),
                *self == c0,
            decreases params@.len() - i,
        {
            sig_push_param(&mut sig, params[i]);
            proof {
                assert(params@.subrange(0, i + 1 as int) =~= params@.subrange(0, i as int).push(
                    params@[i as int],
                ));
                assert(param_codes(params@.subrange(0, i + 1 as int)) =~= param_codes(
                    params@.subrange(0, i as int),
                ).push(param_code(params@[i as int])));
            }
            i = i + 1;
        }
        proof {
            assert(params@.subrange(0, params@.len() as int) =~= params@);
        }
        if let Some(t) = ret {
            sig_push_return(&mut sig, t);
            proof {
                assert(sig_rets(sig) =~= ret_codes(ret));
            }
        }
        let func_id: FuncId = match declare_function(&mut self.module, name, linkage, &sig) {
            Ok(id) => id,
            Err(e) => {
                return Err(e);
            },
        };
        proof {
            if !jit_funcs(c0.module).contains_key(name@) {
                lemma_wf_declare_func(c0, *self, name@, func_index(func_id));
            }
            assert(jit_funcs(self.module).contains_pair(name@, func_index(func_id)));
            assert(self.wf());
        }
        let ghost c1: Compiler = *self;
        let mut ctx = make_context(&self.module);
        set_context_function(&mut ctx, name, sig);
        let mut fbc = new_builder_context();
        let mut f = new_builder(&mut ctx, &mut fbc);
        match body.build_body(self, &mut f, func_id) {
            Ok(()) => {},
            Err(e) => {
                proof {
                    lemma_extends_trans(c0, c1, *self);
                    if !c0.functions@.contains_key(name@) {
                        lemma_name_unregistered(c0, c1, *self, name@, func_id);
                    }
                }
                return Err(e);
            },
        }
        let ghost c2: Compiler = *self;
        seal_and_finalize(f, &self.module);
        match verify_function(&ctx, &self.module) {
            Ok(()) => {},
            Err(e) => {
                proof {
                    lemma_extends_trans(c0, c1, *self);
                    if !c0.functions@.contains_key(name@) {
                        lemma_name_unregistered(c0, c1, *self, name@, func_id);
                    }
                }
                return Err(e);
            },
        }
        if !context_has_entry_block(&ctx) {
            proof {
                lemma_extends_trans(c0, c1, *self);
                if !c0.functions@.contains_key(name@) {
                    lemma_name_unregistered(c0, c1, *self, name@, func_id);
                }
            }
            return Err(CompileError::Verification("function body has no entry block".to_owned()));
        }
        proof {
            assert(jit_funcs(c2.module).contains_pair(name@, func_index(func_id)));
        }
        match define_function(&mut self.module, func_id, &mut ctx) {
            Ok(()) => {},
            Err(e) => {
                proof {
                    lemma_extends_trans(c0, c1, c2);
                    lemma_extends_trans(c0, c2, *self);
                    if !c0.functions@.contains_key(name@) {
                        lemma_name_unregistered(c0, c1, c2, name@, func_id);
                        assert(!self.functions@.contains_key(name@));
                    }
                }
                return Err(e);
            },
        }
        proof {
            if c0.functions@.contains_key(name@) {
                assert(jit_funcs(c0.module).contains_pair(
                    name@,
                    func_index(c0.functions@[name@]),
                ));
                assert(jit_funcs(c0.module)[name@] == func_index(func_id));
                assert(jit_defined_funcs(c2.module).contains(func_index(func_id)));
                assert(false);
            }
        }
        self.functions.set(name, func_id);
        proof {
            lemma_wf_define_and_register(c2, *self, name@, func_id);
            lemma_extends_trans(c0, c1, c2);
            lemma_extends_trans(c0, c2, *self);
            assert(jit_func_sigs(c1.module).contains_key(name@));
            assert((jit_func_sigs(c1.module)[name@]).0 == param_codes(params@));
            assert((jit_func_sigs(c1.module)[name@]).1 == ret_codes(ret));
            assert((jit_func_sigs(c1.module)[name@]).2 == jit_conv(c0.module));
            assert(jit_func_sigs(c2.module).contains_key(name@));
            assert((jit_func_sigs(self.module)[name@]).0 == param_codes(params@));
            assert((jit_func_sigs(self.module)[name@]).1 == ret_codes(ret));
            assert((jit_func_sigs(self.module)[name@]).2 == jit_conv(c0.module));
            if !jit_funcs(c0.module).contains_key(name@) && !is_import(linkage) {
                assert(!jit_func_import(c1.module).contains(name@));
                assert(jit_funcs(c1.module).contains_key(name@));
                assert(!jit_func_import(c2.module).contains(name@));
                assert(!jit_func_import(self.module).contains(name@));
            }
            if !jit_funcs(c0.module).contains_key(name@) {
                assert((jit_func_sigs(c1.module)[name@]).3 == linkage_code(linkage));
                assert(jit_funcs(c1.module).contains_pair(name@, func_index(func_id)));
                assert(jit_func_sigs(c2.module)[name@] == jit_func_sigs(c1.module)[name@]);
                assert((jit_func_sigs(self.module)[name@]).3 == linkage_code(linkage));
            }
        }
        Ok(func_id)
    }
}

} // verus!
