//! Session-wide laws, stated over the same model the operation contracts
//! use and proved from the well-formedness invariant.

use vstd::prelude::*;
use crate::Compiler;
use crate::backend::data_index;
use crate::backend::func_index;
use crate::backend::jit_data;
use crate::backend::jit_data_bytes;
use crate::backend::jit_defined_funcs;
use crate::backend::jit_funcs;
use crate::names::anon_data_name;
use cranelift_module::DataId;
use cranelift_module::FuncId;

verus! {

/// A function compiled under a name is registered under exactly that name,
/// and the table yields exactly that handle for it: registration is unique.
pub proof fn lemma_function_registered_once(c: Compiler, n: Seq<char>, id: FuncId)
    requires
        c.wf(),
        c.functions@.contains_pair(n, id),
    ensures
        c.functions@[n] == id,
        jit_funcs(c.module).contains_pair(n, func_index(id)),
        jit_defined_funcs(c.module).contains(func_index(id)),
{
}

/// Functions compiled under distinct names never collide, neither in the
/// function table nor in the backend's symbol space: their handles differ.
pub proof fn lemma_distinct_names_distinct_handles(c: Compiler, n1: Seq<char>, n2: Seq<char>)
    requires
        c.wf(),
        c.functions@.contains_key(n1),
        c.functions@.contains_key(n2),
        n1 != n2,
    ensures
        func_index(c.functions@[n1]) != func_index(c.functions@[n2]),
        c.functions@[n1] != c.functions@[n2],
{
    assert(jit_funcs(c.module).contains_pair(n1, func_index(c.functions@[n1])));
    assert(jit_funcs(c.module).contains_pair(n2, func_index(c.functions@[n2])));
}

/// A variable stays registered through any later session growth, so loads,
/// stores and address-taking of it keep succeeding in the same or any later
/// function body.
pub proof fn lemma_variable_persists(c1: Compiler, c2: Compiler, n: Seq<char>)
    requires
        Compiler::extends(c1, c2),
        c1.vars@.contains_key(n),
    ensures
        c2.vars@.contains_key(n),
{
    assert(c1.vars@.dom().contains(n));
}

/// Data content is fixed at creation and never mutated afterwards: once a
/// name's defined bytes are recorded, every later operation of the session
/// leaves them exactly as they were.
pub proof fn lemma_data_bytes_persist(c1: Compiler, c2: Compiler, n: Seq<char>)
    requires
        Compiler::extends(c1, c2),
        jit_data_bytes(c1.module).contains_key(n),
    ensures
        jit_data_bytes(c2.module).contains_key(n),
        jit_data_bytes(c2.module)[n] == jit_data_bytes(c1.module)[n],
{
    assert(jit_data_bytes(c1.module).submap_of(jit_data_bytes(c2.module)));
    assert(jit_data_bytes(c1.module).dom().contains(n));
}

/// One successful anonymous-data creation, as `create_data`'s contract
/// describes it when the generated name is unclaimed: the allocation counter
/// advances and the generated name is bound to the new handle.
pub open spec fn created_anon_data(pre: Compiler, post: Compiler, id: DataId) -> bool {
    &&& pre.wf()
    &&& post.wf()
    &&& !jit_funcs(pre.module).contains_key(anon_data_name(pre.data_id_counter as nat))
    &&& !jit_data(pre.module).contains_key(anon_data_name(pre.data_id_counter as nat))
    &&& post.data_id_counter == pre.data_id_counter + 1
    &&& Compiler::extends(pre, post)
    &&& jit_data(post.module).contains_pair(
        anon_data_name(pre.data_id_counter as nat),
        data_index(id),
    )
}

/// Two successive anonymous-data creations — even with identical contents,
/// which the statement never mentions — yield distinct generated names and
/// distinct handles: nothing is deduplicated.
pub proof fn lemma_anonymous_data_distinct(
    c0: Compiler,
    c1: Compiler,
    c2: Compiler,
    id1: DataId,
    id2: DataId,
)
    requires
        created_anon_data(c0, c1, id1),
        created_anon_data(c1, c2, id2),
    ensures
        anon_data_name(c0.data_id_counter as nat) != anon_data_name(c1.data_id_counter as nat),
        data_index(id1) != data_index(id2),
        id1 != id2,
{
    let nm1 = anon_data_name(c0.data_id_counter as nat);
    let nm2 = anon_data_name(c1.data_id_counter as nat);
    assert(jit_data(c1.module).contains_key(nm1));
    assert(jit_data(c2.module).contains_pair(nm1, data_index(id1)));
    assert(jit_data(c2.module).contains_pair(nm2, data_index(id2)));
}

} // verus!
