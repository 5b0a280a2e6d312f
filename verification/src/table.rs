//! A small verified association from symbol names to backend handles.

use vstd::prelude::*;

verus! {

/// The map described by a sequence of name/handle entries, where a later
/// entry for a name shadows an earlier one.
pub open spec fn table_map<V>(entries: Seq<(String, V)>) -> Map<Seq<char>, V>
    decreases entries.len(),
{
    if entries.len() == 0 {
        Map::empty()
    } else {
        table_map(entries.drop_last()).insert(entries.last().0@, entries.last().1)
    }
}

/// An insertion-ordered association from names to handles; its abstract view
/// is the map that results from inserting every entry in order.
pub struct SymbolTable<V> {
    entries: Vec<(String, V)>,
}

impl<V> View for SymbolTable<V> {
    type V = Map<Seq<char>, V>;

    closed spec fn view(&self) -> Map<Seq<char>, V> {
        table_map(self.entries@)
    }
}

proof fn lemma_match_found<V>(entries: Seq<(String, V)>, i: int, name: Seq<char>)
    requires
        0 <= i < entries.len(),
        entries[i].0@ == name,
        forall|k: int| i < k < entries.len() ==> entries[k].0@ != name,
    ensures
        table_map(entries).contains_pair(name, entries[i].1),
    decreases entries.len(),
{
    if i == entries.len() - 1 {
    } else {
        lemma_match_found(entries.drop_last(), i, name);
    }
}

proof fn lemma_no_match<V>(entries: Seq<(String, V)>, name: Seq<char>)
    requires
        forall|k: int| 0 <= k < entries.len() ==> entries[k].0@ != name,
    ensures
        !table_map(entries).contains_key(name),
    decreases entries.len(),
{
    if entries.len() > 0 {
        lemma_no_match(entries.drop_last(), name);
    }
}

impl<V: Copy> SymbolTable<V> {
    /// An empty table.
    pub fn new() -> (r: SymbolTable<V>)
        ensures
            r@ == Map::<Seq<char>, V>::empty(),
    {
        SymbolTable { entries: Vec::new() }
    }

    /// Binds `name` to `v`, shadowing any earlier binding.
    pub fn set(&mut self, name: &str, v: V)
        ensures
            final(self)@ == old(self)@.insert(name@, v),
    {
        self.entries.push((name.to_owned(), v));
        proof {
            assert(self.entries@.drop_last() =~= old(self).entries@);
        }
    }

    /// The handle bound to `name`, if any.
    pub fn get(&self, name: &str) -> (r: Option<V>)
        ensures
            match r {
                Some(v) => self@.contains_key(name@) && v == self@[name@],
                None => !self@.contains_key(name@),
            },
    {
        let key: String = name.to_owned();
        let mut i: usize = self.entries.len();
        while i > 0
            invariant
                i <= self.entries@.len(),
                key@ == name@,
                forall|k: int| i <= k < self.entries@.len() ==> self.entries@[k].0@ != name@,
            decreases i,
        {
            i = i - 1;
            if self.entries[i].0 == key {
                proof {
                    lemma_match_found(self.entries@, i as int, name@);
                }
                return Some(self.entries[i].1);
            }
        }
        proof {
            lemma_no_match(self.entries@, name@);
        }
        None
    }

    /// Whether `name` is bound.
    pub fn contains(&self, name: &str) -> (r: bool)
        ensures
            r == self@.contains_key(name@),
    {
        self.get(name).is_some()
    }
}

} // verus!
