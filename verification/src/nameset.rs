//! Sets of names (addresses, capability ids).
use crate::table::{Duplicate, Table};
use crate::text::owned;
use vstd::prelude::*;

verus! {

/// A set of names, such as the authorized minters or the revoked capability ids.
#[derive(Debug, PartialEq, Eq)]
pub struct NameSet {
    names: Table<String, ()>,
}

impl View for NameSet {
    type V = Set<Seq<char>>;

    closed spec fn view(&self) -> Set<Seq<char>> {
        self.names@.dom()
    }
}

impl NameSet {
    /// Well formed.
    pub closed spec fn wf(&self) -> bool {
        self.names.wf()
    }

    /// The empty set.
    pub fn new() -> (s: NameSet)
        ensures
            s.wf(),
            s@ == Set::<Seq<char>>::empty(),
    {
        let s = NameSet { names: Table::new() };
        proof {
            assert(s@ =~= Set::<Seq<char>>::empty());
        }
        s
    }

    /// Add `name`; true when it was not present before.
    pub fn insert(&mut self, name: String) -> (fresh: bool)
        requires
            old(self).wf(),
        ensures
            final(self).wf(),
            final(self)@ == old(self)@.insert(name@),
            fresh == !old(self)@.contains(name@),
    {
        let fresh = !self.names.contains_key(&name);
        self.names.insert(name, ());
        proof {
            assert(self@ =~= old(self)@.insert(name@));
        }
        fresh
    }

    /// Whether the set's invariant holds, for a set that came from outside.
    pub fn check_wf(&self) -> (b: bool)
        ensures
            b == self.wf(),
    {
        self.names.check_wf()
    }

    /// Membership.
    pub fn contains(&self, name: &str) -> (b: bool)
        requires
            self.wf(),
        ensures
            b == self@.contains(name@),
    {
        self.names.contains_key(&owned(name))
    }

    /// Number of names.
    pub fn len(&self) -> (n: usize)
        requires
            self.wf(),
        ensures
            n == self@.len(),
    {
        self.names.len()
    }

    /// A copy.
    pub fn duplicate(&self) -> (r: NameSet)
        requires
            self.wf(),
        ensures
            r.wf(),
            r@ == self@,
    {
        NameSet { names: self.names.duplicate() }
    }

    /// The name stored at position `i` of the iteration order.
    pub fn name_at(&self, i: usize) -> (r: &String)
        requires
            self.wf(),
            i < self@.len(),
        ensures
            self@.contains(r@),
    {
        proof {
            self.names.lemma_view();
        }
        self.names.key_at(i)
    }
}

} // verus!
