//! The table of calls in flight: identifier to completion handle.

use std::collections::HashMap;
use vstd::prelude::*;

verus! {

broadcast use vstd::std_specs::hash::group_hash_axioms;

/// The calls that still await an answer. `H` is the handle through which a
/// waiting caller is completed; the table never looks inside it.
#[derive(Debug)]
pub struct PendingCalls<H> {
    entries: HashMap<u64, H>,
}

impl<H> View for PendingCalls<H> {
    type V = Map<u64, H>;

    closed spec fn view(&self) -> Map<u64, H> {
        self.entries@
    }
}

/// Taking the entry of `id` out of `m`: the table without it, and the
/// handle that was there, if any.
pub open spec fn resolved<H>(m: Map<u64, H>, id: u64) -> (Map<u64, H>, Option<H>) {
    (
        m.remove(id),
        if m.contains_key(id) {
            Some(m[id])
        } else {
            None
        },
    )
}

impl<H> PendingCalls<H> {
    /// A table with no call in flight.
    pub fn new() -> (t: Self)
        ensures
            t@ == Map::<u64, H>::empty(),
    {
        PendingCalls { entries: HashMap::new() }
    }

    /// Records `handle` as the completion of call `id`. A handle that was
    /// recorded under `id` before is handed back.
    pub fn register(&mut self, id: u64, handle: H) -> (displaced: Option<H>)
        ensures
            final(self)@ == old(self)@.insert(id, handle),
            displaced == resolved(old(self)@, id).1,
    {
        self.entries.insert(id, handle)
    }

    /// Takes the entry of `id` out, for its caller to be completed. Where
    /// there is none the table stays as it is and `None` comes back.
    pub fn resolve(&mut self, id: u64) -> (handle: Option<H>)
        ensures
            (final(self)@, handle) == resolved(old(self)@, id),
    {
        let handle: Option<H> = self.entries.remove(&id);
        assert(self.entries@ =~= old(self).entries@.remove(id));
        handle
    }

    /// Drops the entry of `id`, if it is still there.
    pub fn expire(&mut self, id: u64)
        ensures
            final(self)@ == old(self)@.remove(id),
    {
        let _ = self.resolve(id);
    }

    /// Drops every entry; the waiting callers see their channel closed.
    pub fn close(&mut self)
        ensures
            final(self)@ == Map::<u64, H>::empty(),
    {
        self.entries.clear();
    }

    /// Whether call `id` still awaits its answer.
    pub fn is_pending(&self, id: u64) -> (b: bool)
        ensures
            b == self@.contains_key(id),
    {
        self.entries.contains_key(&id)
    }

    /// The number of calls in flight.
    pub fn len(&self) -> (n: usize)
        ensures
            n == self@.len(),
    {
        self.entries.len()
    }
}

/// A call that was registered is completed by the first resolution of its
/// identifier, with the handle it was registered under.
pub proof fn lemma_register_then_resolve<H>(m: Map<u64, H>, id: u64, handle: H)
    ensures
        resolved(m.insert(id, handle), id) == (m.remove(id), Some(handle)),
{
    assert(m.insert(id, handle).remove(id) =~= m.remove(id));
}

/// Resolving an identifier a second time changes nothing and completes
/// nobody.
pub proof fn lemma_resolve_twice<H>(m: Map<u64, H>, id: u64)
    ensures
        resolved(resolved(m, id).0, id) == (resolved(m, id).0, None::<H>),
{
    assert(m.remove(id).remove(id) =~= m.remove(id));
}

/// After an identifier has expired, resolving it changes nothing and
/// completes nobody.
pub proof fn lemma_expire_then_resolve<H>(m: Map<u64, H>, id: u64)
    ensures
        resolved(m.remove(id), id) == (m.remove(id), None::<H>),
{
    assert(m.remove(id).remove(id) =~= m.remove(id));
}

/// Resolving or expiring one identifier leaves every other entry alone.
pub proof fn lemma_resolve_keeps_others<H>(m: Map<u64, H>, id: u64, other: u64)
    requires
        other != id,
    ensures
        resolved(m, id).0.contains_key(other) == m.contains_key(other),
        m.contains_key(other) ==> resolved(m, id).0[other] == m[other],
{
}

} // verus!
