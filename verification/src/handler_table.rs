//! A fixed-size table of event handlers: at most one handler per slot,
//! compare-and-install registration, and lookup that never observes a
//! half-written entry.
//!
//! In the kernel the slots live in per-word atomics so registration can race
//! dispatch on another core; each operation here corresponds to one such
//! single-word atomic step, so the sequential contracts below describe every
//! interleaving an observer can see.

use vstd::prelude::*;

verus! {

/// What registering `handler` at `idx` does to the slots `s`: the new slots
/// and whether the registration succeeded. It succeeds exactly when `idx` is
/// in range and the slot is empty; on failure the slots are unchanged.
pub open spec fn register_spec<H>(s: Seq<Option<H>>, idx: usize, handler: H) -> (Seq<Option<H>>,
    bool) {
    if idx < s.len() && s[idx as int] is None {
        (s.update(idx as int, Some(handler)), true)
    } else {
        (s, false)
    }
}

/// What unregistering slot `idx` does to the slots `s`: the new slots and the
/// handler that was installed, if any.
pub open spec fn unregister_spec<H>(s: Seq<Option<H>>, idx: usize) -> (Seq<Option<H>>, Option<H>) {
    if idx < s.len() {
        (s.update(idx as int, None), s[idx as int])
    } else {
        (s, None)
    }
}

/// The handler a dispatch on slot `idx` must invoke: `None` when `idx` is out
/// of range or no handler is installed.
pub open spec fn lookup_spec<H>(s: Seq<Option<H>>, idx: usize) -> Option<H> {
    if idx < s.len() {
        s[idx as int]
    } else {
        None
    }
}

/// A table of `N` handler slots.
pub struct HandlerTable<H, const N: usize> {
    handlers: Vec<Option<H>>,
}

impl<H, const N: usize> HandlerTable<H, N> {
    /// The slot contents.
    pub closed spec fn slots(&self) -> Seq<Option<H>> {
        self.handlers@
    }
}

impl<H: Copy, const N: usize> HandlerTable<H, N> {
    /// Creates a new handler table with all entries empty.
    pub fn new() -> (r: Self)
        ensures
            r.slots().len() == N,
            forall|i: int| 0 <= i < N ==> r.slots()[i] is None,
    {
        let mut handlers: Vec<Option<H>> = Vec::new();
        let mut i: usize = 0;
        while i < N
            invariant
                i <= N,
                handlers@.len() == i,
                forall|j: int| 0 <= j < i ==> handlers@[j] is None,
            decreases N - i,
        {
            handlers.push(None);
            i = i + 1;
        }
        HandlerTable { handlers }
    }

    /// Registers a handler for the given index.
    ///
    /// Returns `true` if the registration succeeds, `false` if the index is
    /// out of bounds or a handler is already registered; a failure has no
    /// side effect.
    pub fn register_handler(&mut self, idx: usize, handler: H) -> (ok: bool)
        ensures
            final(self).slots() == register_spec(old(self).slots(), idx, handler).0,
            ok == register_spec(old(self).slots(), idx, handler).1,
    {
        if idx >= self.handlers.len() {
            return false;
        }
        if self.handlers[idx].is_none() {
            self.handlers.set(idx, Some(handler));
            true
        } else {
            false
        }
    }

    /// Unregisters the handler for the given index.
    ///
    /// Returns the handler that was installed, or `None` if none was.
    pub fn unregister_handler(&mut self, idx: usize) -> (prior: Option<H>)
        ensures
            final(self).slots() == unregister_spec(old(self).slots(), idx).0,
            prior == unregister_spec(old(self).slots(), idx).1,
    {
        if idx >= self.handlers.len() {
            return None;
        }
        let prior = self.handlers[idx];
        self.handlers.set(idx, None);
        prior
    }

    /// Looks up the handler a dispatch on `idx` must invoke.
    ///
    /// Returns `None` — the event is not handled, and nothing may be invoked
    /// — when the index is out of bounds or no handler is registered.
    pub fn handle(&self, idx: usize) -> (r: Option<H>)
        ensures
            r == lookup_spec(self.slots(), idx),
    {
        if idx >= self.handlers.len() {
            return None;
        }
        self.handlers[idx]
    }
}

/// Registering the same free slot twice succeeds the first time and fails
/// the second, leaving the first handler in place.
pub proof fn lemma_register_twice<H>(s: Seq<Option<H>>, idx: usize, h1: H, h2: H)
    requires
        idx < s.len(),
        s[idx as int] is None,
    ensures
        register_spec(s, idx, h1).1 == true,
        register_spec(register_spec(s, idx, h1).0, idx, h2).1 == false,
        register_spec(register_spec(s, idx, h1).0, idx, h2).0 == register_spec(s, idx, h1).0,
        register_spec(s, idx, h1).0[idx as int] == Some(h1),
{
}

/// Unregistering a slot with no handler reports that none was present and
/// leaves every slot as it was.
pub proof fn lemma_unregister_absent<H>(s: Seq<Option<H>>, idx: usize)
    requires
        idx < s.len() ==> s[idx as int] is None,
    ensures
        unregister_spec(s, idx).1 is None,
        unregister_spec(s, idx).0 == s,
{
    if idx < s.len() {
        assert(unregister_spec(s, idx).0 =~= s);
    }
}

/// A dispatch on a slot with no handler finds nothing to invoke.
pub proof fn lemma_dispatch_absent<H>(s: Seq<Option<H>>, idx: usize)
    requires
        idx < s.len() ==> s[idx as int] is None,
    ensures
        lookup_spec(s, idx) is None,
{
}

} // verus!
