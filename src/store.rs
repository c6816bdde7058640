//! Sessions kept per user identity. A session is checked out for the whole
//! of one transition and checked in afterwards; while it is out, nobody else
//! can check it out, and sessions of other identities are not affected.

use vstd::prelude::*;
use std::collections::HashMap;
use crate::conversation::{idle, SessionView, State};

verus! {

enum Slot {
    Free(State),
    Busy,
}

/// A session slot as seen from outside: free with its session, or checked
/// out.
pub enum SlotView {
    Free(SessionView),
    Busy,
}

/// What checking out `key` hands over: the stored session, or a fresh one
/// for an identity seen for the first time; nothing while it is out.
pub open spec fn checkout_result(m: Map<u64, SlotView>, key: u64) -> Option<SessionView> {
    if !m.contains_key(key) {
        Some(idle())
    } else {
        match m[key] {
            SlotView::Free(s) => Some(s),
            SlotView::Busy => None,
        }
    }
}

/// The slots after checking out `key`.
pub open spec fn after_checkout(m: Map<u64, SlotView>, key: u64) -> Map<u64, SlotView> {
    if checkout_result(m, key) is Some {
        m.insert(key, SlotView::Busy)
    } else {
        m
    }
}

/// The sessions of all identities.
pub struct SessionStore {
    sessions: HashMap<u64, Slot>,
}

impl View for SessionStore {
    type V = Map<u64, SlotView>;

    closed spec fn view(&self) -> Map<u64, SlotView> {
        self.sessions@.map_values(
            |s: Slot|
                match s {
                    Slot::Free(st) => SlotView::Free(st@),
                    Slot::Busy => SlotView::Busy,
                },
        )
    }
}

impl SessionStore {
    pub fn new() -> (r: SessionStore)
        ensures
            r@ == Map::<u64, SlotView>::empty(),
    {
        let r = SessionStore { sessions: HashMap::new() };
        assert(r@ =~= Map::<u64, SlotView>::empty());
        r
    }

    /// Takes the session of `key` for one transition, creating it when the
    /// identity is new. Gives nothing while the session is already out.
    pub fn checkout(&mut self, key: u64) -> (r: Option<State>)
        ensures
            match r {
                Some(s) => checkout_result(old(self)@, key) == Some(s@),
                None => checkout_result(old(self)@, key) is None,
            },
            final(self)@ == after_checkout(old(self)@, key),
    {
        let taken = self.sessions.remove(&key);
        match taken {
            None => {
                self.sessions.insert(key, Slot::Busy);
                assert(self@ =~= after_checkout(old(self)@, key));
                Some(State::idle())
            },
            Some(Slot::Free(s)) => {
                self.sessions.insert(key, Slot::Busy);
                assert(self@ =~= after_checkout(old(self)@, key));
                Some(s)
            },
            Some(Slot::Busy) => {
                self.sessions.insert(key, Slot::Busy);
                assert(self@ =~= after_checkout(old(self)@, key));
                None
            },
        }
    }

    /// Puts back the session of `key` once its transition is over.
    pub fn checkin(&mut self, key: u64, state: State)
        ensures
            final(self)@ == old(self)@.insert(key, SlotView::Free(state@)),
    {
        let ghost v = state@;
        self.sessions.insert(key, Slot::Free(state));
        assert(self@ =~= old(self)@.insert(key, SlotView::Free(v)));
    }

    /// Whether the session of `key` is out for a transition.
    pub fn is_checked_out(&self, key: u64) -> (r: bool)
        ensures
            r == (self@.contains_key(key) && self@[key] is Busy),
    {
        match self.sessions.get(&key) {
            Some(Slot::Busy) => true,
            _ => false,
        }
    }
}

} // verus!
