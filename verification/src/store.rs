//! The store: the owner, the counter, and one table for each thing recorded of
//! an identity.

use std::collections::HashMap;
use vstd::prelude::*;
use crate::rules::FIRST_TOKEN_ID;
use crate::state::{entry, Identity, State};

verus! {

/// A table keyed by handles, read as a table keyed by identities.
pub open spec fn by_identity<V>(table: Map<u64, V>) -> Map<Identity, V> {
    Map::new(|who: Identity| table.contains_key(who.0), |who: Identity| table[who.0])
}

/// Writing under a handle writes under its identity.
proof fn lemma_by_identity_insert<V>(table: Map<u64, V>, who: Identity, value: V)
    ensures
        by_identity(table.insert(who.0, value)) == by_identity(table).insert(who, value),
{
    assert(by_identity(table.insert(who.0, value)) =~= by_identity(table).insert(who, value));
}

/// An in-memory store. It is made by [`crate::token::MyToken::construct`] and
/// changed only by the operations of [`crate::token::MyToken`], which keep
/// [`Store::wf`].
pub struct Store {
    owner: Identity,
    next_id: u32,
    rsvp: HashMap<u64, bool>,
    attended: HashMap<u64, bool>,
    token_of: HashMap<u64, u32>,
}

impl View for Store {
    type V = State;

    closed spec fn view(&self) -> State {
        State {
            owner: self.owner,
            next_id: self.next_id,
            rsvp: by_identity(self.rsvp@),
            attended: by_identity(self.attended@),
            token_of: by_identity(self.token_of@),
        }
    }
}

impl Store {
    /// The store's invariant: that of the state it holds.
    pub open spec fn wf(&self) -> bool {
        self@.wf()
    }

    /// A store with `owner` as its owner, the counter at its first value and
    /// empty tables.
    pub(crate) fn new(owner: Identity) -> (store: Store)
        ensures
            store@ == State::initial(owner),
    {
        let store = Store {
            owner,
            next_id: FIRST_TOKEN_ID,
            rsvp: HashMap::new(),
            attended: HashMap::new(),
            token_of: HashMap::new(),
        };
        proof {
            assert(by_identity(store.rsvp@) =~= Map::<Identity, bool>::empty());
            assert(by_identity(store.attended@) =~= Map::<Identity, bool>::empty());
            assert(by_identity(store.token_of@) =~= Map::<Identity, u32>::empty());
        }
        store
    }

    /// The identity that may confirm attendance.
    pub fn owner(&self) -> (owner: Identity)
        ensures
            owner == self@.owner,
    {
        self.owner
    }

    /// The token id that the next issuance hands out.
    pub fn next_id(&self) -> (n: u32)
        ensures
            n == self@.next_id,
    {
        self.next_id
    }

    /// What the registration table holds for `who`.
    pub fn rsvp_entry(&self, who: Identity) -> (e: Option<bool>)
        ensures
            e == entry(self@.rsvp, who),
    {
        match self.rsvp.get(&who.0) {
            Some(v) => Some(*v),
            None => None,
        }
    }

    /// What the attendance table holds for `who`.
    pub fn attended_entry(&self, who: Identity) -> (e: Option<bool>)
        ensures
            e == entry(self@.attended, who),
    {
        match self.attended.get(&who.0) {
            Some(v) => Some(*v),
            None => None,
        }
    }

    /// What the credential table holds for `who`.
    pub fn token_entry(&self, who: Identity) -> (e: Option<u32>)
        ensures
            e == entry(self@.token_of, who),
    {
        match self.token_of.get(&who.0) {
            Some(v) => Some(*v),
            None => None,
        }
    }

    /// Records that `who` has registered.
    pub(crate) fn set_rsvp(&mut self, who: Identity)
        ensures
            final(self)@ == (State { rsvp: old(self)@.rsvp.insert(who, true), ..old(self)@ }),
    {
        proof {
            lemma_by_identity_insert(self.rsvp@, who, true);
        }
        self.rsvp.insert(who.0, true);
    }

    /// Marks `who` as attended and assigns it `token`, in one step.
    pub(crate) fn record_issuance(&mut self, who: Identity, token: u32)
        ensures
            final(self)@ == old(self)@.record_issuance(who, token),
    {
        proof {
            lemma_by_identity_insert(self.attended@, who, true);
            lemma_by_identity_insert(self.token_of@, who, token);
        }
        self.token_of.insert(who.0, token);
        self.attended.insert(who.0, true);
    }

    /// Sets the counter.
    pub(crate) fn set_next_id(&mut self, n: u32)
        ensures
            final(self)@ == (State { next_id: n, ..old(self)@ }),
    {
        self.next_id = n;
    }
}

} // verus!
