//! The mathematical model of the store: what is recorded for each identity, and
//! how each operation changes it.

use vstd::prelude::*;
use crate::error::Error;
use crate::rules::{flag_value, token_value, screening, settlement, FIRST_TOKEN_ID, NO_TOKEN};

verus! {

/// An account handle on whose behalf authorization can be checked. Two
/// identities are the same account exactly when their handles are equal.
#[derive(Clone, Copy, Debug, PartialEq, Eq, Structural, Hash)]
pub struct Identity(pub u64);

/// What a table holds for an identity, if anything.
pub open spec fn entry<V>(table: Map<Identity, V>, who: Identity) -> Option<V> {
    if table.contains_key(who) {
        Some(table[who])
    } else {
        None
    }
}

/// Everything the store records.
pub struct State {
    /// The identity that may confirm attendance.
    pub owner: Identity,
    /// The token id that the next issuance hands out.
    pub next_id: u32,
    /// Who has registered an intent to attend.
    pub rsvp: Map<Identity, bool>,
    /// Who has been confirmed and credentialed.
    pub attended: Map<Identity, bool>,
    /// The credential issued to each identity.
    pub token_of: Map<Identity, u32>,
}

impl State {
    /// The state right after construction: an owner, a counter at
    /// [`FIRST_TOKEN_ID`], and no record of anyone.
    pub open spec fn initial(owner: Identity) -> State {
        State {
            owner,
            next_id: FIRST_TOKEN_ID,
            rsvp: Map::empty(),
            attended: Map::empty(),
            token_of: Map::empty(),
        }
    }

    /// Whether `who` has registered.
    pub open spec fn has_rsvped(self, who: Identity) -> bool {
        flag_value(entry(self.rsvp, who))
    }

    /// Whether `who` has been confirmed and credentialed.
    pub open spec fn has_attended(self, who: Identity) -> bool {
        flag_value(entry(self.attended, who))
    }

    /// The credential of `who`, [`NO_TOKEN`] where none was issued.
    pub open spec fn token_of(self, who: Identity) -> u32 {
        token_value(entry(self.token_of, who))
    }

    /// Whether `t` is the credential of some identity.
    pub open spec fn is_issued(self, t: u32) -> bool {
        t != NO_TOKEN && exists|who: Identity| self.token_of(who) == t
    }

    /// The credentials that have been issued.
    pub open spec fn issued(self) -> Set<u32> {
        Set::new(|t: u32| self.is_issued(t))
    }

    /// The invariant of the store.
    ///
    /// - An identity is marked as attended exactly when it holds a credential.
    /// - Only registered identities hold one.
    /// - No two identities hold the same credential.
    /// - The counter is above every credential, and every id from
    ///   [`FIRST_TOKEN_ID`] up to the counter has been issued.
    pub open spec fn wf(self) -> bool {
        &&& self.next_id >= FIRST_TOKEN_ID
        &&& forall|who: Identity|
            #![trigger self.has_attended(who)]
            #![trigger self.token_of(who)]
            self.has_attended(who) <==> self.token_of(who) != NO_TOKEN
        &&& forall|who: Identity| #[trigger] self.has_attended(who) ==> self.has_rsvped(who)
        &&& forall|a: Identity, b: Identity|
            #![trigger self.token_of(a), self.token_of(b)]
            self.token_of(a) != NO_TOKEN && self.token_of(a) == self.token_of(b) ==> a == b
        &&& forall|t: u32| #[trigger] self.is_issued(t) <==> FIRST_TOKEN_ID <= t < self.next_id
    }

    /// Whether `caller` may act as the owner.
    pub open spec fn owner_check(self, caller: Identity) -> Result<(), Error> {
        if caller == self.owner {
            Ok(())
        } else {
            Err(Error::Unauthorized)
        }
    }

    /// The answer to `rsvp`: only the attendee may register itself.
    pub open spec fn rsvp_outcome(self, caller: Identity, attendee: Identity) -> Result<(), Error> {
        if caller == attendee {
            Ok(())
        } else {
            Err(Error::Unauthorized)
        }
    }

    /// The state after `rsvp`.
    pub open spec fn after_rsvp(self, caller: Identity, attendee: Identity) -> State {
        if self.rsvp_outcome(caller, attendee).is_ok() {
            State { rsvp: self.rsvp.insert(attendee, true), ..self }
        } else {
            self
        }
    }

    /// The token that a confirmation of attendance asks the ledger to mint for
    /// `attendee`, or the reason for which the ledger is not asked.
    pub open spec fn mint_request(self, caller: Identity, attendee: Identity) -> Result<u32, Error> {
        match screening(
            self.owner_check(caller).is_ok(),
            self.has_attended(attendee),
            self.has_rsvped(attendee),
        ) {
            Ok(()) => Ok(self.next_id),
            Err(e) => Err(e),
        }
    }

    /// The answer to `mark_attended`, where `minted` says whether the ledger
    /// minted the requested token.
    pub open spec fn mark_attended_outcome(
        self,
        caller: Identity,
        attendee: Identity,
        minted: bool,
    ) -> Result<(), Error> {
        match self.mint_request(caller, attendee) {
            Ok(n) => match settlement(n, minted) {
                Ok(_) => Ok(()),
                Err(e) => Err(e),
            },
            Err(e) => Err(e),
        }
    }

    /// The state after `token` was issued to `who`: the mark and the credential
    /// are written together.
    pub open spec fn record_issuance(self, who: Identity, token: u32) -> State {
        State {
            attended: self.attended.insert(who, true),
            token_of: self.token_of.insert(who, token),
            ..self
        }
    }

    /// The state after `mark_attended`.
    pub open spec fn after_mark_attended(
        self,
        caller: Identity,
        attendee: Identity,
        minted: bool,
    ) -> State {
        if self.mark_attended_outcome(caller, attendee, minted).is_ok() {
            State {
                next_id: (self.next_id + 1) as u32,
                ..self.record_issuance(attendee, self.next_id)
            }
        } else {
            self
        }
    }

    /// The state after construction meets the invariant.
    pub proof fn lemma_initial_wf(owner: Identity)
        ensures
            State::initial(owner).wf(),
    {
    }

    /// `rsvp` keeps the invariant.
    pub proof fn lemma_rsvp_wf(self, caller: Identity, attendee: Identity)
        requires
            self.wf(),
        ensures
            self.after_rsvp(caller, attendee).wf(),
    {
        let next = self.after_rsvp(caller, attendee);
        assert forall|who: Identity| #[trigger] next.token_of(who) == self.token_of(who) by {}
        assert forall|who: Identity| #[trigger] next.has_attended(who) == self.has_attended(
            who,
        ) by {}
        assert forall|who: Identity| self.has_rsvped(who) implies #[trigger] next.has_rsvped(
            who,
        ) by {}
        assert forall|t: u32| #[trigger] next.is_issued(t) <==> self.is_issued(t) by {
            if self.is_issued(t) {
                let who = choose|who: Identity| self.token_of(who) == t;
                assert(next.token_of(who) == t);
            }
            if next.is_issued(t) {
                let who = choose|who: Identity| next.token_of(who) == t;
                assert(self.token_of(who) == t);
            }
        }
    }

    /// `mark_attended` keeps the invariant.
    pub proof fn lemma_mark_attended_wf(self, caller: Identity, attendee: Identity, minted: bool)
        requires
            self.wf(),
        ensures
            self.after_mark_attended(caller, attendee, minted).wf(),
    {
        let next = self.after_mark_attended(caller, attendee, minted);
        if self.mark_attended_outcome(caller, attendee, minted).is_ok() {
            let n = self.next_id;
            assert(!self.has_attended(attendee));
            assert(self.token_of(attendee) == NO_TOKEN);
            assert(next.token_of(attendee) == n);
            assert(next.has_attended(attendee));
            assert forall|who: Identity| who != attendee implies #[trigger] next.token_of(who)
                == self.token_of(who) by {}
            assert forall|who: Identity| who != attendee implies #[trigger] next.has_attended(who)
                == self.has_attended(who) by {}
            assert forall|who: Identity| #[trigger] next.has_rsvped(who) == self.has_rsvped(
                who,
            ) by {}
            assert forall|who: Identity| #[trigger] self.token_of(who) < n by {
                if self.token_of(who) != NO_TOKEN {
                    assert(self.is_issued(self.token_of(who)));
                }
            }
            assert forall|t: u32| #[trigger]
                next.is_issued(t) <==> FIRST_TOKEN_ID <= t < next.next_id by {
                if next.is_issued(t) {
                    let who = choose|who: Identity| next.token_of(who) == t;
                    if who != attendee {
                        assert(self.token_of(who) == t);
                        assert(self.is_issued(t));
                    }
                }
                if FIRST_TOKEN_ID <= t < next.next_id {
                    if t == n {
                        assert(next.token_of(attendee) == t);
                    } else {
                        assert(self.is_issued(t));
                        let who = choose|who: Identity| self.token_of(who) == t;
                        assert(who != attendee);
                        assert(next.token_of(who) == t);
                    }
                }
            }
        }
    }
}

} // verus!
