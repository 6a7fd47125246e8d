//! The operations: registration, confirmation of attendance with the issuance
//! of a credential, and the reads.

use vstd::prelude::*;
use crate::error::Error;
use crate::rules::{read_flag, read_token, screen, settle};
use crate::state::{Identity, State};
use crate::store::Store;

verus! {

/// The attendance token. It holds nothing itself: every operation takes the
/// store it works on.
///
/// Authorization and minting are done elsewhere. An operation is told on whose
/// behalf the call was authorized (`caller`), and a confirmation of attendance
/// is told whether the token ledger minted the token that
/// [`MyToken::mint_request`] names.
pub struct MyToken;

impl MyToken {
    /// Makes the store of a new token: `owner` may confirm attendance, the
    /// counter starts at its first value, and nothing is recorded of anyone.
    pub fn construct(owner: Identity) -> (store: Store)
        ensures
            store.wf(),
            store@ == State::initial(owner),
    {
        proof {
            State::lemma_initial_wf(owner);
        }
        Store::new(owner)
    }

    /// Succeeds exactly when `caller` is the owner. Changes nothing.
    pub fn authorize_owner_action(store: &Store, caller: Identity) -> (r: Result<(), Error>)
        ensures
            r == store@.owner_check(caller),
    {
        if caller == store.owner() {
            Ok(())
        } else {
            Err(Error::Unauthorized)
        }
    }

    /// Registers that `attendee` intends to attend. Only the attendee itself
    /// may do so; registering again changes nothing more.
    pub fn rsvp(store: &mut Store, caller: Identity, attendee: Identity) -> (r: Result<(), Error>)
        requires
            old(store).wf(),
        ensures
            final(store).wf(),
            r == old(store)@.rsvp_outcome(caller, attendee),
            final(store)@ == old(store)@.after_rsvp(caller, attendee),
    {
        proof {
            store@.lemma_rsvp_wf(caller, attendee);
        }
        if caller == attendee {
            store.set_rsvp(attendee);
            Ok(())
        } else {
            Err(Error::Unauthorized)
        }
    }

    /// Whether `attendee` has registered.
    pub fn has_rsvped(store: &Store, attendee: Identity) -> (b: bool)
        ensures
            b == store@.has_rsvped(attendee),
    {
        read_flag(store.rsvp_entry(attendee))
    }

    /// The token id that the ledger is to mint for `attendee` before
    /// [`MyToken::mark_attended`] can succeed, or the reason for which the
    /// confirmation is refused without asking the ledger. Changes nothing.
    pub fn mint_request(store: &Store, caller: Identity, attendee: Identity) -> (r: Result<
        u32,
        Error,
    >)
        ensures
            r == store@.mint_request(caller, attendee),
    {
        let authorized = Self::authorize_owner_action(store, caller).is_ok();
        let attended = Self::has_attended(store, attendee);
        let rsvped = Self::has_rsvped(store, attendee);
        match screen(authorized, attended, rsvped) {
            Ok(()) => Ok(store.next_id()),
            Err(e) => Err(e),
        }
    }

    /// Confirms that `attendee` attended and records the credential issued for
    /// it. `minted` is the ledger's answer to [`MyToken::mint_request`].
    ///
    /// On success the attendee holds the token that the counter named, and the
    /// counter has advanced by one. On any error the store is as it was.
    pub fn mark_attended(
        store: &mut Store,
        caller: Identity,
        attendee: Identity,
        minted: bool,
    ) -> (r: Result<(), Error>)
        requires
            old(store).wf(),
        ensures
            final(store).wf(),
            r == old(store)@.mark_attended_outcome(caller, attendee, minted),
            final(store)@ == old(store)@.after_mark_attended(caller, attendee, minted),
    {
        proof {
            store@.lemma_mark_attended_wf(caller, attendee, minted);
        }
        let token = match Self::mint_request(store, caller, attendee) {
            Ok(n) => n,
            Err(e) => {
                return Err(e);
            },
        };
        let next = match settle(token, minted) {
            Ok(next) => next,
            Err(e) => {
                return Err(e);
            },
        };
        store.record_issuance(attendee, token);
        store.set_next_id(next);
        Ok(())
    }

    /// Whether `attendee` has been confirmed and credentialed.
    pub fn has_attended(store: &Store, attendee: Identity) -> (b: bool)
        ensures
            b == store@.has_attended(attendee),
    {
        read_flag(store.attended_entry(attendee))
    }

    /// The credential of `attendee`, `0` where none was issued.
    pub fn token_of(store: &Store, attendee: Identity) -> (id: u32)
        ensures
            id == store@.token_of(attendee),
    {
        read_token(store.token_entry(attendee))
    }
}

} // verus!
