//! Sequences of calls, and the state that they lead to.

use vstd::prelude::*;
use crate::error::Error;
use crate::state::{Identity, State};

verus! {

/// One call of an operation that may change the store.
pub enum Call {
    /// `rsvp`, authorized by `caller`.
    Rsvp { caller: Identity, attendee: Identity },
    /// `mark_attended`, authorized by `caller`, with the ledger's answer.
    MarkAttended { caller: Identity, attendee: Identity, minted: bool },
}

impl Call {
    /// The identity that the call is about.
    pub open spec fn attendee(self) -> Identity {
        match self {
            Call::Rsvp { attendee, .. } => attendee,
            Call::MarkAttended { attendee, .. } => attendee,
        }
    }

    /// What the call returns in state `s`.
    pub open spec fn outcome(self, s: State) -> Result<(), Error> {
        match self {
            Call::Rsvp { caller, attendee } => s.rsvp_outcome(caller, attendee),
            Call::MarkAttended { caller, attendee, minted } => s.mark_attended_outcome(
                caller,
                attendee,
                minted,
            ),
        }
    }

    /// The state that the call leaves, made in state `s`.
    pub open spec fn apply(self, s: State) -> State {
        match self {
            Call::Rsvp { caller, attendee } => s.after_rsvp(caller, attendee),
            Call::MarkAttended { caller, attendee, minted } => s.after_mark_attended(
                caller,
                attendee,
                minted,
            ),
        }
    }

    /// Whether the call, made in state `s`, is a confirmation of attendance
    /// that succeeds.
    pub open spec fn issues(self, s: State) -> bool {
        self is MarkAttended && self.outcome(s).is_ok()
    }
}

/// The state after `calls` were made one after the other, starting in `s`.
pub open spec fn run(s: State, calls: Seq<Call>) -> State
    decreases calls.len(),
{
    if calls.len() == 0 {
        s
    } else {
        calls.last().apply(run(s, calls.drop_last()))
    }
}

/// How many of `calls`, made one after the other starting in `s`, are
/// confirmations of attendance that succeed.
pub open spec fn issuances(s: State, calls: Seq<Call>) -> nat
    decreases calls.len(),
{
    if calls.len() == 0 {
        0
    } else {
        let before = issuances(s, calls.drop_last());
        if calls.last().issues(run(s, calls.drop_last())) {
            before + 1
        } else {
            before
        }
    }
}

/// Whether none of `calls` is about `who`.
pub open spec fn never_about(calls: Seq<Call>, who: Identity) -> bool {
    forall|i: int| 0 <= i < calls.len() ==> (#[trigger] calls[i]).attendee() != who
}

} // verus!
