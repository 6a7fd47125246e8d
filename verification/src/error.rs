//! Reasons for which an operation is refused.

use vstd::prelude::*;

verus! {

/// Why an operation was refused. A refused operation leaves the store as it was.
#[derive(Clone, Copy, Debug, PartialEq, Eq, Structural)]
pub enum Error {
    /// The caller is not the identity that the operation asks for.
    Unauthorized,
    /// The attendee already holds a credential.
    AlreadyAttended,
    /// The attendee was never registered as intending to attend.
    NotRsvped,
    /// No credential identifier is left to hand out.
    CounterOverflow,
    /// The token ledger turned the mint down.
    MintFailed,
}

impl Error {
    /// The text that goes with each reason.
    pub open spec fn text(self) -> Seq<char> {
        match self {
            Error::Unauthorized => "caller is not authorized"@,
            Error::AlreadyAttended => "attendee already marked attended / NFT already minted"@,
            Error::NotRsvped => "attendee did not RSVP"@,
            Error::CounterOverflow => "token id overflow"@,
            Error::MintFailed => "token ledger rejected the mint"@,
        }
    }

    /// A fixed, human-readable message for the reason.
    pub fn message(&self) -> (m: &'static str)
        ensures
            m@ == self.text(),
    {
        match self {
            Error::Unauthorized => "caller is not authorized",
            Error::AlreadyAttended => "attendee already marked attended / NFT already minted",
            Error::NotRsvped => "attendee did not RSVP",
            Error::CounterOverflow => "token id overflow",
            Error::MintFailed => "token ledger rejected the mint",
        }
    }
}

} // verus!
