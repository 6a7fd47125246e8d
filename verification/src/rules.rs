//! The issuer's rules on plain values: what one request is answered with, given
//! what the store holds for the attendee.
//!
//! Nothing here touches a store. The operations of [`crate::token::MyToken`] are
//! built from these functions, and so is any adapter that keeps the same
//! records somewhere else.

use vstd::prelude::*;
use crate::error::Error;

verus! {

/// The token id that stands for "no credential issued".
pub const NO_TOKEN: u32 = 0;

/// The first token id that is handed out.
pub const FIRST_TOKEN_ID: u32 = 1;

/// A flag that was never written reads as `false`.
pub open spec fn flag_value(entry: Option<bool>) -> bool {
    match entry {
        Some(v) => v,
        None => false,
    }
}

/// A token assignment that was never written reads as [`NO_TOKEN`].
pub open spec fn token_value(entry: Option<u32>) -> u32 {
    match entry {
        Some(id) => id,
        None => NO_TOKEN,
    }
}

/// A counter that was never written reads as [`FIRST_TOKEN_ID`].
pub open spec fn counter_value(entry: Option<u32>) -> u32 {
    match entry {
        Some(n) => n,
        None => FIRST_TOKEN_ID,
    }
}

/// Reads a stored flag, `false` where there is none.
pub fn read_flag(entry: Option<bool>) -> (flag: bool)
    ensures
        flag == flag_value(entry),
{
    match entry {
        Some(v) => v,
        None => false,
    }
}

/// Reads a stored token id, [`NO_TOKEN`] where there is none.
pub fn read_token(entry: Option<u32>) -> (id: u32)
    ensures
        id == token_value(entry),
{
    match entry {
        Some(id) => id,
        None => NO_TOKEN,
    }
}

/// Reads the stored counter, [`FIRST_TOKEN_ID`] where there is none.
pub fn read_counter(entry: Option<u32>) -> (n: u32)
    ensures
        n == counter_value(entry),
{
    match entry {
        Some(n) => n,
        None => FIRST_TOKEN_ID,
    }
}

/// Whether a confirmation of attendance may go on to the mint: the caller must
/// be authorized, the attendee must not hold a credential yet, and must have
/// registered. The first condition that fails gives the error.
pub open spec fn screening(authorized: bool, attended: bool, rsvped: bool) -> Result<(), Error> {
    if !authorized {
        Err(Error::Unauthorized)
    } else if attended {
        Err(Error::AlreadyAttended)
    } else if !rsvped {
        Err(Error::NotRsvped)
    } else {
        Ok(())
    }
}

/// What follows the mint of token `n`: the ledger's refusal ends the operation,
/// and so does a counter that cannot advance. Otherwise the result is the next
/// value of the counter.
pub open spec fn settlement(n: u32, minted: bool) -> Result<u32, Error> {
    if !minted {
        Err(Error::MintFailed)
    } else if n == u32::MAX {
        Err(Error::CounterOverflow)
    } else {
        Ok((n + 1) as u32)
    }
}

/// Checks a confirmation of attendance before anything is minted.
pub fn screen(authorized: bool, attended: bool, rsvped: bool) -> (r: Result<(), Error>)
    ensures
        r == screening(authorized, attended, rsvped),
{
    if !authorized {
        Err(Error::Unauthorized)
    } else if attended {
        Err(Error::AlreadyAttended)
    } else if !rsvped {
        Err(Error::NotRsvped)
    } else {
        Ok(())
    }
}

/// Closes the issuance of token `n`, given whether the ledger minted it, and
/// returns the counter's next value.
pub fn settle(n: u32, minted: bool) -> (r: Result<u32, Error>)
    ensures
        r == settlement(n, minted),
{
    if !minted {
        Err(Error::MintFailed)
    } else {
        match n.checked_add(1) {
            Some(next) => Ok(next),
            None => Err(Error::CounterOverflow),
        }
    }
}

} // verus!
