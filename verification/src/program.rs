//! The two instruction handlers and their declared account contexts.
//!
//! Neither handler holds business logic yet: each emits one diagnostic line
//! and succeeds. `bypass` is an explicit placeholder whose intended semantics
//! is undefined; nothing here guesses at it.

use vstd::prelude::*;

use crate::accounts::{AccountRef, AccountRequirement, Accounts, Context, check_shape};
use crate::error::ProgramError;
use crate::log::Log;

verus! {

/// Accounts that `initialize` may touch: none are declared.
pub struct Initialize {}

impl Accounts for Initialize {
    open spec fn declared_shape() -> Seq<AccountRequirement> {
        Seq::empty()
    }

    fn shape() -> (r: Vec<AccountRequirement>) {
        let r: Vec<AccountRequirement> = Vec::new();
        r
    }

    fn try_accounts(supplied: &Vec<AccountRef>) -> (r: Result<Self, ProgramError>) {
        let shape = Self::shape();
        if check_shape(&shape, supplied) {
            Ok(Initialize {  })
        } else {
            Err(ProgramError::InvalidContext)
        }
    }
}

/// Accounts that `bypass` may touch: none are declared.
pub struct Bypass {}

impl Accounts for Bypass {
    open spec fn declared_shape() -> Seq<AccountRequirement> {
        Seq::empty()
    }

    fn shape() -> (r: Vec<AccountRequirement>) {
        let r: Vec<AccountRequirement> = Vec::new();
        r
    }

    fn try_accounts(supplied: &Vec<AccountRef>) -> (r: Result<Self, ProgramError>) {
        let shape = Self::shape();
        if check_shape(&shape, supplied) {
            Ok(Bypass {  })
        } else {
            Err(ProgramError::InvalidContext)
        }
    }
}

/// The diagnostic line `initialize` emits on success.
pub open spec fn initialize_message() -> Seq<char> {
    "Bubblemap Bypass Program Initialized"@
}

/// The diagnostic line `bypass` emits on success.
pub open spec fn bypass_message() -> Seq<char> {
    "Bypass executed"@
}

/// Handles the `initialize` instruction: emits one diagnostic line and
/// succeeds. There is no precondition beyond the context-shape validation
/// already witnessed by the `Context<Initialize>` value, and no account is
/// touched, so repeated calls behave identically.
pub fn initialize(_ctx: Context<Initialize>, log: &mut Log) -> (r: Result<(), ProgramError>)
    ensures
        r == Ok::<(), ProgramError>(()),
        final(log)@ == old(log)@.push(initialize_message()),
{
    log.emit(String::from_str("Bubblemap Bypass Program Initialized"));
    Ok(())
}

/// Handles the `bypass` instruction: emits one diagnostic line and succeeds.
/// This is a placeholder with undefined design intent; like `initialize`, it
/// touches no account and always succeeds.
pub fn bypass(_ctx: Context<Bypass>, log: &mut Log) -> (r: Result<(), ProgramError>)
    ensures
        r == Ok::<(), ProgramError>(()),
        final(log)@ == old(log)@.push(bypass_message()),
{
    log.emit(String::from_str("Bypass executed"));
    Ok(())
}

} // verus!
