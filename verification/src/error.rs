//! The failure taxonomy of the dispatcher.

use vstd::prelude::*;

verus! {

/// Why a call was rejected. Rejection is terminal for that call: the caller
/// may resubmit a corrected call, but nothing is retried here.
#[derive(Debug, Clone, Copy, PartialEq, Eq, Structural)]
pub enum ProgramError {
    /// The supplied accounts do not satisfy the selected handler's declared
    /// context shape (wrong count, missing signer, or wrong mutability flag).
    /// Detected before the handler body runs.
    InvalidContext,
    /// The call's discriminator selects no registered handler.
    UnknownInstruction,
}

impl ProgramError {
    /// A human-readable name for the error kind.
    pub fn text(&self) -> (r: &'static str)
        ensures
            *self is InvalidContext ==> r@ == "invalid context"@,
            *self is UnknownInstruction ==> r@ == "unknown instruction"@,
    {
        match self {
            ProgramError::InvalidContext => "invalid context",
            ProgramError::UnknownInstruction => "unknown instruction",
        }
    }
}

} // verus!
