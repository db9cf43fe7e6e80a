//! A minimal on-chain program scaffold: two instruction handlers,
//! `initialize` and `bypass`, behind a verified instruction dispatcher.
//!
//! An incoming call carries an instruction discriminator, a list of account
//! references, and opaque argument bytes. The dispatcher routes the call to
//! exactly one handler after checking that the supplied accounts match the
//! handler's declared context shape; a call that selects no handler, or whose
//! accounts do not match, is rejected with a typed error.

use vstd::prelude::*;

pub mod accounts;
pub mod dispatch;
pub mod error;
pub mod log;
pub mod program;

verus! {

/// The fixed address identifying this deployable unit. The hosting runtime
/// uses it to route calls to this program; it is immutable once deployed.
pub open spec fn spec_program_id() -> Seq<char> {
    "BubblmapBypass111111111111111111111111111"@
}

/// The program's hard-coded address.
pub fn program_id() -> (r: &'static str)
    ensures
        r@ == spec_program_id(),
{
    "BubblmapBypass111111111111111111111111111"
}

} // verus!
