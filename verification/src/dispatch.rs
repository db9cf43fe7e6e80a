//! The instruction dispatcher.
//!
//! Each incoming call carries instruction data whose first eight bytes are a
//! discriminator naming one handler; the remaining bytes are the argument
//! payload (empty for both handlers of this scaffold). Dispatch parses the
//! discriminator, validates the supplied accounts against the selected
//! handler's declared shape, invokes the handler, and propagates its result.
//! Each call is one stateless transition: the outcome is a function of the
//! call's data and accounts alone.

use vstd::prelude::*;

use crate::accounts::{AccountRef, Accounts, Context, shape_matches};
use crate::error::ProgramError;
use crate::log::Log;
use crate::program::{
    Bypass, Initialize, bypass, bypass_message, initialize, initialize_message,
};

verus! {

/// The closed set of registered instructions: exhaustive matching in the
/// dispatcher guarantees no instruction goes unhandled, and adding one is a
/// compile-time-checked change to this union.
#[derive(Debug, Clone, Copy, PartialEq, Eq, Structural)]
pub enum Instruction {
    /// Selects the `initialize` handler.
    Initialize,
    /// Selects the `bypass` handler.
    Bypass,
}

/// The eight-byte tag that selects `initialize` on the wire.
pub open spec fn initialize_discriminator() -> Seq<u8> {
    seq![175u8, 175u8, 109u8, 31u8, 13u8, 152u8, 155u8, 237u8]
}

/// The eight-byte tag that selects `bypass` on the wire.
pub open spec fn bypass_discriminator() -> Seq<u8> {
    seq![165u8, 8u8, 84u8, 124u8, 143u8, 239u8, 104u8, 69u8]
}

/// The wire tag of `initialize` as a runtime value.
pub fn initialize_discriminator_bytes() -> (r: Vec<u8>)
    ensures
        r@ == initialize_discriminator(),
{
    let r: Vec<u8> = vec![175u8, 175u8, 109u8, 31u8, 13u8, 152u8, 155u8, 237u8];
    proof {
        assert(r@ =~= initialize_discriminator());
    }
    r
}

/// The wire tag of `bypass` as a runtime value.
pub fn bypass_discriminator_bytes() -> (r: Vec<u8>)
    ensures
        r@ == bypass_discriminator(),
{
    let r: Vec<u8> = vec![165u8, 8u8, 84u8, 124u8, 143u8, 239u8, 104u8, 69u8];
    proof {
        assert(r@ =~= bypass_discriminator());
    }
    r
}

/// Which instruction, if any, the given instruction data selects: the data
/// must be at least eight bytes long and begin with a registered tag.
pub open spec fn spec_parse_instruction(data: Seq<u8>) -> Option<Instruction> {
    if data.len() >= 8 && data.subrange(0, 8) == initialize_discriminator() {
        Some(Instruction::Initialize)
    } else if data.len() >= 8 && data.subrange(0, 8) == bypass_discriminator() {
        Some(Instruction::Bypass)
    } else {
        None
    }
}

/// Whether `data` begins with the bytes of `tag`.
fn has_prefix(data: &Vec<u8>, tag: &Vec<u8>) -> (r: bool)
    requires
        tag@.len() <= data@.len(),
    ensures
        r == (data@.subrange(0, tag@.len() as int) == tag@),
{
    let mut i: usize = 0;
    while i < tag.len()
        invariant
            tag@.len() <= data@.len(),
            i <= tag@.len(),
            forall|j: int| 0 <= j < i ==> data@[j] == tag@[j],
        decreases tag@.len() - i,
    {
        if data[i] != tag[i] {
            proof {
                let s = data@.subrange(0, tag@.len() as int);
                assert(s[i as int] == data@[i as int]);
                assert(s != tag@);
            }
            return false;
        }
        i += 1;
    }
    proof {
        assert(data@.subrange(0, tag@.len() as int) =~= tag@);
    }
    true
}

/// Parses the discriminator of an incoming call.
pub fn parse_instruction(data: &Vec<u8>) -> (r: Option<Instruction>)
    ensures
        r == spec_parse_instruction(data@),
{
    if data.len() < 8 {
        return None;
    }
    let init_tag = initialize_discriminator_bytes();
    if has_prefix(data, &init_tag) {
        return Some(Instruction::Initialize);
    }
    let bypass_tag = bypass_discriminator_bytes();
    if has_prefix(data, &bypass_tag) {
        return Some(Instruction::Bypass);
    }
    None
}

/// The result a dispatch of the given call returns: the unknown-instruction
/// rejection if the data selects no handler, the invalid-context rejection if
/// the accounts do not match the selected handler's declared shape, and the
/// handler's success otherwise.
pub open spec fn spec_dispatch(data: Seq<u8>, supplied: Seq<AccountRef>) -> Result<
    (),
    ProgramError,
> {
    match spec_parse_instruction(data) {
        None => Err(ProgramError::UnknownInstruction),
        Some(Instruction::Initialize) => if shape_matches(
            Initialize::declared_shape(),
            supplied,
        ) {
            Ok(())
        } else {
            Err(ProgramError::InvalidContext)
        },
        Some(Instruction::Bypass) => if shape_matches(Bypass::declared_shape(), supplied) {
            Ok(())
        } else {
            Err(ProgramError::InvalidContext)
        },
    }
}

/// The diagnostic lines a dispatch of the given call appends: exactly the
/// selected handler's one line on success, and nothing on rejection.
pub open spec fn spec_dispatch_log(data: Seq<u8>, supplied: Seq<AccountRef>) -> Seq<Seq<char>> {
    if spec_dispatch(data, supplied) is Ok {
        match spec_parse_instruction(data) {
            Some(Instruction::Initialize) => seq![initialize_message()],
            Some(Instruction::Bypass) => seq![bypass_message()],
            None => Seq::empty(),
        }
    } else {
        Seq::empty()
    }
}

/// Routes one incoming call to its handler. The result and the appended log
/// lines are pinned down, for every input, by `spec_dispatch` and
/// `spec_dispatch_log`.
pub fn dispatch(data: &Vec<u8>, supplied: &Vec<AccountRef>, log: &mut Log) -> (r: Result<
    (),
    ProgramError,
>)
    ensures
        r == spec_dispatch(data@, supplied@),
        final(log)@ == old(log)@ + spec_dispatch_log(data@, supplied@),
{
    let r = match parse_instruction(data) {
        None => Err(ProgramError::UnknownInstruction),
        Some(Instruction::Initialize) => match Context::<Initialize>::try_new(supplied) {
            Ok(ctx) => initialize(ctx, log),
            Err(e) => Err(e),
        },
        Some(Instruction::Bypass) => match Context::<Bypass>::try_new(supplied) {
            Ok(ctx) => bypass(ctx, log),
            Err(e) => Err(e),
        },
    };
    proof {
        if spec_dispatch_log(data@, supplied@).len() == 0 {
            assert(old(log)@ + spec_dispatch_log(data@, supplied@) =~= old(log)@);
        } else {
            assert(old(log)@ + spec_dispatch_log(data@, supplied@) =~= old(log)@.push(
                spec_dispatch_log(data@, supplied@)[0],
            ));
        }
    }
    r
}

/// The results of `n` consecutive dispatches of one identical call, oldest
/// first. Dispatch keeps no state between calls, so each entry is
/// `spec_dispatch` of the same inputs.
pub open spec fn spec_dispatch_many(data: Seq<u8>, supplied: Seq<AccountRef>, n: nat) -> Seq<
    Result<(), ProgramError>,
>
    decreases n,
{
    if n == 0 {
        Seq::empty()
    } else {
        spec_dispatch_many(data, supplied, (n - 1) as nat).push(spec_dispatch(data, supplied))
    }
}

/// Every call that selects a handler and supplies the declared (empty)
/// account context succeeds, emitting exactly one diagnostic line; no account
/// is supplied, so none can be observed to change.
pub proof fn lemma_empty_context_succeeds(data: Seq<u8>, supplied: Seq<AccountRef>)
    requires
        spec_parse_instruction(data) is Some,
        supplied.len() == 0,
    ensures
        spec_dispatch(data, supplied) == Ok::<(), ProgramError>(()),
        spec_dispatch_log(data, supplied).len() == 1,
{
}

/// Shape validation is total and rejects any superset: a call that selects
/// either handler and supplies at least one account is rejected with the
/// invalid-context error, and nothing is logged, since both declared shapes
/// require zero accounts.
pub proof fn lemma_extra_accounts_rejected(data: Seq<u8>, supplied: Seq<AccountRef>)
    requires
        spec_parse_instruction(data) is Some,
        supplied.len() >= 1,
    ensures
        spec_dispatch(data, supplied) == Err::<(), ProgramError>(ProgramError::InvalidContext),
        spec_dispatch_log(data, supplied).len() == 0,
{
}

/// `initialize` is idempotent: across any number of consecutive identical
/// calls with the declared empty context, every call returns the same
/// success. No hidden state is created or consulted — the outcome of each
/// dispatch is a function of the call's data and accounts alone.
pub proof fn lemma_initialize_idempotent(data: Seq<u8>, supplied: Seq<AccountRef>, n: nat)
    requires
        spec_parse_instruction(data) == Some(Instruction::Initialize),
        supplied.len() == 0,
    ensures
        spec_dispatch_many(data, supplied, n).len() == n,
        forall|i: int|
            0 <= i < n ==> spec_dispatch_many(data, supplied, n)[i] == Ok::<(), ProgramError>(()),
    decreases n,
{
    if n > 0 {
        lemma_initialize_idempotent(data, supplied, (n - 1) as nat);
        lemma_empty_context_succeeds(data, supplied);
        assert forall|i: int| 0 <= i < n implies spec_dispatch_many(data, supplied, n)[i] == Ok::<
            (),
            ProgramError,
        >(()) by {
            if i < n - 1 {
                assert(spec_dispatch_many(data, supplied, n)[i] == spec_dispatch_many(
                    data,
                    supplied,
                    (n - 1) as nat,
                )[i]);
            }
        }
    }
}

} // verus!
