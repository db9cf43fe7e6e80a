//! Account references, declared context shapes, and shape validation.
//!
//! A caller supplies an ordered list of account references, each carrying
//! signer and mutability permission flags. Every handler declares a context
//! shape: one requirement per account it is permitted to touch. The
//! dispatcher checks the supplied list against the declared shape before the
//! handler body runs, so a handler can only ever see accounts that satisfy
//! its declaration.

use vstd::prelude::*;

use crate::error::ProgramError;

verus! {

/// One account reference supplied by the caller: the account's address and
/// the permission flags the caller granted for this call.
#[derive(Debug)]
pub struct AccountRef {
    /// The address of the referenced account.
    pub key: String,
    /// Whether the account signed the transaction.
    pub is_signer: bool,
    /// Whether the account may be mutated during this call.
    pub is_writable: bool,
}

/// What a handler demands of one slot of its declared context shape.
#[derive(Debug, Clone, Copy, PartialEq, Eq, Structural)]
pub struct AccountRequirement {
    /// The supplied account must have signed the transaction.
    pub needs_signer: bool,
    /// The supplied account must be writable.
    pub needs_writable: bool,
}

/// Whether one supplied account reference satisfies one declared requirement.
pub open spec fn ref_satisfies(req: AccountRequirement, a: AccountRef) -> bool {
    &&& (req.needs_signer ==> a.is_signer)
    &&& (req.needs_writable ==> a.is_writable)
}

/// Whether a supplied account list matches a declared shape: the counts are
/// equal and each account satisfies the requirement of its slot. An empty
/// shape therefore matches exactly the empty list.
pub open spec fn shape_matches(shape: Seq<AccountRequirement>, supplied: Seq<AccountRef>) -> bool {
    &&& supplied.len() == shape.len()
    &&& forall|i: int|
        0 <= i < shape.len() ==> #[trigger] ref_satisfies(shape[i], supplied[i])
}

/// Checks a supplied account list against a declared shape.
pub fn check_shape(shape: &Vec<AccountRequirement>, supplied: &Vec<AccountRef>) -> (r: bool)
    ensures
        r == shape_matches(shape@, supplied@),
{
    if shape.len() != supplied.len() {
        return false;
    }
    let mut i: usize = 0;
    while i < shape.len()
        invariant
            i <= shape@.len(),
            shape@.len() == supplied@.len(),
            forall|j: int| 0 <= j < i ==> #[trigger] ref_satisfies(shape@[j], supplied@[j]),
        decreases shape@.len() - i,
    {
        let req = shape[i];
        let a = &supplied[i];
        if (req.needs_signer && !a.is_signer) || (req.needs_writable && !a.is_writable) {
            proof {
                assert(!ref_satisfies(shape@[i as int], supplied@[i as int]));
            }
            return false;
        }
        i += 1;
    }
    true
}

/// A handler's declared account context: the capability descriptor the
/// dispatcher checks generically before invoking the handler, and the typed
/// account set the handler receives once the check has passed.
pub trait Accounts: Sized {
    /// The declared shape: one requirement per account the handler may touch.
    spec fn declared_shape() -> Seq<AccountRequirement>;

    /// The declared shape as a runtime value.
    fn shape() -> (r: Vec<AccountRequirement>)
        ensures
            r@ == Self::declared_shape(),
    ;

    /// Builds the typed account set from the caller-supplied references,
    /// rejecting every list that does not match the declared shape.
    fn try_accounts(supplied: &Vec<AccountRef>) -> (r: Result<Self, ProgramError>)
        ensures
            r is Ok <==> shape_matches(Self::declared_shape(), supplied@),
            r matches Err(e) ==> e == ProgramError::InvalidContext,
    ;
}

/// The validated account context a handler is invoked with. A value of this
/// type exists only for the duration of one dispatch, and only after the
/// supplied accounts were checked against `A`'s declared shape, so the
/// accounts a handler can touch are always a subset of those it declared.
pub struct Context<A> {
    /// The typed account set, built by shape validation.
    pub accounts: A,
}

impl<A: Accounts> Context<A> {
    /// Validates the caller-supplied account list against `A`'s declared
    /// shape and wraps the result. This is the only way a handler context
    /// comes into being.
    pub fn try_new(supplied: &Vec<AccountRef>) -> (r: Result<Context<A>, ProgramError>)
        ensures
            r is Ok <==> shape_matches(A::declared_shape(), supplied@),
            r matches Err(e) ==> e == ProgramError::InvalidContext,
    {
        match A::try_accounts(supplied) {
            Ok(accounts) => Ok(Context { accounts }),
            Err(e) => Err(e),
        }
    }
}

} // verus!
