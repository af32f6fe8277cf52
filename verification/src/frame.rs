//! What the runtime hands to every pallet call: who is calling, and how a
//! refused call is reported.
use vstd::prelude::*;

verus! {

/// An account on the chain.
pub type AccountId = u64;

/// A block height.
pub type BlockNumber = u64;

/// Who dispatched a call.
#[derive(Clone, Copy, Debug, PartialEq, Eq, Structural)]
pub enum Origin {
    /// The chain's superuser.
    Root,
    /// A transaction signed by this account.
    Signed(AccountId),
    /// An unsigned transaction.
    Unsigned,
}

/// Why a call was refused: the origin was of the wrong kind, or the pallet
/// refused it with one of its own errors.
#[derive(Clone, Copy, Debug, PartialEq, Eq, Structural)]
pub enum DispatchError<E> {
    BadOrigin,
    Module(E),
}

/// The signer of a signed origin; any other origin is refused.
pub fn ensure_signed<E>(origin: Origin) -> (result: Result<AccountId, DispatchError<E>>)
    ensures
        match origin {
            Origin::Signed(who) => result == Ok::<AccountId, DispatchError<E>>(who),
            _ => result == Err::<AccountId, DispatchError<E>>(DispatchError::BadOrigin),
        },
{
    match origin {
        Origin::Signed(who) => Ok(who),
        _ => Err(DispatchError::BadOrigin),
    }
}

/// Succeeds for the root origin only.
pub fn ensure_root<E>(origin: Origin) -> (result: Result<(), DispatchError<E>>)
    ensures
        match origin {
            Origin::Root => result is Ok,
            _ => result == Err::<(), DispatchError<E>>(DispatchError::BadOrigin),
        },
{
    match origin {
        Origin::Root => Ok(()),
        _ => Err(DispatchError::BadOrigin),
    }
}

} // verus!
