//! The inbound transfer after its checks: resolve the destination account,
//! then have the ledger issue the amount.

use vstd::prelude::*;
use crate::failure::Failure;
use crate::types::{AssetId, Balance};

verus! {

/// An inbound transfer that passed the handler's checks. What is owed next
/// is the resolution of `to` into an account.
#[derive(Clone, Debug, PartialEq, Eq)]
pub struct Credit<S> {
    pub asset_id: AssetId,
    pub to: S,
    pub amount: Balance,
}

/// An issue for the ledger to make: `amount` of `asset_id` to the account
/// `to`.
#[derive(Clone, Debug, PartialEq, Eq)]
pub struct Issue<A> {
    pub asset_id: AssetId,
    pub to: A,
    pub amount: Balance,
}

impl<S> Credit<S> {
    /// What follows the account lookup's answer. A resolved account gets the
    /// issue of the same asset and amount; a lookup failure ends the
    /// operation and is passed on as it came, with nothing for the ledger to
    /// do.
    pub fn resolved<A, E>(self, outcome: Result<A, E>) -> (r: Result<Issue<A>, Failure<E>>)
        ensures
            r == match outcome {
                Ok(account) => Ok::<Issue<A>, Failure<E>>(
                    (Issue { asset_id: self.asset_id, to: account, amount: self.amount }),
                ),
                Err(e) => Err::<Issue<A>, Failure<E>>(Failure::Lookup(e)),
            },
    {
        match outcome {
            Ok(account) => Ok(Issue { asset_id: self.asset_id, to: account, amount: self.amount }),
            Err(e) => Err(Failure::Lookup(e)),
        }
    }
}

impl<A> Issue<A> {
    /// What follows the ledger's answer: success, or the ledger's failure as
    /// it came.
    pub fn issued<E>(self, outcome: Result<(), E>) -> (r: Result<(), Failure<E>>)
        ensures
            r == match outcome {
                Ok(_) => Ok::<(), Failure<E>>(()),
                Err(e) => Err::<(), Failure<E>>(Failure::Ledger(e)),
            },
    {
        match outcome {
            Ok(_) => Ok(()),
            Err(e) => Err(Failure::Ledger(e)),
        }
    }
}

} // verus!
