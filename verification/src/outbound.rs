//! The outbound transfer after its checks: destroy the holder's balance,
//! then hand the transfer to the relay.

use vstd::prelude::*;
use crate::failure::Failure;
use crate::types::{AssetId, Balance, ChainId, ResourceId};
use crate::wide::U256;

verus! {

/// An outbound transfer that passed the handler's checks. What is owed next
/// is the ledger's destruction of `amount` of `asset_id` from the usable
/// balance of `from`.
#[derive(Clone, Debug, PartialEq, Eq)]
pub struct Redemption<A> {
    pub from: A,
    pub asset_id: AssetId,
    pub amount: Balance,
    pub dest_chain_id: ChainId,
    pub resource_id: ResourceId,
    pub recipient: Vec<u8>,
}

/// A fungible transfer for the relay to start, with the amount in the
/// bridge's wide form.
#[derive(Clone, Debug, PartialEq, Eq)]
pub struct FungibleTransfer {
    pub dest_chain_id: ChainId,
    pub resource_id: ResourceId,
    pub recipient: Vec<u8>,
    pub amount: U256,
}

impl<A> Redemption<A> {
    /// What follows the ledger's answer. After a destruction the transfer
    /// goes to the relay, tagged with the resource and carrying the same
    /// amount; a ledger failure ends the operation and is passed on as it
    /// came, with nothing for the relay to do.
    pub fn destroyed<E>(self, outcome: Result<(), E>) -> (r: Result<FungibleTransfer, Failure<E>>)
        ensures
            match outcome {
                Ok(_) => r matches Ok(t) && t.dest_chain_id == self.dest_chain_id && t.resource_id
                    == self.resource_id && t.recipient == self.recipient && t.amount.value()
                    == self.amount,
                Err(e) => r == Err::<FungibleTransfer, Failure<E>>(Failure::Ledger(e)),
            },
    {
        match outcome {
            Ok(_) => Ok(
                FungibleTransfer {
                    dest_chain_id: self.dest_chain_id,
                    resource_id: self.resource_id,
                    recipient: self.recipient,
                    amount: U256::from_u128(self.amount),
                },
            ),
            Err(e) => Err(Failure::Ledger(e)),
        }
    }
}

impl FungibleTransfer {
    /// What follows the relay's answer: success, or the relay's failure as
    /// it came.
    pub fn transferred<E>(self, outcome: Result<(), E>) -> (r: Result<(), Failure<E>>)
        ensures
            r == match outcome {
                Ok(_) => Ok::<(), Failure<E>>(()),
                Err(e) => Err::<(), Failure<E>>(Failure::Relay(e)),
            },
    {
        match outcome {
            Ok(_) => Ok(()),
            Err(e) => Err(Failure::Relay(e)),
        }
    }
}

} // verus!
