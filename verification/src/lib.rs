//! A cross-chain asset bridge adapter: a registry that pairs chain-local
//! asset identifiers with bridge resource identifiers, and the decisions of
//! the outbound (`redeem`) and inbound (`deposit`) transfer handlers.

pub mod types;
pub mod registry;
pub mod wide;
pub mod failure;
pub mod origin;
pub mod outbound;
pub mod inbound;
pub mod pallet;
pub mod genesis;
pub mod weights;
