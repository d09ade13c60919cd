//! The adapter: the administrative operations on the registry and the
//! checks that open an outbound or an inbound transfer.

use vstd::prelude::*;
use crate::inbound::Credit;
use crate::origin::{RawOrigin, ensure_signed};
use crate::outbound::Redemption;
use crate::registry::{Registry, bijective};
use crate::types::{AssetId, Balance, ChainId, ResourceId};

verus! {

/// Why the adapter refused an operation.
#[derive(Clone, Copy, Debug, PartialEq, Eq, Structural)]
pub enum Error {
    /// The caller lacks the capability that the operation asks for.
    Unauthorized,
    /// The destination chain is not on the relay's whitelist.
    InvalidDestChainId,
    /// The asset or the resource is already paired.
    ResourceIdAlreadyRegistered,
    /// The asset or the resource is not paired.
    ResourceIdNotRegistered,
    /// The resource and the asset do not belong together. None of the
    /// adapter's own operations reports it; it is there for hosts that
    /// compare the two themselves.
    ResourceIdCurrencyIdNotMatch,
}

/// What the adapter reports once a change of the registry is in place.
#[derive(Clone, Copy, Debug, PartialEq, Eq)]
pub enum Event {
    /// The resource and the asset were paired.
    RegisterResourceId(ResourceId, AssetId),
    /// The pair of the resource and the asset was removed.
    UnregisterResourceId(ResourceId, AssetId),
}

/// The adapter's state: the registry of paired identifiers.
pub struct Pallet {
    registry: Registry,
}

impl Pallet {
    /// The registry that the adapter keeps.
    pub closed spec fn registry(&self) -> Registry {
        self.registry
    }

    /// The adapter's invariant: that of its registry.
    pub open spec fn wf(&self) -> bool {
        self.registry().wf()
    }

    /// An adapter with nothing registered.
    pub fn new() -> (r: Pallet)
        ensures
            r.wf(),
            bijective(r.registry()),
            r.registry().forward() == Map::<AssetId, ResourceId>::empty(),
            r.registry().reverse() == Map::<ResourceId, AssetId>::empty(),
    {
        Pallet { registry: Registry::new() }
    }

    /// The resource paired with `currency_id`, if there is one.
    pub fn resource_ids(&self, currency_id: AssetId) -> (r: Option<ResourceId>)
        requires
            self.wf(),
        ensures
            r == (if self.registry().forward().dom().contains(currency_id) {
                Some(self.registry().forward()[currency_id])
            } else {
                None
            }),
    {
        self.registry.lookup_resource(currency_id)
    }

    /// The asset paired with `resource_id`, if there is one.
    pub fn currency_ids(&self, resource_id: ResourceId) -> (r: Option<AssetId>)
        requires
            self.wf(),
        ensures
            r == (if self.registry().reverse().dom().contains(resource_id) {
                Some(self.registry().reverse()[resource_id])
            } else {
                None
            }),
    {
        self.registry.lookup_asset(resource_id)
    }

    /// Pairs `resource_id` with `currency_id` on behalf of a caller for whom
    /// the registrar check answered `registrar`. Without the capability the
    /// call is refused as unauthorized; with it, the pair is registered when
    /// both identifiers are free, and refused as already registered when
    /// either is taken. A refusal changes nothing; a success returns the
    /// event to report.
    pub fn register_resource_id(
        &mut self,
        registrar: bool,
        resource_id: ResourceId,
        currency_id: AssetId,
    ) -> (r: Result<Event, Error>)
        requires
            old(self).wf(),
        ensures
            final(self).wf(),
            bijective(final(self).registry()),
            if !registrar {
                &&& r == Err::<Event, Error>(Error::Unauthorized)
                &&& *final(self) == *old(self)
            } else if old(self).registry().forward().dom().contains(currency_id) || old(
                self,
            ).registry().reverse().dom().contains(resource_id) {
                &&& r == Err::<Event, Error>(Error::ResourceIdAlreadyRegistered)
                &&& *final(self) == *old(self)
            } else {
                &&& r == Ok::<Event, Error>(Event::RegisterResourceId(resource_id, currency_id))
                &&& final(self).registry().forward() == old(self).registry().forward().insert(
                    currency_id,
                    resource_id,
                )
                &&& final(self).registry().reverse() == old(self).registry().reverse().insert(
                    resource_id,
                    currency_id,
                )
            },
    {
        if !registrar {
            proof {
                self.registry.lemma_bijection();
            }
            return Err(Error::Unauthorized);
        }
        match self.registry.register(currency_id, resource_id) {
            Ok(_) => Ok(Event::RegisterResourceId(resource_id, currency_id)),
            Err(_) => Err(Error::ResourceIdAlreadyRegistered),
        }
    }

    /// Removes the pair of `resource_id` on behalf of a caller for whom the
    /// registrar check answered `registrar`. Without the capability the call
    /// is refused as unauthorized. With it, a paired resource is removed in
    /// both directions and the event to report is returned; an unpaired one
    /// is no error: nothing changes and there is no event.
    pub fn remove_resource_id(&mut self, registrar: bool, resource_id: ResourceId) -> (r: Result<
        Option<Event>,
        Error,
    >)
        requires
            old(self).wf(),
        ensures
            final(self).wf(),
            bijective(final(self).registry()),
            if !registrar {
                &&& r == Err::<Option<Event>, Error>(Error::Unauthorized)
                &&& *final(self) == *old(self)
            } else if old(self).registry().reverse().dom().contains(resource_id) {
                &&& r == Ok::<Option<Event>, Error>(
                    Some(
                        Event::UnregisterResourceId(
                            resource_id,
                            old(self).registry().reverse()[resource_id],
                        ),
                    ),
                )
                &&& final(self).registry().forward() == old(self).registry().forward().remove(
                    old(self).registry().reverse()[resource_id],
                )
                &&& final(self).registry().reverse() == old(self).registry().reverse().remove(
                    resource_id,
                )
            } else {
                &&& r == Ok::<Option<Event>, Error>(None)
                &&& *final(self) == *old(self)
            },
    {
        if !registrar {
            proof {
                self.registry.lemma_bijection();
            }
            return Err(Error::Unauthorized);
        }
        match self.registry.unregister(resource_id) {
            Ok(Some(currency_id)) => Ok(
                Some(Event::UnregisterResourceId(resource_id, currency_id)),
            ),
            _ => Ok(None),
        }
    }

    /// Opens an outbound transfer on a call from `origin`: `amount` of
    /// `currency_id`, held by the account that signed the call, goes to
    /// `recipient` on `dest_chain_id`; `chain_whitelisted` is the relay's
    /// answer for that chain. A call that no account signed is refused as
    /// unauthorized; a signed one is decided as `destroy` says, with the
    /// signer as the holder. The registry is only read.
    pub fn redeem<A>(
        &self,
        origin: RawOrigin<A>,
        currency_id: AssetId,
        dest_chain_id: ChainId,
        chain_whitelisted: bool,
        recipient: Vec<u8>,
        amount: Balance,
    ) -> (r: Result<Redemption<A>, Error>)
        requires
            self.wf(),
        ensures
            r == match origin {
                RawOrigin::Signed(who) => self.redemption(
                    who,
                    currency_id,
                    dest_chain_id,
                    chain_whitelisted,
                    recipient,
                    amount,
                ),
                _ => Err::<Redemption<A>, Error>(Error::Unauthorized),
            },
    {
        match ensure_signed(origin) {
            Ok(who) => self.destroy(
                who,
                currency_id,
                dest_chain_id,
                chain_whitelisted,
                recipient,
                amount,
            ),
            Err(e) => Err(e),
        }
    }

    /// The decision on an outbound transfer of `amount` of `currency_id`
    /// from the holder `from`: a chain off the whitelist is refused first,
    /// then an asset without a resource; otherwise the transfer stands, with
    /// the asset's resource and everything else as it was given.
    pub open spec fn redemption<A>(
        &self,
        from: A,
        currency_id: AssetId,
        dest_chain_id: ChainId,
        chain_whitelisted: bool,
        recipient: Vec<u8>,
        amount: Balance,
    ) -> Result<Redemption<A>, Error> {
        if !chain_whitelisted {
            Err(Error::InvalidDestChainId)
        } else if !self.registry().forward().dom().contains(currency_id) {
            Err(Error::ResourceIdNotRegistered)
        } else {
            Ok(
                Redemption {
                    from,
                    asset_id: currency_id,
                    amount,
                    dest_chain_id,
                    resource_id: self.registry().forward()[currency_id],
                    recipient,
                },
            )
        }
    }

    /// Checks an outbound transfer of `amount` of `currency_id` from the
    /// holder `from` to `recipient` on `dest_chain_id`, where
    /// `chain_whitelisted` is the relay's answer for that chain. What passes
    /// is returned for the ledger and the relay to carry out: first the
    /// destruction of the holder's usable balance, then the transfer.
    pub fn destroy<A>(
        &self,
        from: A,
        currency_id: AssetId,
        dest_chain_id: ChainId,
        chain_whitelisted: bool,
        recipient: Vec<u8>,
        amount: Balance,
    ) -> (r: Result<Redemption<A>, Error>)
        requires
            self.wf(),
        ensures
            r == self.redemption(
                from,
                currency_id,
                dest_chain_id,
                chain_whitelisted,
                recipient,
                amount,
            ),
    {
        if !chain_whitelisted {
            return Err(Error::InvalidDestChainId);
        }
        match self.registry.lookup_resource(currency_id) {
            None => Err(Error::ResourceIdNotRegistered),
            Some(resource_id) => Ok(
                Redemption {
                    from,
                    asset_id: currency_id,
                    amount,
                    dest_chain_id,
                    resource_id,
                    recipient,
                },
            ),
        }
    }

    /// Opens an inbound transfer of `amount` of the asset of `resource_id`
    /// to `to`, on behalf of a caller for whom the bridge check answered
    /// `bridge`. Any caller but the relay is refused as unauthorized, then a
    /// resource without an asset. Otherwise the credit is returned with the
    /// resource's asset, for the account lookup and the ledger to carry out.
    /// The registry is only read.
    pub fn deposit<S>(&self, bridge: bool, to: S, amount: Balance, resource_id: ResourceId) -> (r:
        Result<Credit<S>, Error>)
        requires
            self.wf(),
        ensures
            r == (if !bridge {
                Err::<Credit<S>, Error>(Error::Unauthorized)
            } else if !self.registry().reverse().dom().contains(resource_id) {
                Err::<Credit<S>, Error>(Error::ResourceIdNotRegistered)
            } else {
                Ok::<Credit<S>, Error>(
                    (Credit { asset_id: self.registry().reverse()[resource_id], to, amount }),
                )
            }),
    {
        if !bridge {
            return Err(Error::Unauthorized);
        }
        match self.registry.lookup_asset(resource_id) {
            None => Err(Error::ResourceIdNotRegistered),
            Some(asset_id) => Ok(Credit { asset_id, to, amount }),
        }
    }
}

} // verus!
