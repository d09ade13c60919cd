use std::collections::HashMap;

use assets_handler::failure::Failure;
use assets_handler::genesis::ExtBuilder;
use assets_handler::origin::{ensure_signed, RawOrigin};
use assets_handler::outbound::FungibleTransfer;
use assets_handler::pallet::{Error, Event, Pallet};
use assets_handler::types::{AssetId, Balance, ChainId, ResourceId};
use assets_handler::wide::U256;

type AccountId = u128;

const ALICE: AccountId = 1;
const BOB: AccountId = 2;
const X_ETH: AssetId = 3;
const REGISTRAR: AccountId = 1;
const RELAY_ADMIN: AccountId = 1;
const BRIDGE_ACCOUNT: AccountId = 0x6d6f_646c_6368_6e62_7264_6765;

/// The resource of X-ETH: chain 0 in the last byte, the name left-padded
/// before it.
fn xeth_resource_id() -> ResourceId {
    let mut id: ResourceId = [0; 32];
    id[27] = b'x';
    id[28] = b'e';
    id[29] = b't';
    id[30] = b'h';
    id[31] = 0;
    id
}

#[derive(Clone, Debug, PartialEq, Eq)]
enum LedgerError {
    InsufficientBalance,
    Overflow,
}

#[derive(Clone, Debug, PartialEq, Eq)]
enum DispatchError {
    Handler(Error),
    Collaborator(Failure<LedgerError>),
}

/// The collaborators around the adapter: a ledger, a relay, an event log.
struct World {
    handler: Pallet,
    balances: HashMap<(AccountId, AssetId), Balance>,
    issuance: HashMap<AssetId, Balance>,
    whitelist: Vec<ChainId>,
    transfers: Vec<FungibleTransfer>,
    events: Vec<Event>,
}

impl World {
    /// Genesis: X-ETH exists and ALICE holds 1000 of it.
    fn new() -> World {
        let mut w = World {
            handler: ExtBuilder::default().build(),
            balances: HashMap::new(),
            issuance: HashMap::new(),
            whitelist: Vec::new(),
            transfers: Vec::new(),
            events: Vec::new(),
        };
        w.issue(X_ETH, ALICE, 1000).unwrap();
        w
    }

    fn usable_balance(&self, who: AccountId, asset: AssetId) -> Balance {
        self.balances.get(&(who, asset)).copied().unwrap_or(0)
    }

    fn total_issuance(&self, asset: AssetId) -> Balance {
        self.issuance.get(&asset).copied().unwrap_or(0)
    }

    fn issue(&mut self, asset: AssetId, who: AccountId, amount: Balance) -> Result<(), LedgerError> {
        let total = self.total_issuance(asset).checked_add(amount).ok_or(LedgerError::Overflow)?;
        let balance = self.usable_balance(who, asset) + amount;
        self.issuance.insert(asset, total);
        self.balances.insert((who, asset), balance);
        Ok(())
    }

    fn destroy_usable(&mut self, asset: AssetId, who: AccountId, amount: Balance) -> Result<(), LedgerError> {
        let balance = self
            .usable_balance(who, asset)
            .checked_sub(amount)
            .ok_or(LedgerError::InsufficientBalance)?;
        let total = self.total_issuance(asset) - amount;
        self.balances.insert((who, asset), balance);
        self.issuance.insert(asset, total);
        Ok(())
    }

    fn whitelist_chain(&mut self, origin: RawOrigin<AccountId>, chain: ChainId) -> Result<(), DispatchError> {
        if origin != RawOrigin::Signed(RELAY_ADMIN) {
            return Err(DispatchError::Handler(Error::Unauthorized));
        }
        self.whitelist.push(chain);
        Ok(())
    }

    fn register_resource_id(
        &mut self,
        origin: RawOrigin<AccountId>,
        resource_id: ResourceId,
        asset: AssetId,
    ) -> Result<(), DispatchError> {
        let event = self
            .handler
            .register_resource_id(origin == RawOrigin::Signed(REGISTRAR), resource_id, asset)
            .map_err(DispatchError::Handler)?;
        self.events.push(event);
        Ok(())
    }

    fn remove_resource_id(&mut self, origin: RawOrigin<AccountId>, resource_id: ResourceId) -> Result<(), DispatchError> {
        let event = self
            .handler
            .remove_resource_id(origin == RawOrigin::Signed(REGISTRAR), resource_id)
            .map_err(DispatchError::Handler)?;
        if let Some(event) = event {
            self.events.push(event);
        }
        Ok(())
    }

    fn redeem(
        &mut self,
        origin: RawOrigin<AccountId>,
        asset: AssetId,
        dest: ChainId,
        recipient: Vec<u8>,
        amount: Balance,
    ) -> Result<(), DispatchError> {
        let listed = self.whitelist.contains(&dest);
        let redemption = self
            .handler
            .redeem(origin, asset, dest, listed, recipient, amount)
            .map_err(DispatchError::Handler)?;
        let destroyed = self.destroy_usable(redemption.asset_id, redemption.from, redemption.amount);
        let transfer = redemption.destroyed(destroyed).map_err(DispatchError::Collaborator)?;
        self.transfers.push(transfer.clone());
        transfer.transferred(Ok(())).map_err(DispatchError::Collaborator)
    }

    fn deposit(
        &mut self,
        origin: RawOrigin<AccountId>,
        to: AccountId,
        amount: Balance,
        resource_id: ResourceId,
    ) -> Result<(), DispatchError> {
        let credit = self
            .handler
            .deposit(origin == RawOrigin::Signed(BRIDGE_ACCOUNT), to, amount, resource_id)
            .map_err(DispatchError::Handler)?;
        let found: Result<AccountId, LedgerError> = Ok(credit.to);
        let issue = credit.resolved(found).map_err(DispatchError::Collaborator)?;
        let issued = self.issue(issue.asset_id, issue.to, issue.amount);
        issue.issued(issued).map_err(DispatchError::Collaborator)
    }
}

#[test]
fn register_resource_id_work() {
    let mut w = World::new();

    assert_eq!(
        w.register_resource_id(RawOrigin::Signed(BOB), xeth_resource_id(), X_ETH),
        Err(DispatchError::Handler(Error::Unauthorized))
    );
    assert_eq!(w.handler.resource_ids(X_ETH), None);
    assert_eq!(w.handler.currency_ids(xeth_resource_id()), None);
    assert!(w.events.is_empty());

    assert_eq!(w.register_resource_id(RawOrigin::Signed(REGISTRAR), xeth_resource_id(), X_ETH), Ok(()));

    let register_event = Event::RegisterResourceId(xeth_resource_id(), X_ETH);
    assert!(w.events.iter().any(|event| *event == register_event));

    assert_eq!(w.handler.resource_ids(X_ETH), Some(xeth_resource_id()));
    assert_eq!(w.handler.currency_ids(xeth_resource_id()), Some(X_ETH));

    assert_eq!(
        w.register_resource_id(RawOrigin::Signed(REGISTRAR), xeth_resource_id(), X_ETH),
        Err(DispatchError::Handler(Error::ResourceIdAlreadyRegistered))
    );
    assert_eq!(w.events.len(), 1);
    assert_eq!(w.handler.resource_ids(X_ETH), Some(xeth_resource_id()));
    assert_eq!(w.handler.currency_ids(xeth_resource_id()), Some(X_ETH));
}

#[test]
fn remove_resource_id_work() {
    let mut w = World::new();

    assert_eq!(w.register_resource_id(RawOrigin::Signed(REGISTRAR), xeth_resource_id(), X_ETH), Ok(()));
    assert_eq!(w.handler.resource_ids(X_ETH), Some(xeth_resource_id()));
    assert_eq!(w.handler.currency_ids(xeth_resource_id()), Some(X_ETH));

    assert_eq!(
        w.remove_resource_id(RawOrigin::Signed(BOB), xeth_resource_id()),
        Err(DispatchError::Handler(Error::Unauthorized))
    );
    assert_eq!(w.handler.resource_ids(X_ETH), Some(xeth_resource_id()));
    assert_eq!(w.handler.currency_ids(xeth_resource_id()), Some(X_ETH));

    assert_eq!(w.remove_resource_id(RawOrigin::Signed(REGISTRAR), xeth_resource_id()), Ok(()));
    let unregister_event = Event::UnregisterResourceId(xeth_resource_id(), X_ETH);
    assert!(w.events.iter().any(|event| *event == unregister_event));
    assert_eq!(w.handler.resource_ids(X_ETH), None);
    assert_eq!(w.handler.currency_ids(xeth_resource_id()), None);
}

#[test]
fn redeem() {
    let mut w = World::new();
    let dest_chain_id: ChainId = 0;

    assert_eq!(
        w.redeem(RawOrigin::Signed(ALICE), X_ETH, dest_chain_id, vec![1], 10),
        Err(DispatchError::Handler(Error::InvalidDestChainId))
    );
    assert_eq!(w.total_issuance(X_ETH), 1000);
    assert_eq!(w.usable_balance(ALICE, X_ETH), 1000);

    assert_eq!(w.whitelist_chain(RawOrigin::Signed(RELAY_ADMIN), dest_chain_id), Ok(()));
    assert_eq!(
        w.redeem(RawOrigin::Signed(ALICE), X_ETH, dest_chain_id, vec![1], 10),
        Err(DispatchError::Handler(Error::ResourceIdNotRegistered))
    );
    assert_eq!(w.total_issuance(X_ETH), 1000);
    assert_eq!(w.usable_balance(ALICE, X_ETH), 1000);
    assert!(w.transfers.is_empty());

    assert_eq!(w.register_resource_id(RawOrigin::Signed(REGISTRAR), xeth_resource_id(), X_ETH), Ok(()));
    assert_eq!(w.total_issuance(X_ETH), 1000);
    assert_eq!(w.usable_balance(ALICE, X_ETH), 1000);
    assert_eq!(w.redeem(RawOrigin::Signed(ALICE), X_ETH, dest_chain_id, vec![1], 10), Ok(()));
    assert_eq!(w.total_issuance(X_ETH), 990);
    assert_eq!(w.usable_balance(ALICE, X_ETH), 990);
    assert_eq!(
        w.transfers,
        vec![FungibleTransfer {
            dest_chain_id,
            resource_id: xeth_resource_id(),
            recipient: vec![1],
            amount: U256([10, 0, 0, 0]),
        }]
    );
}

#[test]
fn deposit() {
    let mut w = World::new();

    assert_eq!(
        w.deposit(RawOrigin::Signed(BOB), BOB, 500, xeth_resource_id()),
        Err(DispatchError::Handler(Error::Unauthorized))
    );
    assert_eq!(w.total_issuance(X_ETH), 1000);

    assert_eq!(
        w.deposit(RawOrigin::Signed(BRIDGE_ACCOUNT), ALICE, 500, xeth_resource_id()),
        Err(DispatchError::Handler(Error::ResourceIdNotRegistered))
    );
    assert_eq!(w.total_issuance(X_ETH), 1000);
    assert_eq!(w.usable_balance(ALICE, X_ETH), 1000);

    assert_eq!(w.register_resource_id(RawOrigin::Signed(REGISTRAR), xeth_resource_id(), X_ETH), Ok(()));
    assert_eq!(w.issue(X_ETH, BRIDGE_ACCOUNT, 1000), Ok(()));
    assert_eq!(w.total_issuance(X_ETH), 2000);
    assert_eq!(w.usable_balance(ALICE, X_ETH), 1000);
    assert_eq!(w.usable_balance(BRIDGE_ACCOUNT, X_ETH), 1000);

    assert_eq!(w.deposit(RawOrigin::Signed(BRIDGE_ACCOUNT), ALICE, 500, xeth_resource_id()), Ok(()));
    assert_eq!(w.total_issuance(X_ETH), 2500);
    assert_eq!(w.usable_balance(ALICE, X_ETH), 1500);
}

#[test]
fn redeem_beyond_the_balance_starts_no_transfer() {
    let mut w = World::new();
    assert_eq!(w.whitelist_chain(RawOrigin::Signed(RELAY_ADMIN), 0), Ok(()));
    assert_eq!(w.register_resource_id(RawOrigin::Signed(REGISTRAR), xeth_resource_id(), X_ETH), Ok(()));
    assert_eq!(
        w.redeem(RawOrigin::Signed(ALICE), X_ETH, 0, vec![1], 1001),
        Err(DispatchError::Collaborator(Failure::Ledger(LedgerError::InsufficientBalance)))
    );
    assert!(w.transfers.is_empty());
    assert_eq!(w.total_issuance(X_ETH), 1000);
    assert_eq!(w.usable_balance(ALICE, X_ETH), 1000);
}

#[test]
fn deposit_passes_on_a_ledger_failure() {
    let mut w = World::new();
    assert_eq!(w.register_resource_id(RawOrigin::Signed(REGISTRAR), xeth_resource_id(), X_ETH), Ok(()));
    assert_eq!(
        w.deposit(RawOrigin::Signed(BRIDGE_ACCOUNT), ALICE, Balance::MAX, xeth_resource_id()),
        Err(DispatchError::Collaborator(Failure::Ledger(LedgerError::Overflow)))
    );
    assert_eq!(w.total_issuance(X_ETH), 1000);
}

#[test]
fn redeem_checks_the_chain_before_the_asset() {
    let handler = Pallet::new();
    assert_eq!(
        handler.redeem(RawOrigin::Signed(ALICE), X_ETH, 7, false, vec![1, 2], 10),
        Err(Error::InvalidDestChainId)
    );
    assert_eq!(
        handler.redeem(RawOrigin::Signed(ALICE), X_ETH, 7, true, vec![1, 2], 10),
        Err(Error::ResourceIdNotRegistered)
    );
}

#[test]
fn redeem_returns_the_whole_order() {
    let mut handler = Pallet::new();
    assert_eq!(
        handler.register_resource_id(true, xeth_resource_id(), X_ETH),
        Ok(Event::RegisterResourceId(xeth_resource_id(), X_ETH))
    );
    let redemption = handler.redeem(RawOrigin::Signed(ALICE), X_ETH, 4, true, vec![9, 8, 7], 250).unwrap();
    assert_eq!(redemption.from, ALICE);
    assert_eq!(redemption.asset_id, X_ETH);
    assert_eq!(redemption.amount, 250);
    assert_eq!(redemption.dest_chain_id, 4);
    assert_eq!(redemption.resource_id, xeth_resource_id());
    assert_eq!(redemption.recipient, vec![9, 8, 7]);
}

#[test]
fn destroyed_hands_the_transfer_to_the_relay() {
    let mut handler = Pallet::new();
    handler.register_resource_id(true, xeth_resource_id(), X_ETH).unwrap();
    let redemption = handler.destroy(ALICE, X_ETH, 4, true, vec![9], 1 << 70).unwrap();
    let transfer = redemption.destroyed::<LedgerError>(Ok(())).unwrap();
    assert_eq!(transfer.dest_chain_id, 4);
    assert_eq!(transfer.resource_id, xeth_resource_id());
    assert_eq!(transfer.recipient, vec![9]);
    assert_eq!(transfer.amount, U256([0, 64, 0, 0]));
}

#[test]
fn a_relay_failure_is_passed_on() {
    let transfer = FungibleTransfer {
        dest_chain_id: 1,
        resource_id: xeth_resource_id(),
        recipient: vec![1],
        amount: U256([5, 0, 0, 0]),
    };
    assert_eq!(transfer.clone().transferred(Err(17u8)), Err(Failure::Relay(17u8)));
    assert_eq!(transfer.transferred::<u8>(Ok(())), Ok(()));
}

#[test]
fn a_lookup_failure_is_passed_on() {
    let mut handler = Pallet::new();
    handler.register_resource_id(true, xeth_resource_id(), X_ETH).unwrap();
    let credit = handler.deposit(true, "alice", 500, xeth_resource_id()).unwrap();
    assert_eq!(credit.asset_id, X_ETH);
    assert_eq!(credit.to, "alice");
    assert_eq!(credit.amount, 500);
    assert_eq!(credit.clone().resolved::<AccountId, u8>(Err(3)), Err(Failure::Lookup(3)));
    let issue = credit.resolved::<AccountId, u8>(Ok(ALICE)).unwrap();
    assert_eq!(issue.asset_id, X_ETH);
    assert_eq!(issue.to, ALICE);
    assert_eq!(issue.amount, 500);
    assert_eq!(issue.clone().issued(Err(4u8)), Err(Failure::Ledger(4u8)));
    assert_eq!(issue.issued::<u8>(Ok(())), Ok(()));
}

#[test]
fn deposit_checks_the_caller_before_the_resource() {
    let handler = Pallet::new();
    assert_eq!(handler.deposit(false, ALICE, 1, xeth_resource_id()), Err(Error::Unauthorized));
    assert_eq!(
        handler.deposit(true, ALICE, 1, xeth_resource_id()),
        Err(Error::ResourceIdNotRegistered)
    );
}

#[test]
fn removing_an_unmapped_resource_reports_nothing() {
    let mut handler = Pallet::new();
    assert_eq!(handler.remove_resource_id(true, xeth_resource_id()), Ok(None));
    handler.register_resource_id(true, xeth_resource_id(), X_ETH).unwrap();
    assert_eq!(
        handler.remove_resource_id(true, xeth_resource_id()),
        Ok(Some(Event::UnregisterResourceId(xeth_resource_id(), X_ETH)))
    );
    assert_eq!(handler.remove_resource_id(true, xeth_resource_id()), Ok(None));
    assert_eq!(handler.remove_resource_id(false, xeth_resource_id()), Err(Error::Unauthorized));
}

#[test]
fn genesis_has_no_pair() {
    let handler = ExtBuilder::default().build();
    assert_eq!(handler.resource_ids(X_ETH), None);
    assert_eq!(handler.currency_ids(xeth_resource_id()), None);
}

#[test]
fn redeem_needs_a_signed_call() {
    let mut handler = Pallet::new();
    handler.register_resource_id(true, xeth_resource_id(), X_ETH).unwrap();
    assert_eq!(
        handler.redeem(RawOrigin::<AccountId>::Root, X_ETH, 0, true, vec![1], 10),
        Err(Error::Unauthorized)
    );
    assert_eq!(
        handler.redeem(RawOrigin::<AccountId>::Unsigned, X_ETH, 0, true, vec![1], 10),
        Err(Error::Unauthorized)
    );
    assert_eq!(
        handler.redeem(RawOrigin::<AccountId>::Unsigned, X_ETH, 0, false, vec![1], 10),
        Err(Error::Unauthorized)
    );
    assert_eq!(
        handler.redeem(RawOrigin::Signed(BOB), X_ETH, 0, true, vec![1], 10),
        handler.destroy(BOB, X_ETH, 0, true, vec![1], 10)
    );
}

#[test]
fn only_a_signed_origin_names_an_account() {
    assert_eq!(ensure_signed(RawOrigin::Signed(ALICE)), Ok(ALICE));
    assert_eq!(ensure_signed(RawOrigin::<AccountId>::Root), Err(Error::Unauthorized));
    assert_eq!(ensure_signed(RawOrigin::<AccountId>::Unsigned), Err(Error::Unauthorized));
}
