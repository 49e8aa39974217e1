use foresta::dex::types::{OrderInfo, UserLevel};
use foresta::dex::{Action, Config, Effects, Error, Event, Pallet};
use foresta::percent::Percent;
use foresta::support::{ArithmeticError, DispatchError, Origin};
use foresta::utilities::with_transaction_result;
use std::collections::HashMap;

const USDT: u32 = 1;
const ASSET: u32 = 0;
const PROJECT: u32 = 0;
const GROUP: u32 = 0;

/// The account of the DEX: its pallet id `bitg/dex` after the `modl` prefix.
fn dex_account() -> u64 {
    u64::from_le_bytes(*b"modlbitg")
}

fn config() -> Config {
    Config {
        pallet_account: dex_account(),
        min_units_to_create_sell_order: 2,
        min_price_per_unit: 1,
        max_payment_fee: Percent::from_percent(50),
        max_royalty: Percent::from_percent(10),
        max_purchase_fee: 100,
    }
}

/// Asset and currency balances of the other pallets, enough to carry out
/// the DEX's actions as the test runtime does.
#[derive(Clone, Default)]
struct Ledger {
    assets: HashMap<(u32, u64), u128>,
    tokens: HashMap<(u32, u64), u128>,
    retired: u128,
}

impl Ledger {
    fn asset_balance(&self, asset: u32, who: u64) -> u128 {
        *self.assets.get(&(asset, who)).unwrap_or(&0)
    }

    fn free_balance(&self, currency: u32, who: u64) -> u128 {
        *self.tokens.get(&(currency, who)).unwrap_or(&0)
    }

    fn move_funds(
        map: &mut HashMap<(u32, u64), u128>,
        id: u32,
        from: u64,
        to: u64,
        amount: u128,
    ) -> Result<(), DispatchError> {
        let have = *map.get(&(id, from)).unwrap_or(&0);
        if have < amount {
            return Err(DispatchError::Arithmetic(ArithmeticError::Underflow));
        }
        map.insert((id, from), have - amount);
        let to_have = *map.get(&(id, to)).unwrap_or(&0);
        map.insert((id, to), to_have + amount);
        Ok(())
    }

    fn apply(&mut self, actions: &[Action]) -> Result<(), DispatchError> {
        for action in actions {
            match action {
                Action::TransferAsset { asset_id, from, to, amount } => {
                    Self::move_funds(&mut self.assets, *asset_id, *from, *to, *amount)?
                }
                Action::TransferCurrency { currency_id, from, to, amount } => {
                    Self::move_funds(&mut self.tokens, *currency_id, *from, *to, *amount)?
                }
                Action::RetireCredits { from, units, .. } => {
                    let have = self.asset_balance(ASSET, *from);
                    if have < *units {
                        return Err(DispatchError::Arithmetic(ArithmeticError::Underflow));
                    }
                    self.assets.insert((ASSET, *from), have - *units);
                    self.retired += *units;
                }
            }
        }
        Ok(())
    }
}

/// A test runtime: the DEX, the other pallets' balances, the last event.
struct Runtime {
    dex: Pallet,
    ledger: Ledger,
    events: Vec<Event>,
}

impl Runtime {
    /// Genesis: accounts 4 and 10 hold 10000 USDT; the seller (account 1)
    /// minted 100 credits of asset 0.
    fn new() -> Runtime {
        let mut ledger = Ledger::default();
        ledger.tokens.insert((USDT, 4), 10000);
        ledger.tokens.insert((USDT, 10), 10000);
        ledger.assets.insert((ASSET, 1), 100);
        Runtime { dex: Pallet::new(config()), ledger, events: Vec::new() }
    }

    /// Dispatch a call transactionally: its actions are carried out and, if
    /// any fails, the DEX storage is restored and the error returned.
    fn dispatch(
        &mut self,
        call: impl FnOnce(&mut Pallet) -> Result<Effects, DispatchError>,
    ) -> Result<(), DispatchError> {
        let before = self.dex.clone();
        let mut ledger = self.ledger.clone();
        let res = call(&mut self.dex).and_then(|effects| {
            ledger.apply(&effects.actions)?;
            Ok(effects.event)
        });
        let after = std::mem::replace(&mut self.dex, before.clone());
        let (dex, res) = with_transaction_result(before, after, res);
        self.dex = dex;
        match res {
            Ok(event) => {
                self.ledger = ledger;
                if let Some(e) = event {
                    self.events.push(e);
                }
                Ok(())
            }
            Err(e) => Err(e),
        }
    }

    fn create_sell_order(&mut self, who: u64, units: u128, price: u128) -> Result<(), DispatchError> {
        self.dispatch(|dex| {
            dex.create_sell_order(
                Origin::Signed(who),
                ASSET,
                units,
                USDT,
                price,
                who != 20,
                Some((PROJECT, GROUP)),
            )
        })
    }

    fn trade_order(
        &mut self,
        who: u64,
        order_id: u128,
        units: u128,
        max_fee: u128,
        retire: bool,
    ) -> Result<(), DispatchError> {
        self.dispatch(|dex| {
            dex.trade_order(
                Origin::Signed(who),
                order_id,
                ASSET,
                units,
                max_fee,
                retire,
                None,
                who != 20,
                Some((PROJECT, GROUP)),
            )
        })
    }

    fn set_fees(&mut self) {
        assert_eq!(
            self.dispatch(|dex| dex.force_set_payment_fee(Origin::Root, Percent::from_percent(10))),
            Ok(())
        );
        assert_eq!(self.dispatch(|dex| dex.force_set_purchase_fee(Origin::Root, 10)), Ok(()));
        assert_eq!(
            self.dispatch(|dex| dex.force_set_royalty(Origin::Root, Percent::from_percent(10))),
            Ok(())
        );
        assert_eq!(
            self.dispatch(|dex| {
                dex.force_set_open_order_allowed_limits(Origin::Root, UserLevel::KYCLevel1, 1000)
            }),
            Ok(())
        );
    }

    fn order_count(&self) -> u128 {
        self.dex.order_count()
    }
}

fn dex_error(e: Error) -> Result<(), DispatchError> {
    Err(DispatchError::Dex(e))
}

#[test]
fn basic_create_sell_order_should_work() {
    let mut rt = Runtime::new();
    let seller = 1;
    assert_eq!(rt.ledger.asset_balance(ASSET, seller), 100);
    // should be able to create a sell order
    assert_eq!(rt.create_sell_order(seller, 5, 1), Ok(()));

    // storage should be updated correctly
    let sell_order_storage = rt.dex.order_info(0).unwrap();
    assert_eq!(sell_order_storage.owner, seller);
    assert_eq!(sell_order_storage.units, 5);
    assert_eq!(sell_order_storage.price_per_unit, 1);
    assert_eq!(sell_order_storage.asset_id, ASSET);

    // Balance should be setup correctly
    assert_eq!(rt.ledger.asset_balance(ASSET, seller), 95);
    assert_eq!(rt.ledger.asset_balance(ASSET, dex_account()), 5);

    assert_eq!(
        rt.events.last().copied(),
        Some(Event::SellOrderCreated {
            order_id: 0,
            asset_id: ASSET,
            project_id: 0,
            group_id: 0,
            units: 5,
            currency_id: USDT,
            price_per_unit: 1,
            owner: seller,
        })
    );
}

#[test]
fn create_sell_order_less_than_minimum_should_fail() {
    let mut rt = Runtime::new();
    let seller = 1;
    assert_eq!(rt.ledger.asset_balance(ASSET, seller), 100);

    // sell order with less than minimum units
    assert_eq!(rt.create_sell_order(seller, 0, 1), dex_error(Error::BelowMinimumUnits));
    // sell order with less than minimum price
    assert_eq!(rt.create_sell_order(seller, 5, 0), dex_error(Error::BelowMinimumPrice));
    assert_eq!(rt.order_count(), 0);
}

#[test]
fn create_sell_order_should_fail_if_caller_does_not_have_asset_balance() {
    let mut rt = Runtime::new();
    let seller = 1;
    assert_eq!(rt.ledger.asset_balance(ASSET, seller), 100);
    // should not be able to create a sell order since the amount is greater than seller balance
    assert_eq!(
        rt.create_sell_order(seller, 101, 1),
        Err(DispatchError::Arithmetic(ArithmeticError::Underflow))
    );
    // nothing changed
    assert_eq!(rt.order_count(), 0);
    assert!(rt.dex.order_info(0).is_none());
    assert_eq!(rt.ledger.asset_balance(ASSET, seller), 100);
}

#[test]
fn cancel_sell_order_should_work() {
    let mut rt = Runtime::new();
    let seller = 1;
    assert_eq!(rt.ledger.asset_balance(ASSET, seller), 100);

    // should be able to create a sell order
    assert_eq!(rt.create_sell_order(seller, 5, 1), Ok(()));

    // storage should be updated correctly
    let sell_order_storage = rt.dex.order_info(0).unwrap();
    assert_eq!(sell_order_storage.owner, seller);
    assert_eq!(sell_order_storage.units, 5);
    assert_eq!(sell_order_storage.price_per_unit, 1);
    assert_eq!(sell_order_storage.asset_id, ASSET);

    // Balance should be setup correctly
    assert_eq!(rt.ledger.asset_balance(ASSET, seller), 95);
    assert_eq!(rt.ledger.asset_balance(ASSET, dex_account()), 5);

    // non existing order should fail
    assert_eq!(
        rt.dispatch(|dex| dex.cancel_sell_order(Origin::Signed(4), 10)),
        dex_error(Error::InvalidOrderId)
    );

    // only owner can cancel sell order
    assert_eq!(
        rt.dispatch(|dex| dex.cancel_sell_order(Origin::Signed(4), 0)),
        dex_error(Error::InvalidOrderOwner)
    );
    assert!(rt.dex.order_info(0).is_some());

    // owner should be able to cancel a sell order
    assert_eq!(rt.dispatch(|dex| dex.cancel_sell_order(Origin::Signed(seller), 0)), Ok(()));

    // storage should be updated correctly
    assert!(rt.dex.order_info(0).is_none());

    // Balance should be returned correctly
    assert_eq!(rt.ledger.asset_balance(ASSET, seller), 100);
    assert_eq!(rt.ledger.asset_balance(ASSET, dex_account()), 0);

    assert_eq!(rt.events.last().copied(), Some(Event::SellOrderCancelled { order_id: 0, seller }));
}

#[test]
fn cannot_set_more_than_max_fee() {
    let mut rt = Runtime::new();
    assert_eq!(
        rt.dispatch(|dex| dex.force_set_payment_fee(Origin::Root, Percent::from_percent(51))),
        dex_error(Error::CannotSetMoreThanMaxPaymentFee)
    );
    assert_eq!(
        rt.dispatch(|dex| dex.force_set_payment_fee(Origin::Root, Percent::from_percent(10))),
        Ok(())
    );
    assert_eq!(rt.dex.payment_fees().deconstruct(), 10);
}

#[test]
fn cannot_set_more_than_max_royalty() {
    let mut rt = Runtime::new();
    assert_eq!(
        rt.dispatch(|dex| dex.force_set_royalty(Origin::Root, Percent::from_percent(15))),
        dex_error(Error::CannotSetMoreThanMaxRoyalty)
    );
    assert_eq!(
        rt.dispatch(|dex| dex.force_set_royalty(Origin::Root, Percent::from_percent(10))),
        Ok(())
    );
    assert_eq!(rt.dex.royalty_percentage().deconstruct(), 10);
}

#[test]
fn buy_sell_order_test() {
    let mut rt = Runtime::new();
    let seller = 1;
    let buyer = 4;
    assert_eq!(rt.ledger.asset_balance(ASSET, seller), 100);

    rt.set_fees();
    assert_eq!(rt.ledger.free_balance(USDT, dex_account()), 0);

    // should be able to create a sell order
    assert_eq!(rt.create_sell_order(seller, 5, 1000), Ok(()));

    // create a new buy order
    assert_eq!(rt.trade_order(buyer, 0, 1, 110, false), Ok(()));

    // seller receivable should be updated with the correct amount
    assert_eq!(rt.dex.seller_receivables(seller, USDT), 900);
    assert_eq!(rt.dex.get_pot(PROJECT, USDT), 100);

    // Asset balance should be set correctly
    assert_eq!(rt.ledger.asset_balance(ASSET, seller), 95);
    assert_eq!(rt.ledger.asset_balance(ASSET, dex_account()), 4);
    assert_eq!(rt.ledger.asset_balance(ASSET, buyer), 1);
    assert_eq!(rt.ledger.free_balance(USDT, dex_account()), 1110);
}

#[test]
fn retire_sell_order_test() {
    let mut rt = Runtime::new();
    let seller = 1;
    let buyer = 4;
    assert_eq!(rt.ledger.asset_balance(ASSET, seller), 100);

    rt.set_fees();
    assert_eq!(rt.ledger.free_balance(USDT, dex_account()), 0);

    // should be able to create a sell order
    assert_eq!(rt.create_sell_order(seller, 5, 1000), Ok(()));

    // create a new buy order, retiring the credits
    assert_eq!(rt.trade_order(buyer, 0, 1, 110, true), Ok(()));

    assert_eq!(rt.dex.seller_receivables(seller, USDT), 900);
    assert_eq!(rt.dex.get_pot(PROJECT, USDT), 100);

    // Asset balance should be set correctly
    assert_eq!(rt.ledger.asset_balance(ASSET, seller), 95);
    assert_eq!(rt.ledger.asset_balance(ASSET, dex_account()), 4);
    assert_eq!(rt.ledger.asset_balance(ASSET, buyer), 0);
    assert_eq!(rt.ledger.retired, 1);

    assert_eq!(rt.ledger.free_balance(USDT, dex_account()), 1110);

    // Seller claims half receivables
    assert_eq!(rt.ledger.free_balance(USDT, seller), 0);
    assert_eq!(rt.dispatch(|dex| dex.claim_tokens(Origin::Signed(seller), USDT, 450)), Ok(()));
    assert_eq!(rt.dex.seller_receivables(seller, USDT), 450);
    assert_eq!(rt.ledger.free_balance(USDT, seller), 450);
}

#[test]
fn trade_effects_conserve_value() {
    let mut dex = Pallet::new(config());
    assert!(dex.force_set_payment_fee(Origin::Root, Percent::from_percent(7)).is_ok());
    assert!(dex.force_set_purchase_fee(Origin::Root, 3).is_ok());
    assert!(dex.force_set_royalty(Origin::Root, Percent::from_percent(9)).is_ok());
    assert!(dex
        .create_sell_order(Origin::Signed(1), ASSET, 10, USDT, 333, true, Some((7, 2)))
        .is_ok());
    let effects = dex
        .trade_order(Origin::Signed(4), 0, ASSET, 3, 1000, false, None, true, Some((7, 2)))
        .unwrap();
    // price 999; payment fee ceil(69.93) = 70; total fee 73; royalty ceil(89.91) = 90
    assert_eq!(
        effects.actions,
        vec![
            Action::TransferAsset { asset_id: ASSET, from: dex_account(), to: 4, amount: 3 },
            Action::TransferCurrency { currency_id: USDT, from: 4, to: dex_account(), amount: 1072 },
        ]
    );
    assert_eq!(dex.seller_receivables(1, USDT), 909);
    assert_eq!(dex.get_pot(7, USDT), 90);
    assert_eq!(dex.seller_receivables(1, USDT) + dex.get_pot(7, USDT), 999);
    assert_eq!(dex.order_info(0).unwrap().units, 7);

    // buying the rest removes the order
    assert!(dex
        .trade_order(Origin::Signed(4), 0, ASSET, 7, 1000, true, Some(vec![1, 2]), true, Some((7, 2)))
        .is_ok());
    assert!(dex.order_info(0).is_none());
}

#[test]
fn trade_order_errors() {
    let mut dex = Pallet::new(config());
    assert!(dex.force_set_payment_fee(Origin::Root, Percent::from_percent(10)).is_ok());
    assert!(dex.force_set_purchase_fee(Origin::Root, 10).is_ok());
    assert!(dex.create_sell_order(Origin::Signed(1), ASSET, 5, USDT, 1000, true, Some((0, 0))).is_ok());
    let trade = |dex: &mut Pallet, origin, order_id, asset, units, max_fee, kyc, lookup| {
        dex.trade_order(origin, order_id, asset, units, max_fee, false, None, kyc, lookup).map(|_| ())
    };
    assert_eq!(trade(&mut dex, Origin::Root, 0, ASSET, 1, 110, true, Some((0, 0))), Err(DispatchError::BadOrigin));
    assert_eq!(
        trade(&mut dex, Origin::Signed(20), 0, ASSET, 1, 110, false, Some((0, 0))),
        dex_error(Error::KYCAuthorisationFailed)
    );
    // zero units: nothing happens
    assert_eq!(trade(&mut dex, Origin::Signed(4), 9, ASSET, 0, 0, true, None), Ok(()));
    assert_eq!(trade(&mut dex, Origin::Signed(4), 9, ASSET, 1, 110, true, Some((0, 0))), dex_error(Error::InvalidOrderId));
    assert_eq!(trade(&mut dex, Origin::Signed(4), 0, 5, 1, 110, true, Some((0, 0))), dex_error(Error::InvalidAssetId));
    assert_eq!(
        trade(&mut dex, Origin::Signed(1), 0, ASSET, 1, 110, true, Some((0, 0))),
        dex_error(Error::SellerAndBuyerCannotBeSame)
    );
    assert_eq!(trade(&mut dex, Origin::Signed(4), 0, ASSET, 6, 110, true, Some((0, 0))), dex_error(Error::OrderUnitsOverflow));
    assert_eq!(trade(&mut dex, Origin::Signed(4), 0, ASSET, 1, 110, true, None), dex_error(Error::AssetNotPermitted));
    assert_eq!(trade(&mut dex, Origin::Signed(4), 0, ASSET, 1, 109, true, Some((0, 0))), dex_error(Error::FeeExceedsUserLimit));
    assert_eq!(dex.order_info(0).unwrap().units, 5);
    assert_eq!(dex.seller_receivables(1, USDT), 0);

    // a price times units beyond the balance type is an arithmetic error
    assert!(dex
        .create_sell_order(Origin::Signed(1), ASSET, u128::MAX, USDT, 2, true, Some((0, 0)))
        .is_ok());
    assert_eq!(
        trade(&mut dex, Origin::Signed(4), 1, ASSET, u128::MAX, u128::MAX, true, Some((0, 0))),
        dex_error(Error::ArithmeticError)
    );
}

#[test]
fn claim_and_spend_errors() {
    let mut dex = Pallet::new(config());
    assert_eq!(
        dex.claim_tokens(Origin::Signed(1), USDT, 1).map(|_| ()),
        dex_error(Error::NotEnoughFunds)
    );
    assert_eq!(dex.claim_tokens(Origin::Unsigned, USDT, 0).map(|_| ()), Err(DispatchError::BadOrigin));
    assert_eq!(
        dex.do_spend_funds(PROJECT, 2, USDT, 1).map(|_| ()),
        dex_error(Error::NotEnoughFunds)
    );
    // claiming zero of nothing succeeds
    assert!(dex.claim_tokens(Origin::Signed(1), USDT, 0).is_ok());
}

#[test]
fn force_calls_need_root() {
    let mut dex = Pallet::new(config());
    assert_eq!(
        dex.force_set_payment_fee(Origin::Signed(1), Percent::from_percent(1)).map(|_| ()),
        Err(DispatchError::BadOrigin)
    );
    assert_eq!(dex.force_set_purchase_fee(Origin::Signed(1), 1).map(|_| ()), Err(DispatchError::BadOrigin));
    assert_eq!(
        dex.force_set_purchase_fee(Origin::Root, 101).map(|_| ()),
        dex_error(Error::CannotSetMoreThanMaxPurchaseFee)
    );
    assert_eq!(
        dex.force_set_royalty(Origin::Unsigned, Percent::from_percent(1)).map(|_| ()),
        Err(DispatchError::BadOrigin)
    );
    assert_eq!(
        dex.force_set_open_order_allowed_limits(Origin::Signed(1), UserLevel::KYCLevel2, 5).map(|_| ()),
        Err(DispatchError::BadOrigin)
    );
    let effects = dex.force_set_open_order_allowed_limits(Origin::Root, UserLevel::KYCLevel2, 5).unwrap();
    assert_eq!(effects.event, Some(Event::UserOpenOrderUnitsLimitUpdated { level: UserLevel::KYCLevel2, limit: 5 }));
    assert_eq!(dex.user_open_order_units_allowed(UserLevel::KYCLevel2), Some(5));
    assert_eq!(dex.user_open_order_units_allowed(UserLevel::KYCLevel1), None);
    assert_eq!(dex.purchase_fees(), 0);
}

#[test]
fn create_errors_and_kyc() {
    let mut dex = Pallet::new(config());
    assert_eq!(
        dex.create_sell_order(Origin::Signed(20), ASSET, 5, USDT, 1, false, Some((0, 0))).map(|_| ()),
        dex_error(Error::KYCAuthorisationFailed)
    );
    assert_eq!(
        dex.create_sell_order(Origin::Signed(1), ASSET, 5, USDT, 1, true, None).map(|_| ()),
        dex_error(Error::AssetNotPermitted)
    );
    assert_eq!(
        dex.create_sell_order(Origin::Root, ASSET, 5, USDT, 1, true, Some((0, 0))).map(|_| ()),
        Err(DispatchError::BadOrigin)
    );
    assert_eq!(Pallet::check_kyc_approval(false), dex_error(Error::KYCAuthorisationFailed));
    assert_eq!(Pallet::check_kyc_approval(true), Ok(()));
    assert_eq!(dex.account_id(), dex_account());
    let order: Option<OrderInfo<u64, u32, u128, u32, u128>> = dex.order_info(0);
    assert!(order.is_none());
}

#[test]
fn cancel_after_create_restores_orders() {
    let mut dex = Pallet::new(config());
    let created = dex.create_sell_order(Origin::Signed(3), ASSET, 7, USDT, 2, true, Some((0, 0))).unwrap();
    let cancelled = dex.cancel_sell_order(Origin::Signed(3), 0).unwrap();
    assert_eq!(
        created.actions,
        vec![Action::TransferAsset { asset_id: ASSET, from: 3, to: dex_account(), amount: 7 }]
    );
    assert_eq!(
        cancelled.actions,
        vec![Action::TransferAsset { asset_id: ASSET, from: dex_account(), to: 3, amount: 7 }]
    );
    assert!(dex.order_info(0).is_none());
    assert_eq!(dex.order_count(), 1);
}

#[test]
fn spend_funds_from_treasury() {
    let mut dex = Pallet::new(config());
    assert!(dex.force_set_royalty(Origin::Root, Percent::from_percent(10)).is_ok());
    assert!(dex.create_sell_order(Origin::Signed(1), ASSET, 5, USDT, 1000, true, Some((3, 0))).is_ok());
    assert!(dex.trade_order(Origin::Signed(4), 0, ASSET, 2, 0, false, None, true, Some((3, 0))).is_ok());
    assert_eq!(dex.get_pot(3, USDT), 200);
    let effects = dex.do_spend_funds(3, 9, USDT, 150).unwrap();
    assert_eq!(
        effects.actions,
        vec![Action::TransferCurrency { currency_id: USDT, from: dex_account(), to: 9, amount: 150 }]
    );
    assert_eq!(dex.get_pot(3, USDT), 50);
}

#[test]
fn new_orders_get_fresh_ids() {
    let mut dex = Pallet::new(config());
    assert!(dex.create_sell_order(Origin::Signed(1), ASSET, 5, USDT, 3, true, Some((0, 0))).is_ok());
    let first = dex.order_info(0).unwrap();
    assert!(dex.create_sell_order(Origin::Signed(2), ASSET, 9, USDT, 4, true, Some((0, 0))).is_ok());
    assert_eq!(dex.order_info(0), Some(first));
    assert_eq!(dex.order_info(1).unwrap().owner, 2);
    assert_eq!(dex.order_count(), 2);
}

#[test]
fn only_the_seller_claims_its_receivable() {
    let mut dex = Pallet::new(config());
    assert!(dex.create_sell_order(Origin::Signed(1), ASSET, 5, USDT, 100, true, Some((0, 0))).is_ok());
    assert!(dex.trade_order(Origin::Signed(4), 0, ASSET, 2, 0, false, None, true, Some((0, 0))).is_ok());
    assert_eq!(dex.seller_receivables(1, USDT), 200);
    assert_eq!(
        dex.claim_tokens(Origin::Signed(4), USDT, 200).map(|_| ()),
        dex_error(Error::NotEnoughFunds)
    );
    assert_eq!(dex.seller_receivables(1, USDT), 200);
    assert_eq!(
        dex.claim_tokens(Origin::Signed(1), USDT, 201).map(|_| ()),
        dex_error(Error::NotEnoughFunds)
    );
    let effects = dex.claim_tokens(Origin::Signed(1), USDT, 200).unwrap();
    assert_eq!(
        effects.actions,
        vec![Action::TransferCurrency { currency_id: USDT, from: dex_account(), to: 1, amount: 200 }]
    );
    assert_eq!(dex.seller_receivables(1, USDT), 0);
}

#[test]
fn dex_funds_cover_what_it_owes() {
    let mut rt = Runtime::new();
    rt.set_fees();
    assert_eq!(rt.create_sell_order(1, 5, 1000), Ok(()));
    assert_eq!(rt.trade_order(4, 0, 2, 1000, false), Ok(()));
    assert_eq!(rt.trade_order(10, 0, 1, 1000, true), Ok(()));
    let owed = rt.dex.seller_receivables(1, USDT) + rt.dex.get_pot(PROJECT, USDT);
    // 3 units at 1000: 2700 to the seller, 300 to the project
    assert_eq!(owed, 3000);
    // the buyers paid 2 * 1000 + 210 and 1000 + 110
    assert_eq!(rt.ledger.free_balance(USDT, dex_account()), 3320);
    assert_eq!(rt.dispatch(|dex| dex.claim_tokens(Origin::Signed(1), USDT, 2000)), Ok(()));
    assert_eq!(rt.dispatch(|dex| dex.do_spend_funds(PROJECT, 7, USDT, 300)), Ok(()));
    let owed = rt.dex.seller_receivables(1, USDT) + rt.dex.get_pot(PROJECT, USDT);
    assert_eq!(owed, 700);
    assert!(rt.ledger.free_balance(USDT, dex_account()) >= owed);
    assert_eq!(rt.ledger.free_balance(USDT, dex_account()), 1020);
}

#[test]
fn receivable_is_credits_minus_claims() {
    let mut rt = Runtime::new();
    rt.set_fees();
    assert_eq!(rt.create_sell_order(1, 5, 1000), Ok(()));
    assert_eq!(rt.trade_order(4, 0, 1, 110, false), Ok(()));
    assert_eq!(rt.dispatch(|dex| dex.claim_tokens(Origin::Signed(1), USDT, 300)), Ok(()));
    assert_eq!(rt.trade_order(4, 0, 1, 110, false), Ok(()));
    // credited 900 twice, claimed 300
    assert_eq!(rt.dex.seller_receivables(1, USDT), 1500);
    assert_eq!(
        rt.dispatch(|dex| dex.claim_tokens(Origin::Signed(1), USDT, 1501)),
        dex_error(Error::NotEnoughFunds)
    );
    assert_eq!(rt.ledger.free_balance(USDT, 1), 300);
}

#[test]
fn cancel_refunds_escrow_after_other_calls() {
    let mut rt = Runtime::new();
    rt.set_fees();
    rt.ledger.assets.insert((ASSET, 2), 50);
    assert_eq!(rt.create_sell_order(1, 7, 1000), Ok(()));
    // other orders, trades and claims in between
    assert_eq!(rt.create_sell_order(2, 10, 500), Ok(()));
    assert_eq!(rt.trade_order(4, 1, 3, 1000, false), Ok(()));
    assert_eq!(rt.dispatch(|dex| dex.claim_tokens(Origin::Signed(2), USDT, 100)), Ok(()));
    assert_eq!(rt.dispatch(|dex| dex.cancel_sell_order(Origin::Signed(1), 0)), Ok(()));
    assert!(rt.dex.order_info(0).is_none());
    assert_eq!(rt.ledger.asset_balance(ASSET, 1), 100);
    assert_eq!(rt.dex.order_info(1).unwrap().units, 7);
    assert_eq!(rt.order_count(), 2);
}
