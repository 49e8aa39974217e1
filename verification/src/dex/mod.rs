//! The DEX pallet: permissionless listing and buying of carbon credits at a
//! fixed price. A seller escrows asset units in a sell order; buyers trade
//! against it, paying the price plus fees; the seller's share is recorded as a
//! receivable to claim later and a royalty goes to the project's treasury.
//!
//! Every state-changing call is all-or-nothing: a refused call leaves the
//! pallet's storage as it was. A successful call returns the actions that the
//! runtime carries out in other pallets (asset and currency transfers, credit
//! retirement); if one of them fails, the runtime discards the whole call
//! (see `crate::utilities::with_transaction_result`).
pub mod types;

use crate::double_map::{lemma_total_in_insert, total_in, value_or_zero, ValueDoubleMap};
use crate::percent::{ceil_percent_of, Percent};
use crate::support::{
    ensure_root, ensure_signed, signer_of, AccountId, DispatchError, Origin,
};
use std::collections::HashMap;
use types::{
    AssetId, Balance, CurrencyBalance, CurrencyId, GroupId, OrderId, OrderInfo, OrderInfoOf,
    ProjectId, UserLevel,
};
use vstd::prelude::*;

verus! {

broadcast use vstd::std_specs::hash::group_hash_axioms, crate::percent::lemma_percent_value_bounded;

/// The runtime constants of the DEX.
#[derive(Clone, Copy, Debug)]
pub struct Config {
    /// The account of the DEX, which holds escrowed assets and payments.
    pub pallet_account: AccountId,
    /// The minimum units of asset to create a sell order.
    pub min_units_to_create_sell_order: Balance,
    /// The minimum price per unit of asset to create a sell order.
    pub min_price_per_unit: CurrencyBalance,
    /// The maximum payment fee that can be set.
    pub max_payment_fee: Percent,
    /// The maximum royalty that can be set.
    pub max_royalty: Percent,
    /// The maximum purchase fee that can be set.
    pub max_purchase_fee: CurrencyBalance,
}

/// Errors of the DEX pallet.
#[derive(Clone, Copy, Debug, PartialEq, Eq)]
pub enum Error {
    /// Error when calculating orderId
    OrderIdOverflow,
    /// The orderId does not exist
    InvalidOrderId,
    /// Only the order owner can perform this call
    InvalidOrderOwner,
    /// The expected asset_id does not match the order
    InvalidAssetId,
    /// Error when calculating order units
    OrderUnitsOverflow,
    /// The amount does not cover fees + transaction
    InsufficientCurrency,
    /// Below minimum price
    BelowMinimumPrice,
    /// Below minimum units
    BelowMinimumUnits,
    /// Arithmetic overflow
    ArithmeticError,
    /// Asset not permitted to be listed
    AssetNotPermitted,
    /// Seller and buyer cannot be same
    SellerAndBuyerCannotBeSame,
    /// Cannot set more than the maximum payment fee
    CannotSetMoreThanMaxPaymentFee,
    /// The fee amount exceeds the limit set by user
    FeeExceedsUserLimit,
    /// The purchase fee amount exceeds the limit
    CannotSetMoreThanMaxPurchaseFee,
    /// not authorized to perform action
    NotAuthorised,
    /// Duplicate validator account
    ValidatorAccountAlreadyExists,
    /// Exceeded the maximum allowed validator count
    TooManyValidatorAccounts,
    /// Different chainId provided when validating transaction
    ChainIdMismatch,
    /// TXProof provided by the validator is different from previous validation
    TxProofMismatch,
    /// User not kyc authorized to perform action
    KYCAuthorisationFailed,
    /// Already validated
    DuplicateValidation,
    /// Not seller payment authority
    NotSellerPayoutAuthority,
    /// Seller payout authority has not been set
    SellerPayoutAuthorityNotSet,
    /// No receivable found for seller
    NoReceivables,
    /// receivable amount is less than payment
    ReceivableLessThanPayment,
    /// User has too many open orders
    OpenOrderLimitExceeded,
    /// User has too many units as unpaid open orders
    UserOpenOrderUnitsAllowedExceeded,
    /// Limits for open orders not configured correctly
    UserOpenOrderUnitsLimtNotFound,
    /// Min validators cannot be zero
    MinValidatorsCannotBeZero,
    /// NotEnoughFunds
    NotEnoughFunds,
    /// InvalidPoolId
    InvalidPoolId,
    /// ProjectNotFound
    ProjectNotFound,
    /// Treasury Not Found
    TreasuryNotFound,
    /// CannotSetMoreThanMaxRoyalty
    CannotSetMoreThanMaxRoyalty,
    /// ReceivableNotFound
    ReceivableNotFound,
}

/// Events of the DEX pallet.
#[derive(Clone, Copy, Debug, PartialEq, Eq)]
pub enum Event {
    /// A new sell order has been created
    SellOrderCreated {
        order_id: OrderId,
        asset_id: AssetId,
        project_id: ProjectId,
        group_id: GroupId,
        units: Balance,
        currency_id: CurrencyId,
        price_per_unit: CurrencyBalance,
        owner: AccountId,
    },
    /// A sell order was cancelled
    SellOrderCancelled { order_id: OrderId, seller: AccountId },
    /// User open order units limit set
    UserOpenOrderUnitsLimitUpdated { level: UserLevel, limit: Balance },
    /// BuyOrdersByUser storage was cleared
    BuyOrdersByUserCleared { user: AccountId },
}

/// Work that a successful call asks the runtime to carry out in other pallets,
/// in order.
#[derive(Clone, Debug, PartialEq, Eq)]
pub enum Action {
    /// Move `amount` units of carbon-credit asset `asset_id` from `from` to `to`.
    TransferAsset { asset_id: AssetId, from: AccountId, to: AccountId, amount: Balance },
    /// Move `amount` of currency `currency_id` from `from` to `to`.
    TransferCurrency {
        currency_id: CurrencyId,
        from: AccountId,
        to: AccountId,
        amount: CurrencyBalance,
    },
    /// Retire `units` carbon credits of a project's group held by `from`.
    RetireCredits {
        from: AccountId,
        project_id: ProjectId,
        group_id: GroupId,
        units: Balance,
        reason: Option<Vec<u8>>,
    },
}

/// What a successful call hands back: its actions and its event.
#[derive(Clone, Debug)]
pub struct Effects {
    pub actions: Vec<Action>,
    pub event: Option<Event>,
}

impl View for Effects {
    type V = (Seq<Action>, Option<Event>);

    open spec fn view(&self) -> (Seq<Action>, Option<Event>) {
        (self.actions@, self.event)
    }
}

/// The storage of the DEX as mathematical values.
pub struct DexView {
    pub config: Config,
    /// The id that the next sell order gets.
    pub order_count: OrderId,
    /// The payment fee, in percent of the price of a trade.
    pub payment_fee: int,
    /// The flat purchase fee of a trade.
    pub purchase_fee: CurrencyBalance,
    /// The royalty, in percent of the price of a trade.
    pub royalty: int,
    /// The open sell orders.
    pub orders: Map<OrderId, OrderInfoOf>,
    /// What each seller can claim, by (seller, currency); missing reads as zero.
    pub receivables: Map<(u64, u32), CurrencyBalance>,
    /// Each project's treasury, by (project, currency); missing reads as zero.
    pub treasury: Map<(u64, u32), CurrencyBalance>,
    /// The open-order unit limit of each user level.
    pub open_order_limits: Map<UserLevel, Balance>,
}

/// The invariant of the DEX storage.
pub open spec fn dex_wf(v: DexView) -> bool {
    &&& v.config.max_payment_fee.value() <= 100
    &&& v.config.max_royalty.value() <= 100
    &&& 0 <= v.payment_fee <= v.config.max_payment_fee.value()
    &&& 0 <= v.royalty <= v.config.max_royalty.value()
    &&& v.purchase_fee <= v.config.max_purchase_fee
    &&& forall|id: OrderId| #[trigger] v.orders.contains_key(id) ==> id < v.order_count
    &&& v.receivables.dom().finite()
    &&& v.treasury.dom().finite()
}

/// A successful call's new storage and its effects, or why it was refused.
pub type Outcome = Result<(DexView, (Seq<Action>, Option<Event>)), DispatchError>;

/// A DEX error as a dispatch error.
pub open spec fn dex_error(e: Error) -> DispatchError {
    DispatchError::Dex(e)
}

/// `r` and the new storage `post` are those that `outcome` prescribes for a
/// call on storage `pre`; a refused call leaves the storage unchanged.
pub open spec fn outcome_matches(
    outcome: Outcome,
    pre: DexView,
    post: DexView,
    r: Result<Effects, DispatchError>,
) -> bool {
    match outcome {
        Ok((s, eff)) => r matches Ok(e) && post == s && e@ == eff,
        Err(err) => r matches Err(e) && e == err && post == pre,
    }
}

/// No effects at all.
pub open spec fn no_effects() -> (Seq<Action>, Option<Event>) {
    (Seq::empty(), None)
}

/// The amounts of a trade of `units` at `price` per unit.
pub struct TradeQuote {
    /// The price of the units bought.
    pub required: int,
    /// The payment fee: the payment percentage of `required`, rounded up.
    pub payment_fee: int,
    /// The payment fee plus the flat purchase fee.
    pub total_fee: int,
    /// What the buyer pays: the price plus all fees.
    pub total_amount: int,
    /// The project's royalty: the royalty percentage of `required`, rounded up.
    pub royalty: int,
    /// What the seller receives: the price minus the royalty.
    pub seller_amount: int,
}

/// The amounts of a trade of `units` at `price` per unit under the given fees.
pub open spec fn trade_quote(
    price: int,
    units: int,
    payment_fee: int,
    purchase_fee: int,
    royalty: int,
) -> TradeQuote {
    let required = price * units;
    let pay = ceil_percent_of(required, payment_fee);
    let roy = ceil_percent_of(required, royalty);
    TradeQuote {
        required,
        payment_fee: pay,
        total_fee: pay + purchase_fee,
        total_amount: pay + purchase_fee + required,
        royalty: roy,
        seller_amount: required - roy,
    }
}

/// `create_sell_order` on storage `pre`.
pub open spec fn create_sell_order_spec(
    pre: DexView,
    origin: Origin,
    asset_id: AssetId,
    units: Balance,
    currency_id: CurrencyId,
    price_per_unit: CurrencyBalance,
    seller_kyc_approved: bool,
    asset_lookup: Option<(ProjectId, GroupId)>,
) -> Outcome {
    match signer_of(origin) {
        None => Err(DispatchError::BadOrigin),
        Some(seller) => {
            if !seller_kyc_approved {
                Err(dex_error(Error::KYCAuthorisationFailed))
            } else if asset_lookup is None {
                Err(dex_error(Error::AssetNotPermitted))
            } else if units < pre.config.min_units_to_create_sell_order {
                Err(dex_error(Error::BelowMinimumUnits))
            } else if price_per_unit < pre.config.min_price_per_unit {
                Err(dex_error(Error::BelowMinimumPrice))
            } else if pre.order_count == u128::MAX {
                Err(dex_error(Error::OrderIdOverflow))
            } else {
                let (project_id, group_id) = asset_lookup->0;
                let order_id = pre.order_count;
                let order = OrderInfo {
                    owner: seller,
                    units,
                    price_per_unit,
                    currency_id,
                    asset_id,
                };
                Ok(
                    (
                        DexView {
                            order_count: (order_id + 1) as u128,
                            orders: pre.orders.insert(order_id, order),
                            ..pre
                        },
                        (
                            seq![
                                Action::TransferAsset {
                                    asset_id,
                                    from: seller,
                                    to: pre.config.pallet_account,
                                    amount: units,
                                },
                            ],
                            Some(
                                Event::SellOrderCreated {
                                    order_id,
                                    asset_id,
                                    project_id,
                                    group_id,
                                    units,
                                    currency_id,
                                    price_per_unit,
                                    owner: seller,
                                },
                            ),
                        ),
                    ),
                )
            }
        },
    }
}

/// `cancel_sell_order` on storage `pre`.
pub open spec fn cancel_sell_order_spec(pre: DexView, origin: Origin, order_id: OrderId) -> Outcome {
    match signer_of(origin) {
        None => Err(DispatchError::BadOrigin),
        Some(seller) => {
            if !pre.orders.contains_key(order_id) {
                Err(dex_error(Error::InvalidOrderId))
            } else if seller != pre.orders[order_id].owner {
                Err(dex_error(Error::InvalidOrderOwner))
            } else {
                let order = pre.orders[order_id];
                Ok(
                    (
                        DexView { orders: pre.orders.remove(order_id), ..pre },
                        (
                            seq![
                                Action::TransferAsset {
                                    asset_id: order.asset_id,
                                    from: pre.config.pallet_account,
                                    to: order.owner,
                                    amount: order.units,
                                },
                            ],
                            Some(Event::SellOrderCancelled { order_id, seller }),
                        ),
                    ),
                )
            }
        },
    }
}

/// `force_set_payment_fee` on storage `pre`.
pub open spec fn force_set_payment_fee_spec(pre: DexView, origin: Origin, payment_fee: int) -> Outcome {
    if origin != Origin::Root {
        Err(DispatchError::BadOrigin)
    } else if payment_fee > pre.config.max_payment_fee.value() {
        Err(dex_error(Error::CannotSetMoreThanMaxPaymentFee))
    } else {
        Ok((DexView { payment_fee, ..pre }, no_effects()))
    }
}

/// `force_set_purchase_fee` on storage `pre`.
pub open spec fn force_set_purchase_fee_spec(
    pre: DexView,
    origin: Origin,
    purchase_fee: CurrencyBalance,
) -> Outcome {
    if origin != Origin::Root {
        Err(DispatchError::BadOrigin)
    } else if purchase_fee > pre.config.max_purchase_fee {
        Err(dex_error(Error::CannotSetMoreThanMaxPurchaseFee))
    } else {
        Ok((DexView { purchase_fee, ..pre }, no_effects()))
    }
}

/// `force_set_open_order_allowed_limits` on storage `pre`.
pub open spec fn force_set_open_order_allowed_limits_spec(
    pre: DexView,
    origin: Origin,
    level: UserLevel,
    limit: Balance,
) -> Outcome {
    if origin != Origin::Root {
        Err(DispatchError::BadOrigin)
    } else {
        Ok(
            (
                DexView { open_order_limits: pre.open_order_limits.insert(level, limit), ..pre },
                (Seq::empty(), Some(Event::UserOpenOrderUnitsLimitUpdated { level, limit })),
            ),
        )
    }
}

/// `force_set_royalty` on storage `pre`.
pub open spec fn force_set_royalty_spec(pre: DexView, origin: Origin, royalty: int) -> Outcome {
    if origin != Origin::Root {
        Err(DispatchError::BadOrigin)
    } else if royalty > pre.config.max_royalty.value() {
        Err(dex_error(Error::CannotSetMoreThanMaxRoyalty))
    } else {
        Ok((DexView { royalty, ..pre }, no_effects()))
    }
}

/// `trade_order` on storage `pre`: the buyer takes `units` of sell order
/// `order_id`, paying the price plus fees; the seller is credited the price
/// minus the royalty, the project's treasury the royalty.
pub open spec fn trade_order_spec(
    pre: DexView,
    origin: Origin,
    order_id: OrderId,
    asset_id: AssetId,
    units: Balance,
    max_fee: CurrencyBalance,
    retire: bool,
    retirement_reason: Option<Vec<u8>>,
    buyer_kyc_approved: bool,
    asset_lookup: Option<(ProjectId, GroupId)>,
) -> Outcome {
    match signer_of(origin) {
        None => Err(DispatchError::BadOrigin),
        Some(buyer) => {
            if !buyer_kyc_approved {
                Err(dex_error(Error::KYCAuthorisationFailed))
            } else if units == 0 {
                Ok((pre, no_effects()))
            } else if !pre.orders.contains_key(order_id) {
                Err(dex_error(Error::InvalidOrderId))
            } else {
                let order = pre.orders[order_id];
                if asset_id != order.asset_id {
                    Err(dex_error(Error::InvalidAssetId))
                } else if buyer == order.owner {
                    Err(dex_error(Error::SellerAndBuyerCannotBeSame))
                } else if units > order.units {
                    Err(dex_error(Error::OrderUnitsOverflow))
                } else if asset_lookup is None {
                    Err(dex_error(Error::AssetNotPermitted))
                } else {
                    let (project_id, group_id) = asset_lookup->0;
                    let q = trade_quote(
                        order.price_per_unit as int,
                        units as int,
                        pre.payment_fee,
                        pre.purchase_fee as int,
                        pre.royalty,
                    );
                    let seller_key = (order.owner, order.currency_id);
                    let pot_key = (project_id as u64, order.currency_id);
                    let receivable = value_or_zero(pre.receivables, seller_key);
                    let pot = value_or_zero(pre.treasury, pot_key);
                    if q.required > u128::MAX {
                        Err(dex_error(Error::ArithmeticError))
                    } else if q.total_fee > u128::MAX || q.total_amount > u128::MAX {
                        Err(dex_error(Error::OrderUnitsOverflow))
                    } else if max_fee < q.total_fee {
                        Err(dex_error(Error::FeeExceedsUserLimit))
                    } else if receivable + q.seller_amount > u128::MAX || pot + q.royalty
                        > u128::MAX {
                        Err(dex_error(Error::OrderUnitsOverflow))
                    } else {
                        let remaining = (order.units - units) as u128;
                        let orders = if remaining > 0 {
                            pre.orders.insert(order_id, OrderInfo { units: remaining, ..order })
                        } else {
                            pre.orders.remove(order_id)
                        };
                        let delivery = if retire {
                            Action::RetireCredits {
                                from: pre.config.pallet_account,
                                project_id,
                                group_id,
                                units,
                                reason: retirement_reason,
                            }
                        } else {
                            Action::TransferAsset {
                                asset_id,
                                from: pre.config.pallet_account,
                                to: buyer,
                                amount: units,
                            }
                        };
                        Ok(
                            (
                                DexView {
                                    orders,
                                    receivables: pre.receivables.insert(
                                        seller_key,
                                        (receivable + q.seller_amount) as u128,
                                    ),
                                    treasury: pre.treasury.insert(
                                        pot_key,
                                        (pot + q.royalty) as u128,
                                    ),
                                    ..pre
                                },
                                (
                                    seq![
                                        delivery,
                                        Action::TransferCurrency {
                                            currency_id: order.currency_id,
                                            from: buyer,
                                            to: pre.config.pallet_account,
                                            amount: q.total_amount as u128,
                                        },
                                    ],
                                    None,
                                ),
                            ),
                        )
                    }
                }
            }
        },
    }
}

/// `claim_tokens` on storage `pre`: a seller withdraws `amount` of its receivable.
pub open spec fn claim_tokens_spec(
    pre: DexView,
    origin: Origin,
    currency_id: CurrencyId,
    amount: CurrencyBalance,
) -> Outcome {
    match signer_of(origin) {
        None => Err(DispatchError::BadOrigin),
        Some(who) => {
            let current = value_or_zero(pre.receivables, (who, currency_id));
            if amount > current {
                Err(dex_error(Error::NotEnoughFunds))
            } else {
                Ok(
                    (
                        DexView {
                            receivables: pre.receivables.insert(
                                (who, currency_id),
                                (current - amount) as u128,
                            ),
                            ..pre
                        },
                        (
                            seq![
                                Action::TransferCurrency {
                                    currency_id,
                                    from: pre.config.pallet_account,
                                    to: who,
                                    amount,
                                },
                            ],
                            None,
                        ),
                    ),
                )
            }
        },
    }
}

/// `do_spend_funds` on storage `pre`: pays `amount` out of a project's treasury.
pub open spec fn do_spend_funds_spec(
    pre: DexView,
    project_id: ProjectId,
    beneficiary: AccountId,
    currency_id: CurrencyId,
    amount: CurrencyBalance,
) -> Outcome {
    let balance = value_or_zero(pre.treasury, (project_id as u64, currency_id));
    if balance < amount {
        Err(dex_error(Error::NotEnoughFunds))
    } else {
        Ok(
            (
                DexView {
                    treasury: pre.treasury.insert(
                        (project_id as u64, currency_id),
                        (balance - amount) as u128,
                    ),
                    ..pre
                },
                (
                    seq![
                        Action::TransferCurrency {
                            currency_id,
                            from: pre.config.pallet_account,
                            to: beneficiary,
                            amount,
                        },
                    ],
                    None,
                ),
            ),
        )
    }
}

/// In a successful trade of at least one unit, the order exists, the buyer
/// pays the price of the units plus the fees, and no more fee than the
/// buyer's limit; the price is split exactly between the seller's receivable
/// and the project's treasury, the royalty being at most the price; the order
/// loses exactly the units bought and is removed when none remain.
pub proof fn lemma_trade_order_conserves_value(
    pre: DexView,
    origin: Origin,
    order_id: OrderId,
    asset_id: AssetId,
    units: Balance,
    max_fee: CurrencyBalance,
    retire: bool,
    retirement_reason: Option<Vec<u8>>,
    buyer_kyc_approved: bool,
    asset_lookup: Option<(ProjectId, GroupId)>,
)
    requires
        dex_wf(pre),
        units > 0,
        trade_order_spec(
            pre,
            origin,
            order_id,
            asset_id,
            units,
            max_fee,
            retire,
            retirement_reason,
            buyer_kyc_approved,
            asset_lookup,
        ) is Ok,
    ensures
        ({
            let (post, (actions, _)) = trade_order_spec(
                pre,
                origin,
                order_id,
                asset_id,
                units,
                max_fee,
                retire,
                retirement_reason,
                buyer_kyc_approved,
                asset_lookup,
            )->Ok_0;
            let order = pre.orders[order_id];
            let project_id = (asset_lookup->0).0;
            let seller_key = (order.owner, order.currency_id);
            let pot_key = (project_id as u64, order.currency_id);
            let price = order.price_per_unit * units;
            let q = trade_quote(
                order.price_per_unit as int,
                units as int,
                pre.payment_fee,
                pre.purchase_fee as int,
                pre.royalty,
            );
            &&& pre.orders.contains_key(order_id)
            &&& units <= order.units
            &&& value_or_zero(post.receivables, seller_key) - value_or_zero(
                pre.receivables,
                seller_key,
            ) == price - q.royalty
            &&& value_or_zero(post.treasury, pot_key) - value_or_zero(pre.treasury, pot_key)
                == q.royalty
            &&& 0 <= q.royalty <= price
            &&& q.total_fee <= max_fee
            &&& actions.len() == 2
            &&& actions[1] == Action::TransferCurrency {
                currency_id: order.currency_id,
                from: signer_of(origin)->0,
                to: pre.config.pallet_account,
                amount: (price + q.total_fee) as u128,
            }
            &&& post.orders.contains_key(order_id) <==> units < order.units
            &&& post.orders.contains_key(order_id) ==> post.orders[order_id].units + units
                == order.units
        }),
{
    let order = pre.orders[order_id];
    crate::percent::lemma_ceil_percent_bounded(order.price_per_unit * units, pre.royalty);
}

/// A successful trade of at least one unit delivers exactly the units bought
/// out of the DEX account as its first action: retired from the DEX account
/// as credits of the project and group that the asset belongs to, carrying
/// the retirement reason, when `retire` is set; otherwise transferred to the
/// buyer. The trade emits no event.
pub proof fn lemma_trade_order_delivers_units(
    pre: DexView,
    origin: Origin,
    order_id: OrderId,
    asset_id: AssetId,
    units: Balance,
    max_fee: CurrencyBalance,
    retire: bool,
    retirement_reason: Option<Vec<u8>>,
    buyer_kyc_approved: bool,
    asset_lookup: Option<(ProjectId, GroupId)>,
)
    requires
        units > 0,
        trade_order_spec(
            pre,
            origin,
            order_id,
            asset_id,
            units,
            max_fee,
            retire,
            retirement_reason,
            buyer_kyc_approved,
            asset_lookup,
        ) is Ok,
    ensures
        ({
            let (_, (actions, event)) = trade_order_spec(
                pre,
                origin,
                order_id,
                asset_id,
                units,
                max_fee,
                retire,
                retirement_reason,
                buyer_kyc_approved,
                asset_lookup,
            )->Ok_0;
            &&& signer_of(origin) is Some
            &&& buyer_kyc_approved
            &&& asset_lookup is Some
            &&& event is None
            &&& actions.len() >= 1
            &&& retire ==> actions[0] == Action::RetireCredits {
                from: pre.config.pallet_account,
                project_id: (asset_lookup->0).0,
                group_id: (asset_lookup->0).1,
                units,
                reason: retirement_reason,
            }
            &&& !retire ==> actions[0] == Action::TransferAsset {
                asset_id,
                from: pre.config.pallet_account,
                to: signer_of(origin)->0,
                amount: units,
            }
            &&& asset_id == pre.orders[order_id].asset_id
        }),
{
}

/// A successful sell order escrows the offered units from the seller into the
/// DEX account, records the order under the previous order count with the
/// call's seller, units, price, currency and asset, and announces it with the
/// project and group that the asset belongs to.
pub proof fn lemma_create_sell_order_announces(
    pre: DexView,
    origin: Origin,
    asset_id: AssetId,
    units: Balance,
    currency_id: CurrencyId,
    price_per_unit: CurrencyBalance,
    seller_kyc_approved: bool,
    asset_lookup: Option<(ProjectId, GroupId)>,
)
    requires
        create_sell_order_spec(
            pre,
            origin,
            asset_id,
            units,
            currency_id,
            price_per_unit,
            seller_kyc_approved,
            asset_lookup,
        ) is Ok,
    ensures
        ({
            let (post, (actions, event)) = create_sell_order_spec(
                pre,
                origin,
                asset_id,
                units,
                currency_id,
                price_per_unit,
                seller_kyc_approved,
                asset_lookup,
            )->Ok_0;
            let seller = signer_of(origin)->0;
            &&& signer_of(origin) is Some
            &&& seller_kyc_approved
            &&& asset_lookup is Some
            &&& units >= pre.config.min_units_to_create_sell_order
            &&& price_per_unit >= pre.config.min_price_per_unit
            &&& event == Some(
                Event::SellOrderCreated {
                    order_id: pre.order_count,
                    asset_id,
                    project_id: (asset_lookup->0).0,
                    group_id: (asset_lookup->0).1,
                    units,
                    currency_id,
                    price_per_unit,
                    owner: seller,
                },
            )
            &&& actions == seq![
                Action::TransferAsset {
                    asset_id,
                    from: seller,
                    to: pre.config.pallet_account,
                    amount: units,
                },
            ]
            &&& post.orders.contains_key(pre.order_count)
            &&& post.orders[pre.order_count] == OrderInfo {
                owner: seller,
                units,
                price_per_unit,
                currency_id,
                asset_id,
            }
            &&& post.order_count == pre.order_count + 1
        }),
{
}

/// Cancelling a sell order succeeds exactly when it is signed by the order's
/// seller and the order is open; it then closes the order and hands the
/// seller back, out of the DEX account, exactly the units left in it.
pub proof fn lemma_cancel_sell_order_refunds(pre: DexView, origin: Origin, order_id: OrderId)
    ensures
        ({
            let r = cancel_sell_order_spec(pre, origin, order_id);
            let order = pre.orders[order_id];
            &&& r is Ok <==> signer_of(origin) is Some && pre.orders.contains_key(order_id)
                && signer_of(origin) == Some(order.owner)
            &&& signer_of(origin) is Some && !pre.orders.contains_key(order_id) ==> r is Err
                && r->Err_0 == dex_error(Error::InvalidOrderId)
            &&& signer_of(origin) is Some && pre.orders.contains_key(order_id) && signer_of(origin)
                != Some(order.owner) ==> r is Err && r->Err_0 == dex_error(Error::InvalidOrderOwner)
            &&& r is Ok ==> {
                let (post, (actions, event)) = r->Ok_0;
                &&& !post.orders.contains_key(order_id)
                &&& forall|id: OrderId| #[trigger]
                    pre.orders.contains_key(id) && id != order_id ==> post.orders.contains_key(id)
                        && post.orders[id] == pre.orders[id]
                &&& post.order_count == pre.order_count
                &&& post.receivables == pre.receivables
                &&& post.treasury == pre.treasury
                &&& actions == seq![
                    Action::TransferAsset {
                        asset_id: order.asset_id,
                        from: pre.config.pallet_account,
                        to: order.owner,
                        amount: order.units,
                    },
                ]
                &&& event == Some(Event::SellOrderCancelled { order_id, seller: order.owner })
            }
        }),
{
}

/// A claim succeeds exactly when it is signed and asks no more than the
/// signer's receivable in that currency; it then lowers that receivable by
/// the amount, leaves every other receivable and the treasuries as they were,
/// and pays the amount from the DEX account to the signer.
pub proof fn lemma_claim_tokens_pays_out(
    pre: DexView,
    origin: Origin,
    currency_id: CurrencyId,
    amount: CurrencyBalance,
)
    ensures
        ({
            let r = claim_tokens_spec(pre, origin, currency_id, amount);
            let who = signer_of(origin)->0;
            let k = (who, currency_id);
            &&& r is Ok <==> signer_of(origin) is Some && amount <= value_or_zero(
                pre.receivables,
                k,
            )
            &&& signer_of(origin) is Some && amount > value_or_zero(pre.receivables, k) ==> r is Err
                && r->Err_0 == dex_error(Error::NotEnoughFunds)
            &&& r is Ok ==> {
                let (post, (actions, event)) = r->Ok_0;
                &&& value_or_zero(post.receivables, k) == value_or_zero(pre.receivables, k)
                    - amount
                &&& forall|j: (u64, u32)|
                    j != k ==> #[trigger] value_or_zero(post.receivables, j) == value_or_zero(
                        pre.receivables,
                        j,
                    )
                &&& post.treasury == pre.treasury
                &&& post.orders == pre.orders
                &&& actions == seq![
                    Action::TransferCurrency {
                        currency_id,
                        from: pre.config.pallet_account,
                        to: who,
                        amount,
                    },
                ]
                &&& event is None
            }
        }),
{
}

/// Spending from a project's treasury succeeds exactly when the treasury
/// holds at least the amount in that currency; it then lowers that treasury
/// by the amount, leaves every other treasury and the receivables as they
/// were, and pays the amount from the DEX account to the beneficiary.
pub proof fn lemma_spend_funds_pays_out(
    pre: DexView,
    project_id: ProjectId,
    beneficiary: AccountId,
    currency_id: CurrencyId,
    amount: CurrencyBalance,
)
    ensures
        ({
            let r = do_spend_funds_spec(pre, project_id, beneficiary, currency_id, amount);
            let k = (project_id as u64, currency_id);
            &&& r is Ok <==> amount <= value_or_zero(pre.treasury, k)
            &&& !(amount <= value_or_zero(pre.treasury, k)) ==> r is Err && r->Err_0 == dex_error(
                Error::NotEnoughFunds,
            )
            &&& r is Ok ==> {
                let (post, (actions, event)) = r->Ok_0;
                &&& value_or_zero(post.treasury, k) == value_or_zero(pre.treasury, k) - amount
                &&& forall|j: (u64, u32)|
                    j != k ==> #[trigger] value_or_zero(post.treasury, j) == value_or_zero(
                        pre.treasury,
                        j,
                    )
                &&& post.receivables == pre.receivables
                &&& post.orders == pre.orders
                &&& actions == seq![
                    Action::TransferCurrency {
                        currency_id,
                        from: pre.config.pallet_account,
                        to: beneficiary,
                        amount,
                    },
                ]
                &&& event is None
            }
        }),
{
}

/// A new sell order gets an id that no open order has, and every order that
/// was open stays as it was.
pub proof fn lemma_create_sell_order_fresh_id(
    pre: DexView,
    origin: Origin,
    asset_id: AssetId,
    units: Balance,
    currency_id: CurrencyId,
    price_per_unit: CurrencyBalance,
    seller_kyc_approved: bool,
    asset_lookup: Option<(ProjectId, GroupId)>,
)
    requires
        dex_wf(pre),
        create_sell_order_spec(
            pre,
            origin,
            asset_id,
            units,
            currency_id,
            price_per_unit,
            seller_kyc_approved,
            asset_lookup,
        ) is Ok,
    ensures
        ({
            let post = create_sell_order_spec(
                pre,
                origin,
                asset_id,
                units,
                currency_id,
                price_per_unit,
                seller_kyc_approved,
                asset_lookup,
            )->Ok_0;
            let post = post.0;
            &&& !pre.orders.contains_key(pre.order_count)
            &&& post.orders.contains_key(pre.order_count)
            &&& post.order_count == pre.order_count + 1
            &&& forall|id: OrderId| #[trigger]
                pre.orders.contains_key(id) ==> post.orders.contains_key(id) && post.orders[id]
                    == pre.orders[id]
        }),
{
}

/// Cancelling a sell order right after creating it hands the seller back
/// exactly the units that creation escrowed and restores the open orders;
/// only the order counter has moved on.
pub proof fn lemma_cancel_undoes_create(
    pre: DexView,
    seller: AccountId,
    asset_id: AssetId,
    units: Balance,
    currency_id: CurrencyId,
    price_per_unit: CurrencyBalance,
    asset_lookup: Option<(ProjectId, GroupId)>,
)
    requires
        dex_wf(pre),
        create_sell_order_spec(
            pre,
            Origin::Signed(seller),
            asset_id,
            units,
            currency_id,
            price_per_unit,
            true,
            asset_lookup,
        ) is Ok,
    ensures
        ({
            let (mid, (escrow, _)) = create_sell_order_spec(
                pre,
                Origin::Signed(seller),
                asset_id,
                units,
                currency_id,
                price_per_unit,
                true,
                asset_lookup,
            )->Ok_0;
            let cancelled = cancel_sell_order_spec(mid, Origin::Signed(seller), pre.order_count);
            &&& cancelled is Ok
            &&& (cancelled->Ok_0).0 == DexView { order_count: (pre.order_count + 1) as u128, ..pre }
            &&& escrow == seq![
                Action::TransferAsset {
                    asset_id,
                    from: seller,
                    to: pre.config.pallet_account,
                    amount: units,
                },
            ]
            &&& ((cancelled->Ok_0).1).0 == seq![
                Action::TransferAsset {
                    asset_id,
                    from: pre.config.pallet_account,
                    to: seller,
                    amount: units,
                },
            ]
        }),
{
    let mid = create_sell_order_spec(
        pre,
        Origin::Signed(seller),
        asset_id,
        units,
        currency_id,
        price_per_unit,
        true,
        asset_lookup,
    )->Ok_0;
    let mid = mid.0;
    assert(mid.orders.remove(pre.order_count) =~= pre.orders);
}

/// An operation on the DEX storage with the outside facts that it reads: the
/// pallet's calls, and paying out of a project's treasury.
pub enum Operation {
    CreateSellOrder {
        asset_id: AssetId,
        units: Balance,
        currency_id: CurrencyId,
        price_per_unit: CurrencyBalance,
        seller_kyc_approved: bool,
        asset_lookup: Option<(ProjectId, GroupId)>,
    },
    CancelSellOrder { order_id: OrderId },
    ForceSetPaymentFee { payment_fee: Percent },
    ForceSetPurchaseFee { purchase_fee: CurrencyBalance },
    ForceSetOpenOrderAllowedLimits { level: UserLevel, limit: Balance },
    ForceSetRoyalty { royalty_percent: Percent },
    TradeOrder {
        order_id: OrderId,
        asset_id: AssetId,
        units: Balance,
        max_fee: CurrencyBalance,
        retire: bool,
        retirement_reason: Option<Vec<u8>>,
        buyer_kyc_approved: bool,
        asset_lookup: Option<(ProjectId, GroupId)>,
    },
    ClaimTokens { currency_id: CurrencyId, amount: CurrencyBalance },
    SpendFunds {
        project_id: ProjectId,
        beneficiary: AccountId,
        currency_id: CurrencyId,
        amount: CurrencyBalance,
    },
}

/// `op` by `origin` on storage `pre` (paying out of a treasury has no origin).
pub open spec fn operation_spec(pre: DexView, origin: Origin, op: Operation) -> Outcome {
    match op {
        Operation::CreateSellOrder {
            asset_id,
            units,
            currency_id,
            price_per_unit,
            seller_kyc_approved,
            asset_lookup,
        } => create_sell_order_spec(
            pre,
            origin,
            asset_id,
            units,
            currency_id,
            price_per_unit,
            seller_kyc_approved,
            asset_lookup,
        ),
        Operation::CancelSellOrder { order_id } => cancel_sell_order_spec(pre, origin, order_id),
        Operation::ForceSetPaymentFee { payment_fee } => force_set_payment_fee_spec(
            pre,
            origin,
            payment_fee.value(),
        ),
        Operation::ForceSetPurchaseFee { purchase_fee } => force_set_purchase_fee_spec(
            pre,
            origin,
            purchase_fee,
        ),
        Operation::ForceSetOpenOrderAllowedLimits { level, limit } =>
            force_set_open_order_allowed_limits_spec(pre, origin, level, limit),
        Operation::ForceSetRoyalty { royalty_percent } => force_set_royalty_spec(
            pre,
            origin,
            royalty_percent.value(),
        ),
        Operation::TradeOrder {
            order_id,
            asset_id,
            units,
            max_fee,
            retire,
            retirement_reason,
            buyer_kyc_approved,
            asset_lookup,
        } => trade_order_spec(
            pre,
            origin,
            order_id,
            asset_id,
            units,
            max_fee,
            retire,
            retirement_reason,
            buyer_kyc_approved,
            asset_lookup,
        ),
        Operation::ClaimTokens { currency_id, amount } => claim_tokens_spec(
            pre,
            origin,
            currency_id,
            amount,
        ),
        Operation::SpendFunds { project_id, beneficiary, currency_id, amount } =>
            do_spend_funds_spec(pre, project_id, beneficiary, currency_id, amount),
    }
}

/// What every operation keeps:
/// - a sell order stays open, with the same owner, price, currency and asset
///   and no more units, until its owner cancels it or a trade buys all its
///   remaining units; a new order is created by its signer under the next id;
/// - a seller's receivable decreases only when that seller claims it;
/// - a project's treasury decreases only when it pays out.
pub proof fn lemma_operations_keep_orders_and_funds(pre: DexView, origin: Origin, op: Operation)
    requires
        dex_wf(pre),
        operation_spec(pre, origin, op) is Ok,
    ensures
        ({
            let post = (operation_spec(pre, origin, op)->Ok_0).0;
            &&& forall|id: OrderId| #[trigger]
                pre.orders.contains_key(id) ==> {
                    let o = pre.orders[id];
                    ||| post.orders.contains_key(id) && post.orders[id].owner == o.owner
                        && post.orders[id].price_per_unit == o.price_per_unit
                        && post.orders[id].currency_id == o.currency_id
                        && post.orders[id].asset_id == o.asset_id && post.orders[id].units
                        <= o.units
                    ||| op == (Operation::CancelSellOrder { order_id: id }) && signer_of(origin)
                        == Some(o.owner)
                    ||| op matches Operation::TradeOrder { order_id, units, .. } && order_id == id
                        && units == o.units
                }
            &&& forall|id: OrderId| #[trigger]
                post.orders.contains_key(id) && !pre.orders.contains_key(id) ==> {
                    &&& op is CreateSellOrder
                    &&& id == pre.order_count
                    &&& Some(post.orders[id].owner) == signer_of(origin)
                }
            &&& forall|k: (u64, u32)| #[trigger]
                value_or_zero(post.receivables, k) < value_or_zero(pre.receivables, k) ==> {
                    &&& op matches Operation::ClaimTokens { currency_id, .. } && currency_id == k.1
                    &&& signer_of(origin) == Some(k.0)
                }
            &&& forall|k: (u64, u32)| #[trigger]
                value_or_zero(post.treasury, k) < value_or_zero(pre.treasury, k) ==> op is SpendFunds
        }),
{
    match op {
        Operation::TradeOrder { order_id, units, .. } => {
            let post = (operation_spec(pre, origin, op)->Ok_0).0;
            if units > 0 {
                let o = pre.orders[order_id];
                crate::percent::lemma_ceil_percent_bounded(o.price_per_unit * units, pre.royalty);
                assert forall|id: OrderId| #[trigger]
                    pre.orders.contains_key(id) && id != order_id implies post.orders.contains_key(
                    id,
                ) && post.orders[id] == pre.orders[id] by {}
            }
        },
        _ => {},
    }
}

/// An operation together with the origin that makes it.
pub struct Step {
    pub origin: Origin,
    pub op: Operation,
}

/// The storage after `step` on `pre`: the new storage if the operation
/// succeeds, `pre` if it is refused.
pub open spec fn step_post(pre: DexView, step: Step) -> DexView {
    match operation_spec(pre, step.origin, step.op) {
        Ok((post, _)) => post,
        Err(_) => pre,
    }
}

/// The actions of `step` on `pre`: none if it is refused.
pub open spec fn step_actions(pre: DexView, step: Step) -> Seq<Action> {
    match operation_spec(pre, step.origin, step.op) {
        Ok((_, (actions, _))) => actions,
        Err(_) => Seq::empty(),
    }
}

/// The storage after the operations `steps`, in order, on `pre`.
pub open spec fn run_ops(pre: DexView, steps: Seq<Step>) -> DexView
    decreases steps.len(),
{
    if steps.len() == 0 {
        pre
    } else {
        run_ops(step_post(pre, steps[0]), steps.drop_first())
    }
}

/// Every operation keeps the invariant of the DEX storage and its constants.
pub proof fn lemma_operation_keeps_wf(pre: DexView, step: Step)
    requires
        dex_wf(pre),
    ensures
        dex_wf(step_post(pre, step)),
        step_post(pre, step).config == pre.config,
{
}

/// What `step` credits to the receivable `k` = (seller, currency): the
/// seller's share, price minus royalty, of a successful trade of at least one
/// unit of the seller's order in that currency.
pub open spec fn step_credit(pre: DexView, step: Step, k: (u64, u32)) -> int {
    match step.op {
        Operation::TradeOrder { order_id, units, .. } => {
            let o = pre.orders[order_id];
            let price = o.price_per_unit * units;
            if operation_spec(pre, step.origin, step.op) is Ok && units > 0 && (
            o.owner, o.currency_id) == k {
                price - ceil_percent_of(price, pre.royalty)
            } else {
                0
            }
        },
        _ => 0,
    }
}

/// What `step` claims from the receivable `k` = (seller, currency): the
/// amount of a successful claim signed by the seller in that currency.
pub open spec fn step_claim(pre: DexView, step: Step, k: (u64, u32)) -> int {
    match step.op {
        Operation::ClaimTokens { currency_id, amount } => {
            if operation_spec(pre, step.origin, step.op) is Ok && signer_of(step.origin) == Some(
                k.0,
            ) && currency_id == k.1 {
                amount as int
            } else {
                0
            }
        },
        _ => 0,
    }
}

/// The sum of what the operations `steps` on `pre` credit to receivable `k`.
pub open spec fn run_credit(pre: DexView, steps: Seq<Step>, k: (u64, u32)) -> int
    decreases steps.len(),
{
    if steps.len() == 0 {
        0
    } else {
        step_credit(pre, steps[0], k) + run_credit(step_post(pre, steps[0]), steps.drop_first(), k)
    }
}

/// The sum of what the operations `steps` on `pre` claim from receivable `k`.
pub open spec fn run_claim(pre: DexView, steps: Seq<Step>, k: (u64, u32)) -> int
    decreases steps.len(),
{
    if steps.len() == 0 {
        0
    } else {
        step_claim(pre, steps[0], k) + run_claim(step_post(pre, steps[0]), steps.drop_first(), k)
    }
}

/// One operation changes a receivable by exactly what it credits and claims.
pub proof fn lemma_step_receivable(pre: DexView, step: Step, k: (u64, u32))
    requires
        dex_wf(pre),
    ensures
        value_or_zero(step_post(pre, step).receivables, k) == value_or_zero(pre.receivables, k)
            + step_credit(pre, step, k) - step_claim(pre, step, k),
{
    if let Operation::TradeOrder { order_id, units, .. } = step.op {
        if operation_spec(pre, step.origin, step.op) is Ok && units > 0 {
            let o = pre.orders[order_id];
            crate::percent::lemma_ceil_percent_bounded(o.price_per_unit * units, pre.royalty);
        }
    }
}

/// Over any sequence of operations, a seller's receivable ends as what it
/// started with plus the seller's shares of its trades minus its claims; so
/// what a seller claims never exceeds what it had plus what it was credited.
pub proof fn lemma_receivable_accounting(pre: DexView, steps: Seq<Step>, k: (u64, u32))
    requires
        dex_wf(pre),
    ensures
        value_or_zero(run_ops(pre, steps).receivables, k) == value_or_zero(pre.receivables, k)
            + run_credit(pre, steps, k) - run_claim(pre, steps, k),
        run_claim(pre, steps, k) <= value_or_zero(pre.receivables, k) + run_credit(pre, steps, k),
        dex_wf(run_ops(pre, steps)),
    decreases steps.len(),
{
    if steps.len() > 0 {
        lemma_step_receivable(pre, steps[0], k);
        lemma_operation_keeps_wf(pre, steps[0]);
        lemma_receivable_accounting(step_post(pre, steps[0]), steps.drop_first(), k);
    }
}

/// Whether `op` is a trade on, or a cancellation of, sell order `order_id`.
pub open spec fn touches_order(op: Operation, order_id: OrderId) -> bool {
    ||| op matches Operation::TradeOrder { order_id: id, .. } && id == order_id
    ||| op matches Operation::CancelSellOrder { order_id: id } && id == order_id
}

/// An open sell order stays exactly as it is through any operations that
/// neither trade on it nor cancel it.
pub proof fn lemma_order_untouched(pre: DexView, steps: Seq<Step>, order_id: OrderId)
    requires
        dex_wf(pre),
        pre.orders.contains_key(order_id),
        forall|i: int| 0 <= i < steps.len() ==> !touches_order(#[trigger] steps[i].op, order_id),
    ensures
        dex_wf(run_ops(pre, steps)),
        run_ops(pre, steps).config == pre.config,
        run_ops(pre, steps).orders.contains_key(order_id),
        run_ops(pre, steps).orders[order_id] == pre.orders[order_id],
    decreases steps.len(),
{
    if steps.len() > 0 {
        lemma_operation_keeps_wf(pre, steps[0]);
        assert(!touches_order(steps[0].op, order_id));
        let rest = steps.drop_first();
        assert forall|i: int| 0 <= i < rest.len() implies !touches_order(
            #[trigger] rest[i].op,
            order_id,
        ) by {
            assert(rest[i] == steps[i + 1]);
        }
        lemma_order_untouched(step_post(pre, steps[0]), rest, order_id);
    }
}

/// A seller who creates a sell order can cancel it whatever operations came in
/// between, as long as none traded on it or cancelled it: the cancellation
/// hands back exactly the units that creation escrowed and removes the order.
pub proof fn lemma_cancel_refunds_escrow(
    pre: DexView,
    seller: AccountId,
    asset_id: AssetId,
    units: Balance,
    currency_id: CurrencyId,
    price_per_unit: CurrencyBalance,
    asset_lookup: Option<(ProjectId, GroupId)>,
    steps: Seq<Step>,
)
    requires
        dex_wf(pre),
        create_sell_order_spec(
            pre,
            Origin::Signed(seller),
            asset_id,
            units,
            currency_id,
            price_per_unit,
            true,
            asset_lookup,
        ) is Ok,
        forall|i: int| 0 <= i < steps.len() ==> !touches_order(#[trigger] steps[i].op, pre.order_count),
    ensures
        ({
            let (mid, (escrow, _)) = create_sell_order_spec(
                pre,
                Origin::Signed(seller),
                asset_id,
                units,
                currency_id,
                price_per_unit,
                true,
                asset_lookup,
            )->Ok_0;
            let later = run_ops(mid, steps);
            let cancelled = cancel_sell_order_spec(later, Origin::Signed(seller), pre.order_count);
            &&& escrow == seq![
                Action::TransferAsset {
                    asset_id,
                    from: seller,
                    to: pre.config.pallet_account,
                    amount: units,
                },
            ]
            &&& cancelled is Ok
            &&& !(cancelled->Ok_0).0.orders.contains_key(pre.order_count)
            &&& ((cancelled->Ok_0).1).0 == seq![
                Action::TransferAsset {
                    asset_id,
                    from: pre.config.pallet_account,
                    to: seller,
                    amount: units,
                },
            ]
        }),
{
    let mid = (create_sell_order_spec(
        pre,
        Origin::Signed(seller),
        asset_id,
        units,
        currency_id,
        price_per_unit,
        true,
        asset_lookup,
    )->Ok_0).0;
    lemma_operation_keeps_wf(
        pre,
        Step {
            origin: Origin::Signed(seller),
            op: Operation::CreateSellOrder {
                asset_id,
                units,
                currency_id,
                price_per_unit,
                seller_kyc_approved: true,
                asset_lookup,
            },
        },
    );
    lemma_order_untouched(mid, steps, pre.order_count);
}

/// What `action` moves into `account` in currency `c`, less what it moves out.
pub open spec fn action_inflow(action: Action, account: AccountId, c: CurrencyId) -> int {
    match action {
        Action::TransferCurrency { currency_id, from, to, amount } => if currency_id == c {
            (if to == account {
                amount as int
            } else {
                0
            }) - (if from == account {
                amount as int
            } else {
                0
            })
        } else {
            0
        },
        _ => 0,
    }
}

/// What `actions` move into `account` in currency `c`, less what they move out.
pub open spec fn currency_inflow(actions: Seq<Action>, account: AccountId, c: CurrencyId) -> int
    decreases actions.len(),
{
    if actions.len() == 0 {
        0
    } else {
        action_inflow(actions[0], account, c) + currency_inflow(actions.drop_first(), account, c)
    }
}

/// What the DEX owes in currency `c`: all sellers' receivables and all
/// projects' treasuries in that currency.
pub open spec fn owed(v: DexView, c: CurrencyId) -> int {
    total_in(v.receivables, c) + total_in(v.treasury, c)
}

/// What the operations `steps` on `pre` move into the DEX account in currency
/// `c`, less what they move out.
pub open spec fn run_inflow(pre: DexView, steps: Seq<Step>, c: CurrencyId) -> int
    decreases steps.len(),
{
    if steps.len() == 0 {
        0
    } else {
        currency_inflow(step_actions(pre, steps[0]), pre.config.pallet_account, c) + run_inflow(
            step_post(pre, steps[0]),
            steps.drop_first(),
            c,
        )
    }
}

/// One operation, not signed by the DEX account, moves at least as much of a
/// currency into the DEX account as it adds to what the DEX owes in it.
#[verifier::spinoff_prover]
pub proof fn lemma_step_keeps_funds_covered(pre: DexView, step: Step, c: CurrencyId)
    requires
        dex_wf(pre),
        signer_of(step.origin) != Some(pre.config.pallet_account),
    ensures
        owed(step_post(pre, step), c) - owed(pre, c) <= currency_inflow(
            step_actions(pre, step),
            pre.config.pallet_account,
            c,
        ),
{
    let acct = pre.config.pallet_account;
    match operation_spec(pre, step.origin, step.op) {
        Err(_) => {},
        Ok((post, (actions, _))) => {
            match step.op {
                Operation::TradeOrder { order_id, units, .. } => {
                    if units > 0 {
                        let o = pre.orders[order_id];
                        let cur = o.currency_id;
                        let pot_key = ((step.op->TradeOrder_asset_lookup->0).0 as u64, cur);
                        let q = trade_quote(
                            o.price_per_unit as int,
                            units as int,
                            pre.payment_fee,
                            pre.purchase_fee as int,
                            pre.royalty,
                        );
                        crate::percent::lemma_ceil_percent_bounded(
                            o.price_per_unit * units,
                            pre.royalty,
                        );
                        crate::percent::lemma_ceil_percent_bounded(
                            o.price_per_unit * units,
                            pre.payment_fee,
                        );
                        lemma_total_in_insert(
                            pre.receivables,
                            (o.owner, cur),
                            post.receivables[(o.owner, cur)],
                            c,
                        );
                        lemma_total_in_insert(pre.treasury, pot_key, post.treasury[pot_key], c);
                        let rest = actions.drop_first();
                        assert(rest.drop_first() =~= Seq::<Action>::empty());
                        assert(rest[0] == actions[1]);
                        assert(action_inflow(actions[0], acct, c) == 0);
                        assert(action_inflow(actions[1], acct, c) == (if cur == c {
                            q.total_amount
                        } else {
                            0
                        }));
                        assert(currency_inflow(rest, acct, c) == action_inflow(rest[0], acct, c)
                            + currency_inflow(rest.drop_first(), acct, c));
                        assert(currency_inflow(actions, acct, c) == action_inflow(actions[0], acct, c)
                            + currency_inflow(rest, acct, c));
                        assert(owed(post, c) - owed(pre, c) == (if cur == c {
                            q.required
                        } else {
                            0
                        }));
                        assert(owed(post, c) - owed(pre, c) <= currency_inflow(actions, acct, c));
                    } else {
                        assert(actions =~= Seq::<Action>::empty());
                    }
                },
                Operation::ClaimTokens { currency_id, amount } => {
                    let k = (signer_of(step.origin)->0, currency_id);
                    lemma_total_in_insert(pre.receivables, k, post.receivables[k], c);
                    assert(actions.drop_first() =~= Seq::<Action>::empty());
                    assert(currency_inflow(actions, acct, c) == action_inflow(actions[0], acct, c)
                        + currency_inflow(actions.drop_first(), acct, c));
                    assert(total_in(post.treasury, c) == total_in(pre.treasury, c));
                    assert(owed(post, c) == total_in(post.receivables, c) + total_in(post.treasury, c));
                    assert(owed(post, c) - owed(pre, c) <= currency_inflow(actions, acct, c));
                },
                Operation::SpendFunds { project_id, currency_id, .. } => {
                    let k = (project_id as u64, currency_id);
                    lemma_total_in_insert(pre.treasury, k, post.treasury[k], c);
                    assert(actions.drop_first() =~= Seq::<Action>::empty());
                    assert(currency_inflow(actions, acct, c) == action_inflow(actions[0], acct, c)
                        + currency_inflow(actions.drop_first(), acct, c));
                    assert(total_in(post.receivables, c) == total_in(pre.receivables, c));
                    assert(owed(post, c) == total_in(post.receivables, c) + total_in(post.treasury, c));
                    assert(owed(post, c) - owed(pre, c) <= currency_inflow(actions, acct, c));
                },
                Operation::CreateSellOrder { .. } => {
                    assert(actions.drop_first() =~= Seq::<Action>::empty());
                    assert(currency_inflow(actions, acct, c) == action_inflow(actions[0], acct, c)
                        + currency_inflow(actions.drop_first(), acct, c));
                    assert(owed(post, c) == owed(pre, c));
                    assert(owed(post, c) - owed(pre, c) <= currency_inflow(actions, acct, c));
                },
                Operation::CancelSellOrder { .. } => {
                    assert(actions.drop_first() =~= Seq::<Action>::empty());
                    assert(currency_inflow(actions, acct, c) == action_inflow(actions[0], acct, c)
                        + currency_inflow(actions.drop_first(), acct, c));
                    assert(owed(post, c) == owed(pre, c));
                    assert(owed(post, c) - owed(pre, c) <= currency_inflow(actions, acct, c));
                },
                _ => {
                    assert(actions =~= Seq::<Action>::empty());
                },
            }
        },
    }
}

/// Over any operations not signed by the DEX account, the currency moved into
/// the DEX account covers what the DEX comes to owe: if the account held at
/// least what was owed before, it holds at least what is owed after.
pub proof fn lemma_funds_stay_covered(pre: DexView, steps: Seq<Step>, c: CurrencyId)
    requires
        dex_wf(pre),
        forall|i: int|
            0 <= i < steps.len() ==> signer_of(#[trigger] steps[i].origin) != Some(
                pre.config.pallet_account,
            ),
    ensures
        owed(run_ops(pre, steps), c) - owed(pre, c) <= run_inflow(pre, steps, c),
    decreases steps.len(),
{
    if steps.len() > 0 {
        lemma_step_keeps_funds_covered(pre, steps[0], c);
        lemma_operation_keeps_wf(pre, steps[0]);
        let rest = steps.drop_first();
        assert forall|i: int| 0 <= i < rest.len() implies signer_of(#[trigger] rest[i].origin)
            != Some(step_post(pre, steps[0]).config.pallet_account) by {
            assert(rest[i] == steps[i + 1]);
        }
        lemma_funds_stay_covered(step_post(pre, steps[0]), rest, c);
    }
}

/// The storage key of a user level.
pub open spec fn level_code(level: UserLevel) -> u8 {
    match level {
        UserLevel::KYCLevel1 => 1,
        UserLevel::KYCLevel2 => 2,
        UserLevel::KYCLevel3 => 3,
        UserLevel::KYCLevel4 => 4,
    }
}

fn level_key(level: UserLevel) -> (r: u8)
    ensures
        r == level_code(level),
{
    match level {
        UserLevel::KYCLevel1 => 1,
        UserLevel::KYCLevel2 => 2,
        UserLevel::KYCLevel3 => 3,
        UserLevel::KYCLevel4 => 4,
    }
}

/// The storage of the DEX pallet.
#[derive(Clone, Debug)]
pub struct Pallet {
    config: Config,
    order_count: OrderId,
    payment_fees: Percent,
    purchase_fees: CurrencyBalance,
    royalty_percent: Percent,
    orders: HashMap<OrderId, OrderInfoOf>,
    seller_receivables: ValueDoubleMap,
    treasury: ValueDoubleMap,
    user_open_order_units_allowed: HashMap<u8, Balance>,
}

impl View for Pallet {
    type V = DexView;

    closed spec fn view(&self) -> DexView {
        DexView {
            config: self.config,
            order_count: self.order_count,
            payment_fee: self.payment_fees.value(),
            purchase_fee: self.purchase_fees,
            royalty: self.royalty_percent.value(),
            orders: self.orders@,
            receivables: self.seller_receivables@,
            treasury: self.treasury@,
            open_order_limits: Map::new(
                |l: UserLevel| self.user_open_order_units_allowed@.contains_key(level_code(l)),
                |l: UserLevel| self.user_open_order_units_allowed@[level_code(l)],
            ),
        }
    }
}

impl Pallet {
    /// The invariant of the DEX storage.
    pub open spec fn wf(&self) -> bool {
        dex_wf(self@)
    }

    /// Empty storage under `config`: no orders, no fees, no balances.
    pub fn new(config: Config) -> (r: Pallet)
        ensures
            r.wf(),
            r@.config == config,
            r@.order_count == 0,
            r@.payment_fee == 0,
            r@.purchase_fee == 0,
            r@.royalty == 0,
            r@.orders == Map::<OrderId, OrderInfoOf>::empty(),
            r@.receivables == Map::<(u64, u32), CurrencyBalance>::empty(),
            r@.treasury == Map::<(u64, u32), CurrencyBalance>::empty(),
            r@.open_order_limits == Map::<UserLevel, Balance>::empty(),
    {
        let r = Pallet {
            config,
            order_count: 0,
            payment_fees: Percent::zero(),
            purchase_fees: 0,
            royalty_percent: Percent::zero(),
            orders: HashMap::new(),
            seller_receivables: ValueDoubleMap::new(),
            treasury: ValueDoubleMap::new(),
            user_open_order_units_allowed: HashMap::new(),
        };
        proof {
            broadcast use vstd::map::group_map_axioms;
            assert(r@.open_order_limits =~= Map::<UserLevel, Balance>::empty());
            assert(r@.orders =~= Map::<OrderId, OrderInfoOf>::empty());
        }
        r
    }

    /// Create a new sell order of `units` of `asset_id` at `price_per_unit` in
    /// currency `currency_id`; the units move from the seller into escrow.
    ///
    /// `seller_kyc_approved` is the KYC provider's answer for the signer, and
    /// `asset_lookup` the carbon-credits pallet's (project, group) of `asset_id`
    /// (none where the asset may not be listed).
    pub fn create_sell_order(
        &mut self,
        origin: Origin,
        asset_id: AssetId,
        units: Balance,
        currency_id: CurrencyId,
        price_per_unit: CurrencyBalance,
        seller_kyc_approved: bool,
        asset_lookup: Option<(ProjectId, GroupId)>,
    ) -> (r: Result<Effects, DispatchError>)
        requires
            old(self).wf(),
        ensures
            final(self).wf(),
            outcome_matches(
                create_sell_order_spec(
                    old(self)@,
                    origin,
                    asset_id,
                    units,
                    currency_id,
                    price_per_unit,
                    seller_kyc_approved,
                    asset_lookup,
                ),
                old(self)@,
                final(self)@,
                r,
            ),
    {
        let seller = match ensure_signed(origin) {
            Ok(who) => who,
            Err(e) => return Err(e),
        };
        if let Err(e) = Self::check_kyc_approval(seller_kyc_approved) {
            return Err(e);
        }
        let (project_id, group_id) = match asset_lookup {
            Some(ids) => ids,
            None => return Err(DispatchError::Dex(Error::AssetNotPermitted)),
        };
        if units < self.config.min_units_to_create_sell_order {
            return Err(DispatchError::Dex(Error::BelowMinimumUnits));
        }
        if price_per_unit < self.config.min_price_per_unit {
            return Err(DispatchError::Dex(Error::BelowMinimumPrice));
        }
        let order_id = self.order_count;
        let next_order_id = match order_id.checked_add(1) {
            Some(n) => n,
            None => return Err(DispatchError::Dex(Error::OrderIdOverflow)),
        };
        self.order_count = next_order_id;
        self.orders.insert(
            order_id,
            OrderInfo { owner: seller, units, price_per_unit, currency_id, asset_id },
        );
        let mut actions = Vec::new();
        actions.push(
            Action::TransferAsset {
                asset_id,
                from: seller,
                to: self.config.pallet_account,
                amount: units,
            },
        );
        let event = Event::SellOrderCreated {
            order_id,
            asset_id,
            project_id,
            group_id,
            units,
            currency_id,
            price_per_unit,
            owner: seller,
        };
        proof {
            assert(actions@ =~= seq![
                Action::TransferAsset {
                    asset_id,
                    from: seller,
                    to: self.config.pallet_account,
                    amount: units,
                },
            ]);
        }
        Ok(Effects { actions, event: Some(event) })
    }

    /// Cancel sell order `order_id`; its units go back to the owner.
    pub fn cancel_sell_order(&mut self, origin: Origin, order_id: OrderId) -> (r: Result<
        Effects,
        DispatchError,
    >)
        requires
            old(self).wf(),
        ensures
            final(self).wf(),
            outcome_matches(
                cancel_sell_order_spec(old(self)@, origin, order_id),
                old(self)@,
                final(self)@,
                r,
            ),
    {
        let seller = match ensure_signed(origin) {
            Ok(who) => who,
            Err(e) => return Err(e),
        };
        let order = match self.orders.get(&order_id) {
            Some(o) => *o,
            None => return Err(DispatchError::Dex(Error::InvalidOrderId)),
        };
        if seller != order.owner {
            return Err(DispatchError::Dex(Error::InvalidOrderOwner));
        }
        self.orders.remove(&order_id);
        let mut actions = Vec::new();
        actions.push(
            Action::TransferAsset {
                asset_id: order.asset_id,
                from: self.config.pallet_account,
                to: order.owner,
                amount: order.units,
            },
        );
        proof {
            assert(actions@ =~= seq![
                Action::TransferAsset {
                    asset_id: order.asset_id,
                    from: self.config.pallet_account,
                    to: order.owner,
                    amount: order.units,
                },
            ]);
        }
        Ok(Effects { actions, event: Some(Event::SellOrderCancelled { order_id, seller }) })
    }

    /// Set the payment fee; only the force origin, and at most the maximum.
    pub fn force_set_payment_fee(&mut self, origin: Origin, payment_fee: Percent) -> (r: Result<
        Effects,
        DispatchError,
    >)
        requires
            old(self).wf(),
        ensures
            final(self).wf(),
            outcome_matches(
                force_set_payment_fee_spec(old(self)@, origin, payment_fee.value()),
                old(self)@,
                final(self)@,
                r,
            ),
    {
        if let Err(e) = ensure_root(origin) {
            return Err(e);
        }
        if !payment_fee.le(&self.config.max_payment_fee) {
            return Err(DispatchError::Dex(Error::CannotSetMoreThanMaxPaymentFee));
        }
        self.payment_fees = payment_fee;
        Ok(Effects { actions: Vec::new(), event: None })
    }

    /// Set the flat purchase fee; only the force origin, and at most the maximum.
    pub fn force_set_purchase_fee(&mut self, origin: Origin, purchase_fee: CurrencyBalance) -> (r:
        Result<Effects, DispatchError>)
        requires
            old(self).wf(),
        ensures
            final(self).wf(),
            outcome_matches(
                force_set_purchase_fee_spec(old(self)@, origin, purchase_fee),
                old(self)@,
                final(self)@,
                r,
            ),
    {
        if let Err(e) = ensure_root(origin) {
            return Err(e);
        }
        if purchase_fee > self.config.max_purchase_fee {
            return Err(DispatchError::Dex(Error::CannotSetMoreThanMaxPurchaseFee));
        }
        self.purchase_fees = purchase_fee;
        Ok(Effects { actions: Vec::new(), event: None })
    }

    /// Set the open-order unit limit of a user level; only the force origin.
    pub fn force_set_open_order_allowed_limits(
        &mut self,
        origin: Origin,
        level: UserLevel,
        limit: Balance,
    ) -> (r: Result<Effects, DispatchError>)
        requires
            old(self).wf(),
        ensures
            final(self).wf(),
            outcome_matches(
                force_set_open_order_allowed_limits_spec(old(self)@, origin, level, limit),
                old(self)@,
                final(self)@,
                r,
            ),
    {
        if let Err(e) = ensure_root(origin) {
            return Err(e);
        }
        let key = level_key(level);
        self.user_open_order_units_allowed.insert(key, limit);
        proof {
            assert forall|l: UserLevel| #[trigger] level_code(l) == key implies l == level by {}
            assert(self@.open_order_limits =~= old(self)@.open_order_limits.insert(level, limit));
        }
        Ok(
            Effects {
                actions: Vec::new(),
                event: Some(Event::UserOpenOrderUnitsLimitUpdated { level, limit }),
            },
        )
    }

    /// Set the royalty; only the force origin, and at most the maximum.
    pub fn force_set_royalty(&mut self, origin: Origin, royalty_percent: Percent) -> (r: Result<
        Effects,
        DispatchError,
    >)
        requires
            old(self).wf(),
        ensures
            final(self).wf(),
            outcome_matches(
                force_set_royalty_spec(old(self)@, origin, royalty_percent.value()),
                old(self)@,
                final(self)@,
                r,
            ),
    {
        if let Err(e) = ensure_root(origin) {
            return Err(e);
        }
        if !royalty_percent.le(&self.config.max_royalty) {
            return Err(DispatchError::Dex(Error::CannotSetMoreThanMaxRoyalty));
        }
        self.royalty_percent = royalty_percent;
        Ok(Effects { actions: Vec::new(), event: None })
    }

    /// Buy `units` of sell order `order_id` (expected to sell `asset_id`),
    /// paying at most `max_fee` in fees; the units are retired on the buyer's
    /// behalf when `retire` holds, else delivered to the buyer.
    ///
    /// `buyer_kyc_approved` is the KYC provider's answer for the signer, and
    /// `asset_lookup` the carbon-credits pallet's (project, group) of `asset_id`.
    pub fn trade_order(
        &mut self,
        origin: Origin,
        order_id: OrderId,
        asset_id: AssetId,
        units: Balance,
        max_fee: CurrencyBalance,
        retire: bool,
        retirement_reason: Option<Vec<u8>>,
        buyer_kyc_approved: bool,
        asset_lookup: Option<(ProjectId, GroupId)>,
    ) -> (r: Result<Effects, DispatchError>)
        requires
            old(self).wf(),
        ensures
            final(self).wf(),
            outcome_matches(
                trade_order_spec(
                    old(self)@,
                    origin,
                    order_id,
                    asset_id,
                    units,
                    max_fee,
                    retire,
                    retirement_reason,
                    buyer_kyc_approved,
                    asset_lookup,
                ),
                old(self)@,
                final(self)@,
                r,
            ),
    {
        let buyer = match ensure_signed(origin) {
            Ok(who) => who,
            Err(e) => return Err(e),
        };
        if let Err(e) = Self::check_kyc_approval(buyer_kyc_approved) {
            return Err(e);
        }
        if units == 0 {
            return Ok(Effects { actions: Vec::new(), event: None });
        }
        let order = match self.orders.get(&order_id) {
            Some(o) => *o,
            None => return Err(DispatchError::Dex(Error::InvalidOrderId)),
        };
        if asset_id != order.asset_id {
            return Err(DispatchError::Dex(Error::InvalidAssetId));
        }
        if buyer == order.owner {
            return Err(DispatchError::Dex(Error::SellerAndBuyerCannotBeSame));
        }
        if units > order.units {
            return Err(DispatchError::Dex(Error::OrderUnitsOverflow));
        }
        let (project_id, group_id) = match asset_lookup {
            Some(ids) => ids,
            None => return Err(DispatchError::Dex(Error::AssetNotPermitted)),
        };
        let currency_id = order.currency_id;
        let remaining = order.units - units;

        // fees
        let required = match order.price_per_unit.checked_mul(units) {
            Some(v) => v,
            None => return Err(DispatchError::Dex(Error::ArithmeticError)),
        };
        let payment_fee = self.payment_fees.mul_ceil(required);
        let purchase_fee = self.purchase_fees;
        let total_fee = match payment_fee.checked_add(purchase_fee) {
            Some(v) => v,
            None => return Err(DispatchError::Dex(Error::OrderUnitsOverflow)),
        };
        let total_amount = match total_fee.checked_add(required) {
            Some(v) => v,
            None => return Err(DispatchError::Dex(Error::OrderUnitsOverflow)),
        };
        if max_fee < total_fee {
            return Err(DispatchError::Dex(Error::FeeExceedsUserLimit));
        }
        let amount_minus_fees = total_amount - total_fee;
        let royalty = self.royalty_percent.mul_ceil(amount_minus_fees);

        // seller receivable and project treasury
        let current_receivables = self.seller_receivables.get(order.owner, currency_id);
        let amount_to_seller = amount_minus_fees - royalty;
        let new_receivables = match current_receivables.checked_add(amount_to_seller) {
            Some(v) => v,
            None => return Err(DispatchError::Dex(Error::OrderUnitsOverflow)),
        };
        let pot = self.treasury.get(project_id as u64, currency_id);
        let new_pot = match pot.checked_add(royalty) {
            Some(v) => v,
            None => return Err(DispatchError::Dex(Error::OrderUnitsOverflow)),
        };

        self.seller_receivables.insert(order.owner, currency_id, new_receivables);
        self.treasury.insert(project_id as u64, currency_id, new_pot);
        if remaining > 0 {
            self.orders.insert(order_id, OrderInfo { units: remaining, ..order });
        } else {
            self.orders.remove(&order_id);
        }

        let delivery = if retire {
            Action::RetireCredits {
                from: self.config.pallet_account,
                project_id,
                group_id,
                units,
                reason: retirement_reason,
            }
        } else {
            Action::TransferAsset {
                asset_id,
                from: self.config.pallet_account,
                to: buyer,
                amount: units,
            }
        };
        let payment = Action::TransferCurrency {
            currency_id,
            from: buyer,
            to: self.config.pallet_account,
            amount: total_amount,
        };
        let ghost delivery_g = delivery;
        let mut actions = Vec::new();
        actions.push(delivery);
        actions.push(payment);
        proof {
            assert(actions@ =~= seq![delivery_g, payment]);
        }
        Ok(Effects { actions, event: None })
    }

    /// A seller withdraws `amount` of its receivable in `currency_id`.
    pub fn claim_tokens(
        &mut self,
        origin: Origin,
        currency_id: CurrencyId,
        amount: CurrencyBalance,
    ) -> (r: Result<Effects, DispatchError>)
        requires
            old(self).wf(),
        ensures
            final(self).wf(),
            outcome_matches(
                claim_tokens_spec(old(self)@, origin, currency_id, amount),
                old(self)@,
                final(self)@,
                r,
            ),
    {
        let who = match ensure_signed(origin) {
            Ok(w) => w,
            Err(e) => return Err(e),
        };
        let current_receivables = self.seller_receivables.get(who, currency_id);
        if amount > current_receivables {
            return Err(DispatchError::Dex(Error::NotEnoughFunds));
        }
        let new_receivables = current_receivables - amount;
        self.seller_receivables.insert(who, currency_id, new_receivables);
        let mut actions = Vec::new();
        let payout = Action::TransferCurrency {
            currency_id,
            from: self.config.pallet_account,
            to: who,
            amount,
        };
        actions.push(payout);
        proof {
            assert(actions@ =~= seq![payout]);
        }
        Ok(Effects { actions, event: None })
    }

    /// The account of the DEX.
    pub fn account_id(&self) -> (r: AccountId)
        ensures
            r == self@.config.pallet_account,
    {
        self.config.pallet_account
    }

    /// Succeeds exactly when the KYC provider approved the account.
    pub fn check_kyc_approval(kyc_approved: bool) -> (r: Result<(), DispatchError>)
        ensures
            r == (if kyc_approved {
                Ok::<(), DispatchError>(())
            } else {
                Err::<(), DispatchError>(dex_error(Error::KYCAuthorisationFailed))
            }),
    {
        if !kyc_approved {
            Err(DispatchError::Dex(Error::KYCAuthorisationFailed))
        } else {
            Ok(())
        }
    }

    /// Pay `amount` of `currency_id` from a project's treasury to `beneficiary`.
    pub fn do_spend_funds(
        &mut self,
        project_id: ProjectId,
        beneficiary: AccountId,
        currency_id: CurrencyId,
        amount: CurrencyBalance,
    ) -> (r: Result<Effects, DispatchError>)
        requires
            old(self).wf(),
        ensures
            final(self).wf(),
            outcome_matches(
                do_spend_funds_spec(old(self)@, project_id, beneficiary, currency_id, amount),
                old(self)@,
                final(self)@,
                r,
            ),
    {
        let balance = self.treasury.get(project_id as u64, currency_id);
        if balance < amount {
            return Err(DispatchError::Dex(Error::NotEnoughFunds));
        }
        let new_balance = balance - amount;
        self.treasury.insert(project_id as u64, currency_id, new_balance);
        let payout = Action::TransferCurrency {
            currency_id,
            from: self.config.pallet_account,
            to: beneficiary,
            amount,
        };
        let mut actions = Vec::new();
        actions.push(payout);
        proof {
            assert(actions@ =~= seq![payout]);
        }
        Ok(Effects { actions, event: None })
    }

    /// The runtime constants.
    pub fn config(&self) -> (r: Config)
        ensures
            r == self@.config,
    {
        self.config
    }

    /// The id that the next sell order gets.
    pub fn order_count(&self) -> (r: OrderId)
        ensures
            r == self@.order_count,
    {
        self.order_count
    }

    /// The payment fee.
    pub fn payment_fees(&self) -> (r: Percent)
        ensures
            r.value() == self@.payment_fee,
    {
        self.payment_fees
    }

    /// The flat purchase fee.
    pub fn purchase_fees(&self) -> (r: CurrencyBalance)
        ensures
            r == self@.purchase_fee,
    {
        self.purchase_fees
    }

    /// The royalty.
    pub fn royalty_percentage(&self) -> (r: Percent)
        ensures
            r.value() == self@.royalty,
    {
        self.royalty_percent
    }

    /// The sell order `order_id`, if open.
    pub fn order_info(&self, order_id: OrderId) -> (r: Option<OrderInfoOf>)
        ensures
            r == (if self@.orders.contains_key(order_id) {
                Some(self@.orders[order_id])
            } else {
                None::<OrderInfoOf>
            }),
    {
        match self.orders.get(&order_id) {
            Some(o) => Some(*o),
            None => None,
        }
    }

    /// What `seller` can claim in `currency_id`.
    pub fn seller_receivables(&self, seller: AccountId, currency_id: CurrencyId) -> (r:
        CurrencyBalance)
        ensures
            r == value_or_zero(self@.receivables, (seller, currency_id)),
    {
        self.seller_receivables.get(seller, currency_id)
    }

    /// The treasury of `project_id` in `currency_id`.
    pub fn get_pot(&self, project_id: ProjectId, currency_id: CurrencyId) -> (r: CurrencyBalance)
        ensures
            r == value_or_zero(self@.treasury, (project_id as u64, currency_id)),
    {
        self.treasury.get(project_id as u64, currency_id)
    }

    /// The open-order unit limit of `level`, if set.
    pub fn user_open_order_units_allowed(&self, level: UserLevel) -> (r: Option<Balance>)
        ensures
            r == (if self@.open_order_limits.contains_key(level) {
                Some(self@.open_order_limits[level])
            } else {
                None::<Balance>
            }),
    {
        match self.user_open_order_units_allowed.get(&level_key(level)) {
            Some(v) => Some(*v),
            None => None,
        }
    }
}

} // verus!
