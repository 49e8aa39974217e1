//! Data types of the DEX pallet.
use crate::support::AccountId;
use vstd::prelude::*;

verus! {

/// Identifier of a sell order.
pub type OrderId = u128;

/// Identifier of a buy order.
pub type BuyOrderId = u128;

/// Identifier of a collective.
pub type CollectiveId = u32;

/// Identifier of a carbon-credit asset.
pub type AssetId = u32;

/// An amount of carbon-credit asset units.
pub type Balance = u128;

/// Identifier of a payment currency.
pub type CurrencyId = u32;

/// An amount of a payment currency.
pub type CurrencyBalance = u128;

/// Identifier of a carbon-credit project.
pub type ProjectId = u32;

/// Identifier of a group of credit batches within a project.
pub type GroupId = u32;

/// A KYC level of a user.
#[derive(Clone, Copy, Debug, PartialEq, Eq)]
pub enum UserLevel {
    KYCLevel1,
    KYCLevel2,
    KYCLevel3,
    KYCLevel4,
}

/// A sell order: `units` of `asset_id` offered by `owner` at `price_per_unit`
/// in currency `currency_id`.
#[derive(Clone, Copy, Debug, PartialEq, Eq, Default)]
pub struct OrderInfo<AccountIdT, AssetIdT, AssetBalance, TokenId, TokenBalance> {
    pub owner: AccountIdT,
    pub units: AssetBalance,
    pub price_per_unit: TokenBalance,
    pub currency_id: TokenId,
    pub asset_id: AssetIdT,
}

/// The sell orders stored by the DEX.
pub type OrderInfoOf = OrderInfo<AccountId, AssetId, Balance, CurrencyId, CurrencyBalance>;

/// A buy order against a sell order.
#[derive(Clone, Debug, PartialEq, Eq, Default)]
pub struct BuyOrderInfo<AccountIdT, AssetIdT, AssetBalance, TokenBalance, Time> {
    pub order_id: OrderId,
    pub buyer: AccountIdT,
    pub units: AssetBalance,
    pub price_per_unit: TokenBalance,
    pub asset_id: AssetIdT,
    pub total_fee: TokenBalance,
    pub total_amount: TokenBalance,
    pub expiry_time: Time,
    pub payment_info: Option<PaymentInfo<AccountIdT>>,
}

/// Proof of an off-chain payment and the validators that confirmed it.
#[derive(Clone, Debug, PartialEq, Eq, Default)]
pub struct PaymentInfo<AccountIdT> {
    pub chain_id: u32,
    pub tx_proof: Vec<u8>,
    pub validators: Vec<AccountIdT>,
}

/// The preference set by a seller for receiving payment transactions.
#[derive(Clone, Debug, PartialEq, Eq, Default)]
pub struct SellerPayoutPreference {
    /// The chain of the payment: 0 Stripe, 1 Eth, 137 Polygon (not enforced).
    pub chain_id: u32,
    /// The recipient's address where the payment should be sent.
    pub recipient_address: Vec<u8>,
}

/// A payment executed to a seller.
#[derive(Clone, Debug, PartialEq, Eq, Default)]
pub struct PayoutExecutedToSeller<BalanceT> {
    /// The order IDs associated with the payment.
    pub order_id: Vec<OrderId>,
    /// The chain of the payment: 0 Stripe, 1 Eth, 137 Polygon (not enforced).
    pub chain_id: u32,
    /// The recipient's address where the payment was sent.
    pub recipient_address: Vec<u8>,
    /// The amount of the payment executed.
    pub amount: BalanceT,
    /// The transaction hash associated with the payment.
    pub tx_hash: Vec<u8>,
}

} // verus!
