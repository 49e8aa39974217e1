//! Verified logic of the Foresta carbon-credit marketplace pallets: the DEX
//! (sell orders, trades, fees, seller receivables and project treasuries),
//! project bounties, storage-transaction outcomes and extrinsic weights.
pub mod percent;
pub mod support;
pub mod double_map;
pub mod weight;
pub mod dex;
pub mod foresta_bounties;
pub mod utilities;
pub mod carbon_credits_pool_weights;
pub mod data_preservers_weights;
pub mod stream_payment_weights;
