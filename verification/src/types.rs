//! Collaborator-supplied record types the engine consumes opaquely.
//!
//! Oracle history, index history, pool balances and fulfillment venue
//! selectors are produced and interpreted by components outside this crate;
//! the engine stores them as plain fixed-width numeric aggregates and never
//! inspects them beyond the fields its own contracts name.

use vstd::prelude::*;

verus! {

/// An opaque 32-byte account identifier. Ownership and resolution are
/// external; the engine treats it as read-only identity.
#[derive(Clone, Copy, PartialEq, Eq, Debug)]
pub struct Pubkey(pub [u8; 32]);

/// Which oracle feed a market's prices come from. Consumed opaquely.
#[derive(Clone, Copy, PartialEq, Eq, Structural, Debug)]
pub enum OracleSource {
    Pyth,
    Switchboard,
    QuoteAsset,
    Pyth1K,
    Pyth1M,
}

/// Snapshot of recent oracle prices. Consumed opaquely.
#[derive(Clone, Copy, PartialEq, Eq, Debug)]
pub struct HistoricalOracleData {
    pub last_oracle_price: i64,
    pub last_oracle_conf: u64,
    pub last_oracle_delay: i64,
    pub last_oracle_price_twap: i64,
    pub last_oracle_price_twap_5min: i64,
    pub last_oracle_price_twap_ts: i64,
}

/// Snapshot of recent index prices. Consumed opaquely.
#[derive(Clone, Copy, PartialEq, Eq, Debug)]
pub struct HistoricalIndexData {
    pub last_index_bid_price: u64,
    pub last_index_ask_price: u64,
    pub last_index_price_twap: u64,
    pub last_index_price_twap_5min: u64,
    pub last_index_price_twap_ts: i64,
}

/// A pool-owned normalized balance in some spot market.
#[derive(Clone, Copy, PartialEq, Eq, Debug)]
pub struct PoolBalance {
    pub scaled_balance: u128,
    pub market_index: u16,
    pub padding: [u8; 6],
}

/// Governance-driven market lifecycle status.
#[derive(Clone, Copy, PartialEq, Eq, Structural, Debug)]
pub enum MarketStatus {
    Initialized,
    Active,
    FundingPaused,
    AmmPaused,
    FillPaused,
    WithdrawPaused,
    ReduceOnly,
    Settlement,
    Delisted,
}

impl Default for MarketStatus {
    fn default() -> (r: Self)
        ensures
            r == MarketStatus::Initialized,
    {
        MarketStatus::Initialized
    }
}

/// External venue an order may be routed to. Consumed opaquely.
#[derive(Clone, Copy, PartialEq, Eq, Structural, Debug)]
pub enum SpotFulfillmentType {
    SerumV3,
    Match,
}

} // verus!
