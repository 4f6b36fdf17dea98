//! Settings of one running instance, fixed once the controller is built.

use vstd::prelude::*;

verus! {

/// How the spread of a quote is chosen.
#[derive(Clone, Copy, Debug, PartialEq, Eq, Structural)]
pub enum SpreadPolicy {
    /// Quote a multiple of the market's own spread, around the middle of the
    /// book. The multiplier is in parts per million.
    MarketMultiplier { spread_multiplier: u32 },
    /// Quote at basis-point distances from the oracle price: a base spread,
    /// and the skew added at the largest position.
    OracleOffset { base_spread_bps: u16, max_skew_bps: u16 },
}

/// Settings of the controller.
#[derive(Clone, Debug, PartialEq, Eq)]
pub struct BotConfig {
    /// Symbol of the market to quote.
    pub target_market: String,
    /// Size of each order, in base units.
    pub order_size: u64,
    /// The position, in base units, at which the adding side stops quoting.
    pub max_position_size: u64,
    /// Spread policy and its parameters.
    pub spread: SpreadPolicy,
    /// Least time between two refreshes, in milliseconds.
    pub debounce_ms: u64,
    /// Least move of the oracle price that warrants a refresh, in millionths
    /// of a basis point.
    pub oracle_change_threshold_bps: u64,
    /// Account on whose behalf orders are signed, when the signer is a delegate.
    pub authority: Option<String>,
    /// Sub-account that holds the position.
    pub subaccount_id: u16,
}

/// Why a controller could not be built.
#[derive(Clone, Copy, Debug, PartialEq, Eq, Structural)]
pub enum ConfigError {
    /// The signer's key could not be resolved.
    InvalidSigner,
    /// The venue knows no market of the configured symbol.
    MarketNotFound,
    /// The largest position is zero, so no position ratio exists.
    InvalidMaxPosition,
}

impl BotConfig {
    /// Whether orders are signed by a delegate of the account's authority.
    pub fn is_delegated(&self) -> (d: bool)
        ensures
            d == self.authority.is_some(),
    {
        self.authority.is_some()
    }
}

} // verus!
