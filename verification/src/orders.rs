//! Orders and the batches in which they are sent. A batch is all-or-nothing:
//! an optional cancellation followed by the orders to place.

use vstd::prelude::*;
use crate::fixed::{abs, magnitude};
use crate::market::{MarketId, MarketType, PerpPosition};

verus! {

/// How an order is priced.
#[derive(Clone, Copy, Debug, PartialEq, Eq, Structural)]
pub enum OrderType {
    Market,
    Limit,
}

/// Side of an order or of a position.
#[derive(Clone, Copy, Debug, PartialEq, Eq, Structural)]
pub enum PositionDirection {
    Long,
    Short,
}

/// Whether an order may take liquidity.
#[derive(Clone, Copy, Debug, PartialEq, Eq, Structural)]
pub enum PostOnlyParam {
    /// The order may match at once.
    Off,
    /// The order is refused rather than matched at once.
    TryPostOnly,
}

/// One order as the venue takes it.
#[derive(Clone, Copy, Debug, PartialEq, Eq)]
pub struct OrderParams {
    pub order_type: OrderType,
    pub market_type: MarketType,
    pub direction: PositionDirection,
    /// Size in base units.
    pub base_asset_amount: u64,
    pub market_index: u16,
    /// Absolute limit price; zero when the order is priced from the oracle.
    pub price: u64,
    /// Signed distance from the oracle price, in quote units.
    pub oracle_price_offset: Option<i32>,
    pub post_only: PostOnlyParam,
    /// The order may only shrink a position, never open or flip one.
    pub reduce_only: bool,
}

/// Which resting orders a batch cancels before it places its own.
#[derive(Clone, Copy, Debug, PartialEq, Eq, Structural)]
pub enum CancelScope {
    /// Cancels nothing.
    Nothing,
    /// Cancels the orders resting in one market.
    Market { market_index: u16, market_type: MarketType },
    /// Cancels every resting order of the account.
    All,
}

/// One transaction: the cancellation, then the orders, together or not at all.
#[derive(Clone, Debug, PartialEq, Eq)]
pub struct OrderBatch {
    pub cancel: CancelScope,
    pub orders: Vec<OrderParams>,
}

/// Offsets and sizes of one two-sided quote. The offsets are signed
/// distances from the oracle price in quote units; the sizes are in base
/// units.
#[derive(Clone, Copy, Debug, PartialEq, Eq, Structural)]
pub struct QuoteIntent {
    pub bid_offset: i32,
    pub ask_offset: i32,
    pub bid_size: u64,
    pub ask_size: u64,
}

/// A post-only limit order that follows the oracle at a fixed distance.
pub open spec fn oracle_limit_order_of(
    market: MarketId,
    direction: PositionDirection,
    size: u64,
    offset: i32,
) -> OrderParams {
    OrderParams {
        order_type: OrderType::Limit,
        market_type: market.kind,
        direction,
        base_asset_amount: size,
        market_index: market.market_index,
        price: 0,
        oracle_price_offset: Some(offset),
        post_only: PostOnlyParam::TryPostOnly,
        reduce_only: false,
    }
}

/// Builds a post-only limit order that follows the oracle at a fixed distance.
pub fn oracle_limit_order(market: MarketId, direction: PositionDirection, size: u64, offset: i32) -> (o:
    OrderParams)
    ensures
        o == oracle_limit_order_of(market, direction, size, offset),
{
    OrderParams {
        order_type: OrderType::Limit,
        market_type: market.kind,
        direction,
        base_asset_amount: size,
        market_index: market.market_index,
        price: 0,
        oracle_price_offset: Some(offset),
        post_only: PostOnlyParam::TryPostOnly,
        reduce_only: false,
    }
}

/// The two orders of a quote: the bid, then the ask.
pub open spec fn quote_orders_of(market: MarketId, intent: QuoteIntent) -> Seq<OrderParams> {
    seq![
        oracle_limit_order_of(market, PositionDirection::Long, intent.bid_size, intent.bid_offset),
        oracle_limit_order_of(market, PositionDirection::Short, intent.ask_size, intent.ask_offset),
    ]
}

/// The batch that replaces the resting quote: it cancels what rests in the
/// market and places the new bid and ask, as one transaction.
pub fn cancel_and_place(market: MarketId, intent: QuoteIntent) -> (b: OrderBatch)
    ensures
        b.cancel == (CancelScope::Market {
            market_index: market.market_index,
            market_type: market.kind,
        }),
        b.orders@ == quote_orders_of(market, intent),
{
    let mut orders: Vec<OrderParams> = Vec::new();
    orders.push(
        oracle_limit_order(market, PositionDirection::Long, intent.bid_size, intent.bid_offset),
    );
    orders.push(
        oracle_limit_order(market, PositionDirection::Short, intent.ask_size, intent.ask_offset),
    );
    assert(orders@ =~= quote_orders_of(market, intent));
    OrderBatch {
        cancel: CancelScope::Market { market_index: market.market_index, market_type: market.kind },
        orders,
    }
}

/// A market order in a perpetual market.
pub open spec fn market_order_of(
    market_index: u16,
    direction: PositionDirection,
    size: u64,
    reduce_only: bool,
) -> OrderParams {
    OrderParams {
        order_type: OrderType::Market,
        market_type: MarketType::Perp,
        direction,
        base_asset_amount: size,
        market_index,
        price: 0,
        oracle_price_offset: None,
        post_only: PostOnlyParam::Off,
        reduce_only,
    }
}

/// Builds a market order in a perpetual market.
pub fn market_order(market_index: u16, direction: PositionDirection, size: u64, reduce_only: bool) -> (o:
    OrderParams)
    ensures
        o == market_order_of(market_index, direction, size, reduce_only),
{
    OrderParams {
        order_type: OrderType::Market,
        market_type: MarketType::Perp,
        direction,
        base_asset_amount: size,
        market_index,
        price: 0,
        oracle_price_offset: None,
        post_only: PostOnlyParam::Off,
        reduce_only,
    }
}

/// The direction that reduces a position of the given signed amount.
pub open spec fn closing_direction_of(base_asset_amount: int) -> PositionDirection {
    if base_asset_amount > 0 {
        PositionDirection::Short
    } else {
        PositionDirection::Long
    }
}

/// The order that flattens a position: reduce-only, at market, against the
/// position's direction, for its whole magnitude.
pub open spec fn close_order_of(position: PerpPosition) -> OrderParams {
    market_order_of(
        position.market_index,
        closing_direction_of(position.base_asset_amount as int),
        abs(position.base_asset_amount as int) as u64,
        true,
    )
}

/// Builds the order that flattens a position, or nothing for a flat one.
pub fn close_order(position: PerpPosition) -> (o: Option<OrderParams>)
    ensures
        position.base_asset_amount == 0 ==> o.is_none(),
        position.base_asset_amount != 0 ==> o == Some(close_order_of(position)),
{
    if position.base_asset_amount == 0 {
        return None;
    }
    let direction = if position.base_asset_amount > 0 {
        PositionDirection::Short
    } else {
        PositionDirection::Long
    };
    Some(market_order(position.market_index, direction, magnitude(position.base_asset_amount), true))
}

/// The flattening orders for a list of positions, in the list's order; flat
/// positions give none.
pub open spec fn close_orders_of(positions: Seq<PerpPosition>) -> Seq<OrderParams>
    decreases positions.len(),
{
    if positions.len() == 0 {
        Seq::empty()
    } else {
        let rest = close_orders_of(positions.drop_last());
        if positions.last().base_asset_amount == 0 {
            rest
        } else {
            rest.push(close_order_of(positions.last()))
        }
    }
}

/// The batch that flattens every open position: one reduce-only market order
/// for each position that is not flat, and no cancellation.
pub fn close_positions(positions: &Vec<PerpPosition>) -> (b: OrderBatch)
    ensures
        b.cancel == CancelScope::Nothing,
        b.orders@ == close_orders_of(positions@),
{
    let mut orders: Vec<OrderParams> = Vec::new();
    let mut k: usize = 0;
    while k < positions.len()
        invariant
            k <= positions@.len(),
            orders@ == close_orders_of(positions@.subrange(0, k as int)),
        decreases positions@.len() - k,
    {
        proof {
            assert(positions@.subrange(0, k + 1).drop_last() =~= positions@.subrange(0, k as int));
        }
        match close_order(positions[k]) {
            Some(o) => {
                orders.push(o);
            },
            None => {},
        }
        k = k + 1;
    }
    proof {
        assert(positions@.subrange(0, k as int) =~= positions@);
    }
    OrderBatch { cancel: CancelScope::Nothing, orders }
}

} // verus!
