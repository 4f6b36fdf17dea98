//! Quote generation: from the reference prices, the spread settings and the
//! inventory models to the signed offsets and sizes of one quote.
//!
//! Two modes. The book-referenced mode quotes around the middle of the best
//! bid and ask of a snapshot, then states both prices as distances from the
//! oracle price. The oracle-direct mode quotes at basis-point distances from
//! the oracle price and needs no snapshot.
//!
//! Three things hold of every quote, in both modes and at every position.
//! Each side lies at least one price unit, the smallest distance there is,
//! from the price it is measured from. The bid's offset is never positive and
//! the ask's never negative. And the ask lies above the bid.

use vstd::prelude::*;
use crate::fixed::{abs, clamp_i32, div_round_zero, div_toward_zero, saturate_i32, PPM};
use crate::market::{highest_price_of, lowest_price_of, L2Snapshot};
use crate::orders::QuoteIntent;
use crate::sizing::{calculate_dynamic_sizing, dynamic_sizing_of};
use crate::skew::{calculate_inventory_skew, inventory_skew_of, QuoteParams, MICRO_BPS_PER_WHOLE};

verus! {

/// Why no quote could be made.
#[derive(Clone, Copy, Debug, PartialEq, Eq, Structural)]
pub enum QuoteError {
    /// The snapshot has no bid or no ask.
    NoLiquidity,
}

/// The smallest distance between a side of a quote and the price it is
/// measured from: one price unit.
pub const MIN_DISTANCE: u64 = 1;

/// Two wholes of a product of two values in parts per million: what the
/// market's spread, scaled by two such values, is divided by to give one
/// side's half of it.
pub const HALF_OF_SCALED: u64 = 2_000_000_000_000;

/// Middle of the best bid and the best ask, rounded down.
pub open spec fn mid_price_of(best_bid: int, best_ask: int) -> int {
    (best_bid + best_ask) / 2
}

/// Distance of one side from the middle: half of the market's spread, times
/// the spread multiplier, times that side's skew multiplier (both in parts
/// per million), rounded toward zero once, at the end, and never less than
/// one price unit. A book that is locked or crossed has no spread to scale,
/// so both sides then lie one unit from the middle.
pub open spec fn spread_component_of(
    best_bid: int,
    best_ask: int,
    spread_multiplier: int,
    skew_multiplier: int,
) -> int {
    let raw = div_toward_zero(
        (best_ask - best_bid) * spread_multiplier * skew_multiplier,
        HALF_OF_SCALED as int,
    );
    if raw < MIN_DISTANCE {
        MIN_DISTANCE as int
    } else {
        raw
    }
}

/// Price of the bid in the book-referenced mode: the middle less the bid's
/// distance.
pub open spec fn l2_bid_price_of(
    best_bid: int,
    best_ask: int,
    spread_multiplier: int,
    position_ratio: int,
    saturation: int,
) -> int {
    mid_price_of(best_bid, best_ask) - spread_component_of(
        best_bid,
        best_ask,
        spread_multiplier,
        inventory_skew_of(position_ratio, saturation).0,
    )
}

/// Price of the ask in the book-referenced mode: the middle plus the ask's
/// distance.
pub open spec fn l2_ask_price_of(
    best_bid: int,
    best_ask: int,
    spread_multiplier: int,
    position_ratio: int,
    saturation: int,
) -> int {
    mid_price_of(best_bid, best_ask) + spread_component_of(
        best_bid,
        best_ask,
        spread_multiplier,
        inventory_skew_of(position_ratio, saturation).1,
    )
}

/// The offset of a bid priced at `price`: its distance from the oracle
/// price, or nothing where the price lies above the oracle price, held to
/// the range of `i32`.
pub open spec fn bid_offset_of(price: int, oracle_price: int) -> int {
    clamp_i32(
        if price - oracle_price > 0 {
            0
        } else {
            price - oracle_price
        },
    )
}

/// The offset of an ask priced at `price`: its distance from the oracle
/// price, or nothing where the price lies below the oracle price, held to
/// the range of `i32`.
pub open spec fn ask_offset_of(price: int, oracle_price: int) -> int {
    clamp_i32(
        if price - oracle_price < 0 {
            0
        } else {
            price - oracle_price
        },
    )
}

/// The quote of the book-referenced mode: the offsets of both prices, with
/// the dynamic sizes.
pub open spec fn l2_quote_of(
    oracle_price: int,
    best_bid: int,
    best_ask: int,
    spread_multiplier: int,
    order_size: int,
    position_ratio: int,
    saturation: int,
) -> QuoteIntent {
    QuoteIntent {
        bid_offset: bid_offset_of(
            l2_bid_price_of(best_bid, best_ask, spread_multiplier, position_ratio, saturation),
            oracle_price,
        ) as i32,
        ask_offset: ask_offset_of(
            l2_ask_price_of(best_bid, best_ask, spread_multiplier, position_ratio, saturation),
            oracle_price,
        ) as i32,
        bid_size: dynamic_sizing_of(order_size, position_ratio).0 as u64,
        ask_size: dynamic_sizing_of(order_size, position_ratio).1 as u64,
    }
}

/// In the book-referenced mode each side lies at least one price unit from
/// the middle of the book, so the ask's price is above the bid's by two
/// units or more, whatever the book, the settings and the position.
pub proof fn lemma_l2_sides_keep_distance(
    best_bid: int,
    best_ask: int,
    spread_multiplier: int,
    position_ratio: int,
    saturation: int,
)
    ensures
        l2_bid_price_of(best_bid, best_ask, spread_multiplier, position_ratio, saturation)
            <= mid_price_of(best_bid, best_ask) - 1,
        l2_ask_price_of(best_bid, best_ask, spread_multiplier, position_ratio, saturation)
            >= mid_price_of(best_bid, best_ask) + 1,
{
}

/// A book-referenced quote never has its ask at or below its bid, and its
/// bid offset is never positive nor its ask offset negative: for every book,
/// every oracle price, every setting and every position.
pub proof fn lemma_l2_quote_never_crosses(
    oracle_price: int,
    best_bid: int,
    best_ask: int,
    spread_multiplier: int,
    order_size: int,
    position_ratio: int,
    saturation: int,
)
    ensures
        l2_quote_of(
            oracle_price,
            best_bid,
            best_ask,
            spread_multiplier,
            order_size,
            position_ratio,
            saturation,
        ).ask_offset > l2_quote_of(
            oracle_price,
            best_bid,
            best_ask,
            spread_multiplier,
            order_size,
            position_ratio,
            saturation,
        ).bid_offset,
        l2_quote_of(
            oracle_price,
            best_bid,
            best_ask,
            spread_multiplier,
            order_size,
            position_ratio,
            saturation,
        ).bid_offset <= 0,
        l2_quote_of(
            oracle_price,
            best_bid,
            best_ask,
            spread_multiplier,
            order_size,
            position_ratio,
            saturation,
        ).ask_offset >= 0,
{
    lemma_l2_sides_keep_distance(best_bid, best_ask, spread_multiplier, position_ratio, saturation);
}

/// Distance of one side from the middle, computed from the spread already
/// scaled by the spread multiplier.
fn spread_component(scaled_spread: i128, skew_multiplier: u64) -> (c: i128)
    requires
        abs(scaled_spread as int) <= 0x1_0000_0000_0000_0000_0000_0000,
        skew_multiplier <= 2 * PPM,
    ensures
        c == (if div_toward_zero(scaled_spread * skew_multiplier, HALF_OF_SCALED as int) < 1 {
            1
        } else {
            div_toward_zero(scaled_spread * skew_multiplier, HALF_OF_SCALED as int)
        }),
        1 <= c <= 0x20_0000 * 0x1_0000_0000_0000_0000_0000_0000,
{
    assert(abs(scaled_spread * skew_multiplier) <= 0x20_0000 * 0x1_0000_0000_0000_0000_0000_0000)
        by (nonlinear_arith)
        requires
            -0x1_0000_0000_0000_0000_0000_0000 <= scaled_spread
                <= 0x1_0000_0000_0000_0000_0000_0000,
            0 <= skew_multiplier <= 0x20_0000,
    ;
    let raw: i128 = div_round_zero(scaled_spread * (skew_multiplier as i128), HALF_OF_SCALED);
    if raw < 1 {
        1
    } else {
        raw
    }
}

/// Computes the quote of the book-referenced mode from the best prices.
///
/// `spread_multiplier` and `saturation` are in parts per million, and
/// `saturation` is the value of the skew curve for `position_ratio`.
pub fn l2_quote(
    oracle_price: i64,
    best_bid: u64,
    best_ask: u64,
    spread_multiplier: u32,
    order_size: u64,
    position_ratio: i64,
    saturation: u64,
) -> (q: QuoteIntent)
    requires
        saturation <= PPM,
    ensures
        q == l2_quote_of(
            oracle_price as int,
            best_bid as int,
            best_ask as int,
            spread_multiplier as int,
            order_size as int,
            position_ratio as int,
            saturation as int,
        ),
        q.ask_offset > q.bid_offset,
        q.bid_offset <= 0 <= q.ask_offset,
{
    let mid: i128 = (((best_bid as u128) + (best_ask as u128)) / 2u128) as i128;
    let spread: i128 = (best_ask as i128) - (best_bid as i128);
    assert(abs(spread * spread_multiplier) <= 0x1_0000_0000_0000_0000 * 0x1_0000_0000) by (nonlinear_arith)
        requires
            -0x1_0000_0000_0000_0000 <= spread <= 0x1_0000_0000_0000_0000,
            0 <= spread_multiplier <= 0x1_0000_0000,
    ;
    let scaled: i128 = spread * (spread_multiplier as i128);
    let multipliers: (u64, u64) = calculate_inventory_skew(position_ratio, saturation);
    let bid_price: i128 = mid - spread_component(scaled, multipliers.0);
    let ask_price: i128 = mid + spread_component(scaled, multipliers.1);
    let bid_distance: i128 = bid_price - (oracle_price as i128);
    let ask_distance: i128 = ask_price - (oracle_price as i128);
    let sizes: (u64, u64) = calculate_dynamic_sizing(order_size, position_ratio);
    QuoteIntent {
        bid_offset: saturate_i32(
            if bid_distance > 0 {
                0
            } else {
                bid_distance
            },
        ),
        ask_offset: saturate_i32(
            if ask_distance < 0 {
                0
            } else {
                ask_distance
            },
        ),
        bid_size: sizes.0,
        ask_size: sizes.1,
    }
}

/// Quotes around the snapshot's best prices. Fails when either side of the
/// snapshot is empty, and only then.
pub fn quote_from_snapshot(
    oracle_price: i64,
    snapshot: &L2Snapshot,
    spread_multiplier: u32,
    order_size: u64,
    position_ratio: i64,
    saturation: u64,
) -> (r: Result<QuoteIntent, QuoteError>)
    requires
        saturation <= PPM,
    ensures
        (snapshot.bids@.len() == 0 || snapshot.asks@.len() == 0) <==> r == Err::<
            QuoteIntent,
            QuoteError,
        >(QuoteError::NoLiquidity),
        (snapshot.bids@.len() > 0 && snapshot.asks@.len() > 0) ==> r == Ok::<
            QuoteIntent,
            QuoteError,
        >(
            l2_quote_of(
                oracle_price as int,
                highest_price_of(snapshot.bids@) as int,
                lowest_price_of(snapshot.asks@) as int,
                spread_multiplier as int,
                order_size as int,
                position_ratio as int,
                saturation as int,
            ),
        ),
        r is Ok ==> r->Ok_0.ask_offset > r->Ok_0.bid_offset && r->Ok_0.bid_offset <= 0
            <= r->Ok_0.ask_offset,
{
    let best_bid: u64 = match snapshot.best_bid() {
        Some(p) => p,
        None => {
            return Err(QuoteError::NoLiquidity);
        },
    };
    let best_ask: u64 = match snapshot.best_ask() {
        Some(p) => p,
        None => {
            return Err(QuoteError::NoLiquidity);
        },
    };
    Ok(
        l2_quote(
            oracle_price,
            best_bid,
            best_ask,
            spread_multiplier,
            order_size,
            position_ratio,
            saturation,
        ),
    )
}

/// Distance in price units that a spread in millionths of a basis point
/// makes at a price, rounded down.
pub open spec fn bps_distance_of(price: int, bps: int) -> int {
    price * bps / (MICRO_BPS_PER_WHOLE as int)
}

/// Distance of one side from the oracle price in the oracle-direct mode:
/// what its spread makes at the price, and never less than one price unit.
pub open spec fn oracle_distance_of(price: int, bps: int) -> int {
    if bps_distance_of(price, bps) < MIN_DISTANCE {
        MIN_DISTANCE as int
    } else {
        bps_distance_of(price, bps)
    }
}

/// The quote of the oracle-direct mode: the bid below the oracle price and
/// the ask above it, each by its distance and held to the range of `i32`,
/// with the same size on both sides.
pub open spec fn oracle_quote_of(oracle_price: int, quotes: QuoteParams) -> QuoteIntent {
    QuoteIntent {
        bid_offset: clamp_i32(-oracle_distance_of(oracle_price, quotes.bid_offset_bps as int)) as i32,
        ask_offset: clamp_i32(oracle_distance_of(oracle_price, quotes.ask_offset_bps as int)) as i32,
        bid_size: quotes.size,
        ask_size: quotes.size,
    }
}

/// An oracle-direct quote has its bid at least one price unit below the
/// oracle price and its ask at least one above it, so the ask is never at or
/// below the bid: for every price, every spread and every position.
pub proof fn lemma_oracle_quote_never_crosses(oracle_price: int, quotes: QuoteParams)
    ensures
        oracle_quote_of(oracle_price, quotes).bid_offset <= -1,
        oracle_quote_of(oracle_price, quotes).ask_offset >= 1,
        oracle_quote_of(oracle_price, quotes).ask_offset > oracle_quote_of(
            oracle_price,
            quotes,
        ).bid_offset,
{
}

/// The distance of one side from the oracle price, cut off at 2^31, beyond
/// which every offset is held at the bound of `i32` anyway.
fn capped_distance(price: i64, bps: u128) -> (d: i64)
    requires
        price > 0,
    ensures
        oracle_distance_of(price as int, bps as int) <= 0x8000_0000 ==> d == oracle_distance_of(
            price as int,
            bps as int,
        ),
        oracle_distance_of(price as int, bps as int) > 0x8000_0000 ==> d == 0x8000_0000,
        1 <= d <= 0x8000_0000,
{
    if bps >= 0x2_0000_0000_0000_0000u128 {
        assert(price * bps >= 0x2_0000_0000_0000_0000) by (nonlinear_arith)
            requires
                price >= 1,
                bps >= 0x2_0000_0000_0000_0000,
        ;
        return 0x8000_0000i64;
    }
    assert(0 <= price * bps <= 0x7fff_ffff_ffff_ffff * 0x1_ffff_ffff_ffff_ffff) by (nonlinear_arith)
        requires
            0 < price <= 0x7fff_ffff_ffff_ffff,
            0 <= bps <= 0x1_ffff_ffff_ffff_ffff,
    ;
    let q: u128 = (price as u128) * bps / 10_000_000_000u128;
    if q > 0x8000_0000u128 {
        0x8000_0000i64
    } else if q < 1 {
        1
    } else {
        q as i64
    }
}

/// Computes the quote of the oracle-direct mode.
pub fn oracle_quote(oracle_price: i64, quotes: QuoteParams) -> (q: QuoteIntent)
    requires
        oracle_price > 0,
    ensures
        q == oracle_quote_of(oracle_price as int, quotes),
        q.ask_offset > q.bid_offset,
        q.bid_offset <= -1,
        q.ask_offset >= 1,
{
    let bid: i64 = capped_distance(oracle_price, quotes.bid_offset_bps);
    let ask: i64 = capped_distance(oracle_price, quotes.ask_offset_bps);
    QuoteIntent {
        bid_offset: saturate_i32((-bid) as i128),
        ask_offset: saturate_i32(ask as i128),
        bid_size: quotes.size,
        ask_size: quotes.size,
    }
}

} // verus!
