//! What the controller is told about the market: the traded market's
//! identity, order-book snapshots and account positions.

use vstd::prelude::*;

verus! {

/// Kind of instrument a market trades.
#[derive(Clone, Copy, Debug, PartialEq, Eq, Structural)]
pub enum MarketType {
    Perp,
    Spot,
}

/// Identity of a market at the venue.
#[derive(Clone, Copy, Debug, PartialEq, Eq, Structural)]
pub struct MarketId {
    pub market_index: u16,
    pub kind: MarketType,
}

impl MarketId {
    /// The perpetual market with the given index.
    pub fn perp(market_index: u16) -> (m: MarketId)
        ensures
            m == (MarketId { market_index, kind: MarketType::Perp }),
    {
        MarketId { market_index, kind: MarketType::Perp }
    }

    /// The market's numeric index.
    pub fn index(&self) -> (i: u16)
        ensures
            i == self.market_index,
    {
        self.market_index
    }
}

/// One rung of a ladder: a price and the size resting at it.
#[derive(Clone, Copy, Debug, PartialEq, Eq, Structural)]
pub struct PriceLevel {
    pub price: u64,
    pub size: u64,
}

/// Aggregated order book: the resting bids and asks. Either side may be empty.
#[derive(Clone, Debug, PartialEq, Eq)]
pub struct L2Snapshot {
    pub bids: Vec<PriceLevel>,
    pub asks: Vec<PriceLevel>,
}

/// `p` is the price of some level and no level has a higher price.
pub open spec fn is_highest_price(levels: Seq<PriceLevel>, p: u64) -> bool {
    &&& exists|i: int| 0 <= i < levels.len() && #[trigger] levels[i].price == p
    &&& forall|j: int| 0 <= j < levels.len() ==> #[trigger] levels[j].price <= p
}

/// `p` is the price of some level and no level has a lower price.
pub open spec fn is_lowest_price(levels: Seq<PriceLevel>, p: u64) -> bool {
    &&& exists|i: int| 0 <= i < levels.len() && #[trigger] levels[i].price == p
    &&& forall|j: int| 0 <= j < levels.len() ==> #[trigger] levels[j].price >= p
}

/// The highest price among the levels, when there is any level.
pub open spec fn highest_price_of(levels: Seq<PriceLevel>) -> u64 {
    choose|p: u64| is_highest_price(levels, p)
}

/// The lowest price among the levels, when there is any level.
pub open spec fn lowest_price_of(levels: Seq<PriceLevel>) -> u64 {
    choose|p: u64| is_lowest_price(levels, p)
}

/// A ladder has one highest price and no other.
pub proof fn lemma_highest_price_unique(levels: Seq<PriceLevel>, p: u64)
    requires
        is_highest_price(levels, p),
    ensures
        highest_price_of(levels) == p,
{
    let q = highest_price_of(levels);
    assert(is_highest_price(levels, q));
    let i = choose|i: int| 0 <= i < levels.len() && #[trigger] levels[i].price == p;
    let j = choose|j: int| 0 <= j < levels.len() && #[trigger] levels[j].price == q;
    assert(levels[i].price <= q);
    assert(levels[j].price <= p);
}

/// A ladder has one lowest price and no other.
pub proof fn lemma_lowest_price_unique(levels: Seq<PriceLevel>, p: u64)
    requires
        is_lowest_price(levels, p),
    ensures
        lowest_price_of(levels) == p,
{
    let q = lowest_price_of(levels);
    assert(is_lowest_price(levels, q));
    let i = choose|i: int| 0 <= i < levels.len() && #[trigger] levels[i].price == p;
    let j = choose|j: int| 0 <= j < levels.len() && #[trigger] levels[j].price == q;
    assert(levels[i].price >= q);
    assert(levels[j].price >= p);
}

impl L2Snapshot {
    /// The highest bid price present, or `None` when there are no bids.
    pub fn best_bid(&self) -> (r: Option<u64>)
        ensures
            self.bids@.len() == 0 <==> r.is_none(),
            r.is_some() ==> is_highest_price(self.bids@, r.unwrap()),
            r.is_some() ==> r.unwrap() == highest_price_of(self.bids@),
    {
        if self.bids.len() == 0 {
            return None;
        }
        let mut best: u64 = self.bids[0].price;
        let mut k: usize = 1;
        while k < self.bids.len()
            invariant
                1 <= k <= self.bids@.len(),
                exists|i: int| 0 <= i < k && #[trigger] self.bids@[i].price == best,
                forall|j: int| 0 <= j < k ==> #[trigger] self.bids@[j].price <= best,
            decreases self.bids@.len() - k,
        {
            if self.bids[k].price > best {
                best = self.bids[k].price;
            }
            k = k + 1;
        }
        proof {
            lemma_highest_price_unique(self.bids@, best);
        }
        Some(best)
    }

    /// The lowest ask price present, or `None` when there are no asks.
    pub fn best_ask(&self) -> (r: Option<u64>)
        ensures
            self.asks@.len() == 0 <==> r.is_none(),
            r.is_some() ==> is_lowest_price(self.asks@, r.unwrap()),
            r.is_some() ==> r.unwrap() == lowest_price_of(self.asks@),
    {
        if self.asks.len() == 0 {
            return None;
        }
        let mut best: u64 = self.asks[0].price;
        let mut k: usize = 1;
        while k < self.asks.len()
            invariant
                1 <= k <= self.asks@.len(),
                exists|i: int| 0 <= i < k && #[trigger] self.asks@[i].price == best,
                forall|j: int| 0 <= j < k ==> #[trigger] self.asks@[j].price >= best,
            decreases self.asks@.len() - k,
        {
            if self.asks[k].price < best {
                best = self.asks[k].price;
            }
            k = k + 1;
        }
        proof {
            lemma_lowest_price_unique(self.asks@, best);
        }
        Some(best)
    }
}

/// The account's holding in one perpetual market: a signed amount in base
/// units, positive when long, negative when short, zero when flat.
#[derive(Clone, Copy, Debug, PartialEq, Eq, Structural)]
pub struct PerpPosition {
    pub market_index: u16,
    pub base_asset_amount: i64,
}

/// The first position that the account holds in the given market, if any.
pub fn get_current_position(positions: &Vec<PerpPosition>, market_index: u16) -> (r: Option<
    PerpPosition,
>)
    ensures
        r.is_none() <==> forall|i: int|
            0 <= i < positions@.len() ==> (#[trigger] positions@[i]).market_index != market_index,
        r.is_some() ==> exists|i: int|
            0 <= i < positions@.len() && r.unwrap() == #[trigger] positions@[i]
                && positions@[i].market_index == market_index && forall|j: int|
                0 <= j < i ==> (#[trigger] positions@[j]).market_index != market_index,
{
    let mut k: usize = 0;
    while k < positions.len()
        invariant
            k <= positions@.len(),
            forall|j: int| 0 <= j < k ==> (#[trigger] positions@[j]).market_index != market_index,
        decreases positions@.len() - k,
    {
        if positions[k].market_index == market_index {
            return Some(positions[k]);
        }
        k = k + 1;
    }
    None
}

} // verus!
