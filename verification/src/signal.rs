//! A directional signal and what it asks of the position: which orders, if
//! any, bring the account to the side that the signal names.

use vstd::prelude::*;
use crate::orders::{
    market_order, market_order_of, CancelScope, OrderBatch, OrderParams, PositionDirection,
};

verus! {

/// Which side a strategy wants to be on.
#[derive(Clone, Copy, Debug, PartialEq, Eq, Structural)]
pub enum Signal {
    Long,
    Short,
    Neutral,
}

/// What to do to the position.
#[derive(Clone, Copy, Debug, PartialEq, Eq, Structural)]
pub enum PositionAction {
    /// Leave it as it is.
    Hold,
    /// Open a position in this direction.
    Open(PositionDirection),
    /// Close the opposite position and open one in this direction.
    CloseAndOpen(PositionDirection),
    /// Close every position.
    Flatten,
}

/// What a long signal asks for. `None` stands for an account without a
/// position in the market.
pub open spec fn long_action_of(position: Option<i64>) -> PositionAction {
    if position.is_some() && position.unwrap() < 0 {
        PositionAction::CloseAndOpen(PositionDirection::Long)
    } else if position.is_some() && position.unwrap() > 0 {
        PositionAction::Hold
    } else {
        PositionAction::Open(PositionDirection::Long)
    }
}

/// What a short signal asks for.
pub open spec fn short_action_of(position: Option<i64>) -> PositionAction {
    if position.is_some() && position.unwrap() > 0 {
        PositionAction::CloseAndOpen(PositionDirection::Short)
    } else if position.is_some() && position.unwrap() < 0 {
        PositionAction::Hold
    } else {
        PositionAction::Open(PositionDirection::Short)
    }
}

/// What a signal asks for: a long or short signal as above, a neutral one
/// to be flat.
pub open spec fn position_action_of(signal: Signal, position: Option<i64>) -> PositionAction {
    match signal {
        Signal::Long => long_action_of(position),
        Signal::Short => short_action_of(position),
        Signal::Neutral => PositionAction::Flatten,
    }
}

/// On a long signal: reverse a short position, keep a long one, open one
/// when flat.
pub fn handle_long_signal(position: Option<i64>) -> (a: PositionAction)
    ensures
        a == long_action_of(position),
{
    match position {
        Some(amount) => {
            if amount < 0 {
                PositionAction::CloseAndOpen(PositionDirection::Long)
            } else if amount > 0 {
                PositionAction::Hold
            } else {
                PositionAction::Open(PositionDirection::Long)
            }
        },
        None => PositionAction::Open(PositionDirection::Long),
    }
}

/// On a short signal: reverse a long position, keep a short one, open one
/// when flat.
pub fn handle_short_signal(position: Option<i64>) -> (a: PositionAction)
    ensures
        a == short_action_of(position),
{
    match position {
        Some(amount) => {
            if amount > 0 {
                PositionAction::CloseAndOpen(PositionDirection::Short)
            } else if amount < 0 {
                PositionAction::Hold
            } else {
                PositionAction::Open(PositionDirection::Short)
            }
        },
        None => PositionAction::Open(PositionDirection::Short),
    }
}

/// Decides what a signal asks of the position.
pub fn update_position(signal: Signal, position: Option<i64>) -> (a: PositionAction)
    ensures
        a == position_action_of(signal, position),
{
    match signal {
        Signal::Long => handle_long_signal(position),
        Signal::Short => handle_short_signal(position),
        Signal::Neutral => PositionAction::Flatten,
    }
}

/// One turn of a signal-following strategy: a signal that differs from the
/// current one is adopted and acted on; the same signal again asks for
/// nothing.
pub fn follow_signal(current: Signal, new_signal: Signal, position: Option<i64>) -> (r: (
    Signal,
    PositionAction,
))
    ensures
        new_signal == current ==> r == (current, PositionAction::Hold),
        new_signal != current ==> r == (new_signal, position_action_of(new_signal, position)),
{
    if new_signal == current {
        (current, PositionAction::Hold)
    } else {
        (new_signal, update_position(new_signal, position))
    }
}

/// The batch that opens a position: one market order of the given size.
pub fn update(direction: PositionDirection, order_size: u64, market_index: u16) -> (b: OrderBatch)
    ensures
        b.cancel == CancelScope::Nothing,
        b.orders@ == seq![market_order_of(market_index, direction, order_size, false)],
{
    let mut orders: Vec<OrderParams> = Vec::new();
    orders.push(market_order(market_index, direction, order_size, false));
    assert(orders@ =~= seq![market_order_of(market_index, direction, order_size, false)]);
    OrderBatch { cancel: CancelScope::Nothing, orders }
}

/// The batch that reverses a position: a reduce-only market order that
/// closes the old one, then a market order that opens the new one, both in
/// the new direction and of the given size.
pub fn close_and_update(direction: PositionDirection, order_size: u64, market_index: u16) -> (b:
    OrderBatch)
    ensures
        b.cancel == CancelScope::Nothing,
        b.orders@ == seq![
            market_order_of(market_index, direction, order_size, true),
            market_order_of(market_index, direction, order_size, false),
        ],
{
    let mut orders: Vec<OrderParams> = Vec::new();
    orders.push(market_order(market_index, direction, order_size, true));
    orders.push(market_order(market_index, direction, order_size, false));
    assert(orders@ =~= seq![
        market_order_of(market_index, direction, order_size, true),
        market_order_of(market_index, direction, order_size, false),
    ]);
    OrderBatch { cancel: CancelScope::Nothing, orders }
}

} // verus!
