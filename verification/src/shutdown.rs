//! Shutdown: cancel what rests, flatten what is held, leave the feeds. Each
//! step is attempted whatever became of the one before it.

use vstd::prelude::*;
use crate::market::PerpPosition;
use crate::orders::{close_order, close_order_of, OrderParams};

verus! {

/// One step of a shutdown.
#[derive(Clone, Copy, Debug, PartialEq, Eq)]
pub enum ShutdownStep {
    /// Cancel every resting order.
    CancelAllOrders,
    /// Submit this reduce-only market order, which closes the position.
    Flatten(OrderParams),
    /// Unsubscribe from the data feeds.
    Unsubscribe,
}

/// The steps of a shutdown, in order: the cancellation, then one flattening
/// order if a position is known and is not flat, then the unsubscription.
pub open spec fn shutdown_plan_of(market_index: u16, position: Option<i64>) -> Seq<ShutdownStep> {
    if position.is_some() && position.unwrap() != 0 {
        seq![
            ShutdownStep::CancelAllOrders,
            ShutdownStep::Flatten(
                close_order_of(PerpPosition { market_index, base_asset_amount: position.unwrap() }),
            ),
            ShutdownStep::Unsubscribe,
        ]
    } else {
        seq![ShutdownStep::CancelAllOrders, ShutdownStep::Unsubscribe]
    }
}

/// Plans a shutdown for the position held in a market. `None` stands for a
/// position that could not be read; nothing is flattened then.
pub fn cancel_and_flatten(market_index: u16, position: Option<i64>) -> (plan: Vec<ShutdownStep>)
    ensures
        plan@ == shutdown_plan_of(market_index, position),
{
    let mut plan: Vec<ShutdownStep> = Vec::new();
    plan.push(ShutdownStep::CancelAllOrders);
    match position {
        Some(amount) => {
            match close_order(PerpPosition { market_index, base_asset_amount: amount }) {
                Some(order) => {
                    plan.push(ShutdownStep::Flatten(order));
                },
                None => {},
            }
        },
        None => {},
    }
    plan.push(ShutdownStep::Unsubscribe);
    assert(plan@ =~= shutdown_plan_of(market_index, position));
    plan
}

/// The place of the step to attempt after the step at `index`, in a plan of
/// `len` steps, or `None` after the last. Whether the step at `index`
/// succeeded makes no difference.
pub fn step_after(len: usize, index: usize, succeeded: bool) -> (next: Option<usize>)
    ensures
        index + 1 < len ==> next == Some((index + 1) as usize),
        index + 1 >= len ==> next.is_none(),
{
    if index < len && len - index > 1 {
        Some(index + 1)
    } else {
        None
    }
}

} // verus!
