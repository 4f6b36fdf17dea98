//! Decision engine of an oracle-tracking market maker for one perpetual
//! futures market: when to refresh quotes, where to place them, how large
//! to make them, and what to send on shutdown. All quantities are integers
//! in fixed-point units. The controller performs no I/O and reads no clock:
//! its driver hands it every price, position and time, and carries out what
//! it asks for. The wall clock is offered apart, for drivers that want it.

pub mod clock;
pub mod config;
pub mod cycle;
pub mod fixed;
pub mod gate;
pub mod maker;
pub mod market;
pub mod orders;
pub mod quote;
pub mod shutdown;
pub mod signal;
pub mod sizing;
pub mod skew;
