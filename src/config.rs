//! Strategy and system configuration.

use crate::exchange::SCALE;
use vstd::prelude::*;

verus! {

/// Strategy parameters. Fractions and sizes are fixed-point with
/// [`SCALE`] units per whole; durations are milliseconds.
#[derive(Debug, Clone)]
pub struct Config {
    /// Position size of each leg (e.g. 20 shares).
    pub shares: u64,
    /// Hedge threshold on the sum of both legs' prices (e.g. 0.95).
    pub sum_target: u64,
    /// Dump threshold as a fraction of the earlier price (e.g. 0.15 for 15%).
    pub move_pct: u64,
    /// How long after a round starts a dump may open Leg 1.
    pub window_min: i64,
    /// Fee rate for simulation (e.g. 0.001).
    pub fee_rate: u64,
    /// The market to trade.
    pub market_id: String,
    /// How often the driver ticks the engine.
    pub poll_interval: i64,
}

impl Default for Config {
    fn default() -> (r: Self)
        ensures
            r.shares == 20 * SCALE,
            r.sum_target == 950_000,
            r.move_pct == 150_000,
            r.window_min == 120_000,
            r.fee_rate == 0,
            r.market_id@ == Seq::<char>::empty(),
            r.poll_interval == 1000,
    {
        Config {
            shares: 20 * SCALE,
            sum_target: 950_000,
            move_pct: 150_000,
            window_min: 120_000,
            fee_rate: 0,
            market_id: String::new(),
            poll_interval: 1000,
        }
    }
}

} // verus!
