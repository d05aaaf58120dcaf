//! Signal detection and decision engine for a two-leg hedged strategy on a
//! binary-outcome market.
//!
//! Prices, percentages and sizes are fixed-point integers with
//! [`exchange::SCALE`] units per whole (so `500_000` is `0.50`); instants and
//! durations are integers in milliseconds.

pub mod config;
pub mod exchange;
pub mod market;
pub mod strategy;
