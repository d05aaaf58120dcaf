//! Exchange abstraction: the types the engine trades in and the capability
//! set it needs from a market venue.

use vstd::prelude::*;

mod polymarket;

pub use polymarket::PolymarketClient;

verus! {

/// Fixed-point units per whole: prices, fractions and sizes are integers in
/// millionths.
pub const SCALE: u64 = 1_000_000;

/// Outcome side (UP/DOWN or YES/NO).
#[derive(Debug, Clone, Copy, PartialEq, Eq, Structural)]
pub enum Side {
    Up,
    Down,
}

/// The side whose outcome complements `side`.
pub open spec fn opposite_spec(side: Side) -> Side {
    match side {
        Side::Up => Side::Down,
        Side::Down => Side::Up,
    }
}

impl Side {
    /// The side whose outcome complements this one.
    pub fn opposite(self) -> (r: Side)
        ensures
            r == opposite_spec(self),
    {
        match self {
            Side::Up => Side::Down,
            Side::Down => Side::Up,
        }
    }

    /// Display name of the side.
    pub fn label(self) -> (r: &'static str)
        ensures
            self == Side::Up ==> r@ == "UP"@,
            self == Side::Down ==> r@ == "DOWN"@,
    {
        match self {
            Side::Up => "UP",
            Side::Down => "DOWN",
        }
    }
}

/// A confirmed trade order.
#[derive(Debug, Clone)]
pub struct Order {
    pub id: String,
    pub market_id: String,
    pub side: Side,
    /// Confirmed fill price.
    pub price: u64,
    pub size: u64,
    /// Milliseconds since the Unix epoch.
    pub timestamp: i64,
}

/// Current best prices for both sides.
#[derive(Debug, Clone)]
pub struct Ticker {
    pub market_id: String,
    pub price_up: u64,
    pub price_down: u64,
    /// Milliseconds since the Unix epoch.
    pub timestamp: i64,
}

impl Ticker {
    /// Current price of `side`.
    pub fn price_of(&self, side: Side) -> (r: u64)
        ensures
            r == price_of_spec(self, side),
    {
        match side {
            Side::Up => self.price_up,
            Side::Down => self.price_down,
        }
    }
}

/// Price of `side` in ticker `t`.
pub open spec fn price_of_spec(t: &Ticker, side: Side) -> u64 {
    match side {
        Side::Up => t.price_up,
        Side::Down => t.price_down,
    }
}

/// Failures reported by an exchange.
#[derive(Debug, Clone, PartialEq, Eq)]
pub enum ExchangeError {
    /// The order size was not positive.
    InvalidSize,
    /// Prices or orders could not be fetched or submitted.
    Fetch(String),
}

/// The capability set the engine needs from a market venue.
pub trait Exchange {
    /// Returns the latest prices.
    fn get_ticker(&self, market_id: &str) -> Result<Ticker, ExchangeError>;

    /// Places a buy order for `size` units of `side` at `price`.
    fn place_order(&self, market_id: &str, side: Side, size: u64, price: u64) -> Result<
        Order,
        ExchangeError,
    >;

    /// Returns the exchange time in milliseconds since the Unix epoch.
    fn current_time(&self) -> i64;
}

} // verus!
