//! Polymarket CLOB client (stub: live trading is not wired in).

use super::{Exchange, ExchangeError, Order, Side, Ticker};
use vstd::prelude::*;

verus! {

/// Polymarket CLOB client.
pub struct PolymarketClient {
    pub base_url: String,
    pub market_id: String,
}

/// Relies on chrono's `Utc::now` and `DateTime::timestamp_millis`: the
/// current wall-clock time in milliseconds since the Unix epoch.
#[verifier::external_body]
fn now_millis() -> (r: i64) {
    chrono::Utc::now().timestamp_millis()
}

impl PolymarketClient {
    /// Creates a client for the public CLOB endpoint. The credentials are
    /// accepted for signing requests once live trading is wired in.
    pub fn new(
        api_key: &str,
        secret: &str,
        passphrase: &str,
        private_key_hex: &str,
        funder_addr: &str,
    ) -> (r: Result<Self, ExchangeError>)
        ensures
            r is Ok,
            r->Ok_0.base_url@ == "https://clob.polymarket.com"@,
            r->Ok_0.market_id@ == Seq::<char>::empty(),
    {
        Ok(PolymarketClient { base_url: "https://clob.polymarket.com".to_string(), market_id: String::new() })
    }
}

/// Live trading is not wired in: fetching and ordering report a fetch error.
impl Exchange for PolymarketClient {
    fn get_ticker(&self, market_id: &str) -> (r: Result<Ticker, ExchangeError>)
        ensures
            r is Err && r->Err_0 is Fetch,
    {
        Err(
            ExchangeError::Fetch(
                "Polymarket live GetTicker not implemented; use MockExchange for simulation".to_string(),
            ),
        )
    }

    fn place_order(&self, market_id: &str, side: Side, size: u64, price: u64) -> (r: Result<
        Order,
        ExchangeError,
    >)
        ensures
            r is Err && r->Err_0 is Fetch,
    {
        Err(
            ExchangeError::Fetch(
                "Polymarket PlaceOrder not implemented; use MockExchange for simulation".to_string(),
            ),
        )
    }

    fn current_time(&self) -> (r: i64) {
        now_millis()
    }
}

} // verus!
