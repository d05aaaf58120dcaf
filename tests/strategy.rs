use poly::config::Config;
use poly::exchange::{Exchange, ExchangeError, Order, Side, Ticker, SCALE};
use poly::strategy::{detect_dump, hedge_ready, Action, Bot, Event, State};
use std::cell::Cell;

const START: i64 = 1_700_000_000_000;

/// A scripted market: prices and time are set by the test.
struct ScriptedExchange {
    time: Cell<i64>,
    up: Cell<u64>,
    down: Cell<u64>,
    fetch_fails: Cell<bool>,
    orders: Cell<u32>,
}

impl ScriptedExchange {
    fn new() -> Self {
        ScriptedExchange {
            time: Cell::new(START),
            up: Cell::new(500_000),
            down: Cell::new(500_000),
            fetch_fails: Cell::new(false),
            orders: Cell::new(0),
        }
    }

    fn set_price(&self, up: u64, down: u64) {
        self.up.set(up);
        self.down.set(down);
    }

    fn advance_time(&self, ms: i64) {
        self.time.set(self.time.get() + ms);
    }
}

impl Exchange for &ScriptedExchange {
    fn get_ticker(&self, market_id: &str) -> Result<Ticker, ExchangeError> {
        if self.fetch_fails.get() {
            return Err(ExchangeError::Fetch("offline".to_string()));
        }
        Ok(Ticker {
            market_id: market_id.to_string(),
            price_up: self.up.get(),
            price_down: self.down.get(),
            timestamp: self.time.get(),
        })
    }

    fn place_order(
        &self,
        market_id: &str,
        side: Side,
        size: u64,
        price: u64,
    ) -> Result<Order, ExchangeError> {
        self.orders.set(self.orders.get() + 1);
        if size == 0 {
            return Err(ExchangeError::InvalidSize);
        }
        Ok(Order {
            id: "order".to_string(),
            market_id: market_id.to_string(),
            side,
            price,
            size,
            timestamp: self.time.get(),
        })
    }

    fn current_time(&self) -> i64 {
        self.time.get()
    }
}

fn test_config() -> Config {
    let mut cfg = Config::default();
    cfg.move_pct = 100_000;
    cfg.sum_target = 960_000;
    cfg
}

#[test]
fn test_bot_logic() {
    let cfg = test_config();

    let mock_exc = ScriptedExchange::new();
    let mut bot = Bot::new(cfg, &mock_exc);

    mock_exc.set_price(500_000, 500_000);
    bot.run_tick();

    mock_exc.advance_time(3000);
    bot.run_tick();

    mock_exc.advance_time(1000);
    mock_exc.set_price(400_000, 550_000);
    bot.run_tick();

    assert_eq!(bot.state(), State::Leg1Bought);
    assert_eq!(bot.leg1_side(), Some(Side::Up));

    bot.run_tick();

    assert_eq!(bot.state(), State::Done);
}

#[test]
fn dump_three_seconds_later_opens_leg1_on_up() {
    let mock = ScriptedExchange::new();
    let mut bot = Bot::new(test_config(), &mock);
    mock.set_price(500_000, 500_000);
    bot.run_tick();
    mock.advance_time(3000);
    mock.set_price(400_000, 600_000);
    bot.run_tick();
    assert_eq!(bot.state(), State::Leg1Bought);
    assert_eq!(bot.leg1_side(), Some(Side::Up));
    let events = bot.take_events();
    assert_eq!(events.len(), 1);
    assert!(matches!(events[0], Event::Leg1Filled { side: Side::Up, price: 400_000 }));
    assert!(bot.take_events().is_empty());
}

#[test]
fn small_drop_does_not_open_leg1() {
    let mock = ScriptedExchange::new();
    let mut bot = Bot::new(test_config(), &mock);
    mock.set_price(500_000, 500_000);
    bot.run_tick();
    mock.advance_time(3000);
    // A 9.8% drop is under the 10% threshold.
    mock.set_price(451_000, 500_000);
    bot.run_tick();
    assert_eq!(bot.state(), State::Watching);
    assert_eq!(mock.orders.get(), 0);
}

#[test]
fn dump_on_down_opens_leg1_on_down() {
    let mock = ScriptedExchange::new();
    let mut bot = Bot::new(test_config(), &mock);
    bot.run_tick();
    mock.advance_time(3000);
    mock.set_price(520_000, 300_000);
    bot.run_tick();
    assert_eq!(bot.state(), State::Leg1Bought);
    assert_eq!(bot.leg1_side(), Some(Side::Down));
}

#[test]
fn no_dump_after_entry_window() {
    let mut cfg = test_config();
    cfg.window_min = 2000;
    let mock = ScriptedExchange::new();
    let mut bot = Bot::new(cfg, &mock);
    bot.run_tick();
    mock.advance_time(3000);
    mock.set_price(100_000, 500_000);
    bot.run_tick();
    assert_eq!(bot.state(), State::Watching);
    assert_eq!(mock.orders.get(), 0);
}

fn bot_in_leg1<'a>(mock: &'a ScriptedExchange) -> Bot<&'a ScriptedExchange> {
    let mut bot = Bot::new(test_config(), mock);
    mock.set_price(500_000, 700_000);
    bot.run_tick();
    mock.advance_time(3000);
    mock.set_price(400_000, 700_000);
    bot.run_tick();
    assert_eq!(bot.state(), State::Leg1Bought);
    bot
}

#[test]
fn hedge_below_target_completes_cycle() {
    let mock = ScriptedExchange::new();
    let mut bot = bot_in_leg1(&mock);
    bot.take_events();
    mock.advance_time(1000);
    mock.set_price(400_000, 550_000);
    bot.run_tick();
    assert_eq!(bot.state(), State::Done);
    let events = bot.take_events();
    assert_eq!(events.len(), 1);
    match &events[0] {
        Event::Leg2Filled { side, price, total_cost, profit_per_share } => {
            assert_eq!(*side, Side::Down);
            assert_eq!(*price, 550_000);
            assert_eq!(*total_cost, 950_000);
            assert_eq!(*profit_per_share, 50_000);
        }
        other => panic!("unexpected event {:?}", other),
    }
}

#[test]
fn hedge_above_target_keeps_waiting() {
    let mock = ScriptedExchange::new();
    let mut bot = bot_in_leg1(&mock);
    mock.advance_time(1000);
    mock.set_price(400_000, 600_000);
    bot.run_tick();
    assert_eq!(bot.state(), State::Leg1Bought);
    assert_eq!(bot.leg1_side(), Some(Side::Up));
    assert_eq!(mock.orders.get(), 1);
}

#[test]
fn reset_returns_to_watching_from_every_state() {
    let mock = ScriptedExchange::new();
    let mut bot = bot_in_leg1(&mock);
    bot.reset_cycle();
    assert_eq!(bot.state(), State::Watching);
    assert_eq!(bot.leg1_side(), None);
    bot.reset_cycle();
    assert_eq!(bot.state(), State::Watching);
    assert_eq!(bot.leg1_side(), None);

    let mut done = bot_in_leg1(&mock);
    mock.set_price(400_000, 500_000);
    done.run_tick();
    assert_eq!(done.state(), State::Done);
    done.reset_cycle();
    assert_eq!(done.state(), State::Watching);
    assert_eq!(done.leg1_side(), None);
    assert!(matches!(done.take_events().last(), Some(Event::CycleReset)));
}

#[test]
fn done_ignores_further_ticks() {
    let mock = ScriptedExchange::new();
    let mut bot = bot_in_leg1(&mock);
    mock.set_price(400_000, 500_000);
    bot.run_tick();
    assert_eq!(bot.state(), State::Done);
    let orders = mock.orders.get();
    bot.take_events();
    for _ in 0..5 {
        mock.advance_time(3000);
        mock.set_price(100_000, 100_000);
        bot.run_tick();
        assert_eq!(bot.state(), State::Done);
    }
    assert_eq!(mock.orders.get(), orders);
    assert!(bot.take_events().is_empty());
}

#[test]
fn failed_fetch_changes_nothing() {
    let mock = ScriptedExchange::new();
    let mut bot = Bot::new(test_config(), &mock);
    mock.fetch_fails.set(true);
    bot.run_tick();
    assert_eq!(bot.state(), State::Watching);
    let events = bot.take_events();
    assert!(matches!(&events[0], Event::FetchFailed(ExchangeError::Fetch(m)) if m == "offline"));
}

#[test]
fn refused_leg1_order_keeps_watching() {
    let mut cfg = test_config();
    cfg.shares = 0;
    let mock = ScriptedExchange::new();
    let mut bot = Bot::new(cfg, &mock);
    bot.run_tick();
    mock.advance_time(3000);
    mock.set_price(400_000, 600_000);
    bot.run_tick();
    assert_eq!(bot.state(), State::Watching);
    assert_eq!(bot.leg1_side(), None);
    let events = bot.take_events();
    assert!(matches!(
        events[0],
        Event::Leg1Failed { side: Side::Up, error: ExchangeError::InvalidSize }
    ));
}

#[test]
fn apply_leg2_failure_stays_in_leg1() {
    let mock = ScriptedExchange::new();
    let mut bot = bot_in_leg1(&mock);
    bot.apply_leg2_result(Side::Down, Err(ExchangeError::InvalidSize));
    assert_eq!(bot.state(), State::Leg1Bought);
}

#[test]
fn dump_rule_values() {
    assert!(detect_dump(Some(500_000), 400_000, 100_000));
    assert!(detect_dump(Some(500_000), 450_000, 100_000));
    assert!(!detect_dump(Some(500_000), 450_001, 100_000));
    assert!(!detect_dump(Some(0), 0, 0));
    assert!(!detect_dump(None, 1, 0));
    assert!(!detect_dump(Some(400_000), 500_000, 0));
    assert!(detect_dump(Some(u64::MAX), 0, SCALE));
}

#[test]
fn hedge_rule_values() {
    assert!(hedge_ready(400_000, 550_000, 960_000));
    assert!(hedge_ready(400_000, 560_000, 960_000));
    assert!(!hedge_ready(400_000, 600_000, 960_000));
    assert!(!hedge_ready(u64::MAX, u64::MAX, u64::MAX));
}

#[test]
fn observe_returns_decision() {
    let mock = ScriptedExchange::new();
    let mut bot = Bot::new(test_config(), &mock);
    let t = |up: u64, down: u64| Ticker { market_id: String::new(), price_up: up, price_down: down, timestamp: 0 };
    assert_eq!(bot.observe(&t(500_000, 500_000), START), Action::Hold);
    assert_eq!(
        bot.observe(&t(400_000, 500_000), START + 3000),
        Action::BuyLeg1 { side: Side::Up, price: 400_000 }
    );
}

#[test]
fn default_config_values() {
    let cfg = Config::default();
    assert_eq!(cfg.shares, 20 * SCALE);
    assert_eq!(cfg.sum_target, 950_000);
    assert_eq!(cfg.move_pct, 150_000);
    assert_eq!(cfg.window_min, 120_000);
    assert_eq!(cfg.poll_interval, 1000);
}

#[test]
fn side_labels_and_opposites() {
    assert_eq!(Side::Up.label(), "UP");
    assert_eq!(Side::Down.label(), "DOWN");
    assert_eq!(Side::Up.opposite(), Side::Down);
    assert_eq!(Side::Down.opposite(), Side::Up);
}

#[test]
fn new_starts_round_at_exchange_time() {
    let mock = ScriptedExchange::new();
    mock.advance_time(42);
    let bot = Bot::new(test_config(), &mock);
    assert_eq!(bot.round_start_time(), START + 42);
    assert_eq!(bot.state(), State::Watching);
}

#[test]
fn new_at_uses_given_start() {
    let mock = ScriptedExchange::new();
    // A round that started long before the first tick has no entry window left.
    let mut bot = Bot::new_at(test_config(), &mock, START - 1_000_000);
    assert_eq!(bot.round_start_time(), START - 1_000_000);
    bot.run_tick();
    mock.advance_time(3000);
    mock.set_price(100_000, 500_000);
    bot.run_tick();
    assert_eq!(bot.state(), State::Watching);
    assert_eq!(mock.orders.get(), 0);
}

#[test]
fn restart_at_twice_agrees_with_once() {
    let mock = ScriptedExchange::new();
    let mut once = bot_in_leg1(&mock);
    let mut twice = bot_in_leg1(&mock);
    once.restart_at(START + 77);
    twice.restart_at(START + 77);
    twice.restart_at(START + 77);
    for bot in [&once, &twice] {
        assert_eq!(bot.state(), State::Watching);
        assert_eq!(bot.leg1_side(), None);
        assert_eq!(bot.round_start_time(), START + 77);
    }
}

#[test]
fn reset_cycle_restarts_round_at_exchange_time() {
    let mock = ScriptedExchange::new();
    let mut bot = bot_in_leg1(&mock);
    mock.advance_time(500);
    bot.reset_cycle();
    assert_eq!(bot.round_start_time(), mock.time.get());
    // A fresh dump after the reset opens Leg 1 again, once the earlier
    // samples have left the history.
    mock.advance_time(6000);
    mock.set_price(500_000, 500_000);
    bot.run_tick();
    assert_eq!(bot.state(), State::Watching);
    mock.advance_time(3000);
    mock.set_price(500_000, 400_000);
    bot.run_tick();
    assert_eq!(bot.state(), State::Leg1Bought);
    assert_eq!(bot.leg1_side(), Some(Side::Down));
}
