//! The strategy engine: watch for a dump, buy the dumped side (Leg 1), then
//! hedge with the opposite side once the combined cost is low enough (Leg 2).

use crate::config::Config;
use crate::exchange::{opposite_spec, price_of_spec, Exchange, ExchangeError, Order, Side, Ticker, SCALE};
use crate::market::{added, price_ago, PriceBuffer, PricePoint};
use vstd::prelude::*;

verus! {

/// History kept per side, in milliseconds.
pub const BUFFER_WINDOW_MS: i64 = 5000;

/// How far back a dump is measured, in milliseconds.
pub const DUMP_LOOKBACK_MS: i64 = 3000;

/// Engine state in the cycle.
#[derive(Debug, Clone, Copy, PartialEq, Eq, Structural)]
pub enum State {
    Watching,
    Leg1Bought,
    Done,
}

/// What the engine decides to do after observing a tick.
#[derive(Debug, Clone, Copy, PartialEq, Eq, Structural)]
pub enum Action {
    Hold,
    BuyLeg1 { side: Side, price: u64 },
    BuyLeg2 { side: Side, price: u64 },
}

/// What the engine reports to its driver.
#[derive(Debug, Clone)]
pub enum Event {
    /// The ticker could not be fetched; the tick was skipped.
    FetchFailed(ExchangeError),
    /// Leg 1 was filled at `price`.
    Leg1Filled { side: Side, price: u64 },
    /// The Leg 1 order was refused; the engine keeps watching.
    Leg1Failed { side: Side, error: ExchangeError },
    /// Leg 2 was filled and the cycle is complete.
    Leg2Filled { side: Side, price: u64, total_cost: u128, profit_per_share: i128 },
    /// The Leg 2 order was refused; the hedge is evaluated again next tick.
    Leg2Failed { side: Side, error: ExchangeError },
    /// A new round was started.
    CycleReset,
}

/// The price fell from `reference` to `current` by at least `move_pct`
/// (fixed-point) of `reference`. A missing or zero reference is no dump.
pub open spec fn is_dump(reference: Option<u64>, current: u64, move_pct: u64) -> bool {
    match reference {
        Some(r) => r > 0 && (r - current) * SCALE >= move_pct * r,
        None => false,
    }
}

/// The two legs together cost no more than the target sum.
pub open spec fn is_hedge(entry: u64, opposite: u64, sum_target: u64) -> bool {
    entry + opposite <= sum_target
}

/// Leg 1 decision while watching.
pub open spec fn leg1_choice(
    move_pct: u64,
    window: i64,
    round_start: i64,
    now: i64,
    ref_up: Option<u64>,
    up: u64,
    ref_down: Option<u64>,
    down: u64,
) -> Action {
    if now - round_start > window {
        Action::Hold
    } else if is_dump(ref_up, up, move_pct) {
        Action::BuyLeg1 { side: Side::Up, price: up }
    } else if is_dump(ref_down, down, move_pct) {
        Action::BuyLeg1 { side: Side::Down, price: down }
    } else {
        Action::Hold
    }
}

/// Leg 2 decision after buying `side` at `entry`.
pub open spec fn leg2_choice(side: Side, entry: u64, opposite_price: u64, sum_target: u64) -> Action {
    if is_hedge(entry, opposite_price, sum_target) {
        Action::BuyLeg2 {
            side: opposite_spec(side),
            price: opposite_price,
        }
    } else {
        Action::Hold
    }
}

/// Once a cycle is done, no tick leads to an order: the decision is to hold
/// whatever the prices and the time.
pub proof fn lemma_done_holds<E: Exchange>(bot: &Bot<E>, ticker: &Ticker, now: i64)
    requires
        bot.state_spec() == State::Done,
    ensures
        bot.decision(ticker, now) == Action::Hold,
{
}

/// Decides whether `current` is a dump from `reference`.
pub fn detect_dump(reference: Option<u64>, current: u64, move_pct: u64) -> (r: bool)
    ensures
        r == is_dump(reference, current, move_pct),
{
    match reference {
        Some(r) => {
            if r == 0 {
                false
            } else {
                assert(0 <= move_pct as int * r as int <= 0xffff_ffff_ffff_ffff
                    * 0xffff_ffff_ffff_ffff) by (nonlinear_arith)
                    requires
                        move_pct <= 0xffff_ffff_ffff_ffff,
                        r <= 0xffff_ffff_ffff_ffff,
                ;
                if current > r {
                    assert((r - current) * SCALE < 0);
                    false
                } else {
                    let fall: u128 = (r - current) as u128;
                    assert(fall * 1_000_000 <= 0xffff_ffff_ffff_ffff * 1_000_000) by (nonlinear_arith)
                        requires
                            fall <= 0xffff_ffff_ffff_ffff,
                    ;
                    fall * (SCALE as u128) >= move_pct as u128 * r as u128
                }
            }
        },
        None => false,
    }
}

/// Decides whether buying the opposite side at `opposite` hedges a first leg
/// bought at `entry`.
pub fn hedge_ready(entry: u64, opposite: u64, sum_target: u64) -> (r: bool)
    ensures
        r == is_hedge(entry, opposite, sum_target),
{
    entry as u128 + opposite as u128 <= sum_target as u128
}

/// The strategy engine for one market, driving one cycle at a time.
pub struct Bot<E: Exchange> {
    cfg: Config,
    exchange: E,
    state: State,
    buffer_up: PriceBuffer,
    buffer_down: PriceBuffer,
    leg1_side: Option<Side>,
    leg1_entry_price: u64,
    round_start_time: i64,
    events: Vec<Event>,
}

impl<E: Exchange> Bot<E> {
    /// The configuration.
    pub closed spec fn cfg(&self) -> Config {
        self.cfg
    }

    /// The cycle state.
    pub closed spec fn state_spec(&self) -> State {
        self.state
    }

    /// The side bought by Leg 1, if any.
    pub closed spec fn leg1_side_spec(&self) -> Option<Side> {
        self.leg1_side
    }

    /// The confirmed Leg 1 fill price (zero while watching).
    pub closed spec fn entry_price(&self) -> u64 {
        self.leg1_entry_price
    }

    /// When the current round started (milliseconds).
    pub closed spec fn round_start(&self) -> i64 {
        self.round_start_time
    }

    /// The UP price history.
    pub closed spec fn history_up(&self) -> Seq<PricePoint> {
        self.buffer_up.history()
    }

    /// The DOWN price history.
    pub closed spec fn history_down(&self) -> Seq<PricePoint> {
        self.buffer_down.history()
    }

    /// Retention window of the UP history, in milliseconds.
    pub closed spec fn window_up(&self) -> int {
        self.buffer_up.window()
    }

    /// Retention window of the DOWN history, in milliseconds.
    pub closed spec fn window_down(&self) -> int {
        self.buffer_down.window()
    }

    /// Events not yet handed to the driver.
    pub closed spec fn events_spec(&self) -> Seq<Event> {
        self.events@
    }

    /// Well-formedness: buffers keep the fixed window, and a first leg is
    /// recorded exactly when the engine is past watching.
    pub closed spec fn wf(&self) -> bool {
        &&& self.buffer_up.window() == BUFFER_WINDOW_MS
        &&& self.buffer_down.window() == BUFFER_WINDOW_MS
        &&& (self.state == State::Watching) == (self.leg1_side is None)
        &&& self.state == State::Watching ==> self.leg1_entry_price == 0
    }

    /// The decision for a tick at `now` with `ticker`, on the engine's
    /// current cycle and configuration and the histories `up` and `down`.
    pub open spec fn decision_on(
        &self,
        up: Seq<PricePoint>,
        down: Seq<PricePoint>,
        ticker: &Ticker,
        now: i64,
    ) -> Action {
        match self.state_spec() {
            State::Watching => leg1_choice(
                self.cfg().move_pct,
                self.cfg().window_min,
                self.round_start(),
                now,
                price_ago(up, DUMP_LOOKBACK_MS as int, now as int),
                ticker.price_up,
                price_ago(down, DUMP_LOOKBACK_MS as int, now as int),
                ticker.price_down,
            ),
            State::Leg1Bought => {
                let side = self.leg1_side_spec()->Some_0;
                leg2_choice(
                    side,
                    self.entry_price(),
                    price_of_spec(ticker, opposite_spec(side)),
                    self.cfg().sum_target,
                )
            },
            State::Done => Action::Hold,
        }
    }

    /// The decision for a tick at `now` with `ticker`, on the engine's
    /// current state and history.
    pub open spec fn decision(&self, ticker: &Ticker, now: i64) -> Action {
        self.decision_on(self.history_up(), self.history_down(), ticker, now)
    }

    /// The cycle and event log of `self` are what acting on `action` from
    /// `old` leaves: holding changes nothing; an order for a leg either
    /// fills, moving the cycle on and reporting the fill, or is refused,
    /// leaving the cycle and reporting the refusal.
    pub open spec fn follows(&self, old: &Self, action: Action) -> bool {
        let evs = self.events_spec();
        let before = old.events_spec();
        match action {
            Action::Hold => self.same_cycle(old) && evs == before,
            Action::BuyLeg1 { side, price } => {
                &&& evs.len() == before.len() + 1
                &&& evs.drop_last() == before
                &&& match evs.last() {
                    Event::Leg1Filled { side: s, price: p } => {
                        &&& s == side
                        &&& self.state_spec() == State::Leg1Bought
                        &&& self.leg1_side_spec() == Some(side)
                        &&& self.entry_price() == p
                    },
                    Event::Leg1Failed { side: s, error: _ } => s == side && self.same_cycle(old),
                    _ => false,
                }
            },
            Action::BuyLeg2 { side, price } => {
                &&& evs.len() == before.len() + 1
                &&& evs.drop_last() == before
                &&& self.leg1_side_spec() == old.leg1_side_spec()
                &&& self.entry_price() == old.entry_price()
                &&& match evs.last() {
                    Event::Leg2Filled { side: s, price: p, total_cost: c, profit_per_share: q } => {
                        &&& s == side
                        &&& c == old.entry_price() + p
                        &&& q == SCALE - c
                        &&& self.state_spec() == State::Done
                    },
                    Event::Leg2Failed { side: s, error: _ } => s == side && self.same_cycle(old),
                    _ => false,
                }
            },
        }
    }

    /// A tick that fetched `ticker` at `now` took `old` to `self`: both
    /// histories gained the tick's prices, and the cycle and event log
    /// follow the decision on the updated histories.
    pub open spec fn ticked(&self, old: &Self, ticker: &Ticker, now: i64) -> bool {
        let up = added(
            old.history_up(),
            PricePoint { price: ticker.price_up, timestamp: now },
            BUFFER_WINDOW_MS as int,
        );
        let down = added(
            old.history_down(),
            PricePoint { price: ticker.price_down, timestamp: now },
            BUFFER_WINDOW_MS as int,
        );
        &&& self.history_up() == up
        &&& self.history_down() == down
        &&& self.follows(old, old.decision_on(up, down, ticker, now))
    }

    /// Everything but the event log and the cycle fields is as in `old`.
    pub open spec fn same_setup(&self, old: &Self) -> bool {
        &&& self.wf()
        &&& self.cfg() == old.cfg()
        &&& self.round_start() == old.round_start()
        &&& self.history_up() == old.history_up()
        &&& self.history_down() == old.history_down()
    }

    /// The cycle fields are as in `old`.
    pub open spec fn same_cycle(&self, old: &Self) -> bool {
        &&& self.state_spec() == old.state_spec()
        &&& self.leg1_side_spec() == old.leg1_side_spec()
        &&& self.entry_price() == old.entry_price()
    }

    /// Creates an engine in the watching state, starting the round at the
    /// exchange's current time, with empty histories.
    pub fn new(cfg: Config, exchange: E) -> (r: Self)
        ensures
            r.wf(),
            r.cfg() == cfg,
            r.state_spec() == State::Watching,
            r.leg1_side_spec() is None,
            r.entry_price() == 0,
            r.history_up() == Seq::<PricePoint>::empty(),
            r.history_down() == Seq::<PricePoint>::empty(),
            r.window_up() == BUFFER_WINDOW_MS,
            r.window_down() == BUFFER_WINDOW_MS,
            r.events_spec() == Seq::<Event>::empty(),
    {
        let start = exchange.current_time();
        Self::new_at(cfg, exchange, start)
    }

    /// Creates an engine in the watching state, its round starting at
    /// `start`, with empty histories.
    pub fn new_at(cfg: Config, exchange: E, start: i64) -> (r: Self)
        ensures
            r.wf(),
            r.cfg() == cfg,
            r.round_start() == start,
            r.state_spec() == State::Watching,
            r.leg1_side_spec() is None,
            r.entry_price() == 0,
            r.history_up() == Seq::<PricePoint>::empty(),
            r.history_down() == Seq::<PricePoint>::empty(),
            r.window_up() == BUFFER_WINDOW_MS,
            r.window_down() == BUFFER_WINDOW_MS,
            r.events_spec() == Seq::<Event>::empty(),
    {
        Bot {
            cfg,
            exchange,
            state: State::Watching,
            buffer_up: PriceBuffer::new(BUFFER_WINDOW_MS),
            buffer_down: PriceBuffer::new(BUFFER_WINDOW_MS),
            leg1_side: None,
            leg1_entry_price: 0,
            round_start_time: start,
            events: Vec::new(),
        }
    }

    pub fn state(&self) -> (r: State)
        ensures
            r == self.state_spec(),
    {
        self.state
    }

    /// When the current round started (milliseconds).
    pub fn round_start_time(&self) -> (r: i64)
        ensures
            r == self.round_start(),
    {
        self.round_start_time
    }

    pub fn leg1_side(&self) -> (r: Option<Side>)
        ensures
            r == self.leg1_side_spec(),
    {
        self.leg1_side
    }

    /// Hands over the events reported since the last call.
    pub fn take_events(&mut self) -> (r: Vec<Event>)
        requires
            old(self).wf(),
        ensures
            r@ == old(self).events_spec(),
            final(self).events_spec() == Seq::<Event>::empty(),
            final(self).same_setup(old(self)),
            final(self).same_cycle(old(self)),
    {
        let mut r = Vec::new();
        std::mem::swap(&mut r, &mut self.events);
        r
    }

    /// Starts a new round: back to watching, with no first leg, the round
    /// starting at the exchange's current time. The histories are kept.
    pub fn reset_cycle(&mut self)
        requires
            old(self).wf(),
        ensures
            final(self).wf(),
            final(self).state_spec() == State::Watching,
            final(self).leg1_side_spec() is None,
            final(self).entry_price() == 0,
            final(self).cfg() == old(self).cfg(),
            final(self).history_up() == old(self).history_up(),
            final(self).history_down() == old(self).history_down(),
            final(self).events_spec() == old(self).events_spec().push(Event::CycleReset),
    {
        let now = self.exchange.current_time();
        self.restart_at(now);
    }

    /// Starts a new round at `now`: back to watching, with no first leg.
    /// The histories are kept.
    pub fn restart_at(&mut self, now: i64)
        requires
            old(self).wf(),
        ensures
            final(self).wf(),
            final(self).round_start() == now,
            final(self).state_spec() == State::Watching,
            final(self).leg1_side_spec() is None,
            final(self).entry_price() == 0,
            final(self).cfg() == old(self).cfg(),
            final(self).history_up() == old(self).history_up(),
            final(self).history_down() == old(self).history_down(),
            final(self).events_spec() == old(self).events_spec().push(Event::CycleReset),
    {
        self.events.push(Event::CycleReset);
        self.state = State::Watching;
        self.leg1_side = None;
        self.leg1_entry_price = 0;
        self.round_start_time = now;
    }

    /// Records a tick's prices at `now` in both histories and decides what
    /// to do on the updated history.
    pub fn observe(&mut self, ticker: &Ticker, now: i64) -> (r: Action)
        requires
            old(self).wf(),
        ensures
            final(self).wf(),
            final(self).cfg() == old(self).cfg(),
            final(self).round_start() == old(self).round_start(),
            final(self).same_cycle(old(self)),
            final(self).events_spec() == old(self).events_spec(),
            final(self).history_up() == crate::market::added(
                old(self).history_up(),
                PricePoint { price: ticker.price_up, timestamp: now },
                BUFFER_WINDOW_MS as int,
            ),
            final(self).history_down() == crate::market::added(
                old(self).history_down(),
                PricePoint { price: ticker.price_down, timestamp: now },
                BUFFER_WINDOW_MS as int,
            ),
            r == final(self).decision(ticker, now),
    {
        self.buffer_up.add(ticker.price_up, now);
        self.buffer_down.add(ticker.price_down, now);
        match self.state {
            State::Watching => self.check_leg1(ticker, now),
            State::Leg1Bought => self.check_leg2(ticker),
            State::Done => Action::Hold,
        }
    }

    /// Applies the outcome of a Leg 1 order for `side`: a fill moves the
    /// engine to `Leg1Bought` at the confirmed price; a refusal leaves the
    /// cycle as it was. Either way the outcome is reported.
    pub fn apply_leg1_result(&mut self, side: Side, result: Result<Order, ExchangeError>)
        requires
            old(self).wf(),
            old(self).state_spec() == State::Watching,
        ensures
            final(self).same_setup(old(self)),
            match result {
                Ok(o) => {
                    &&& final(self).state_spec() == State::Leg1Bought
                    &&& final(self).leg1_side_spec() == Some(side)
                    &&& final(self).entry_price() == o.price
                    &&& final(self).events_spec() == old(self).events_spec().push(
                        Event::Leg1Filled { side, price: o.price },
                    )
                },
                Err(e) => {
                    &&& final(self).same_cycle(old(self))
                    &&& final(self).events_spec() == old(self).events_spec().push(
                        Event::Leg1Failed { side, error: e },
                    )
                },
            },
    {
        match result {
            Ok(order) => {
                self.leg1_side = Some(side);
                self.leg1_entry_price = order.price;
                self.state = State::Leg1Bought;
                self.events.push(Event::Leg1Filled { side, price: order.price });
            },
            Err(error) => {
                self.events.push(Event::Leg1Failed { side, error });
            },
        }
    }

    /// Applies the outcome of a Leg 2 order for `side`: a fill completes the
    /// cycle and reports its total cost and profit per share; a refusal
    /// leaves the cycle as it was and is reported.
    pub fn apply_leg2_result(&mut self, side: Side, result: Result<Order, ExchangeError>)
        requires
            old(self).wf(),
            old(self).state_spec() == State::Leg1Bought,
        ensures
            final(self).same_setup(old(self)),
            final(self).leg1_side_spec() == old(self).leg1_side_spec(),
            final(self).entry_price() == old(self).entry_price(),
            match result {
                Ok(o) => {
                    &&& final(self).state_spec() == State::Done
                    &&& final(self).events_spec() == old(self).events_spec().push(
                        Event::Leg2Filled {
                            side,
                            price: o.price,
                            total_cost: (old(self).entry_price() + o.price) as u128,
                            profit_per_share: (SCALE - (old(self).entry_price() + o.price)) as i128,
                        },
                    )
                },
                Err(e) => {
                    &&& final(self).state_spec() == State::Leg1Bought
                    &&& final(self).events_spec() == old(self).events_spec().push(
                        Event::Leg2Failed { side, error: e },
                    )
                },
            },
    {
        match result {
            Ok(order) => {
                let total_cost: u128 = self.leg1_entry_price as u128 + order.price as u128;
                let profit_per_share: i128 = SCALE as i128 - total_cost as i128;
                self.state = State::Done;
                self.events.push(
                    Event::Leg2Filled { side, price: order.price, total_cost, profit_per_share },
                );
            },
            Err(error) => {
                self.events.push(Event::Leg2Failed { side, error });
            },
        }
    }

    /// Submits Leg 1: `cfg.shares` units of `side` at `price`.
    fn execute_leg1(&mut self, side: Side, price: u64)
        requires
            old(self).wf(),
            old(self).state_spec() == State::Watching,
        ensures
            final(self).same_setup(old(self)),
            final(self).follows(old(self), Action::BuyLeg1 { side, price }),
    {
        let result = self.exchange.place_order(self.cfg.market_id.as_str(), side, self.cfg.shares, price);
        let ghost before = self.events_spec();
        self.apply_leg1_result(side, result);
        assert(self.events_spec().drop_last() =~= before);
    }

    /// Submits Leg 2: `cfg.shares` units of `side` at `price`.
    fn execute_leg2(&mut self, side: Side, price: u64)
        requires
            old(self).wf(),
            old(self).state_spec() == State::Leg1Bought,
        ensures
            final(self).same_setup(old(self)),
            final(self).follows(old(self), Action::BuyLeg2 { side, price }),
    {
        let result = self.exchange.place_order(self.cfg.market_id.as_str(), side, self.cfg.shares, price);
        let ghost before = self.events_spec();
        self.apply_leg2_result(side, result);
        assert(self.events_spec().drop_last() =~= before);
    }

    /// Runs one tick: fetches the time and prices, records them, and acts on
    /// the decision, placing at most one order. A failed fetch is reported
    /// and changes nothing else.
    pub fn run_tick(&mut self)
        requires
            old(self).wf(),
        ensures
            final(self).wf(),
            final(self).cfg() == old(self).cfg(),
            final(self).round_start() == old(self).round_start(),
            ({
                ||| {
                    &&& final(self).same_cycle(old(self))
                    &&& final(self).history_up() == old(self).history_up()
                    &&& final(self).history_down() == old(self).history_down()
                    &&& final(self).events_spec().len() == old(self).events_spec().len() + 1
                    &&& final(self).events_spec().drop_last() == old(self).events_spec()
                    &&& final(self).events_spec().last() is FetchFailed
                }
                ||| exists|t: Ticker, now: i64| #[trigger] final(self).ticked(old(self), &t, now)
            }),
            old(self).state_spec() == State::Done ==> final(self).same_cycle(old(self)),
    {
        let now = self.exchange.current_time();
        let ticker = match self.exchange.get_ticker(self.cfg.market_id.as_str()) {
            Ok(t) => t,
            Err(e) => {
                self.events.push(Event::FetchFailed(e));
                return;
            },
        };
        let ghost before = *self;
        let action = self.observe(&ticker, now);
        match action {
            Action::Hold => {},
            Action::BuyLeg1 { side, price } => self.execute_leg1(side, price),
            Action::BuyLeg2 { side, price } => self.execute_leg2(side, price),
        }
        assert(self.ticked(&before, &ticker, now));
    }

    /// Dump detection: within the round's entry window, a dump on UP opens
    /// Leg 1 on UP; otherwise a dump on DOWN opens it on DOWN.
    fn check_leg1(&self, ticker: &Ticker, now: i64) -> (r: Action)
        requires
            self.wf(),
            self.state_spec() == State::Watching,
        ensures
            r == self.decision(ticker, now),
    {
        let elapsed: i128 = now as i128 - self.round_start_time as i128;
        if elapsed > self.cfg.window_min as i128 {
            return Action::Hold;
        }
        let up_ago = self.buffer_up.get_price_ago(DUMP_LOOKBACK_MS, now);
        if detect_dump(up_ago, ticker.price_up, self.cfg.move_pct) {
            return Action::BuyLeg1 { side: Side::Up, price: ticker.price_up };
        }
        let down_ago = self.buffer_down.get_price_ago(DUMP_LOOKBACK_MS, now);
        if detect_dump(down_ago, ticker.price_down, self.cfg.move_pct) {
            Action::BuyLeg1 { side: Side::Down, price: ticker.price_down }
        } else {
            Action::Hold
        }
    }

    /// Hedge detection: the opposite side is bought once both legs together
    /// cost no more than the target sum.
    fn check_leg2(&self, ticker: &Ticker) -> (r: Action)
        requires
            self.wf(),
            self.state_spec() == State::Leg1Bought,
        ensures
            forall|now: i64| r == #[trigger] self.decision(ticker, now),
    {
        let side = match self.leg1_side {
            Some(s) => s,
            None => return Action::Hold,
        };
        let opposite_side = side.opposite();
        let opposite_price = ticker.price_of(opposite_side);
        if hedge_ready(self.leg1_entry_price, opposite_price, self.cfg.sum_target) {
            Action::BuyLeg2 { side: opposite_side, price: opposite_price }
        } else {
            Action::Hold
        }
    }
}

} // verus!
