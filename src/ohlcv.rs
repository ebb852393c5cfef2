//! Bars: OHLCV aggregation of ticks over aligned time windows.
use vstd::prelude::*;
use crate::error::MarketDataError;
use crate::tick::{lemma_quotient_bound, lemma_quotient_magnitude, lemma_turnover_bounds, Tick, PRICE_SCALE};
use crate::window::pushed_window;

verus! {

/// Length of a bar.
#[derive(Debug, Clone, Copy, PartialEq, Eq, Hash, Structural)]
pub enum BarPeriod {
    Minute1,
    Minute5,
    Minute15,
    Minute30,
    Minute60,
    Daily,
}

impl BarPeriod {
    /// Length of the period in seconds.
    pub open spec fn spec_seconds(self) -> int {
        match self {
            BarPeriod::Minute1 => 60,
            BarPeriod::Minute5 => 300,
            BarPeriod::Minute15 => 900,
            BarPeriod::Minute30 => 1800,
            BarPeriod::Minute60 => 3600,
            BarPeriod::Daily => 86400,
        }
    }

    /// Length of the period in seconds.
    pub fn seconds(&self) -> (r: i64)
        ensures
            r == self.spec_seconds(),
            r > 0,
    {
        match self {
            BarPeriod::Minute1 => 60,
            BarPeriod::Minute5 => 300,
            BarPeriod::Minute15 => 900,
            BarPeriod::Minute30 => 1800,
            BarPeriod::Minute60 => 3600,
            BarPeriod::Daily => 86400,
        }
    }
}

/// Length of a period in milliseconds.
pub open spec fn period_millis(p: BarPeriod) -> int {
    p.spec_seconds() * 1000
}

/// Start of the window of period `p` that holds the instant `ts` (epoch
/// milliseconds): the largest multiple of the period not after `ts`.
pub open spec fn aligned_start(ts: int, p: BarPeriod) -> int {
    ts - ts % period_millis(p)
}

/// `aligned_start`, or `ts` itself where the start would precede the earliest
/// representable instant.
pub open spec fn spec_align(ts: i64, p: BarPeriod) -> i64 {
    if aligned_start(ts as int, p) >= i64::MIN {
        aligned_start(ts as int, p) as i64
    } else {
        ts
    }
}

/// For every instant not within one period of the earliest representable one,
/// the aligned start is a whole multiple of the period (in seconds as in
/// milliseconds), and the instant falls in the window that starts there.
pub proof fn lemma_alignment(ts: i64, p: BarPeriod)
    requires
        ts >= i64::MIN + period_millis(p),
    ensures
        spec_align(ts, p) as int % period_millis(p) == 0,
        (spec_align(ts, p) as int / 1000) % p.spec_seconds() == 0,
        spec_align(ts, p) % 1000 == 0,
        spec_align(ts, p) <= ts < spec_align(ts, p) + period_millis(p),
{
    let m = period_millis(p);
    let a = aligned_start(ts as int, p);
    assert(m > 0);
    vstd::arithmetic::div_mod::lemma_fundamental_div_mod(ts as int, m);
    let q = (ts as int) / m;
    assert(a == m * q);
    assert(0 <= (ts as int) % m < m);
    assert(spec_align(ts, p) == a);
    vstd::arithmetic::div_mod::lemma_mod_multiples_basic(q, m);
    assert((m * q) % m == 0) by {
        vstd::arithmetic::mul::lemma_mul_is_commutative(m, q);
    }
    let s = p.spec_seconds();
    assert(m * q == 1000 * (s * q)) by (nonlinear_arith)
        requires
            m == s * 1000,
    ;
    vstd::arithmetic::div_mod::lemma_div_multiples_vanish(s * q, 1000);
    vstd::arithmetic::div_mod::lemma_mod_multiples_basic(s * q, 1000);
    assert((1000 * (s * q)) % 1000 == 0) by {
        vstd::arithmetic::mul::lemma_mul_is_commutative(1000, s * q);
    }
    vstd::arithmetic::div_mod::lemma_mod_multiples_basic(q, s);
    assert((s * q) % s == 0) by {
        vstd::arithmetic::mul::lemma_mul_is_commutative(s, q);
    }
}

/// OHLCV bar of one symbol over one aligned window.
///
/// Prices are in units of `1 / PRICE_SCALE`; `timestamp` is the window's start
/// in UTC epoch milliseconds.
#[derive(Debug)]
pub struct Bar {
    pub symbol: String,
    pub timestamp: i64,
    pub period: BarPeriod,
    pub open: i64,
    pub high: i64,
    pub low: i64,
    pub close: i64,
    pub volume: i128,
    pub turnover: i128,
    pub tick_count: u64,
    /// Turnover over volume, rounded down; the opening price until volume trades.
    pub vwap: i64,
}

impl Clone for Bar {
    fn clone(&self) -> (r: Self)
        ensures
            r == *self,
    {
        Bar {
            symbol: self.symbol.clone(),
            timestamp: self.timestamp,
            period: self.period,
            open: self.open,
            high: self.high,
            low: self.low,
            close: self.close,
            volume: self.volume,
            turnover: self.turnover,
            tick_count: self.tick_count,
            vwap: self.vwap,
        }
    }
}

impl Bar {
    /// A bar that ticks built: prices ordered, totals non-negative and
    /// consistent with prices that fit in an `i64`.
    pub open spec fn wf(&self) -> bool {
        &&& 0 < self.low <= self.open <= self.high
        &&& self.low <= self.close <= self.high
        &&& 0 <= self.volume
        &&& 0 <= self.turnover <= i64::MAX * self.volume
        &&& self.tick_count >= 1
    }

    /// The bar that one tick opens.
    pub open spec fn spec_new(tick: Tick, period: BarPeriod) -> Bar {
        Bar {
            symbol: tick.symbol,
            timestamp: spec_align(tick.timestamp, period),
            period,
            open: tick.price,
            high: tick.price,
            low: tick.price,
            close: tick.price,
            volume: tick.volume as i128,
            turnover: tick.turnover,
            tick_count: 1,
            vwap: tick.price,
        }
    }

    /// Whether a tick is of this bar's symbol and window.
    pub open spec fn spec_accepts(&self, tick: Tick) -> bool {
        &&& tick.symbol@ == self.symbol@
        &&& spec_align(tick.timestamp, self.period) == self.timestamp
    }

    /// Whether the totals stay representable after taking in `tick`.
    pub open spec fn fits(&self, tick: Tick) -> bool {
        &&& self.volume + tick.volume <= i128::MAX
        &&& self.turnover + tick.turnover <= i128::MAX
        &&& self.tick_count < u64::MAX
    }

    /// The bar after taking in `tick`.
    pub open spec fn spec_after(&self, tick: Tick) -> Bar {
        let volume = self.volume + tick.volume;
        let turnover = self.turnover + tick.turnover;
        Bar {
            symbol: self.symbol,
            timestamp: self.timestamp,
            period: self.period,
            open: self.open,
            high: if tick.price > self.high { tick.price } else { self.high },
            low: if tick.price < self.low { tick.price } else { self.low },
            close: tick.price,
            volume: volume as i128,
            turnover: turnover as i128,
            tick_count: (self.tick_count + 1) as u64,
            vwap: if volume > 0 { (turnover / volume) as i64 } else { self.vwap },
        }
    }

    /// Opens a bar with a tick: all four prices are the tick's price, the
    /// window is the tick's aligned window.
    pub fn new(tick: &Tick, period: BarPeriod) -> (r: Bar)
        ensures
            r == Bar::spec_new(*tick, period),
            tick.wf() ==> r.wf(),
    {
        let start = Bar::align_timestamp(tick.timestamp, period);
        proof {
            if tick.wf() {
                lemma_turnover_bounds(*tick);
            }
        }
        Bar {
            symbol: tick.symbol.clone(),
            timestamp: start,
            period,
            open: tick.price,
            high: tick.price,
            low: tick.price,
            close: tick.price,
            volume: tick.volume as i128,
            turnover: tick.turnover,
            tick_count: 1,
            vwap: tick.price,
        }
    }

    /// Start of the window of `period` that holds `ts` (epoch milliseconds).
    pub fn align_timestamp(ts: i64, period: BarPeriod) -> (r: i64)
        ensures
            r == spec_align(ts, period),
    {
        let pm: i64 = period.seconds() * 1000;
        let rem: i64 = match ts.checked_rem_euclid(pm) {
            Some(m) => m,
            None => 0,
        };
        if ts >= i64::MIN + rem {
            ts - rem
        } else {
            ts
        }
    }

    /// Whether `tick` belongs to this bar.
    pub fn accepts(&self, tick: &Tick) -> (r: bool)
        ensures
            r == self.spec_accepts(*tick),
    {
        if !(tick.symbol == self.symbol) {
            return false;
        }
        Bar::align_timestamp(tick.timestamp, self.period) == self.timestamp
    }

    /// Takes in a tick of this bar: widens high and low, moves the close,
    /// adds volume and turnover, counts the tick and recomputes the VWAP.
    /// A tick of another symbol or window, or one that would overflow the
    /// totals, is refused and leaves the bar as it was.
    pub fn update(&mut self, tick: &Tick) -> (r: Result<(), MarketDataError>)
        requires
            old(self).wf(),
            tick.wf(),
        ensures
            final(self).wf(),
            old(self).spec_accepts(*tick) && old(self).fits(*tick) ==> r is Ok && *final(self)
                == old(self).spec_after(*tick),
            !(old(self).spec_accepts(*tick) && old(self).fits(*tick)) ==> (r matches Err(
                MarketDataError::AggregationError(_),
            )) && *final(self) == *old(self),
    {
        if !self.accepts(tick) {
            return Err(MarketDataError::AggregationError("Tick does not belong to this bar".to_string()));
        }
        let volume: i128 = match self.volume.checked_add(tick.volume as i128) {
            Some(v) => v,
            None => {
                return Err(MarketDataError::AggregationError("Bar totals overflow".to_string()));
            },
        };
        let turnover: i128 = match self.turnover.checked_add(tick.turnover) {
            Some(v) => v,
            None => {
                return Err(MarketDataError::AggregationError("Bar totals overflow".to_string()));
            },
        };
        if self.tick_count == u64::MAX {
            return Err(MarketDataError::AggregationError("Bar totals overflow".to_string()));
        }
        proof {
            lemma_turnover_bounds(*tick);
        }
        if tick.price > self.high {
            self.high = tick.price;
        }
        if tick.price < self.low {
            self.low = tick.price;
        }
        self.close = tick.price;
        self.volume = volume;
        self.turnover = turnover;
        self.tick_count = self.tick_count + 1;
        if volume > 0 {
            proof {
                lemma_quotient_bound(turnover as int, volume as int);
            }
            self.vwap = match turnover.checked_div_euclid(volume) {
                Some(q) => q as i64,
                None => self.vwap,
            };
        }
        Ok(())
    }

    /// Whether the bar's window has ended at `current_time` (epoch ms).
    pub fn is_complete(&self, current_time: i64) -> (r: bool)
        ensures
            r == (current_time >= self.timestamp + period_millis(self.period)),
    {
        (current_time as i128) >= (self.timestamp as i128) + (self.period.seconds() as i128) * 1000
    }

    /// High minus low.
    pub fn range(&self) -> (r: i128)
        ensures
            r == self.high - self.low,
    {
        self.high as i128 - self.low as i128
    }

    /// Distance between open and close.
    pub fn body(&self) -> (r: i128)
        ensures
            r == if self.close >= self.open {
                self.close - self.open
            } else {
                self.open - self.close
            },
    {
        if self.close >= self.open {
            self.close as i128 - self.open as i128
        } else {
            self.open as i128 - self.close as i128
        }
    }

    /// Whether the bar closed above its open.
    pub fn is_bullish(&self) -> (r: bool)
        ensures
            r == (self.close > self.open),
    {
        self.close > self.open
    }

    /// Return from open to close in percent, as a fixed-point number with
    /// `PRICE_SCALE` units per percent, by Euclidean division (rounded down
    /// for a positive open); zero when the open is zero.
    pub fn return_pct(&self) -> (r: i128)
        ensures
            r == if self.open == 0 {
                0
            } else {
                (self.close - self.open) * 100 * PRICE_SCALE / (self.open as int)
            },
    {
        if self.open == 0 {
            return 0;
        }
        let num: i128 = (self.close as i128 - self.open as i128) * 100 * (PRICE_SCALE as i128);
        proof {
            lemma_quotient_magnitude(num as int, self.open as int);
        }
        match num.checked_div_euclid(self.open as i128) {
            Some(q) => q,
            None => 0,
        }
    }
}

/// Turns a stream of ticks into bars of one period, keeping the bar in
/// progress and a bounded history of completed bars.
pub struct BarAggregator {
    period: BarPeriod,
    current_bar: Option<Bar>,
    completed_bars: Vec<Bar>,
    max_bars: usize,
}

impl BarAggregator {
    /// Period of the bars built.
    pub closed spec fn spec_period(&self) -> BarPeriod {
        self.period
    }

    /// The bar in progress.
    pub closed spec fn spec_current(&self) -> Option<Bar> {
        self.current_bar
    }

    /// Completed bars kept, oldest first.
    pub closed spec fn spec_completed(&self) -> Seq<Bar> {
        self.completed_bars@
    }

    /// How many completed bars are kept.
    pub closed spec fn spec_max_bars(&self) -> nat {
        self.max_bars as nat
    }

    /// The bar in progress is a valid bar of the aggregator's period, and the
    /// history holds no more than `max_bars` bars.
    pub open spec fn wf(&self) -> bool {
        &&& self.spec_completed().len() <= self.spec_max_bars()
        &&& self.spec_current() matches Some(b) ==> b.wf() && b.period == self.spec_period()
    }

    /// Whether `tick` belongs to the bar in progress.
    pub open spec fn takes_in(&self, tick: Tick) -> bool {
        self.spec_current() matches Some(b) && b.spec_accepts(tick)
    }

    /// An aggregator with no bar yet.
    pub fn new(period: BarPeriod, max_bars: usize) -> (r: BarAggregator)
        ensures
            r.wf(),
            r.spec_period() == period,
            r.spec_max_bars() == max_bars,
            r.spec_current() is None,
            r.spec_completed() == Seq::<Bar>::empty(),
    {
        BarAggregator { period, current_bar: None, completed_bars: Vec::new(), max_bars }
    }

    /// Takes in a tick. A tick of the bar in progress updates it (a tick the
    /// bar refuses for overflow is dropped); any other tick closes the bar in
    /// progress, which is returned and kept in the bounded history (not at
    /// all when `max_bars` is zero), and opens a new bar.
    pub fn process(&mut self, tick: &Tick) -> (r: Option<Bar>)
        requires
            old(self).wf(),
            tick.wf(),
        ensures
            final(self).wf(),
            final(self).spec_period() == old(self).spec_period(),
            final(self).spec_max_bars() == old(self).spec_max_bars(),
            old(self).takes_in(*tick) ==> {
                &&& r is None
                &&& final(self).spec_completed() == old(self).spec_completed()
                &&& final(self).spec_current() == Some(
                    if old(self).spec_current()->Some_0.fits(*tick) {
                        old(self).spec_current()->Some_0.spec_after(*tick)
                    } else {
                        old(self).spec_current()->Some_0
                    },
                )
            },
            !old(self).takes_in(*tick) ==> {
                &&& r == old(self).spec_current()
                &&& final(self).spec_current() == Some(Bar::spec_new(*tick, old(self).spec_period()))
                &&& final(self).spec_completed() == match old(self).spec_current() {
                    Some(b) => pushed_window(old(self).spec_completed(), old(self).spec_max_bars(), b),
                    None => old(self).spec_completed(),
                }
            },
    {
        let cur = self.current_bar.take();
        match cur {
            Some(bar) => {
                if bar.accepts(tick) {
                    let mut bar = bar;
                    let _ = bar.update(tick);
                    self.current_bar = Some(bar);
                    None
                } else {
                    let done = bar.clone();
                    self.store_completed(bar);
                    self.current_bar = Some(Bar::new(tick, self.period));
                    Some(done)
                }
            },
            None => {
                self.current_bar = Some(Bar::new(tick, self.period));
                None
            },
        }
    }

    /// Closes the bar in progress, if any, keeps it in the history and
    /// returns it.
    pub fn flush(&mut self) -> (r: Option<Bar>)
        requires
            old(self).wf(),
        ensures
            final(self).wf(),
            final(self).spec_period() == old(self).spec_period(),
            final(self).spec_max_bars() == old(self).spec_max_bars(),
            r == old(self).spec_current(),
            final(self).spec_current() is None,
            final(self).spec_completed() == match old(self).spec_current() {
                Some(b) => pushed_window(old(self).spec_completed(), old(self).spec_max_bars(), b),
                None => old(self).spec_completed(),
            },
    {
        match self.current_bar.take() {
            Some(bar) => {
                let result = bar.clone();
                self.store_completed(bar);
                Some(result)
            },
            None => None,
        }
    }

    fn store_completed(&mut self, bar: Bar)
        requires
            old(self).spec_completed().len() <= old(self).spec_max_bars(),
        ensures
            final(self).period == old(self).period,
            final(self).max_bars == old(self).max_bars,
            final(self).current_bar == old(self).current_bar,
            final(self).spec_completed() == pushed_window(
                old(self).spec_completed(),
                old(self).spec_max_bars(),
                bar,
            ),
            final(self).spec_completed().len() <= final(self).spec_max_bars(),
    {
        if self.max_bars == 0 {
            return;
        }
        if self.completed_bars.len() >= self.max_bars {
            let _ = self.completed_bars.remove(0);
        }
        self.completed_bars.push(bar);
    }

    /// Completed bars kept, oldest first.
    pub fn bars(&self) -> (r: &[Bar])
        ensures
            r@ == self.spec_completed(),
    {
        self.completed_bars.as_slice()
    }

    /// The bar in progress.
    pub fn current(&self) -> (r: Option<&Bar>)
        ensures
            r matches Some(b) ==> self.spec_current() == Some(*b),
            r is None ==> self.spec_current() is None,
    {
        self.current_bar.as_ref()
    }

    /// Drops the bar in progress and the history.
    pub fn clear(&mut self)
        requires
            old(self).wf(),
        ensures
            final(self).wf(),
            final(self).spec_period() == old(self).spec_period(),
            final(self).spec_max_bars() == old(self).spec_max_bars(),
            final(self).spec_current() is None,
            final(self).spec_completed() == Seq::<Bar>::empty(),
    {
        self.current_bar = None;
        self.completed_bars.clear();
    }
}

} // verus!
