//! Ticks and the bounded tick buffer.
//!
//! Prices are fixed-point integers in units of `1 / PRICE_SCALE` of the quote
//! currency, volumes are whole units, timestamps are UTC epoch milliseconds.
use vstd::prelude::*;
use std::collections::VecDeque;
use crate::error::MarketDataError;
use crate::window::pushed_window;

verus! {

/// Number of price units in one unit of the quote currency.
pub const PRICE_SCALE: i64 = 10000;

/// A trade or quote update.
#[derive(Debug)]
pub struct Tick {
    /// Symbol identifier, never empty.
    pub symbol: String,
    /// UTC epoch milliseconds.
    pub timestamp: i64,
    /// Last trade price, positive.
    pub price: i64,
    /// Trade volume; zero for a quote-only update.
    pub volume: i64,
    /// `price * volume`.
    pub turnover: i128,
    /// Best bid price.
    pub bid: i64,
    /// Best ask price.
    pub ask: i64,
    /// Size at the best bid.
    pub bid_volume: i64,
    /// Size at the best ask.
    pub ask_volume: i64,
}

impl Clone for Tick {
    fn clone(&self) -> (r: Self)
        ensures
            r == *self,
    {
        Tick {
            symbol: self.symbol.clone(),
            timestamp: self.timestamp,
            price: self.price,
            volume: self.volume,
            turnover: self.turnover,
            bid: self.bid,
            ask: self.ask,
            bid_volume: self.bid_volume,
            ask_volume: self.ask_volume,
        }
    }
}

impl Tick {
    /// A tick as `Tick::new` builds it.
    pub open spec fn wf(&self) -> bool {
        &&& self.symbol@.len() > 0
        &&& self.price > 0
        &&& self.volume >= 0
        &&& self.turnover == self.price * self.volume
    }

    /// Validates and builds a tick; the quote sizes start at zero.
    pub fn new(symbol: String, timestamp: i64, price: i64, volume: i64, bid: i64, ask: i64) -> (r:
        Result<Tick, MarketDataError>)
        ensures
            symbol@.len() == 0 ==> r matches Err(MarketDataError::InvalidSymbol(_)),
            symbol@.len() > 0 && price <= 0 ==> r == Err::<Tick, MarketDataError>(
                MarketDataError::InvalidPrice(price),
            ),
            symbol@.len() > 0 && price > 0 && volume < 0 ==> r == Err::<Tick, MarketDataError>(
                MarketDataError::InvalidVolume(volume),
            ),
            symbol@.len() > 0 && price > 0 && volume >= 0 ==> r == Ok::<Tick, MarketDataError>(
                (Tick {
                    symbol,
                    timestamp,
                    price,
                    volume,
                    turnover: (price * volume) as i128,
                    bid,
                    ask,
                    bid_volume: 0,
                    ask_volume: 0,
                }),
            ),
            r matches Ok(t) ==> t.wf(),
    {
        if symbol.as_str().is_empty() {
            return Err(MarketDataError::InvalidSymbol("empty symbol".to_string()));
        }
        if price <= 0 {
            return Err(MarketDataError::InvalidPrice(price));
        }
        if volume < 0 {
            return Err(MarketDataError::InvalidVolume(volume));
        }
        assert(0 <= price * volume <= i64::MAX * i64::MAX) by (nonlinear_arith)
            requires
                0 < price <= i64::MAX,
                0 <= volume <= i64::MAX,
        ;
        let turnover: i128 = (price as i128) * (volume as i128);
        Ok(Tick { symbol, timestamp, price, volume, turnover, bid, ask, bid_volume: 0, ask_volume: 0 })
    }

    /// Midpoint of bid and ask, rounded down to a price unit.
    pub fn mid_price(&self) -> (r: i64)
        ensures
            r == (self.bid + self.ask) / 2,
    {
        let sum: i128 = self.bid as i128 + self.ask as i128;
        let half: i128 = match sum.checked_div_euclid(2) {
            Some(h) => h,
            None => 0,
        };
        half as i64
    }

    /// Ask minus bid.
    pub fn spread(&self) -> (r: i128)
        ensures
            r == self.ask - self.bid,
    {
        self.ask as i128 - self.bid as i128
    }

    /// Spread over mid price in whole basis points, by Euclidean division
    /// (rounded down for a positive mid price); zero when the mid price is zero.
    pub fn spread_bps(&self) -> (r: i128)
        ensures
            r == if (self.bid + self.ask) / 2 == 0 {
                0
            } else {
                (self.ask - self.bid) * 10000 / ((self.bid + self.ask) / 2)
            },
    {
        let mid = self.mid_price();
        if mid == 0 {
            return 0;
        }
        let num: i128 = self.spread() * 10000;
        proof {
            lemma_quotient_magnitude(num as int, mid as int);
        }
        match num.checked_div_euclid(mid as i128) {
            Some(q) => q,
            None => 0,
        }
    }
}

pub(crate) proof fn lemma_quotient_magnitude(x: int, d: int)
    requires
        d != 0,
    ensures
        -(if x < 0 { -x } else { x }) - 1 <= x / d <= (if x < 0 { -x } else { x }) + 1,
{
    let q = x / d;
    let r = x % d;
    assert(x == d * q + r && 0 <= r < (if d < 0 { -d } else { d })) by {
        vstd::arithmetic::div_mod::lemma_fundamental_div_mod(x, d);
    }
    assert(-(if x < 0 { -x } else { x }) - 1 <= q <= (if x < 0 { -x } else { x }) + 1)
        by (nonlinear_arith)
        requires
            x == d * q + r,
            0 <= r < (if d < 0 { -d } else { d }),
            d != 0,
    ;
}

/// A valid tick's turnover lies between its volume and `i64::MAX` times its
/// volume.
pub proof fn lemma_turnover_bounds(t: Tick)
    requires
        t.wf(),
    ensures
        0 <= t.volume <= t.turnover <= i64::MAX * t.volume,
{
    assert(t.volume <= t.turnover <= i64::MAX * t.volume) by (nonlinear_arith)
        requires
            t.turnover == t.price * t.volume,
            1 <= t.price <= i64::MAX,
            t.volume >= 0,
    ;
}

/// Whether a tick is stamped at or after `since`.
pub open spec fn at_or_after(since: i64) -> spec_fn(Tick) -> bool {
    |t: Tick| t.timestamp >= since
}

/// Sum of the volumes of `s`.
pub open spec fn total_volume(s: Seq<Tick>) -> int
    decreases s.len(),
{
    if s.len() == 0 {
        0
    } else {
        total_volume(s.drop_last()) + s.last().volume
    }
}

/// Sum of the turnovers of `s`.
pub open spec fn total_turnover(s: Seq<Tick>) -> int
    decreases s.len(),
{
    if s.len() == 0 {
        0
    } else {
        total_turnover(s.drop_last()) + s.last().turnover
    }
}

/// Volume-weighted average price of `s` in price units, rounded down; none
/// when no volume traded.
pub open spec fn vwap_of(s: Seq<Tick>) -> Option<int> {
    if total_volume(s) == 0 {
        None
    } else {
        Some(total_turnover(s) / total_volume(s))
    }
}

proof fn lemma_totals_bounded(s: Seq<Tick>)
    requires
        forall|i: int| 0 <= i < s.len() ==> (#[trigger] s[i]).wf(),
    ensures
        0 <= total_volume(s) <= total_turnover(s),
        total_turnover(s) <= i64::MAX * total_volume(s),
    decreases s.len(),
{
    if s.len() > 0 {
        let p = s.drop_last();
        assert forall|i: int| 0 <= i < p.len() implies (#[trigger] p[i]).wf() by {
            assert(p[i] == s[i]);
        }
        lemma_totals_bounded(p);
        lemma_turnover_bounds(s.last());
    }
}

proof fn lemma_totals_prefix(s: Seq<Tick>, i: int)
    requires
        0 <= i < s.len(),
    ensures
        total_volume(s.subrange(0, i + 1)) == total_volume(s.subrange(0, i)) + s[i].volume,
        total_turnover(s.subrange(0, i + 1)) == total_turnover(s.subrange(0, i)) + s[i].turnover,
{
    assert(s.subrange(0, i + 1).drop_last() =~= s.subrange(0, i));
}

pub(crate) proof fn lemma_quotient_bound(t: int, v: int)
    requires
        v > 0,
        0 <= t <= i64::MAX * v,
    ensures
        0 <= t / v <= i64::MAX,
{
    assert(0 <= t / v <= i64::MAX) by (nonlinear_arith)
        requires
            v > 0,
            0 <= t <= i64::MAX * v,
    ;
}

/// Bounded FIFO of ticks: pushing onto a full buffer evicts the oldest tick.
pub struct TickBuffer {
    capacity: usize,
    buffer: VecDeque<Tick>,
}

impl TickBuffer {
    /// The ticks held, oldest first.
    pub closed spec fn contents(&self) -> Seq<Tick> {
        self.buffer@
    }

    /// The capacity the buffer was made with.
    pub closed spec fn spec_capacity(&self) -> nat {
        self.capacity as nat
    }

    /// Every tick held is valid and no more ticks are held than the capacity.
    pub open spec fn wf(&self) -> bool {
        &&& self.contents().len() <= self.spec_capacity()
        &&& forall|i: int| 0 <= i < self.contents().len() ==> (#[trigger] self.contents()[i]).wf()
    }

    /// An empty buffer of the given capacity.
    pub fn new(capacity: usize) -> (r: TickBuffer)
        ensures
            r.wf(),
            r.contents() == Seq::<Tick>::empty(),
            r.spec_capacity() == capacity,
    {
        TickBuffer { capacity, buffer: VecDeque::new() }
    }

    /// Appends a tick, evicting the oldest when the buffer is full; a buffer
    /// of capacity zero stays empty.
    pub fn push(&mut self, tick: Tick)
        requires
            old(self).wf(),
            tick.wf(),
        ensures
            final(self).wf(),
            final(self).spec_capacity() == old(self).spec_capacity(),
            final(self).contents() == pushed_window(old(self).contents(), old(self).spec_capacity(), tick),
    {
        if self.capacity == 0 {
            return;
        }
        if self.buffer.len() >= self.capacity {
            let _ = self.buffer.pop_front();
        }
        self.buffer.push_back(tick);
    }

    /// The newest tick.
    pub fn latest(&self) -> (r: Option<&Tick>)
        ensures
            self.contents().len() == 0 ==> r is None,
            self.contents().len() > 0 ==> r == Some(&self.contents().last()),
    {
        let n = self.buffer.len();
        if n == 0 {
            None
        } else {
            Some(&self.buffer[n - 1])
        }
    }

    /// Number of ticks held.
    pub fn len(&self) -> (r: usize)
        ensures
            r == self.contents().len(),
    {
        self.buffer.len()
    }

    /// Whether no tick is held.
    pub fn is_empty(&self) -> (r: bool)
        ensures
            r == (self.contents().len() == 0),
    {
        self.buffer.len() == 0
    }

    /// Volume-weighted average price over the ticks held, rounded down to a
    /// price unit; none when no volume traded, or when the total turnover does
    /// not fit in an `i128`.
    pub fn vwap(&self) -> (r: Option<i64>)
        requires
            self.wf(),
        ensures
            r == (if total_turnover(self.contents()) > i128::MAX {
                None
            } else {
                match vwap_of(self.contents()) {
                    Some(v) => Some(v as i64),
                    None => None,
                }
            }),
            r matches Some(v) ==> v > 0,
    {
        let ghost s = self.contents();
        let n = self.buffer.len();
        let mut turnover: i128 = 0;
        let mut volume: i128 = 0;
        let mut i: usize = 0;
        while i < n
            invariant
                s == self.contents(),
                n == s.len(),
                0 <= i <= n,
                self.wf(),
                turnover == total_turnover(s.subrange(0, i as int)),
                volume == total_volume(s.subrange(0, i as int)),
            decreases n - i,
        {
            let t = &self.buffer[i];
            proof {
                lemma_totals_prefix(s, i as int);
                let q = s.subrange(0, i as int + 1);
                assert forall|j: int| 0 <= j < q.len() implies (#[trigger] q[j]).wf() by {
                    assert(q[j] == s[j]);
                }
                lemma_totals_bounded(q);
                assert forall|j: int| 0 <= j < s.len() implies (#[trigger] s[j]).wf() by {}
                lemma_totals_bounded(s);
                assert(total_turnover(q) <= total_turnover(s)) by {
                    lemma_totals_monotone(s, i as int + 1);
                }
            }
            match turnover.checked_add(t.turnover) {
                Some(v) => {
                    turnover = v;
                },
                None => {
                    proof {
                        lemma_totals_monotone(s, i as int + 1);
                    }
                    return None;
                },
            }
            volume = volume + t.volume as i128;
            i = i + 1;
        }
        assert(s.subrange(0, n as int) =~= s);
        proof {
            assert forall|j: int| 0 <= j < s.len() implies (#[trigger] s[j]).wf() by {}
            lemma_totals_bounded(s);
        }
        if volume == 0 {
            return None;
        }
        proof {
            lemma_quotient_bound(turnover as int, volume as int);
            assert(turnover as int / volume as int > 0) by (nonlinear_arith)
                requires
                    volume > 0,
                    turnover >= volume,
            ;
        }
        match turnover.checked_div_euclid(volume) {
            Some(q) => Some(q as i64),
            None => None,
        }
    }

    /// The ticks at or after `since`, oldest first.
    pub fn ticks_since(&self, since: i64) -> (r: Vec<&Tick>)
        ensures
            r@.map_values(|t: &Tick| *t) == self.contents().filter(at_or_after(since)),
    {
        let ghost s = self.contents();
        let n = self.buffer.len();
        let mut out: Vec<&Tick> = Vec::new();
        let mut i: usize = 0;
        while i < n
            invariant
                s == self.contents(),
                n == s.len(),
                0 <= i <= n,
                out@.map_values(|t: &Tick| *t) == s.subrange(0, i as int).filter(at_or_after(since)),
            decreases n - i,
        {
            let t = &self.buffer[i];
            let ghost pre = s.subrange(0, i as int);
            let ghost pre1 = s.subrange(0, i as int + 1);
            proof {
                reveal(Seq::filter);
                assert(pre1.drop_last() =~= pre);
                assert(pre1.last() == s[i as int]);
                assert(pre1.filter(at_or_after(since)) == if at_or_after(since)(s[i as int]) {
                    pre.filter(at_or_after(since)).push(s[i as int])
                } else {
                    pre.filter(at_or_after(since))
                });
            }
            let ghost before = out@;
            if t.timestamp >= since {
                out.push(t);
                assert(out@.map_values(|t: &Tick| *t) =~= before.map_values(|t: &Tick| *t).push(*t));
            }
            i = i + 1;
        }
        assert(s.subrange(0, n as int) =~= s);
        out
    }

    /// Removes every tick.
    pub fn clear(&mut self)
        requires
            old(self).wf(),
        ensures
            final(self).wf(),
            final(self).contents() == Seq::<Tick>::empty(),
            final(self).spec_capacity() == old(self).spec_capacity(),
    {
        self.buffer.clear();
    }
}

proof fn lemma_totals_monotone(s: Seq<Tick>, k: int)
    requires
        0 <= k <= s.len(),
        forall|i: int| 0 <= i < s.len() ==> (#[trigger] s[i]).wf(),
    ensures
        total_turnover(s.subrange(0, k)) <= total_turnover(s),
        total_volume(s.subrange(0, k)) <= total_volume(s),
    decreases s.len() - k,
{
    if k < s.len() {
        lemma_totals_monotone(s, k + 1);
        lemma_totals_prefix(s, k);
        lemma_turnover_bounds(s[k]);
    } else {
        assert(s.subrange(0, k) =~= s);
    }
}

} // verus!
