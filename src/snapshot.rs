//! Per-symbol market snapshots and the manager that keeps them current.
//!
//! Prices are fixed-point integers in units of `1 / PRICE_SCALE`.
use vstd::prelude::*;
use dashmap::DashMap;
use crate::error::MarketDataError;
use crate::tick::{lemma_quotient_magnitude, lemma_turnover_bounds, Tick, PRICE_SCALE};

verus! {

/// Largest distance, in price units, at which a price counts as being at a
/// limit price.
pub const LIMIT_TOLERANCE: i64 = 10;

/// `a + b`, held at the bounds of `i128`.
pub open spec fn saturating_sum(a: int, b: int) -> i128 {
    if a + b > i128::MAX {
        i128::MAX
    } else if a + b < i128::MIN {
        i128::MIN
    } else {
        (a + b) as i128
    }
}

fn add_saturating(a: i128, b: i128) -> (r: i128)
    ensures
        r == saturating_sum(a as int, b as int),
{
    match a.checked_add(b) {
        Some(v) => v,
        None => if b > 0 {
            i128::MAX
        } else {
            i128::MIN
        },
    }
}

/// Live state of one symbol during a session.
#[derive(Debug)]
pub struct SymbolSnapshot {
    pub symbol: String,
    /// Time of the last update, UTC epoch milliseconds.
    pub timestamp: i64,
    pub last_price: i64,
    /// Price of the session's first tick.
    pub open: i64,
    pub high: i64,
    pub low: i64,
    /// Previous session's close; zero until set.
    pub prev_close: i64,
    /// Cumulative volume.
    pub volume: i128,
    /// Cumulative turnover.
    pub turnover: i128,
    pub bid: i64,
    pub ask: i64,
    pub bid_volume: i64,
    pub ask_volume: i64,
    /// Upper daily price limit; zero until set.
    pub upper_limit: i64,
    /// Lower daily price limit; zero until set.
    pub lower_limit: i64,
}

impl Clone for SymbolSnapshot {
    fn clone(&self) -> (r: Self)
        ensures
            r == *self,
    {
        SymbolSnapshot {
            symbol: self.symbol.clone(),
            timestamp: self.timestamp,
            last_price: self.last_price,
            open: self.open,
            high: self.high,
            low: self.low,
            prev_close: self.prev_close,
            volume: self.volume,
            turnover: self.turnover,
            bid: self.bid,
            ask: self.ask,
            bid_volume: self.bid_volume,
            ask_volume: self.ask_volume,
            upper_limit: self.upper_limit,
            lower_limit: self.lower_limit,
        }
    }
}

impl SymbolSnapshot {
    /// Cumulative totals are non-negative, as valid ticks leave them.
    pub open spec fn wf(&self) -> bool {
        self.volume >= 0 && self.turnover >= 0
    }

    /// The snapshot that a symbol's first tick opens.
    pub open spec fn spec_from_tick(tick: Tick) -> SymbolSnapshot {
        SymbolSnapshot {
            symbol: tick.symbol,
            timestamp: tick.timestamp,
            last_price: tick.price,
            open: tick.price,
            high: tick.price,
            low: tick.price,
            prev_close: 0,
            volume: tick.volume as i128,
            turnover: tick.turnover,
            bid: tick.bid,
            ask: tick.ask,
            bid_volume: tick.bid_volume,
            ask_volume: tick.ask_volume,
            upper_limit: 0,
            lower_limit: 0,
        }
    }

    /// The snapshot after one more tick of its symbol.
    pub open spec fn spec_updated(self, tick: Tick) -> SymbolSnapshot {
        SymbolSnapshot {
            timestamp: tick.timestamp,
            last_price: tick.price,
            high: if tick.price > self.high { tick.price } else { self.high },
            low: if tick.price < self.low { tick.price } else { self.low },
            volume: saturating_sum(self.volume as int, tick.volume as int),
            turnover: saturating_sum(self.turnover as int, tick.turnover as int),
            bid: tick.bid,
            ask: tick.ask,
            bid_volume: tick.bid_volume,
            ask_volume: tick.ask_volume,
            ..self
        }
    }

    /// Opens a snapshot from a tick: open, high, low and last are its price.
    pub fn from_tick(tick: &Tick) -> (r: SymbolSnapshot)
        ensures
            r == SymbolSnapshot::spec_from_tick(*tick),
            tick.wf() ==> r.wf(),
    {
        proof {
            if tick.wf() {
                lemma_turnover_bounds(*tick);
            }
        }
        SymbolSnapshot {
            symbol: tick.symbol.clone(),
            timestamp: tick.timestamp,
            last_price: tick.price,
            open: tick.price,
            high: tick.price,
            low: tick.price,
            prev_close: 0,
            volume: tick.volume as i128,
            turnover: tick.turnover,
            bid: tick.bid,
            ask: tick.ask,
            bid_volume: tick.bid_volume,
            ask_volume: tick.ask_volume,
            upper_limit: 0,
            lower_limit: 0,
        }
    }

    /// Takes in a tick: last price and time, widened high and low,
    /// accumulated volume and turnover (held at the bounds of `i128`), new
    /// top of book.
    pub fn update(&mut self, tick: &Tick)
        ensures
            *final(self) == old(self).spec_updated(*tick),
            old(self).wf() && tick.wf() ==> final(self).wf(),
    {
        proof {
            if tick.wf() {
                lemma_turnover_bounds(*tick);
            }
        }
        self.timestamp = tick.timestamp;
        self.last_price = tick.price;
        if tick.price > self.high {
            self.high = tick.price;
        }
        if tick.price < self.low {
            self.low = tick.price;
        }
        self.volume = add_saturating(self.volume, tick.volume as i128);
        self.turnover = add_saturating(self.turnover, tick.turnover);
        self.bid = tick.bid;
        self.ask = tick.ask;
        self.bid_volume = tick.bid_volume;
        self.ask_volume = tick.ask_volume;
    }

    /// Last price minus previous close.
    pub fn change(&self) -> (r: i128)
        ensures
            r == self.last_price - self.prev_close,
    {
        self.last_price as i128 - self.prev_close as i128
    }

    /// Change over previous close in percent, fixed-point with `PRICE_SCALE`
    /// units per percent, by Euclidean division (rounded down for a positive
    /// previous close); zero while no previous close is set.
    pub fn change_pct(&self) -> (r: i128)
        ensures
            r == if self.prev_close == 0 {
                0
            } else {
                (self.last_price - self.prev_close) * 100 * PRICE_SCALE / (self.prev_close as int)
            },
    {
        if self.prev_close == 0 {
            return 0;
        }
        let num: i128 = self.change() * 100 * (PRICE_SCALE as i128);
        assert(num == (self.last_price - self.prev_close) * 100 * PRICE_SCALE);
        proof {
            lemma_quotient_magnitude(num as int, self.prev_close as int);
        }
        match num.checked_div_euclid(self.prev_close as i128) {
            Some(q) => q,
            None => 0,
        }
    }

    /// Whether an upper limit is set and the last price is within
    /// `LIMIT_TOLERANCE` of it.
    pub fn is_at_upper_limit(&self) -> (r: bool)
        ensures
            r == (self.upper_limit > 0 && -LIMIT_TOLERANCE < self.last_price - self.upper_limit
                < LIMIT_TOLERANCE),
    {
        if self.upper_limit <= 0 {
            return false;
        }
        let d: i128 = self.last_price as i128 - self.upper_limit as i128;
        -(LIMIT_TOLERANCE as i128) < d && d < LIMIT_TOLERANCE as i128
    }

    /// Whether a lower limit is set and the last price is within
    /// `LIMIT_TOLERANCE` of it.
    pub fn is_at_lower_limit(&self) -> (r: bool)
        ensures
            r == (self.lower_limit > 0 && -LIMIT_TOLERANCE < self.last_price - self.lower_limit
                < LIMIT_TOLERANCE),
    {
        if self.lower_limit <= 0 {
            return false;
        }
        let d: i128 = self.last_price as i128 - self.lower_limit as i128;
        -(LIMIT_TOLERANCE as i128) < d && d < LIMIT_TOLERANCE as i128
    }

    /// Session VWAP rounded down to a price unit; the last price while no
    /// volume traded.
    pub fn vwap(&self) -> (r: i128)
        requires
            self.wf(),
        ensures
            r == if self.volume == 0 {
                self.last_price as int
            } else {
                self.turnover / self.volume
            },
    {
        if self.volume == 0 {
            return self.last_price as i128;
        }
        proof {
            assert(0 <= self.turnover / self.volume <= self.turnover) by (nonlinear_arith)
                requires
                    self.volume > 0,
                    self.turnover >= 0,
            ;
        }
        match self.turnover.checked_div_euclid(self.volume) {
            Some(q) => q,
            None => 0,
        }
    }

    /// Ask minus bid.
    pub fn spread(&self) -> (r: i128)
        ensures
            r == self.ask - self.bid,
    {
        self.ask as i128 - self.bid as i128
    }

    /// Spread over mid price in whole basis points, by Euclidean division
    /// (rounded down for a positive mid price); zero when the mid price is zero.
    pub fn spread_bps(&self) -> (r: i128)
        ensures
            r == if (self.bid + self.ask) / 2 == 0 {
                0
            } else {
                (self.ask - self.bid) * 10000 / ((self.bid + self.ask) / 2)
            },
    {
        let sum: i128 = self.bid as i128 + self.ask as i128;
        let mid: i128 = match sum.checked_div_euclid(2) {
            Some(h) => h,
            None => 0,
        };
        if mid == 0 {
            return 0;
        }
        let num: i128 = self.spread() * 10000;
        proof {
            lemma_quotient_magnitude(num as int, mid as int);
        }
        match num.checked_div_euclid(mid) {
            Some(q) => q,
            None => 0,
        }
    }
}

#[verifier::external_type_specification]
#[verifier::external_body]
#[verifier::reject_recursive_types(K)]
#[verifier::reject_recursive_types(V)]
#[verifier::reject_recursive_types(S)]
pub struct ExDashMap<K, V, S>(DashMap<K, V, S>);

/// `s` lists each value of `m` once, in any order.
pub open spec fn lists_values(m: Map<Seq<char>, SymbolSnapshot>, s: Seq<SymbolSnapshot>) -> bool {
    &&& s.len() == m.len()
    &&& forall|i: int| #![trigger s[i]]
        0 <= i < s.len() ==> exists|k: Seq<char>| m.contains_key(k) && m[k] == s[i]
    &&& forall|k: Seq<char>| #[trigger]
        m.contains_key(k) ==> exists|i: int| 0 <= i < s.len() && s[i] == m[k]
}

/// The empty map of snapshots.
pub open spec fn no_snapshots() -> Map<Seq<char>, SymbolSnapshot> {
    Map::empty()
}

/// The empty map of subscriptions.
pub open spec fn no_subscriptions() -> Map<Seq<char>, bool> {
    Map::empty()
}

/// What a snapshot map holds, by symbol.
pub uninterp spec fn snapshot_entries(m: DashMap<String, SymbolSnapshot>) -> Map<
    Seq<char>,
    SymbolSnapshot,
>;

/// What a subscription map holds, by symbol.
pub uninterp spec fn subscription_entries(m: DashMap<String, bool>) -> Map<Seq<char>, bool>;

/// Relies on DashMap::new: a new map is empty.
#[verifier::external_body]
fn snapshots_new() -> (r: DashMap<String, SymbolSnapshot>)
    ensures
        snapshot_entries(r) == no_snapshots(),
{
    DashMap::new()
}

/// Relies on DashMap::new: a new map is empty.
#[verifier::external_body]
fn subscriptions_new() -> (r: DashMap<String, bool>)
    ensures
        subscription_entries(r) == no_subscriptions(),
{
    DashMap::new()
}

/// Relies on DashMap::get: the entry under the key, if any (handed out as a copy).
#[verifier::external_body]
fn snapshots_get(m: &DashMap<String, SymbolSnapshot>, key: &str) -> (r: Option<SymbolSnapshot>)
    ensures
        r == if snapshot_entries(*m).contains_key(key@) {
            Some(snapshot_entries(*m)[key@])
        } else {
            None::<SymbolSnapshot>
        },
{
    m.get(key).map(|e| e.value().clone())
}

/// Relies on DashMap::insert: the key now maps to the value, other keys keep theirs.
#[verifier::external_body]
fn snapshots_insert(m: &mut DashMap<String, SymbolSnapshot>, key: String, value: SymbolSnapshot)
    ensures
        snapshot_entries(*final(m)) == snapshot_entries(*old(m)).insert(key@, value),
{
    m.insert(key, value);
}

/// Relies on DashMap::insert: the key now maps to the value, other keys keep theirs.
#[verifier::external_body]
fn subscriptions_insert(m: &mut DashMap<String, bool>, key: String, value: bool)
    ensures
        subscription_entries(*final(m)) == subscription_entries(*old(m)).insert(key@, value),
{
    m.insert(key, value);
}

/// Relies on DashMap::remove: the key no longer has an entry, other keys keep theirs.
#[verifier::external_body]
fn snapshots_remove(m: &mut DashMap<String, SymbolSnapshot>, key: &str)
    ensures
        snapshot_entries(*final(m)) == snapshot_entries(*old(m)).remove(key@),
{
    m.remove(key);
}

/// Relies on DashMap::remove: the key no longer has an entry, other keys keep theirs.
#[verifier::external_body]
fn subscriptions_remove(m: &mut DashMap<String, bool>, key: &str)
    ensures
        subscription_entries(*final(m)) == subscription_entries(*old(m)).remove(key@),
{
    m.remove(key);
}

/// Relies on DashMap::contains_key: whether the key has an entry.
#[verifier::external_body]
fn subscriptions_contains(m: &DashMap<String, bool>, key: &str) -> (r: bool)
    ensures
        r == subscription_entries(*m).contains_key(key@),
{
    m.contains_key(key)
}

/// Relies on DashMap::len: the number of entries.
#[verifier::external_body]
fn snapshots_len(m: &DashMap<String, SymbolSnapshot>) -> (r: usize)
    ensures
        r == snapshot_entries(*m).len(),
{
    m.len()
}

/// Relies on DashMap::clear: no entry is left.
#[verifier::external_body]
fn snapshots_clear(m: &mut DashMap<String, SymbolSnapshot>)
    ensures
        snapshot_entries(*final(m)) == no_snapshots(),
{
    m.clear();
}

/// Relies on DashMap::iter: every entry is visited once, in an order that the
/// map does not fix (values handed out as copies).
#[verifier::external_body]
fn snapshots_values(m: &DashMap<String, SymbolSnapshot>) -> (r: Vec<SymbolSnapshot>)
    ensures
        lists_values(snapshot_entries(*m), r@),
{
    m.iter().map(|e| e.value().clone()).collect()
}

/// Current snapshots of all symbols seen, and the set of subscribed symbols.
///
/// A symbol's first tick subscribes it; snapshots are handed out as copies.
pub struct SnapshotManager {
    snapshots: DashMap<String, SymbolSnapshot>,
    subscriptions: DashMap<String, bool>,
}

impl SnapshotManager {
    /// Snapshots by symbol.
    pub closed spec fn spec_snapshots(&self) -> Map<Seq<char>, SymbolSnapshot> {
        snapshot_entries(self.snapshots)
    }

    /// Subscribed symbols.
    pub closed spec fn spec_subscriptions(&self) -> Set<Seq<char>> {
        subscription_entries(self.subscriptions).dom()
    }

    /// Each snapshot is filed under its own symbol, is valid, and its symbol is
    /// subscribed.
    pub open spec fn wf(&self) -> bool {
        forall|k: Seq<char>| #[trigger]
            self.spec_snapshots().contains_key(k) ==> {
                &&& self.spec_snapshots()[k].symbol@ == k
                &&& self.spec_snapshots()[k].wf()
                &&& self.spec_subscriptions().contains(k)
            }
    }

    proof fn lemma_wf_kept(old_m: &SnapshotManager, new_m: &SnapshotManager, changed: Seq<char>)
        requires
            old_m.wf(),
            old_m.spec_subscriptions().subset_of(new_m.spec_subscriptions()),
            forall|k: Seq<char>|
                k != changed ==> (#[trigger] new_m.spec_snapshots().contains_key(k)
                    ==> old_m.spec_snapshots().contains_key(k) && new_m.spec_snapshots()[k]
                    == old_m.spec_snapshots()[k]),
            new_m.spec_snapshots().contains_key(changed) ==> {
                &&& new_m.spec_snapshots()[changed].symbol@ == changed
                &&& new_m.spec_snapshots()[changed].wf()
                &&& new_m.spec_subscriptions().contains(changed)
            },
        ensures
            new_m.wf(),
    {
        assert forall|k: Seq<char>| #[trigger] new_m.spec_snapshots().contains_key(k) implies {
            &&& new_m.spec_snapshots()[k].symbol@ == k
            &&& new_m.spec_snapshots()[k].wf()
            &&& new_m.spec_subscriptions().contains(k)
        } by {
            if k != changed {
                assert(old_m.spec_snapshots().contains_key(k));
            }
        }
    }

    /// A manager with no snapshot and no subscription.
    pub fn new() -> (r: SnapshotManager)
        ensures
            r.wf(),
            r.spec_snapshots() == no_snapshots(),
            r.spec_subscriptions() == Set::<Seq<char>>::empty(),
    {
        SnapshotManager { snapshots: snapshots_new(), subscriptions: subscriptions_new() }
    }

    /// Subscribes a symbol.
    pub fn subscribe(&mut self, symbol: &str)
        requires
            old(self).wf(),
        ensures
            final(self).wf(),
            final(self).spec_subscriptions() == old(self).spec_subscriptions().insert(symbol@),
            final(self).spec_snapshots() == old(self).spec_snapshots(),
    {
        subscriptions_insert(&mut self.subscriptions, symbol.to_owned(), true);
        assert(self.spec_subscriptions() =~= old(self).spec_subscriptions().insert(symbol@));
        proof {
            if self.spec_snapshots().contains_key(symbol@) {
                assert(old(self).spec_snapshots().contains_key(symbol@));
            }
            SnapshotManager::lemma_wf_kept(old(self), self, symbol@);
        }
    }

    /// Unsubscribes a symbol and drops its snapshot.
    pub fn unsubscribe(&mut self, symbol: &str)
        requires
            old(self).wf(),
        ensures
            final(self).wf(),
            final(self).spec_subscriptions() == old(self).spec_subscriptions().remove(symbol@),
            final(self).spec_snapshots() == old(self).spec_snapshots().remove(symbol@),
    {
        subscriptions_remove(&mut self.subscriptions, symbol);
        snapshots_remove(&mut self.snapshots, symbol);
        assert(self.spec_subscriptions() =~= old(self).spec_subscriptions().remove(symbol@));
        assert forall|k: Seq<char>| #[trigger] self.spec_snapshots().contains_key(k) implies {
            &&& self.spec_snapshots()[k].symbol@ == k
            &&& self.spec_snapshots()[k].wf()
            &&& self.spec_subscriptions().contains(k)
        } by {
            assert(old(self).spec_snapshots().contains_key(k));
        }
    }

    /// Whether a symbol is subscribed.
    pub fn is_subscribed(&self, symbol: &str) -> (r: bool)
        ensures
            r == self.spec_subscriptions().contains(symbol@),
    {
        subscriptions_contains(&self.subscriptions, symbol)
    }

    /// Takes in a tick: subscribes its symbol, then opens the symbol's
    /// snapshot from the tick or updates the one there.
    pub fn process_tick(&mut self, tick: &Tick) -> (r: Result<(), MarketDataError>)
        requires
            old(self).wf(),
            tick.wf(),
        ensures
            final(self).wf(),
            r is Ok,
            final(self).spec_subscriptions() == old(self).spec_subscriptions().insert(tick.symbol@),
            final(self).spec_snapshots() == old(self).spec_snapshots().insert(
                tick.symbol@,
                if old(self).spec_snapshots().contains_key(tick.symbol@) {
                    old(self).spec_snapshots()[tick.symbol@].spec_updated(*tick)
                } else {
                    SymbolSnapshot::spec_from_tick(*tick)
                },
            ),
    {
        if !self.is_subscribed(tick.symbol.as_str()) {
            self.subscribe(tick.symbol.as_str());
        }
        assert(self.spec_subscriptions() =~= old(self).spec_subscriptions().insert(tick.symbol@));
        let snap = match snapshots_get(&self.snapshots, tick.symbol.as_str()) {
            Some(s) => {
                assert(old(self).spec_snapshots().contains_key(tick.symbol@));
                let mut s = s;
                s.update(tick);
                s
            },
            None => SymbolSnapshot::from_tick(tick),
        };
        snapshots_insert(&mut self.snapshots, tick.symbol.clone(), snap);
        proof {
            SnapshotManager::lemma_wf_kept(old(self), self, tick.symbol@);
        }
        Ok(())
    }

    /// A copy of a symbol's snapshot.
    pub fn get(&self, symbol: &str) -> (r: Option<SymbolSnapshot>)
        ensures
            r == if self.spec_snapshots().contains_key(symbol@) {
                Some(self.spec_snapshots()[symbol@])
            } else {
                None::<SymbolSnapshot>
            },
    {
        snapshots_get(&self.snapshots, symbol)
    }

    /// Copies of all snapshots, each once, in no fixed order.
    pub fn get_all(&self) -> (r: Vec<SymbolSnapshot>)
        ensures
            lists_values(self.spec_snapshots(), r@),
    {
        snapshots_values(&self.snapshots)
    }

    /// Number of symbols with a snapshot.
    pub fn symbol_count(&self) -> (r: usize)
        ensures
            r == self.spec_snapshots().len(),
    {
        snapshots_len(&self.snapshots)
    }

    /// Sets a symbol's previous close; no effect on a symbol without a snapshot.
    pub fn set_prev_close(&mut self, symbol: &str, prev_close: i64)
        requires
            old(self).wf(),
        ensures
            final(self).wf(),
            final(self).spec_subscriptions() == old(self).spec_subscriptions(),
            final(self).spec_snapshots() == if old(self).spec_snapshots().contains_key(symbol@) {
                old(self).spec_snapshots().insert(
                    symbol@,
                    (SymbolSnapshot { prev_close, ..old(self).spec_snapshots()[symbol@] }),
                )
            } else {
                old(self).spec_snapshots()
            },
    {
        match snapshots_get(&self.snapshots, symbol) {
            Some(s) => {
                assert(old(self).spec_snapshots().contains_key(symbol@));
                let mut s = s;
                s.prev_close = prev_close;
                snapshots_insert(&mut self.snapshots, symbol.to_owned(), s);
                proof {
                    SnapshotManager::lemma_wf_kept(old(self), self, symbol@);
                }
            },
            None => {},
        }
    }

    /// Sets a symbol's daily price limits; no effect on a symbol without a
    /// snapshot.
    pub fn set_limits(&mut self, symbol: &str, upper: i64, lower: i64)
        requires
            old(self).wf(),
        ensures
            final(self).wf(),
            final(self).spec_subscriptions() == old(self).spec_subscriptions(),
            final(self).spec_snapshots() == if old(self).spec_snapshots().contains_key(symbol@) {
                old(self).spec_snapshots().insert(
                    symbol@,
                    (SymbolSnapshot {
                        upper_limit: upper,
                        lower_limit: lower,
                        ..old(self).spec_snapshots()[symbol@]
                    }),
                )
            } else {
                old(self).spec_snapshots()
            },
    {
        match snapshots_get(&self.snapshots, symbol) {
            Some(s) => {
                assert(old(self).spec_snapshots().contains_key(symbol@));
                let mut s = s;
                s.upper_limit = upper;
                s.lower_limit = lower;
                snapshots_insert(&mut self.snapshots, symbol.to_owned(), s);
                proof {
                    SnapshotManager::lemma_wf_kept(old(self), self, symbol@);
                }
            },
            None => {},
        }
    }

    /// Drops every snapshot; subscriptions stay.
    pub fn clear(&mut self)
        requires
            old(self).wf(),
        ensures
            final(self).wf(),
            final(self).spec_subscriptions() == old(self).spec_subscriptions(),
            final(self).spec_snapshots() == no_snapshots(),
    {
        snapshots_clear(&mut self.snapshots);
    }

    /// Starts a new trading day: snapshots are dropped, subscriptions stay.
    pub fn reset_for_new_day(&mut self)
        requires
            old(self).wf(),
        ensures
            final(self).wf(),
            final(self).spec_subscriptions() == old(self).spec_subscriptions(),
            final(self).spec_snapshots() == no_snapshots(),
    {
        snapshots_clear(&mut self.snapshots);
    }
}

impl Default for SnapshotManager {
    fn default() -> (r: SnapshotManager)
        ensures
            r.wf(),
            r.spec_snapshots() == no_snapshots(),
            r.spec_subscriptions() == Set::<Seq<char>>::empty(),
    {
        SnapshotManager::new()
    }
}

} // verus!
