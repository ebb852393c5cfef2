use chrono::{TimeZone, Timelike, Utc};
use quant_core::error::MarketDataError;
use quant_core::ohlcv::{Bar, BarAggregator, BarPeriod};
use quant_core::snapshot::{SnapshotManager, SymbolSnapshot};
use quant_core::tick::{Tick, TickBuffer, PRICE_SCALE};

/// A price of `whole` currency units and `hundredths` cents, in price units.
fn px(whole: i64, hundredths: i64) -> i64 {
    whole * PRICE_SCALE + hundredths * (PRICE_SCALE / 100)
}

fn make_tick(symbol: &str, price: i64, volume: i64, secs: i64) -> Tick {
    Tick::new(symbol.to_string(), secs * 1000, price, volume, price - px(0, 1), price + px(0, 1)).unwrap()
}

fn make_tick_at(symbol: &str, price: i64, volume: i64, millis: i64) -> Tick {
    Tick::new(symbol.to_string(), millis, price, volume, price - px(0, 1), price + px(0, 1)).unwrap()
}

fn now_millis() -> i64 {
    Utc::now().timestamp_millis()
}

#[test]
fn test_tick_creation() {
    let tick = make_tick("000001.SZ", px(10, 50), 1000, 1000);
    assert_eq!(tick.symbol, "000001.SZ");
    assert_eq!(tick.price, px(10, 50));
    assert_eq!(tick.volume, 1000);
    assert_eq!(tick.turnover, (10500 * PRICE_SCALE) as i128);
}

#[test]
fn test_tick_validation() {
    assert!(Tick::new("".to_string(), now_millis(), px(10, 0), 100, px(9, 99), px(10, 1)).is_err());
    assert!(Tick::new("TEST".to_string(), now_millis(), -PRICE_SCALE, 100, px(9, 99), px(10, 1)).is_err());
    assert!(Tick::new("TEST".to_string(), now_millis(), px(10, 0), -100, px(9, 99), px(10, 1)).is_err());
}

#[test]
fn test_spread_calculations() {
    let tick = make_tick("TEST", px(10, 0), 100, 1000);
    assert_eq!(tick.spread(), px(0, 2) as i128);
    assert_eq!(tick.mid_price(), px(10, 0));
}

#[test]
fn test_tick_buffer() {
    let mut buffer = TickBuffer::new(3);
    assert!(buffer.is_empty());

    buffer.push(make_tick("TEST", px(10, 0), 100, 1));
    buffer.push(make_tick("TEST", px(10, 50), 200, 2));
    buffer.push(make_tick("TEST", px(11, 0), 150, 3));

    assert_eq!(buffer.len(), 3);
    assert_eq!(buffer.latest().unwrap().price, px(11, 0));

    buffer.push(make_tick("TEST", px(11, 50), 100, 4));
    assert_eq!(buffer.len(), 3);
    assert_eq!(buffer.latest().unwrap().price, px(11, 50));
}

#[test]
fn test_vwap() {
    let mut buffer = TickBuffer::new(10);
    buffer.push(make_tick("TEST", px(10, 0), 100, 1));
    buffer.push(make_tick("TEST", px(20, 0), 100, 2));
    assert_eq!(buffer.vwap(), Some(px(15, 0)));
}

#[test]
fn test_bar_period() {
    assert_eq!(BarPeriod::Minute1.seconds(), 60);
    assert_eq!(BarPeriod::Minute5.seconds(), 300);
    assert_eq!(BarPeriod::Daily.seconds(), 86400);
}

#[test]
fn test_timestamp_alignment() {
    let ts = Utc.with_ymd_and_hms(2024, 1, 15, 10, 3, 45).unwrap().timestamp_millis();
    let aligned = Utc.timestamp_millis_opt(Bar::align_timestamp(ts, BarPeriod::Minute1)).unwrap();
    assert_eq!(aligned.minute(), 3);
    assert_eq!(aligned.second(), 0);

    let aligned5 = Utc.timestamp_millis_opt(Bar::align_timestamp(ts, BarPeriod::Minute5)).unwrap();
    assert_eq!(aligned5.minute(), 0);
}

#[test]
fn test_bar_aggregation() {
    let mut aggregator = BarAggregator::new(BarPeriod::Minute1, 100);
    let base_time = Utc.with_ymd_and_hms(2024, 1, 15, 10, 0, 0).unwrap().timestamp_millis();

    let t1 = make_tick_at("TEST", px(10, 0), 100, base_time);
    assert!(aggregator.process(&t1).is_none());
    assert!(aggregator.current().is_some());

    let t2 = make_tick_at("TEST", px(10, 50), 200, base_time + 30_000);
    assert!(aggregator.process(&t2).is_none());

    let current = aggregator.current().unwrap();
    assert_eq!(current.open, px(10, 0));
    assert_eq!(current.high, px(10, 50));
    assert_eq!(current.close, px(10, 50));
    assert_eq!(current.volume, 300);

    let t3 = make_tick_at("TEST", px(11, 0), 150, base_time + 61_000);
    let completed = aggregator.process(&t3);
    assert!(completed.is_some());

    let bar = completed.unwrap();
    assert_eq!(bar.open, px(10, 0));
    assert_eq!(bar.close, px(10, 50));
}

#[test]
fn test_bar_metrics() {
    // The second tick must fall in the same minute as the first.
    let ts = Bar::align_timestamp(now_millis(), BarPeriod::Minute1);
    let tick = make_tick_at("TEST", px(10, 0), 100, ts);
    let mut bar = Bar::new(&tick, BarPeriod::Minute1);

    let tick2 = make_tick_at("TEST", px(12, 0), 200, ts + 30_000);
    bar.update(&tick2).unwrap();

    assert!(bar.is_bullish());
    assert_eq!(bar.range(), px(2, 0) as i128);
    assert_eq!(bar.body(), px(2, 0) as i128);
    assert_eq!(bar.return_pct(), (20 * PRICE_SCALE) as i128);
}

#[test]
fn test_snapshot_creation() {
    let tick = make_tick_at("000001.SZ", px(10, 0), 1000, now_millis());
    let snapshot = SymbolSnapshot::from_tick(&tick);

    assert_eq!(snapshot.symbol, "000001.SZ");
    assert_eq!(snapshot.last_price, px(10, 0));
    assert_eq!(snapshot.open, px(10, 0));
    assert_eq!(snapshot.high, px(10, 0));
    assert_eq!(snapshot.low, px(10, 0));
}

#[test]
fn test_snapshot_update() {
    let tick1 = make_tick_at("TEST", px(10, 0), 100, now_millis());
    let mut snapshot = SymbolSnapshot::from_tick(&tick1);

    let tick2 = make_tick_at("TEST", px(12, 0), 200, now_millis());
    snapshot.update(&tick2);

    assert_eq!(snapshot.last_price, px(12, 0));
    assert_eq!(snapshot.high, px(12, 0));
    assert_eq!(snapshot.low, px(10, 0));
    assert_eq!(snapshot.volume, 300);
}

#[test]
fn test_snapshot_manager() {
    let mut manager = SnapshotManager::new();

    let tick1 = make_tick_at("000001.SZ", px(10, 0), 100, now_millis());
    manager.process_tick(&tick1).unwrap();

    let tick2 = make_tick_at("000001.SZ", px(10, 50), 200, now_millis());
    manager.process_tick(&tick2).unwrap();

    let snapshot = manager.get("000001.SZ").unwrap();
    assert_eq!(snapshot.last_price, px(10, 50));
    assert_eq!(snapshot.high, px(10, 50));
    assert_eq!(snapshot.low, px(10, 0));
}

#[test]
fn test_change_calculation() {
    let tick = make_tick_at("TEST", px(11, 0), 100, now_millis());
    let mut snapshot = SymbolSnapshot::from_tick(&tick);
    snapshot.prev_close = px(10, 0);

    assert_eq!(snapshot.change(), px(1, 0) as i128);
    assert_eq!(snapshot.change_pct(), (10 * PRICE_SCALE) as i128);
}

#[test]
fn test_limit_detection() {
    let tick = make_tick_at("TEST", px(11, 0), 100, now_millis());
    let mut snapshot = SymbolSnapshot::from_tick(&tick);
    snapshot.upper_limit = px(11, 0);
    snapshot.lower_limit = px(9, 0);

    assert!(snapshot.is_at_upper_limit());
    assert!(!snapshot.is_at_lower_limit());
}

// ---- further cases ----

#[test]
fn tick_errors_carry_the_rejected_value() {
    assert!(matches!(
        Tick::new(String::new(), 0, 1, 1, 0, 0),
        Err(MarketDataError::InvalidSymbol(_))
    ));
    assert_eq!(Tick::new("A".to_string(), 0, 0, 1, 0, 0).unwrap_err(), MarketDataError::InvalidPrice(0));
    assert_eq!(Tick::new("A".to_string(), 0, 5, -3, 0, 0).unwrap_err(), MarketDataError::InvalidVolume(-3));
    let t = Tick::new("A".to_string(), 7, 3, 4, 1, 2).unwrap();
    assert_eq!(t.turnover, 12);
    assert_eq!(t.bid_volume, 0);
    assert_eq!(t.ask_volume, 0);
}

#[test]
fn tick_mid_and_spread_bps() {
    let t = Tick::new("A".to_string(), 0, 100, 1, 99_990, 100_010).unwrap();
    assert_eq!(t.mid_price(), 100_000);
    assert_eq!(t.spread(), 20);
    assert_eq!(t.spread_bps(), 2);
    let odd = Tick::new("A".to_string(), 0, 100, 1, 3, 4).unwrap();
    assert_eq!(odd.mid_price(), 3);
    let zero = Tick::new("A".to_string(), 0, 100, 1, -5, 5).unwrap();
    assert_eq!(zero.spread_bps(), 0);
}

#[test]
fn tick_buffer_keeps_the_newest_in_arrival_order() {
    let mut buffer = TickBuffer::new(2);
    for s in 1..=5 {
        buffer.push(make_tick("T", px(s, 0), 1, s));
        assert!(buffer.len() <= 2);
    }
    let kept: Vec<i64> = buffer.ticks_since(0).iter().map(|t| t.timestamp).collect();
    assert_eq!(kept, vec![4000, 5000]);
}

#[test]
fn tick_buffer_of_capacity_zero_stays_empty() {
    let mut buffer = TickBuffer::new(0);
    buffer.push(make_tick("T", px(1, 0), 1, 1));
    buffer.push(make_tick("T", px(2, 0), 1, 2));
    assert_eq!(buffer.len(), 0);
    assert!(buffer.is_empty());
    assert!(buffer.latest().is_none());
    assert_eq!(buffer.vwap(), None);
}

#[test]
fn aggregator_without_history_still_returns_closed_bars() {
    let mut agg = BarAggregator::new(BarPeriod::Minute1, 0);
    assert!(agg.process(&make_tick("A", px(10, 0), 1, 0)).is_none());
    let closed = agg.process(&make_tick("A", px(11, 0), 1, 60)).unwrap();
    assert_eq!(closed.timestamp, 0);
    assert!(agg.bars().is_empty());
    let last = agg.flush().unwrap();
    assert_eq!(last.timestamp, 60_000);
    assert!(agg.bars().is_empty());
    assert!(agg.current().is_none());
}

#[test]
fn tick_buffer_vwap_absent_without_volume() {
    let mut buffer = TickBuffer::new(4);
    assert_eq!(buffer.vwap(), None);
    buffer.push(make_tick("T", px(10, 0), 0, 1));
    assert_eq!(buffer.vwap(), None);
    buffer.push(make_tick("T", px(12, 0), 3, 2));
    buffer.push(make_tick("T", px(11, 0), 1, 3));
    // (36 + 11) / 4 = 11.75
    assert_eq!(buffer.vwap(), Some(px(11, 75)));
    buffer.clear();
    assert!(buffer.is_empty());
}

#[test]
fn tick_buffer_ticks_since_filters_by_time() {
    let mut buffer = TickBuffer::new(10);
    for s in 1..=4 {
        buffer.push(make_tick("T", px(s, 0), 1, s));
    }
    let since: Vec<i64> = buffer.ticks_since(2500).iter().map(|t| t.timestamp).collect();
    assert_eq!(since, vec![3000, 4000]);
    assert!(buffer.ticks_since(5000).is_empty());
}

#[test]
fn alignment_is_a_floor_to_the_period() {
    for &p in &[BarPeriod::Minute1, BarPeriod::Minute5, BarPeriod::Minute15, BarPeriod::Minute30,
        BarPeriod::Minute60, BarPeriod::Daily] {
        let pm = p.seconds() * 1000;
        for &ts in &[0i64, 1, 59_999, 60_000, 1_705_313_025_123, -1, -60_001, -86_400_000] {
            let a = Bar::align_timestamp(ts, p);
            assert_eq!(a % pm, 0);
            assert_eq!((a / 1000) % p.seconds(), 0);
            assert!(a <= ts && ts < a + pm);
        }
    }
    assert_eq!(Bar::align_timestamp(-1, BarPeriod::Minute1), -60_000);
    assert_eq!(Bar::align_timestamp(125_000, BarPeriod::Minute1), 120_000);
    assert_eq!(Bar::align_timestamp(i64::MIN, BarPeriod::Minute1), i64::MIN);
}

#[test]
fn bar_refuses_foreign_ticks() {
    let t = make_tick("A", px(10, 0), 10, 60);
    let mut bar = Bar::new(&t, BarPeriod::Minute1);
    assert_eq!(bar.timestamp, 60_000);
    let other_symbol = make_tick("B", px(10, 0), 10, 61);
    let later = make_tick("A", px(10, 0), 10, 120);
    assert!(!bar.accepts(&other_symbol));
    assert!(matches!(bar.update(&other_symbol), Err(MarketDataError::AggregationError(_))));
    assert!(matches!(bar.update(&later), Err(MarketDataError::AggregationError(_))));
    assert_eq!(bar.tick_count, 1);
    assert_eq!(bar.volume, 10);
}

#[test]
fn bar_update_tracks_extremes_and_vwap() {
    let mut bar = Bar::new(&make_tick("A", px(10, 0), 10, 0), BarPeriod::Minute5);
    bar.update(&make_tick("A", px(8, 0), 10, 10)).unwrap();
    bar.update(&make_tick("A", px(9, 0), 20, 20)).unwrap();
    assert_eq!((bar.open, bar.high, bar.low, bar.close), (px(10, 0), px(10, 0), px(8, 0), px(9, 0)));
    assert_eq!(bar.tick_count, 3);
    assert_eq!(bar.volume, 40);
    // (100 + 80 + 180) / 40 = 9
    assert_eq!(bar.vwap, px(9, 0));
    assert!(!bar.is_bullish());
    assert_eq!(bar.return_pct(), -(10 * PRICE_SCALE) as i128);
    assert!(!bar.is_complete(299_999));
    assert!(bar.is_complete(300_000));
}

#[test]
fn aggregator_keeps_a_bounded_history() {
    let mut agg = BarAggregator::new(BarPeriod::Minute1, 2);
    for m in 0..4 {
        agg.process(&make_tick("A", px(10 + m, 0), 1, m * 60));
    }
    let starts: Vec<i64> = agg.bars().iter().map(|b| b.timestamp).collect();
    assert_eq!(starts, vec![60_000, 120_000]);
    let last = agg.flush().unwrap();
    assert_eq!(last.timestamp, 180_000);
    assert!(agg.current().is_none());
    assert!(agg.flush().is_none());
    let starts: Vec<i64> = agg.bars().iter().map(|b| b.timestamp).collect();
    assert_eq!(starts, vec![120_000, 180_000]);
    agg.clear();
    assert!(agg.bars().is_empty());
}

#[test]
fn manager_subscriptions_survive_a_new_day() {
    let mut m = SnapshotManager::default();
    assert!(!m.is_subscribed("A"));
    m.process_tick(&make_tick("A", px(10, 0), 5, 1)).unwrap();
    m.process_tick(&make_tick("B", px(20, 0), 5, 1)).unwrap();
    assert!(m.is_subscribed("A"));
    assert_eq!(m.symbol_count(), 2);
    let mut all: Vec<String> = m.get_all().into_iter().map(|s| s.symbol).collect();
    all.sort();
    assert_eq!(all, vec!["A".to_string(), "B".to_string()]);

    m.set_prev_close("A", px(9, 0));
    m.set_limits("A", px(11, 0), px(9, 0));
    m.set_prev_close("Z", px(9, 0));
    let a = m.get("A").unwrap();
    assert_eq!(a.prev_close, px(9, 0));
    assert_eq!((a.upper_limit, a.lower_limit), (px(11, 0), px(9, 0)));
    assert!(m.get("Z").is_none());

    m.reset_for_new_day();
    assert_eq!(m.symbol_count(), 0);
    assert!(m.is_subscribed("A"));

    m.process_tick(&make_tick("A", px(10, 0), 5, 2)).unwrap();
    m.unsubscribe("A");
    assert!(!m.is_subscribed("A"));
    assert!(m.get("A").is_none());
    m.subscribe("C");
    assert!(m.is_subscribed("C"));
    m.clear();
    assert!(m.is_subscribed("C"));
}

#[test]
fn snapshot_vwap_and_spread() {
    let mut s = SymbolSnapshot::from_tick(&make_tick("A", px(10, 0), 0, 1));
    assert_eq!(s.vwap(), px(10, 0) as i128);
    s.update(&make_tick("A", px(12, 0), 2, 2));
    s.update(&make_tick("A", px(9, 0), 2, 3));
    assert_eq!(s.vwap(), px(10, 50) as i128);
    assert_eq!(s.open, px(10, 0));
    assert_eq!(s.low, px(9, 0));
    assert_eq!(s.spread(), px(0, 2) as i128);
    assert_eq!(s.spread_bps(), 22);
    assert_eq!(s.change_pct(), 0);
}
