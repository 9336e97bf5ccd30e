use prometheus::{
    CounterVec, GaugeVec, Histogram, HistogramOpts, HistogramVec, IntCounter, IntCounterVec,
    IntGauge, IntGaugeVec, Opts, Registry,
};
use qaexchange::book::{
    book_update_volume, check_fok_fulfillable, get_market_price_for_order, reference, top, Level,
    OrderBook,
};
use qaexchange::broadcast::{BroadcastConfig, DataBroadcaster, MarketDataType};
use qaexchange::clock::{reading, Clock};
use qaexchange::metrics::{
    export_families, export_metrics, exported_name, init_metrics, metrics_to_register, MetricDef,
    MetricKind,
};
use std::collections::HashSet;

#[test]
fn a_feed_reaches_all_receivers() {
    let config = BroadcastConfig::default();
    assert_eq!(config.capacity, 1024);
    assert!(config.is_usable());
    let mut feed = DataBroadcaster::new(config);
    assert_eq!(feed.receiver_count(), 0);
    assert_eq!(feed.broadcast(MarketDataType::Tick, vec![1]), 0);
    let mut a = feed.subscribe();
    let mut b = feed.subscribe();
    assert_eq!(feed.receiver_count(), 2);
    assert_eq!(feed.broadcast(MarketDataType::Depth, vec![2, 3]), 2);
    assert_eq!(a.try_recv().unwrap(), (MarketDataType::Depth, vec![2, 3]));
    assert_eq!(b.try_recv().unwrap(), (MarketDataType::Depth, vec![2, 3]));
    assert!(a.try_recv().is_err());
    drop(a);
    assert_eq!(feed.receiver_count(), 1);
}

#[test]
fn a_receiver_misses_what_came_before() {
    let mut feed = DataBroadcaster::new(BroadcastConfig::default());
    let mut a = feed.subscribe();
    assert_eq!(feed.broadcast(MarketDataType::Tick, vec![1]), 1);
    let mut b = feed.subscribe();
    assert!(b.try_recv().is_err());
    assert_eq!(feed.broadcast(MarketDataType::Trade, vec![2]), 2);
    assert_eq!(b.try_recv().unwrap(), (MarketDataType::Trade, vec![2]));
    assert_eq!(a.try_recv().unwrap(), (MarketDataType::Tick, vec![1]));
    assert_eq!(a.try_recv().unwrap(), (MarketDataType::Trade, vec![2]));
}

#[test]
fn clocks_show_texts_of_one_form() {
    let form = |s: &str| -> String {
        s.chars().map(|c| if c.is_ascii_digit() { '0' } else { c }).collect()
    };
    let clock = Clock::new();
    assert_eq!(form(&clock.today()), "0000-00-00");
    assert_eq!(form(&clock.read().local_time), "0000-00-00 00:00:00");
}

#[test]
fn nanoseconds_that_do_not_fit_count_as_zero() {
    let time = "2025-01-01 09:00:00";
    let r = reading(Some(7), 6, 5, 4, time.to_string());
    assert_eq!((r.nanos, r.millis, r.seconds, r.moment), (7, 6, 5, 4));
    assert_eq!(r.local_time, time);
    assert_eq!(reading(None, 6, 5, 4, time.to_string()).nanos, 0);
}

#[test]
fn an_export_is_the_text_of_what_is_registered() {
    let registry = Registry::new();
    assert_eq!(export_metrics(&registry).as_deref(), Some(""));
    let gauge = IntGauge::with_opts(Opts::new("orders", "Open orders")).unwrap();
    registry.register(Box::new(gauge.clone())).unwrap();
    gauge.set(3);
    assert_eq!(
        export_metrics(&registry).as_deref(),
        Some("# HELP orders Open orders\n# TYPE orders gauge\norders 3\n")
    );
}

#[test]
fn metrics_are_registered_only_once() {
    let mut taken: Vec<String> = Vec::new();
    let first = metrics_to_register(&taken);
    assert_eq!(first.len(), 22);
    let registry = Registry::new();
    for m in &first {
        register(&registry, m);
        taken.push(exported_name(m));
    }
    assert_eq!(taken[0], "qaexchange_qaexchange_order_total");
    assert_eq!(taken[7], "qaexchange_active_factors");
    assert_eq!(taken.iter().collect::<HashSet<_>>().len(), 22);
    assert!(metrics_to_register(&taken).is_empty());
    taken.remove(3);
    let rest = metrics_to_register(&taken);
    assert_eq!(rest.len(), 1);
    assert_eq!(rest[0].name, "qaexchange_trade_total");
}

#[test]
fn nobody_hears_a_feed_without_receivers() {
    let mut feed = DataBroadcaster::new(BroadcastConfig { capacity: 2 });
    assert_eq!(feed.receiver_count(), 0);
    assert_eq!(feed.broadcast(MarketDataType::Tick, vec![1]), 0);
    assert_eq!(feed.broadcast(MarketDataType::Kline, vec![2]), 0);
    let mut a = feed.subscribe();
    assert_eq!(feed.receiver_count(), 1);
    assert!(a.try_recv().is_err());
}

#[test]
fn metrics_of_no_type_are_not_exported() {
    let registry = Registry::new();
    let gauge = IntGauge::with_opts(Opts::new("orders", "Open orders")).unwrap();
    registry.register(Box::new(gauge.clone())).unwrap();
    let mut families = registry.gather();
    assert_eq!(
        export_families(&families).as_deref(),
        Some("# HELP orders Open orders\n# TYPE orders gauge\norders 0\n")
    );
    families[0].set_field_type(prometheus::proto::MetricType::UNTYPED);
    assert_eq!(export_families(&families), None);
    // One without values cannot be encoded.
    assert_eq!(export_families(&vec![prometheus::proto::MetricFamily::default()]), None);
    assert_eq!(export_families(&Vec::new()).as_deref(), Some(""));
}

#[test]
fn a_feed_of_no_capacity_cannot_be_made() {
    assert!(!BroadcastConfig { capacity: 0 }.is_usable());
    assert!(!BroadcastConfig { capacity: usize::MAX }.is_usable());
    assert!(BroadcastConfig { capacity: 1 }.is_usable());
}

fn opts(m: &MetricDef) -> Opts {
    let o = Opts::new(m.name.clone(), m.help.clone());
    if m.namespaced {
        o.namespace("qaexchange")
    } else {
        o
    }
}

fn histogram_opts(m: &MetricDef) -> HistogramOpts {
    HistogramOpts::from(opts(m)).buckets(m.buckets.iter().map(|b| *b as f64 / 10_000.0).collect())
}

fn register(registry: &Registry, m: &MetricDef) {
    let labels: Vec<&str> = m.labels.iter().map(|l| l.as_str()).collect();
    let done = match m.kind {
        MetricKind::IntCounter => {
            registry.register(Box::new(IntCounter::with_opts(opts(m)).unwrap()))
        }
        MetricKind::IntCounterVec => {
            let c = IntCounterVec::new(opts(m), &labels).unwrap();
            c.with_label_values(&vec!["x"; labels.len()]).inc();
            registry.register(Box::new(c))
        }
        MetricKind::CounterVec => {
            registry.register(Box::new(CounterVec::new(opts(m), &labels).unwrap()))
        }
        MetricKind::IntGauge => registry.register(Box::new(IntGauge::with_opts(opts(m)).unwrap())),
        MetricKind::IntGaugeVec => {
            registry.register(Box::new(IntGaugeVec::new(opts(m), &labels).unwrap()))
        }
        MetricKind::GaugeVec => {
            registry.register(Box::new(GaugeVec::new(opts(m), &labels).unwrap()))
        }
        MetricKind::Histogram => {
            registry.register(Box::new(Histogram::with_opts(histogram_opts(m)).unwrap()))
        }
        MetricKind::HistogramVec => {
            registry.register(Box::new(HistogramVec::new(histogram_opts(m), &labels).unwrap()))
        }
    };
    assert!(done.is_ok());
}

#[test]
fn test_metrics_init() {
    let registry = Registry::new();
    for m in init_metrics() {
        register(&registry, &m);
    }
    let output = export_metrics(&registry).unwrap();
    assert!(output.contains("qaexchange_order_total"));
    assert!(output.contains("qaexchange_trade_total"));
    assert!(output.contains("qaexchange_factor_update_total"));
    assert!(output.contains("qaexchange_qaexchange_order_total"));
    assert!(output.contains("\nqaexchange_memory_usage_bytes 0"));
}

#[test]
fn metrics_have_distinct_names_and_sane_buckets() {
    let all = init_metrics();
    assert_eq!(all.len(), 22);
    let names: HashSet<String> = all.iter().map(|m| m.name.clone()).collect();
    assert_eq!(names.len(), 22);
    assert!(all.iter().all(|m| m.name.starts_with("qaexchange_")));
    assert!(all.iter().all(|m| m.buckets.windows(2).all(|w| w[0] < w[1])));
    let factor = all.iter().find(|m| m.name == "qaexchange_factor_latency_us").unwrap();
    assert_eq!(
        factor.buckets,
        vec![1_000, 5_000, 10_000, 20_000, 50_000, 100_000, 250_000, 500_000, 1_000_000]
    );
    let order = all.iter().find(|m| m.name == "qaexchange_order_total").unwrap();
    assert_eq!(order.labels, vec!["direction", "offset", "status"]);
}

fn book() -> OrderBook {
    OrderBook {
        bids: Some(vec![Level { price: 99, volume: 25_000 }, Level { price: 98, volume: 10_000 }]),
        asks: Some(vec![Level { price: 101, volume: 30_000 }, Level { price: 103, volume: 5_000 }]),
        last_price: 0,
    }
}

#[test]
fn a_market_price_comes_from_the_other_side() {
    let b = Some(book());
    assert_eq!(get_market_price_for_order(&b, "BUY"), 101);
    assert_eq!(get_market_price_for_order(&b, "SELL"), 99);
    assert_eq!(get_market_price_for_order(&b, "HOLD"), 0);
    let quiet = |last_price: i64| Some(OrderBook { bids: None, asks: None, last_price });
    assert_eq!(get_market_price_for_order(&quiet(77), "BUY"), 77);
    assert_eq!(get_market_price_for_order(&quiet(-1), "BUY"), 0);
    assert_eq!(get_market_price_for_order(&None, "BUY"), 0);
}

#[test]
fn depth_counts_within_the_price() {
    let b = Some(book());
    assert!(check_fok_fulfillable(&b, "BUY", 30_000, 102));
    assert!(!check_fok_fulfillable(&b, "BUY", 30_001, 102));
    assert!(check_fok_fulfillable(&b, "BUY", 35_000, 103));
    assert!(check_fok_fulfillable(&b, "SELL", 35_000, 98));
    assert!(!check_fok_fulfillable(&b, "SELL", 35_000, 99));
    assert!(!check_fok_fulfillable(&None, "BUY", 0, 102));
    assert!(check_fok_fulfillable(&b, "HOLD", 0, 102));
}

#[test]
fn a_book_update_tells_the_volume_at_a_price() {
    let b = Some(book());
    assert_eq!(book_update_volume(&b, true, 98, None), Some(10_000));
    assert_eq!(book_update_volume(&b, false, 98, None), Some(0));
    assert_eq!(book_update_volume(&b, true, 98, Some(4)), Some(4));
    assert_eq!(book_update_volume(&None, true, 98, Some(4)), None);
}

#[test]
fn a_book_has_a_reference_price_and_a_top() {
    assert_eq!(reference(&book()), 1_000_000);
    let mut b = book();
    b.last_price = 42;
    assert_eq!(reference(&b), 420_000);
    b.last_price = 0;
    b.bids = Some(vec![Level { price: 98, volume: 1 }]);
    assert_eq!(reference(&b), 995_000);
    b.bids = None;
    assert_eq!(reference(&b), 1_010_000);
    b.asks = None;
    assert_eq!(reference(&b), 0);
    let levels = top(&book().bids);
    assert_eq!(levels.len(), 10);
    assert_eq!((levels[0], levels[1], levels[2]), ((99, 2), (98, 1), (0, 0)));
}
