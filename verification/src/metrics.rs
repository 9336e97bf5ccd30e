//! The metrics of the exchange: what is measured, under which names, by which
//! labels, and in which buckets.
use crate::text;
use vstd::prelude::*;

verus! {

/// How something is measured.
#[derive(Debug, Clone, Copy, PartialEq, Eq, Structural)]
pub enum MetricKind {
    /// A whole number that only grows.
    IntCounter,
    /// Such a number for each combination of labels.
    IntCounterVec,
    /// A number that only grows, for each combination of labels.
    CounterVec,
    /// A whole number.
    IntGauge,
    /// Such a number for each combination of labels.
    IntGaugeVec,
    /// A number for each combination of labels.
    GaugeVec,
    /// A distribution.
    Histogram,
    /// A distribution for each combination of labels.
    HistogramVec,
}

/// A metric.
#[derive(Debug)]
pub struct MetricDef<S = String, L = Vec<String>, B = Vec<i64>> {
    pub kind: MetricKind,
    pub name: S,
    pub help: S,
    /// Whether the name of the exchange is put before the name once more.
    pub namespaced: bool,
    pub labels: L,
    /// The upper bounds of the buckets of a distribution, in ten-thousandths.
    pub buckets: B,
}

/// The view of a metric.
pub type MetricView = MetricDef<Seq<char>, Seq<Seq<char>>, Seq<i64>>;

impl View for MetricDef {
    type V = MetricView;

    open spec fn view(&self) -> MetricView {
        MetricDef {
            kind: self.kind,
            name: self.name@,
            help: self.help@,
            namespaced: self.namespaced,
            labels: text::texts(self.labels@),
            buckets: self.buckets@,
        }
    }
}

/// The view of a list of metrics.
pub open spec fn metrics_view(v: Seq<MetricDef>) -> Seq<MetricView> {
    v.map_values(|m: MetricDef| m@)
}

/// A metric.
pub open spec fn metric(
    kind: MetricKind,
    name: Seq<char>,
    help: Seq<char>,
    namespaced: bool,
    labels: Seq<Seq<char>>,
    buckets: Seq<i64>,
) -> MetricView {
    MetricDef { kind, name, help, namespaced, labels, buckets }
}

/// The namespace of the metrics.
pub open spec fn namespace() -> Seq<char> {
    "qaexchange"@
}

/// The name under which a metric is exported.
pub open spec fn full_name(m: MetricView) -> Seq<char> {
    if m.namespaced {
        namespace() + "_"@ + m.name
    } else {
        m.name
    }
}

/// All metrics, in the order in which they are registered.
pub open spec fn catalogue() -> Seq<MetricView> {
    seq![
        metric(
            MetricKind::IntCounterVec,
            "qaexchange_order_total"@,
            "Total number of orders processed"@,
            true,
            seq!["direction"@, "offset"@, "status"@],
            Seq::empty(),
        ),
        metric(
            MetricKind::HistogramVec,
            "qaexchange_order_latency_us"@,
            "Order processing latency in microseconds"@,
            true,
            seq!["operation"@],
            seq![10000i64, 50000i64, 100000i64, 250000i64, 500000i64, 1000000i64, 2500000i64, 5000000i64, 10000000i64, 50000000i64],
        ),
        metric(
            MetricKind::IntGaugeVec,
            "qaexchange_pending_orders"@,
            "Current number of pending orders"@,
            true,
            seq!["instrument_id"@],
            Seq::empty(),
        ),
        metric(
            MetricKind::IntCounterVec,
            "qaexchange_trade_total"@,
            "Total number of trades executed"@,
            true,
            seq!["instrument_id"@],
            Seq::empty(),
        ),
        metric(
            MetricKind::CounterVec,
            "qaexchange_trade_volume"@,
            "Total trade volume"@,
            true,
            seq!["instrument_id"@],
            Seq::empty(),
        ),
        metric(
            MetricKind::IntCounterVec,
            "qaexchange_factor_update_total"@,
            "Total number of factor updates"@,
            true,
            seq!["factor_type"@],
            Seq::empty(),
        ),
        metric(
            MetricKind::HistogramVec,
            "qaexchange_factor_latency_us"@,
            "Factor computation latency in microseconds"@,
            true,
            seq!["factor_name"@],
            seq![1000i64, 5000i64, 10000i64, 20000i64, 50000i64, 100000i64, 250000i64, 500000i64, 1000000i64],
        ),
        metric(
            MetricKind::IntGauge,
            "qaexchange_active_factors"@,
            "Number of active factors"@,
            false,
            Seq::empty(),
            Seq::empty(),
        ),
        metric(
            MetricKind::Histogram,
            "qaexchange_dag_propagation_latency_us"@,
            "DAG update propagation latency"@,
            true,
            Seq::empty(),
            seq![10000i64, 50000i64, 100000i64, 250000i64, 500000i64, 1000000i64, 5000000i64],
        ),
        metric(
            MetricKind::Histogram,
            "qaexchange_wal_write_latency_us"@,
            "WAL write latency in microseconds"@,
            true,
            Seq::empty(),
            seq![100000i64, 250000i64, 500000i64, 1000000i64, 2500000i64, 5000000i64, 10000000i64, 50000000i64],
        ),
        metric(
            MetricKind::IntCounter,
            "qaexchange_wal_bytes_written"@,
            "Total bytes written to WAL"@,
            false,
            Seq::empty(),
            Seq::empty(),
        ),
        metric(
            MetricKind::Histogram,
            "qaexchange_memtable_query_latency_us"@,
            "MemTable query latency"@,
            true,
            Seq::empty(),
            seq![5000i64, 10000i64, 20000i64, 50000i64, 100000i64, 250000i64, 500000i64],
        ),
        metric(
            MetricKind::Histogram,
            "qaexchange_sstable_query_latency_us"@,
            "SSTable query latency"@,
            true,
            Seq::empty(),
            seq![100000i64, 250000i64, 500000i64, 1000000i64, 2500000i64, 5000000i64],
        ),
        metric(
            MetricKind::IntCounterVec,
            "qaexchange_compaction_total"@,
            "Total number of compactions"@,
            true,
            seq!["level"@],
            Seq::empty(),
        ),
        metric(
            MetricKind::IntGauge,
            "qaexchange_websocket_connections"@,
            "Current WebSocket connections"@,
            false,
            Seq::empty(),
            Seq::empty(),
        ),
        metric(
            MetricKind::IntCounterVec,
            "qaexchange_websocket_messages"@,
            "WebSocket messages"@,
            true,
            seq!["direction"@],
            Seq::empty(),
        ),
        metric(
            MetricKind::Histogram,
            "qaexchange_tick_latency_us"@,
            "Tick data latency"@,
            true,
            Seq::empty(),
            seq![10000i64, 20000i64, 50000i64, 100000i64, 250000i64, 500000i64, 1000000i64],
        ),
        metric(
            MetricKind::IntGauge,
            "qaexchange_memory_usage_bytes"@,
            "Memory usage in bytes"@,
            false,
            Seq::empty(),
            Seq::empty(),
        ),
        metric(
            MetricKind::IntGauge,
            "qaexchange_active_accounts"@,
            "Number of active accounts"@,
            false,
            Seq::empty(),
            Seq::empty(),
        ),
        metric(
            MetricKind::IntGauge,
            "qaexchange_active_instruments"@,
            "Number of active instruments"@,
            false,
            Seq::empty(),
            Seq::empty(),
        ),
        metric(
            MetricKind::GaugeVec,
            "qaexchange_replication_lag_ms"@,
            "Replication lag in milliseconds"@,
            true,
            seq!["peer"@],
            Seq::empty(),
        ),
        metric(
            MetricKind::IntGaugeVec,
            "qaexchange_node_role"@,
            "Node role (0=follower, 1=candidate, 2=leader)"@,
            true,
            seq!["node_id"@],
            Seq::empty(),
        ),
    ]
}

fn none() -> (r: Vec<String>)
    ensures
        text::texts(r@) == Seq::<Seq<char>>::empty(),
{
    let r: Vec<String> = Vec::new();
    assert(text::texts(r@) =~= Seq::empty());
    r
}

fn one(a: &str) -> (r: Vec<String>)
    ensures
        text::texts(r@) == seq![a@],
{
    let mut r: Vec<String> = Vec::new();
    r.push(a.to_string());
    assert(text::texts(r@) =~= seq![a@]);
    r
}

fn three(a: &str, b: &str, c: &str) -> (r: Vec<String>)
    ensures
        text::texts(r@) == seq![a@, b@, c@],
{
    let mut r: Vec<String> = Vec::new();
    r.push(a.to_string());
    r.push(b.to_string());
    r.push(c.to_string());
    assert(text::texts(r@) =~= seq![a@, b@, c@]);
    r
}

fn define(
    out: &mut Vec<MetricDef>,
    kind: MetricKind,
    name: &str,
    help: &str,
    namespaced: bool,
    labels: Vec<String>,
    buckets: Vec<i64>,
)
    ensures
        metrics_view(final(out)@) == metrics_view(old(out)@).push(
            metric(kind, name@, help@, namespaced, text::texts(labels@), buckets@),
        ),
{
    out.push(
        MetricDef {
            kind,
            name: name.to_string(),
            help: help.to_string(),
            namespaced,
            labels,
            buckets,
        },
    );
    assert(metrics_view(out@) =~= metrics_view(old(out)@).push(
        metric(kind, name@, help@, namespaced, text::texts(labels@), buckets@),
    ));
}

/// The metrics that are to be registered, in their order.
pub fn init_metrics() -> (r: Vec<MetricDef>)
    ensures
        metrics_view(r@) == catalogue(),
{
    let mut out: Vec<MetricDef> = Vec::new();
    assert(metrics_view(out@) =~= Seq::empty());
    define(
        &mut out,
        MetricKind::IntCounterVec,
        "qaexchange_order_total",
        "Total number of orders processed",
        true,
        three("direction", "offset", "status"),
        Vec::new(),
    );
    let buckets: Vec<i64> = vec![10000, 50000, 100000, 250000, 500000, 1000000, 2500000, 5000000, 10000000, 50000000];
    assert(buckets@ =~= catalogue()[1].buckets);
    define(
        &mut out,
        MetricKind::HistogramVec,
        "qaexchange_order_latency_us",
        "Order processing latency in microseconds",
        true,
        one("operation"),
        buckets,
    );
    define(
        &mut out,
        MetricKind::IntGaugeVec,
        "qaexchange_pending_orders",
        "Current number of pending orders",
        true,
        one("instrument_id"),
        Vec::new(),
    );
    define(
        &mut out,
        MetricKind::IntCounterVec,
        "qaexchange_trade_total",
        "Total number of trades executed",
        true,
        one("instrument_id"),
        Vec::new(),
    );
    define(
        &mut out,
        MetricKind::CounterVec,
        "qaexchange_trade_volume",
        "Total trade volume",
        true,
        one("instrument_id"),
        Vec::new(),
    );
    define(
        &mut out,
        MetricKind::IntCounterVec,
        "qaexchange_factor_update_total",
        "Total number of factor updates",
        true,
        one("factor_type"),
        Vec::new(),
    );
    let buckets: Vec<i64> = vec![1000, 5000, 10000, 20000, 50000, 100000, 250000, 500000, 1000000];
    assert(buckets@ =~= catalogue()[6].buckets);
    define(
        &mut out,
        MetricKind::HistogramVec,
        "qaexchange_factor_latency_us",
        "Factor computation latency in microseconds",
        true,
        one("factor_name"),
        buckets,
    );
    define(
        &mut out,
        MetricKind::IntGauge,
        "qaexchange_active_factors",
        "Number of active factors",
        false,
        none(),
        Vec::new(),
    );
    let buckets: Vec<i64> = vec![10000, 50000, 100000, 250000, 500000, 1000000, 5000000];
    assert(buckets@ =~= catalogue()[8].buckets);
    define(
        &mut out,
        MetricKind::Histogram,
        "qaexchange_dag_propagation_latency_us",
        "DAG update propagation latency",
        true,
        none(),
        buckets,
    );
    let buckets: Vec<i64> = vec![100000, 250000, 500000, 1000000, 2500000, 5000000, 10000000, 50000000];
    assert(buckets@ =~= catalogue()[9].buckets);
    define(
        &mut out,
        MetricKind::Histogram,
        "qaexchange_wal_write_latency_us",
        "WAL write latency in microseconds",
        true,
        none(),
        buckets,
    );
    define(
        &mut out,
        MetricKind::IntCounter,
        "qaexchange_wal_bytes_written",
        "Total bytes written to WAL",
        false,
        none(),
        Vec::new(),
    );
    let buckets: Vec<i64> = vec![5000, 10000, 20000, 50000, 100000, 250000, 500000];
    assert(buckets@ =~= catalogue()[11].buckets);
    define(
        &mut out,
        MetricKind::Histogram,
        "qaexchange_memtable_query_latency_us",
        "MemTable query latency",
        true,
        none(),
        buckets,
    );
    let buckets: Vec<i64> = vec![100000, 250000, 500000, 1000000, 2500000, 5000000];
    assert(buckets@ =~= catalogue()[12].buckets);
    define(
        &mut out,
        MetricKind::Histogram,
        "qaexchange_sstable_query_latency_us",
        "SSTable query latency",
        true,
        none(),
        buckets,
    );
    define(
        &mut out,
        MetricKind::IntCounterVec,
        "qaexchange_compaction_total",
        "Total number of compactions",
        true,
        one("level"),
        Vec::new(),
    );
    define(
        &mut out,
        MetricKind::IntGauge,
        "qaexchange_websocket_connections",
        "Current WebSocket connections",
        false,
        none(),
        Vec::new(),
    );
    define(
        &mut out,
        MetricKind::IntCounterVec,
        "qaexchange_websocket_messages",
        "WebSocket messages",
        true,
        one("direction"),
        Vec::new(),
    );
    let buckets: Vec<i64> = vec![10000, 20000, 50000, 100000, 250000, 500000, 1000000];
    assert(buckets@ =~= catalogue()[16].buckets);
    define(
        &mut out,
        MetricKind::Histogram,
        "qaexchange_tick_latency_us",
        "Tick data latency",
        true,
        none(),
        buckets,
    );
    define(
        &mut out,
        MetricKind::IntGauge,
        "qaexchange_memory_usage_bytes",
        "Memory usage in bytes",
        false,
        none(),
        Vec::new(),
    );
    define(
        &mut out,
        MetricKind::IntGauge,
        "qaexchange_active_accounts",
        "Number of active accounts",
        false,
        none(),
        Vec::new(),
    );
    define(
        &mut out,
        MetricKind::IntGauge,
        "qaexchange_active_instruments",
        "Number of active instruments",
        false,
        none(),
        Vec::new(),
    );
    define(
        &mut out,
        MetricKind::GaugeVec,
        "qaexchange_replication_lag_ms",
        "Replication lag in milliseconds",
        true,
        one("peer"),
        Vec::new(),
    );
    define(
        &mut out,
        MetricKind::IntGaugeVec,
        "qaexchange_node_role",
        "Node role (0=follower, 1=candidate, 2=leader)",
        true,
        one("node_id"),
        Vec::new(),
    );
    assert(metrics_view(out@) =~= catalogue());
    out
}

/// A number that tells the name of a metric from those of all others: made of
/// its length and of one of its characters.
spec fn mark_of(length: nat, c: char) -> int {
    length * 0x1_0000_0000 + c as int
}

/// The number of a name.
spec fn mark(s: Seq<char>) -> int {
    mark_of(s.len(), s[22])
}

/// The numbers of the names of all metrics.
spec fn marks() -> Seq<int> {
    seq![
        mark_of(33, 'o'),
        mark_of(38, 'o'),
        mark_of(36, 'p'),
        mark_of(33, 't'),
        mark_of(34, 't'),
        mark_of(41, 'f'),
        mark_of(39, 'f'),
        mark_of(25, 'o'),
        mark_of(48, 'd'),
        mark_of(42, 'w'),
        mark_of(28, 'r'),
        mark_of(47, 'm'),
        mark_of(46, 's'),
        mark_of(38, 'c'),
        mark_of(32, 'o'),
        mark_of(40, 'w'),
        mark_of(37, 't'),
        mark_of(29, 'e'),
        mark_of(26, 'u'),
        mark_of(29, 'r'),
        mark_of(40, 'r'),
        mark_of(31, 'n'),
    ]
}

/// The names of all metrics have these numbers.
proof fn names_are_marked()
    ensures
        forall|k: int| 0 <= k < 22 ==> mark(full_name(catalogue()[k])) == #[trigger] marks()[k],
{
    reveal_strlit("qaexchange");
    reveal_strlit("_");
    assert(mark(full_name(catalogue()[0])) == marks()[0]) by {
        reveal_strlit("qaexchange_order_total");
    }
    assert(mark(full_name(catalogue()[1])) == marks()[1]) by {
        reveal_strlit("qaexchange_order_latency_us");
    }
    assert(mark(full_name(catalogue()[2])) == marks()[2]) by {
        reveal_strlit("qaexchange_pending_orders");
    }
    assert(mark(full_name(catalogue()[3])) == marks()[3]) by {
        reveal_strlit("qaexchange_trade_total");
    }
    assert(mark(full_name(catalogue()[4])) == marks()[4]) by {
        reveal_strlit("qaexchange_trade_volume");
    }
    assert(mark(full_name(catalogue()[5])) == marks()[5]) by {
        reveal_strlit("qaexchange_factor_update_total");
    }
    assert(mark(full_name(catalogue()[6])) == marks()[6]) by {
        reveal_strlit("qaexchange_factor_latency_us");
    }
    assert(mark(full_name(catalogue()[7])) == marks()[7]) by {
        reveal_strlit("qaexchange_active_factors");
    }
    assert(mark(full_name(catalogue()[8])) == marks()[8]) by {
        reveal_strlit("qaexchange_dag_propagation_latency_us");
    }
    assert(mark(full_name(catalogue()[9])) == marks()[9]) by {
        reveal_strlit("qaexchange_wal_write_latency_us");
    }
    assert(mark(full_name(catalogue()[10])) == marks()[10]) by {
        reveal_strlit("qaexchange_wal_bytes_written");
    }
    assert(mark(full_name(catalogue()[11])) == marks()[11]) by {
        reveal_strlit("qaexchange_memtable_query_latency_us");
    }
    assert(mark(full_name(catalogue()[12])) == marks()[12]) by {
        reveal_strlit("qaexchange_sstable_query_latency_us");
    }
    assert(mark(full_name(catalogue()[13])) == marks()[13]) by {
        reveal_strlit("qaexchange_compaction_total");
    }
    assert(mark(full_name(catalogue()[14])) == marks()[14]) by {
        reveal_strlit("qaexchange_websocket_connections");
    }
    assert(mark(full_name(catalogue()[15])) == marks()[15]) by {
        reveal_strlit("qaexchange_websocket_messages");
    }
    assert(mark(full_name(catalogue()[16])) == marks()[16]) by {
        reveal_strlit("qaexchange_tick_latency_us");
    }
    assert(mark(full_name(catalogue()[17])) == marks()[17]) by {
        reveal_strlit("qaexchange_memory_usage_bytes");
    }
    assert(mark(full_name(catalogue()[18])) == marks()[18]) by {
        reveal_strlit("qaexchange_active_accounts");
    }
    assert(mark(full_name(catalogue()[19])) == marks()[19]) by {
        reveal_strlit("qaexchange_active_instruments");
    }
    assert(mark(full_name(catalogue()[20])) == marks()[20]) by {
        reveal_strlit("qaexchange_replication_lag_ms");
    }
    assert(mark(full_name(catalogue()[21])) == marks()[21]) by {
        reveal_strlit("qaexchange_node_role");
    }
}

/// No two metrics have the same name, so that all of them can be registered.
pub proof fn metric_names_differ(i: int, j: int)
    requires
        0 <= i < j < catalogue().len(),
    ensures
        full_name(catalogue()[i]) != full_name(catalogue()[j]),
{
    names_are_marked();
    assert(catalogue().len() == 22);
    assert(marks()[i] != marks()[j]);
}

/// Whether a distribution is measured.
pub open spec fn is_distribution(kind: MetricKind) -> bool {
    kind == MetricKind::Histogram || kind == MetricKind::HistogramVec
}

/// Whether something is measured for each combination of labels.
pub open spec fn is_labelled(kind: MetricKind) -> bool {
    kind == MetricKind::IntCounterVec || kind == MetricKind::CounterVec || kind
        == MetricKind::IntGaugeVec || kind == MetricKind::GaugeVec || kind
        == MetricKind::HistogramVec
}

/// Whether a metric is well defined: it has labels exactly where it is measured by
/// them, buckets exactly where it is a distribution, which are positive and grow, and
/// only a distribution is named as a number of microseconds.
pub open spec fn well_defined(m: MetricView) -> bool {
    let n = m.name.len() as int;
    &&& m.labels.len() > 0 <==> is_labelled(m.kind)
    &&& m.buckets.len() > 0 <==> is_distribution(m.kind)
    &&& forall|i: int| 0 <= i < m.buckets.len() ==> #[trigger] m.buckets[i] > 0
    &&& forall|i: int, j: int|
        0 <= i < j < m.buckets.len() ==> #[trigger] m.buckets[i] < #[trigger] m.buckets[j]
    &&& n > 11
    &&& m.name[10] == '_'
    &&& is_distribution(m.kind) <==> m.name[n - 3] == '_' && m.name[n - 2] == 'u' && m.name[n - 1]
        == 's'
    &&& !m.namespaced <==> m.kind == MetricKind::IntGauge || m.kind == MetricKind::IntCounter
}

/// Every metric is well defined. A metric that is measured as one whole number is
/// exported under its own name, any other one with the name of the exchange and an
/// underscore before it.
pub proof fn metrics_are_well_defined(k: int)
    requires
        0 <= k < catalogue().len(),
    ensures
        well_defined(catalogue()[k]),
        catalogue().len() == 22,
        catalogue()[k].namespaced ==> full_name(catalogue()[k]) == "qaexchange"@ + "_"@
            + catalogue()[k].name,
        !catalogue()[k].namespaced ==> full_name(catalogue()[k]) == catalogue()[k].name,
{
    assert(well_defined(catalogue()[0])) by {
        reveal_strlit("qaexchange_order_total");
    }
    assert(well_defined(catalogue()[1])) by {
        reveal_strlit("qaexchange_order_latency_us");
    }
    assert(well_defined(catalogue()[2])) by {
        reveal_strlit("qaexchange_pending_orders");
    }
    assert(well_defined(catalogue()[3])) by {
        reveal_strlit("qaexchange_trade_total");
    }
    assert(well_defined(catalogue()[4])) by {
        reveal_strlit("qaexchange_trade_volume");
    }
    assert(well_defined(catalogue()[5])) by {
        reveal_strlit("qaexchange_factor_update_total");
    }
    assert(well_defined(catalogue()[6])) by {
        reveal_strlit("qaexchange_factor_latency_us");
    }
    assert(well_defined(catalogue()[7])) by {
        reveal_strlit("qaexchange_active_factors");
    }
    assert(well_defined(catalogue()[8])) by {
        reveal_strlit("qaexchange_dag_propagation_latency_us");
    }
    assert(well_defined(catalogue()[9])) by {
        reveal_strlit("qaexchange_wal_write_latency_us");
    }
    assert(well_defined(catalogue()[10])) by {
        reveal_strlit("qaexchange_wal_bytes_written");
    }
    assert(well_defined(catalogue()[11])) by {
        reveal_strlit("qaexchange_memtable_query_latency_us");
    }
    assert(well_defined(catalogue()[12])) by {
        reveal_strlit("qaexchange_sstable_query_latency_us");
    }
    assert(well_defined(catalogue()[13])) by {
        reveal_strlit("qaexchange_compaction_total");
    }
    assert(well_defined(catalogue()[14])) by {
        reveal_strlit("qaexchange_websocket_connections");
    }
    assert(well_defined(catalogue()[15])) by {
        reveal_strlit("qaexchange_websocket_messages");
    }
    assert(well_defined(catalogue()[16])) by {
        reveal_strlit("qaexchange_tick_latency_us");
    }
    assert(well_defined(catalogue()[17])) by {
        reveal_strlit("qaexchange_memory_usage_bytes");
    }
    assert(well_defined(catalogue()[18])) by {
        reveal_strlit("qaexchange_active_accounts");
    }
    assert(well_defined(catalogue()[19])) by {
        reveal_strlit("qaexchange_active_instruments");
    }
    assert(well_defined(catalogue()[20])) by {
        reveal_strlit("qaexchange_replication_lag_ms");
    }
    assert(well_defined(catalogue()[21])) by {
        reveal_strlit("qaexchange_node_role");
    }
    assert(catalogue().len() == 22);
}

/// The number of a name without the namespace before it.
spec fn name_mark(s: Seq<char>) -> int {
    mark_of(s.len(), s[11])
}

/// The numbers of the names of all metrics, without the namespace before them.
spec fn name_marks() -> Seq<int> {
    seq![
        mark_of(22, 'o'),
        mark_of(27, 'o'),
        mark_of(25, 'p'),
        mark_of(22, 't'),
        mark_of(23, 't'),
        mark_of(30, 'f'),
        mark_of(28, 'f'),
        mark_of(25, 'a'),
        mark_of(37, 'd'),
        mark_of(31, 'w'),
        mark_of(28, 'w'),
        mark_of(36, 'm'),
        mark_of(35, 's'),
        mark_of(27, 'c'),
        mark_of(32, 'w'),
        mark_of(29, 'w'),
        mark_of(26, 't'),
        mark_of(29, 'm'),
        mark_of(26, 'a'),
        mark_of(29, 'a'),
        mark_of(29, 'r'),
        mark_of(20, 'n'),
    ]
}

/// Whether a metric is measured by the labels that belong to its name.
pub open spec fn labelled_as_named(m: MetricView) -> bool {
    &&& m.name == "qaexchange_order_total"@ ==> m.labels == seq!["direction"@, "offset"@, "status"@]
    &&& m.name == "qaexchange_order_latency_us"@ ==> m.labels == seq!["operation"@]
    &&& m.name == "qaexchange_pending_orders"@ ==> m.labels == seq!["instrument_id"@]
    &&& m.name == "qaexchange_trade_total"@ ==> m.labels == seq!["instrument_id"@]
    &&& m.name == "qaexchange_trade_volume"@ ==> m.labels == seq!["instrument_id"@]
    &&& m.name == "qaexchange_factor_update_total"@ ==> m.labels == seq!["factor_type"@]
    &&& m.name == "qaexchange_factor_latency_us"@ ==> m.labels == seq!["factor_name"@]
    &&& m.name == "qaexchange_compaction_total"@ ==> m.labels == seq!["level"@]
    &&& m.name == "qaexchange_websocket_messages"@ ==> m.labels == seq!["direction"@]
    &&& m.name == "qaexchange_replication_lag_ms"@ ==> m.labels == seq!["peer"@]
    &&& m.name == "qaexchange_node_role"@ ==> m.labels == seq!["node_id"@]
}

/// Whether the bounds of the buckets of a distribution span what belongs to its name.
pub open spec fn bounded_as_named(m: MetricView) -> bool {
    &&& m.name == "qaexchange_order_latency_us"@ ==> m.buckets.len() == 10 && m.buckets[0] == 10000 && m.buckets.last()
        == 50000000
    &&& m.name == "qaexchange_factor_latency_us"@ ==> m.buckets.len() == 9 && m.buckets[0] == 1000 && m.buckets.last()
        == 1000000
    &&& m.name == "qaexchange_dag_propagation_latency_us"@ ==> m.buckets.len() == 7 && m.buckets[0] == 10000 && m.buckets.last()
        == 5000000
    &&& m.name == "qaexchange_wal_write_latency_us"@ ==> m.buckets.len() == 8 && m.buckets[0] == 100000 && m.buckets.last()
        == 50000000
    &&& m.name == "qaexchange_memtable_query_latency_us"@ ==> m.buckets.len() == 7 && m.buckets[0] == 5000 && m.buckets.last()
        == 500000
    &&& m.name == "qaexchange_sstable_query_latency_us"@ ==> m.buckets.len() == 6 && m.buckets[0] == 100000 && m.buckets.last()
        == 5000000
    &&& m.name == "qaexchange_tick_latency_us"@ ==> m.buckets.len() == 7 && m.buckets[0] == 10000 && m.buckets.last()
        == 1000000
}

/// Whether a bound is one, two, two and a half or five times a power of ten.
pub open spec fn is_round(bound: int) -> bool
    decreases bound,
{
    bound == 1 || bound == 2 || bound == 5 || bound == 25 || (bound >= 10 && bound % 10 == 0
        && is_round(bound / 10))
}

/// Every metric has the labels and the range of buckets that belong to its name, and
/// every bound of a bucket is a round number.
#[verifier::spinoff_prover]
pub proof fn metrics_are_measured_as_named(k: int, i: int)
    requires
        0 <= k < catalogue().len(),
    ensures
        labelled_as_named(catalogue()[k]),
        bounded_as_named(catalogue()[k]),
        0 <= i < catalogue()[k].buckets.len() ==> is_round(catalogue()[k].buckets[i] as int),
{
    assert(catalogue().len() == 22);
    assert(name_mark(catalogue()[0].name) == name_marks()[0]) by {
        reveal_strlit("qaexchange_order_total");
    }
    assert(name_mark(catalogue()[1].name) == name_marks()[1]) by {
        reveal_strlit("qaexchange_order_latency_us");
    }
    assert(name_mark(catalogue()[2].name) == name_marks()[2]) by {
        reveal_strlit("qaexchange_pending_orders");
    }
    assert(name_mark(catalogue()[3].name) == name_marks()[3]) by {
        reveal_strlit("qaexchange_trade_total");
    }
    assert(name_mark(catalogue()[4].name) == name_marks()[4]) by {
        reveal_strlit("qaexchange_trade_volume");
    }
    assert(name_mark(catalogue()[5].name) == name_marks()[5]) by {
        reveal_strlit("qaexchange_factor_update_total");
    }
    assert(name_mark(catalogue()[6].name) == name_marks()[6]) by {
        reveal_strlit("qaexchange_factor_latency_us");
    }
    assert(name_mark(catalogue()[7].name) == name_marks()[7]) by {
        reveal_strlit("qaexchange_active_factors");
    }
    assert(name_mark(catalogue()[8].name) == name_marks()[8]) by {
        reveal_strlit("qaexchange_dag_propagation_latency_us");
    }
    assert(name_mark(catalogue()[9].name) == name_marks()[9]) by {
        reveal_strlit("qaexchange_wal_write_latency_us");
    }
    assert(name_mark(catalogue()[10].name) == name_marks()[10]) by {
        reveal_strlit("qaexchange_wal_bytes_written");
    }
    assert(name_mark(catalogue()[11].name) == name_marks()[11]) by {
        reveal_strlit("qaexchange_memtable_query_latency_us");
    }
    assert(name_mark(catalogue()[12].name) == name_marks()[12]) by {
        reveal_strlit("qaexchange_sstable_query_latency_us");
    }
    assert(name_mark(catalogue()[13].name) == name_marks()[13]) by {
        reveal_strlit("qaexchange_compaction_total");
    }
    assert(name_mark(catalogue()[14].name) == name_marks()[14]) by {
        reveal_strlit("qaexchange_websocket_connections");
    }
    assert(name_mark(catalogue()[15].name) == name_marks()[15]) by {
        reveal_strlit("qaexchange_websocket_messages");
    }
    assert(name_mark(catalogue()[16].name) == name_marks()[16]) by {
        reveal_strlit("qaexchange_tick_latency_us");
    }
    assert(name_mark(catalogue()[17].name) == name_marks()[17]) by {
        reveal_strlit("qaexchange_memory_usage_bytes");
    }
    assert(name_mark(catalogue()[18].name) == name_marks()[18]) by {
        reveal_strlit("qaexchange_active_accounts");
    }
    assert(name_mark(catalogue()[19].name) == name_marks()[19]) by {
        reveal_strlit("qaexchange_active_instruments");
    }
    assert(name_mark(catalogue()[20].name) == name_marks()[20]) by {
        reveal_strlit("qaexchange_replication_lag_ms");
    }
    assert(name_mark(catalogue()[21].name) == name_marks()[21]) by {
        reveal_strlit("qaexchange_node_role");
    }
    assert(name_mark(catalogue()[k].name) == name_marks()[k]);
    if catalogue()[k].name == "qaexchange_order_total"@ {
        assert(name_mark(catalogue()[0].name) == name_marks()[k]);
        assert(k == 0);
    }
    if catalogue()[k].name == "qaexchange_order_latency_us"@ {
        assert(name_mark(catalogue()[1].name) == name_marks()[k]);
        assert(k == 1);
    }
    if catalogue()[k].name == "qaexchange_pending_orders"@ {
        assert(name_mark(catalogue()[2].name) == name_marks()[k]);
        assert(k == 2);
    }
    if catalogue()[k].name == "qaexchange_trade_total"@ {
        assert(name_mark(catalogue()[3].name) == name_marks()[k]);
        assert(k == 3);
    }
    if catalogue()[k].name == "qaexchange_trade_volume"@ {
        assert(name_mark(catalogue()[4].name) == name_marks()[k]);
        assert(k == 4);
    }
    if catalogue()[k].name == "qaexchange_factor_update_total"@ {
        assert(name_mark(catalogue()[5].name) == name_marks()[k]);
        assert(k == 5);
    }
    if catalogue()[k].name == "qaexchange_factor_latency_us"@ {
        assert(name_mark(catalogue()[6].name) == name_marks()[k]);
        assert(k == 6);
    }
    if catalogue()[k].name == "qaexchange_dag_propagation_latency_us"@ {
        assert(name_mark(catalogue()[8].name) == name_marks()[k]);
        assert(k == 8);
    }
    if catalogue()[k].name == "qaexchange_wal_write_latency_us"@ {
        assert(name_mark(catalogue()[9].name) == name_marks()[k]);
        assert(k == 9);
    }
    if catalogue()[k].name == "qaexchange_memtable_query_latency_us"@ {
        assert(name_mark(catalogue()[11].name) == name_marks()[k]);
        assert(k == 11);
    }
    if catalogue()[k].name == "qaexchange_sstable_query_latency_us"@ {
        assert(name_mark(catalogue()[12].name) == name_marks()[k]);
        assert(k == 12);
    }
    if catalogue()[k].name == "qaexchange_compaction_total"@ {
        assert(name_mark(catalogue()[13].name) == name_marks()[k]);
        assert(k == 13);
    }
    if catalogue()[k].name == "qaexchange_websocket_messages"@ {
        assert(name_mark(catalogue()[15].name) == name_marks()[k]);
        assert(k == 15);
    }
    if catalogue()[k].name == "qaexchange_tick_latency_us"@ {
        assert(name_mark(catalogue()[16].name) == name_marks()[k]);
        assert(k == 16);
    }
    if catalogue()[k].name == "qaexchange_replication_lag_ms"@ {
        assert(name_mark(catalogue()[20].name) == name_marks()[k]);
        assert(k == 20);
    }
    if catalogue()[k].name == "qaexchange_node_role"@ {
        assert(name_mark(catalogue()[21].name) == name_marks()[k]);
        assert(k == 21);
    }
    reveal_with_fuel(is_round, 9);
}

/// The metrics that are still to be registered where these names are taken, in
/// the order of the catalogue.
pub open spec fn unregistered(taken: Seq<Seq<char>>) -> Seq<MetricView> {
    catalogue().filter(|m: MetricView| !taken.contains(full_name(m)))
}

/// The names that are taken after the registration of all metrics.
pub open spec fn taken_after(taken: Seq<Seq<char>>) -> Seq<Seq<char>> {
    taken + unregistered(taken).map_values(|m: MetricView| full_name(m))
}

/// The name under which a metric is exported.
pub fn exported_name(m: &MetricDef) -> (r: String)
    ensures
        r@ == full_name(m@),
{
    if m.namespaced {
        text::joined(&text::joined("qaexchange", "_"), &m.name)
    } else {
        m.name.clone()
    }
}

/// Whether a name is taken.
fn is_taken(taken: &Vec<String>, name: &str) -> (r: bool)
    ensures
        r == text::texts(taken@).contains(name@),
{
    let n: usize = taken.len();
    let mut i: usize = 0;
    while i < n
        invariant
            i <= n,
            n == taken@.len(),
            forall|j: int| 0 <= j < i ==> #[trigger] text::texts(taken@)[j] != name@,
        decreases n - i,
    {
        assert(text::texts(taken@)[i as int] == taken@[i as int]@);
        if text::same(&taken[i], name) {
            return true;
        }
        i += 1;
    }
    false
}

/// Lists the metrics that are still to be registered where these names are taken.
pub fn metrics_to_register(taken: &Vec<String>) -> (r: Vec<MetricDef>)
    ensures
        metrics_view(r@) == unregistered(text::texts(taken@)),
{
    let ghost free = |m: MetricView| !text::texts(taken@).contains(full_name(m));
    let mut left: Vec<MetricDef> = init_metrics();
    let mut out: Vec<MetricDef> = Vec::new();
    let ghost mut i: int = 0;
    proof {
        reveal(Seq::filter);
        assert(catalogue().skip(0) =~= catalogue());
        assert(metrics_view(out@) =~= catalogue().take(0).filter(free));
    }
    while left.len() > 0
        invariant
            0 <= i <= catalogue().len(),
            metrics_view(left@) == catalogue().skip(i),
            free == (|m: MetricView| !text::texts(taken@).contains(full_name(m))),
            metrics_view(out@) == catalogue().take(i).filter(free),
        decreases left@.len(),
    {
        let ghost before = left@;
        assert(metrics_view(before).len() == before.len());
        let m: MetricDef = left.remove(0);
        assert(m@ == metrics_view(before)[0]);
        assert(metrics_view(left@) =~= metrics_view(before).drop_first());
        assert(catalogue().skip(i).drop_first() =~= catalogue().skip(i + 1));
        proof {
            reveal(Seq::filter);
            assert(catalogue().take(i + 1).drop_last() =~= catalogue().take(i));
        }
        if !is_taken(taken, &exported_name(&m)) {
            let ghost kept = out@;
            out.push(m);
            assert(metrics_view(out@) =~= metrics_view(kept).push(m@));
        }
        proof {
            i = i + 1;
        }
    }
    assert(metrics_view(left@).len() == left@.len());
    assert(catalogue().take(i) =~= catalogue());
    out
}

/// What is kept of metrics with different names has different names, and is part
/// of them.
proof fn kept_names_differ(all: Seq<MetricView>, keep: spec_fn(MetricView) -> bool)
    requires
        forall|i: int, j: int|
            0 <= i < j < all.len() ==> full_name(#[trigger] all[i]) != full_name(#[trigger] all[j]),
    ensures
        forall|i: int, j: int|
            0 <= i < j < all.filter(keep).len() ==> full_name(#[trigger] all.filter(keep)[i])
                != full_name(#[trigger] all.filter(keep)[j]),
        forall|i: int|
            0 <= i < all.filter(keep).len() ==> all.contains(#[trigger] all.filter(keep)[i]),
    decreases all.len(),
{
    reveal(Seq::filter);
    if all.len() > 0 {
        let before = all.drop_last();
        kept_names_differ(before, keep);
        let kept = all.filter(keep);
        assert forall|i: int| 0 <= i < kept.len() implies all.contains(#[trigger] kept[i]) by {
            if i < before.filter(keep).len() {
                assert(before.contains(before.filter(keep)[i]));
                let k = choose|k: int| 0 <= k < before.len() && before[k] == before.filter(keep)[i];
                assert(all[k] == kept[i]);
            } else {
                assert(all[all.len() - 1] == kept[i]);
            }
        }
        assert forall|i: int, j: int| 0 <= i < j < kept.len() implies full_name(
            #[trigger] kept[i],
        ) != full_name(#[trigger] kept[j]) by {
            assert(before.contains(before.filter(keep)[i]));
            let k = choose|k: int| 0 <= k < before.len() && before[k] == before.filter(keep)[i];
            if j < before.filter(keep).len() {
                assert(before.filter(keep)[j] == kept[j]);
            } else {
                assert(all[k] == kept[i] && all[all.len() - 1] == kept[j]);
            }
        }
    }
}

/// However often the metrics are registered, each of them is registered once, and
/// every time but the first there is nothing left to register.
pub proof fn metrics_are_registered_once(taken: Seq<Seq<char>>)
    requires
        taken.no_duplicates(),
    ensures
        taken_after(taken).no_duplicates(),
        forall|i: int|
            0 <= i < catalogue().len() ==> taken_after(taken).contains(
                full_name(#[trigger] catalogue()[i]),
            ),
        unregistered(taken_after(taken)).len() == 0,
        taken_after(taken_after(taken)) == taken_after(taken),
        taken.len() == 0 ==> unregistered(taken) == catalogue(),
{
    let keep = |m: MetricView| !taken.contains(full_name(m));
    let all = catalogue();
    let new = unregistered(taken);
    let names = new.map_values(|m: MetricView| full_name(m));
    let after = taken_after(taken);
    assert forall|i: int, j: int| 0 <= i < j < all.len() implies full_name(#[trigger] all[i])
        != full_name(#[trigger] all[j]) by {
        metric_names_differ(i, j);
    }
    kept_names_differ(all, keep);
    assert forall|i: int| 0 <= i < all.len() implies after.contains(
        full_name(#[trigger] all[i]),
    ) by {
        if keep(all[i]) {
            all.lemma_filter_contains(keep, i);
            let k = choose|k: int| 0 <= k < new.len() && new[k] == all[i];
            assert(after[taken.len() + k] == full_name(all[i]));
        } else {
            let k = choose|k: int| 0 <= k < taken.len() && taken[k] == full_name(all[i]);
            assert(after[k] == full_name(all[i]));
        }
    }
    assert forall|i: int, j: int| 0 <= i < after.len() && 0 <= j < after.len() && i != j implies after[i]
        != after[j] by {
        let n = taken.len() as int;
        if i >= n {
            all.lemma_filter_pred(keep, i - n);
            assert(after[i] == full_name(new[i - n]));
        }
        if j >= n {
            all.lemma_filter_pred(keep, j - n);
            assert(after[j] == full_name(new[j - n]));
        }
        if i < n && j >= n {
            assert(taken.contains(after[i]));
        }
        if j < n && i >= n {
            assert(taken.contains(after[j]));
        }
    }
    let again = |m: MetricView| !after.contains(full_name(m));
    if unregistered(after).len() > 0 {
        kept_names_differ(all, again);
        all.lemma_filter_pred(again, 0);
        let m = unregistered(after)[0];
        assert(all.contains(m));
        let k = choose|k: int| 0 <= k < all.len() && all[k] == m;
        assert(after.contains(full_name(all[k])));
    }
    assert(taken_after(after) =~= after);
    if taken.len() == 0 {
        everything_is_kept(all, keep);
    }
}

/// Where everything is to be kept, it is.
proof fn everything_is_kept(all: Seq<MetricView>, keep: spec_fn(MetricView) -> bool)
    requires
        forall|i: int| 0 <= i < all.len() ==> keep(#[trigger] all[i]),
    ensures
        all.filter(keep) == all,
    decreases all.len(),
{
    reveal(Seq::filter);
    if all.len() > 0 {
        everything_is_kept(all.drop_last(), keep);
        assert(all.drop_last().push(all.last()) =~= all);
    }
}

/// A registry of metrics.
#[verifier::external_type_specification]
#[verifier::external_body]
pub struct ExRegistry(prometheus::Registry);

/// A metric with its values.
#[verifier::external_type_specification]
#[verifier::external_body]
pub struct ExMetricFamily(prometheus::proto::MetricFamily);

/// An error of a registry or of an encoder.
#[verifier::external_type_specification]
#[verifier::external_body]
pub struct ExError(prometheus::Error);

/// `prometheus::Registry::gather`: what the registered metrics show at that
/// moment. Other threads change them, so nothing is claimed of it.
#[verifier::external_body]
fn gather(registry: &prometheus::Registry) -> (r: Vec<prometheus::proto::MetricFamily>)
{
    registry.gather()
}

/// Whether a metric is of no type.
pub uninterp spec fn untyped(family: prometheus::proto::MetricFamily) -> bool;

/// `prometheus::proto::MetricFamily::get_field_type`: whether the type is the one
/// of a metric of no type.
#[verifier::external_body]
fn is_untyped(family: &prometheus::proto::MetricFamily) -> (r: bool)
    ensures
        r == untyped(*family),
{
    matches!(family.get_field_type(), prometheus::proto::MetricType::UNTYPED)
}

/// Whether every metric is of some type.
pub open spec fn typed(families: Seq<prometheus::proto::MetricFamily>) -> bool {
    forall|i: int| 0 <= i < families.len() ==> !untyped(#[trigger] families[i])
}

/// Tests whether every metric is of some type.
fn all_typed(families: &Vec<prometheus::proto::MetricFamily>) -> (r: bool)
    ensures
        r == typed(families@),
{
    let n: usize = families.len();
    let mut i: usize = 0;
    while i < n
        invariant
            i <= n,
            n == families@.len(),
            forall|j: int| 0 <= j < i ==> !untyped(#[trigger] families@[j]),
        decreases n - i,
    {
        if is_untyped(&families[i]) {
            return false;
        }
        i += 1;
    }
    true
}

/// The text form of metrics that are of some type, where they have one.
pub uninterp spec fn text_form(families: Seq<prometheus::proto::MetricFamily>) -> Option<Seq<char>>;

/// `prometheus::TextEncoder::encode_to_string`: the text form of metrics, or an
/// error where they have none; which of them, and the text, depend on the metrics
/// alone.
#[verifier::external_body]
fn encode(families: &Vec<prometheus::proto::MetricFamily>) -> (r: Result<String, prometheus::Error>)
    requires
        typed(families@),
    ensures
        match r {
            Ok(t) => text_form(families@) == Some(t@),
            Err(_) => text_form(families@) is None,
        },
{
    prometheus::TextEncoder::new().encode_to_string(families)
}

/// The text form of metrics; nothing where one of them is of no type or cannot
/// be encoded.
pub fn export_families(families: &Vec<prometheus::proto::MetricFamily>) -> (r: Option<String>)
    ensures
        match r {
            Some(t) => typed(families@) && text_form(families@) == Some(t@),
            None => !typed(families@) || text_form(families@) is None,
        },
{
    if !all_typed(families) {
        return None;
    }
    match encode(families) {
        Ok(t) => Some(t),
        Err(_) => None,
    }
}

/// Exports what the metrics of a registry show, as text; nothing where a metric
/// is of no type or cannot be encoded.
pub fn export_metrics(registry: &prometheus::Registry) -> (r: Option<String>)
    ensures
        exists|families: Seq<prometheus::proto::MetricFamily>| {
            match r {
                Some(t) => typed(families) && #[trigger] text_form(families) == Some(t@),
                None => !typed(families) || text_form(families) is None,
            }
        },
{
    let families: Vec<prometheus::proto::MetricFamily> = gather(registry);
    let r: Option<String> = export_families(&families);
    assert(match r {
        Some(t) => typed(families@) && text_form(families@) == Some(t@),
        None => !typed(families@) || text_form(families@) is None,
    });
    r
}

} // verus!
