//! What the router knows, and how an event of the matching engine changes it.
use crate::amounts;
use crate::book;
use crate::book::OrderBook;
use crate::orders::{Order, OrderRouteInfo, OrderStatus};
use crate::protocol::{Effect, EffectView, SnapshotRecord, Success, TickRecord};
use vstd::prelude::*;

verus! {

/// The settings of the priority queue.
#[derive(Debug)]
pub struct PrioritySettings<U = Vec<String>> {
    /// The most orders of low priority that may wait.
    pub low_queue_limit: usize,
    /// Orders of at least this amount are critical, in ten-thousandths.
    pub critical_amount_threshold: i64,
    /// The preferred users, in the order in which they were added.
    pub vip_users: U,
}

/// What the router knows.
#[verifier::ext_equal]
pub struct RouterState {
    /// Every order, by its identifier.
    pub orders: Map<Seq<char>, OrderRouteInfo<Seq<char>>>,
    /// The identifiers of the orders of each account, oldest first.
    pub user_orders: Map<Seq<char>, Seq<Seq<char>>>,
    /// The order behind a number of the matching engine.
    pub engine_orders: Map<u64, Seq<char>>,
    /// The account behind a number of the matching engine.
    pub engine_users: Map<u64, Seq<char>>,
    /// The number of the next order.
    pub order_seq: u64,
    /// The number of trades.
    pub trade_count: u64,
    /// The volume of all trades, in ten-thousandths.
    pub trade_volume: i128,
    /// The turnover of all trades, in hundred-millionths.
    pub trade_amount: i128,
    /// The moment of the last snapshot of each instrument.
    pub snapshot_times: Map<Seq<char>, u64>,
    /// The least time between two snapshots of an instrument, in nanoseconds.
    pub snapshot_interval: u64,
    /// The ticks that wait to be written.
    pub ticks: Seq<TickRecord<Seq<char>>>,
    /// Whether there is a storage.
    pub storage: bool,
    /// Whether there is a market data feed.
    pub broadcaster: bool,
    /// Whether there is a trading state machine.
    pub trading_state: bool,
    /// Whether the writing of ticks is to stop.
    pub flush_stopped: bool,
    /// The settings of the priority queue, where there is one.
    pub priority: Option<PrioritySettings<Seq<Seq<char>>>>,
    /// Whether the priority queue is in use.
    pub priority_enabled: bool,
}

impl RouterState {
    /// The identifiers of the orders of an account.
    pub open spec fn list_of(self, user_id: Seq<char>) -> Seq<Seq<char>> {
        if self.user_orders.contains_key(user_id) {
            self.user_orders[user_id]
        } else {
            Seq::empty()
        }
    }

    /// With another record of an order that is known; the same where it is not.
    pub open spec fn changed(self, order_id: Seq<char>, info: OrderRouteInfo<Seq<char>>) -> RouterState {
        if self.orders.contains_key(order_id) {
            RouterState { orders: self.orders.insert(order_id, info), ..self }
        } else {
            self
        }
    }

    /// With a new order, listed last under an account.
    pub open spec fn stored(
        self,
        order_id: Seq<char>,
        user_id: Seq<char>,
        info: OrderRouteInfo<Seq<char>>,
    ) -> RouterState {
        RouterState {
            orders: self.orders.insert(order_id, info),
            user_orders: self.user_orders.insert(user_id, self.list_of(user_id).push(order_id)),
            ..self
        }
    }

    /// With an order and its account behind a number of the matching engine.
    pub open spec fn numbered(self, id: u64, order_id: Seq<char>, user_id: Seq<char>) -> RouterState {
        RouterState {
            engine_orders: self.engine_orders.insert(id, order_id),
            engine_users: self.engine_users.insert(id, user_id),
            ..self
        }
    }

    /// With one more trade in the totals; the count starts over when it is full,
    /// and the sums stay at the end of their range.
    pub open spec fn traded(self, price: int, volume: int) -> RouterState {
        RouterState {
            trade_count: if self.trade_count == u64::MAX {
                0
            } else {
                (self.trade_count + 1) as u64
            },
            trade_volume: amounts::clamp128(self.trade_volume + volume) as i128,
            trade_amount: amounts::clamp128(self.trade_amount + price * volume) as i128,
            ..self
        }
    }

    /// With an order marked as rejected; the same where it is not known.
    pub open spec fn rejected(self, order_id: Seq<char>) -> RouterState {
        self.changed(
            order_id,
            OrderRouteInfo { status: OrderStatus::Rejected, ..self.orders[order_id] },
        )
    }

    /// With an order marked as rejected at a time; the same where it is not known.
    pub open spec fn rejected_at(self, order_id: Seq<char>, now: i64) -> RouterState {
        self.changed(
            order_id,
            OrderRouteInfo {
                status: OrderStatus::Rejected,
                update_time: now,
                ..self.orders[order_id]
            },
        )
    }

    /// The word for the status of an order; an order that is not known counts as
    /// submitted.
    pub open spec fn word_of(self, order_id: Seq<char>) -> Seq<char> {
        if self.orders.contains_key(order_id) {
            self.orders[order_id].status.word()
        } else {
            "submitted"@
        }
    }

    /// The identifier of an order in the account layer; empty where the order is
    /// not known.
    pub open spec fn qa_order_of(self, order_id: Seq<char>) -> Seq<char> {
        if self.orders.contains_key(order_id) {
            self.orders[order_id].qa_order_id
        } else {
            Seq::empty()
        }
    }

    /// The order behind a number of the matching engine, where there is one.
    pub open spec fn order_behind(self, id: u64) -> Option<Seq<char>> {
        if self.engine_orders.contains_key(id) {
            Some(self.engine_orders[id])
        } else {
            None
        }
    }

    /// The account behind a number of the matching engine, where there is one.
    pub open spec fn user_behind(self, id: u64) -> Option<Seq<char>> {
        if self.engine_users.contains_key(id) {
            Some(self.engine_users[id])
        } else {
            None
        }
    }

    /// Whether the last snapshot of an instrument is so recent that another one
    /// is to be left out.
    pub open spec fn snapshot_too_soon(self, instrument_id: Seq<char>, moment: u64) -> bool {
        self.snapshot_times.contains_key(instrument_id) && {
            let elapsed = if moment >= self.snapshot_times[instrument_id] {
                moment - self.snapshot_times[instrument_id]
            } else {
                0
            };
            elapsed < self.snapshot_interval
        }
    }

    /// With one more tick that waits to be written.
    pub open spec fn with_tick(self, tick: TickRecord<Seq<char>>) -> RouterState {
        RouterState { ticks: self.ticks.push(tick), ..self }
    }

    /// With the moment of the last snapshot of an instrument.
    pub open spec fn snapshot_taken(self, instrument_id: Seq<char>, moment: u64) -> RouterState {
        RouterState { snapshot_times: self.snapshot_times.insert(instrument_id, moment), ..self }
    }
}

/// The state after an event of the matching engine for an order.
pub open spec fn success_state(
    s: RouterState,
    order_id: Seq<char>,
    order: Order<Seq<char>>,
    event: Success,
) -> RouterState {
    let info = s.orders[order_id];
    match event {
        Success::Accepted { id, ts } => s.changed(
            order_id,
            OrderRouteInfo {
                status: OrderStatus::Submitted,
                update_time: ts,
                matching_engine_order_id: Some(id),
                ..info
            },
        ).numbered(id, order_id, order.user_id),
        Success::Filled { price, volume, ts, .. } => s.changed(
            order_id,
            OrderRouteInfo {
                status: OrderStatus::Filled,
                update_time: ts,
                filled_volume: amounts::clamp64(info.filled_volume + volume) as i64,
                ..info
            },
        ).traded(price as int, volume as int),
        Success::PartiallyFilled { price, volume, ts, .. } => s.changed(
            order_id,
            OrderRouteInfo {
                status: OrderStatus::PartiallyFilled,
                update_time: ts,
                filled_volume: amounts::clamp64(info.filled_volume + volume) as i64,
                ..info
            },
        ).traded(price as int, volume as int),
        Success::Cancelled { ts, .. } => s.changed(
            order_id,
            OrderRouteInfo { status: OrderStatus::Cancelled, update_time: ts, ..info },
        ),
        Success::Amended { .. } => s,
    }
}

/// One effect under a condition.
pub open spec fn only(condition: bool, effect: EffectView) -> Seq<EffectView> {
    if condition {
        seq![effect]
    } else {
        Seq::empty()
    }
}

/// The word for the direction of a trade.
pub open spec fn trade_side(direction: Seq<char>) -> Seq<char> {
    if direction == "BUY"@ {
        "buy"@
    } else {
        "sell"@
    }
}

/// The effects of a trade of an order, up to and with the trade report. The
/// trade is first broadcast and recorded; both ends of it are named as far as
/// they are known.
pub open spec fn trade_effects(
    s: RouterState,
    order_id: Seq<char>,
    order: Order<Seq<char>>,
    match_order_id: u64,
    price: i64,
    volume: i64,
    opposite_order_id: u64,
    is_taker: bool,
) -> Seq<EffectView> {
    only(
        s.broadcaster,
        Effect::BroadcastTick {
            instrument_id: order.instrument_id,
            price,
            volume,
            side: trade_side(order.direction),
        },
    ) + only(
        s.broadcaster,
        Effect::BroadcastLastPrice { instrument_id: order.instrument_id, price },
    ) + only(s.storage, Effect::RecordTick { instrument_id: order.instrument_id, price, volume }) + only(
        s.storage,
        Effect::RecordSnapshot { instrument_id: order.instrument_id },
    ) + seq![
        Effect::TradeReport {
            order_id,
            order,
            match_order_id,
            volume,
            price,
            opposite_order_id,
            opposite_user: s.user_behind(opposite_order_id),
            qa_order_id: s.qa_order_of(order_id),
            opposite_order: s.order_behind(opposite_order_id),
            is_taker,
        },
    ]
}

/// The volume of an order that was left when it was cancelled.
pub open spec fn volume_left_over(
    s: RouterState,
    order_id: Seq<char>,
    order: Order<Seq<char>>,
) -> i64 {
    if s.orders.contains_key(order_id) {
        amounts::clamp64(
            s.orders[order_id].order.volume_orign - s.orders[order_id].filled_volume,
        ) as i64
    } else {
        order.volume_orign
    }
}

/// The effects of an event of the matching engine for an order, in order, given
/// the state after it.
pub open spec fn success_effects(
    s: RouterState,
    order_id: Seq<char>,
    order: Order<Seq<char>>,
    event: Success,
    is_taker: bool,
) -> Seq<EffectView> {
    let instrument_id = order.instrument_id;
    match event {
        Success::Accepted { .. } => seq![Effect::AcceptedReport { order_id, order }] + only(
            s.storage,
            Effect::RecordBookTick { instrument_id },
        ) + only(
            s.broadcaster,
            Effect::BroadcastBook {
                instrument_id,
                bid: order.direction == "BUY"@,
                price: order.limit_price,
                given: Some(order.volume_orign),
            },
        ) + only(s.storage, Effect::RecordSnapshot { instrument_id }),
        Success::Filled { order_id: match_order_id, price, volume, opposite_order_id, .. } =>
        trade_effects(
            s,
            order_id,
            order,
            match_order_id,
            price,
            volume,
            opposite_order_id,
            is_taker,
        ) + seq![Effect::ReleaseActive { user_id: order.user_id, order_id }],
        Success::PartiallyFilled { order_id: match_order_id, price, volume, opposite_order_id, .. } =>
        trade_effects(
            s,
            order_id,
            order,
            match_order_id,
            price,
            volume,
            opposite_order_id,
            is_taker,
        ),
        Success::Cancelled { id, .. } => seq![
            Effect::CancelReport {
                order_id,
                order,
                exchange_order_id: id,
                remaining: volume_left_over(s, order_id, order),
                qa_order_id: s.qa_order_of(order_id),
            },
        ] + only(s.storage, Effect::RecordBookTick { instrument_id }) + only(
            s.broadcaster,
            Effect::BroadcastBook {
                instrument_id,
                bid: order.direction == "BUY"@,
                price: order.limit_price,
                given: None,
            },
        ) + only(s.storage, Effect::RecordSnapshot { instrument_id }) + seq![
            Effect::ReleaseActive { user_id: order.user_id, order_id },
        ],
        Success::Amended { .. } => Seq::empty(),
    }
}

/// The best prices of a book on both sides; zero without a book.
pub open spec fn best_prices(b: Option<OrderBook>) -> (int, int) {
    match b {
        Some(b) => (book::best_price(b.bids), book::best_price(b.asks)),
        None => (0, 0),
    }
}

/// The record of a trade.
pub open spec fn trade_tick(
    instrument_id: Seq<char>,
    price: i64,
    volume: i64,
    b: Option<OrderBook>,
    now: i64,
) -> TickRecord<Seq<char>> {
    TickRecord {
        instrument_id,
        last_price: (price * 10_000) as i128,
        bid_price: best_prices(b).0 as i64,
        ask_price: best_prices(b).1 as i64,
        volume: book::whole_units(volume as int) as i64,
        timestamp: now,
    }
}

/// The record of a change of the order book.
pub open spec fn book_tick(
    instrument_id: Seq<char>,
    b: Option<OrderBook>,
    now: i64,
) -> TickRecord<Seq<char>> {
    TickRecord {
        instrument_id,
        last_price: match b {
            Some(b) => book::reference_price(b) as i128,
            None => 0,
        },
        bid_price: best_prices(b).0 as i64,
        ask_price: best_prices(b).1 as i64,
        volume: 0,
        timestamp: now,
    }
}

/// The record of the first levels of an order book. Its price is that of the
/// first bid, else that of the first ask, else zero.
pub open spec fn snapshot_of(
    instrument_id: Seq<char>,
    b: OrderBook,
    now: i64,
) -> SnapshotRecord<Seq<char>, Seq<(i64, i64)>> {
    SnapshotRecord {
        instrument_id,
        bids: book::top_levels(b.bids),
        asks: book::top_levels(b.asks),
        last_price: if book::levels(b.bids).len() > 0 {
            book::best_price(b.bids) as i64
        } else {
            book::best_price(b.asks) as i64
        },
        timestamp: now,
    }
}

} // verus!
