//! What follows from the events of the matching engine: what is reported, what is
//! recorded, and what the router knows afterwards.
use crate::book;
use crate::book::OrderBook;
use crate::clock::ClockReading;
use crate::orders::{Order, OrderStatus};
use crate::protocol::{Ask, Effect, EffectView, MatchResult, Reply, Success};
use crate::router::matching;
use crate::router::matching::{MatchRun, MatchRunView, Progress, ProgressView, ReplyView};
use crate::router::state;
use crate::router::state::RouterState;
use vstd::prelude::*;

verus! {

/// The number under which the engine has matched an order.
pub open spec fn number_of(event: Success) -> u64 {
    match event {
        Success::Accepted { id, .. } => id,
        Success::Filled { order_id, .. } => order_id,
        Success::PartiallyFilled { order_id, .. } => order_id,
        Success::Cancelled { id, .. } => id,
        Success::Amended { id, .. } => id,
    }
}

/// Whether an event is a trade at a price, of a volume, against an order with a
/// number.
pub open spec fn is_trade(event: Success, price: i64, volume: i64, opposite: u64) -> bool {
    match event {
        Success::Filled { price: p, volume: v, opposite_order_id: o, .. } => p == price && v
            == volume && o == opposite,
        Success::PartiallyFilled { price: p, volume: v, opposite_order_id: o, .. } => p == price
            && v == volume && o == opposite,
        _ => false,
    }
}

/// Whether effects hold exactly one report of a trade, and that of an order at a
/// price, of a volume, under the numbers of both sides.
pub open spec fn reports_trade(
    effects: Seq<EffectView>,
    order_id: Seq<char>,
    order: Order<Seq<char>>,
    number: u64,
    price: i64,
    volume: i64,
    opposite: u64,
    taker: bool,
) -> bool {
    &&& exists|i: int| 0 <= i < effects.len() && #[trigger] effects[i] is TradeReport
    &&& forall|i: int, j: int|
        0 <= i < effects.len() && 0 <= j < effects.len() && #[trigger] effects[i] is TradeReport
            && #[trigger] effects[j] is TradeReport ==> i == j
    &&& forall|i: int|
        0 <= i < effects.len() ==> (#[trigger] effects[i] matches Effect::TradeReport {
            order_id: o,
            order: q,
            match_order_id: n,
            price: p,
            volume: v,
            opposite_order_id: m,
            is_taker: t,
            ..
        } ==> o == order_id && q == order && n == number && p == price && v == volume && m
            == opposite && t == taker)
}

/// A trade of an order is reported once, at the price and for the volume at which
/// the engine matched it, whatever the limit of the order is; the report names the
/// order, its identifier in the account layer, and the account and the order on the
/// opposite side as far as they are known.
#[verifier::spinoff_prover]
pub proof fn trades_are_reported_as_matched(
    s: RouterState,
    order_id: Seq<char>,
    order: Order<Seq<char>>,
    event: Success,
    taker: bool,
    price: i64,
    volume: i64,
    opposite: u64,
)
    requires
        is_trade(event, price, volume, opposite),
    ensures
        ({
            let after = state::success_state(s, order_id, order, event);
            let effects = state::success_effects(after, order_id, order, event, taker);
            &&& reports_trade(
                effects,
                order_id,
                order,
                number_of(event),
                price,
                volume,
                opposite,
                taker,
            )
            &&& forall|i: int|
                0 <= i < effects.len() ==> (#[trigger] effects[i] matches Effect::TradeReport {
                    opposite_user,
                    opposite_order,
                    qa_order_id,
                    ..
                } ==> {
                    &&& s.orders.contains_key(order_id) ==> qa_order_id
                        == s.orders[order_id].qa_order_id
                    &&& s.engine_users.contains_key(opposite) ==> opposite_user == Some(
                        s.engine_users[opposite],
                    )
                    &&& !s.engine_users.contains_key(opposite) ==> opposite_user is None
                    &&& s.engine_orders.contains_key(opposite) ==> opposite_order == Some(
                        s.engine_orders[opposite],
                    )
                    &&& !s.engine_orders.contains_key(opposite) ==> opposite_order is None
                })
        }),
{
    let after = state::success_state(s, order_id, order, event);
    let effects = state::success_effects(after, order_id, order, event, taker);
    let n: int = (if s.broadcaster {
        2int
    } else {
        0int
    }) + (if s.storage {
        2int
    } else {
        0int
    });
    assert(effects[n] is TradeReport);
    assert forall|i: int| 0 <= i < effects.len() && i != n implies !(#[trigger] effects[i] is TradeReport) by {}
}

/// Both sides of one match are reported at the same price and for the same volume,
/// each under its own number and that of the other, and one of them as the taker.
#[verifier::spinoff_prover]
pub proof fn both_sides_are_reported_alike(
    s: RouterState,
    run: MatchRunView,
    own: Success,
    other: Success,
    maker: Seq<char>,
    price: i64,
    volume: i64,
)
    requires
        !run.cancelling,
        run.effects.len() == 0,
        is_trade(own, price, volume, number_of(other)),
        is_trade(other, price, volume, number_of(own)),
        s.order_behind(number_of(own)) == Some(run.order_id),
        s.order_behind(number_of(other)) == Some(maker),
        maker != run.order_id,
        s.orders.contains_key(maker),
    ensures
        ({
            let (s2, run2) = matching::event_handled(s, run, own);
            let (s3, run3) = matching::event_handled(
                s2,
                MatchRun { effects: Seq::empty(), ..run2 },
                other,
            );
            &&& reports_trade(
                run2.effects,
                run.order_id,
                run.order,
                number_of(own),
                price,
                volume,
                number_of(other),
                true,
            )
            &&& reports_trade(
                run3.effects,
                maker,
                s.orders[maker].order,
                number_of(other),
                price,
                volume,
                number_of(own),
                false,
            )
        }),
{
    let (s2, run2) = matching::event_handled(s, run, own);
    trades_are_reported_as_matched(
        s,
        run.order_id,
        run.order,
        own,
        true,
        price,
        volume,
        number_of(other),
    );
    assert(s2.orders.contains_key(maker) && s2.orders[maker] == s.orders[maker]);
    trades_are_reported_as_matched(
        s2,
        maker,
        s.orders[maker].order,
        other,
        false,
        price,
        volume,
        number_of(own),
    );
}

/// Whatever else follows from a trade is about the same trade: it is broadcast and
/// recorded at its price and for its volume, as bought or sold, where there is a
/// feed or a storage. The risk checker drops the order after the report, exactly
/// where the order is filled.
#[verifier::spinoff_prover]
pub proof fn trades_are_told_as_matched(
    s: RouterState,
    order_id: Seq<char>,
    order: Order<Seq<char>>,
    event: Success,
    taker: bool,
    price: i64,
    volume: i64,
    opposite: u64,
)
    requires
        is_trade(event, price, volume, opposite),
    ensures
        ({
            let effects = state::success_effects(s, order_id, order, event, taker);
            let instrument_id = order.instrument_id;
            let side = if order.direction == "BUY"@ {
                "buy"@
            } else {
                "sell"@
            };
            &&& s.broadcaster <==> effects.contains(
                Effect::BroadcastTick { instrument_id, price, volume, side },
            )
            &&& s.broadcaster <==> effects.contains(
                Effect::BroadcastLastPrice { instrument_id, price },
            )
            &&& s.storage <==> effects.contains(Effect::RecordTick { instrument_id, price, volume })
            &&& s.storage <==> effects.contains(Effect::RecordSnapshot { instrument_id })
            &&& event is PartiallyFilled ==> effects.last() is TradeReport
            &&& event is Filled ==> effects.last() == (Effect::<
                Seq<char>,
                Seq<(i64, i64)>,
            >::ReleaseActive { user_id: order.user_id, order_id }) && effects[effects.len()
                - 2] is TradeReport
            &&& effects.len() == (if s.broadcaster {
                2int
            } else {
                0int
            }) + (if s.storage {
                2int
            } else {
                0int
            }) + (if event is Filled {
                2int
            } else {
                1int
            })
        }),
{
    let effects = state::success_effects(s, order_id, order, event, taker);
    let k: int = if s.broadcaster {
        2
    } else {
        0
    };
    let n = effects.len() as int;
    let instrument_id = order.instrument_id;
    let side = if order.direction == "BUY"@ {
        "buy"@
    } else {
        "sell"@
    };
    if s.broadcaster {
        let tick: EffectView = Effect::BroadcastTick { instrument_id, price, volume, side };
        let last: EffectView = Effect::BroadcastLastPrice { instrument_id, price };
        assert(effects[0] == tick);
        assert(effects[1] == last);
    } else {
        assert forall|i: int| 0 <= i < n implies !(#[trigger] effects[i] is BroadcastTick
            || effects[i] is BroadcastLastPrice) by {}
    }
    if s.storage {
        let tick: EffectView = Effect::RecordTick { instrument_id, price, volume };
        let snapshot: EffectView = Effect::RecordSnapshot { instrument_id };
        assert(effects[k] == tick);
        assert(effects[k + 1] == snapshot);
    } else {
        assert forall|i: int| 0 <= i < n implies !(#[trigger] effects[i] is RecordTick
            || effects[i] is RecordSnapshot) by {}
    }
}

/// After a trade the order is filled, or filled in part, as the engine says, at the
/// time of the event; its filled volume has grown by the volume of the trade, where
/// that fits, and nothing else of it has changed.
pub proof fn trades_change_the_order(
    s: RouterState,
    order_id: Seq<char>,
    order: Order<Seq<char>>,
    event: Success,
    price: i64,
    volume: i64,
    opposite: u64,
)
    requires
        is_trade(event, price, volume, opposite),
        s.orders.contains_key(order_id),
        i64::MIN <= s.orders[order_id].filled_volume + volume <= i64::MAX,
    ensures
        ({
            let before = s.orders[order_id];
            let after = state::success_state(s, order_id, order, event).orders[order_id];
            &&& event is Filled ==> after.status == OrderStatus::Filled
            &&& event is PartiallyFilled ==> after.status == OrderStatus::PartiallyFilled
            &&& after.filled_volume == before.filled_volume + volume
            &&& event matches Success::Filled { ts, .. } ==> after.update_time == ts
            &&& event matches Success::PartiallyFilled { ts, .. } ==> after.update_time == ts
            &&& after.order == before.order
            &&& after.submit_time == before.submit_time
            &&& after.qa_order_id == before.qa_order_id
            &&& after.matching_engine_order_id == before.matching_engine_order_id
            &&& after.time_condition == before.time_condition
            &&& after.volume_condition == before.volume_condition
        }),
{
}

/// An order that is accepted rests, under the number that the engine gave it, which
/// from then on stands for the order and its account; it is reported first, and its
/// price, volume and side are broadcast.
#[verifier::spinoff_prover]
pub proof fn acceptances_are_reported(
    s: RouterState,
    order_id: Seq<char>,
    order: Order<Seq<char>>,
    id: u64,
    ts: i64,
    taker: bool,
)
    ensures
        ({
            let event = Success::Accepted { id, ts };
            let after = state::success_state(s, order_id, order, event);
            let effects = state::success_effects(after, order_id, order, event, taker);
            let instrument_id = order.instrument_id;
            &&& after.engine_orders == s.engine_orders.insert(id, order_id)
            &&& after.engine_users == s.engine_users.insert(id, order.user_id)
            &&& s.orders.contains_key(order_id) ==> {
                &&& after.orders[order_id].status == OrderStatus::Submitted
                &&& after.orders[order_id].update_time == ts
                &&& after.orders[order_id].matching_engine_order_id == Some(id)
                &&& after.orders[order_id].filled_volume == s.orders[order_id].filled_volume
                &&& after.orders[order_id].order == s.orders[order_id].order
                &&& after.orders[order_id].submit_time == s.orders[order_id].submit_time
                &&& after.orders[order_id].qa_order_id == s.orders[order_id].qa_order_id
            }
            &&& effects[0] == (Effect::<Seq<char>, Seq<(i64, i64)>>::AcceptedReport {
                order_id,
                order,
            })
            &&& s.storage <==> effects.contains(Effect::RecordBookTick { instrument_id })
            &&& s.storage <==> effects.contains(Effect::RecordSnapshot { instrument_id })
            &&& s.broadcaster <==> effects.contains(
                Effect::BroadcastBook {
                    instrument_id,
                    bid: order.direction == "BUY"@,
                    price: order.limit_price,
                    given: Some(order.volume_orign),
                },
            )
            &&& effects.len() == 1 + (if s.storage {
                2int
            } else {
                0int
            }) + (if s.broadcaster {
                1int
            } else {
                0int
            })
        }),
{
    let event = Success::Accepted { id, ts };
    let after = state::success_state(s, order_id, order, event);
    let effects = state::success_effects(after, order_id, order, event, taker);
    let k: int = if s.storage {
        2
    } else {
        1
    };
    let n = effects.len() as int;
    let instrument_id = order.instrument_id;
    if s.storage {
        let tick: EffectView = Effect::RecordBookTick { instrument_id };
        let snapshot: EffectView = Effect::RecordSnapshot { instrument_id };
        assert(effects[1] == tick);
        assert(effects[n - 1] == snapshot);
    } else {
        assert forall|i: int| 0 <= i < n implies !(#[trigger] effects[i] is RecordBookTick
            || effects[i] is RecordSnapshot) by {}
    }
    if s.broadcaster {
        let told: EffectView = Effect::BroadcastBook {
            instrument_id,
            bid: order.direction == "BUY"@,
            price: order.limit_price,
            given: Some(order.volume_orign),
        };
        assert(effects[k] == told);
    } else {
        assert forall|i: int| 0 <= i < n implies !(#[trigger] effects[i] is BroadcastBook) by {}
    }
}

/// An order that the engine has cancelled is closed at the time of the event, with
/// what it had filled; the account is told first, with the volume that was left,
/// and the risk checker drops the order at the end.
#[verifier::spinoff_prover]
pub proof fn cancellations_are_reported(
    s: RouterState,
    order_id: Seq<char>,
    order: Order<Seq<char>>,
    id: u64,
    ts: i64,
    taker: bool,
)
    requires
        s.orders.contains_key(order_id),
        i64::MIN <= s.orders[order_id].order.volume_orign - s.orders[order_id].filled_volume
            <= i64::MAX,
    ensures
        ({
            let event = Success::Cancelled { id, ts };
            let before = s.orders[order_id];
            let after = state::success_state(s, order_id, order, event);
            let effects = state::success_effects(after, order_id, order, event, taker);
            let instrument_id = order.instrument_id;
            &&& after.orders[order_id].status == OrderStatus::Cancelled
            &&& after.orders[order_id].update_time == ts
            &&& after.orders[order_id].filled_volume == before.filled_volume
            &&& after.orders[order_id].order == before.order
            &&& after.orders[order_id].submit_time == before.submit_time
            &&& effects[0] matches Effect::CancelReport {
                order_id: o,
                order: q,
                exchange_order_id,
                remaining,
                qa_order_id,
            }
            &&& o == order_id && q == order
            &&& exchange_order_id == id
            &&& remaining == before.order.volume_orign - before.filled_volume
            &&& qa_order_id == before.qa_order_id
            &&& s.storage <==> effects.contains(Effect::RecordBookTick { instrument_id })
            &&& s.storage <==> effects.contains(Effect::RecordSnapshot { instrument_id })
            &&& s.broadcaster <==> effects.contains(
                Effect::BroadcastBook {
                    instrument_id,
                    bid: order.direction == "BUY"@,
                    price: order.limit_price,
                    given: None,
                },
            )
            &&& effects.last() == (Effect::<Seq<char>, Seq<(i64, i64)>>::ReleaseActive {
                user_id: order.user_id,
                order_id,
            })
        }),
{
    let event = Success::Cancelled { id, ts };
    let after = state::success_state(s, order_id, order, event);
    let effects = state::success_effects(after, order_id, order, event, taker);
    let k: int = if s.storage {
        2
    } else {
        1
    };
    let n = effects.len() as int;
    let instrument_id = order.instrument_id;
    if s.storage {
        let tick: EffectView = Effect::RecordBookTick { instrument_id };
        let snapshot: EffectView = Effect::RecordSnapshot { instrument_id };
        assert(effects[1] == tick);
        assert(effects[n - 2] == snapshot);
    } else {
        assert forall|i: int| 0 <= i < n implies !(#[trigger] effects[i] is RecordBookTick
            || effects[i] is RecordSnapshot) by {}
    }
    if s.broadcaster {
        let told: EffectView = Effect::BroadcastBook {
            instrument_id,
            bid: order.direction == "BUY"@,
            price: order.limit_price,
            given: None,
        };
        assert(effects[k] == told);
    } else {
        assert forall|i: int| 0 <= i < n implies !(#[trigger] effects[i] is BroadcastBook) by {}
    }
}

/// Effects are carried out one after the other: one that needs no order book is
/// asked for itself, and once it is done the next one is up.
pub proof fn effects_come_one_by_one(
    s: RouterState,
    run: MatchRunView,
    reply: ReplyView,
    clock: ClockReading<Seq<char>>,
)
    requires
        run.effects.len() > 1,
        !(run.effects[0] is RecordTick || run.effects[0] is RecordBookTick
            || run.effects[0] is RecordSnapshot || run.effects[0] is BroadcastBook),
    ensures
        matching::run_asks(run) == Ask::<Seq<char>, Seq<(i64, i64)>>::Perform(run.effects[0]),
        reply is Done || (reply is Failed && !(run.effects[0] is AcceptedReport
            || run.effects[0] is TradeReport || run.effects[0] is CancelReport))
            ==> matching::settled(s, run, reply, clock).1 == ProgressView::Running(
            MatchRun { effects: run.effects.drop_first(), ..run },
        ),
        reply is Done && !(run.effects[0] is WriteSnapshot || run.effects[0] is RejectedReport)
            ==> matching::settled(s, run, reply, clock).0 == s,
        reply matches Reply::Failed(reason) ==> ((run.effects[0] is AcceptedReport
            || run.effects[0] is TradeReport || run.effects[0] is CancelReport) && !run.cancelling
            ==> matching::settled(s, run, reply, clock) == (s, ProgressView::Failed(reason))),
{
}

/// An effect that takes the order book into account is asked for by that book.
pub proof fn books_are_asked_for(run: MatchRunView, instrument_id: Seq<char>)
    requires
        run.effects.len() > 0,
        run.effects[0] == (Effect::<Seq<char>, Seq<(i64, i64)>>::RecordBookTick { instrument_id })
            || run.effects[0] == (Effect::<Seq<char>, Seq<(i64, i64)>>::RecordSnapshot {
            instrument_id,
        }) || (run.effects[0] matches Effect::RecordTick { instrument_id: i, .. } && i
            == instrument_id) || (run.effects[0] matches Effect::BroadcastBook {
            instrument_id: i,
            ..
        } && i == instrument_id),
    ensures
        matching::run_asks(run) == (Ask::<Seq<char>, Seq<(i64, i64)>>::Book { instrument_id }),
{
}

/// The first price of a side of a book, or zero.
pub open spec fn first_price(side: Option<Vec<book::Level>>) -> i64 {
    if side is Some && side->0@.len() > 0 {
        side->0@[0].price
    } else {
        0
    }
}

/// Whether a number of whole units is what a volume comes to, cut off towards zero.
pub open spec fn whole_of(units: i64, volume: i64) -> bool {
    if volume >= 0 {
        10_000 * units <= volume < 10_000 * (units + 1)
    } else {
        10_000 * (units - 1) < volume <= 10_000 * units
    }
}

/// A trade is recorded as one tick behind all others: at its price, for its whole
/// units, with the first prices of both sides, at the present time.
pub proof fn trades_are_recorded(
    s: RouterState,
    run: MatchRunView,
    instrument_id: Seq<char>,
    price: i64,
    volume: i64,
    b: Option<OrderBook>,
    clock: ClockReading<Seq<char>>,
)
    requires
        run.effects.len() > 1,
        run.effects[0] == (Effect::<Seq<char>, Seq<(i64, i64)>>::RecordTick {
            instrument_id,
            price,
            volume,
        }),
    ensures
        ({
            let (s2, progress) = matching::settled(s, run, Reply::Book(b), clock);
            let tick = s2.ticks.last();
            &&& progress == ProgressView::Running(
                MatchRun { effects: run.effects.drop_first(), ..run },
            )
            &&& s2.ticks == s.ticks.push(tick)
            &&& s2 == (RouterState { ticks: s2.ticks, ..s })
            &&& tick.instrument_id == instrument_id
            &&& tick.last_price == price * 10_000
            &&& whole_of(tick.volume, volume)
            &&& tick.timestamp == clock.nanos
            &&& tick.bid_price == (if b is Some {
                first_price(b->0.bids)
            } else {
                0
            })
            &&& tick.ask_price == (if b is Some {
                first_price(b->0.asks)
            } else {
                0
            })
        }),
{
}

/// A change of the order book is recorded as one tick of no volume: at the last
/// price, or else halfway between the first prices, or else at the one that there
/// is.
pub proof fn changes_of_the_book_are_recorded(
    s: RouterState,
    run: MatchRunView,
    instrument_id: Seq<char>,
    b: OrderBook,
    clock: ClockReading<Seq<char>>,
)
    requires
        run.effects.len() > 1,
        run.effects[0] == (Effect::<Seq<char>, Seq<(i64, i64)>>::RecordBookTick { instrument_id }),
    ensures
        ({
            let (s2, progress) = matching::settled(s, run, Reply::Book(Some(b)), clock);
            let tick = s2.ticks.last();
            let bid = first_price(b.bids);
            let ask = first_price(b.asks);
            &&& s2.ticks == s.ticks.push(tick)
            &&& s2 == (RouterState { ticks: s2.ticks, ..s })
            &&& tick.instrument_id == instrument_id
            &&& tick.volume == 0
            &&& tick.bid_price == bid
            &&& tick.ask_price == ask
            &&& tick.timestamp == clock.nanos
            &&& b.last_price > 0 ==> tick.last_price == b.last_price * 10_000
            &&& b.last_price <= 0 && bid > 0 && ask > 0 ==> 2 * tick.last_price == (bid + ask)
                * 10_000
            &&& b.last_price <= 0 && bid > 0 && ask <= 0 ==> tick.last_price == bid * 10_000
            &&& b.last_price <= 0 && bid <= 0 && ask > 0 ==> tick.last_price == ask * 10_000
            &&& b.last_price <= 0 && bid <= 0 && ask <= 0 ==> tick.last_price == 0
        }),
{
}

/// Whether a list of ten shows the first levels of a side: the price and the whole
/// units of each, and zeros behind the last.
pub open spec fn shows_side(shown: Seq<(i64, i64)>, side: Option<Vec<book::Level>>) -> bool {
    let n = if side is Some {
        side->0@.len() as int
    } else {
        0
    };
    &&& shown.len() == 10
    &&& forall|i: int|
        0 <= i < 10 && i < n ==> (#[trigger] shown[i]).0 == side->0@[i].price && whole_of(
            shown[i].1,
            side->0@[i].volume,
        )
    &&& forall|i: int| 0 <= i < 10 && i >= n ==> #[trigger] shown[i] == (0i64, 0i64)
}

/// A snapshot shows the first ten levels of both sides, and the first bid, or else
/// the first ask, as the last price. It is taken unless one of the instrument was
/// written less than the interval ago; once it is written, its moment is kept.
pub proof fn snapshots_show_the_book(
    s: RouterState,
    run: MatchRunView,
    instrument_id: Seq<char>,
    b: OrderBook,
    clock: ClockReading<Seq<char>>,
    later: ClockReading<Seq<char>>,
)
    requires
        run.effects.len() > 1,
        run.effects[0] == (Effect::<Seq<char>, Seq<(i64, i64)>>::RecordSnapshot { instrument_id }),
    ensures
        ({
            let (s2, progress) = matching::settled(s, run, Reply::Book(Some(b)), clock);
            let recent = s.snapshot_times.contains_key(instrument_id) && clock.moment
                < s.snapshot_times[instrument_id] + s.snapshot_interval;
            &&& s2 == s
            &&& recent && s.snapshot_interval > 0 ==> progress == ProgressView::Running(
                MatchRun { effects: run.effects.drop_first(), ..run },
            )
            &&& !recent ==> {
                &&& progress matches Progress::Running(next)
                &&& next.results == run.results && next.order_id == run.order_id
                &&& next.effects.drop_first() == run.effects.drop_first()
                &&& next.effects[0] matches Effect::WriteSnapshot { record, moment }
                &&& moment == clock.moment
                &&& record.instrument_id == instrument_id
                &&& record.timestamp == clock.nanos
                &&& shows_side(record.bids, b.bids)
                &&& shows_side(record.asks, b.asks)
                &&& b.bids is Some && b.bids->0@.len() > 0 ==> record.last_price
                    == b.bids->0@[0].price
                &&& !(b.bids is Some && b.bids->0@.len() > 0) ==> record.last_price == first_price(
                    b.asks,
                )
                &&& matching::settled(s, next, Reply::Done, later).0.snapshot_times
                    == s.snapshot_times.insert(instrument_id, clock.moment)
                &&& matching::settled(s, next, Reply::Failed("x"@), later).0.snapshot_times
                    == s.snapshot_times
            }
        }),
{
    let (s2, progress) = matching::settled(s, run, Reply::Book(Some(b)), clock);
    match progress {
        Progress::Running(next) => {
            if next.effects.len() == run.effects.len() {
                assert(next.effects.drop_first() =~= run.effects.drop_first());
            }
        },
        _ => {},
    }
}

/// A change at a price of the book is broadcast with the volume that is given, or
/// else with the volume of the first level at that price; without a book nothing
/// is.
pub proof fn changes_of_the_book_are_broadcast(
    s: RouterState,
    run: MatchRunView,
    instrument_id: Seq<char>,
    bid: bool,
    price: i64,
    given: Option<i64>,
    b: OrderBook,
    clock: ClockReading<Seq<char>>,
)
    requires
        run.effects.len() > 1,
        run.effects[0] == (Effect::<Seq<char>, Seq<(i64, i64)>>::BroadcastBook {
            instrument_id,
            bid,
            price,
            given,
        }),
    ensures
        ({
            let side = match (bid, b.bids, b.asks) {
                (true, Some(v), _) => v@,
                (false, _, Some(v)) => v@,
                _ => Seq::empty(),
            };
            let (s2, progress) = matching::settled(s, run, Reply::Book(Some(b)), clock);
            &&& s2 == s
            &&& progress matches Progress::Running(next)
            &&& next.effects[0] matches Effect::BroadcastVolume {
                instrument_id: i,
                side: word,
                price: p,
                volume,
            }
            &&& i == instrument_id && p == price
            &&& word == (if bid {
                "bid"@
            } else {
                "ask"@
            })
            &&& given matches Some(v) ==> volume == v
            &&& given is None ==> book::is_volume_at(side, price as int, volume as int)
            &&& matching::settled(s, run, Reply::Book(None), clock) == (
                s,
                ProgressView::Running(MatchRun { effects: run.effects.drop_first(), ..run }),
            )
        }),
{
    book::volume_at_is_first(
        book::levels(
            if bid {
                b.bids
            } else {
                b.asks
            },
        ),
        price as int,
    );
    let (s2, progress) = matching::settled(s, run, Reply::Book(Some(b)), clock);
    match progress {
        Progress::Running(next) => {
            assert(next.effects[0] is BroadcastVolume);
        },
        _ => {},
    }
}

/// The results of the engine are handled in their order: the first one is, and
/// what follows from it is up before the others.
pub proof fn results_come_in_order(s: RouterState, run: MatchRunView, event: Success)
    requires
        run.effects.len() == 0,
        run.results.len() > 0,
        run.results[0] == MatchResult::<Seq<char>>::Done(event),
        run.cancelling || !run.accepted && event is Accepted,
        !(event is Amended),
    ensures
        ({
            let (s2, progress) = matching::advance(s, run);
            &&& s2 == state::success_state(s, run.order_id, run.order, event)
            &&& progress matches Progress::Running(next)
            &&& next.order_id == run.order_id && next.order == run.order
            &&& next.results == run.results.drop_first()
            &&& next.effects == state::success_effects(s2, run.order_id, run.order, event, true)
        }),
{
    let rest = MatchRun { results: run.results.drop_first(), ..run };
    let (s2, run2) = matching::event_handled(s, rest, event);
    assert(run2.effects.len() > 0);
    assert(matching::advance(s, run) == matching::advance(
        s2,
        MatchRun { results: rest.results, ..run2 },
    ));
}

/// While an order is being cancelled, a report that fails keeps the other effects of
/// the same event from being carried out, and the run goes on with the other results.
pub proof fn failed_reports_do_not_stop_a_cancellation(
    s: RouterState,
    run: MatchRunView,
    reason: Seq<char>,
    clock: ClockReading<Seq<char>>,
)
    requires
        run.cancelling,
        run.effects.len() > 0,
        run.effects[0] is AcceptedReport || run.effects[0] is TradeReport
            || run.effects[0] is CancelReport,
    ensures
        matching::settled(s, run, Reply::Failed(reason), clock) == matching::advance(
            s,
            MatchRun { effects: Seq::empty(), ..run },
        ),
        run.results.len() == 0 ==> matching::settled(s, run, Reply::Failed(reason), clock) == (
            s,
            ProgressView::Done,
        ),
{
}

/// Without an order book a tick of no price is recorded for a change of it, and no
/// snapshot is taken. An order that was amended is left as it was.
pub proof fn missing_books_are_recorded_as_such(
    s: RouterState,
    run: MatchRunView,
    instrument_id: Seq<char>,
    clock: ClockReading<Seq<char>>,
)
    requires
        run.effects.len() > 1,
    ensures
        run.effects[0] == (Effect::<Seq<char>, Seq<(i64, i64)>>::RecordBookTick { instrument_id })
            ==> {
            let s2 = matching::settled(s, run, Reply::Book(None), clock).0;
            let tick = s2.ticks.last();
            &&& s2.ticks == s.ticks.push(tick)
            &&& tick.instrument_id == instrument_id && tick.timestamp == clock.nanos
            &&& tick.last_price == 0 && tick.bid_price == 0 && tick.ask_price == 0 && tick.volume
                == 0
        },
        run.effects[0] == (Effect::<Seq<char>, Seq<(i64, i64)>>::RecordSnapshot { instrument_id })
            ==> matching::settled(s, run, Reply::Book(None), clock) == (
            s,
            ProgressView::Running(MatchRun { effects: run.effects.drop_first(), ..run }),
        ),
{
}

/// Nothing follows from an amendment. A trade that would be one too many for the
/// count starts it over.
pub proof fn amendments_change_nothing(
    s: RouterState,
    order_id: Seq<char>,
    order: Order<Seq<char>>,
    event: Success,
    taker: bool,
)
    ensures
        event is Amended ==> state::success_state(s, order_id, order, event) == s,
        event is Amended ==> state::success_effects(s, order_id, order, event, taker).len() == 0,
        (event is Filled || event is PartiallyFilled) && s.trade_count == u64::MAX
            ==> state::success_state(s, order_id, order, event).trade_count == 0,
{
}

/// Results that failed are reported as such while an order is being placed, and end a
/// cancellation with the reason.
pub proof fn failed_results_are_told(s: RouterState, run: MatchRunView, reason: Seq<char>)
    requires
        run.effects.len() == 0,
        run.results.len() > 0,
        run.results[0] == MatchResult::<Seq<char>>::Failed(reason),
    ensures
        run.cancelling ==> matching::advance(s, run) == (s, ProgressView::Failed(reason)),
        !run.cancelling ==> {
            &&& matching::advance(s, run).0 == s
            &&& matching::advance(s, run).1 matches Progress::Running(next)
            &&& next.results == run.results.drop_first()
            &&& next.effects.len() == 1
            &&& next.effects[0] == (Effect::<Seq<char>, Seq<(i64, i64)>>::RejectedReport {
                order_id: run.order_id,
                order: run.order,
                reason,
            })
        },
{
}

/// Of an order that the router does not know, no identifier of the account layer is
/// told; when it is cancelled, its whole volume counts as left, and it becomes known
/// by no event.
#[verifier::spinoff_prover]
pub proof fn unknown_orders_stay_unknown(
    s: RouterState,
    order_id: Seq<char>,
    order: Order<Seq<char>>,
    event: Success,
    taker: bool,
    i: int,
)
    requires
        !s.orders.contains_key(order_id),
    ensures
        state::success_state(s, order_id, order, event).orders == s.orders,
        ({
            let after = state::success_state(s, order_id, order, event);
            let effects = state::success_effects(after, order_id, order, event, taker);
            0 <= i < effects.len() ==> match effects[i] {
                Effect::TradeReport { qa_order_id, .. } => qa_order_id.len() == 0,
                Effect::CancelReport { qa_order_id, remaining, .. } => qa_order_id.len() == 0
                    && remaining == order.volume_orign,
                _ => true,
            }
        }),
{
}

} // verus!
