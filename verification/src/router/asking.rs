//! What the flows ask of their surroundings, in terms of the requests and the
//! orders that they are about.
use crate::book::OrderBook;
use crate::clock::ClockReading;
use crate::conditions::{TimeCondition, VolumeCondition};
use crate::orders;
use crate::orders::{CancelOrderRequest, Order, SubmitOrderRequest};
use crate::protocol::{Ask, OrderDirection, OrderValidation, Reply, RiskCheckOutcome};
use crate::router::cancelling;
use crate::router::cancelling::{CancellationView, Step};
use crate::router::laws;
use crate::router::matching::ReplyView;
use crate::router::repeating;
use crate::router::restoring;
use crate::router::restoring::HeldOrder;
use crate::router::state::RouterState;
use crate::router::submission;
use crate::router::submission::{SubmissionView, SubmitStage};
use vstd::prelude::*;

verus! {

/// Whether a side of the matching engine is the one that a word names.
pub open spec fn names_side(word: Seq<char>, side: OrderDirection) -> bool {
    (word == "BUY"@ && side is BUY) || (word == "SELL"@ && side is SELL)
}

/// The two words for a direction differ.
proof fn directions_differ()
    ensures
        "BUY"@ != "SELL"@,
{
    reveal_strlit("BUY");
    reveal_strlit("SELL");
    assert("BUY"@.len() != "SELL"@.len());
}

/// The account layer is asked to send exactly what was requested: for the account
/// of the request, under the identifier of the order, the instrument, the volume,
/// the price and the type of the request, and a code that is positive to buy and
/// negative to sell, of magnitude 2 to open, 3 to close and 4 to close a position
/// of the day.
pub proof fn orders_are_sent_as_requested(f: SubmissionView)
    requires
        f.stage is Sending,
    ensures
        submission::submit_asks(f) matches Ask::SendOrder(o) && {
            let r = f.request;
            &&& o.account_id == r.account_id
            &&& o.order_id == f.order_id
            &&& o.instrument_id == r.instrument_id
            &&& o.volume == r.volume
            &&& o.price == r.price
            &&& o.order_type == r.order_type
            &&& o.exchange_id == "EXCHANGE"@
            &&& f.stage matches SubmitStage::Sending { time } && o.time == time
            &&& r.direction == "BUY"@ && r.offset == "OPEN"@ ==> o.towards == 2
            &&& r.direction == "SELL"@ && r.offset == "OPEN"@ ==> o.towards == -2
            &&& r.direction == "BUY"@ && r.offset == "CLOSE"@ ==> o.towards == 3
            &&& r.direction == "SELL"@ && r.offset == "CLOSE"@ ==> o.towards == -3
            &&& r.direction == "BUY"@ && r.offset == "CLOSETODAY"@ ==> o.towards == 4
            &&& r.direction == "SELL"@ && r.offset == "CLOSETODAY"@ ==> o.towards == -4
        },
{
    orders::codes_are_signed(f.request.direction, f.request.offset);
}

/// Requests that differ in the direction or the offset are sent under different
/// codes.
pub proof fn codes_tell_requests_apart(f: SubmissionView, g: SubmissionView)
    requires
        f.stage is Sending,
        g.stage is Sending,
        orders::known_direction(f.request.direction) && orders::known_offset(f.request.offset),
        orders::known_direction(g.request.direction) && orders::known_offset(g.request.offset),
        f.request.direction != g.request.direction || f.request.offset != g.request.offset,
    ensures
        submission::submit_asks(f) matches Ask::SendOrder(a) && submission::submit_asks(g) matches
            Ask::SendOrder(b) && a.towards != b.towards,
{
    orders::codes_are_signed(f.request.direction, f.request.offset);
    orders::codes_are_signed(g.request.direction, g.request.offset);
}

/// Whoever is asked about an order is asked about the instrument, the account and
/// the figures of the request.
pub proof fn questions_are_about_the_request(f: SubmissionView)
    ensures
        f.stage is Quote || f.stage is Depth ==> submission::submit_asks(f) == (Ask::<
            Seq<char>,
            Seq<(i64, i64)>,
        >::Book { instrument_id: f.request.instrument_id }),
        f.stage is TradingState ==> submission::submit_asks(f) == (Ask::<
            Seq<char>,
            Seq<(i64, i64)>,
        >::ValidateOrder { instrument_id: f.request.instrument_id }),
        f.stage is FindingBook ==> submission::submit_asks(f) == (Ask::<
            Seq<char>,
            Seq<(i64, i64)>,
        >::FindBook { instrument_id: f.request.instrument_id }),
        f.stage is Account ==> submission::submit_asks(f) == (Ask::<
            Seq<char>,
            Seq<(i64, i64)>,
        >::Balance { account_id: f.request.account_id }),
        f.stage is Locked ==> submission::submit_asks(f) == (Ask::<
            Seq<char>,
            Seq<(i64, i64)>,
        >::LockedBalance { account_id: f.request.account_id }),
        f.stage is Risk ==> (submission::submit_asks(f) matches Ask::CheckRisk(c) && {
            &&& c.account_id == f.request.account_id
            &&& c.instrument_id == f.request.instrument_id
            &&& c.direction == f.request.direction
            &&& c.offset == f.request.offset
            &&& c.volume == f.request.volume
            &&& c.price == f.request.price
            &&& c.limit_price == f.request.price
            &&& c.price_type == f.request.order_type
        }),
        f.stage is Registering ==> (submission::submit_asks(f) matches Ask::RegisterActive(a) && {
            &&& a.account_id == f.request.account_id
            &&& a.order_id == f.order_id
            &&& a.instrument_id == f.request.instrument_id
            &&& a.direction == f.request.direction
            &&& a.limit_price == f.request.price
            &&& a.price_type == f.request.order_type
        }),
{
}

/// Once there is an order book, the matching engine is asked to match the order of
/// the account layer: in the instrument of the request, on the side that the
/// direction of the order names, at its limit price and for its whole volume.
pub proof fn orders_are_matched_as_made(
    s: RouterState,
    f: SubmissionView,
    order: Order<Seq<char>>,
    clock: ClockReading<Seq<char>>,
)
    requires
        f.stage matches SubmitStage::FindingBook { order: o } && o == order,
        order.direction == "BUY"@ || order.direction == "SELL"@,
    ensures
        ({
            let (s2, step) = submission::submit_step(s, f, Reply::BookFound(true), clock);
            &&& s2 == s
            &&& step matches Step::Pending(g)
            &&& g.order_id == f.order_id && g.request == f.request
            &&& submission::submit_asks(g) matches Ask::MatchLimit {
                instrument_id,
                direction,
                price,
                volume,
                timestamp,
            }
            &&& instrument_id == f.request.instrument_id
            &&& names_side(order.direction, direction)
            &&& price == order.limit_price
            &&& volume == order.volume_orign
            &&& timestamp == clock.nanos
        }),
{
    directions_differ();
}

/// Whether a flow is for a request: the same request, but for the price that a
/// market order without one takes from the order book.
pub open spec fn for_request(f: SubmissionView, request: SubmitOrderRequest<Seq<char>>) -> bool {
    &&& f.request.account_id == request.account_id
    &&& f.request.instrument_id == request.instrument_id
    &&& f.request.direction == request.direction
    &&& f.request.offset == request.offset
    &&& f.request.volume == request.volume
    &&& f.request.order_type == request.order_type
    &&& f.request.time_condition == request.time_condition
    &&& f.request.volume_condition == request.volume_condition
    &&& request.order_type != "MARKET"@ || request.price > 0 ==> f.request.price == request.price
}

/// Whether the order of a flow, once the account layer has made it, is one that
/// the account layer has handed over, with the side that its direction names.
pub open spec fn order_from_reply(
    f: SubmissionView,
    events: Seq<(RouterState, ReplyView, ClockReading<Seq<char>>)>,
) -> bool {
    match f.stage {
        SubmitStage::Registering { order } => handed_over(order, events),
        SubmitStage::FindingBook { order } => handed_over(order, events),
        SubmitStage::Matching { order, direction, .. } => handed_over(order, events) && names_side(
            order.direction,
            direction,
        ),
        _ => true,
    }
}

/// Whether the account layer has handed an order over, field by field.
pub open spec fn handed_over(
    order: Order<Seq<char>>,
    events: Seq<(RouterState, ReplyView, ClockReading<Seq<char>>)>,
) -> bool {
    exists|i: int|
        0 <= i < events.len() && (#[trigger] events[i].1 matches Reply::Sent { order: o, .. } && {
            &&& order.user_id == o.user_id
            &&& order.instrument_id == o.instrument_id
            &&& order.direction == o.direction
            &&& order.offset == o.offset
            &&& order.volume_orign == o.volume
            &&& order.volume_left == o.volume_left
            &&& order.limit_price == o.limit_price
            &&& order.price_type == o.price_type
        })
}

/// From first to last a flow is for the request that it was started with, under
/// one identifier, and matches the order that the account layer has made of it.
pub proof fn flows_stay_with_their_request(
    s: RouterState,
    request: SubmitOrderRequest<Seq<char>>,
    force: bool,
    millis: i64,
    events: Seq<(RouterState, ReplyView, ClockReading<Seq<char>>)>,
)
    ensures
        laws::flow_after(submission::submit_started(s, request, force, millis).1, events) matches
            Step::Pending(f) ==> {
            &&& for_request(f, request)
            &&& f.force == force
            &&& f.order_id == submission::order_id_of(millis, s.order_seq)
            &&& order_from_reply(f, events)
            &&& f.stage is Quote ==> request.order_type == "MARKET"@ && request.price <= 0
        },
    decreases events.len(),
{
    directions_differ();
    let start = submission::submit_started(s, request, force, millis).1;
    if events.len() > 0 {
        let before = events.drop_last();
        flows_stay_with_their_request(s, request, force, millis, before);
        assert(events[events.len() - 1] == events.last());
        match laws::flow_after(start, before) {
            Step::Pending(f) => {
                match f.stage {
                    SubmitStage::Registering { order } => {
                        still_handed_over(order, events);
                    },
                    SubmitStage::FindingBook { order } => {
                        still_handed_over(order, events);
                    },
                    SubmitStage::Matching { order, .. } => {
                        still_handed_over(order, events);
                    },
                    _ => {},
                }
            },
            Step::Finished(_) => {},
        }
    }
}

/// What was handed over stays so.
proof fn still_handed_over(
    order: Order<Seq<char>>,
    events: Seq<(RouterState, ReplyView, ClockReading<Seq<char>>)>,
)
    requires
        events.len() > 0,
        handed_over(order, events.drop_last()),
    ensures
        handed_over(order, events),
{
    let before = events.drop_last();
    let i = choose|i: int|
        0 <= i < before.len() && (#[trigger] before[i].1 matches Reply::Sent { order: o, .. } && {
            &&& order.user_id == o.user_id
            &&& order.instrument_id == o.instrument_id
            &&& order.direction == o.direction
            &&& order.offset == o.offset
            &&& order.volume_orign == o.volume
            &&& order.volume_left == o.volume_left
            &&& order.limit_price == o.limit_price
            &&& order.price_type == o.price_type
        });
    assert(events[i].1 == before[i].1);
}

/// A market order without a price takes the first price of the opposite side: the
/// one at which it buys is the first ask, the one at which it sells the first bid.
/// Where that side has none, it takes the last price, and where there is none
/// either, it is refused.
pub proof fn market_orders_take_the_opposite_price(
    s: RouterState,
    f: SubmissionView,
    b: OrderBook,
    clock: ClockReading<Seq<char>>,
)
    requires
        f.stage is Quote,
        f.request.direction == "BUY"@ || f.request.direction == "SELL"@,
    ensures
        ({
            let side = if f.request.direction == "BUY"@ {
                b.asks
            } else {
                b.bids
            };
            let priced = submission::submit_step(s, f, Reply::Book(Some(b)), clock).1;
            let offered = side is Some && side->0@.len() > 0 && side->0@[0].price > 0;
            &&& offered ==> (priced matches Step::Pending(g) && g.request.price == side->0@[0].price)
            &&& !offered && b.last_price > 0 ==> (priced matches Step::Pending(g) && g.request.price
                == b.last_price)
            &&& !offered && b.last_price <= 0 ==> (priced matches Step::Finished(r) && !r.success
                && r.error_code == Some(4002u32))
        }),
        submission::submit_step(s, f, Reply::Book(None), clock).1 matches Step::Finished(r)
            && !r.success && r.error_code == Some(4002u32),
{
    directions_differ();
}

/// The way of an order: the trading state is asked where there is one, then the
/// risk check unless the order is forced, then the depth of the order book for an
/// order that must be filled at once and as a whole and is not forced, then the
/// account.
pub proof fn checks_come_in_order(
    s: RouterState,
    f: SubmissionView,
    clock: ClockReading<Seq<char>>,
)
    ensures
        ({
            let whole_at_once = f.request.time_condition == Some(TimeCondition::IOC)
                && f.request.volume_condition == Some(VolumeCondition::ALL);
            let allowed = submission::submit_step(
                s,
                f,
                Reply::Trading(OrderValidation::Allowed),
                clock,
            ).1;
            let passed = submission::submit_step(s, f, Reply::Risk(RiskCheckOutcome::Pass), clock).1;
            &&& s.trading_state ==> (submission::priced(s, f) matches Step::Pending(g)
                && g.stage is TradingState)
            &&& !s.trading_state && !f.force ==> (submission::priced(s, f) matches Step::Pending(g)
                && g.stage is Risk)
            &&& !s.trading_state && f.force ==> (submission::priced(s, f) matches Step::Pending(g)
                && g.stage is Account)
            &&& f.stage is TradingState && !f.force ==> (allowed matches Step::Pending(g)
                && g.stage is Risk)
            &&& f.stage is TradingState && f.force ==> (allowed matches Step::Pending(g)
                && g.stage is Account)
            &&& f.stage is Risk && !f.force && whole_at_once ==> (passed matches Step::Pending(g)
                && g.stage is Depth)
            &&& f.stage is Risk && !f.force && !whole_at_once ==> (passed matches Step::Pending(g)
                && g.stage is Account)
        }),
{
}

/// Whether a cancellation first asks for the order book of the instrument of an
/// order, and, where there is one, asks the matching engine to cancel the order:
/// in its instrument, under its number, and on the side that its direction names.
pub open spec fn asks_to_cancel(
    c: CancellationView,
    order: Order<Seq<char>>,
    id: u64,
    s: RouterState,
    clock: ClockReading<Seq<char>>,
) -> bool {
    let (s2, step) = cancelling::cancel_step(s, c, Reply::BookFound(true), clock);
    &&& cancelling::cancel_asks(c) == (Ask::<Seq<char>, Seq<(i64, i64)>>::FindBook {
        instrument_id: order.instrument_id,
    })
    &&& s2 == s
    &&& step matches Step::Pending(d)
    &&& d.request == c.request
    &&& cancelling::cancel_asks(d) matches Ask::MatchCancel { instrument_id, direction, id: number }
    &&& instrument_id == order.instrument_id
    &&& names_side(order.direction, direction)
    &&& number == id
}

/// The matching engine is asked to cancel the order itself: in its instrument,
/// under the number that the engine gave it, and on the side that its direction
/// names.
pub proof fn cancellations_name_the_order(
    s: RouterState,
    request: CancelOrderRequest<Seq<char>>,
    s2: RouterState,
    clock: ClockReading<Seq<char>>,
)
    requires
        s.orders.contains_key(request.order_id),
        s.orders[request.order_id].order.user_id == request.account_id,
        s.orders[request.order_id].status is Submitted || s.orders[request.order_id].status is PartiallyFilled,
        s.orders[request.order_id].matching_engine_order_id is Some,
        s.orders[request.order_id].order.direction == "BUY"@
            || s.orders[request.order_id].order.direction == "SELL"@,
    ensures
        ({
            let info = s.orders[request.order_id];
            &&& !s.trading_state ==> (cancelling::cancel_started(s, request) matches Step::Pending(c)
                && asks_to_cancel(c, info.order, info.matching_engine_order_id->0, s2, clock))
            &&& s.trading_state ==> {
                &&& cancelling::cancel_started(s, request) matches Step::Pending(c)
                &&& cancelling::cancel_asks(c) == (Ask::<Seq<char>, Seq<(i64, i64)>>::ValidateCancel {
                    instrument_id: info.order.instrument_id,
                })
                &&& cancelling::cancel_step(
                    s,
                    c,
                    Reply::Trading(OrderValidation::Allowed),
                    clock,
                ).1 matches Step::Pending(d)
                &&& asks_to_cancel(d, info.order, info.matching_engine_order_id->0, s2, clock)
            }
        }),
{
    directions_differ();
}

/// At any point of a restoration, the matching engine is asked to match the held
/// order itself: in its instrument, on the side that its direction names, at its
/// limit price, and for the volume that is left of it.
pub proof fn restorations_match_the_held_order(
    s: RouterState,
    held: Seq<HeldOrder<Seq<char>>>,
    seconds: i64,
    events: Seq<(ReplyView, ClockReading<Seq<char>>)>,
)
    ensures
        repeating::restoration_after(s, held, seconds, events).1 matches Step::Pending(r) ==> {
            &&& held.contains(r.held)
            &&& r.held.order.volume_left > 0
            &&& r.held.order.status == "SUBMITTED"@ || r.held.order.status == "ALIVE"@
            &&& match restoring::restore_asks(r) {
                Ask::FindBook { instrument_id } => instrument_id == r.held.order.instrument_id,
                Ask::MatchLimit { instrument_id, direction, price, volume, .. } => {
                    &&& instrument_id == r.held.order.instrument_id
                    &&& names_side(r.held.order.direction, direction)
                    &&& price == r.held.order.limit_price
                    &&& volume == r.held.order.volume_left
                },
                _ => false,
            }
            &&& r.stage matches restoring::RestoreStage::Matching { direction, .. } ==> names_side(
                r.held.order.direction,
                direction,
            )
            &&& part_of(r.todo, held)
        },
    decreases events.len(),
{
    directions_differ();
    if events.len() == 0 {
        resumed_is_held(s, held, seconds, held);
    } else {
        restorations_match_the_held_order(s, held, seconds, events.drop_last());
        let (s2, step) = repeating::restoration_after(s, held, seconds, events.drop_last());
        let (reply, clock) = events.last();
        match step {
            Step::Pending(r) => {
                resumed_is_held(s2, r.todo, clock.seconds, held);
                resumed_is_held(
                    restoring::restored(s2, r.held, None, clock.seconds),
                    r.todo,
                    clock.seconds,
                    held,
                );
                match reply {
                    Reply::Matched(results) => {
                        resumed_is_held(
                            restoring::restored(
                                s2,
                                r.held,
                                restoring::first_accepted(results),
                                clock.seconds,
                            ),
                            r.todo,
                            clock.seconds,
                            held,
                        );
                    },
                    _ => {},
                }
            },
            Step::Finished(_) => {},
        }
    }
}

/// Whether all held orders of a list are among others.
pub open spec fn part_of(todo: Seq<HeldOrder<Seq<char>>>, held: Seq<HeldOrder<Seq<char>>>) -> bool {
    forall|i: int| 0 <= i < todo.len() ==> held.contains(#[trigger] todo[i])
}

/// Going on with held orders leads to one of them that is still open and has
/// volume left.
proof fn resumed_is_held(
    s: RouterState,
    todo: Seq<HeldOrder<Seq<char>>>,
    seconds: i64,
    held: Seq<HeldOrder<Seq<char>>>,
)
    requires
        part_of(todo, held),
    ensures
        restoring::resumed(s, todo, seconds).1 matches Step::Pending(r) ==> {
            &&& held.contains(r.held)
            &&& r.held.order.volume_left > 0
            &&& r.held.order.status == "SUBMITTED"@ || r.held.order.status == "ALIVE"@
            &&& r.stage is FindingBook
            &&& part_of(r.todo, held)
        },
    decreases todo.len(),
{
    if todo.len() > 0 {
        let rest = todo.drop_first();
        assert(part_of(rest, held)) by {
            assert forall|i: int| 0 <= i < rest.len() implies held.contains(#[trigger] rest[i]) by {
                assert(rest[i] == todo[i + 1]);
            }
        }
        assert(held.contains(todo[0]));
        resumed_is_held(s, rest, seconds, held);
        resumed_is_held(restoring::restored(s, todo[0], None, seconds), rest, seconds, held);
    }
}

/// A held order that is open, not known, of a direction and with volume left is
/// sent to the matching engine where its instrument has an order book.
pub proof fn open_orders_are_matched_again(
    s: RouterState,
    held: Seq<HeldOrder<Seq<char>>>,
    seconds: i64,
    clock: ClockReading<Seq<char>>,
)
    requires
        held.len() > 0,
        held[0].order.status == "SUBMITTED"@ || held[0].order.status == "ALIVE"@,
        !s.orders.contains_key(held[0].order_id),
        held[0].order.volume_left > 0,
        held[0].order.direction == "BUY"@ || held[0].order.direction == "SELL"@,
    ensures
        ({
            &&& restoring::resumed(s, held, seconds).1 matches Step::Pending(r)
            &&& r.held == held[0]
            &&& restoring::restore_step(s, r, Reply::BookFound(true), clock).0 == s
            &&& restoring::restore_step(s, r, Reply::BookFound(true), clock).1 matches Step::Pending(
                q,
            )
            &&& restoring::restore_asks(q) matches Ask::MatchLimit {
                instrument_id,
                direction,
                price,
                volume,
                timestamp,
            }
            &&& instrument_id == held[0].order.instrument_id
            &&& names_side(held[0].order.direction, direction)
            &&& price == held[0].order.limit_price
            &&& volume == held[0].order.volume_left
            &&& timestamp == clock.nanos
        }),
{
    directions_differ();
}

} // verus!
