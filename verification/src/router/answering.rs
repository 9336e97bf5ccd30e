//! What a request is answered, and what the router keeps of an order.
use crate::amounts;
use crate::clock::ClockReading;
use crate::conditions::{TimeCondition, VolumeCondition};
use crate::orders::{
    CancelOrderRequest, ExchangeError, Order, OrderRouteInfo, OrderStatus, QAOrder,
    SubmitOrderRequest,
};
use crate::protocol::{
    AccountLookup, Ask, Effect, MatchResult, OrderValidation, Reply, RiskCheckOutcome,
    Success,
};
use crate::router::cancelling;
use crate::router::cancelling::{CancelStage, CancelStepView, CancellationView, Step};
use crate::router::flushing;
use crate::router::flushing::FlushTurn;
use crate::router::matching;
use crate::router::matching::{MatchRun, Progress, ProgressView, ReplyView};
use crate::router::queries;
use crate::router::restoring;
use crate::router::restoring::HeldOrder;
use crate::router::state;
use crate::router::state::RouterState;
use crate::router::submission;
use crate::router::submission::{SubmissionView, SubmitStage, SubmitStepView};
use crate::router;
use crate::text;
use vstd::prelude::*;

verus! {

/// Whether a step ends with the refusal of an order, for a reason and with a code.
pub open spec fn refuses(
    step: SubmitStepView,
    order_id: Seq<char>,
    message: Seq<char>,
    code: int,
) -> bool {
    &&& step matches Step::Finished(r)
    &&& !r.success
    &&& r.order_id == Some(order_id)
    &&& r.status == Some("rejected"@)
    &&& r.error_message == Some(message)
    &&& r.error_code matches Some(c)
    &&& c == code
}

/// Whether a step goes on with the same request.
pub open spec fn goes_on(step: SubmitStepView, f: SubmissionView) -> bool {
    &&& step matches Step::Pending(g)
    &&& g.order_id == f.order_id && g.request == f.request && g.force == f.force
}

/// Each refusal before the order is made has its own code and says why.
pub proof fn refusals_say_why(
    s: RouterState,
    f: SubmissionView,
    reason: Seq<char>,
    code: u32,
    clock: ClockReading<Seq<char>>,
)
    ensures
        f.stage is Quote ==> refuses(
            submission::submit_step(s, f, Reply::Book(None), clock).1,
            f.order_id,
            "No market price available for instrument "@ + f.request.instrument_id,
            4002,
        ),
        f.stage is TradingState ==> refuses(
            submission::submit_step(
                s,
                f,
                Reply::Trading(OrderValidation::Rejected(reason)),
                clock,
            ).1,
            f.order_id,
            reason,
            4100,
        ),
        f.stage is Risk ==> refuses(
            submission::submit_step(
                s,
                f,
                Reply::Risk(RiskCheckOutcome::Reject { reason, code }),
                clock,
            ).1,
            f.order_id,
            reason,
            code as int,
        ),
        f.stage is Risk ==> refuses(
            submission::submit_step(s, f, Reply::Risk(RiskCheckOutcome::Error(reason)), clock).1,
            f.order_id,
            "Risk check error: "@ + reason,
            9999,
        ),
        f.stage is Depth ==> refuses(
            submission::submit_step(s, f, Reply::Book(None), clock).1,
            f.order_id,
            "FOK order cannot be fully filled immediately"@,
            4010,
        ),
        f.stage is Account ==> refuses(
            submission::submit_step(
                s,
                f,
                Reply::Account(AccountLookup::Missing(reason)),
                clock,
            ).1,
            f.order_id,
            "Account not found: "@ + reason,
            4000,
        ),
        f.stage is Sending ==> refuses(
            submission::submit_step(s, f, Reply::Refused(reason), clock).1,
            f.order_id,
            "Insufficient funds/margin: "@ + reason,
            4001,
        ),
{
}

/// What an order takes, in units of which `10^12` make one: its whole turnover to
/// open by buying, a fifth of it to open by selling, and three ten-thousandths of it
/// in any case.
pub open spec fn cost(r: SubmitOrderRequest<Seq<char>>) -> int {
    let turnover = r.price * r.volume;
    let commission = turnover * 3;
    if r.offset == "OPEN"@ && r.direction == "BUY"@ {
        turnover * 10_000 + commission
    } else if r.offset == "OPEN"@ && r.direction == "SELL"@ {
        turnover * 2_000 + commission
    } else {
        commission
    }
}

/// An order that is not forced goes on exactly where the available funds cover its
/// cost, both when the funds are read and when they are read under the lock; it is
/// refused otherwise. A forced order goes on whatever the funds are.
pub proof fn funds_must_cover_the_cost(
    s: RouterState,
    f: SubmissionView,
    available: i64,
    clock: ClockReading<Seq<char>>,
)
    ensures
        ({
            let covered = available * 100_000_000 >= cost(f.request);
            let looked = submission::submit_step(
                s,
                f,
                Reply::Account(AccountLookup::Found(available)),
                clock,
            );
            let locked = submission::submit_step(s, f, Reply::Locked(available), clock);
            &&& f.stage is Account ==> looked.0 == s && (looked.1 is Pending <==> f.force
                || covered)
            &&& f.stage is Account && looked.1 is Pending ==> goes_on(looked.1, f)
            &&& f.stage is Locked ==> locked.0 == s && (locked.1 is Pending <==> covered)
            &&& f.stage is Locked && locked.1 is Pending ==> goes_on(locked.1, f)
            &&& f.stage is Account ==> (looked.1 matches Step::Finished(r) ==> r.error_code == Some(
                4001u32,
            ) && !r.success)
            &&& f.stage is Locked ==> (locked.1 matches Step::Finished(r) ==> r.error_code == Some(
                4001u32,
            ) && !r.success)
        }),
{
    let turnover = f.request.price * f.request.volume;
    assert(turnover * 10_003 == turnover * 10_000 + turnover * 3) by (nonlinear_arith);
    assert(turnover * 2_003 == turnover * 2_000 + turnover * 3) by (nonlinear_arith);
}

/// Where the funds do not cover the cost, the refusal names both: what is available,
/// which is given in ten-thousandths, and the cost, of which a hundredth has `10^10`
/// units.
pub proof fn shortages_name_both_sums(
    s: RouterState,
    f: SubmissionView,
    available: i64,
    clock: ClockReading<Seq<char>>,
)
    requires
        available * 100_000_000 < cost(f.request),
    ensures
        ({
            let message = "Insufficient funds: available="@ + amounts::money_text(
                available as int,
                100,
            ) + ", required="@ + amounts::money_text(cost(f.request), 10_000_000_000);
            &&& f.stage is Account && !f.force ==> refuses(
                submission::submit_step(
                    s,
                    f,
                    Reply::Account(AccountLookup::Found(available)),
                    clock,
                ).1,
                f.order_id,
                message,
                4001,
            )
            &&& f.stage is Locked ==> refuses(
                submission::submit_step(s, f, Reply::Locked(available), clock).1,
                f.order_id,
                message,
                4001,
            )
        }),
{
    let turnover = f.request.price * f.request.volume;
    assert(turnover * 10_003 == turnover * 10_000 + turnover * 3) by (nonlinear_arith);
    assert(turnover * 2_003 == turnover * 2_000 + turnover * 3) by (nonlinear_arith);
}

/// The time of an order is the local time at which its account was found; it is sent
/// to the account layer with that time, also where the funds are looked at again.
pub proof fn orders_are_sent_with_their_time(
    s: RouterState,
    f: SubmissionView,
    available: i64,
    again: i64,
    clock: ClockReading<Seq<char>>,
    later: ClockReading<Seq<char>>,
)
    requires
        f.stage is Account,
    ensures
        ({
            let looked = submission::submit_step(
                s,
                f,
                Reply::Account(AccountLookup::Found(available)),
                clock,
            ).1;
            &&& looked matches Step::Pending(g) ==> (f.force ==> (g.stage matches
                SubmitStage::Sending { time } && time == clock.local_time))
            &&& looked matches Step::Pending(g) ==> (!f.force ==> (g.stage is Locked && {
                let locked = submission::submit_step(s, g, Reply::Locked(again), later).1;
                locked matches Step::Pending(h) ==> (submission::submit_asks(h) matches
                    Ask::SendOrder(o) && o.time == clock.local_time)
            }))
        }),
{
}

/// Once the account layer has made an order, the router keeps it as it was made,
/// waiting to be routed, with nothing filled and with the conditions of the request,
/// and lists it last under the account of the request. Nothing else changes.
pub proof fn made_orders_are_kept(
    s: RouterState,
    f: SubmissionView,
    qa_order_id: Seq<char>,
    made: QAOrder<Seq<char>>,
    clock: ClockReading<Seq<char>>,
)
    requires
        f.stage is Sending,
    ensures
        ({
            let (s2, step) = submission::submit_step(
                s,
                f,
                Reply::Sent { qa_order_id, order: made },
                clock,
            );
            let info = s2.orders[f.order_id];
            let r = f.request;
            &&& goes_on(step, f) && step->Pending_0.stage is Registering
            &&& s2.orders == s.orders.insert(f.order_id, info)
            &&& s2 == (RouterState {
                orders: s2.orders,
                user_orders: s2.user_orders,
                ..s
            })
            &&& s2.user_orders.contains_key(r.account_id)
            &&& s2.user_orders[r.account_id].last() == f.order_id
            &&& s.user_orders.contains_key(r.account_id)
                ==> s2.user_orders[r.account_id].drop_last() == s.user_orders[r.account_id]
            &&& !s.user_orders.contains_key(r.account_id) ==> s2.user_orders[r.account_id].len()
                == 1
            &&& forall|other: Seq<char>|
                other != r.account_id && s.user_orders.contains_key(other) ==> s2.user_orders[other]
                    == #[trigger] s.user_orders[other]
            &&& info.status == OrderStatus::PendingRoute
            &&& info.filled_volume == 0
            &&& info.submit_time == clock.nanos && info.update_time == clock.nanos
            &&& info.qa_order_id == qa_order_id
            &&& info.matching_engine_order_id is None
            &&& r.time_condition matches Some(c) ==> info.time_condition == c
            &&& r.time_condition is None ==> info.time_condition == TimeCondition::GFD
            &&& r.volume_condition matches Some(c) ==> info.volume_condition == c
            &&& r.volume_condition is None ==> info.volume_condition == VolumeCondition::ANY
            &&& info.order.user_id == made.user_id && info.order.order_id == made.order_id
            &&& info.order.instrument_id == made.instrument_id
            &&& info.order.direction == made.direction && info.order.offset == made.offset
            &&& info.order.volume_orign == made.volume && info.order.volume_left
                == made.volume_left
            &&& info.order.limit_price == made.limit_price && info.order.price_type
                == made.price_type
        }),
{
    let s2 = submission::submit_step(
        s,
        f,
        Reply::Sent { qa_order_id, order: made },
        clock,
    ).0;
    let list = s2.user_orders[f.request.account_id];
    assert(list.drop_last() =~= s.list_of(f.request.account_id));
}

/// An order whose instrument has no order book, or that has no direction, is
/// rejected, and so it is answered; any other goes on to the matching engine.
pub proof fn orders_need_a_book_and_a_direction(
    s: RouterState,
    f: SubmissionView,
    order: Order<Seq<char>>,
    clock: ClockReading<Seq<char>>,
)
    requires
        f.stage matches SubmitStage::FindingBook { order: o } && o == order,
        s.orders.contains_key(f.order_id),
    ensures
        ({
            let without = submission::submit_step(s, f, Reply::BookFound(false), clock);
            let with = submission::submit_step(s, f, Reply::BookFound(true), clock);
            &&& refuses(
                without.1,
                f.order_id,
                "Routing error: "@ + ("Orderbook not found for instrument: "@
                    + f.request.instrument_id),
                5000,
            )
            &&& without.0.orders[f.order_id].status == OrderStatus::Rejected
            &&& without.0.orders[f.order_id].order == s.orders[f.order_id].order
            &&& without.0.orders[f.order_id].filled_volume == s.orders[f.order_id].filled_volume
            &&& order.direction != "BUY"@ && order.direction != "SELL"@ ==> {
                &&& refuses(
                    with.1,
                    f.order_id,
                    "Routing error: "@ + ("Invalid direction: "@ + order.direction),
                    5000,
                )
                &&& with.0.orders[f.order_id].status == OrderStatus::Rejected
            }
            &&& order.direction == "BUY"@ || order.direction == "SELL"@ ==> {
                &&& with.0 == s
                &&& goes_on(with.1, f)
                &&& with.1->Pending_0.stage matches SubmitStage::Matching { order: o, timestamp, .. }
                &&& o == order && timestamp == clock.nanos
            }
        }),
{
}

/// The failure of a report stops the placing of an order: it is rejected with the
/// reason. Where all results are handled, an order that is not immediate, or has
/// nothing left to fill, is answered by its status, and nothing is cancelled.
pub proof fn results_are_answered(s: RouterState, f: SubmissionView, reason: Seq<char>)
    requires
        s.orders.contains_key(f.order_id),
    ensures
        ({
            let failed = submission::submit_applied(s, f, Progress::Failed(reason));
            let done = submission::submit_applied(s, f, Progress::Done);
            let info = s.orders[f.order_id];
            &&& refuses(failed.1, f.order_id, "Routing error: "@ + reason, 5000)
            &&& failed.0.orders[f.order_id].status == OrderStatus::Rejected
            &&& done.0 == s
            &&& f.request.time_condition != Some(TimeCondition::IOC) || info.time_condition
                != TimeCondition::IOC || info.status == OrderStatus::Filled || info.status
                == OrderStatus::Cancelled || info.status == OrderStatus::Rejected
                || info.order.volume_orign - info.filled_volume <= 10 ==> {
                &&& done.1 matches Step::Finished(r)
                &&& r.success && r.order_id == Some(f.order_id)
                &&& r.error_message is None && r.error_code is None
                &&& info.status == OrderStatus::Filled ==> r.status == Some("filled"@)
                &&& info.status == OrderStatus::PartiallyFilled ==> r.status == Some(
                    "partially_filled"@,
                )
                &&& info.status == OrderStatus::Cancelled ==> r.status == Some("cancelled"@)
                &&& info.status == OrderStatus::Rejected ==> r.status == Some("rejected"@)
                &&& info.status == OrderStatus::Submitted || info.status
                    == OrderStatus::PendingRoute || info.status == OrderStatus::PendingRisk
                    ==> r.status == Some("submitted"@)
            }
        }),
{
}

/// An order takes the next number and a name made of the time and that number:
/// `O`, the milliseconds, and the number with at least ten digits. The number after
/// it is one more, and nothing else changes.
pub proof fn orders_are_numbered(
    s: RouterState,
    request: SubmitOrderRequest<Seq<char>>,
    force: bool,
    millis: i64,
)
    requires
        millis >= 0,
        s.order_seq < u64::MAX,
    ensures
        ({
            let (s2, step) = submission::submit_started(s, request, force, millis);
            let id = step->Pending_0.order_id;
            &&& s2.order_seq == s.order_seq + 1
            &&& s2 == (RouterState { order_seq: s2.order_seq, ..s })
            &&& step is Pending
            &&& step->Pending_0.request == request && step->Pending_0.force == force
            &&& exists|k: int|
                #![trigger id.subrange(1, k)]
                1 <= k <= id.len() && id[0] == 'O' && text::number(id.subrange(1, k)) == millis
                    && text::number(id.skip(k)) == s.order_seq && id.len() - k >= 10
        }),
{
    let id = submission::order_id_of(millis, s.order_seq);
    let head = text::digits(millis as nat);
    let tail = text::zero_padded(text::digits(s.order_seq as nat), 10);
    reveal_strlit("O");
    text::digits_denote(millis as nat);
    text::padded_digits_denote(s.order_seq as nat, 10);
    let k = 1 + head.len() as int;
    assert(id =~= "O"@ + head + tail);
    assert(id.subrange(1, k) =~= head);
    assert(id.skip(k) =~= tail);
    assert(id[0] == 'O');
    assert(submission::submit_started(s, request, force, millis).1->Pending_0.order_id == id);
}

/// Whether a cancellation ends with an error of the request.
pub open spec fn cancel_refuses(step: CancelStepView, message: Seq<char>) -> bool {
    step matches Step::Finished(Err(ExchangeError::OrderError(m))) && m == message
}

/// Whether a cancellation ends with an error of the matching engine.
pub open spec fn cancel_fails(step: CancelStepView, message: Seq<char>) -> bool {
    step matches Step::Finished(Err(ExchangeError::MatchingError(m))) && m == message
}

/// A cancellation is refused for an order that is not known, that is another
/// account's, that does not rest in the matching engine, that has no number there
/// or no direction; each time with the reason. Any other cancellation goes on.
pub proof fn cancellations_are_refused_with_reason(
    s: RouterState,
    request: CancelOrderRequest<Seq<char>>,
)
    requires
        !s.trading_state,
    ensures
        ({
            let step = cancelling::cancel_started(s, request);
            let known = s.orders.contains_key(request.order_id);
            let info = s.orders[request.order_id];
            let owner = info.order.user_id == request.account_id;
            let rests = info.status == OrderStatus::Submitted || info.status
                == OrderStatus::PartiallyFilled;
            let numbered = info.matching_engine_order_id is Some;
            let directed = info.order.direction == "BUY"@ || info.order.direction == "SELL"@;
            &&& !known ==> cancel_refuses(step, "Order not found: "@ + request.order_id)
            &&& known && !owner ==> cancel_refuses(step, "Order does not belong to this account"@)
            &&& known && owner && !rests ==> cancel_refuses(
                step,
                "Order cannot be cancelled in status: "@ + info.status.name(),
            )
            &&& known && owner && rests && !numbered ==> cancel_refuses(
                step,
                "Matching engine order ID not found"@,
            )
            &&& known && owner && rests && numbered && !directed ==> cancel_refuses(
                step,
                "Invalid direction: "@ + info.order.direction,
            )
            &&& step is Pending <==> known && owner && rests && numbered && directed
        }),
{
}

/// A cancellation that the trading state rejects, whose instrument has no order
/// book, or that the matching engine fails, ends with the reason; one whose results
/// are all handled has succeeded.
pub proof fn cancellations_end_with_reason(
    s: RouterState,
    c: CancellationView,
    reason: Seq<char>,
    clock: ClockReading<Seq<char>>,
)
    ensures
        c.stage is TradingState ==> cancel_refuses(
            cancelling::cancel_step(
                s,
                c,
                Reply::Trading(OrderValidation::Rejected(reason)),
                clock,
            ).1,
            "Cancel rejected by trading state: "@ + reason,
        ),
        c.stage matches CancelStage::FindingBook { order, .. } ==> cancel_fails(
            cancelling::cancel_step(s, c, Reply::BookFound(false), clock).1,
            "Orderbook not found for instrument: "@ + order.instrument_id,
        ),
        cancel_fails(
            cancelling::cancel_applied(c.request, Progress::Failed(reason)),
            "Cancel order failed: "@ + reason,
        ),
        cancelling::cancel_applied(c.request, ProgressView::Done) matches Step::Finished(Ok(_)),
{
}

/// An order that an account still holds is taken up as it stood: under its own
/// identifier, listed last under the account that holds it, resting as submitted or
/// as filled in part, with what was filled of it, good for the day, and behind its
/// new number where the matching engine gave it one.
pub proof fn held_orders_are_taken_up(
    s: RouterState,
    held: HeldOrder<Seq<char>>,
    id: Option<u64>,
    seconds: i64,
)
    requires
        0 <= held.order.volume_left <= held.order.volume_orign,
        held.order.insert_date_time >= 0,
    ensures
        ({
            let s2 = restoring::restored(s, held, id, seconds);
            let info = s2.orders[held.order_id];
            &&& s2.orders == s.orders.insert(held.order_id, info)
            &&& info.order == held.order
            &&& held.order.status == "SUBMITTED"@ ==> info.status == OrderStatus::Submitted
            &&& held.order.status != "SUBMITTED"@ ==> info.status == OrderStatus::PartiallyFilled
            &&& info.filled_volume == held.order.volume_orign - held.order.volume_left
            &&& info.submit_time * 1_000_000_000 <= held.order.insert_date_time
            &&& held.order.insert_date_time < (info.submit_time + 1) * 1_000_000_000
            &&& info.update_time == seconds
            &&& info.qa_order_id == held.order_id
            &&& info.matching_engine_order_id == id
            &&& info.time_condition == TimeCondition::GFD
            &&& info.volume_condition == VolumeCondition::ANY
            &&& s2.user_orders.contains_key(held.account_id)
            &&& s2.user_orders[held.account_id].last() == held.order_id
            &&& s.user_orders.contains_key(held.account_id)
                ==> s2.user_orders[held.account_id].drop_last() == s.user_orders[held.account_id]
            &&& id matches Some(n) ==> {
                &&& s2.engine_orders == s.engine_orders.insert(n, held.order_id)
                &&& s2.engine_users == s.engine_users.insert(n, held.order.user_id)
            }
            &&& id is None ==> s2.engine_orders == s.engine_orders && s2.engine_users
                == s.engine_users
        }),
{
    let s2 = restoring::restored(s, held, id, seconds);
    assert(s2.user_orders[held.account_id].drop_last() =~= s.list_of(held.account_id));
}

/// The number of a held order is that of the first acceptance among the results.
pub proof fn first_acceptance_counts(results: Seq<MatchResult<Seq<char>>>)
    ensures
        restoring::first_accepted(results) matches Some(id) ==> exists|i: int|
            #![trigger results[i]]
            0 <= i < results.len() && (results[i] matches MatchResult::Done(
                Success::Accepted { id: n, .. },
            ) && n == id) && forall|j: int|
                0 <= j < i ==> !(#[trigger] results[j] matches MatchResult::Done(
                    Success::Accepted { .. },
                )),
        restoring::first_accepted(results) is None ==> forall|j: int|
            0 <= j < results.len() ==> !(#[trigger] results[j] matches MatchResult::Done(
                Success::Accepted { .. },
            )),
    decreases results.len(),
{
    if results.len() > 0 {
        let rest = results.drop_first();
        first_acceptance_counts(rest);
        if !(results[0] matches MatchResult::Done(Success::Accepted { .. })) {
            match restoring::first_accepted(rest) {
                Some(id) => {
                    let i = choose|i: int|
                        #![trigger rest[i]]
                        0 <= i < rest.len() && (rest[i] matches MatchResult::Done(
                            Success::Accepted { id: n, .. },
                        ) && n == id) && forall|j: int|
                            0 <= j < i ==> !(#[trigger] rest[j] matches MatchResult::Done(
                                Success::Accepted { .. },
                            ));
                    assert(results[i + 1] == rest[i]);
                    assert forall|j: int| 0 <= j < i + 1 implies !(#[trigger] results[j] matches
                        MatchResult::Done(Success::Accepted { .. })) by {
                        if j > 0 {
                            assert(results[j] == rest[j - 1]);
                        }
                    }
                },
                None => {
                    assert forall|j: int| 0 <= j < results.len() implies !(#[trigger] results[j]
                        matches MatchResult::Done(Success::Accepted { .. })) by {
                        if j > 0 {
                            assert(results[j] == rest[j - 1]);
                        }
                    }
                },
            }
        }
    }
}

/// What is told of an order is what the router keeps of it.
pub proof fn orders_are_told_as_kept(order_id: Seq<char>, info: OrderRouteInfo<Seq<char>>)
    ensures
        ({
            let (order, status, submitted, changed, filled) = queries::detail_of(info);
            &&& order == info.order && status == info.status
            &&& submitted == info.submit_time && changed == info.update_time
            &&& filled == info.filled_volume
        }),
        ({
            let (id, order, status, submitted, changed, filled) = queries::named_detail_of(
                order_id,
                info,
            );
            &&& id == order_id
            &&& order == info.order && status == info.status
            &&& submitted == info.submit_time && changed == info.update_time
            &&& filled == info.filled_volume
        }),
{
}

/// The orders that are told of an account are those listed under it that are known,
/// and no others, in the order of the list.
pub proof fn listed_orders_are_told(s: RouterState, user_id: Seq<char>, order_id: Seq<char>)
    requires
        s.user_orders.contains_key(user_id),
    ensures
        queries::known_ids(s, user_id).contains(order_id) <==> s.user_orders[user_id].contains(
            order_id,
        ) && s.orders.contains_key(order_id),
        (forall|i: int|
            0 <= i < s.user_orders[user_id].len() ==> s.orders.contains_key(
                #[trigger] s.user_orders[user_id][i],
            )) ==> queries::known_ids(s, user_id) == s.user_orders[user_id],
{
    let list = s.user_orders[user_id];
    let known = |id: Seq<char>| s.orders.contains_key(id);
    assert(queries::known_ids(s, user_id) == list.filter(known));
    if list.filter(known).contains(order_id) {
        let i = list.filter(known).index_of(order_id);
        list.lemma_filter_pred(known, i);
        list.lemma_filter_contains_rev(known, order_id);
    }
    if list.contains(order_id) && s.orders.contains_key(order_id) {
        list.lemma_filter_contains(known, list.index_of(order_id));
    }
    if forall|i: int| 0 <= i < list.len() ==> s.orders.contains_key(#[trigger] list[i]) {
        all_are_kept(list, known);
    }
}

/// A condition that all elements meet keeps them all.
proof fn all_are_kept(list: Seq<Seq<char>>, p: spec_fn(Seq<char>) -> bool)
    requires
        forall|i: int| 0 <= i < list.len() ==> p(#[trigger] list[i]),
    ensures
        list.filter(p) == list,
    decreases list.len(),
{
    reveal(Seq::filter);
    if list.len() > 0 {
        let before = list.drop_last();
        assert forall|i: int| 0 <= i < before.len() implies p(#[trigger] before[i]) by {
            assert(before[i] == list[i]);
        }
        all_are_kept(before, p);
        assert(before.push(list.last()) =~= list);
    } else {
        assert(list.filter(p) =~= list);
    }
}

/// A status that is set from outside is that of the order from then on, at that
/// time; the rest of the order, and every other order, stays. The risk checker is
/// to drop the order of its account exactly where nothing more happens to it.
pub proof fn statuses_are_set_from_outside(
    s: RouterState,
    order_id: Seq<char>,
    other: Seq<char>,
    status: OrderStatus,
    now: i64,
)
    requires
        s.orders.contains_key(order_id),
    ensures
        ({
            let s2 = queries::status_updated(s, order_id, status, now);
            let before = s.orders[order_id];
            let after = s2.orders[order_id];
            &&& after.status == status && after.update_time == now
            &&& after.order == before.order && after.filled_volume == before.filled_volume
            &&& after.submit_time == before.submit_time && after.qa_order_id == before.qa_order_id
            &&& after.matching_engine_order_id == before.matching_engine_order_id
            &&& after.time_condition == before.time_condition && after.volume_condition
                == before.volume_condition
            &&& other != order_id ==> s2.orders[other] == s.orders[other]
            &&& s2 == (RouterState { orders: s2.orders, ..s })
            &&& queries::update_effect(s, order_id, status) is Some <==> status
                == OrderStatus::Filled || status == OrderStatus::Cancelled || status
                == OrderStatus::Rejected
            &&& queries::update_effect(s, order_id, status) matches Some(e) ==> e == (Effect::<
                Seq<char>,
                Seq<(i64, i64)>,
            >::ReleaseActive { user_id: before.order.user_id, order_id })
        }),
{
}

/// A new router knows no order, numbers orders from one, has counted no trade and
/// takes at most one snapshot a second.
pub proof fn routers_start_empty()
    ensures
        ({
            let s = router::fresh();
            &&& forall|id: Seq<char>| !#[trigger] s.orders.contains_key(id)
            &&& forall|user: Seq<char>| !#[trigger] s.user_orders.contains_key(user)
            &&& forall|id: u64| !#[trigger] s.engine_orders.contains_key(id)
            &&& forall|id: u64| !#[trigger] s.engine_users.contains_key(id)
            &&& s.order_seq == 1
            &&& s.trade_count == 0 && s.trade_volume == 0 && s.trade_amount == 0
            &&& s.snapshot_interval == 1_000_000_000
            &&& s.ticks.len() == 0
            &&& !s.storage && !s.broadcaster && !s.trading_state && !s.flush_stopped
            &&& s.priority is None && !s.priority_enabled
        }),
{
}

/// Preferred users are added behind those that there are, each of them, where there
/// is a priority queue; without one nothing changes.
pub proof fn preferred_users_are_added(s: RouterState, users: Seq<Seq<char>>)
    ensures
        s.priority is None ==> router::preferring(s, users) == s,
        s.priority matches Some(q) ==> {
            let s2 = router::preferring(s, users);
            &&& s2.priority matches Some(q2)
            &&& q2.low_queue_limit == q.low_queue_limit
            &&& q2.critical_amount_threshold == q.critical_amount_threshold
            &&& q2.vip_users.len() == q.vip_users.len() + users.len()
            &&& forall|i: int|
                0 <= i < q.vip_users.len() ==> #[trigger] q2.vip_users[i] == q.vip_users[i]
            &&& forall|i: int|
                0 <= i < users.len() ==> q2.vip_users[q.vip_users.len() + i] == #[trigger] users[i]
            &&& s2 == (RouterState { priority: s2.priority, ..s })
        },
{
}

/// An order whose remainder was to be cancelled is answered by its status once that
/// has come to an end, however it ended; until then nothing is answered.
pub proof fn remainders_are_cancelled_before_the_answer(
    s: RouterState,
    f: SubmissionView,
    c: CancellationView,
    reply: ReplyView,
    clock: ClockReading<Seq<char>>,
)
    requires
        f.stage matches SubmitStage::Cancelling(d) && d == c,
    ensures
        ({
            let (s2, cancelled) = cancelling::cancel_step(s, c, reply, clock);
            let (s3, step) = submission::submit_step(s, f, reply, clock);
            &&& s3 == s2
            &&& cancelled is Pending <==> step is Pending
            &&& step matches Step::Finished(r) ==> r.success && r.order_id == Some(f.order_id)
                && r.error_code is None && r.error_message is None
            &&& step matches Step::Finished(r) ==> (s2.orders.contains_key(f.order_id) ==> r.status
                == Some(s2.orders[f.order_id].status.word()))
            &&& step matches Step::Pending(g) ==> goes_on(step, f) && (g.stage matches
                SubmitStage::Cancelling(d) && cancelled == CancelStepView::Pending(d))
        }),
{
}

/// An order that failed is rejected at the time of the report and stays the same
/// order otherwise; what an order that cannot be routed is marked with, is that it is
/// rejected. Orders that are not known are not made known by it.
pub proof fn rejections_are_marked(s: RouterState, order_id: Seq<char>, other: Seq<char>, now: i64)
    ensures
        s.orders.contains_key(order_id) ==> {
            let at = s.rejected_at(order_id, now).orders[order_id];
            let plain = s.rejected(order_id).orders[order_id];
            let before = s.orders[order_id];
            &&& at.status == OrderStatus::Rejected && at.update_time == now
            &&& at.order == before.order && at.filled_volume == before.filled_volume
            &&& plain.status == OrderStatus::Rejected && plain.update_time == before.update_time
            &&& plain.order == before.order && plain.filled_volume == before.filled_volume
        },
        !s.orders.contains_key(order_id) ==> s.rejected_at(order_id, now) == s && s.rejected(
            order_id,
        ) == s,
        other != order_id ==> s.rejected_at(order_id, now).orders[other] == s.orders[other]
            && s.rejected(order_id).orders[other] == s.orders[other],
{
}

/// A held order that is closed or already known is passed over. One that is open and
/// has nothing left is taken up without a number; so is one whose instrument has no
/// order book. One without a direction is left out, and one that was matched again is
/// taken up behind the number of its first acceptance.
pub proof fn held_orders_are_settled(
    s: RouterState,
    held: Seq<HeldOrder<Seq<char>>>,
    r: restoring::RestorationView,
    results: Seq<MatchResult<Seq<char>>>,
    clock: ClockReading<Seq<char>>,
)
    ensures
        ({
            let seconds = clock.seconds;
            let first = held[0];
            let rest = held.drop_first();
            let open = first.order.status == "SUBMITTED"@ || first.order.status == "ALIVE"@;
            let known = s.orders.contains_key(first.order_id);
            &&& held.len() == 0 ==> restoring::resumed(s, held, seconds) == (
                s,
                restoring::RestoreStepView::Finished(()),
            )
            &&& held.len() > 0 && (!open || known) ==> restoring::resumed(s, held, seconds)
                == restoring::resumed(s, rest, seconds)
            &&& held.len() > 0 && open && !known && first.order.volume_left <= 0
                ==> restoring::resumed(s, held, seconds) == restoring::resumed(
                restoring::restored(s, first, None, seconds),
                rest,
                seconds,
            )
            &&& r.stage is FindingBook ==> restoring::restore_step(
                s,
                r,
                Reply::BookFound(false),
                clock,
            ) == restoring::resumed(
                restoring::restored(s, r.held, None, seconds),
                r.todo,
                seconds,
            )
            &&& r.stage is FindingBook && r.held.order.direction != "BUY"@
                && r.held.order.direction != "SELL"@ ==> restoring::restore_step(
                s,
                r,
                Reply::BookFound(true),
                clock,
            ) == restoring::resumed(s, r.todo, seconds)
            &&& r.stage is Matching ==> restoring::restore_step(
                s,
                r,
                Reply::Matched(results),
                clock,
            ) == restoring::resumed(
                restoring::restored(s, r.held, restoring::first_accepted(results), seconds),
                r.todo,
                seconds,
            )
        }),
{
}

/// The writer of ticks gets the oldest ticks first, a thousand at a time, and all of
/// them where fewer wait.
pub proof fn oldest_ticks_are_written_first(s: RouterState)
    requires
        s.ticks.len() > 0,
    ensures
        ({
            let (s2, turn) = flushing::flushed(s);
            let batch = match turn {
                FlushTurn::Write(b) => b,
                FlushTurn::Drain(b) => b,
                _ => Seq::empty(),
            };
            &&& turn is Write <==> !s.flush_stopped
            &&& turn is Drain <==> s.flush_stopped
            &&& s.ticks.len() <= 1000 ==> batch == s.ticks && s2.ticks.len() == 0
            &&& s.ticks.len() > 1000 ==> batch.len() == 1000 && s2.ticks.len() == s.ticks.len()
                - 1000
            &&& batch + s2.ticks == s.ticks
            &&& s2 == (RouterState { ticks: s2.ticks, ..s })
        }),
{
    let (s2, turn) = flushing::flushed(s);
    let n = flushing::batch_size(s.ticks.len()) as int;
    assert(s.ticks.take(n) + s.ticks.skip(n) =~= s.ticks);
    assert(s.ticks.take(s.ticks.len() as int) =~= s.ticks);
}

/// A list of orders names each of them by its parts in their places, and an order that
/// is not known is answered as submitted; an account without a list has no orders.
pub proof fn details_are_read_as_told(
    s: RouterState,
    d: queries::OrderDetail,
    n: queries::NamedOrderDetail,
    order_id: Seq<char>,
    user_id: Seq<char>,
)
    ensures
        queries::detail_view(d).0 == d.0@,
        queries::detail_view(d).1 == d.1,
        queries::detail_view(d).2 == d.2,
        queries::detail_view(d).3 == d.3,
        queries::detail_view(d).4 == d.4,
        queries::named_detail_view(n).0 == n.0@,
        queries::named_detail_view(n).1 == n.1@,
        queries::named_detail_view(n).2 == n.2,
        queries::named_detail_view(n).3 == n.3,
        queries::named_detail_view(n).4 == n.4,
        queries::named_detail_view(n).5 == n.5,
        !s.orders.contains_key(order_id) ==> submission::placement(s, order_id).status == Some(
            "submitted"@,
        ),
        !s.user_orders.contains_key(user_id) ==> queries::known_ids(s, user_id).len() == 0,
{
    reveal(Seq::filter);
}

/// An order counts under a condition exactly where it is known and its status meets
/// the condition.
pub proof fn orders_are_counted_by_status(
    s: RouterState,
    p: spec_fn(OrderStatus) -> bool,
    order_id: Seq<char>,
)
    ensures
        queries::ids_with(s, p).contains(order_id) <==> s.orders.contains_key(order_id) && p(
            s.orders[order_id].status,
        ),
{
}

/// The first result for an order that was just sent to the matching engine is its
/// own: its acceptance or its trade, in which it took the liquidity, whatever numbers
/// the engine uses. The other results come after what follows from it.
#[verifier::spinoff_prover]
pub proof fn first_result_is_the_orders_own(
    s: RouterState,
    f: SubmissionView,
    order: Order<Seq<char>>,
    event: Success,
    results: Seq<MatchResult<Seq<char>>>,
    clock: ClockReading<Seq<char>>,
)
    requires
        f.stage matches SubmitStage::Matching { order: o, .. } && o == order,
        results.len() > 0,
        results[0] == MatchResult::<Seq<char>>::Done(event),
        !(event is Amended),
    ensures
        ({
            let (s2, step) = submission::submit_step(s, f, Reply::Matched(results), clock);
            &&& s2 == state::success_state(s, f.order_id, order, event)
            &&& goes_on(step, f)
            &&& step->Pending_0.stage matches SubmitStage::Applying(run)
            &&& run.order_id == f.order_id && run.order == order && !run.cancelling
            &&& run.results == results.drop_first()
            &&& run.effects == state::success_effects(s2, f.order_id, order, event, true)
        }),
{
    let run = submission::submit_run(f.order_id, order, results);
    let rest = MatchRun { results: run.results.drop_first(), ..run };
    let (s2, run2) = matching::event_handled(s, rest, event);
    let next = MatchRun { results: rest.results, ..run2 };
    assert(run2.effects == state::success_effects(s2, f.order_id, order, event, true));
    assert(run2.effects.len() > 0);
    assert(matching::advance(s, run) == matching::advance(s2, next));
    assert(matching::advance(s2, next) == (s2, ProgressView::Running(next)));
}

/// The results of a cancellation are about the order of the request: the first one
/// changes that order, and is followed by its effects.
#[verifier::spinoff_prover]
pub proof fn cancellations_change_their_order(
    s: RouterState,
    c: CancellationView,
    order: Order<Seq<char>>,
    event: Success,
    results: Seq<MatchResult<Seq<char>>>,
    clock: ClockReading<Seq<char>>,
)
    requires
        c.stage matches CancelStage::Matching { order: o, .. } && o == order,
        results.len() > 0,
        results[0] == MatchResult::<Seq<char>>::Done(event),
        !(event is Amended),
    ensures
        ({
            let (s2, step) = cancelling::cancel_step(s, c, Reply::Matched(results), clock);
            &&& s2 == state::success_state(s, c.request.order_id, order, event)
            &&& step matches Step::Pending(d)
            &&& d.request == c.request
            &&& d.stage matches CancelStage::Applying(run)
            &&& run.order_id == c.request.order_id && run.order == order && run.cancelling
            &&& run.results == results.drop_first()
            &&& run.effects == state::success_effects(s2, c.request.order_id, order, event, true)
        }),
{
    let run = cancelling::cancel_run(c.request.order_id, order, results);
    let rest = MatchRun { results: run.results.drop_first(), ..run };
    let (s2, run2) = matching::event_handled(s, rest, event);
    let next = MatchRun { results: rest.results, ..run2 };
    assert(run2.effects == state::success_effects(s2, c.request.order_id, order, event, true));
    assert(run2.effects.len() > 0);
    assert(matching::advance(s, run) == matching::advance(s2, next));
    assert(matching::advance(s2, next) == (s2, ProgressView::Running(next)));
}

} // verus!
