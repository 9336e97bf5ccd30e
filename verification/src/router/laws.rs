//! What holds of the router as a whole.
use crate::amounts;
use crate::book;
use crate::clock::ClockReading;
use crate::conditions::TimeCondition;
use crate::orders::{CancelOrderRequest, Order, OrderStatus, SubmitOrderRequest};
use crate::protocol;
use crate::protocol::{
    AccountLookup, Ask, Effect, MatchResult, Reply, RiskCheckOutcome, Success, TickRecord,
};
use crate::router::cancelling;
use crate::router::cancelling::{CancelStage, CancellationView, Step};
use crate::router::flushing;
use crate::router::flushing::FlushTurn;
use crate::router::matching;
use crate::router::matching::{MatchRun, MatchRunView, Progress, ReplyView};
use crate::router::queries;
use crate::router::state;
use crate::router::state::RouterState;
use crate::router::submission;
use crate::router::submission::{SubmissionView, SubmitStage, SubmitStepView};
use crate::text;
use vstd::prelude::*;

verus! {

/// The identifier of an order starts with `O` and is longer than ten characters.
pub proof fn order_id_shape(millis: i64, seq: u64)
    ensures
        submission::order_id_of(millis, seq).len() > 10,
        submission::order_id_of(millis, seq)[0] == 'O',
{
    reveal_strlit("O");
    text::padded_digits_denote(seq as nat, 10);
}

/// Orders with different numbers of at most ten digits have different
/// identifiers, whenever they were made.
pub proof fn order_ids_differ(millis1: i64, seq1: u64, millis2: i64, seq2: u64)
    requires
        seq1 != seq2,
        seq1 < 10_000_000_000,
        seq2 < 10_000_000_000,
    ensures
        submission::order_id_of(millis1, seq1) != submission::order_id_of(millis2, seq2),
{
    assert(vstd::arithmetic::power::pow(10, 10) == 10_000_000_000) by {
        reveal(vstd::arithmetic::power::pow);
        reveal_with_fuel(vstd::arithmetic::power::pow, 11);
    }
    text::digits_are_few(seq1 as nat, 10);
    text::digits_are_few(seq2 as nat, 10);
    text::padded_digits_denote(seq1 as nat, 10);
    text::padded_digits_denote(seq2 as nat, 10);
    let a = submission::order_id_of(millis1, seq1);
    let b = submission::order_id_of(millis2, seq2);
    let tail1 = text::zero_padded(text::digits(seq1 as nat), 10);
    let tail2 = text::zero_padded(text::digits(seq2 as nat), 10);
    assert(a.skip(a.len() - 10) =~= tail1);
    assert(b.skip(b.len() - 10) =~= tail2);
}

/// Orders that were made in the same millisecond have different identifiers.
pub proof fn order_ids_of_one_moment_differ(millis: i64, seq1: u64, seq2: u64)
    requires
        seq1 != seq2,
    ensures
        submission::order_id_of(millis, seq1) != submission::order_id_of(millis, seq2),
{
    text::padded_digits_denote(seq1 as nat, 10);
    text::padded_digits_denote(seq2 as nat, 10);
    let head = "O"@ + text::decimal(millis as int);
    let a = submission::order_id_of(millis, seq1);
    let b = submission::order_id_of(millis, seq2);
    assert(a.skip(head.len() as int) =~= text::zero_padded(text::digits(seq1 as nat), 10));
    assert(b.skip(head.len() as int) =~= text::zero_padded(text::digits(seq2 as nat), 10));
}

/// A request that is refused before the account layer has made the order leaves
/// the router as it was.
pub proof fn refusal_changes_nothing(
    s: RouterState,
    f: SubmissionView,
    reply: ReplyView,
    clock: ClockReading<Seq<char>>,
)
    requires
        f.stage is Quote || f.stage is TradingState || f.stage is Risk || f.stage is Depth
            || f.stage is Account || f.stage is Locked || f.stage is Sending,
    ensures
        submission::submit_step(s, f, reply, clock).1 matches Step::Finished(r) ==> {
            &&& submission::submit_step(s, f, reply, clock).0 == s
            &&& !r.success
            &&& r.order_id == Some(f.order_id)
            &&& r.status == Some("rejected"@)
            &&& r.error_message is Some
            &&& r.error_code is Some
        },
{
}

/// What a flow has come to after answers that came at any states of the router.
pub open spec fn flow_after(
    start: SubmitStepView,
    events: Seq<(RouterState, ReplyView, ClockReading<Seq<char>>)>,
) -> SubmitStepView
    decreases events.len(),
{
    if events.len() == 0 {
        start
    } else {
        match flow_after(start, events.drop_last()) {
            Step::Pending(f) => submission::submit_step(
                events.last().0,
                f,
                events.last().1,
                events.last().2,
            ).1,
            done => done,
        }
    }
}

/// Whether a flow is past the risk check.
pub open spec fn past_risk(f: SubmissionView) -> bool {
    !(f.stage is Quote || f.stage is TradingState || f.stage is Risk)
}

/// Whether a flow is past the checks of the funds.
pub open spec fn past_funds(f: SubmissionView) -> bool {
    past_risk(f) && !(f.stage is Depth || f.stage is Account || f.stage is Locked)
}

/// No order that is not forced gets past the risk check unless the check was
/// passed.
pub proof fn risk_is_checked(
    s: RouterState,
    request: SubmitOrderRequest<Seq<char>>,
    millis: i64,
    events: Seq<(RouterState, ReplyView, ClockReading<Seq<char>>)>,
)
    ensures
        flow_after(submission::submit_started(s, request, false, millis).1, events) matches
            Step::Pending(f) ==> !f.force && (past_risk(f) ==> exists|i: int|
            0 <= i < events.len() && #[trigger] events[i].1 == (Reply::<
                Seq<char>,
                Seq<MatchResult<Seq<char>>>,
            >::Risk(RiskCheckOutcome::Pass))),
    decreases events.len(),
{
    let start = submission::submit_started(s, request, false, millis).1;
    if events.len() > 0 {
        let before = events.drop_last();
        risk_is_checked(s, request, millis, before);
        match flow_after(start, before) {
            Step::Pending(f) => {
                if past_risk(f) {
                    let i = choose|i: int|
                        0 <= i < before.len() && #[trigger] before[i].1 == (Reply::<
                            Seq<char>,
                            Seq<MatchResult<Seq<char>>>,
                        >::Risk(RiskCheckOutcome::Pass));
                    assert(events[i].1 == before[i].1);
                } else {
                    assert(events[events.len() - 1] == events.last());
                }
            },
            Step::Finished(_) => {},
        }
    }
}

/// No order that is not forced gets past the checks of the funds unless funds
/// that were read under the lock of the account covered it.
pub proof fn funds_are_checked(
    s: RouterState,
    request: SubmitOrderRequest<Seq<char>>,
    millis: i64,
    events: Seq<(RouterState, ReplyView, ClockReading<Seq<char>>)>,
)
    ensures
        flow_after(submission::submit_started(s, request, false, millis).1, events) matches
            Step::Pending(f) ==> !f.force && (past_funds(f) ==> exists|i: int|
            0 <= i < events.len() && (#[trigger] events[i].1 matches Reply::Locked(available)
                && submission::affordable(f.request, available))),
    decreases events.len(),
{
    let start = submission::submit_started(s, request, false, millis).1;
    if events.len() > 0 {
        let before = events.drop_last();
        funds_are_checked(s, request, millis, before);
        match flow_after(start, before) {
            Step::Pending(f) => {
                if past_funds(f) {
                    let i = choose|i: int|
                        0 <= i < before.len() && (#[trigger] before[i].1 matches Reply::Locked(
                            available,
                        ) && submission::affordable(f.request, available));
                    assert(events[i].1 == before[i].1);
                } else {
                    assert(events[events.len() - 1] == events.last());
                }
            },
            Step::Finished(_) => {},
        }
    }
}

/// A forced order never waits for the risk check, for the depth of the order
/// book or for the funds under the lock.
pub proof fn forced_orders_skip_checks(
    s: RouterState,
    request: SubmitOrderRequest<Seq<char>>,
    millis: i64,
    events: Seq<(RouterState, ReplyView, ClockReading<Seq<char>>)>,
)
    ensures
        flow_after(submission::submit_started(s, request, true, millis).1, events) matches
            Step::Pending(f) ==> f.force && !(f.stage is Risk || f.stage is Depth || f.stage is Locked),
    decreases events.len(),
{
    if events.len() > 0 {
        forced_orders_skip_checks(s, request, millis, events.drop_last());
    }
}

/// An order that is not forced is refused where the risk check rejects it or the
/// funds do not cover it.
pub proof fn checks_refuse_orders(
    s: RouterState,
    f: SubmissionView,
    reason: Seq<char>,
    code: u32,
    available: i64,
    clock: ClockReading<Seq<char>>,
)
    requires
        !f.force,
    ensures
        f.stage is Risk ==> submission::submit_step(
            s,
            f,
            Reply::Risk(RiskCheckOutcome::Reject { reason, code }),
            clock,
        ) == (s, f.refused(reason, code)),
        f.stage is Account && !submission::affordable(f.request, available)
            ==> submission::submit_step(
            s,
            f,
            Reply::Account(AccountLookup::Found(available)),
            clock,
        ) == (s, f.refused(submission::shortage(f.request, available), 4001)),
{
}

/// Whether an answer to the question of the placing of an order is one that an
/// order needs even where it is forced: there is a market price, the trading
/// state allows the order, there is the account, the account layer makes the
/// order with a direction, there is an order book, and no report fails.
pub open spec fn favourable(f: SubmissionView, reply: ReplyView) -> bool {
    match (f.stage, reply) {
        (SubmitStage::Quote, Reply::Book(b)) => book::market_price(b, f.request.direction) > 0,
        (SubmitStage::TradingState, Reply::Trading(v)) => v is Allowed,
        (SubmitStage::Account, Reply::Account(a)) => a is Found,
        (SubmitStage::Sending { .. }, Reply::Sent { order, .. }) => protocol::side_of(
            order.direction,
        ) is Some,
        (SubmitStage::Sending { .. }, Reply::Refused(_)) => false,
        (SubmitStage::FindingBook { .. }, Reply::BookFound(found)) => found,
        (SubmitStage::Applying(run), Reply::Failed(_)) => !run.effects[0].can_fail(),
        _ => true,
    }
}

/// Whether all answers to a flow were favourable.
pub open spec fn went_well(
    start: SubmitStepView,
    events: Seq<(RouterState, ReplyView, ClockReading<Seq<char>>)>,
) -> bool
    decreases events.len(),
{
    events.len() > 0 ==> went_well(start, events.drop_last()) && (flow_after(
        start,
        events.drop_last(),
    ) matches Step::Pending(f) ==> favourable(f, events.last().1))
}

/// The results for an order that is being placed do not fail as a whole.
proof fn placing_goes_on(s: RouterState, run: MatchRunView)
    requires
        !run.cancelling,
    ensures
        !(matching::advance(s, run).1 is Failed),
        matching::advance(s, run).1 matches Progress::Running(m) ==> !m.cancelling,
    decreases run.results.len(),
{
    if run.effects.len() == 0 && run.results.len() > 0 {
        let rest = MatchRun { results: run.results.drop_first(), ..run };
        match run.results[0] {
            MatchResult::Done(event) => {
                let (s2, run2) = matching::event_handled(s, rest, event);
                placing_goes_on(s2, MatchRun { results: rest.results, ..run2 });
            },
            MatchResult::Failed(_) => {},
        }
    }
}

/// Neither do they after the answer to a question, unless a report failed.
proof fn settling_goes_on(
    s: RouterState,
    run: MatchRunView,
    reply: ReplyView,
    clock: ClockReading<Seq<char>>,
)
    requires
        !run.cancelling,
        reply is Failed ==> !run.effects[0].can_fail(),
    ensures
        !(matching::settled(s, run, reply, clock).1 is Failed),
        matching::settled(s, run, reply, clock).1 matches Progress::Running(m) ==> !m.cancelling,
{
    let rest = MatchRun { effects: run.effects.drop_first(), ..run };
    let now = clock.nanos;
    placing_goes_on(s, rest);
    match (run.effects[0], reply) {
        (Effect::RecordTick { instrument_id, price, volume }, Reply::Book(b)) => {
            let tick = state::trade_tick(instrument_id, price, volume, b, now);
            placing_goes_on(s.with_tick(tick), rest);
        },
        (Effect::RecordBookTick { instrument_id }, Reply::Book(b)) => {
            placing_goes_on(s.with_tick(state::book_tick(instrument_id, b, now)), rest);
        },
        (Effect::RejectedReport { order_id, .. }, _) => {
            placing_goes_on(s.rejected_at(order_id, now), rest);
        },
        (Effect::WriteSnapshot { record, moment }, Reply::Done) => {
            placing_goes_on(s.snapshot_taken(record.instrument_id, moment), rest);
        },
        _ => {},
    }
}

/// Whether a forced order is on its way to success.
pub open spec fn on_its_way(f: SubmissionView) -> bool {
    f.force && match f.stage {
        SubmitStage::Risk => false,
        SubmitStage::Depth => false,
        SubmitStage::Locked { .. } => false,
        SubmitStage::Registering { order } => protocol::side_of(order.direction) is Some,
        SubmitStage::FindingBook { order } => protocol::side_of(order.direction) is Some,
        SubmitStage::Applying(run) => !run.cancelling,
        _ => true,
    }
}

/// A forced order succeeds where all answers are favourable, whatever the risk
/// check and the funds would say: it asks for neither, and its request is not
/// answered with an error. That it is answered in the end, every answer sees to.
pub proof fn forced_orders_succeed(
    s: RouterState,
    request: SubmitOrderRequest<Seq<char>>,
    millis: i64,
    events: Seq<(RouterState, ReplyView, ClockReading<Seq<char>>)>,
)
    requires
        went_well(submission::submit_started(s, request, true, millis).1, events),
    ensures
        match flow_after(submission::submit_started(s, request, true, millis).1, events) {
            Step::Pending(f) => on_its_way(f) && f.order_id == submission::order_id_of(
                millis,
                s.order_seq,
            ),
            Step::Finished(r) => {
                &&& r.success
                &&& r.order_id == Some(submission::order_id_of(millis, s.order_seq))
                &&& r.error_message is None
                &&& r.error_code is None
            },
        },
    decreases events.len(),
{
    let start = submission::submit_started(s, request, true, millis).1;
    if events.len() > 0 {
        forced_orders_succeed(s, request, millis, events.drop_last());
        let (now, reply, clock) = events.last();
        match flow_after(start, events.drop_last()) {
            Step::Pending(f) => match (f.stage, reply) {
                (SubmitStage::Matching { order, .. }, Reply::Matched(results)) => {
                    placing_goes_on(
                        now,
                        submission::submit_run(f.order_id, order, results),
                    );
                },
                (SubmitStage::Applying(run), reply) => {
                    settling_goes_on(now, run, reply, clock);
                },
                _ => {},
            },
            Step::Finished(_) => {},
        }
    }
}

/// An order that must be filled at once and as a whole is refused when the
/// volume that the order book holds within its price does not suffice, and goes
/// on when it does.
pub proof fn fill_or_kill_needs_depth(
    s: RouterState,
    f: SubmissionView,
    b: Option<book::OrderBook>,
    clock: ClockReading<Seq<char>>,
)
    requires
        f.stage is Depth,
    ensures
        submission::submit_step(s, f, Reply::Book(b), clock) == (
            s,
            if b is Some && book::available_volume(
                b->0,
                f.request.direction,
                f.request.price as int,
            ) >= f.request.volume {
                f.at(SubmitStage::Account)
            } else {
                f.refused("FOK order cannot be fully filled immediately"@, 4010)
            },
        ),
{
}

/// What is left of an immediate order that rests in the matching engine is
/// cancelled there before the request is answered, where no trading state has a
/// say.
pub proof fn immediate_remainder_is_cancelled(s: RouterState, f: SubmissionView)
    requires
        !s.trading_state,
        submission::time_condition_of(f.request) == TimeCondition::IOC,
        s.orders.contains_key(f.order_id),
        s.orders[f.order_id].time_condition == TimeCondition::IOC,
        s.orders[f.order_id].status.active(),
        s.orders[f.order_id].order.user_id == f.request.account_id,
        s.orders[f.order_id].matching_engine_order_id is Some,
        protocol::side_of(s.orders[f.order_id].order.direction) is Some,
        s.orders[f.order_id].order.volume_orign - s.orders[f.order_id].filled_volume > 10,
    ensures
        submission::matched(s, f) == f.at(
            SubmitStage::Cancelling(
                cancelling::Cancellation {
                    request: CancelOrderRequest {
                        account_id: f.request.account_id,
                        order_id: f.order_id,
                    },
                    stage: CancelStage::FindingBook {
                        order: s.orders[f.order_id].order,
                        direction: protocol::side_of(s.orders[f.order_id].order.direction)->0,
                        id: s.orders[f.order_id].matching_engine_order_id->0,
                    },
                },
            ),
        ),
{
}

/// A cancellation goes on only for an order that is known and belongs to the
/// account; and it reaches the matching engine only for an order that rests
/// there, under the number that the engine gave it.
pub proof fn only_the_owner_cancels(s: RouterState, request: CancelOrderRequest<Seq<char>>)
    ensures
        cancelling::cancel_started(s, request) matches Step::Pending(c) ==> {
            &&& s.orders.contains_key(request.order_id)
            &&& s.orders[request.order_id].order.user_id == request.account_id
            &&& c.request == request
            &&& c.stage is TradingState || c.stage is FindingBook
            &&& c.stage is TradingState <==> s.trading_state
        },
        cancelling::cancel_started(s, request) matches Step::Pending(c) ==> (c.stage matches
            CancelStage::FindingBook { order, id, .. } ==> {
            &&& s.orders[request.order_id].status.active()
            &&& s.orders[request.order_id].matching_engine_order_id == Some(id)
            &&& s.orders[request.order_id].order == order
        }),
{
}

/// An order to which nothing more happens is not cancelled.
pub proof fn closed_orders_stay(s: RouterState, request: CancelOrderRequest<Seq<char>>)
    requires
        s.orders.contains_key(request.order_id),
        s.orders[request.order_id].status.closed(),
    ensures
        cancelling::cancel_checked(s, request) == cancelling::cancel_refused(
            "Order cannot be cancelled in status: "@ + s.orders[request.order_id].status.name(),
        ),
{
}

/// A cancellation that the matching engine confirms closes the order and hands
/// the unfilled volume to the account layer first.
pub proof fn confirmed_cancellation_closes(
    s: RouterState,
    order_id: Seq<char>,
    order: Order<Seq<char>>,
    id: u64,
    ts: i64,
)
    requires
        s.orders.contains_key(order_id),
    ensures
        ({
            let results = seq![
                MatchResult::<Seq<char>>::Done(Success::Cancelled { id, ts }),
            ];
            let (s2, progress) = matching::advance(
                s,
                cancelling::cancel_run(order_id, order, results),
            );
            &&& s2.orders[order_id].status == OrderStatus::Cancelled
            &&& s2.orders[order_id].filled_volume == s.orders[order_id].filled_volume
            &&& progress matches Progress::Running(run)
            &&& run.effects[0] == (Effect::<Seq<char>, Seq<(i64, i64)>>::CancelReport {
                order_id,
                order,
                exchange_order_id: id,
                remaining: amounts::clamp64(
                    s.orders[order_id].order.volume_orign - s.orders[order_id].filled_volume,
                ) as i64,
                qa_order_id: s.orders[order_id].qa_order_id,
            })
        }),
{
    let event = Success::Cancelled { id, ts };
    let results = seq![MatchResult::<Seq<char>>::Done(event)];
    let run = cancelling::cancel_run(order_id, order, results);
    let rest = MatchRun { results: run.results.drop_first(), ..run };
    let (s2, run2) = matching::event_handled(s, rest, event);
    assert(run.results[0] == MatchResult::<Seq<char>>::Done(event));
    assert(run2.effects.len() > 0);
    assert(matching::advance(s, run) == matching::advance(
        s2,
        MatchRun { results: rest.results, ..run2 },
    ));
    assert(matching::advance(s2, MatchRun { results: rest.results, ..run2 }).1
        == Progress::<MatchRunView, Seq<char>>::Running(MatchRun { results: rest.results, ..run2 }));
}

/// An order that the matching engine fails is reported as rejected while the
/// router still has it as it was, and is marked as rejected after the report,
/// whether or not that succeeded.
pub proof fn failed_orders_are_reported_first(
    s: RouterState,
    order_id: Seq<char>,
    order: Order<Seq<char>>,
    reason: Seq<char>,
    reply: ReplyView,
    clock: ClockReading<Seq<char>>,
)
    requires
        reply is Done || reply is Failed,
    ensures
        ({
            let results = seq![MatchResult::<Seq<char>>::Failed(reason)];
            let (s2, progress) = matching::advance(
                s,
                submission::submit_run(order_id, order, results),
            );
            &&& s2 == s
            &&& progress matches Progress::Running(run)
            &&& matching::run_asks(run) == Ask::<Seq<char>, Seq<(i64, i64)>>::Perform(
                Effect::RejectedReport { order_id, order, reason },
            )
            &&& matching::settled(s, run, reply, clock) == (
                s.rejected_at(order_id, clock.nanos),
                Progress::<MatchRunView, Seq<char>>::Done,
            )
        }),
{
    let results = seq![MatchResult::<Seq<char>>::Failed(reason)];
    let run = submission::submit_run(order_id, order, results);
    assert(run.results[0] == MatchResult::<Seq<char>>::Failed(reason));
    assert(run.results.drop_first().len() == 0);
}

/// Every trade, and nothing else, counts in the totals.
pub proof fn only_trades_count(
    s: RouterState,
    order_id: Seq<char>,
    order: Order<Seq<char>>,
    event: Success,
)
    ensures
        ({
            let s2 = state::success_state(s, order_id, order, event);
            match event {
                Success::Filled { price, volume, .. } | Success::PartiallyFilled {
                    price,
                    volume,
                    ..
                } => {
                    &&& s.trade_count < u64::MAX ==> s2.trade_count == s.trade_count + 1
                    &&& s2.trade_volume == amounts::clamp128(s.trade_volume + volume)
                    &&& s2.trade_amount == amounts::clamp128(s.trade_amount + price * volume)
                },
                _ => {
                    &&& s2.trade_count == s.trade_count
                    &&& s2.trade_volume == s.trade_volume
                    &&& s2.trade_amount == s.trade_amount
                },
            }
        }),
{
}

/// An event for an order leaves every other order as it was.
pub proof fn other_orders_stay(
    s: RouterState,
    order_id: Seq<char>,
    order: Order<Seq<char>>,
    event: Success,
    other: Seq<char>,
)
    requires
        other != order_id,
        s.orders.contains_key(other),
    ensures
        state::success_state(s, order_id, order, event).orders[other] == s.orders[other],
{
}

/// No batch is empty or larger than the limit. The batch and the ticks that
/// still wait are all the ticks that waited, in their order; a batch that is put
/// back at once leaves the router as it was.
pub proof fn no_tick_is_lost(s: RouterState)
    ensures
        match flushing::flushed(s) {
            (s2, FlushTurn::Idle) => s2 == s && s.ticks.len() == 0 && !s.flush_stopped,
            (s2, FlushTurn::Write(batch)) => {
                &&& 0 < batch.len() <= flushing::MAX_BATCH
                &&& batch + s2.ticks == s.ticks
                &&& flushing::put_back(s2, batch) == s
                &&& !s.flush_stopped
            },
            (s2, FlushTurn::Drain(batch)) => {
                &&& 0 < batch.len() <= flushing::MAX_BATCH
                &&& batch + s2.ticks == s.ticks
                &&& s2.flush_stopped
            },
            (s2, FlushTurn::Stop) => s2 == s && s.ticks.len() == 0 && s.flush_stopped,
        },
{
    let n = flushing::batch_size(s.ticks.len()) as int;
    assert(s.ticks.take(n) + s.ticks.skip(n) =~= s.ticks);
}

/// All batches that the writer of ticks is handed, one after the other, until
/// none waits.
pub open spec fn handed_out(s: RouterState) -> Seq<TickRecord<Seq<char>>>
    decreases s.ticks.len(),
{
    if s.ticks.len() == 0 {
        Seq::empty()
    } else {
        let (s2, turn) = flushing::flushed(s);
        match turn {
            FlushTurn::Write(batch) => batch + handed_out(s2),
            FlushTurn::Drain(batch) => batch + handed_out(s2),
            _ => Seq::empty(),
        }
    }
}

/// The batches that are handed out, joined, are the ticks that waited, in their
/// order and each of them once, also where the writer is to stop.
pub proof fn batches_join_up(s: RouterState)
    ensures
        handed_out(s) == s.ticks,
    decreases s.ticks.len(),
{
    if s.ticks.len() == 0 {
        assert(handed_out(s) =~= s.ticks);
    } else {
        no_tick_is_lost(s);
        let s2 = flushing::flushed(s).0;
        batches_join_up(s2);
    }
}

/// After a snapshot of an instrument the next one is left out until the
/// interval has passed, and not after that.
pub proof fn one_snapshot_per_interval(
    s: RouterState,
    instrument_id: Seq<char>,
    taken: u64,
    moment: u64,
)
    requires
        taken <= moment,
    ensures
        s.snapshot_taken(instrument_id, taken).snapshot_too_soon(instrument_id, moment)
            <==> moment < taken + s.snapshot_interval,
{
}

/// Every order counts at most once among the orders that rest, are filled, are
/// cancelled or are rejected.
pub proof fn statistics_add_up(s: RouterState)
    requires
        s.orders.dom().finite(),
    ensures
        queries::ids_with(s, |status: OrderStatus| status.active()).len() + queries::ids_with(
            s,
            |status: OrderStatus| status is Filled,
        ).len() + queries::ids_with(s, |status: OrderStatus| status is Cancelled).len()
            + queries::ids_with(s, |status: OrderStatus| status is Rejected).len()
            <= s.orders.dom().len(),
{
    let active = queries::ids_with(s, |status: OrderStatus| status.active());
    let filled = queries::ids_with(s, |status: OrderStatus| status is Filled);
    let cancelled = queries::ids_with(s, |status: OrderStatus| status is Cancelled);
    let rejected = queries::ids_with(s, |status: OrderStatus| status is Rejected);
    let all = s.orders.dom();
    vstd::set_lib::lemma_len_subset(active, all);
    vstd::set_lib::lemma_len_subset(filled, all);
    vstd::set_lib::lemma_len_subset(cancelled, all);
    vstd::set_lib::lemma_len_subset(rejected, all);
    vstd::set_lib::lemma_set_disjoint_lens(active, filled);
    vstd::set_lib::lemma_set_disjoint_lens(active + filled, cancelled);
    vstd::set_lib::lemma_set_disjoint_lens(active + filled + cancelled, rejected);
    vstd::set_lib::lemma_len_subset(active + filled + cancelled + rejected, all);
}

/// An order that the matching engine has accepted can be cancelled by its
/// account, under the number that the engine gave it.
pub proof fn accepted_orders_can_be_cancelled(
    s: RouterState,
    order_id: Seq<char>,
    id: u64,
    ts: i64,
)
    requires
        !s.trading_state,
        s.orders.contains_key(order_id),
        protocol::side_of(s.orders[order_id].order.direction) is Some,
    ensures
        ({
            let order = s.orders[order_id].order;
            let s2 = state::success_state(s, order_id, order, Success::Accepted { id, ts });
            let request = CancelOrderRequest { account_id: order.user_id, order_id };
            &&& s2.orders[order_id].status == OrderStatus::Submitted
            &&& s2.order_behind(id) == Some(order_id)
            &&& s2.user_behind(id) == Some(order.user_id)
            &&& cancelling::cancel_started(s2, request) == Step::<
                CancellationView,
                Result<(), crate::orders::ExchangeError<Seq<char>>>,
            >::Pending(
                cancelling::Cancellation {
                    request,
                    stage: CancelStage::FindingBook {
                        order,
                        direction: protocol::side_of(order.direction)->0,
                        id,
                    },
                },
            )
        }),
{
}

/// Without a storage and a market data feed, an order that is accepted and not
/// matched is answered as submitted once its account was told.
pub proof fn accepted_order_is_submitted(
    s: RouterState,
    f: SubmissionView,
    order: Order<Seq<char>>,
    id: u64,
    ts: i64,
    clock1: ClockReading<Seq<char>>,
    clock2: ClockReading<Seq<char>>,
)
    requires
        !s.storage,
        !s.broadcaster,
        f.stage matches SubmitStage::Matching { order: o, .. } && o == order,
        s.orders.contains_key(f.order_id),
        submission::time_condition_of(f.request) != TimeCondition::IOC,
    ensures
        ({
            let results = seq![MatchResult::<Seq<char>>::Done(Success::Accepted { id, ts })];
            let (s2, step) = submission::submit_step(s, f, Reply::Matched(results), clock1);
            &&& step matches Step::Pending(g)
            &&& submission::submit_asks(g) == Ask::<Seq<char>, Seq<(i64, i64)>>::Perform(
                Effect::AcceptedReport { order_id: f.order_id, order },
            )
            &&& submission::submit_step(s2, g, Reply::Done, clock2) == (
                s2,
                SubmitStepView::Finished(submission::placement(s2, f.order_id)),
            )
            &&& submission::placement(s2, f.order_id).status == Some("submitted"@)
        }),
{
    let event = Success::Accepted { id, ts };
    let results = seq![MatchResult::<Seq<char>>::Done(event)];
    let run = submission::submit_run(f.order_id, order, results);
    let rest = MatchRun { results: run.results.drop_first(), ..run };
    let (s2, run2) = matching::event_handled(s, rest, event);
    assert(run.results[0] == MatchResult::<Seq<char>>::Done(event));
    assert(rest.results.len() == 0);
    let report: Effect<Seq<char>, Seq<(i64, i64)>> = Effect::AcceptedReport {
        order_id: f.order_id,
        order,
    };
    assert(run2.effects =~= seq![report]);
    let next = MatchRun { results: rest.results, ..run2 };
    assert(matching::advance(s, run) == matching::advance(s2, next));
    assert(matching::advance(s2, next).1 == Progress::<
        MatchRunView,
        Seq<char>,
    >::Running(next));
    let last = MatchRun { effects: next.effects.drop_first(), ..next };
    assert(last.effects.len() == 0);
    assert(matching::advance(s2, last) == (
        s2,
        Progress::<MatchRunView, Seq<char>>::Done,
    ));
}

/// While an order is being placed, its trades are told apart from those of the
/// orders that rested: a trade under the number of the order is its own, a later
/// one under the number of another order is that order's, and a trade is reported
/// as that of the side that took the liquidity exactly where it is the order's
/// own. Only the first acceptance counts.
pub proof fn trades_are_told_apart(s: RouterState, run: MatchRunView, event: Success)
    requires
        !run.cancelling,
        run.effects.len() == 0,
    ensures
        ({
            let (s2, run2) = matching::event_handled(s, run, event);
            &&& run.accepted && event is Accepted ==> s2 == s && run2 == run
            &&& event is Accepted ==> run2.accepted
            &&& forall|i: int|
                0 <= i < run2.effects.len() ==> (#[trigger] run2.effects[i] matches
                    Effect::TradeReport { order_id, is_taker, .. } ==> is_taker == (order_id
                    == run.order_id))
            &&& match event {
                Success::Filled { order_id: number, .. } | Success::PartiallyFilled {
                    order_id: number,
                    ..
                } => {
                    &&& s.order_behind(number) == Some(run.order_id) ==> (s2, run2)
                        == matching::applied(
                        s,
                        MatchRun { traded: true, ..run },
                        run.order_id,
                        run.order,
                        event,
                        true,
                    )
                    &&& s.order_behind(number) matches Some(maker) ==> (run.traded && maker
                        != run.order_id && s.orders.contains_key(maker) ==> (s2, run2)
                        == matching::applied(s, run, maker, s.orders[maker].order, event, false))
                    &&& run.traded && s.order_behind(number) is None ==> s2 == s && run2 == run
                },
                _ => true,
            }
        }),
{
}

/// An order that the matching engine has accepted under a number knows its trades
/// by that number.
pub proof fn accepted_orders_know_their_trades(
    s: RouterState,
    run: MatchRunView,
    id: u64,
    ts: i64,
)
    requires
        !run.cancelling,
        !run.accepted,
    ensures
        ({
            let (s2, run2) = matching::event_handled(s, run, Success::Accepted { id, ts });
            &&& run2.order_id == run.order_id
            &&& matching::own_trade(s2, run2, id)
        }),
{
}

/// The volume of a trade; zero for an event of another kind.
pub open spec fn traded_volume(event: Success) -> int {
    match event {
        Success::Filled { volume, .. } => volume as int,
        Success::PartiallyFilled { volume, .. } => volume as int,
        _ => 0,
    }
}

/// The turnover of a trade; zero for an event of another kind.
pub open spec fn traded_amount(event: Success) -> int {
    match event {
        Success::Filled { price, volume, .. } => price * volume,
        Success::PartiallyFilled { price, volume, .. } => price * volume,
        _ => 0,
    }
}

/// The volume of all trades among events.
pub open spec fn volume_of_all(events: Seq<Success>) -> int
    decreases events.len(),
{
    if events.len() == 0 {
        0
    } else {
        volume_of_all(events.drop_last()) + traded_volume(events.last())
    }
}

/// The state after events for an order.
pub open spec fn after_all(
    s: RouterState,
    order_id: Seq<char>,
    order: Order<Seq<char>>,
    events: Seq<Success>,
) -> RouterState
    decreases events.len(),
{
    if events.len() == 0 {
        s
    } else {
        state::success_state(
            after_all(s, order_id, order, events.drop_last()),
            order_id,
            order,
            events.last(),
        )
    }
}

/// The filled volume of an order grows by the volumes of its trades, by that of
/// the last one as well, where the sums fit. So an order that is filled after
/// trades of its ordered volume has that volume filled.
pub proof fn fills_add_up(
    s: RouterState,
    order_id: Seq<char>,
    order: Order<Seq<char>>,
    events: Seq<Success>,
)
    requires
        s.orders.contains_key(order_id),
        forall|k: int|
            0 <= k <= events.len() ==> i64::MIN <= s.orders[order_id].filled_volume
                + #[trigger] volume_of_all(events.take(k)) <= i64::MAX,
    ensures
        after_all(s, order_id, order, events).orders.contains_key(order_id),
        after_all(s, order_id, order, events).orders[order_id].filled_volume
            == s.orders[order_id].filled_volume + volume_of_all(events),
        after_all(s, order_id, order, events).orders[order_id].order == s.orders[order_id].order,
        events.len() > 0 && events.last() is Filled ==> after_all(
            s,
            order_id,
            order,
            events,
        ).orders[order_id].status == OrderStatus::Filled,
    decreases events.len(),
{
    assert(events.take(events.len() as int) =~= events);
    if events.len() > 0 {
        let before = events.drop_last();
        assert forall|k: int| 0 <= k <= before.len() implies i64::MIN
            <= s.orders[order_id].filled_volume + #[trigger] volume_of_all(before.take(k))
            <= i64::MAX by {
            assert(before.take(k) =~= events.take(k));
        }
        fills_add_up(s, order_id, order, before);
    }
}

/// An order that was filled in part and then for the rest of its volume is
/// filled, with its ordered volume, and both trades count in the totals.
pub proof fn filled_orders_have_their_volume(
    s: RouterState,
    order_id: Seq<char>,
    order: Order<Seq<char>>,
    first: Success,
    second: Success,
)
    requires
        s.orders.contains_key(order_id),
        first is PartiallyFilled,
        second is Filled,
        traded_volume(first) >= 0,
        traded_volume(second) >= 0,
        s.orders[order_id].filled_volume + traded_volume(first) + traded_volume(second)
            == s.orders[order_id].order.volume_orign,
        s.orders[order_id].filled_volume >= 0,
    ensures
        ({
            let s2 = state::success_state(s, order_id, order, first);
            let s3 = state::success_state(s2, order_id, order, second);
            let info = s3.orders[order_id];
            &&& s2.orders[order_id].status == OrderStatus::PartiallyFilled
            &&& info.status == OrderStatus::Filled
            &&& info.filled_volume == info.order.volume_orign
            &&& s.trade_count < u64::MAX - 1 ==> s3.trade_count == s.trade_count + 2
            &&& s3.trade_volume == amounts::clamp128(
                amounts::clamp128(s.trade_volume + traded_volume(first)) + traded_volume(second),
            )
            &&& s3.trade_amount == amounts::clamp128(
                amounts::clamp128(s.trade_amount + traded_amount(first)) + traded_amount(second),
            )
        }),
{
}

} // verus!
