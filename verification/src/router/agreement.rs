//! The tables of the router agree, whatever happens.
use crate::clock::ClockReading;
use crate::orders::{Order, OrderRouteInfo, OrderStatus};
use crate::protocol::{Effect, MatchResult, Reply, Success};
use crate::router::cancelling;
use crate::router::cancelling::{CancelStage, CancellationView, Step};
use crate::router::matching;
use crate::router::matching::{MatchRun, MatchRunView, Progress, ReplyView};
use crate::router::queries;
use crate::router::restoring;
use crate::router::restoring::{HeldOrder, RestorationView};
use crate::router::state;
use crate::router::state::RouterState;
use crate::router::submission;
use crate::router::submission::{SubmissionView, SubmitStage};
use vstd::prelude::*;

verus! {

/// The tables of the router agree: every order that is listed under an account
/// is known, and every number of the matching engine stands for an order that is
/// known and for the account of that order.
pub open spec fn consistent(s: RouterState) -> bool {
    &&& forall|user_id: Seq<char>, i: int|
        s.user_orders.contains_key(user_id) && 0 <= i < s.user_orders[user_id].len()
            ==> s.orders.contains_key(#[trigger] s.user_orders[user_id][i])
    &&& s.engine_orders.dom() == s.engine_users.dom()
    &&& forall|id: u64|
        s.engine_orders.contains_key(id) ==> s.orders.contains_key(#[trigger] s.engine_orders[id])
            && s.engine_users[id] == s.orders[s.engine_orders[id]].order.user_id
}

/// Whether an order is known as it stands.
pub open spec fn known_as(s: RouterState, order_id: Seq<char>, order: Order<Seq<char>>) -> bool {
    s.orders.contains_key(order_id) && s.orders[order_id].order == order
}

/// Whether a state knows the orders of another one, each as it stood there.
pub open spec fn keeps_orders(s: RouterState, s2: RouterState) -> bool {
    forall|id: Seq<char>|
        #![trigger s.orders.contains_key(id)]
        #![trigger s2.orders[id]]
        s.orders.contains_key(id) ==> s2.orders.contains_key(id) && s2.orders[id].order
            == s.orders[id].order
}

/// Whether a state knows the orders of another one, each as it stood there, and
/// no others.
pub open spec fn same_orders(s: RouterState, s2: RouterState) -> bool {
    keeps_orders(s, s2) && s2.orders.dom() == s.orders.dom()
}

/// The tables of a new router agree.
pub proof fn fresh_is_consistent()
    ensures
        consistent(crate::router::fresh()),
{
    assert(crate::router::fresh().engine_orders.dom() =~= crate::router::fresh().engine_users.dom());
}

/// An event for a known order keeps the tables in agreement and the orders as
/// they stand.
pub proof fn event_keeps_agreement(
    s: RouterState,
    order_id: Seq<char>,
    order: Order<Seq<char>>,
    event: Success,
)
    requires
        consistent(s),
        known_as(s, order_id, order),
    ensures
        consistent(state::success_state(s, order_id, order, event)),
        same_orders(s, state::success_state(s, order_id, order, event)),
{
    let s2 = state::success_state(s, order_id, order, event);
    assert(s2.orders.dom() =~= s.orders.dom());
    assert(s2.engine_orders.dom() =~= s2.engine_users.dom());
}

/// The results of the matching engine for a known order keep the tables in
/// agreement and the orders as they stand.
pub proof fn results_keep_agreement(s: RouterState, run: MatchRunView)
    requires
        consistent(s),
        known_as(s, run.order_id, run.order),
    ensures
        consistent(matching::advance(s, run).0),
        same_orders(s, matching::advance(s, run).0),
        matching::advance(s, run).1 matches Progress::Running(m) ==> m.order_id
            == run.order_id && m.order == run.order,
    decreases run.results.len(),
{
    if run.effects.len() == 0 && run.results.len() > 0 {
        let rest = MatchRun { results: run.results.drop_first(), ..run };
        match run.results[0] {
            MatchResult::Done(event) => {
                handling_keeps_agreement(s, rest, event);
                let (s2, run2) = matching::event_handled(s, rest, event);
                results_keep_agreement(s2, MatchRun { results: rest.results, ..run2 });
            },
            MatchResult::Failed(_) => {},
        }
    }
}

/// The handling of an event in a run for a known order keeps the tables in
/// agreement and the orders as they stand.
pub proof fn handling_keeps_agreement(s: RouterState, run: MatchRunView, event: Success)
    requires
        consistent(s),
        known_as(s, run.order_id, run.order),
    ensures
        consistent(matching::event_handled(s, run, event).0),
        same_orders(s, matching::event_handled(s, run, event).0),
        matching::event_handled(s, run, event).1.order_id == run.order_id,
        matching::event_handled(s, run, event).1.order == run.order,
{
    event_keeps_agreement(s, run.order_id, run.order, event);
    match event {
        Success::Filled { order_id, .. } => {
            if s.engine_orders.contains_key(order_id) {
                let maker = s.engine_orders[order_id];
                event_keeps_agreement(s, maker, s.orders[maker].order, event);
            }
        },
        Success::PartiallyFilled { order_id, .. } => {
            if s.engine_orders.contains_key(order_id) {
                let maker = s.engine_orders[order_id];
                event_keeps_agreement(s, maker, s.orders[maker].order, event);
            }
        },
        _ => {},
    }
}

/// The answer to the question of a run for a known order keeps the tables in
/// agreement and the orders as they stand.
pub proof fn settling_keeps_agreement(
    s: RouterState,
    run: MatchRunView,
    reply: ReplyView,
    clock: ClockReading<Seq<char>>,
)
    requires
        consistent(s),
        known_as(s, run.order_id, run.order),
    ensures
        consistent(matching::settled(s, run, reply, clock).0),
        same_orders(s, matching::settled(s, run, reply, clock).0),
        matching::settled(s, run, reply, clock).1 matches Progress::Running(m) ==> m.order_id
            == run.order_id && m.order == run.order,
{
    let rest = MatchRun { effects: run.effects.drop_first(), ..run };
    let now = clock.nanos;
    results_keep_agreement(s, rest);
    results_keep_agreement(s, MatchRun { effects: Seq::empty(), ..run });
    match (run.effects[0], reply) {
        (Effect::RecordTick { instrument_id, price, volume }, Reply::Book(b)) => {
            let tick = state::trade_tick(instrument_id, price, volume, b, now);
            results_keep_agreement(s.with_tick(tick), rest);
        },
        (Effect::RecordBookTick { instrument_id }, Reply::Book(b)) => {
            results_keep_agreement(s.with_tick(state::book_tick(instrument_id, b, now)), rest);
        },
        (Effect::RejectedReport { order_id, .. }, _) => {
            let s2 = s.rejected_at(order_id, now);
            assert(s2.orders.dom() =~= s.orders.dom());
            results_keep_agreement(s2, rest);
        },
        (Effect::WriteSnapshot { record, moment }, Reply::Done) => {
            results_keep_agreement(s.snapshot_taken(record.instrument_id, moment), rest);
        },
        _ => {},
    }
}

/// Whether a cancellation belongs to an order that is known.
pub open spec fn cancellation_known(s: RouterState, c: CancellationView) -> bool {
    s.orders.contains_key(c.request.order_id) && match c.stage {
        CancelStage::TradingState { .. } => true,
        CancelStage::FindingBook { order, .. } => known_as(s, c.request.order_id, order),
        CancelStage::Matching { order, .. } => known_as(s, c.request.order_id, order),
        CancelStage::Applying(run) => run.order_id == c.request.order_id && known_as(
            s,
            run.order_id,
            run.order,
        ),
    }
}

/// A step of a cancellation keeps the tables in agreement and the orders as they
/// stand.
pub proof fn cancellation_keeps_agreement(
    s: RouterState,
    c: CancellationView,
    reply: ReplyView,
    clock: ClockReading<Seq<char>>,
)
    requires
        consistent(s),
        cancellation_known(s, c),
    ensures
        consistent(cancelling::cancel_step(s, c, reply, clock).0),
        same_orders(s, cancelling::cancel_step(s, c, reply, clock).0),
        cancelling::cancel_step(s, c, reply, clock).1 matches Step::Pending(next)
            ==> cancellation_known(cancelling::cancel_step(s, c, reply, clock).0, next)
            && next.request == c.request,
{
    match (c.stage, reply) {
        (CancelStage::Matching { order, .. }, Reply::Matched(results)) => {
            results_keep_agreement(
                s,
                cancelling::cancel_run(c.request.order_id, order, results),
            );
        },
        (CancelStage::Applying(run), reply) => {
            settling_keeps_agreement(s, run, reply, clock);
        },
        _ => {},
    }
}

/// Whether the order that is being placed is new until it is stored, and is
/// known as it stands from then on.
pub open spec fn submission_known(s: RouterState, f: SubmissionView) -> bool {
    match f.stage {
        SubmitStage::Registering { order } => known_as(s, f.order_id, order),
        SubmitStage::FindingBook { order } => known_as(s, f.order_id, order),
        SubmitStage::Matching { order, .. } => known_as(s, f.order_id, order),
        SubmitStage::Applying(run) => run.order_id == f.order_id && known_as(
            s,
            run.order_id,
            run.order,
        ),
        SubmitStage::Cancelling(c) => cancellation_known(s, c) && c.request.order_id == f.order_id,
        _ => !s.orders.contains_key(f.order_id),
    }
}

/// A step of the placing of an order keeps the tables in agreement and the
/// orders that are known as they stand; at most it adds its own.
pub proof fn submission_keeps_agreement(
    s: RouterState,
    f: SubmissionView,
    reply: ReplyView,
    clock: ClockReading<Seq<char>>,
)
    requires
        consistent(s),
        submission_known(s, f),
    ensures
        consistent(submission::submit_step(s, f, reply, clock).0),
        keeps_orders(s, submission::submit_step(s, f, reply, clock).0),
        submission::submit_step(s, f, reply, clock).0.orders.dom() == (if f.stage is Sending
            && reply is Sent {
            s.orders.dom().insert(f.order_id)
        } else {
            s.orders.dom()
        }),
        submission::submit_step(s, f, reply, clock).1 matches Step::Pending(next)
            ==> submission_known(submission::submit_step(s, f, reply, clock).0, next),
{
    match (f.stage, reply) {
        (SubmitStage::Sending { .. }, Reply::Sent { qa_order_id, order }) => {
            let info = submission::new_info(
                f.request,
                crate::orders::qifi_order(order),
                qa_order_id,
                clock.nanos,
            );
            storing_keeps_agreement(s, f.order_id, f.request.account_id, info);
        },
        (SubmitStage::FindingBook { order }, Reply::BookFound(_)) => {
            assert(s.rejected(f.order_id).orders.dom() =~= s.orders.dom());
        },
        (SubmitStage::Matching { order, .. }, Reply::Matched(results)) => {
            let run = submission::submit_run(f.order_id, order, results);
            results_keep_agreement(s, run);
            let s2 = matching::advance(s, run).0;
            assert(s2.rejected(f.order_id).orders.dom() =~= s2.orders.dom());
        },
        (SubmitStage::Applying(run), reply) => {
            settling_keeps_agreement(s, run, reply, clock);
            let s2 = matching::settled(s, run, reply, clock).0;
            assert(s2.rejected(f.order_id).orders.dom() =~= s2.orders.dom());
        },
        (SubmitStage::Cancelling(c), reply) => {
            cancellation_keeps_agreement(s, c, reply, clock);
        },
        _ => {},
    }
}

/// What other flows do does not disturb a flow: an order that is known stays
/// known as it stands.
pub proof fn flows_do_not_disturb_each_other(
    s: RouterState,
    s2: RouterState,
    f: SubmissionView,
    c: CancellationView,
)
    requires
        keeps_orders(s, s2),
        s2.orders.contains_key(f.order_id) ==> s.orders.contains_key(f.order_id),
    ensures
        submission_known(s, f) ==> submission_known(s2, f),
        cancellation_known(s, c) ==> cancellation_known(s2, c),
{
}

/// A new order that is stored is found, is listed last under its account, and is
/// counted; the tables stay in agreement.
pub proof fn storing_keeps_agreement(
    s: RouterState,
    order_id: Seq<char>,
    user_id: Seq<char>,
    info: OrderRouteInfo<Seq<char>>,
)
    requires
        consistent(s),
        !s.orders.contains_key(order_id),
    ensures
        consistent(s.stored(order_id, user_id, info)),
        s.stored(order_id, user_id, info).orders.contains_key(order_id),
        s.stored(order_id, user_id, info).orders[order_id] == info,
        s.stored(order_id, user_id, info).list_of(user_id) == s.list_of(user_id).push(order_id),
        s.stored(order_id, user_id, info).orders.dom() == s.orders.dom().insert(order_id),
        s.orders.dom().finite() ==> s.stored(order_id, user_id, info).orders.dom().len()
            == s.orders.dom().len() + 1,
{
    let s2 = s.stored(order_id, user_id, info);
    assert(s2.orders.dom() =~= s.orders.dom().insert(order_id));
    assert forall|u: Seq<char>, i: int|
        s2.user_orders.contains_key(u) && 0 <= i < s2.user_orders[u].len() implies s2.orders.contains_key(
        #[trigger] s2.user_orders[u][i],
    ) by {
        if u == user_id {
            if i < s.list_of(user_id).len() {
                assert(s2.user_orders[u][i] == s.user_orders[u][i]);
            }
        } else {
            assert(s2.user_orders[u][i] == s.user_orders[u][i]);
        }
    }
}

/// The restoration of an order that is not known keeps the tables in agreement.
pub proof fn restoring_keeps_agreement(
    s: RouterState,
    held: HeldOrder<Seq<char>>,
    engine_id: Option<u64>,
    seconds: i64,
)
    requires
        consistent(s),
        !s.orders.contains_key(held.order_id),
    ensures
        consistent(restoring::restored(s, held, engine_id, seconds)),
        keeps_orders(s, restoring::restored(s, held, engine_id, seconds)),
{
    let info = restoring::restored_info(held, engine_id, seconds);
    storing_keeps_agreement(s, held.order_id, held.account_id, info);
    let s2 = restoring::restored(s, held, engine_id, seconds);
    assert(s2.engine_orders.dom() =~= s2.engine_users.dom());
    assert(s2.user_orders == s.stored(held.order_id, held.account_id, info).user_orders);
}

/// The way on through held orders keeps the tables in agreement, and removes no
/// order.
pub proof fn resuming_keeps_agreement(
    s: RouterState,
    todo: Seq<HeldOrder<Seq<char>>>,
    seconds: i64,
)
    requires
        consistent(s),
    ensures
        consistent(restoring::resumed(s, todo, seconds).0),
        keeps_orders(s, restoring::resumed(s, todo, seconds).0),
    decreases todo.len(),
{
    if todo.len() > 0 {
        if !restoring::restorable(s, todo[0]) {
            resuming_keeps_agreement(s, todo.drop_first(), seconds);
        } else if todo[0].order.volume_left <= 0 {
            restoring_keeps_agreement(s, todo[0], None, seconds);
            resuming_keeps_agreement(
                restoring::restored(s, todo[0], None, seconds),
                todo.drop_first(),
                seconds,
            );
        }
    }
}

/// A step of the restoration of an order that is not known keeps the tables in
/// agreement and the orders that are known as they stand.
pub proof fn restoration_keeps_agreement(
    s: RouterState,
    r: RestorationView,
    reply: ReplyView,
    clock: ClockReading<Seq<char>>,
)
    requires
        consistent(s),
        !s.orders.contains_key(r.held.order_id),
    ensures
        consistent(restoring::restore_step(s, r, reply, clock).0),
        keeps_orders(s, restoring::restore_step(s, r, reply, clock).0),
{
    let seconds = clock.seconds;
    match (r.stage, reply) {
        (restoring::RestoreStage::FindingBook, Reply::BookFound(found)) => {
            restoring_keeps_agreement(s, r.held, None, seconds);
            let s2 = restoring::restored(s, r.held, None, seconds);
            resuming_keeps_agreement(s2, r.todo, seconds);
            resuming_keeps_agreement(s, r.todo, seconds);
        },
        (restoring::RestoreStage::Matching { .. }, Reply::Matched(results)) => {
            let id = restoring::first_accepted(results);
            restoring_keeps_agreement(s, r.held, id, seconds);
            resuming_keeps_agreement(restoring::restored(s, r.held, id, seconds), r.todo, seconds);
        },
        _ => {},
    }
}

/// A status that is set from outside keeps the tables in agreement and the
/// orders as they stand.
pub proof fn status_update_keeps_agreement(
    s: RouterState,
    order_id: Seq<char>,
    status: OrderStatus,
    now: i64,
)
    requires
        consistent(s),
    ensures
        consistent(queries::status_updated(s, order_id, status, now)),
        same_orders(s, queries::status_updated(s, order_id, status, now)),
{
    assert(queries::status_updated(s, order_id, status, now).orders.dom() =~= s.orders.dom());
}

} // verus!
