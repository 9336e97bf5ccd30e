//! Every flow comes to an end, and only answers bring it there.
use crate::book;
use crate::clock::ClockReading;
use crate::protocol::{Ask, Effect, MatchResult, Reply};
use crate::router::cancelling;
use crate::router::cancelling::{CancelStage, CancellationView, Step};
use crate::router::matching;
use crate::router::matching::{MatchRun, MatchRunView, Progress, ReplyView};
use crate::router::restoring;
use crate::router::restoring::{HeldOrder, RestorationView};
use crate::router::state;
use crate::router::state::RouterState;
use crate::router::submission;
use crate::router::submission::{SubmissionView, SubmitStage, SubmitStepView};
use vstd::prelude::*;

verus! {

/// Whether a reply is an answer to a question.
pub open spec fn answers(ask: Ask<Seq<char>, Seq<(i64, i64)>>, reply: ReplyView) -> bool {
    match ask {
        Ask::Book { .. } => reply is Book,
        Ask::ValidateOrder { .. } => reply is Trading,
        Ask::ValidateCancel { .. } => reply is Trading,
        Ask::CheckRisk(_) => reply is Risk,
        Ask::Balance { .. } => reply is Account,
        Ask::LockedBalance { .. } => reply is Locked,
        Ask::SendOrder(_) => reply is Sent || reply is Refused,
        Ask::RegisterActive(_) => reply is Done,
        Ask::FindBook { .. } => reply is BookFound,
        Ask::MatchLimit { .. } => reply is Matched,
        Ask::MatchCancel { .. } => reply is Matched,
        Ask::Perform(_) => reply is Done || reply is Failed,
    }
}

/// What is no answer to the question of a flow changes nothing.
pub proof fn only_answers_count(
    s: RouterState,
    f: SubmissionView,
    c: CancellationView,
    r: RestorationView,
    reply: ReplyView,
    clock: ClockReading<Seq<char>>,
)
    ensures
        f.waits() && !answers(submission::submit_asks(f), reply) ==> submission::submit_step(
            s,
            f,
            reply,
            clock,
        ) == (s, SubmitStepView::Pending(f)),
        c.waits() && !answers(cancelling::cancel_asks(c), reply) ==> cancelling::cancel_step(
            s,
            c,
            reply,
            clock,
        ) == (s, cancelling::CancelStepView::Pending(c)),
        !answers(restoring::restore_asks(r), reply) ==> restoring::restore_step(s, r, reply, clock)
            == (s, restoring::RestoreStepView::Pending(r)),
{
}

/// How much is left to do for an effect: two answers where an order book comes
/// first, else one.
pub open spec fn answers_left(effects: Seq<Effect<Seq<char>, Seq<(i64, i64)>>>) -> nat
    decreases effects.len(),
{
    if effects.len() == 0 {
        0
    } else {
        answers_left(effects.drop_first()) + if effects[0].book_of() is Some {
            2nat
        } else {
            1nat
        }
    }
}

/// Whether a run is closer to its end than another one: fewer results are left,
/// or as many and fewer answers to the effects.
pub open spec fn nearer_run(m: MatchRunView, run: MatchRunView) -> bool {
    m.results.len() < run.results.len() || (m.results.len() == run.results.len() && answers_left(
        m.effects,
    ) < answers_left(run.effects))
}

/// Going on with the results never leads away from the end of a run.
proof fn advancing_is_progress(s: RouterState, run: MatchRunView)
    ensures
        matching::advance(s, run).1 matches Progress::Running(m) ==> m.results.len()
            < run.results.len() || m == run,
    decreases run.results.len(),
{
    if run.effects.len() == 0 && run.results.len() > 0 {
        let rest = MatchRun { results: run.results.drop_first(), ..run };
        match run.results[0] {
            MatchResult::Done(event) => {
                let (s2, run2) = matching::event_handled(s, rest, event);
                advancing_is_progress(s2, MatchRun { results: rest.results, ..run2 });
            },
            MatchResult::Failed(_) => {},
        }
    }
}

/// Every answer brings a run closer to its end.
pub proof fn answers_end_a_run(
    s: RouterState,
    run: MatchRunView,
    reply: ReplyView,
    clock: ClockReading<Seq<char>>,
)
    requires
        run.effects.len() > 0,
        answers(matching::run_asks(run), reply),
    ensures
        matching::settled(s, run, reply, clock).1 matches Progress::Running(m) ==> nearer_run(
            m,
            run,
        ),
{
    let rest = MatchRun { effects: run.effects.drop_first(), ..run };
    let none = MatchRun { effects: Seq::empty(), ..run };
    let now = clock.nanos;
    advancing_is_progress(s, rest);
    advancing_is_progress(s, none);
    match (run.effects[0], reply) {
        (Effect::RecordTick { instrument_id, price, volume }, Reply::Book(b)) => {
            let tick = state::trade_tick(instrument_id, price, volume, b, now);
            advancing_is_progress(s.with_tick(tick), rest);
        },
        (Effect::RecordBookTick { instrument_id }, Reply::Book(b)) => {
            advancing_is_progress(s.with_tick(state::book_tick(instrument_id, b, now)), rest);
        },
        (Effect::RecordSnapshot { instrument_id }, Reply::Book(Some(b))) => {
            let write: Effect<Seq<char>, Seq<(i64, i64)>> = Effect::WriteSnapshot {
                record: state::snapshot_of(instrument_id, b, now),
                moment: clock.moment,
            };
            assert((seq![write] + rest.effects).drop_first() =~= rest.effects);
        },
        (Effect::BroadcastBook { instrument_id, bid, price, given }, Reply::Book(b)) => {
            let tell: Effect<Seq<char>, Seq<(i64, i64)>> = Effect::BroadcastVolume {
                instrument_id,
                side: if bid {
                    "bid"@
                } else {
                    "ask"@
                },
                price,
                volume: book::announced_volume(b, bid, price as int, given)->0 as i64,
            };
            assert((seq![tell] + rest.effects).drop_first() =~= rest.effects);
        },
        (Effect::RejectedReport { order_id, .. }, _) => {
            advancing_is_progress(s.rejected_at(order_id, now), rest);
        },
        (Effect::WriteSnapshot { record, moment }, Reply::Done) => {
            advancing_is_progress(s.snapshot_taken(record.instrument_id, moment), rest);
        },
        _ => {},
    }
}

/// How many stages a cancellation may still go through.
pub open spec fn cancel_stages_left(c: CancellationView) -> nat {
    match c.stage {
        CancelStage::TradingState { .. } => 4,
        CancelStage::FindingBook { .. } => 3,
        CancelStage::Matching { .. } => 2,
        CancelStage::Applying(_) => 1,
    }
}

/// Whether a cancellation is closer to its end than another one.
pub open spec fn nearer_cancellation(next: CancellationView, c: CancellationView) -> bool {
    cancel_stages_left(next) < cancel_stages_left(c) || match (next.stage, c.stage) {
        (CancelStage::Applying(m), CancelStage::Applying(run)) => nearer_run(m, run),
        _ => false,
    }
}

/// Every answer brings a cancellation closer to its end.
pub proof fn answers_end_a_cancellation(
    s: RouterState,
    c: CancellationView,
    reply: ReplyView,
    clock: ClockReading<Seq<char>>,
)
    requires
        c.waits(),
        answers(cancelling::cancel_asks(c), reply),
    ensures
        cancelling::cancel_step(s, c, reply, clock).1 matches Step::Pending(next)
            ==> nearer_cancellation(next, c),
{
    match c.stage {
        CancelStage::Applying(run) => {
            answers_end_a_run(s, run, reply, clock);
        },
        _ => {},
    }
}

/// How many stages the placing of an order may still go through.
pub open spec fn submit_stages_left(f: SubmissionView) -> nat {
    match f.stage {
        SubmitStage::Quote => 12,
        SubmitStage::TradingState => 11,
        SubmitStage::Risk => 10,
        SubmitStage::Depth => 9,
        SubmitStage::Account => 8,
        SubmitStage::Locked { .. } => 7,
        SubmitStage::Sending { .. } => 6,
        SubmitStage::Registering { .. } => 5,
        SubmitStage::FindingBook { .. } => 4,
        SubmitStage::Matching { .. } => 3,
        SubmitStage::Applying(_) => 2,
        SubmitStage::Cancelling(_) => 1,
    }
}

/// Whether the placing of an order is closer to its end than another one.
pub open spec fn nearer_submission(next: SubmissionView, f: SubmissionView) -> bool {
    submit_stages_left(next) < submit_stages_left(f) || match (next.stage, f.stage) {
        (SubmitStage::Applying(m), SubmitStage::Applying(run)) => nearer_run(m, run),
        (SubmitStage::Cancelling(n), SubmitStage::Cancelling(c)) => nearer_cancellation(n, c),
        _ => false,
    }
}

/// Every answer brings the placing of an order closer to its end, so that every
/// request is answered.
pub proof fn answers_end_a_submission(
    s: RouterState,
    f: SubmissionView,
    reply: ReplyView,
    clock: ClockReading<Seq<char>>,
)
    requires
        f.waits(),
        answers(submission::submit_asks(f), reply),
    ensures
        submission::submit_step(s, f, reply, clock).1 matches Step::Pending(next)
            ==> nearer_submission(next, f),
{
    match f.stage {
        SubmitStage::Applying(run) => {
            answers_end_a_run(s, run, reply, clock);
        },
        SubmitStage::Cancelling(c) => {
            answers_end_a_cancellation(s, c, reply, clock);
        },
        _ => {},
    }
}

/// Going on with held orders takes at least one of them up.
proof fn resuming_is_progress(s: RouterState, todo: Seq<HeldOrder<Seq<char>>>, seconds: i64)
    ensures
        restoring::resumed(s, todo, seconds).1 matches Step::Pending(next) ==> next.todo.len()
            < todo.len() && next.stage is FindingBook,
    decreases todo.len(),
{
    if todo.len() > 0 {
        resuming_is_progress(s, todo.drop_first(), seconds);
        resuming_is_progress(
            restoring::restored(s, todo[0], None, seconds),
            todo.drop_first(),
            seconds,
        );
    }
}

/// Every answer brings a restoration closer to its end: fewer orders are left, or
/// the matching engine is asked about the present one.
pub proof fn answers_end_a_restoration(
    s: RouterState,
    r: RestorationView,
    reply: ReplyView,
    clock: ClockReading<Seq<char>>,
)
    requires
        answers(restoring::restore_asks(r), reply),
    ensures
        restoring::restore_step(s, r, reply, clock).1 matches Step::Pending(next)
            ==> next.todo.len() < r.todo.len() || (next.todo.len() == r.todo.len()
            && r.stage is FindingBook && next.stage is Matching),
{
    let seconds = clock.seconds;
    resuming_is_progress(s, r.todo, seconds);
    resuming_is_progress(restoring::restored(s, r.held, None, seconds), r.todo, seconds);
    match reply {
        Reply::Matched(results) => {
            let id = restoring::first_accepted(results);
            resuming_is_progress(restoring::restored(s, r.held, id, seconds), r.todo, seconds);
        },
        _ => {},
    }
}

} // verus!
