//! What a restoration does, and that a second one finds nothing left to do.
use crate::clock::ClockReading;
use crate::protocol;
use crate::protocol::{Ask, Reply};
use crate::router::cancelling::Step;
use crate::router::matching::ReplyView;
use crate::router::restoring;
use crate::router::restoring::{HeldOrder, RestorationView, RestoreStepView};
use crate::router::state::RouterState;
use vstd::prelude::*;

verus! {

/// Only what is left of an order goes to the matching engine: an order with
/// nothing left is never asked about, and of another one the volume that is left
/// is to be matched, at the price of the order.
pub proof fn only_what_is_left_is_matched(
    s: RouterState,
    todo: Seq<HeldOrder<Seq<char>>>,
    seconds: i64,
    r: RestorationView,
)
    ensures
        restoring::resumed(s, todo, seconds).1 matches Step::Pending(next) ==> {
            &&& next.stage is FindingBook
            &&& next.held.order.volume_left > 0
            &&& restoring::restorable(restoring::resumed(s, todo, seconds).0, next.held)
        },
        r.stage is Matching ==> (restoring::restore_asks(r) matches Ask::MatchLimit {
            instrument_id,
            price,
            volume,
            ..
        } && instrument_id == r.held.order.instrument_id && price == r.held.order.limit_price
            && volume == r.held.order.volume_left),
    decreases todo.len(),
{
    if todo.len() > 0 {
        only_what_is_left_is_matched(s, todo.drop_first(), seconds, r);
        let restored = restoring::restored(s, todo[0], None, seconds);
        only_what_is_left_is_matched(restored, todo.drop_first(), seconds, r);
    }
}

/// An order that was sent to the matching engine is known afterwards, and so is
/// not sent again.
pub proof fn orders_are_matched_once(
    s: RouterState,
    r: RestorationView,
    reply: ReplyView,
    clock: ClockReading<Seq<char>>,
)
    requires
        r.stage is Matching,
        reply is Matched,
    ensures
        restoring::restore_step(s, r, reply, clock).0.orders.contains_key(r.held.order_id),
{
    match reply {
        Reply::Matched(results) => {
            let id = restoring::first_accepted(results);
            orders_stay_known(
                restoring::restored(s, r.held, id, clock.seconds),
                r.todo,
                clock.seconds,
            );
        },
        _ => {},
    }
}

/// Going on with held orders forgets no order.
proof fn orders_stay_known(s: RouterState, todo: Seq<HeldOrder<Seq<char>>>, seconds: i64)
    ensures
        forall|id: Seq<char>|
            s.orders.contains_key(id) ==> #[trigger] restoring::resumed(
                s,
                todo,
                seconds,
            ).0.orders.contains_key(id),
    decreases todo.len(),
{
    if todo.len() > 0 {
        orders_stay_known(s, todo.drop_first(), seconds);
        let restored = restoring::restored(s, todo[0], None, seconds);
        orders_stay_known(restored, todo.drop_first(), seconds);
        assert forall|id: Seq<char>| s.orders.contains_key(id) implies #[trigger] restoring::resumed(
            s,
            todo,
            seconds,
        ).0.orders.contains_key(id) by {
            assert(restored.orders.contains_key(id));
        }
    }
}

/// Where a restoration has come to after answers.
pub open spec fn restoration_after(
    s: RouterState,
    held: Seq<HeldOrder<Seq<char>>>,
    seconds: i64,
    events: Seq<(ReplyView, ClockReading<Seq<char>>)>,
) -> (RouterState, RestoreStepView)
    decreases events.len(),
{
    if events.len() == 0 {
        restoring::resumed(s, held, seconds)
    } else {
        let (s2, step) = restoration_after(s, held, seconds, events.drop_last());
        match step {
            Step::Pending(r) => restoring::restore_step(s2, r, events.last().0, events.last().1),
            Step::Finished(_) => (s2, step),
        }
    }
}

/// Whether the answers told of an order book exactly for these instruments.
pub open spec fn told_by(
    s: RouterState,
    held: Seq<HeldOrder<Seq<char>>>,
    seconds: i64,
    events: Seq<(ReplyView, ClockReading<Seq<char>>)>,
    books: Set<Seq<char>>,
) -> bool
    decreases events.len(),
{
    events.len() > 0 ==> told_by(s, held, seconds, events.drop_last(), books) && (
    restoration_after(s, held, seconds, events.drop_last()).1 matches Step::Pending(r) ==> (
    events.last().0 matches Reply::BookFound(found) ==> found == books.contains(
        r.held.order.instrument_id,
    )))
}

/// Whether there is nothing to restore of a held order: it is known, no longer
/// open, or without a direction in an order book.
pub open spec fn nothing_to_restore(
    s: RouterState,
    h: HeldOrder<Seq<char>>,
    books: Set<Seq<char>>,
) -> bool {
    !restoring::restorable(s, h) || (h.order.volume_left > 0 && books.contains(
        h.order.instrument_id,
    ) && protocol::side_of(h.order.direction) is None)
}

/// Whether there is nothing to restore of the first held orders.
pub open spec fn none_to_restore(
    s: RouterState,
    held: Seq<HeldOrder<Seq<char>>>,
    n: int,
    books: Set<Seq<char>>,
) -> bool {
    forall|i: int| 0 <= i < n ==> nothing_to_restore(s, #[trigger] held[i], books)
}

/// Whether a restoration has left nothing to restore of the held orders that it
/// went through, and still has the others before it.
pub open spec fn went_through(
    s: RouterState,
    step: RestoreStepView,
    held: Seq<HeldOrder<Seq<char>>>,
    books: Set<Seq<char>>,
) -> bool {
    match step {
        Step::Finished(_) => none_to_restore(s, held, held.len() as int, books),
        Step::Pending(r) => {
            let k = held.len() - r.todo.len() - 1;
            &&& 0 <= k < held.len()
            &&& r.held == held[k]
            &&& r.todo == held.skip(k + 1)
            &&& none_to_restore(s, held, k, books)
            &&& r.held.order.volume_left > 0
            &&& r.stage is Matching ==> protocol::side_of(r.held.order.direction) is Some
        },
    }
}

/// Going on after the first held orders leaves nothing to restore of those that
/// are gone through.
proof fn resuming_goes_through(
    s: RouterState,
    held: Seq<HeldOrder<Seq<char>>>,
    n: int,
    seconds: i64,
    books: Set<Seq<char>>,
)
    requires
        0 <= n <= held.len(),
        none_to_restore(s, held, n, books),
    ensures
        ({
            let (s2, step) = restoring::resumed(s, held.skip(n), seconds);
            went_through(s2, step, held, books)
        }),
    decreases held.len() - n,
{
    let todo = held.skip(n);
    if n < held.len() {
        assert(todo[0] == held[n]);
        assert(todo.drop_first() =~= held.skip(n + 1));
        if !restoring::restorable(s, todo[0]) {
            resuming_goes_through(s, held, n + 1, seconds, books);
        } else if todo[0].order.volume_left <= 0 {
            let s2 = restoring::restored(s, todo[0], None, seconds);
            assert(none_to_restore(s2, held, n + 1, books)) by {
                assert forall|i: int| 0 <= i < n + 1 implies nothing_to_restore(
                    s2,
                    #[trigger] held[i],
                    books,
                ) by {
                    if i < n {
                        assert(nothing_to_restore(s, held[i], books));
                    }
                }
            }
            resuming_goes_through(s2, held, n + 1, seconds, books);
        }
    }
}

/// A restoration leaves nothing to restore of the held orders that it went
/// through.
proof fn restoration_goes_through(
    s: RouterState,
    held: Seq<HeldOrder<Seq<char>>>,
    seconds: i64,
    events: Seq<(ReplyView, ClockReading<Seq<char>>)>,
    books: Set<Seq<char>>,
)
    requires
        told_by(s, held, seconds, events, books),
    ensures
        ({
            let (s2, step) = restoration_after(s, held, seconds, events);
            went_through(s2, step, held, books)
        }),
    decreases events.len(),
{
    if events.len() == 0 {
        assert(held.skip(0) =~= held);
        resuming_goes_through(s, held, 0, seconds, books);
    } else {
        restoration_goes_through(s, held, seconds, events.drop_last(), books);
        let (s2, step) = restoration_after(s, held, seconds, events.drop_last());
        let (reply, clock) = events.last();
        match step {
            Step::Pending(r) => {
                let k = held.len() - r.todo.len() - 1;
                match (r.stage, reply) {
                    (restoring::RestoreStage::FindingBook, Reply::BookFound(found)) => {
                        if !found {
                            after_restored(s2, held, k, None, clock.seconds, books);
                        } else if protocol::side_of(r.held.order.direction) is None {
                            assert(none_to_restore(s2, held, k + 1, books));
                            resuming_goes_through(s2, held, k + 1, clock.seconds, books);
                        }
                    },
                    (restoring::RestoreStage::Matching { .. }, Reply::Matched(results)) => {
                        let id = restoring::first_accepted(results);
                        after_restored(s2, held, k, id, clock.seconds, books);
                    },
                    _ => {},
                }
            },
            Step::Finished(_) => {},
        }
    }
}

/// The way on after a held order was restored.
proof fn after_restored(
    s: RouterState,
    held: Seq<HeldOrder<Seq<char>>>,
    k: int,
    engine_id: Option<u64>,
    seconds: i64,
    books: Set<Seq<char>>,
)
    requires
        0 <= k < held.len(),
        none_to_restore(s, held, k, books),
    ensures
        ({
            let restored = restoring::restored(s, held[k], engine_id, seconds);
            let (s2, step) = restoring::resumed(restored, held.skip(k + 1), seconds);
            went_through(s2, step, held, books)
        }),
{
    let restored = restoring::restored(s, held[k], engine_id, seconds);
    assert forall|i: int| 0 <= i < k + 1 implies nothing_to_restore(
        restored,
        #[trigger] held[i],
        books,
    ) by {
        if i < k {
            assert(nothing_to_restore(s, held[i], books));
        }
    }
    resuming_goes_through(restored, held, k + 1, seconds, books);
}

/// Where nothing is to be restored, going on changes nothing, and at most asks
/// for the order book of an order without a direction.
proof fn resuming_changes_nothing(
    s: RouterState,
    todo: Seq<HeldOrder<Seq<char>>>,
    seconds: i64,
    books: Set<Seq<char>>,
)
    requires
        none_to_restore(s, todo, todo.len() as int, books),
    ensures
        restoring::resumed(s, todo, seconds).0 == s,
        restoring::resumed(s, todo, seconds).1 matches Step::Pending(r) ==> idle(s, r, books),
    decreases todo.len(),
{
    if todo.len() > 0 {
        let rest = todo.drop_first();
        assert(nothing_to_restore(s, todo[0], books));
        assert forall|i: int| 0 <= i < rest.len() implies nothing_to_restore(
            s,
            #[trigger] rest[i],
            books,
        ) by {
            assert(rest[i] == todo[i + 1]);
        }
        if !restoring::restorable(s, todo[0]) {
            resuming_changes_nothing(s, rest, seconds, books);
        }
    }
}

/// Whether a restoration only asks for the order book of an order without a
/// direction, and has nothing to restore after it.
pub open spec fn idle(s: RouterState, r: RestorationView, books: Set<Seq<char>>) -> bool {
    &&& r.stage is FindingBook
    &&& books.contains(r.held.order.instrument_id)
    &&& protocol::side_of(r.held.order.direction) is None
    &&& none_to_restore(s, r.todo, r.todo.len() as int, books)
}

/// A second restoration of the same held orders, where the same instruments have
/// order books, changes nothing: whatever the answers to either of them were, the
/// router stays as the first one left it, and nothing is sent to the matching
/// engine again.
pub proof fn restoring_again_changes_nothing(
    s: RouterState,
    held: Seq<HeldOrder<Seq<char>>>,
    seconds1: i64,
    events1: Seq<(ReplyView, ClockReading<Seq<char>>)>,
    seconds2: i64,
    events2: Seq<(ReplyView, ClockReading<Seq<char>>)>,
    books: Set<Seq<char>>,
)
    requires
        restoration_after(s, held, seconds1, events1).1 is Finished,
        told_by(s, held, seconds1, events1, books),
        told_by(
            restoration_after(s, held, seconds1, events1).0,
            held,
            seconds2,
            events2,
            books,
        ),
    ensures
        ({
            let left = restoration_after(s, held, seconds1, events1).0;
            let (s2, step) = restoration_after(left, held, seconds2, events2);
            &&& s2 == left
            &&& step matches Step::Pending(r) ==> idle(left, r, books)
        }),
    decreases events2.len(),
{
    let left = restoration_after(s, held, seconds1, events1).0;
    restoration_goes_through(s, held, seconds1, events1, books);
    if events2.len() == 0 {
        resuming_changes_nothing(left, held, seconds2, books);
    } else {
        let before = events2.drop_last();
        restoring_again_changes_nothing(s, held, seconds1, events1, seconds2, before, books);
        match restoration_after(left, held, seconds2, before).1 {
            Step::Pending(r) => {
                resuming_changes_nothing(left, r.todo, events2.last().1.seconds, books);
            },
            Step::Finished(_) => {},
        }
    }
}

} // verus!
