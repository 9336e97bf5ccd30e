//! How orders that accounts still hold are taken up again after a restart.
use crate::amounts;
use crate::clock::ClockReading;
use crate::conditions::{TimeCondition, VolumeCondition};
use crate::orders::{Order, OrderRouteInfo, OrderStatus};
use crate::protocol;
use crate::protocol::{Ask, MatchResult, OrderDirection, Reply, Success};
use crate::router::cancelling::Step;
use crate::router::matching::ReplyView;
use crate::router::state::RouterState;
use crate::router::OrderRouter;
use crate::tables;
use crate::text;
use vstd::prelude::*;

verus! {

/// An order that an account holds.
#[derive(Debug)]
pub struct HeldOrder<S = String> {
    pub account_id: S,
    pub order_id: S,
    pub order: Order<S>,
}

impl View for HeldOrder<String> {
    type V = HeldOrder<Seq<char>>;

    open spec fn view(&self) -> HeldOrder<Seq<char>> {
        HeldOrder {
            account_id: self.account_id@,
            order_id: self.order_id@,
            order: self.order@,
        }
    }
}

/// The characters of each held order of a list.
pub open spec fn held_view(v: Seq<HeldOrder>) -> Seq<HeldOrder<Seq<char>>> {
    v.map_values(|h: HeldOrder| h@)
}

/// What the restoration of an order waits for.
#[derive(Debug)]
pub enum RestoreStage {
    /// Whether the instrument has an order book.
    FindingBook,
    /// The results of the matching engine.
    Matching { direction: OrderDirection, timestamp: i64 },
}

/// The restoration of orders on its way.
#[derive(Debug)]
pub struct Restoration<S = String, H = Vec<HeldOrder>> {
    /// The order that is being restored.
    pub held: HeldOrder<S>,
    /// The orders that come after it.
    pub todo: H,
    pub stage: RestoreStage,
}

/// The view of a restoration.
pub type RestorationView = Restoration<Seq<char>, Seq<HeldOrder<Seq<char>>>>;

/// The view of a step of a restoration.
pub type RestoreStepView = Step<RestorationView, ()>;

impl View for Restoration {
    type V = RestorationView;

    open spec fn view(&self) -> RestorationView {
        Restoration { held: self.held@, todo: held_view(self.todo@), stage: self.stage }
    }
}

impl View for Step<Restoration, ()> {
    type V = RestoreStepView;

    open spec fn view(&self) -> RestoreStepView {
        match self {
            Step::Pending(r) => Step::Pending(r@),
            Step::Finished(_) => Step::Finished(()),
        }
    }
}

/// Whether a held order is to be restored: it is still open, and not known.
pub open spec fn restorable(s: RouterState, held: HeldOrder<Seq<char>>) -> bool {
    (held.order.status == "SUBMITTED"@ || held.order.status == "ALIVE"@)
        && !s.orders.contains_key(held.order_id)
}

/// Whole seconds of nanoseconds, cut off towards zero.
pub open spec fn whole_seconds(nanos: int) -> int {
    if nanos >= 0 {
        nanos / 1_000_000_000
    } else {
        -((-nanos) / 1_000_000_000)
    }
}

/// The record of an order that was restored.
pub open spec fn restored_info(
    held: HeldOrder<Seq<char>>,
    engine_id: Option<u64>,
    seconds: i64,
) -> OrderRouteInfo<Seq<char>> {
    OrderRouteInfo {
        order: held.order,
        status: if held.order.status == "SUBMITTED"@ {
            OrderStatus::Submitted
        } else {
            OrderStatus::PartiallyFilled
        },
        submit_time: whole_seconds(held.order.insert_date_time as int) as i64,
        update_time: seconds,
        filled_volume: amounts::clamp64(held.order.volume_orign - held.order.volume_left) as i64,
        qa_order_id: held.order_id,
        matching_engine_order_id: engine_id,
        time_condition: TimeCondition::GFD,
        volume_condition: VolumeCondition::ANY,
    }
}

/// The state after an order was restored: listed under its account and, where
/// the matching engine has accepted it again, behind its new number.
pub open spec fn restored(
    s: RouterState,
    held: HeldOrder<Seq<char>>,
    engine_id: Option<u64>,
    seconds: i64,
) -> RouterState {
    let numbered = match engine_id {
        Some(id) => s.numbered(id, held.order_id, held.order.user_id),
        None => s,
    };
    numbered.stored(held.order_id, held.account_id, restored_info(held, engine_id, seconds))
}

/// The number of the first acceptance among results, where there is one.
pub open spec fn first_accepted(results: Seq<MatchResult<Seq<char>>>) -> Option<u64>
    decreases results.len(),
{
    if results.len() == 0 {
        None
    } else {
        match results[0] {
            MatchResult::Done(Success::Accepted { id, .. }) => Some(id),
            _ => first_accepted(results.drop_first()),
        }
    }
}

/// Goes on with held orders until a question is to be asked. An order with
/// nothing left to fill does not go back to the matching engine.
pub open spec fn resumed(s: RouterState, todo: Seq<HeldOrder<Seq<char>>>, seconds: i64) -> (
    RouterState,
    RestoreStepView,
)
    decreases todo.len(),
{
    if todo.len() == 0 {
        (s, Step::Finished(()))
    } else if !restorable(s, todo[0]) {
        resumed(s, todo.drop_first(), seconds)
    } else if todo[0].order.volume_left > 0 {
        (
            s,
            Step::Pending(
                Restoration {
                    held: todo[0],
                    todo: todo.drop_first(),
                    stage: RestoreStage::FindingBook,
                },
            ),
        )
    } else {
        resumed(restored(s, todo[0], None, seconds), todo.drop_first(), seconds)
    }
}

/// The question that a restoration asks. What is left of the order is to be
/// matched.
pub open spec fn restore_asks(r: RestorationView) -> Ask<Seq<char>, Seq<(i64, i64)>> {
    match r.stage {
        RestoreStage::FindingBook => Ask::FindBook { instrument_id: r.held.order.instrument_id },
        RestoreStage::Matching { direction, timestamp } => Ask::MatchLimit {
            instrument_id: r.held.order.instrument_id,
            direction,
            price: r.held.order.limit_price,
            volume: r.held.order.volume_left,
            timestamp,
        },
    }
}

/// The state and the step after the answer to the question of a restoration. An
/// order without a direction is left out; an order without an order book is
/// restored without a number. An answer to another question changes nothing.
pub open spec fn restore_step(
    s: RouterState,
    r: RestorationView,
    reply: ReplyView,
    clock: ClockReading<Seq<char>>,
) -> (RouterState, RestoreStepView) {
    match (r.stage, reply) {
        (RestoreStage::FindingBook, Reply::BookFound(found)) => if !found {
            resumed(restored(s, r.held, None, clock.seconds), r.todo, clock.seconds)
        } else {
            match protocol::side_of(r.held.order.direction) {
                None => resumed(s, r.todo, clock.seconds),
                Some(direction) => (
                    s,
                    Step::Pending(
                        Restoration {
                            stage: RestoreStage::Matching { direction, timestamp: clock.nanos },
                            ..r
                        },
                    ),
                ),
            }
        },
        (RestoreStage::Matching { .. }, Reply::Matched(results)) => resumed(
            restored(s, r.held, first_accepted(results), clock.seconds),
            r.todo,
            clock.seconds,
        ),
        _ => (s, Step::Pending(r)),
    }
}

/// Finds the number of the first acceptance among results.
fn find_accepted(results: &Vec<MatchResult>) -> (r: Option<u64>)
    ensures
        r == first_accepted(protocol::results_view(results@)),
{
    let ghost all = protocol::results_view(results@);
    let n: usize = results.len();
    let mut i: usize = 0;
    assert(all.skip(0) =~= all);
    while i < n
        invariant
            i <= n,
            n == results@.len(),
            all == protocol::results_view(results@),
            first_accepted(all) == first_accepted(all.skip(i as int)),
        decreases n - i,
    {
        assert(all.skip(i as int)[0] == results@[i as int]@);
        assert(all.skip(i as int).drop_first() =~= all.skip(i + 1));
        match &results[i] {
            MatchResult::Done(Success::Accepted { id, .. }) => {
                return Some(*id);
            },
            _ => {},
        }
        i += 1;
    }
    None
}

impl OrderRouter {
    /// Whether a held order is to be restored.
    fn is_restorable(&self, held: &HeldOrder) -> (r: bool)
        ensures
            r == restorable(self@, held@),
    {
        (text::same(&held.order.status, "SUBMITTED") || text::same(&held.order.status, "ALIVE"))
            && !tables::has_order(&self.orders, &held.order_id)
    }

    /// Restores an order.
    fn restore(&mut self, held: HeldOrder, engine_id: Option<u64>, seconds: i64)
        ensures
            final(self)@ == restored(old(self)@, held@, engine_id, seconds),
    {
        if let Some(id) = engine_id {
            tables::put_id(&mut self.engine_id_to_order, id, held.order_id.clone());
            tables::put_id(&mut self.engine_id_to_user, id, held.order.user_id.clone());
        }
        let nanos: i64 = held.order.insert_date_time;
        let submit_time: i64 = if nanos >= 0 {
            nanos / 1_000_000_000
        } else {
            let m: i128 = -(nanos as i128);
            (-(m / 1_000_000_000)) as i64
        };
        let status: OrderStatus = if text::same(&held.order.status, "SUBMITTED") {
            OrderStatus::Submitted
        } else {
            OrderStatus::PartiallyFilled
        };
        let info: OrderRouteInfo = OrderRouteInfo {
            filled_volume: amounts::minus(held.order.volume_orign, held.order.volume_left),
            order: held.order,
            status,
            submit_time,
            update_time: seconds,
            qa_order_id: held.order_id.clone(),
            matching_engine_order_id: engine_id,
            time_condition: TimeCondition::GFD,
            volume_condition: VolumeCondition::ANY,
        };
        self.store_order(&held.order_id, &held.account_id, info);
    }

    /// Goes on with held orders until a question is to be asked.
    fn resume(&mut self, todo: Vec<HeldOrder>, seconds: i64) -> (r: Step<Restoration, ()>)
        ensures
            (final(self)@, r@) == resumed(old(self)@, held_view(todo@), seconds),
    {
        let mut left: Vec<HeldOrder> = todo;
        while left.len() > 0
            invariant
                resumed(self@, held_view(left@), seconds) == resumed(
                    old(self)@,
                    held_view(todo@),
                    seconds,
                ),
            decreases left@.len(),
        {
            let ghost before = held_view(left@);
            let held: HeldOrder = left.remove(0);
            assert(held@ == before[0]);
            assert(held_view(left@) =~= before.drop_first());
            if self.is_restorable(&held) {
                if held.order.volume_left > 0 {
                    return Step::Pending(
                        Restoration { held, todo: left, stage: RestoreStage::FindingBook },
                    );
                }
                self.restore(held, None, seconds);
            }
        }
        Step::Finished(())
    }

    /// Takes up the open orders that accounts hold, given what the clocks show.
    pub fn restore_orders_from_accounts_at(&mut self, held: Vec<HeldOrder>, clock: &ClockReading) -> (r:
        Step<Restoration, ()>)
        ensures
            (final(self)@, r@) == resumed(old(self)@, held_view(held@), clock.seconds),
    {
        self.resume(held, clock.seconds)
    }

    /// Takes up the open orders that accounts hold.
    pub fn restore_orders_from_accounts(&mut self, held: Vec<HeldOrder>) -> (r: Step<Restoration, ()>)
        ensures
            exists|seconds: i64|
                (final(self)@, r@) == #[trigger] resumed(old(self)@, held_view(held@), seconds),
    {
        let clock: ClockReading = self.clock.read();
        self.restore_orders_from_accounts_at(held, &clock)
    }

    /// Goes on with a restoration after an answer, given what the clocks show.
    pub fn answer_restore_at(&mut self, flow: Restoration, reply: Reply, clock: &ClockReading) -> (r:
        Step<Restoration, ()>)
        ensures
            (final(self)@, r@) == restore_step(old(self)@, flow@, reply@, clock@),
    {
        let Restoration { held, todo, stage } = flow;
        match (stage, reply) {
            (RestoreStage::FindingBook, Reply::BookFound(found)) => {
                if !found {
                    self.restore(held, None, clock.seconds);
                    return self.resume(todo, clock.seconds);
                }
                match protocol::parse_direction(&held.order.direction) {
                    None => self.resume(todo, clock.seconds),
                    Some(direction) => Step::Pending(
                        Restoration {
                            held,
                            todo,
                            stage: RestoreStage::Matching { direction, timestamp: clock.nanos },
                        },
                    ),
                }
            },
            (RestoreStage::Matching { .. }, Reply::Matched(results)) => {
                let engine_id: Option<u64> = find_accepted(&results);
                self.restore(held, engine_id, clock.seconds);
                self.resume(todo, clock.seconds)
            },
            (stage, _) => Step::Pending(Restoration { held, todo, stage }),
        }
    }

    /// Goes on with a restoration after an answer.
    pub fn answer_restore(&mut self, flow: Restoration, reply: Reply) -> (r: Step<Restoration, ()>)
        ensures
            exists|clock: ClockReading<Seq<char>>|
                (final(self)@, r@) == #[trigger] restore_step(old(self)@, flow@, reply@, clock),
    {
        let clock: ClockReading = self.clock.read();
        self.answer_restore_at(flow, reply, &clock)
    }
}

impl Restoration {
    /// The question that the restoration asks.
    pub fn pending(&self) -> (r: Ask)
        ensures
            r@ == restore_asks(self@),
    {
        match &self.stage {
            RestoreStage::FindingBook => Ask::FindBook {
                instrument_id: self.held.order.instrument_id.clone(),
            },
            RestoreStage::Matching { direction, timestamp } => Ask::MatchLimit {
                instrument_id: self.held.order.instrument_id.clone(),
                direction: *direction,
                price: self.held.order.limit_price,
                volume: self.held.order.volume_left,
                timestamp: *timestamp,
            },
        }
    }
}

} // verus!
