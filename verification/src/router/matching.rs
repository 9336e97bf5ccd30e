//! How the router goes through the results of the matching engine.
//!
//! A [`MatchRun`] holds the results that are still to be handled, and the
//! effects of the last one that are still to be carried out.
use crate::amounts;
use crate::book;
use crate::book::OrderBook;
use crate::clock::ClockReading;
use crate::orders::{Order, OrderRouteInfo, OrderStatus};
use crate::protocol;
use crate::protocol::{
    Ask, Effect, EffectView, MatchResult, Reply, SnapshotRecord, Success, TickRecord,
};
use crate::router::state;
use crate::router::state::RouterState;
use crate::router::OrderRouter;
use crate::tables;
use crate::text;
use vstd::prelude::*;

verus! {

/// The results of one request to the matching engine, on their way.
#[derive(Debug)]
pub struct MatchRun<S = String, R = Vec<MatchResult>, E = Vec<Effect>> {
    pub order_id: S,
    pub order: Order<S>,
    /// Whether the request was to cancel, not to place, the order.
    pub cancelling: bool,
    /// The results that are still to be handled.
    pub results: R,
    /// Whether the order was accepted.
    pub accepted: bool,
    /// Whether the order has traded.
    pub traded: bool,
    /// The effects that are still to be carried out.
    pub effects: E,
}

/// The view of a run.
pub type MatchRunView = MatchRun<Seq<char>, Seq<MatchResult<Seq<char>>>, Seq<EffectView>>;

/// The view of a reply.
pub type ReplyView = Reply<Seq<char>, Seq<MatchResult<Seq<char>>>>;

impl View for MatchRun {
    type V = MatchRunView;

    open spec fn view(&self) -> MatchRunView {
        MatchRun {
            order_id: self.order_id@,
            order: self.order@,
            cancelling: self.cancelling,
            results: protocol::results_view(self.results@),
            accepted: self.accepted,
            traded: self.traded,
            effects: protocol::effects_view(self.effects@),
        }
    }
}

/// How far a run has come.
pub enum Progress<M = MatchRun, S = String> {
    /// An effect is to be carried out.
    Running(M),
    /// All results are handled.
    Done,
    /// The run stopped, for a reason.
    Failed(S),
}

/// The view of how far a run has come.
pub type ProgressView = Progress<MatchRunView, Seq<char>>;

impl View for Progress {
    type V = ProgressView;

    open spec fn view(&self) -> ProgressView {
        match self {
            Progress::Running(m) => Progress::Running(m@),
            Progress::Done => Progress::Done,
            Progress::Failed(s) => Progress::Failed(s@),
        }
    }
}

/// The state and the run after an event for an order.
pub open spec fn applied(
    s: RouterState,
    run: MatchRunView,
    order_id: Seq<char>,
    order: Order<Seq<char>>,
    event: Success,
    is_taker: bool,
) -> (RouterState, MatchRunView) {
    let after = state::success_state(s, order_id, order, event);
    (
        after,
        MatchRun {
            effects: state::success_effects(after, order_id, order, event, is_taker),
            ..run
        },
    )
}

/// Whether a trade is that of the order itself, which takes the liquidity: the
/// first trade, and every one under the number of the order.
pub open spec fn own_trade(s: RouterState, run: MatchRunView, match_order_id: u64) -> bool {
    !run.traded || s.order_behind(match_order_id) == Some(run.order_id)
}

/// The state and the run after a trade: that of the order itself, or that of an
/// order that rested, where it is known.
pub open spec fn trade_applied(
    s: RouterState,
    run: MatchRunView,
    match_order_id: u64,
    event: Success,
) -> (RouterState, MatchRunView) {
    if own_trade(s, run, match_order_id) {
        applied(s, MatchRun { traded: true, ..run }, run.order_id, run.order, event, true)
    } else {
        match s.order_behind(match_order_id) {
            Some(maker_id) => if s.orders.contains_key(maker_id) {
                applied(s, run, maker_id, s.orders[maker_id].order, event, false)
            } else {
                (s, run)
            },
            None => (s, run),
        }
    }
}

/// The state and the run after an event.
pub open spec fn event_handled(s: RouterState, run: MatchRunView, event: Success) -> (
    RouterState,
    MatchRunView,
) {
    if run.cancelling {
        applied(s, run, run.order_id, run.order, event, true)
    } else {
        match event {
            Success::Accepted { .. } => if run.accepted {
                (s, run)
            } else {
                applied(s, MatchRun { accepted: true, ..run }, run.order_id, run.order, event, true)
            },
            Success::Filled { order_id, .. } => trade_applied(s, run, order_id, event),
            Success::PartiallyFilled { order_id, .. } => trade_applied(s, run, order_id, event),
            _ => applied(s, run, run.order_id, run.order, event, true),
        }
    }
}

/// Goes on with the results until an effect is to be carried out. A result that
/// failed leads to the report that an order that is being placed is rejected, and
/// stops a cancellation.
pub open spec fn advance(s: RouterState, run: MatchRunView) -> (RouterState, ProgressView)
    decreases run.results.len(),
{
    if run.effects.len() > 0 {
        (s, Progress::Running(run))
    } else if run.results.len() == 0 {
        (s, Progress::Done)
    } else {
        let rest = MatchRun { results: run.results.drop_first(), ..run };
        match run.results[0] {
            MatchResult::Done(event) => {
                let (s2, run2) = event_handled(s, rest, event);
                advance(s2, MatchRun { results: rest.results, ..run2 })
            },
            MatchResult::Failed(reason) => if run.cancelling {
                (s, Progress::Failed(reason))
            } else {
                (
                    s,
                    Progress::Running(
                        MatchRun {
                            effects: seq![
                                Effect::RejectedReport {
                                    order_id: run.order_id,
                                    order: run.order,
                                    reason,
                                },
                            ],
                            ..rest
                        },
                    ),
                )
            },
        }
    }
}

/// The question that a run asks next.
pub open spec fn run_asks(run: MatchRunView) -> Ask<Seq<char>, Seq<(i64, i64)>> {
    match run.effects[0].book_of() {
        Some(instrument_id) => Ask::Book { instrument_id },
        None => Ask::Perform(run.effects[0]),
    }
}

/// The state and the run after the answer to the question of a run. An answer
/// to another question changes nothing.
///
/// An order is marked as rejected after the report of it, whether or not that
/// succeeded. Another report that fails stops an order that is being placed; while
/// cancelling, it only keeps the other effects of the same event from being
/// carried out.
pub open spec fn settled(
    s: RouterState,
    run: MatchRunView,
    reply: ReplyView,
    clock: ClockReading<Seq<char>>,
) -> (RouterState, ProgressView) {
    let rest = MatchRun { effects: run.effects.drop_first(), ..run };
    let now = clock.nanos;
    match (run.effects[0], reply) {
        (Effect::RecordTick { instrument_id, price, volume }, Reply::Book(b)) => advance(
            s.with_tick(state::trade_tick(instrument_id, price, volume, b, now)),
            rest,
        ),
        (Effect::RecordBookTick { instrument_id }, Reply::Book(b)) => advance(
            s.with_tick(state::book_tick(instrument_id, b, now)),
            rest,
        ),
        (Effect::RecordSnapshot { instrument_id }, Reply::Book(b)) => match b {
            Some(b) => if s.snapshot_too_soon(instrument_id, clock.moment) {
                advance(s, rest)
            } else {
                (
                    s,
                    Progress::Running(
                        MatchRun {
                            effects: seq![
                                Effect::WriteSnapshot {
                                    record: state::snapshot_of(instrument_id, b, now),
                                    moment: clock.moment,
                                },
                            ] + rest.effects,
                            ..run
                        },
                    ),
                )
            },
            None => advance(s, rest),
        },
        (Effect::BroadcastBook { instrument_id, bid, price, given }, Reply::Book(b)) =>
        match book::announced_volume(b, bid, price as int, given) {
            Some(v) => (
                s,
                Progress::Running(
                    MatchRun {
                        effects: seq![
                            Effect::BroadcastVolume {
                                instrument_id,
                                side: if bid {
                                    "bid"@
                                } else {
                                    "ask"@
                                },
                                price,
                                volume: v as i64,
                            },
                        ] + rest.effects,
                        ..run
                    },
                ),
            ),
            None => advance(s, rest),
        },
        (Effect::RejectedReport { order_id, .. }, Reply::Done) => advance(
            s.rejected_at(order_id, now),
            rest,
        ),
        (Effect::RejectedReport { order_id, .. }, Reply::Failed(_)) => advance(
            s.rejected_at(order_id, now),
            rest,
        ),
        (Effect::WriteSnapshot { record, moment }, Reply::Done) => advance(
            s.snapshot_taken(record.instrument_id, moment),
            rest,
        ),
        (effect, Reply::Done) => if effect.book_of() is None {
            advance(s, rest)
        } else {
            (s, Progress::Running(run))
        },
        (effect, Reply::Failed(reason)) => if effect.book_of() is Some {
            (s, Progress::Running(run))
        } else if !effect.can_fail() {
            advance(s, rest)
        } else if run.cancelling {
            advance(s, MatchRun { effects: Seq::empty(), ..run })
        } else {
            (s, Progress::Failed(reason))
        },
        _ => (s, Progress::Running(run)),
    }
}

/// A run that goes on has an effect to be carried out.
pub proof fn advance_waits(s: RouterState, run: MatchRunView)
    ensures
        advance(s, run).1 matches Progress::Running(m) ==> m.effects.len() > 0,
    decreases run.results.len(),
{
    if run.effects.len() == 0 && run.results.len() > 0 {
        let rest = MatchRun { results: run.results.drop_first(), ..run };
        match run.results[0] {
            MatchResult::Done(event) => {
                let (s2, run2) = event_handled(s, rest, event);
                advance_waits(s2, MatchRun { results: rest.results, ..run2 });
            },
            MatchResult::Failed(_) => {},
        }
    }
}

/// A run that goes on after an answer has an effect to be carried out.
pub proof fn settled_waits(
    s: RouterState,
    run: MatchRunView,
    reply: ReplyView,
    clock: ClockReading<Seq<char>>,
)
    requires
        run.effects.len() > 0,
    ensures
        settled(s, run, reply, clock).1 matches Progress::Running(m) ==> m.effects.len() > 0,
{
    let rest = MatchRun { effects: run.effects.drop_first(), ..run };
    let now = clock.nanos;
    advance_waits(s, rest);
    advance_waits(s, MatchRun { effects: Seq::empty(), ..run });
    match (run.effects[0], reply) {
        (Effect::RecordTick { instrument_id, price, volume }, Reply::Book(b)) => {
            let tick = state::trade_tick(instrument_id, price, volume, b, now);
            advance_waits(s.with_tick(tick), rest);
        },
        (Effect::RecordBookTick { instrument_id }, Reply::Book(b)) => {
            advance_waits(s.with_tick(state::book_tick(instrument_id, b, now)), rest);
        },
        (Effect::RejectedReport { order_id, .. }, _) => {
            advance_waits(s.rejected_at(order_id, now), rest);
        },
        (Effect::WriteSnapshot { record, moment }, Reply::Done) => {
            advance_waits(s.snapshot_taken(record.instrument_id, moment), rest);
        },
        _ => {},
    }
}

/// Appends an effect under a condition.
fn push_if(out: &mut Vec<Effect>, condition: bool, effect: Effect)
    ensures
        protocol::effects_view(final(out)@) == protocol::effects_view(old(out)@) + state::only(
            condition,
            effect@,
        ),
{
    if condition {
        out.push(effect);
    }
    assert(protocol::effects_view(out@) =~= protocol::effects_view(old(out)@) + state::only(
        condition,
        effect@,
    ));
}

impl OrderRouter {
    /// Replaces the record of an order that is known.
    fn change_order(&mut self, order_id: &str, info: OrderRouteInfo)
        requires
            old(self)@.orders.contains_key(order_id@),
        ensures
            final(self)@ == old(self)@.changed(order_id@, info@),
    {
        tables::put_order(&mut self.orders, order_id.to_string(), info);
    }

    /// Adds a trade to the totals.
    fn update_trade_stats(&mut self, price: i64, volume: i64)
        ensures
            final(self)@ == old(self)@.traded(price as int, volume as int),
    {
        self.trade_count = if self.trade_count == u64::MAX {
            0
        } else {
            self.trade_count + 1
        };
        self.trade_volume = amounts::total_plus(self.trade_volume, volume as i128);
        self.trade_amount = amounts::total_plus(self.trade_amount, amounts::product(price, volume));
    }

    /// The identifier of an order in the account layer; empty where the order is
    /// not known.
    fn qa_order_of(&self, order_id: &str) -> (r: String)
        ensures
            r@ == self@.qa_order_of(order_id@),
    {
        match tables::get_order(&self.orders, order_id) {
            Some(info) => info.qa_order_id,
            None => {
                proof {
                    reveal_strlit("");
                }
                let r: String = "".to_string();
                assert(r@ =~= Seq::<char>::empty());
                r
            },
        }
    }

    /// The effects of a trade of an order, up to and with the trade report.
    fn plan_trade(
        &self,
        order_id: &str,
        order: &Order,
        match_order_id: u64,
        price: i64,
        volume: i64,
        opposite_order_id: u64,
        is_taker: bool,
    ) -> (out: Vec<Effect>)
        ensures
            protocol::effects_view(out@) == state::trade_effects(
                self@,
                order_id@,
                order@,
                match_order_id,
                price,
                volume,
                opposite_order_id,
                is_taker,
            ),
    {
        let mut out: Vec<Effect> = Vec::new();
        assert(protocol::effects_view(out@) =~= Seq::<EffectView>::empty());
        let side: String = if text::same(&order.direction, "BUY") {
            "buy".to_string()
        } else {
            "sell".to_string()
        };
        push_if(
            &mut out,
            self.market_broadcaster,
            Effect::BroadcastTick {
                instrument_id: order.instrument_id.clone(),
                price,
                volume,
                side,
            },
        );
        push_if(
            &mut out,
            self.market_broadcaster,
            Effect::BroadcastLastPrice { instrument_id: order.instrument_id.clone(), price },
        );
        push_if(
            &mut out,
            self.storage,
            Effect::RecordTick { instrument_id: order.instrument_id.clone(), price, volume },
        );
        push_if(
            &mut out,
            self.storage,
            Effect::RecordSnapshot { instrument_id: order.instrument_id.clone() },
        );
        push_if(
            &mut out,
            true,
            Effect::TradeReport {
                order_id: order_id.to_string(),
                order: order.clone(),
                match_order_id,
                volume,
                price,
                opposite_order_id,
                opposite_user: tables::get_id(&self.engine_id_to_user, opposite_order_id),
                qa_order_id: self.qa_order_of(order_id),
                opposite_order: tables::get_id(&self.engine_id_to_order, opposite_order_id),
                is_taker,
            },
        );
        assert(protocol::effects_view(out@) =~= state::trade_effects(
            self@,
            order_id@,
            order@,
            match_order_id,
            price,
            volume,
            opposite_order_id,
            is_taker,
        ));
        out
    }

    /// Handles an event of the matching engine for an order: changes what the
    /// router knows, and says what follows from it.
    pub(crate) fn handle_success_result(
        &mut self,
        order_id: &str,
        order: &Order,
        event: Success,
        is_taker: bool,
    ) -> (out: Vec<Effect>)
        ensures
            final(self)@ == state::success_state(old(self)@, order_id@, order@, event),
            protocol::effects_view(out@) == state::success_effects(
                final(self)@,
                order_id@,
                order@,
                event,
                is_taker,
            ),
    {
        let info: Option<OrderRouteInfo> = tables::get_order(&self.orders, order_id);
        match event {
            Success::Accepted { id, ts } => {
                if let Some(info) = info {
                    self.change_order(
                        order_id,
                        OrderRouteInfo {
                            status: OrderStatus::Submitted,
                            update_time: ts,
                            matching_engine_order_id: Some(id),
                            ..info
                        },
                    );
                }
                tables::put_id(&mut self.engine_id_to_order, id, order_id.to_string());
                tables::put_id(&mut self.engine_id_to_user, id, order.user_id.clone());
                self.plan_accepted(order_id, order)
            },
            Success::Filled { order_id: match_order_id, price, volume, ts, opposite_order_id } => {
                if let Some(info) = info {
                    let filled: i64 = amounts::plus(info.filled_volume, volume);
                    self.change_order(
                        order_id,
                        OrderRouteInfo {
                            status: OrderStatus::Filled,
                            update_time: ts,
                            filled_volume: filled,
                            ..info
                        },
                    );
                }
                self.update_trade_stats(price, volume);
                let mut out: Vec<Effect> = self.plan_trade(
                    order_id,
                    order,
                    match_order_id,
                    price,
                    volume,
                    opposite_order_id,
                    is_taker,
                );
                push_if(
                    &mut out,
                    true,
                    Effect::ReleaseActive {
                        user_id: order.user_id.clone(),
                        order_id: order_id.to_string(),
                    },
                );
                out
            },
            Success::PartiallyFilled {
                order_id: match_order_id,
                price,
                volume,
                ts,
                opposite_order_id,
            } => {
                if let Some(info) = info {
                    let filled: i64 = amounts::plus(info.filled_volume, volume);
                    self.change_order(
                        order_id,
                        OrderRouteInfo {
                            status: OrderStatus::PartiallyFilled,
                            update_time: ts,
                            filled_volume: filled,
                            ..info
                        },
                    );
                }
                self.update_trade_stats(price, volume);
                self.plan_trade(
                    order_id,
                    order,
                    match_order_id,
                    price,
                    volume,
                    opposite_order_id,
                    is_taker,
                )
            },
            Success::Cancelled { id, ts } => {
                let remaining: i64 = match &info {
                    Some(info) => amounts::minus(info.order.volume_orign, info.filled_volume),
                    None => order.volume_orign,
                };
                if let Some(info) = info {
                    self.change_order(
                        order_id,
                        OrderRouteInfo { status: OrderStatus::Cancelled, update_time: ts, ..info },
                    );
                }
                self.plan_cancelled(order_id, order, id, remaining)
            },
            Success::Amended { .. } => {
                let out: Vec<Effect> = Vec::new();
                assert(protocol::effects_view(out@) =~= Seq::<EffectView>::empty());
                out
            },
        }
    }

    /// The effects of an acceptance.
    fn plan_accepted(&self, order_id: &str, order: &Order) -> (out: Vec<Effect>)
        ensures
            forall|id: u64, ts: i64, is_taker: bool|
                protocol::effects_view(out@) == #[trigger] state::success_effects(
                    self@,
                    order_id@,
                    order@,
                    Success::Accepted { id, ts },
                    is_taker,
                ),
    {
        let mut out: Vec<Effect> = Vec::new();
        assert(protocol::effects_view(out@) =~= Seq::<EffectView>::empty());
        push_if(
            &mut out,
            true,
            Effect::AcceptedReport { order_id: order_id.to_string(), order: order.clone() },
        );
        push_if(
            &mut out,
            self.storage,
            Effect::RecordBookTick { instrument_id: order.instrument_id.clone() },
        );
        push_if(
            &mut out,
            self.market_broadcaster,
            Effect::BroadcastBook {
                instrument_id: order.instrument_id.clone(),
                bid: text::same(&order.direction, "BUY"),
                price: order.limit_price,
                given: Some(order.volume_orign),
            },
        );
        push_if(
            &mut out,
            self.storage,
            Effect::RecordSnapshot { instrument_id: order.instrument_id.clone() },
        );
        assert forall|id: u64, ts: i64, is_taker: bool|
            protocol::effects_view(out@) == #[trigger] state::success_effects(
                self@,
                order_id@,
                order@,
                Success::Accepted { id, ts },
                is_taker,
            ) by {
            assert(protocol::effects_view(out@) =~= state::success_effects(
                self@,
                order_id@,
                order@,
                Success::Accepted { id, ts },
                is_taker,
            ));
        }
        out
    }

    /// The effects of a cancellation.
    fn plan_cancelled(&self, order_id: &str, order: &Order, id: u64, remaining: i64) -> (out: Vec<Effect>)
        requires
            remaining == state::volume_left_over(self@, order_id@, order@),
        ensures
            forall|ts: i64, is_taker: bool|
                protocol::effects_view(out@) == #[trigger] state::success_effects(
                    self@,
                    order_id@,
                    order@,
                    Success::Cancelled { id, ts },
                    is_taker,
                ),
    {
        let mut out: Vec<Effect> = Vec::new();
        assert(protocol::effects_view(out@) =~= Seq::<EffectView>::empty());
        push_if(
            &mut out,
            true,
            Effect::CancelReport {
                order_id: order_id.to_string(),
                order: order.clone(),
                exchange_order_id: id,
                remaining,
                qa_order_id: self.qa_order_of(order_id),
            },
        );
        push_if(
            &mut out,
            self.storage,
            Effect::RecordBookTick { instrument_id: order.instrument_id.clone() },
        );
        push_if(
            &mut out,
            self.market_broadcaster,
            Effect::BroadcastBook {
                instrument_id: order.instrument_id.clone(),
                bid: text::same(&order.direction, "BUY"),
                price: order.limit_price,
                given: None,
            },
        );
        push_if(
            &mut out,
            self.storage,
            Effect::RecordSnapshot { instrument_id: order.instrument_id.clone() },
        );
        push_if(
            &mut out,
            true,
            Effect::ReleaseActive {
                user_id: order.user_id.clone(),
                order_id: order_id.to_string(),
            },
        );
        assert forall|ts: i64, is_taker: bool|
            protocol::effects_view(out@) == #[trigger] state::success_effects(
                self@,
                order_id@,
                order@,
                Success::Cancelled { id, ts },
                is_taker,
            ) by {
            assert(protocol::effects_view(out@) =~= state::success_effects(
                self@,
                order_id@,
                order@,
                Success::Cancelled { id, ts },
                is_taker,
            ));
        }
        out
    }

    /// Handles a trade.
    fn handle_trade(&mut self, run: &mut MatchRun, match_order_id: u64, event: Success)
        ensures
            (final(self)@, final(run)@) == trade_applied(
                old(self)@,
                old(run)@,
                match_order_id,
                event,
            ),
    {
        let behind: Option<String> = tables::get_id(&self.engine_id_to_order, match_order_id);
        let own: bool = !run.traded || match &behind {
            Some(id) => text::same(id, &run.order_id),
            None => false,
        };
        if own {
            run.traded = true;
            run.effects = self.handle_success_result(&run.order_id, &run.order, event, true);
            return;
        }
        if let Some(maker_id) = behind {
            if let Some(maker) = tables::get_order(&self.orders, &maker_id) {
                run.effects = self.handle_success_result(&maker_id, &maker.order, event, false);
            }
        }
    }

    /// Handles an event.
    fn handle_event(&mut self, run: &mut MatchRun, event: Success)
        ensures
            (final(self)@, final(run)@) == event_handled(old(self)@, old(run)@, event),
    {
        if run.cancelling {
            run.effects = self.handle_success_result(&run.order_id, &run.order, event, true);
            return;
        }
        match event {
            Success::Accepted { .. } => {
                if !run.accepted {
                    run.accepted = true;
                    run.effects = self.handle_success_result(
                        &run.order_id,
                        &run.order,
                        event,
                        true,
                    );
                }
            },
            Success::Filled { order_id, .. } => {
                self.handle_trade(run, order_id, event);
            },
            Success::PartiallyFilled { order_id, .. } => {
                self.handle_trade(run, order_id, event);
            },
            _ => {
                run.effects = self.handle_success_result(&run.order_id, &run.order, event, true);
            },
        }
    }

    /// Marks an order as rejected at a time, where it is known.
    fn reject_at(&mut self, order_id: &str, now: i64)
        ensures
            final(self)@ == old(self)@.rejected_at(order_id@, now),
    {
        if let Some(info) = tables::get_order(&self.orders, order_id) {
            self.change_order(
                order_id,
                OrderRouteInfo { status: OrderStatus::Rejected, update_time: now, ..info },
            );
        }
    }

    /// Goes on with the results until an effect is to be carried out.
    pub(crate) fn process_matching_results(&mut self, run: MatchRun) -> (r: Progress)
        ensures
            (final(self)@, r@) == advance(old(self)@, run@),
    {
        let mut left: MatchRun = run;
        while left.effects.len() == 0 && left.results.len() > 0
            invariant
                advance(self@, left@) == advance(old(self)@, run@),
            decreases left.results@.len(),
        {
            let ghost before = left@;
            let ghost known = self@;
            let result: MatchResult = left.results.remove(0);
            assert(protocol::results_view(left.results@) =~= before.results.drop_first());
            assert(result@ == before.results[0]);
            let ghost rest = left@;
            match result {
                MatchResult::Done(event) => {
                    self.handle_event(&mut left, event);
                    assert(MatchRun { results: rest.results, ..left@ } == left@);
                },
                MatchResult::Failed(reason) => {
                    if left.cancelling {
                        return Progress::Failed(reason);
                    }
                    let mut effects: Vec<Effect> = Vec::new();
                    assert(protocol::effects_view(effects@) =~= Seq::<EffectView>::empty());
                    push_if(
                        &mut effects,
                        true,
                        Effect::RejectedReport {
                            order_id: left.order_id.clone(),
                            order: left.order.clone(),
                            reason,
                        },
                    );
                    left.effects = effects;
                    assert(left@.effects =~= seq![
                        Effect::RejectedReport {
                            order_id: before.order_id,
                            order: before.order,
                            reason: reason@,
                        },
                    ]);
                    return Progress::Running(left);
                },
            }
        }
        if left.effects.len() > 0 {
            Progress::Running(left)
        } else {
            Progress::Done
        }
    }

    /// Records a trade as a tick that waits to be written.
    pub(crate) fn persist_tick_data(
        &mut self,
        instrument_id: String,
        price: i64,
        volume: i64,
        b: &Option<OrderBook>,
        now: i64,
    )
        ensures
            final(self)@ == old(self)@.with_tick(
                state::trade_tick(instrument_id@, price, volume, *b, now),
            ),
    {
        let (bid_price, ask_price): (i64, i64) = match b {
            Some(b) => (book::best(&b.bids), book::best(&b.asks)),
            None => (0, 0),
        };
        let tick: TickRecord = TickRecord {
            instrument_id,
            last_price: price as i128 * 10_000,
            bid_price,
            ask_price,
            volume: book::to_whole_units(volume),
            timestamp: now,
        };
        self.tick_buffer.push(tick);
        assert(self@.ticks =~= old(self)@.ticks.push(tick@));
    }

    /// Records a change of the order book as a tick that waits to be written.
    pub(crate) fn persist_orderbook_tick(
        &mut self,
        instrument_id: String,
        b: &Option<OrderBook>,
        now: i64,
    )
        ensures
            final(self)@ == old(self)@.with_tick(state::book_tick(instrument_id@, *b, now)),
    {
        let (bid_price, ask_price, last_price): (i64, i64, i128) = match b {
            Some(b) => (book::best(&b.bids), book::best(&b.asks), book::reference(b)),
            None => (0, 0, 0),
        };
        let tick: TickRecord = TickRecord {
            instrument_id,
            last_price,
            bid_price,
            ask_price,
            volume: 0,
            timestamp: now,
        };
        self.tick_buffer.push(tick);
        assert(self@.ticks =~= old(self)@.ticks.push(tick@));
    }

    /// Whether the last snapshot of an instrument is so recent that another one
    /// is to be left out.
    fn snapshot_too_soon(&self, instrument_id: &str, moment: u64) -> (r: bool)
        ensures
            r == self@.snapshot_too_soon(instrument_id@, moment),
    {
        match tables::get_time(&self.last_snapshot_time, instrument_id) {
            Some(last) => {
                let elapsed: u64 = if moment >= last {
                    moment - last
                } else {
                    0
                };
                elapsed < self.snapshot_interval
            },
            None => false,
        }
    }

    /// Takes a snapshot of an order book, unless there is no book or the last
    /// snapshot is too recent.
    pub(crate) fn persist_orderbook_snapshot(
        &self,
        instrument_id: String,
        b: &Option<OrderBook>,
        clock: &ClockReading,
    ) -> (r: Option<SnapshotRecord>)
        ensures
            match (r, *b) {
                (Some(record), Some(b)) => record@ == state::snapshot_of(
                    instrument_id@,
                    b,
                    clock.nanos,
                ) && !self@.snapshot_too_soon(instrument_id@, clock.moment),
                (Some(_), None) => false,
                (None, Some(_)) => self@.snapshot_too_soon(instrument_id@, clock.moment),
                (None, None) => true,
            },
    {
        if self.snapshot_too_soon(&instrument_id, clock.moment) {
            return None;
        }
        match b {
            Some(b) => {
                let bids: Vec<(i64, i64)> = book::top(&b.bids);
                let asks: Vec<(i64, i64)> = book::top(&b.asks);
                let first_bid: bool = match &b.bids {
                    Some(v) => v.len() > 0,
                    None => false,
                };
                let last_price: i64 = if first_bid {
                    book::best(&b.bids)
                } else {
                    book::best(&b.asks)
                };
                Some(
                    SnapshotRecord {
                        instrument_id,
                        bids,
                        asks,
                        last_price,
                        timestamp: clock.nanos,
                    },
                )
            },
            None => None,
        }
    }

    /// Goes on with a run after the answer to its question.
    #[verifier::rlimit(60)]
    pub(crate) fn settle(&mut self, run: MatchRun, reply: Reply, clock: &ClockReading) -> (r: Progress)
        requires
            run.effects@.len() > 0,
        ensures
            (final(self)@, r@) == settled(old(self)@, run@, reply@, clock@),
    {
        let mut run: MatchRun = run;
        let ghost before = run@;
        let effect: Effect = run.effects.remove(0);
        assert(effect@ == before.effects[0]);
        assert(run@.effects =~= before.effects.drop_first());
        let ghost rest = run@;
        match (effect, reply) {
            (Effect::RecordTick { instrument_id, price, volume }, Reply::Book(b)) => {
                self.persist_tick_data(instrument_id, price, volume, &b, clock.nanos);
                self.process_matching_results(run)
            },
            (Effect::RecordBookTick { instrument_id }, Reply::Book(b)) => {
                self.persist_orderbook_tick(instrument_id, &b, clock.nanos);
                self.process_matching_results(run)
            },
            (Effect::RecordSnapshot { instrument_id }, Reply::Book(b)) => {
                match self.persist_orderbook_snapshot(instrument_id, &b, clock) {
                    Some(record) => {
                        let next: Effect = Effect::WriteSnapshot { record, moment: clock.moment };
                        run.effects.insert(0, next);
                        assert(run@.effects =~= seq![next@] + rest.effects);
                        Progress::Running(run)
                    },
                    None => self.process_matching_results(run),
                }
            },
            (Effect::BroadcastBook { instrument_id, bid, price, given }, Reply::Book(b)) => {
                match book::book_update_volume(&b, bid, price, given) {
                    Some(volume) => {
                        let side: String = if bid {
                            "bid".to_string()
                        } else {
                            "ask".to_string()
                        };
                        let next: Effect = Effect::BroadcastVolume {
                            instrument_id,
                            side,
                            price,
                            volume,
                        };
                        run.effects.insert(0, next);
                        assert(run@.effects =~= seq![next@] + rest.effects);
                        Progress::Running(run)
                    },
                    None => self.process_matching_results(run),
                }
            },
            (Effect::RejectedReport { order_id, .. }, Reply::Done) => {
                self.reject_at(&order_id, clock.nanos);
                self.process_matching_results(run)
            },
            (Effect::RejectedReport { order_id, .. }, Reply::Failed(_)) => {
                self.reject_at(&order_id, clock.nanos);
                self.process_matching_results(run)
            },
            (Effect::WriteSnapshot { record, moment }, Reply::Done) => {
                tables::put_time(&mut self.last_snapshot_time, record.instrument_id, moment);
                self.process_matching_results(run)
            },
            (effect, Reply::Done) => {
                if !effect.needs_book() {
                    return self.process_matching_results(run);
                }
                run.effects.insert(0, effect);
                assert(run@.effects =~= before.effects);
                Progress::Running(run)
            },
            (effect, Reply::Failed(reason)) => {
                if effect.needs_book() {
                    run.effects.insert(0, effect);
                    assert(run@.effects =~= before.effects);
                    return Progress::Running(run);
                }
                if !effect.is_fallible() {
                    return self.process_matching_results(run);
                }
                if run.cancelling {
                    run.effects = Vec::new();
                    assert(run@.effects =~= Seq::<EffectView>::empty());
                    return self.process_matching_results(run);
                }
                Progress::Failed(reason)
            },
            (effect, _) => {
                run.effects.insert(0, effect);
                assert(run@.effects =~= before.effects);
                Progress::Running(run)
            },
        }
    }
}

impl MatchRun {
    /// The question that the run asks next.
    pub fn pending(&self) -> (r: Ask)
        requires
            self.effects@.len() > 0,
        ensures
            r@ == run_asks(self@),
    {
        match &self.effects[0] {
            Effect::RecordTick { instrument_id, .. } => Ask::Book {
                instrument_id: instrument_id.clone(),
            },
            Effect::RecordBookTick { instrument_id } => Ask::Book {
                instrument_id: instrument_id.clone(),
            },
            Effect::RecordSnapshot { instrument_id } => Ask::Book {
                instrument_id: instrument_id.clone(),
            },
            Effect::BroadcastBook { instrument_id, .. } => Ask::Book {
                instrument_id: instrument_id.clone(),
            },
            effect => Ask::Perform(effect.clone()),
        }
    }
}

} // verus!
