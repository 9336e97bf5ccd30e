//! How an order is cancelled.
use crate::clock::ClockReading;
use crate::orders::{CancelOrderRequest, ExchangeError, Order};
use crate::protocol;
use crate::protocol::{Ask, MatchResult, OrderDirection, OrderValidation, Reply};
use crate::router::matching;
use crate::router::matching::{MatchRun, MatchRunView, Progress, ProgressView, ReplyView};
use crate::router::state::RouterState;
use crate::router::OrderRouter;
use crate::tables;
use crate::text;
use vstd::prelude::*;

verus! {

/// A flow that waits for an answer, or its result.
pub enum Step<F, R> {
    Pending(F),
    Finished(R),
}

/// What a cancellation waits for.
#[derive(Debug)]
pub enum CancelStage<S = String, M = MatchRun> {
    /// Whether the trading state of the instrument allows it.
    TradingState { instrument_id: S },
    /// Whether the instrument has an order book.
    FindingBook { order: Order<S>, direction: OrderDirection, id: u64 },
    /// The results of the matching engine.
    Matching { order: Order<S>, direction: OrderDirection, id: u64 },
    /// An effect of the results.
    Applying(M),
}

/// A cancellation on its way.
#[derive(Debug)]
pub struct Cancellation<S = String, M = MatchRun> {
    pub request: CancelOrderRequest<S>,
    pub stage: CancelStage<S, M>,
}

/// The view of a cancellation.
pub type CancellationView = Cancellation<Seq<char>, MatchRunView>;

/// The result of a cancellation.
pub type CancelResult = Result<(), ExchangeError>;

/// The view of a step of a cancellation.
pub type CancelStepView = Step<CancellationView, Result<(), ExchangeError<Seq<char>>>>;

impl View for CancelStage {
    type V = CancelStage<Seq<char>, MatchRunView>;

    open spec fn view(&self) -> CancelStage<Seq<char>, MatchRunView> {
        match self {
            CancelStage::TradingState { instrument_id } => CancelStage::TradingState {
                instrument_id: instrument_id@,
            },
            CancelStage::FindingBook { order, direction, id } => CancelStage::FindingBook {
                order: order@,
                direction: *direction,
                id: *id,
            },
            CancelStage::Matching { order, direction, id } => CancelStage::Matching {
                order: order@,
                direction: *direction,
                id: *id,
            },
            CancelStage::Applying(run) => CancelStage::Applying(run@),
        }
    }
}

impl View for Cancellation {
    type V = CancellationView;

    open spec fn view(&self) -> CancellationView {
        Cancellation { request: self.request@, stage: self.stage@ }
    }
}

/// The view of the result of a cancellation.
pub open spec fn cancel_result(r: CancelResult) -> Result<(), ExchangeError<Seq<char>>> {
    match r {
        Ok(_) => Ok(()),
        Err(e) => Err(e@),
    }
}

impl View for Step<Cancellation, CancelResult> {
    type V = CancelStepView;

    open spec fn view(&self) -> CancelStepView {
        match self {
            Step::Pending(c) => Step::Pending(c@),
            Step::Finished(r) => Step::Finished(cancel_result(*r)),
        }
    }
}

impl CancellationView {
    /// Whether the flow waits for something: where results are being applied,
    /// an effect is to be carried out.
    pub open spec fn waits(self) -> bool {
        match self.stage {
            CancelStage::Applying(run) => run.effects.len() > 0,
            _ => true,
        }
    }
}

/// A cancellation that is refused as a fault of the request.
pub open spec fn cancel_refused(message: Seq<char>) -> CancelStepView {
    Step::Finished(Err(ExchangeError::OrderError(message)))
}

/// A cancellation that the matching engine cannot carry out.
pub open spec fn cancel_failed(message: Seq<char>) -> CancelStepView {
    Step::Finished(Err(ExchangeError::MatchingError(message)))
}

/// The first step of a cancellation: the order must be known and belong to the
/// account.
pub open spec fn cancel_started(s: RouterState, request: CancelOrderRequest<Seq<char>>) -> CancelStepView {
    if !s.orders.contains_key(request.order_id) {
        cancel_refused("Order not found: "@ + request.order_id)
    } else if s.orders[request.order_id].order.user_id != request.account_id {
        cancel_refused("Order does not belong to this account"@)
    } else if s.trading_state {
        Step::Pending(
            Cancellation {
                request,
                stage: CancelStage::TradingState {
                    instrument_id: s.orders[request.order_id].order.instrument_id,
                },
            },
        )
    } else {
        cancel_checked(s, request)
    }
}

/// The step after the trading state: the order must rest in the matching engine.
pub open spec fn cancel_checked(s: RouterState, request: CancelOrderRequest<Seq<char>>) -> CancelStepView {
    let info = s.orders[request.order_id];
    if !s.orders.contains_key(request.order_id) {
        cancel_refused("Order not found: "@ + request.order_id)
    } else if !info.status.active() {
        cancel_refused("Order cannot be cancelled in status: "@ + info.status.name())
    } else {
        match (info.matching_engine_order_id, protocol::side_of(info.order.direction)) {
            (None, _) => cancel_refused("Matching engine order ID not found"@),
            (Some(_), None) => cancel_refused("Invalid direction: "@ + info.order.direction),
            (Some(id), Some(direction)) => Step::Pending(
                Cancellation {
                    request,
                    stage: CancelStage::FindingBook { order: info.order, direction, id },
                },
            ),
        }
    }
}

/// A run for a cancellation.
pub open spec fn cancel_run(
    order_id: Seq<char>,
    order: Order<Seq<char>>,
    results: Seq<MatchResult<Seq<char>>>,
) -> MatchRunView {
    MatchRun {
        order_id,
        order,
        cancelling: true,
        results,
        accepted: false,
        traded: false,
        effects: Seq::empty(),
    }
}

/// The step after a run.
pub open spec fn cancel_applied(
    request: CancelOrderRequest<Seq<char>>,
    progress: ProgressView,
) -> CancelStepView {
    match progress {
        Progress::Running(run) => Step::Pending(
            Cancellation { request, stage: CancelStage::Applying(run) },
        ),
        Progress::Done => Step::Finished(Ok(())),
        Progress::Failed(reason) => cancel_failed("Cancel order failed: "@ + reason),
    }
}

/// The question that a cancellation asks.
pub open spec fn cancel_asks(c: CancellationView) -> Ask<Seq<char>, Seq<(i64, i64)>> {
    match c.stage {
        CancelStage::TradingState { instrument_id } => Ask::ValidateCancel { instrument_id },
        CancelStage::FindingBook { order, .. } => Ask::FindBook {
            instrument_id: order.instrument_id,
        },
        CancelStage::Matching { order, direction, id } => Ask::MatchCancel {
            instrument_id: order.instrument_id,
            direction,
            id,
        },
        CancelStage::Applying(run) => matching::run_asks(run),
    }
}

/// The state and the step after the answer to the question of a cancellation.
/// An answer to another question changes nothing.
pub open spec fn cancel_step(
    s: RouterState,
    c: CancellationView,
    reply: ReplyView,
    clock: ClockReading<Seq<char>>,
) -> (RouterState, CancelStepView) {
    match (c.stage, reply) {
        (CancelStage::TradingState { .. }, Reply::Trading(OrderValidation::Allowed)) => (
            s,
            cancel_checked(s, c.request),
        ),
        (CancelStage::TradingState { .. }, Reply::Trading(OrderValidation::Rejected(reason))) => (
            s,
            cancel_refused("Cancel rejected by trading state: "@ + reason),
        ),
        (CancelStage::FindingBook { order, direction, id }, Reply::BookFound(found)) => if found {
            (
                s,
                Step::Pending(
                    Cancellation { stage: CancelStage::Matching { order, direction, id }, ..c },
                ),
            )
        } else {
            (s, cancel_failed("Orderbook not found for instrument: "@ + order.instrument_id))
        },
        (CancelStage::Matching { order, .. }, Reply::Matched(results)) => {
            let (s2, progress) = matching::advance(
                s,
                cancel_run(c.request.order_id, order, results),
            );
            (s2, cancel_applied(c.request, progress))
        },
        (CancelStage::Applying(run), reply) => {
            let (s2, progress) = matching::settled(s, run, reply, clock);
            (s2, cancel_applied(c.request, progress))
        },
        _ => (s, Step::Pending(c)),
    }
}

/// A refusal of a cancellation.
fn refuse(message: String) -> (r: Step<Cancellation, CancelResult>)
    ensures
        r@ == cancel_refused(message@),
{
    Step::Finished(Err(ExchangeError::OrderError(message)))
}

impl OrderRouter {
    /// Takes in a request to cancel an order.
    pub fn cancel_order(&self, request: CancelOrderRequest) -> (r: Step<Cancellation, CancelResult>)
        ensures
            r@ == cancel_started(self@, request@),
            r@ matches Step::Pending(c) ==> c.waits(),
    {
        match tables::get_order(&self.orders, &request.order_id) {
            None => refuse(text::joined("Order not found: ", &request.order_id)),
            Some(info) => {
                if !text::same(&info.order.user_id, &request.account_id) {
                    return refuse("Order does not belong to this account".to_string());
                }
                if self.trading_state_machine {
                    return Step::Pending(
                        Cancellation {
                            request,
                            stage: CancelStage::TradingState {
                                instrument_id: info.order.instrument_id,
                            },
                        },
                    );
                }
                self.check_cancel(request)
            },
        }
    }

    /// Checks that the order rests in the matching engine.
    fn check_cancel(&self, request: CancelOrderRequest) -> (r: Step<Cancellation, CancelResult>)
        ensures
            r@ == cancel_checked(self@, request@),
    {
        match tables::get_order(&self.orders, &request.order_id) {
            None => refuse(text::joined("Order not found: ", &request.order_id)),
            Some(info) => {
                if !info.status.is_active() {
                    return refuse(
                        text::joined(
                            "Order cannot be cancelled in status: ",
                            &info.status.name_text(),
                        ),
                    );
                }
                match info.matching_engine_order_id {
                    None => refuse("Matching engine order ID not found".to_string()),
                    Some(id) => {
                        match protocol::parse_direction(&info.order.direction) {
                            None => refuse(
                                text::joined("Invalid direction: ", &info.order.direction),
                            ),
                            Some(direction) => Step::Pending(
                                Cancellation {
                                    request,
                                    stage: CancelStage::FindingBook {
                                        order: info.order,
                                        direction,
                                        id,
                                    },
                                },
                            ),
                        }
                    },
                }
            },
        }
    }

    /// Goes on with a cancellation after an answer, given what the clocks show.
    pub fn answer_cancel_at(
        &mut self,
        flow: Cancellation,
        reply: Reply,
        clock: &ClockReading,
    ) -> (r: Step<Cancellation, CancelResult>)
        requires
            flow@.waits(),
        ensures
            (final(self)@, r@) == cancel_step(old(self)@, flow@, reply@, clock@),
            r@ matches Step::Pending(c) ==> c.waits(),
    {
        let Cancellation { request, stage } = flow;
        match (stage, reply) {
            (CancelStage::TradingState { .. }, Reply::Trading(validation)) => {
                match validation {
                    OrderValidation::Allowed => self.check_cancel(request),
                    OrderValidation::Rejected(reason) => refuse(
                        text::joined("Cancel rejected by trading state: ", &reason),
                    ),
                }
            },
            (CancelStage::FindingBook { order, direction, id }, Reply::BookFound(found)) => {
                if found {
                    Step::Pending(
                        Cancellation {
                            request,
                            stage: CancelStage::Matching { order, direction, id },
                        },
                    )
                } else {
                    Step::Finished(
                        Err(
                            ExchangeError::MatchingError(
                                text::joined(
                                    "Orderbook not found for instrument: ",
                                    &order.instrument_id,
                                ),
                            ),
                        ),
                    )
                }
            },
            (CancelStage::Matching { order, .. }, Reply::Matched(results)) => {
                let run: MatchRun = MatchRun {
                    order_id: request.order_id.clone(),
                    order,
                    cancelling: true,
                    results,
                    accepted: false,
                    traded: false,
                    effects: Vec::new(),
                };
                assert(protocol::effects_view(run.effects@) =~= Seq::empty());
                let progress: Progress = self.process_matching_results(run);
                proof {
                    matching::advance_waits(old(self)@, run@);
                }
                cancel_outcome(request, progress)
            },
            (CancelStage::Applying(run), reply) => {
                let progress: Progress = self.settle(run, reply, clock);
                proof {
                    matching::settled_waits(old(self)@, run@, reply@, clock@);
                }
                cancel_outcome(request, progress)
            },
            (stage, _) => Step::Pending(Cancellation { request, stage }),
        }
    }

    /// Goes on with a cancellation after an answer.
    pub fn answer_cancel(&mut self, flow: Cancellation, reply: Reply) -> (r: Step<
        Cancellation,
        CancelResult,
    >)
        requires
            flow@.waits(),
        ensures
            exists|clock: ClockReading<Seq<char>>|
                (final(self)@, r@) == #[trigger] cancel_step(old(self)@, flow@, reply@, clock),
            r@ matches Step::Pending(c) ==> c.waits(),
    {
        let clock: ClockReading = self.clock.read();
        self.answer_cancel_at(flow, reply, &clock)
    }
}

/// The step after a run.
fn cancel_outcome(request: CancelOrderRequest, progress: Progress) -> (r: Step<
    Cancellation,
    CancelResult,
>)
    ensures
        r@ == cancel_applied(request@, progress@),
{
    match progress {
        Progress::Running(run) => Step::Pending(
            Cancellation { request, stage: CancelStage::Applying(run) },
        ),
        Progress::Done => Step::Finished(Ok(())),
        Progress::Failed(reason) => Step::Finished(
            Err(ExchangeError::MatchingError(text::joined("Cancel order failed: ", &reason))),
        ),
    }
}

impl Cancellation {
    /// The question that the cancellation asks.
    pub fn pending(&self) -> (r: Ask)
        requires
            self@.waits(),
        ensures
            r@ == cancel_asks(self@),
    {
        match &self.stage {
            CancelStage::TradingState { instrument_id } => Ask::ValidateCancel {
                instrument_id: instrument_id.clone(),
            },
            CancelStage::FindingBook { order, .. } => Ask::FindBook {
                instrument_id: order.instrument_id.clone(),
            },
            CancelStage::Matching { order, direction, id } => Ask::MatchCancel {
                instrument_id: order.instrument_id.clone(),
                direction: *direction,
                id: *id,
            },
            CancelStage::Applying(run) => run.pending(),
        }
    }
}

} // verus!
