//! How an order is placed.
use crate::amounts;
use crate::book;
use crate::book::OrderBook;
use crate::clock::ClockReading;
use crate::conditions::{TimeCondition, VolumeCondition};
use crate::orders;
use crate::orders::{
    CancelOrderRequest, Order, OrderRouteInfo, OrderStatus, QAOrder, SubmitOrderRequest,
    SubmitOrderResponse,
};
use crate::protocol;
use crate::protocol::{
    AccountLookup, ActiveOrder, Ask, MatchResult, OrderCheckRequest, OrderDirection, OrderToSend,
    OrderValidation, Reply, RiskCheckOutcome,
};
use crate::router::cancelling;
use crate::router::cancelling::{Cancellation, CancellationView, Step};
use crate::router::matching;
use crate::router::matching::{MatchRun, MatchRunView, Progress, ProgressView, ReplyView};
use crate::router::state::RouterState;
use crate::router::OrderRouter;
use crate::tables;
use crate::text;
use vstd::prelude::*;

verus! {

/// What the placing of an order waits for.
#[derive(Debug)]
pub enum SubmitStage<S = String, M = MatchRun, C = Cancellation> {
    /// The order book, for the price of a market order.
    Quote,
    /// Whether the trading state allows it.
    TradingState,
    /// Whether it is within the limits.
    Risk,
    /// The order book, for an order that must be filled at once.
    Depth,
    /// The funds of the account.
    Account,
    /// The funds of the account under its lock.
    Locked { time: S },
    /// The order of the account layer.
    Sending { time: S },
    /// The order to be tracked.
    Registering { order: Order<S> },
    /// Whether the instrument has an order book.
    FindingBook { order: Order<S> },
    /// The results of the matching engine.
    Matching { order: Order<S>, direction: OrderDirection, timestamp: i64 },
    /// An effect of the results.
    Applying(M),
    /// The cancellation of what is left.
    Cancelling(C),
}

/// The placing of an order on its way.
#[derive(Debug)]
pub struct Submission<S = String, M = MatchRun, C = Cancellation> {
    pub order_id: S,
    pub request: SubmitOrderRequest<S>,
    /// Whether the order skips the risk check and the checks of funds and depth.
    pub force: bool,
    pub stage: SubmitStage<S, M, C>,
}

/// The view of a stage.
pub type SubmitStageView = SubmitStage<Seq<char>, MatchRunView, CancellationView>;

/// The view of the placing of an order.
pub type SubmissionView = Submission<Seq<char>, MatchRunView, CancellationView>;

/// The view of a step of the placing of an order.
pub type SubmitStepView = Step<SubmissionView, SubmitOrderResponse<Seq<char>>>;

impl View for SubmitStage {
    type V = SubmitStageView;

    open spec fn view(&self) -> SubmitStageView {
        match self {
            SubmitStage::Quote => SubmitStage::Quote,
            SubmitStage::TradingState => SubmitStage::TradingState,
            SubmitStage::Risk => SubmitStage::Risk,
            SubmitStage::Depth => SubmitStage::Depth,
            SubmitStage::Account => SubmitStage::Account,
            SubmitStage::Locked { time } => SubmitStage::Locked { time: time@ },
            SubmitStage::Sending { time } => SubmitStage::Sending { time: time@ },
            SubmitStage::Registering { order } => SubmitStage::Registering { order: order@ },
            SubmitStage::FindingBook { order } => SubmitStage::FindingBook { order: order@ },
            SubmitStage::Matching { order, direction, timestamp } => SubmitStage::Matching {
                order: order@,
                direction: *direction,
                timestamp: *timestamp,
            },
            SubmitStage::Applying(run) => SubmitStage::Applying(run@),
            SubmitStage::Cancelling(c) => SubmitStage::Cancelling(c@),
        }
    }
}

impl View for Submission {
    type V = SubmissionView;

    open spec fn view(&self) -> SubmissionView {
        Submission {
            order_id: self.order_id@,
            request: self.request@,
            force: self.force,
            stage: self.stage@,
        }
    }
}

impl View for Step<Submission, SubmitOrderResponse> {
    type V = SubmitStepView;

    open spec fn view(&self) -> SubmitStepView {
        match self {
            Step::Pending(f) => Step::Pending(f@),
            Step::Finished(r) => Step::Finished(r@),
        }
    }
}

impl SubmissionView {
    /// Whether the flow waits for something.
    pub open spec fn waits(self) -> bool {
        match self.stage {
            SubmitStage::Applying(run) => run.effects.len() > 0,
            SubmitStage::Cancelling(c) => c.waits(),
            _ => true,
        }
    }

    /// The same flow in another stage.
    pub open spec fn at(self, stage: SubmitStageView) -> SubmitStepView {
        Step::Pending(Submission { stage, ..self })
    }

    /// The end of the flow: the order is rejected.
    pub open spec fn refused(self, message: Seq<char>, code: u32) -> SubmitStepView {
        Step::Finished(rejection(self.order_id, message, code))
    }
}

/// The identifier of an order: `O`, the milliseconds since the epoch, and the
/// number of the order with at least ten digits.
pub open spec fn order_id_of(millis: i64, seq: u64) -> Seq<char> {
    "O"@ + text::decimal(millis as int) + text::zero_padded(text::digits(seq as nat), 10)
}

/// The number after a number; the numbers start over when they are used up.
pub open spec fn next_seq(seq: u64) -> u64 {
    if seq == u64::MAX {
        0
    } else {
        (seq + 1) as u64
    }
}

/// The response to an order that is rejected.
pub open spec fn rejection(order_id: Seq<char>, message: Seq<char>, code: u32) -> SubmitOrderResponse<
    Seq<char>,
> {
    SubmitOrderResponse {
        success: false,
        order_id: Some(order_id),
        status: Some("rejected"@),
        error_message: Some(message),
        error_code: Some(code),
    }
}

/// The response to an order that was placed, with its status in the end.
pub open spec fn placement(s: RouterState, order_id: Seq<char>) -> SubmitOrderResponse<Seq<char>> {
    SubmitOrderResponse {
        success: true,
        order_id: Some(order_id),
        status: Some(s.word_of(order_id)),
        error_message: None,
        error_code: None,
    }
}

/// The time condition of a request; good for the day unless it says otherwise.
pub open spec fn time_condition_of<S>(request: SubmitOrderRequest<S>) -> TimeCondition {
    match request.time_condition {
        Some(c) => c,
        None => TimeCondition::GFD,
    }
}

/// The volume condition of a request; any volume unless it says otherwise.
pub open spec fn volume_condition_of<S>(request: SubmitOrderRequest<S>) -> VolumeCondition {
    match request.volume_condition {
        Some(c) => c,
        None => VolumeCondition::ANY,
    }
}

/// Whether the order must be filled at once and as a whole, or not at all.
pub open spec fn fill_or_kill<S>(request: SubmitOrderRequest<S>) -> bool {
    time_condition_of(request) == TimeCondition::IOC && volume_condition_of(request)
        == VolumeCondition::ALL
}

/// Whether funds cover what a request takes.
pub open spec fn affordable(request: SubmitOrderRequest<Seq<char>>, available: i64) -> bool {
    amounts::covers(
        available as int,
        amounts::required_funds(
            request.direction,
            request.offset,
            request.price as int,
            request.volume as int,
        ),
    )
}

/// The message for funds that do not cover a request: what is available and
/// what is required, with two decimals.
pub open spec fn shortage(request: SubmitOrderRequest<Seq<char>>, available: i64) -> Seq<char> {
    "Insufficient funds: available="@ + amounts::money_text(available as int, 100)
        + ", required="@ + amounts::money_text(
        amounts::required_funds(
            request.direction,
            request.offset,
            request.price as int,
            request.volume as int,
        ),
        10_000_000_000,
    )
}

/// What the router keeps of an order when the account layer has made it.
pub open spec fn new_info(
    request: SubmitOrderRequest<Seq<char>>,
    order: Order<Seq<char>>,
    qa_order_id: Seq<char>,
    now: i64,
) -> OrderRouteInfo<Seq<char>> {
    OrderRouteInfo {
        order,
        status: OrderStatus::PendingRoute,
        submit_time: now,
        update_time: now,
        filled_volume: 0,
        qa_order_id,
        matching_engine_order_id: None,
        time_condition: time_condition_of(request),
        volume_condition: volume_condition_of(request),
    }
}

/// Whether an order that is immediate or to be cancelled has volume left that
/// is to be cancelled.
pub open spec fn leaves_remainder(s: RouterState, order_id: Seq<char>) -> bool {
    let info = s.orders[order_id];
    s.orders.contains_key(order_id) && info.time_condition == TimeCondition::IOC
        && !info.status.closed() && amounts::clamp64(info.order.volume_orign - info.filled_volume)
        > amounts::VOLUME_TOLERANCE
}

/// The first step of the placing of an order. A market order without a price
/// takes its price from the order book.
pub open spec fn submit_started(
    s: RouterState,
    request: SubmitOrderRequest<Seq<char>>,
    force: bool,
    millis: i64,
) -> (RouterState, SubmitStepView) {
    let flow: SubmissionView = Submission {
        order_id: order_id_of(millis, s.order_seq),
        request,
        force,
        stage: SubmitStage::Quote,
    };
    (
        RouterState { order_seq: next_seq(s.order_seq), ..s },
        if request.order_type == "MARKET"@ && request.price <= 0 {
            flow.at(SubmitStage::Quote)
        } else {
            priced(s, flow)
        },
    )
}

/// The step after the price is known.
pub open spec fn priced(s: RouterState, f: SubmissionView) -> SubmitStepView {
    if s.trading_state {
        f.at(SubmitStage::TradingState)
    } else {
        allowed(f)
    }
}

/// The step after the trading state: the risk check, unless the order is forced.
pub open spec fn allowed(f: SubmissionView) -> SubmitStepView {
    if f.force {
        cleared(f)
    } else {
        f.at(SubmitStage::Risk)
    }
}

/// The step after the risk check.
pub open spec fn cleared(f: SubmissionView) -> SubmitStepView {
    if fill_or_kill(f.request) && !f.force {
        f.at(SubmitStage::Depth)
    } else {
        f.at(SubmitStage::Account)
    }
}

/// A run for an order that is being placed.
pub open spec fn submit_run(
    order_id: Seq<char>,
    order: Order<Seq<char>>,
    results: Seq<MatchResult<Seq<char>>>,
) -> MatchRunView {
    MatchRun {
        order_id,
        order,
        cancelling: false,
        results,
        accepted: false,
        traded: false,
        effects: Seq::empty(),
    }
}

/// The end of the flow when the order cannot be routed: it is rejected.
pub open spec fn unroutable(s: RouterState, f: SubmissionView, reason: Seq<char>) -> (
    RouterState,
    SubmitStepView,
) {
    (s.rejected(f.order_id), f.refused("Routing error: "@ + reason, 5000))
}

/// The step after all results are handled: what is left of an order that is
/// immediate or to be cancelled is cancelled.
pub open spec fn matched(s: RouterState, f: SubmissionView) -> SubmitStepView {
    if time_condition_of(f.request) == TimeCondition::IOC && leaves_remainder(s, f.order_id) {
        match cancelling::cancel_started(
            s,
            CancelOrderRequest { account_id: f.request.account_id, order_id: f.order_id },
        ) {
            Step::Pending(c) => f.at(SubmitStage::Cancelling(c)),
            Step::Finished(_) => Step::Finished(placement(s, f.order_id)),
        }
    } else {
        Step::Finished(placement(s, f.order_id))
    }
}

/// The step after a run.
pub open spec fn submit_applied(s: RouterState, f: SubmissionView, progress: ProgressView) -> (
    RouterState,
    SubmitStepView,
) {
    match progress {
        Progress::Running(run) => (s, f.at(SubmitStage::Applying(run))),
        Progress::Done => (s, matched(s, f)),
        Progress::Failed(reason) => unroutable(s, f, reason),
    }
}

/// The question that the placing of an order asks.
pub open spec fn submit_asks(f: SubmissionView) -> Ask<Seq<char>, Seq<(i64, i64)>> {
    let r = f.request;
    match f.stage {
        SubmitStage::Quote => Ask::Book { instrument_id: r.instrument_id },
        SubmitStage::TradingState => Ask::ValidateOrder { instrument_id: r.instrument_id },
        SubmitStage::Risk => Ask::CheckRisk(
            OrderCheckRequest {
                account_id: r.account_id,
                instrument_id: r.instrument_id,
                direction: r.direction,
                offset: r.offset,
                volume: r.volume,
                price: r.price,
                limit_price: r.price,
                price_type: r.order_type,
            },
        ),
        SubmitStage::Depth => Ask::Book { instrument_id: r.instrument_id },
        SubmitStage::Account => Ask::Balance { account_id: r.account_id },
        SubmitStage::Locked { .. } => Ask::LockedBalance { account_id: r.account_id },
        SubmitStage::Sending { time } => Ask::SendOrder(
            OrderToSend {
                account_id: r.account_id,
                instrument_id: r.instrument_id,
                exchange_id: "EXCHANGE"@,
                order_id: f.order_id,
                volume: r.volume,
                price: r.price,
                towards: orders::towards_of(r.direction, r.offset) as i32,
                order_type: r.order_type,
                time,
            },
        ),
        SubmitStage::Registering { .. } => Ask::RegisterActive(
            ActiveOrder {
                account_id: r.account_id,
                order_id: f.order_id,
                instrument_id: r.instrument_id,
                direction: r.direction,
                limit_price: r.price,
                price_type: r.order_type,
            },
        ),
        SubmitStage::FindingBook { .. } => Ask::FindBook { instrument_id: r.instrument_id },
        SubmitStage::Matching { order, direction, timestamp } => Ask::MatchLimit {
            instrument_id: r.instrument_id,
            direction,
            price: order.limit_price,
            volume: order.volume_orign,
            timestamp,
        },
        SubmitStage::Applying(run) => matching::run_asks(run),
        SubmitStage::Cancelling(c) => cancelling::cancel_asks(c),
    }
}

/// The state and the step after the answer to the question of the placing of an
/// order. An answer to another question changes nothing.
pub open spec fn submit_step(
    s: RouterState,
    f: SubmissionView,
    reply: ReplyView,
    clock: ClockReading<Seq<char>>,
) -> (RouterState, SubmitStepView) {
    let r = f.request;
    match (f.stage, reply) {
        (SubmitStage::Quote, Reply::Book(b)) => {
            let price = book::market_price(b, r.direction);
            (
                s,
                if price <= 0 {
                    f.refused("No market price available for instrument "@ + r.instrument_id, 4002)
                } else {
                    priced(
                        s,
                        Submission {
                            request: SubmitOrderRequest { price: price as i64, ..r },
                            ..f
                        },
                    )
                },
            )
        },
        (SubmitStage::TradingState, Reply::Trading(OrderValidation::Allowed)) => (s, allowed(f)),
        (SubmitStage::TradingState, Reply::Trading(OrderValidation::Rejected(reason))) => (
            s,
            f.refused(reason, 4100),
        ),
        (SubmitStage::Risk, Reply::Risk(RiskCheckOutcome::Pass)) => (s, cleared(f)),
        (SubmitStage::Risk, Reply::Risk(RiskCheckOutcome::Reject { reason, code })) => (
            s,
            f.refused(reason, code),
        ),
        (SubmitStage::Risk, Reply::Risk(RiskCheckOutcome::Error(e))) => (
            s,
            f.refused("Risk check error: "@ + e, 9999),
        ),
        (SubmitStage::Depth, Reply::Book(b)) => (
            s,
            if book::fok_fulfillable(b, r.direction, r.volume as int, r.price as int) {
                f.at(SubmitStage::Account)
            } else {
                f.refused("FOK order cannot be fully filled immediately"@, 4010)
            },
        ),
        (SubmitStage::Account, Reply::Account(AccountLookup::Missing(e))) => (
            s,
            f.refused("Account not found: "@ + e, 4000),
        ),
        (SubmitStage::Account, Reply::Account(AccountLookup::Found(available))) => (
            s,
            if f.force {
                f.at(SubmitStage::Sending { time: clock.local_time })
            } else if affordable(r, available) {
                f.at(SubmitStage::Locked { time: clock.local_time })
            } else {
                f.refused(shortage(r, available), 4001)
            },
        ),
        (SubmitStage::Locked { time }, Reply::Locked(available)) => (
            s,
            if affordable(r, available) {
                f.at(SubmitStage::Sending { time })
            } else {
                f.refused(shortage(r, available), 4001)
            },
        ),
        (SubmitStage::Sending { .. }, Reply::Sent { qa_order_id, order }) => (
            s.stored(
                f.order_id,
                r.account_id,
                new_info(r, orders::qifi_order(order), qa_order_id, clock.nanos),
            ),
            f.at(SubmitStage::Registering { order: orders::qifi_order(order) }),
        ),
        (SubmitStage::Sending { .. }, Reply::Refused(e)) => (
            s,
            f.refused("Insufficient funds/margin: "@ + e, 4001),
        ),
        (SubmitStage::Registering { order }, Reply::Done) => (
            s,
            f.at(SubmitStage::FindingBook { order }),
        ),
        (SubmitStage::FindingBook { order }, Reply::BookFound(found)) => if !found {
            unroutable(s, f, "Orderbook not found for instrument: "@ + r.instrument_id)
        } else {
            match protocol::side_of(order.direction) {
                None => unroutable(s, f, "Invalid direction: "@ + order.direction),
                Some(direction) => (
                    s,
                    f.at(SubmitStage::Matching { order, direction, timestamp: clock.nanos }),
                ),
            }
        },
        (SubmitStage::Matching { order, .. }, Reply::Matched(results)) => {
            let (s2, progress) = matching::advance(
                s,
                submit_run(f.order_id, order, results),
            );
            submit_applied(s2, f, progress)
        },
        (SubmitStage::Applying(run), reply) => {
            let (s2, progress) = matching::settled(s, run, reply, clock);
            submit_applied(s2, f, progress)
        },
        (SubmitStage::Cancelling(c), reply) => {
            let (s2, step) = cancelling::cancel_step(s, c, reply, clock);
            (
                s2,
                match step {
                    Step::Pending(c) => f.at(SubmitStage::Cancelling(c)),
                    Step::Finished(_) => Step::Finished(placement(s2, f.order_id)),
                },
            )
        },
        _ => (s, Step::Pending(f)),
    }
}

/// A response that rejects an order.
fn reject(order_id: String, message: String, code: u32) -> (r: Step<Submission, SubmitOrderResponse>)
    ensures
        r@ == Step::<SubmissionView, SubmitOrderResponse<Seq<char>>>::Finished(
            rejection(order_id@, message@, code),
        ),
{
    Step::Finished(
        SubmitOrderResponse {
            success: false,
            order_id: Some(order_id),
            status: Some("rejected".to_string()),
            error_message: Some(message),
            error_code: Some(code),
        },
    )
}

/// Whether the order must be filled at once and as a whole, or not at all.
fn is_fill_or_kill(request: &SubmitOrderRequest) -> (r: bool)
    ensures
        r == fill_or_kill(request@),
{
    time_condition(request) == TimeCondition::IOC && volume_condition(request)
        == VolumeCondition::ALL
}

/// The time condition of a request.
fn time_condition(request: &SubmitOrderRequest) -> (r: TimeCondition)
    ensures
        r == time_condition_of(request@),
{
    match request.time_condition {
        Some(c) => c,
        None => TimeCondition::GFD,
    }
}

/// The volume condition of a request.
fn volume_condition(request: &SubmitOrderRequest) -> (r: VolumeCondition)
    ensures
        r == volume_condition_of(request@),
{
    match request.volume_condition {
        Some(c) => c,
        None => VolumeCondition::ANY,
    }
}

/// Whether funds cover what a request takes.
fn can_afford(request: &SubmitOrderRequest, available: i64) -> (r: bool)
    ensures
        r == affordable(request@, available),
{
    let rate: i128 = amounts::rate_of(&request.direction, &request.offset);
    amounts::covers_turnover(available, request.price, request.volume, rate)
}

/// The message for funds that do not cover a request.
fn shortage_text(request: &SubmitOrderRequest, available: i64) -> (r: String)
    ensures
        r@ == shortage(request@, available),
{
    let rate: i128 = amounts::rate_of(&request.direction, &request.offset);
    let have: String = text::joined(
        "Insufficient funds: available=",
        &amounts::amount_text(available),
    );
    let need: String = text::joined(
        ", required=",
        &amounts::funds_text(request.price, request.volume, rate),
    );
    let r: String = text::joined(&have, &need);
    assert(r@ =~= shortage(request@, available));
    r
}

/// The identifier of an order.
pub fn order_id_text(millis: i64, seq: u64) -> (r: String)
    ensures
        r@ == order_id_of(millis, seq),
{
    let head: String = text::joined("O", &text::decimal_text(millis));
    text::joined(&head, &text::padded_digits_text(seq as u128, 10))
}

impl Submission {
    /// The same flow in another stage.
    fn go_to(self, stage: SubmitStage) -> (r: Step<Submission, SubmitOrderResponse>)
        ensures
            r@ == self@.at(stage@),
    {
        Step::Pending(
            Submission {
                order_id: self.order_id,
                request: self.request,
                force: self.force,
                stage,
            },
        )
    }

    /// The step after the trading state.
    fn allow(self) -> (r: Step<Submission, SubmitOrderResponse>)
        ensures
            r@ == allowed(self@),
    {
        if self.force {
            self.clear()
        } else {
            self.go_to(SubmitStage::Risk)
        }
    }

    /// The step after the risk check.
    fn clear(self) -> (r: Step<Submission, SubmitOrderResponse>)
        ensures
            r@ == cleared(self@),
    {
        if is_fill_or_kill(&self.request) && !self.force {
            self.go_to(SubmitStage::Depth)
        } else {
            self.go_to(SubmitStage::Account)
        }
    }
}

impl OrderRouter {
    /// Takes the number of the next order.
    fn next_order_seq(&mut self) -> (r: u64)
        ensures
            r == old(self)@.order_seq,
            final(self)@ == (RouterState { order_seq: next_seq(r), ..old(self)@ }),
    {
        let seq: u64 = self.order_seq;
        self.order_seq = if seq == u64::MAX {
            0
        } else {
            seq + 1
        };
        seq
    }

    /// Makes the identifier of the next order.
    pub fn generate_order_id_at(&mut self, millis: i64) -> (r: String)
        ensures
            r@ == order_id_of(millis, old(self)@.order_seq),
            final(self)@ == (RouterState {
                order_seq: next_seq(old(self)@.order_seq),
                ..old(self)@
            }),
    {
        let seq: u64 = self.next_order_seq();
        order_id_text(millis, seq)
    }

    /// Makes the identifier of the next order by the present time.
    pub fn generate_order_id(&mut self) -> (r: String)
        ensures
            exists|millis: i64| r@ == #[trigger] order_id_of(millis, old(self)@.order_seq),
            final(self)@ == (RouterState {
                order_seq: next_seq(old(self)@.order_seq),
                ..old(self)@
            }),
    {
        let clock: ClockReading = self.clock.read();
        self.generate_order_id_at(clock.millis)
    }

    /// Takes in a request to place an order, at a time.
    pub fn submit_order_with_options(
        &mut self,
        request: SubmitOrderRequest,
        force: bool,
        millis: i64,
    ) -> (r: Step<Submission, SubmitOrderResponse>)
        ensures
            (final(self)@, r@) == submit_started(old(self)@, request@, force, millis),
            r@ matches Step::Pending(f) ==> f.waits(),
    {
        let order_id: String = self.generate_order_id_at(millis);
        let unpriced: bool = text::same(&request.order_type, "MARKET") && request.price <= 0;
        let flow: Submission = Submission { order_id, request, force, stage: SubmitStage::Quote };
        if unpriced {
            flow.go_to(SubmitStage::Quote)
        } else {
            self.price(flow)
        }
    }

    /// Takes in a request to place an order.
    pub fn submit_order(&mut self, request: SubmitOrderRequest) -> (r: Step<
        Submission,
        SubmitOrderResponse,
    >)
        ensures
            exists|millis: i64|
                (final(self)@, r@) == #[trigger] submit_started(
                    old(self)@,
                    request@,
                    false,
                    millis,
                ),
            r@ matches Step::Pending(f) ==> f.waits(),
    {
        let clock: ClockReading = self.clock.read();
        self.submit_order_with_options(request, false, clock.millis)
    }

    /// Takes in a request to place an order that skips the risk check and the
    /// checks of funds and depth.
    pub fn submit_force_order(&mut self, request: SubmitOrderRequest) -> (r: Step<
        Submission,
        SubmitOrderResponse,
    >)
        ensures
            exists|millis: i64|
                (final(self)@, r@) == #[trigger] submit_started(
                    old(self)@,
                    request@,
                    true,
                    millis,
                ),
            r@ matches Step::Pending(f) ==> f.waits(),
    {
        let clock: ClockReading = self.clock.read();
        self.submit_order_with_options(request, true, clock.millis)
    }

    /// The step after the price is known.
    fn price(&self, flow: Submission) -> (r: Step<Submission, SubmitOrderResponse>)
        ensures
            r@ == priced(self@, flow@),
    {
        if self.trading_state_machine {
            flow.go_to(SubmitStage::TradingState)
        } else {
            flow.allow()
        }
    }

    /// Gives a market order its price.
    fn quote(&self, flow: Submission, b: &Option<OrderBook>) -> (r: Step<
        Submission,
        SubmitOrderResponse,
    >)
        requires
            flow@.stage is Quote,
        ensures
            forall|clock: ClockReading<Seq<char>>|
                (self@, r@) == #[trigger] submit_step(self@, flow@, Reply::Book(*b), clock),
    {
        let price: i64 = book::get_market_price_for_order(b, &flow.request.direction);
        if price <= 0 {
            return reject(
                flow.order_id,
                text::joined(
                    "No market price available for instrument ",
                    &flow.request.instrument_id,
                ),
                4002,
            );
        }
        let request: SubmitOrderRequest = SubmitOrderRequest { price, ..flow.request };
        self.price(
            Submission { order_id: flow.order_id, request, force: flow.force, stage: flow.stage },
        )
    }

    /// Stores an order that the account layer has made.
    fn store(
        &mut self,
        flow: Submission,
        qa_order_id: String,
        order: &QAOrder,
        now: i64,
    ) -> (r: Step<Submission, SubmitOrderResponse>)
        ensures
            final(self)@ == old(self)@.stored(
                flow@.order_id,
                flow@.request.account_id,
                new_info(flow@.request, orders::qifi_order(order@), qa_order_id@, now),
            ),
            r@ == flow@.at(SubmitStage::Registering { order: orders::qifi_order(order@) }),
    {
        let info: OrderRouteInfo = OrderRouteInfo {
            order: orders::qaorder_to_qifi(order),
            status: OrderStatus::PendingRoute,
            submit_time: now,
            update_time: now,
            filled_volume: 0,
            qa_order_id,
            matching_engine_order_id: None,
            time_condition: time_condition(&flow.request),
            volume_condition: volume_condition(&flow.request),
        };
        self.store_order(&flow.order_id, &flow.request.account_id, info);
        flow.go_to(SubmitStage::Registering { order: orders::qaorder_to_qifi(order) })
    }

    /// Stores an order and lists it under an account.
    pub(crate) fn store_order(&mut self, order_id: &str, user_id: &str, info: OrderRouteInfo)
        ensures
            final(self)@ == old(self)@.stored(order_id@, user_id@, info@),
    {
        let mut list: Vec<String> = match tables::get_list(&self.user_orders, user_id) {
            Some(list) => list,
            None => Vec::new(),
        };
        assert(text::texts(list@) =~= self@.list_of(user_id@));
        list.push(order_id.to_string());
        assert(text::texts(list@) =~= self@.list_of(user_id@).push(order_id@));
        tables::put_order(&mut self.orders, order_id.to_string(), info);
        tables::put_list(&mut self.user_orders, user_id.to_string(), list);
    }

    /// Rejects an order that cannot be routed.
    fn give_up(&mut self, flow: Submission, reason: &str) -> (r: Step<Submission, SubmitOrderResponse>)
        ensures
            (final(self)@, r@) == unroutable(old(self)@, flow@, reason@),
    {
        if let Some(info) = tables::get_order(&self.orders, &flow.order_id) {
            tables::put_order(
                &mut self.orders,
                flow.order_id.clone(),
                OrderRouteInfo { status: OrderStatus::Rejected, ..info },
            );
        }
        reject(flow.order_id, text::joined("Routing error: ", reason), 5000)
    }

    /// Routes an order to the matching engine.
    fn route_to_matching_engine(
        &mut self,
        flow: Submission,
        order: Order,
        found: bool,
        now: i64,
    ) -> (r: Step<Submission, SubmitOrderResponse>)
        ensures
            forall|clock: ClockReading<Seq<char>>|
                flow@.stage == (SubmitStage::<
                    Seq<char>,
                    MatchRunView,
                    CancellationView,
                >::FindingBook { order: order@ }) && clock.nanos == now ==> (final(self)@, r@)
                    == #[trigger] submit_step(old(self)@, flow@, Reply::BookFound(found), clock),
    {
        if !found {
            let reason: String = text::joined(
                "Orderbook not found for instrument: ",
                &flow.request.instrument_id,
            );
            return self.give_up(flow, &reason);
        }
        match protocol::parse_direction(&order.direction) {
            None => {
                let reason: String = text::joined("Invalid direction: ", &order.direction);
                self.give_up(flow, &reason)
            },
            Some(direction) => flow.go_to(
                SubmitStage::Matching { order, direction, timestamp: now },
            ),
        }
    }

    /// The response to an order that was placed.
    fn placed(&self, order_id: String) -> (r: SubmitOrderResponse)
        ensures
            r@ == placement(self@, order_id@),
    {
        let status: String = match tables::get_order(&self.orders, &order_id) {
            Some(info) => info.status.word_text(),
            None => "submitted".to_string(),
        };
        SubmitOrderResponse {
            success: true,
            order_id: Some(order_id),
            status: Some(status),
            error_message: None,
            error_code: None,
        }
    }

    /// Whether an order that is immediate or to be cancelled has volume left.
    fn has_remainder(&self, order_id: &str) -> (r: bool)
        ensures
            r == leaves_remainder(self@, order_id@),
    {
        match tables::get_order(&self.orders, order_id) {
            Some(info) => {
                info.time_condition == TimeCondition::IOC && !info.status.is_closed()
                    && amounts::minus(info.order.volume_orign, info.filled_volume)
                    > amounts::VOLUME_TOLERANCE
            },
            None => false,
        }
    }

    /// Cancels what is left of an order that is immediate or to be cancelled.
    fn handle_ioc_remaining(&self, flow: Submission) -> (r: Step<Submission, SubmitOrderResponse>)
        ensures
            r@ == matched(self@, flow@),
            r@ matches Step::Pending(f) ==> f.waits(),
    {
        if time_condition(&flow.request) == TimeCondition::IOC && self.has_remainder(
            &flow.order_id,
        ) {
            let request: CancelOrderRequest = CancelOrderRequest {
                account_id: flow.request.account_id.clone(),
                order_id: flow.order_id.clone(),
            };
            match self.cancel_order(request) {
                Step::Pending(c) => {
                    return flow.go_to(SubmitStage::Cancelling(c));
                },
                Step::Finished(_) => {},
            }
        }
        Step::Finished(self.placed(flow.order_id))
    }

    /// The step after a run.
    fn submit_outcome(&mut self, flow: Submission, progress: Progress) -> (r: Step<
        Submission,
        SubmitOrderResponse,
    >)
        requires
            progress@ matches Progress::Running(m) ==> m.effects.len() > 0,
        ensures
            (final(self)@, r@) == submit_applied(old(self)@, flow@, progress@),
            r@ matches Step::Pending(f) ==> f.waits(),
    {
        match progress {
            Progress::Running(run) => flow.go_to(SubmitStage::Applying(run)),
            Progress::Done => self.handle_ioc_remaining(flow),
            Progress::Failed(reason) => self.give_up(flow, &reason),
        }
    }
}

impl OrderRouter {
    /// Goes on with the placing of an order after an answer, given what the
    /// clocks show.
    #[verifier::rlimit(60)]
    pub fn answer_at(&mut self, flow: Submission, reply: Reply, clock: &ClockReading) -> (r: Step<
        Submission,
        SubmitOrderResponse,
    >)
        requires
            flow@.waits(),
        ensures
            (final(self)@, r@) == submit_step(old(self)@, flow@, reply@, clock@),
            r@ matches Step::Pending(f) ==> f.waits(),
    {
        let Submission { order_id, request, force, stage } = flow;
        let ghost f = flow@;
        match (stage, reply) {
            (SubmitStage::Quote, Reply::Book(b)) => {
                let flow: Submission = Submission {
                    order_id,
                    request,
                    force,
                    stage: SubmitStage::Quote,
                };
                assert(flow@ == f);
                let r = self.quote(flow, &b);
                assert((self@, r@) == submit_step(self@, f, Reply::Book(b), clock@));
                r
            },
            (SubmitStage::TradingState, Reply::Trading(validation)) => {
                match validation {
                    OrderValidation::Allowed => Submission {
                        order_id,
                        request,
                        force,
                        stage: SubmitStage::TradingState,
                    }.allow(),
                    OrderValidation::Rejected(reason) => reject(order_id, reason, 4100),
                }
            },
            (SubmitStage::Risk, Reply::Risk(outcome)) => {
                match outcome {
                    RiskCheckOutcome::Pass => Submission {
                        order_id,
                        request,
                        force,
                        stage: SubmitStage::Risk,
                    }.clear(),
                    RiskCheckOutcome::Reject { reason, code } => reject(order_id, reason, code),
                    RiskCheckOutcome::Error(e) => reject(
                        order_id,
                        text::joined("Risk check error: ", &e),
                        9999,
                    ),
                }
            },
            (SubmitStage::Depth, Reply::Book(b)) => {
                if book::check_fok_fulfillable(
                    &b,
                    &request.direction,
                    request.volume,
                    request.price,
                ) {
                    Step::Pending(
                        Submission { order_id, request, force, stage: SubmitStage::Account },
                    )
                } else {
                    reject(
                        order_id,
                        "FOK order cannot be fully filled immediately".to_string(),
                        4010,
                    )
                }
            },
            (SubmitStage::Account, Reply::Account(lookup)) => {
                match lookup {
                    AccountLookup::Missing(e) => reject(
                        order_id,
                        text::joined("Account not found: ", &e),
                        4000,
                    ),
                    AccountLookup::Found(available) => {
                        let time: String = clock.local_time.clone();
                        if force {
                            Step::Pending(
                                Submission {
                                    order_id,
                                    request,
                                    force,
                                    stage: SubmitStage::Sending { time },
                                },
                            )
                        } else if can_afford(&request, available) {
                            Step::Pending(
                                Submission {
                                    order_id,
                                    request,
                                    force,
                                    stage: SubmitStage::Locked { time },
                                },
                            )
                        } else {
                            let message: String = shortage_text(&request, available);
                            reject(order_id, message, 4001)
                        }
                    },
                }
            },
            (SubmitStage::Locked { time }, Reply::Locked(available)) => {
                if can_afford(&request, available) {
                    Step::Pending(
                        Submission {
                            order_id,
                            request,
                            force,
                            stage: SubmitStage::Sending { time },
                        },
                    )
                } else {
                    let message: String = shortage_text(&request, available);
                    reject(order_id, message, 4001)
                }
            },
            (SubmitStage::Sending { time }, Reply::Sent { qa_order_id, order }) => {
                let flow: Submission = Submission {
                    order_id,
                    request,
                    force,
                    stage: SubmitStage::Sending { time },
                };
                self.store(flow, qa_order_id, &order, clock.nanos)
            },
            (SubmitStage::Sending { .. }, Reply::Refused(e)) => reject(
                order_id,
                text::joined("Insufficient funds/margin: ", &e),
                4001,
            ),
            (SubmitStage::Registering { order }, Reply::Done) => Step::Pending(
                Submission { order_id, request, force, stage: SubmitStage::FindingBook { order } },
            ),
            (SubmitStage::FindingBook { order }, Reply::BookFound(found)) => {
                let flow: Submission = Submission {
                    order_id,
                    request,
                    force,
                    stage: SubmitStage::FindingBook { order: order.clone() },
                };
                assert(flow@ == f);
                let r = self.route_to_matching_engine(flow, order, found, clock.nanos);
                assert((self@, r@) == submit_step(old(self)@, f, Reply::BookFound(found), clock@));
                r
            },
            (SubmitStage::Matching { order, direction, timestamp }, Reply::Matched(results)) => {
                let run: MatchRun = MatchRun {
                    order_id: order_id.clone(),
                    order: order.clone(),
                    cancelling: false,
                    results,
                    accepted: false,
                    traded: false,
                    effects: Vec::new(),
                };
                assert(protocol::effects_view(run.effects@) =~= Seq::empty());
                proof {
                    matching::advance_waits(self@, run@);
                }
                let progress: Progress = self.process_matching_results(run);
                let flow: Submission = Submission {
                    order_id,
                    request,
                    force,
                    stage: SubmitStage::Matching { order, direction, timestamp },
                };
                self.submit_outcome(flow, progress)
            },
            (SubmitStage::Applying(run), reply) => {
                proof {
                    matching::settled_waits(self@, run@, reply@, clock@);
                }
                let progress: Progress = self.settle(run, reply, clock);
                let flow: Submission = Submission {
                    order_id,
                    request,
                    force,
                    stage: SubmitStage::Quote,
                };
                self.submit_outcome(flow, progress)
            },
            (SubmitStage::Cancelling(c), reply) => {
                match self.answer_cancel_at(c, reply, clock) {
                    Step::Pending(c) => Step::Pending(
                        Submission {
                            order_id,
                            request,
                            force,
                            stage: SubmitStage::Cancelling(c),
                        },
                    ),
                    Step::Finished(_) => Step::Finished(self.placed(order_id)),
                }
            },
            (stage, _) => Step::Pending(Submission { order_id, request, force, stage }),
        }
    }

    /// Goes on with the placing of an order after an answer.
    pub fn answer(&mut self, flow: Submission, reply: Reply) -> (r: Step<
        Submission,
        SubmitOrderResponse,
    >)
        requires
            flow@.waits(),
        ensures
            exists|clock: ClockReading<Seq<char>>|
                (final(self)@, r@) == #[trigger] submit_step(old(self)@, flow@, reply@, clock),
            r@ matches Step::Pending(f) ==> f.waits(),
    {
        let clock: ClockReading = self.clock.read();
        self.answer_at(flow, reply, &clock)
    }
}

impl Submission {
    /// The question that the placing of the order asks.
    pub fn pending(&self) -> (r: Ask)
        requires
            self@.waits(),
        ensures
            r@ == submit_asks(self@),
    {
        let request: &SubmitOrderRequest = &self.request;
        match &self.stage {
            SubmitStage::Quote => Ask::Book { instrument_id: request.instrument_id.clone() },
            SubmitStage::TradingState => Ask::ValidateOrder {
                instrument_id: request.instrument_id.clone(),
            },
            SubmitStage::Risk => Ask::CheckRisk(
                OrderCheckRequest {
                    account_id: request.account_id.clone(),
                    instrument_id: request.instrument_id.clone(),
                    direction: request.direction.clone(),
                    offset: request.offset.clone(),
                    volume: request.volume,
                    price: request.price,
                    limit_price: request.price,
                    price_type: request.order_type.clone(),
                },
            ),
            SubmitStage::Depth => Ask::Book { instrument_id: request.instrument_id.clone() },
            SubmitStage::Account => Ask::Balance { account_id: request.account_id.clone() },
            SubmitStage::Locked { .. } => Ask::LockedBalance {
                account_id: request.account_id.clone(),
            },
            SubmitStage::Sending { time } => Ask::SendOrder(
                OrderToSend {
                    account_id: request.account_id.clone(),
                    instrument_id: request.instrument_id.clone(),
                    exchange_id: "EXCHANGE".to_string(),
                    order_id: self.order_id.clone(),
                    volume: request.volume,
                    price: request.price,
                    towards: orders::calculate_towards(&request.direction, &request.offset),
                    order_type: request.order_type.clone(),
                    time: time.clone(),
                },
            ),
            SubmitStage::Registering { .. } => Ask::RegisterActive(
                ActiveOrder {
                    account_id: request.account_id.clone(),
                    order_id: self.order_id.clone(),
                    instrument_id: request.instrument_id.clone(),
                    direction: request.direction.clone(),
                    limit_price: request.price,
                    price_type: request.order_type.clone(),
                },
            ),
            SubmitStage::FindingBook { .. } => Ask::FindBook {
                instrument_id: request.instrument_id.clone(),
            },
            SubmitStage::Matching { order, direction, timestamp } => Ask::MatchLimit {
                instrument_id: request.instrument_id.clone(),
                direction: *direction,
                price: order.limit_price,
                volume: order.volume_orign,
                timestamp: *timestamp,
            },
            SubmitStage::Applying(run) => run.pending(),
            SubmitStage::Cancelling(c) => c.pending(),
        }
    }
}

} // verus!
