//! What the router asks of its surroundings, and what it is told.
//!
//! The router decides; the account layer, the risk checker, the trading state
//! machine, the matching engine, the trade gateway, the storage and the market
//! data feed act. A question is an [`Ask`], an answer a [`Reply`]; a report or
//! a record that follows from a matching result is an [`Effect`].
use crate::book::OrderBook;
use crate::orders::{Order, QAOrder};
use crate::text;
use vstd::prelude::*;

verus! {

/// The side of an order in the matching engine.
#[derive(Debug, Clone, Copy, PartialEq, Eq, Structural)]
pub enum OrderDirection {
    BUY,
    SELL,
}

/// The side that a direction names, where it names one.
pub open spec fn side_of(direction: Seq<char>) -> Option<OrderDirection> {
    if direction == "BUY"@ {
        Some(OrderDirection::BUY)
    } else if direction == "SELL"@ {
        Some(OrderDirection::SELL)
    } else {
        None
    }
}

/// Reads the side that a direction names.
pub fn parse_direction(direction: &str) -> (r: Option<OrderDirection>)
    ensures
        r == side_of(direction@),
{
    if text::same(direction, "BUY") {
        Some(OrderDirection::BUY)
    } else if text::same(direction, "SELL") {
        Some(OrderDirection::SELL)
    } else {
        None
    }
}

/// An event that the matching engine reports.
#[derive(Debug, Clone, Copy)]
pub enum Success {
    /// The order was taken into the order book.
    Accepted { id: u64, ts: i64 },
    /// An order was filled.
    Filled { order_id: u64, price: i64, volume: i64, ts: i64, opposite_order_id: u64 },
    /// An order was filled in part.
    PartiallyFilled { order_id: u64, price: i64, volume: i64, ts: i64, opposite_order_id: u64 },
    /// The order was cancelled.
    Cancelled { id: u64, ts: i64 },
    /// The order was amended.
    Amended { id: u64, price: i64, volume: i64, ts: i64 },
}

/// One result of the matching engine.
#[derive(Debug)]
pub enum MatchResult<S = String> {
    /// Something happened.
    Done(Success),
    /// The request failed, for a reason.
    Failed(S),
}

impl View for MatchResult<String> {
    type V = MatchResult<Seq<char>>;

    open spec fn view(&self) -> MatchResult<Seq<char>> {
        match self {
            MatchResult::Done(x) => MatchResult::Done(*x),
            MatchResult::Failed(x) => MatchResult::Failed(x@),
        }
    }
}

impl Clone for MatchResult<String> {
    fn clone(&self) -> (r: Self)
        ensures
            r == *self,
    {
        match self {
            MatchResult::Done(x) => MatchResult::Done(*x),
            MatchResult::Failed(x) => MatchResult::Failed(x.clone()),
        }
    }
}

/// The characters of each result of a list.
pub open spec fn results_view(v: Seq<MatchResult>) -> Seq<MatchResult<Seq<char>>> {
    v.map_values(|r: MatchResult| r@)
}

/// What the trading state machine says to a request.
#[derive(Debug)]
pub enum OrderValidation<S = String> {
    /// The request may go on.
    Allowed,
    /// The request may not go on, for a reason.
    Rejected(S),
}

impl View for OrderValidation<String> {
    type V = OrderValidation<Seq<char>>;

    open spec fn view(&self) -> OrderValidation<Seq<char>> {
        match self {
            OrderValidation::Allowed => OrderValidation::Allowed,
            OrderValidation::Rejected(x) => OrderValidation::Rejected(x@),
        }
    }
}

impl Clone for OrderValidation<String> {
    fn clone(&self) -> (r: Self)
        ensures
            r == *self,
    {
        match self {
            OrderValidation::Allowed => OrderValidation::Allowed,
            OrderValidation::Rejected(x) => OrderValidation::Rejected(x.clone()),
        }
    }
}

/// What the risk checker says to an order.
#[derive(Debug)]
pub enum RiskCheckOutcome<S = String> {
    /// The order may go on.
    Pass,
    /// The order is refused.
    Reject { reason: S, code: u32 },
    /// The check itself failed.
    Error(S),
}

impl View for RiskCheckOutcome<String> {
    type V = RiskCheckOutcome<Seq<char>>;

    open spec fn view(&self) -> RiskCheckOutcome<Seq<char>> {
        match self {
            RiskCheckOutcome::Pass => RiskCheckOutcome::Pass,
            RiskCheckOutcome::Reject { reason, code } => RiskCheckOutcome::Reject {
                reason: reason@,
                code: *code,
            },
            RiskCheckOutcome::Error(x) => RiskCheckOutcome::Error(x@),
        }
    }
}

impl Clone for RiskCheckOutcome<String> {
    fn clone(&self) -> (r: Self)
        ensures
            r == *self,
    {
        match self {
            RiskCheckOutcome::Pass => RiskCheckOutcome::Pass,
            RiskCheckOutcome::Reject { reason, code } => RiskCheckOutcome::Reject {
                reason: reason.clone(),
                code: *code,
            },
            RiskCheckOutcome::Error(x) => RiskCheckOutcome::Error(x.clone()),
        }
    }
}

/// What is known of an account.
#[derive(Debug)]
pub enum AccountLookup<S = String> {
    /// The funds that are available to it, in ten-thousandths.
    Found(i64),
    /// There is no such account, for a reason.
    Missing(S),
}

impl View for AccountLookup<String> {
    type V = AccountLookup<Seq<char>>;

    open spec fn view(&self) -> AccountLookup<Seq<char>> {
        match self {
            AccountLookup::Found(x) => AccountLookup::Found(*x),
            AccountLookup::Missing(x) => AccountLookup::Missing(x@),
        }
    }
}

impl Clone for AccountLookup<String> {
    fn clone(&self) -> (r: Self)
        ensures
            r == *self,
    {
        match self {
            AccountLookup::Found(x) => AccountLookup::Found(*x),
            AccountLookup::Missing(x) => AccountLookup::Missing(x.clone()),
        }
    }
}

/// What the risk checker is shown of an order.
#[derive(Debug)]
pub struct OrderCheckRequest<S = String> {
    pub account_id: S,
    pub instrument_id: S,
    pub direction: S,
    pub offset: S,
    pub volume: i64,
    pub price: i64,
    pub limit_price: i64,
    pub price_type: S,
}

impl View for OrderCheckRequest<String> {
    type V = OrderCheckRequest<Seq<char>>;

    open spec fn view(&self) -> OrderCheckRequest<Seq<char>> {
        OrderCheckRequest {
            account_id: self.account_id@,
            instrument_id: self.instrument_id@,
            direction: self.direction@,
            offset: self.offset@,
            volume: self.volume,
            price: self.price,
            limit_price: self.limit_price,
            price_type: self.price_type@,
        }
    }
}

impl Clone for OrderCheckRequest<String> {
    fn clone(&self) -> (r: Self)
        ensures
            r == *self,
    {
        OrderCheckRequest {
            account_id: self.account_id.clone(),
            instrument_id: self.instrument_id.clone(),
            direction: self.direction.clone(),
            offset: self.offset.clone(),
            volume: self.volume,
            price: self.price,
            limit_price: self.limit_price,
            price_type: self.price_type.clone(),
        }
    }
}

/// What the risk checker tracks of an order that is on its way.
#[derive(Debug)]
pub struct ActiveOrder<S = String> {
    pub account_id: S,
    pub order_id: S,
    pub instrument_id: S,
    pub direction: S,
    pub limit_price: i64,
    pub price_type: S,
}

impl View for ActiveOrder<String> {
    type V = ActiveOrder<Seq<char>>;

    open spec fn view(&self) -> ActiveOrder<Seq<char>> {
        ActiveOrder {
            account_id: self.account_id@,
            order_id: self.order_id@,
            instrument_id: self.instrument_id@,
            direction: self.direction@,
            limit_price: self.limit_price,
            price_type: self.price_type@,
        }
    }
}

impl Clone for ActiveOrder<String> {
    fn clone(&self) -> (r: Self)
        ensures
            r == *self,
    {
        ActiveOrder {
            account_id: self.account_id.clone(),
            order_id: self.order_id.clone(),
            instrument_id: self.instrument_id.clone(),
            direction: self.direction.clone(),
            limit_price: self.limit_price,
            price_type: self.price_type.clone(),
        }
    }
}

/// An order that the account layer is to make and to freeze funds for.
#[derive(Debug)]
pub struct OrderToSend<S = String> {
    pub account_id: S,
    pub instrument_id: S,
    pub exchange_id: S,
    pub order_id: S,
    pub volume: i64,
    pub price: i64,
    /// The signed code of direction and offset.
    pub towards: i32,
    pub order_type: S,
    /// The local time.
    pub time: S,
}

impl View for OrderToSend<String> {
    type V = OrderToSend<Seq<char>>;

    open spec fn view(&self) -> OrderToSend<Seq<char>> {
        OrderToSend {
            account_id: self.account_id@,
            instrument_id: self.instrument_id@,
            exchange_id: self.exchange_id@,
            order_id: self.order_id@,
            volume: self.volume,
            price: self.price,
            towards: self.towards,
            order_type: self.order_type@,
            time: self.time@,
        }
    }
}

impl Clone for OrderToSend<String> {
    fn clone(&self) -> (r: Self)
        ensures
            r == *self,
    {
        OrderToSend {
            account_id: self.account_id.clone(),
            instrument_id: self.instrument_id.clone(),
            exchange_id: self.exchange_id.clone(),
            order_id: self.order_id.clone(),
            volume: self.volume,
            price: self.price,
            towards: self.towards,
            order_type: self.order_type.clone(),
            time: self.time.clone(),
        }
    }
}

/// A record of a price: of a trade, or, with no volume, of a change of the
/// order book.
#[derive(Debug)]
pub struct TickRecord<S = String> {
    pub instrument_id: S,
    /// In hundred-millionths, which hold the middle of two prices.
    pub last_price: i128,
    pub bid_price: i64,
    pub ask_price: i64,
    /// In whole units.
    pub volume: i64,
    /// Nanoseconds since the epoch.
    pub timestamp: i64,
}

impl View for TickRecord<String> {
    type V = TickRecord<Seq<char>>;

    open spec fn view(&self) -> TickRecord<Seq<char>> {
        TickRecord {
            instrument_id: self.instrument_id@,
            last_price: self.last_price,
            bid_price: self.bid_price,
            ask_price: self.ask_price,
            volume: self.volume,
            timestamp: self.timestamp,
        }
    }
}

impl Clone for TickRecord<String> {
    fn clone(&self) -> (r: Self)
        ensures
            r == *self,
    {
        TickRecord {
            instrument_id: self.instrument_id.clone(),
            last_price: self.last_price,
            bid_price: self.bid_price,
            ask_price: self.ask_price,
            volume: self.volume,
            timestamp: self.timestamp,
        }
    }
}

/// The characters of each record of a list.
pub open spec fn ticks_view(v: Seq<TickRecord>) -> Seq<TickRecord<Seq<char>>> {
    v.map_values(|t: TickRecord| t@)
}

/// Copies a list of levels.
fn copied_levels(v: &Vec<(i64, i64)>) -> (r: Vec<(i64, i64)>)
    ensures
        r@ == v@,
{
    let mut out: Vec<(i64, i64)> = Vec::new();
    let mut i: usize = 0;
    while i < v.len()
        invariant
            i <= v@.len(),
            out@ == v@.take(i as int),
        decreases v@.len() - i,
    {
        out.push(v[i]);
        i += 1;
        assert(out@ =~= v@.take(i as int));
    }
    assert(v@.take(v@.len() as int) =~= v@);
    out
}

/// A record of the first levels of an order book, as prices and whole volumes.
#[derive(Debug)]
pub struct SnapshotRecord<S = String, L = Vec<(i64, i64)>> {
    pub instrument_id: S,
    pub bids: L,
    pub asks: L,
    pub last_price: i64,
    /// Nanoseconds since the epoch.
    pub timestamp: i64,
}

impl View for SnapshotRecord {
    type V = SnapshotRecord<Seq<char>, Seq<(i64, i64)>>;

    open spec fn view(&self) -> SnapshotRecord<Seq<char>, Seq<(i64, i64)>> {
        SnapshotRecord {
            instrument_id: self.instrument_id@,
            bids: self.bids@,
            asks: self.asks@,
            last_price: self.last_price,
            timestamp: self.timestamp,
        }
    }
}

impl Clone for SnapshotRecord {
    fn clone(&self) -> (r: Self)
        ensures
            r@ == self@,
    {
        SnapshotRecord {
            instrument_id: self.instrument_id.clone(),
            bids: copied_levels(&self.bids),
            asks: copied_levels(&self.asks),
            last_price: self.last_price,
            timestamp: self.timestamp,
        }
    }
}

/// A report or a record that follows from a matching result.
#[derive(Debug)]
pub enum Effect<S = String, L = Vec<(i64, i64)>> {
    /// Tell the account that its order was accepted; this can fail.
    AcceptedReport { order_id: S, order: Order<S> },
    /// Tell the account that its order was rejected.
    RejectedReport { order_id: S, order: Order<S>, reason: S },
    /// Book a trade of an order; this can fail. Only the side that took the
    /// liquidity is recorded as a trade.
    TradeReport { order_id: S, order: Order<S>, match_order_id: u64, volume: i64, price: i64, opposite_order_id: u64, opposite_user: Option<S>, qa_order_id: S, opposite_order: Option<S>, is_taker: bool },
    /// Tell the account that its order was cancelled, and release what it had
    /// frozen; this can fail.
    CancelReport { order_id: S, order: Order<S>, exchange_order_id: u64, remaining: i64, qa_order_id: S },
    /// Record a trade as a tick.
    RecordTick { instrument_id: S, price: i64, volume: i64 },
    /// Record a change of the order book as a tick.
    RecordBookTick { instrument_id: S },
    /// Record a snapshot of the order book.
    RecordSnapshot { instrument_id: S },
    /// Broadcast a trade.
    BroadcastTick { instrument_id: S, price: i64, volume: i64, side: S },
    /// Broadcast the last price.
    BroadcastLastPrice { instrument_id: S, price: i64 },
    /// Write a snapshot that was taken at a moment; this can fail.
    WriteSnapshot { record: SnapshotRecord<S, L>, moment: u64 },
    /// Broadcast the volume at a price of the order book.
    BroadcastVolume { instrument_id: S, side: S, price: i64, volume: i64 },
    /// Broadcast the volume at a price of the order book, where there is one:
    /// the volume given, or the volume that rests at the price.
    BroadcastBook { instrument_id: S, bid: bool, price: i64, given: Option<i64> },
    /// Let the risk checker drop the order.
    ReleaseActive { user_id: S, order_id: S },
}

impl View for Effect {
    type V = Effect<Seq<char>, Seq<(i64, i64)>>;

    open spec fn view(&self) -> Effect<Seq<char>, Seq<(i64, i64)>> {
        match self {
            Effect::AcceptedReport { order_id, order } => Effect::AcceptedReport {
                order_id: order_id@,
                order: order@,
            },
            Effect::RejectedReport { order_id, order, reason } => Effect::RejectedReport {
                order_id: order_id@,
                order: order@,
                reason: reason@,
            },
            Effect::TradeReport { order_id, order, match_order_id, volume, price, opposite_order_id, opposite_user, qa_order_id, opposite_order, is_taker } => Effect::TradeReport {
                order_id: order_id@,
                order: order@,
                match_order_id: *match_order_id,
                volume: *volume,
                price: *price,
                opposite_order_id: *opposite_order_id,
                opposite_user: text::opt_text(*opposite_user),
                qa_order_id: qa_order_id@,
                opposite_order: text::opt_text(*opposite_order),
                is_taker: *is_taker,
            },
            Effect::CancelReport { order_id, order, exchange_order_id, remaining, qa_order_id } => Effect::CancelReport {
                order_id: order_id@,
                order: order@,
                exchange_order_id: *exchange_order_id,
                remaining: *remaining,
                qa_order_id: qa_order_id@,
            },
            Effect::RecordTick { instrument_id, price, volume } => Effect::RecordTick {
                instrument_id: instrument_id@,
                price: *price,
                volume: *volume,
            },
            Effect::RecordBookTick { instrument_id } => Effect::RecordBookTick {
                instrument_id: instrument_id@,
            },
            Effect::RecordSnapshot { instrument_id } => Effect::RecordSnapshot {
                instrument_id: instrument_id@,
            },
            Effect::BroadcastTick { instrument_id, price, volume, side } => Effect::BroadcastTick {
                instrument_id: instrument_id@,
                price: *price,
                volume: *volume,
                side: side@,
            },
            Effect::BroadcastLastPrice { instrument_id, price } => Effect::BroadcastLastPrice {
                instrument_id: instrument_id@,
                price: *price,
            },
            Effect::WriteSnapshot { record, moment } => Effect::WriteSnapshot {
                record: record@,
                moment: *moment,
            },
            Effect::BroadcastVolume { instrument_id, side, price, volume } => Effect::BroadcastVolume {
                instrument_id: instrument_id@,
                side: side@,
                price: *price,
                volume: *volume,
            },
            Effect::BroadcastBook { instrument_id, bid, price, given } => Effect::BroadcastBook {
                instrument_id: instrument_id@,
                bid: *bid,
                price: *price,
                given: *given,
            },
            Effect::ReleaseActive { user_id, order_id } => Effect::ReleaseActive {
                user_id: user_id@,
                order_id: order_id@,
            },
        }
    }
}

impl Clone for Effect {
    fn clone(&self) -> (r: Self)
        ensures
            r@ == self@,
    {
        match self {
            Effect::AcceptedReport { order_id, order } => Effect::AcceptedReport {
                order_id: order_id.clone(),
                order: order.clone(),
            },
            Effect::RejectedReport { order_id, order, reason } => Effect::RejectedReport {
                order_id: order_id.clone(),
                order: order.clone(),
                reason: reason.clone(),
            },
            Effect::TradeReport { order_id, order, match_order_id, volume, price, opposite_order_id, opposite_user, qa_order_id, opposite_order, is_taker } => Effect::TradeReport {
                order_id: order_id.clone(),
                order: order.clone(),
                match_order_id: *match_order_id,
                volume: *volume,
                price: *price,
                opposite_order_id: *opposite_order_id,
                opposite_user: text::copied(opposite_user),
                qa_order_id: qa_order_id.clone(),
                opposite_order: text::copied(opposite_order),
                is_taker: *is_taker,
            },
            Effect::CancelReport { order_id, order, exchange_order_id, remaining, qa_order_id } => Effect::CancelReport {
                order_id: order_id.clone(),
                order: order.clone(),
                exchange_order_id: *exchange_order_id,
                remaining: *remaining,
                qa_order_id: qa_order_id.clone(),
            },
            Effect::RecordTick { instrument_id, price, volume } => Effect::RecordTick {
                instrument_id: instrument_id.clone(),
                price: *price,
                volume: *volume,
            },
            Effect::RecordBookTick { instrument_id } => Effect::RecordBookTick {
                instrument_id: instrument_id.clone(),
            },
            Effect::RecordSnapshot { instrument_id } => Effect::RecordSnapshot {
                instrument_id: instrument_id.clone(),
            },
            Effect::BroadcastTick { instrument_id, price, volume, side } => Effect::BroadcastTick {
                instrument_id: instrument_id.clone(),
                price: *price,
                volume: *volume,
                side: side.clone(),
            },
            Effect::BroadcastLastPrice { instrument_id, price } => Effect::BroadcastLastPrice {
                instrument_id: instrument_id.clone(),
                price: *price,
            },
            Effect::WriteSnapshot { record, moment } => Effect::WriteSnapshot {
                record: record.clone(),
                moment: *moment,
            },
            Effect::BroadcastVolume { instrument_id, side, price, volume } => Effect::BroadcastVolume {
                instrument_id: instrument_id.clone(),
                side: side.clone(),
                price: *price,
                volume: *volume,
            },
            Effect::BroadcastBook { instrument_id, bid, price, given } => Effect::BroadcastBook {
                instrument_id: instrument_id.clone(),
                bid: *bid,
                price: *price,
                given: *given,
            },
            Effect::ReleaseActive { user_id, order_id } => Effect::ReleaseActive {
                user_id: user_id.clone(),
                order_id: order_id.clone(),
            },
        }
    }
}

/// The view of an effect.
pub type EffectView = Effect<Seq<char>, Seq<(i64, i64)>>;

/// The characters of each effect of a list.
pub open spec fn effects_view(v: Seq<Effect>) -> Seq<EffectView> {
    v.map_values(|e: Effect| e@)
}

impl<S, L> Effect<S, L> {
    /// The instrument whose order book the effect takes into account, where it
    /// does so.
    pub open spec fn book_of(self) -> Option<S> {
        match self {
            Effect::RecordTick { instrument_id, .. } => Some(instrument_id),
            Effect::RecordBookTick { instrument_id } => Some(instrument_id),
            Effect::RecordSnapshot { instrument_id } => Some(instrument_id),
            Effect::BroadcastBook { instrument_id, .. } => Some(instrument_id),
            _ => None,
        }
    }

    /// Whether the failure of the effect stops what it belongs to.
    pub open spec fn can_fail(self) -> bool {
        self is AcceptedReport || self is TradeReport || self is CancelReport
    }
}

impl Effect {
    /// Whether the effect takes the order book into account.
    pub fn needs_book(&self) -> (r: bool)
        ensures
            r == (self@.book_of() is Some),
    {
        match self {
            Effect::RecordTick { .. } => true,
            Effect::RecordBookTick { .. } => true,
            Effect::RecordSnapshot { .. } => true,
            Effect::BroadcastBook { .. } => true,
            _ => false,
        }
    }

    /// Whether the failure of the effect stops what it belongs to.
    pub fn is_fallible(&self) -> (r: bool)
        ensures
            r == self@.can_fail(),
    {
        match self {
            Effect::AcceptedReport { .. } => true,
            Effect::TradeReport { .. } => true,
            Effect::CancelReport { .. } => true,
            _ => false,
        }
    }
}

/// A question to the surroundings of the router.
#[derive(Debug)]
pub enum Ask<S = String, L = Vec<(i64, i64)>> {
    /// The order book of an instrument; answered by `Book`.
    Book { instrument_id: S },
    /// Whether orders in an instrument are allowed; answered by `Trading`.
    ValidateOrder { instrument_id: S },
    /// Whether cancelling an order is allowed in the trading state of its
    /// instrument; answered by `Trading`.
    ValidateCancel { instrument_id: S },
    /// Whether an order is within the limits; answered by `Risk`.
    CheckRisk(OrderCheckRequest<S>),
    /// The available funds of an account; answered by `Account`.
    Balance { account_id: S },
    /// The available funds of the account under its write lock, which stays
    /// held until the order is sent; answered by `Locked`.
    LockedBalance { account_id: S },
    /// Make the order and freeze its funds; answered by `Sent` or `Refused`.
    SendOrder(OrderToSend<S>),
    /// Track the order; answered by `Done`.
    RegisterActive(ActiveOrder<S>),
    /// Whether an instrument has an order book; answered by `BookFound`.
    FindBook { instrument_id: S },
    /// Match a limit order; answered by `Matched`.
    MatchLimit { instrument_id: S, direction: OrderDirection, price: i64, volume: i64, timestamp: i64 },
    /// Cancel in the matching engine; answered by `Matched`.
    MatchCancel { instrument_id: S, direction: OrderDirection, id: u64 },
    /// Carry out an effect; answered by `Done` or `Failed`.
    Perform(Effect<S, L>),
}

impl View for Ask {
    type V = Ask<Seq<char>, Seq<(i64, i64)>>;

    open spec fn view(&self) -> Ask<Seq<char>, Seq<(i64, i64)>> {
        match self {
            Ask::Book { instrument_id } => Ask::Book {
                instrument_id: instrument_id@,
            },
            Ask::ValidateOrder { instrument_id } => Ask::ValidateOrder {
                instrument_id: instrument_id@,
            },
            Ask::ValidateCancel { instrument_id } => Ask::ValidateCancel {
                instrument_id: instrument_id@,
            },
            Ask::CheckRisk(x) => Ask::CheckRisk(x@),
            Ask::Balance { account_id } => Ask::Balance {
                account_id: account_id@,
            },
            Ask::LockedBalance { account_id } => Ask::LockedBalance {
                account_id: account_id@,
            },
            Ask::SendOrder(x) => Ask::SendOrder(x@),
            Ask::RegisterActive(x) => Ask::RegisterActive(x@),
            Ask::FindBook { instrument_id } => Ask::FindBook {
                instrument_id: instrument_id@,
            },
            Ask::MatchLimit { instrument_id, direction, price, volume, timestamp } => Ask::MatchLimit {
                instrument_id: instrument_id@,
                direction: *direction,
                price: *price,
                volume: *volume,
                timestamp: *timestamp,
            },
            Ask::MatchCancel { instrument_id, direction, id } => Ask::MatchCancel {
                instrument_id: instrument_id@,
                direction: *direction,
                id: *id,
            },
            Ask::Perform(x) => Ask::Perform(x@),
        }
    }
}

/// An answer from the surroundings of the router.
#[derive(Debug)]
pub enum Reply<S = String, M = Vec<MatchResult>> {
    /// An order book, where there is one.
    Book(Option<OrderBook>),
    /// What the trading state machine says.
    Trading(OrderValidation<S>),
    /// What the risk checker says.
    Risk(RiskCheckOutcome<S>),
    /// What is known of an account.
    Account(AccountLookup<S>),
    /// The available funds of the account that is locked.
    Locked(i64),
    /// The order was made under an identifier of the account layer.
    Sent { qa_order_id: S, order: QAOrder<S> },
    /// The order was not made, for a reason.
    Refused(S),
    /// It was done.
    Done,
    /// It could not be done, for a reason.
    Failed(S),
    /// Whether there is an order book.
    BookFound(bool),
    /// The results of the matching engine.
    Matched(M),
}

impl View for Reply<String, Vec<MatchResult>> {
    type V = Reply<Seq<char>, Seq<MatchResult<Seq<char>>>>;

    open spec fn view(&self) -> Reply<Seq<char>, Seq<MatchResult<Seq<char>>>> {
        match self {
            Reply::Book(b) => Reply::Book(*b),
            Reply::Trading(x) => Reply::Trading(x@),
            Reply::Risk(x) => Reply::Risk(x@),
            Reply::Account(x) => Reply::Account(x@),
            Reply::Locked(x) => Reply::Locked(*x),
            Reply::Sent { qa_order_id, order } => Reply::Sent {
                qa_order_id: qa_order_id@,
                order: order@,
            },
            Reply::Refused(x) => Reply::Refused(x@),
            Reply::Done => Reply::Done,
            Reply::Failed(x) => Reply::Failed(x@),
            Reply::BookFound(b) => Reply::BookFound(*b),
            Reply::Matched(v) => Reply::Matched(results_view(v@)),
        }
    }
}

} // verus!
