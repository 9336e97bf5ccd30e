//! Orders, requests, responses and what the router keeps of each order.
//!
//! A record that holds text is generic in the type of that text: it holds
//! `String` in executable code, and its view holds the characters.
use crate::conditions::{TimeCondition, VolumeCondition};
use crate::text;
use vstd::prelude::*;

verus! {

/// An order as the trading protocol knows it.
#[derive(Debug)]
pub struct Order<S = String> {
    pub seqno: i32,
    /// The account that placed the order.
    pub user_id: S,
    pub order_id: S,
    pub exchange_id: S,
    pub instrument_id: S,
    /// `BUY` or `SELL`.
    pub direction: S,
    /// `OPEN`, `CLOSE` or `CLOSETODAY`.
    pub offset: S,
    /// The volume that was ordered.
    pub volume_orign: i64,
    pub price_type: S,
    pub limit_price: i64,
    pub time_condition: S,
    pub volume_condition: S,
    /// Nanoseconds since the epoch.
    pub insert_date_time: i64,
    pub exchange_order_id: S,
    pub status: S,
    /// The volume that is still to be filled.
    pub volume_left: i64,
    pub last_msg: S,
}

impl View for Order<String> {
    type V = Order<Seq<char>>;

    open spec fn view(&self) -> Order<Seq<char>> {
        Order {
            seqno: self.seqno,
            user_id: self.user_id@,
            order_id: self.order_id@,
            exchange_id: self.exchange_id@,
            instrument_id: self.instrument_id@,
            direction: self.direction@,
            offset: self.offset@,
            volume_orign: self.volume_orign,
            price_type: self.price_type@,
            limit_price: self.limit_price,
            time_condition: self.time_condition@,
            volume_condition: self.volume_condition@,
            insert_date_time: self.insert_date_time,
            exchange_order_id: self.exchange_order_id@,
            status: self.status@,
            volume_left: self.volume_left,
            last_msg: self.last_msg@,
        }
    }
}

impl Clone for Order<String> {
    fn clone(&self) -> (r: Self)
        ensures
            r == *self,
    {
        Order {
            seqno: self.seqno,
            user_id: self.user_id.clone(),
            order_id: self.order_id.clone(),
            exchange_id: self.exchange_id.clone(),
            instrument_id: self.instrument_id.clone(),
            direction: self.direction.clone(),
            offset: self.offset.clone(),
            volume_orign: self.volume_orign,
            price_type: self.price_type.clone(),
            limit_price: self.limit_price,
            time_condition: self.time_condition.clone(),
            volume_condition: self.volume_condition.clone(),
            insert_date_time: self.insert_date_time,
            exchange_order_id: self.exchange_order_id.clone(),
            status: self.status.clone(),
            volume_left: self.volume_left,
            last_msg: self.last_msg.clone(),
        }
    }
}

/// An order as the account layer made it.
#[derive(Debug)]
pub struct QAOrder<S = String> {
    pub user_id: S,
    pub order_id: S,
    pub exchange_id: S,
    pub instrument_id: S,
    pub direction: S,
    pub offset: S,
    pub volume: i64,
    pub price_type: S,
    pub limit_price: i64,
    pub time_condition: S,
    pub volume_condition: S,
    pub exchange_order_id: S,
    pub volume_left: i64,
    pub last_msg: S,
}

impl View for QAOrder<String> {
    type V = QAOrder<Seq<char>>;

    open spec fn view(&self) -> QAOrder<Seq<char>> {
        QAOrder {
            user_id: self.user_id@,
            order_id: self.order_id@,
            exchange_id: self.exchange_id@,
            instrument_id: self.instrument_id@,
            direction: self.direction@,
            offset: self.offset@,
            volume: self.volume,
            price_type: self.price_type@,
            limit_price: self.limit_price,
            time_condition: self.time_condition@,
            volume_condition: self.volume_condition@,
            exchange_order_id: self.exchange_order_id@,
            volume_left: self.volume_left,
            last_msg: self.last_msg@,
        }
    }
}

impl Clone for QAOrder<String> {
    fn clone(&self) -> (r: Self)
        ensures
            r == *self,
    {
        QAOrder {
            user_id: self.user_id.clone(),
            order_id: self.order_id.clone(),
            exchange_id: self.exchange_id.clone(),
            instrument_id: self.instrument_id.clone(),
            direction: self.direction.clone(),
            offset: self.offset.clone(),
            volume: self.volume,
            price_type: self.price_type.clone(),
            limit_price: self.limit_price,
            time_condition: self.time_condition.clone(),
            volume_condition: self.volume_condition.clone(),
            exchange_order_id: self.exchange_order_id.clone(),
            volume_left: self.volume_left,
            last_msg: self.last_msg.clone(),
        }
    }
}

/// A request to place an order for an account.
#[derive(Debug)]
pub struct SubmitOrderRequest<S = String> {
    pub account_id: S,
    pub instrument_id: S,
    /// `BUY` or `SELL`.
    pub direction: S,
    /// `OPEN`, `CLOSE` or `CLOSETODAY`.
    pub offset: S,
    /// In ten-thousandths.
    pub volume: i64,
    /// In ten-thousandths.
    pub price: i64,
    /// `LIMIT` or `MARKET`.
    pub order_type: S,
    pub time_condition: Option<TimeCondition>,
    pub volume_condition: Option<VolumeCondition>,
}

impl View for SubmitOrderRequest<String> {
    type V = SubmitOrderRequest<Seq<char>>;

    open spec fn view(&self) -> SubmitOrderRequest<Seq<char>> {
        SubmitOrderRequest {
            account_id: self.account_id@,
            instrument_id: self.instrument_id@,
            direction: self.direction@,
            offset: self.offset@,
            volume: self.volume,
            price: self.price,
            order_type: self.order_type@,
            time_condition: self.time_condition,
            volume_condition: self.volume_condition,
        }
    }
}

impl Clone for SubmitOrderRequest<String> {
    fn clone(&self) -> (r: Self)
        ensures
            r == *self,
    {
        SubmitOrderRequest {
            account_id: self.account_id.clone(),
            instrument_id: self.instrument_id.clone(),
            direction: self.direction.clone(),
            offset: self.offset.clone(),
            volume: self.volume,
            price: self.price,
            order_type: self.order_type.clone(),
            time_condition: self.time_condition,
            volume_condition: self.volume_condition,
        }
    }
}

/// A request to cancel an order of an account.
#[derive(Debug)]
pub struct CancelOrderRequest<S = String> {
    pub account_id: S,
    pub order_id: S,
}

impl View for CancelOrderRequest<String> {
    type V = CancelOrderRequest<Seq<char>>;

    open spec fn view(&self) -> CancelOrderRequest<Seq<char>> {
        CancelOrderRequest {
            account_id: self.account_id@,
            order_id: self.order_id@,
        }
    }
}

impl Clone for CancelOrderRequest<String> {
    fn clone(&self) -> (r: Self)
        ensures
            r == *self,
    {
        CancelOrderRequest {
            account_id: self.account_id.clone(),
            order_id: self.order_id.clone(),
        }
    }
}

/// What became of a request to place an order.
#[derive(Debug)]
pub struct SubmitOrderResponse<S = String> {
    pub success: bool,
    pub order_id: Option<S>,
    /// `submitted`, `filled`, `partially_filled`, `cancelled` or `rejected`.
    pub status: Option<S>,
    pub error_message: Option<S>,
    pub error_code: Option<u32>,
}

impl View for SubmitOrderResponse<String> {
    type V = SubmitOrderResponse<Seq<char>>;

    open spec fn view(&self) -> SubmitOrderResponse<Seq<char>> {
        SubmitOrderResponse {
            success: self.success,
            order_id: text::opt_text(self.order_id),
            status: text::opt_text(self.status),
            error_message: text::opt_text(self.error_message),
            error_code: self.error_code,
        }
    }
}

impl Clone for SubmitOrderResponse<String> {
    fn clone(&self) -> (r: Self)
        ensures
            r == *self,
    {
        SubmitOrderResponse {
            success: self.success,
            order_id: text::copied(&self.order_id),
            status: text::copied(&self.status),
            error_message: text::copied(&self.error_message),
            error_code: self.error_code,
        }
    }
}

/// How far an order has come.
#[derive(Debug, Clone, Copy, PartialEq, Eq, Structural)]
pub enum OrderStatus {
    /// Waiting for the risk check.
    PendingRisk,
    /// Past the risk check, waiting to be routed.
    PendingRoute,
    /// In the matching engine.
    Submitted,
    /// Filled in part.
    PartiallyFilled,
    /// Filled.
    Filled,
    /// Cancelled.
    Cancelled,
    /// Rejected.
    Rejected,
}

impl OrderStatus {
    /// Whether the order rests in the matching engine.
    pub open spec fn active(self) -> bool {
        self is Submitted || self is PartiallyFilled
    }

    /// Whether nothing more happens to the order.
    pub open spec fn closed(self) -> bool {
        self is Filled || self is Cancelled || self is Rejected
    }

    /// The name of the variant.
    pub open spec fn name(self) -> Seq<char> {
        match self {
            OrderStatus::PendingRisk => "PendingRisk"@,
            OrderStatus::PendingRoute => "PendingRoute"@,
            OrderStatus::Submitted => "Submitted"@,
            OrderStatus::PartiallyFilled => "PartiallyFilled"@,
            OrderStatus::Filled => "Filled"@,
            OrderStatus::Cancelled => "Cancelled"@,
            OrderStatus::Rejected => "Rejected"@,
        }
    }

    /// The word for the status in a response; what is not yet decided counts as
    /// submitted.
    pub open spec fn word(self) -> Seq<char> {
        match self {
            OrderStatus::Filled => "filled"@,
            OrderStatus::PartiallyFilled => "partially_filled"@,
            OrderStatus::Cancelled => "cancelled"@,
            OrderStatus::Rejected => "rejected"@,
            _ => "submitted"@,
        }
    }

    /// Whether the order rests in the matching engine.
    pub fn is_active(&self) -> (r: bool)
        ensures
            r == self.active(),
    {
        match self {
            OrderStatus::Submitted | OrderStatus::PartiallyFilled => true,
            _ => false,
        }
    }

    /// Whether nothing more happens to the order.
    pub fn is_closed(&self) -> (r: bool)
        ensures
            r == self.closed(),
    {
        match self {
            OrderStatus::Filled | OrderStatus::Cancelled | OrderStatus::Rejected => true,
            _ => false,
        }
    }

    /// Writes the name of the variant.
    pub fn name_text(&self) -> (r: String)
        ensures
            r@ == self.name(),
    {
        match self {
            OrderStatus::PendingRisk => "PendingRisk".to_string(),
            OrderStatus::PendingRoute => "PendingRoute".to_string(),
            OrderStatus::Submitted => "Submitted".to_string(),
            OrderStatus::PartiallyFilled => "PartiallyFilled".to_string(),
            OrderStatus::Filled => "Filled".to_string(),
            OrderStatus::Cancelled => "Cancelled".to_string(),
            OrderStatus::Rejected => "Rejected".to_string(),
        }
    }

    /// Writes the word for the status in a response.
    pub fn word_text(&self) -> (r: String)
        ensures
            r@ == self.word(),
    {
        match self {
            OrderStatus::Filled => "filled".to_string(),
            OrderStatus::PartiallyFilled => "partially_filled".to_string(),
            OrderStatus::Cancelled => "cancelled".to_string(),
            OrderStatus::Rejected => "rejected".to_string(),
            _ => "submitted".to_string(),
        }
    }
}

/// What the router keeps of an order.
#[derive(Debug)]
pub struct OrderRouteInfo<S = String> {
    pub order: Order<S>,
    pub status: OrderStatus,
    pub submit_time: i64,
    pub update_time: i64,
    /// The volume filled so far.
    pub filled_volume: i64,
    /// The identifier of the order in the account layer.
    pub qa_order_id: S,
    /// The identifier of the order in the matching engine, once it was accepted.
    pub matching_engine_order_id: Option<u64>,
    pub time_condition: TimeCondition,
    pub volume_condition: VolumeCondition,
}

impl View for OrderRouteInfo<String> {
    type V = OrderRouteInfo<Seq<char>>;

    open spec fn view(&self) -> OrderRouteInfo<Seq<char>> {
        OrderRouteInfo {
            order: self.order@,
            status: self.status,
            submit_time: self.submit_time,
            update_time: self.update_time,
            filled_volume: self.filled_volume,
            qa_order_id: self.qa_order_id@,
            matching_engine_order_id: self.matching_engine_order_id,
            time_condition: self.time_condition,
            volume_condition: self.volume_condition,
        }
    }
}

impl Clone for OrderRouteInfo<String> {
    fn clone(&self) -> (r: Self)
        ensures
            r == *self,
    {
        OrderRouteInfo {
            order: self.order.clone(),
            status: self.status,
            submit_time: self.submit_time,
            update_time: self.update_time,
            filled_volume: self.filled_volume,
            qa_order_id: self.qa_order_id.clone(),
            matching_engine_order_id: self.matching_engine_order_id,
            time_condition: self.time_condition,
            volume_condition: self.volume_condition,
        }
    }
}

/// How many orders there are in each state.
#[derive(Debug)]
pub struct OrderStatistics {
    pub total_count: usize,
    /// Orders that rest in the matching engine.
    pub pending_count: usize,
    pub filled_count: usize,
    pub cancelled_count: usize,
    pub rejected_count: usize,
}

/// Totals over all trades.
#[derive(Debug)]
pub struct TradeStatistics {
    pub total_count: u64,
    /// In ten-thousandths.
    pub total_volume: i128,
    /// In hundred-millionths.
    pub total_amount: i128,
}

impl Clone for OrderStatistics {
    fn clone(&self) -> (r: Self)
        ensures
            r == *self,
    {
        OrderStatistics {
            total_count: self.total_count,
            pending_count: self.pending_count,
            filled_count: self.filled_count,
            cancelled_count: self.cancelled_count,
            rejected_count: self.rejected_count,
        }
    }
}

impl Clone for TradeStatistics {
    fn clone(&self) -> (r: Self)
        ensures
            r == *self,
    {
        TradeStatistics {
            total_count: self.total_count,
            total_volume: self.total_volume,
            total_amount: self.total_amount,
        }
    }
}

/// Why a request to the exchange failed.
#[derive(Debug)]
pub enum ExchangeError<S = String> {
    OrderError(S),
    MatchingError(S),
    AccountError(S),
}

impl<S> ExchangeError<S> {
    /// The text of the error.
    pub open spec fn text(self) -> S {
        match self {
            ExchangeError::OrderError(s) => s,
            ExchangeError::MatchingError(s) => s,
            ExchangeError::AccountError(s) => s,
        }
    }
}

impl View for ExchangeError<String> {
    type V = ExchangeError<Seq<char>>;

    open spec fn view(&self) -> ExchangeError<Seq<char>> {
        match self {
            ExchangeError::OrderError(s) => ExchangeError::OrderError(s@),
            ExchangeError::MatchingError(s) => ExchangeError::MatchingError(s@),
            ExchangeError::AccountError(s) => ExchangeError::AccountError(s@),
        }
    }
}

impl ExchangeError<Seq<char>> {
    /// The form of the error that `{:?}` writes.
    pub open spec fn debug_form(self) -> Seq<char> {
        match self {
            ExchangeError::OrderError(s) => "OrderError("@ + text::debug_form(s) + ")"@,
            ExchangeError::MatchingError(s) => "MatchingError("@ + text::debug_form(s) + ")"@,
            ExchangeError::AccountError(s) => "AccountError("@ + text::debug_form(s) + ")"@,
        }
    }
}

impl ExchangeError<String> {
    /// Writes the variant with its quoted text.
    pub fn debug_text(&self) -> (r: String)
        ensures
            r@ == self@.debug_form(),
    {
        match self {
            ExchangeError::OrderError(s) => text::joined(
                &text::joined("OrderError(", &text::debug_text(s)),
                ")",
            ),
            ExchangeError::MatchingError(s) => text::joined(
                &text::joined("MatchingError(", &text::debug_text(s)),
                ")",
            ),
            ExchangeError::AccountError(s) => text::joined(
                &text::joined("AccountError(", &text::debug_text(s)),
                ")",
            ),
        }
    }

    /// Writes the text of the error.
    pub fn to_string(&self) -> (r: String)
        ensures
            r@ == self@.text(),
    {
        match self {
            ExchangeError::OrderError(s) => s.clone(),
            ExchangeError::MatchingError(s) => s.clone(),
            ExchangeError::AccountError(s) => s.clone(),
        }
    }
}

/// The protocol form of an order of the account layer: each field as it stands,
/// unnumbered, alive and without an insertion time.
pub open spec fn qifi_order(o: QAOrder<Seq<char>>) -> Order<Seq<char>> {
    Order {
        seqno: 0,
        user_id: o.user_id,
        order_id: o.order_id,
        exchange_id: o.exchange_id,
        instrument_id: o.instrument_id,
        direction: o.direction,
        offset: o.offset,
        volume_orign: o.volume,
        price_type: o.price_type,
        limit_price: o.limit_price,
        time_condition: o.time_condition,
        volume_condition: o.volume_condition,
        insert_date_time: 0,
        exchange_order_id: o.exchange_order_id,
        status: "ALIVE"@,
        volume_left: o.volume_left,
        last_msg: o.last_msg,
    }
}

/// Converts an order of the account layer to its protocol form.
pub fn qaorder_to_qifi(o: &QAOrder) -> (r: Order)
    ensures
        r@ == qifi_order(o@),
{
    Order {
        seqno: 0,
        user_id: o.user_id.clone(),
        order_id: o.order_id.clone(),
        exchange_id: o.exchange_id.clone(),
        instrument_id: o.instrument_id.clone(),
        direction: o.direction.clone(),
        offset: o.offset.clone(),
        volume_orign: o.volume,
        price_type: o.price_type.clone(),
        limit_price: o.limit_price,
        time_condition: o.time_condition.clone(),
        volume_condition: o.volume_condition.clone(),
        insert_date_time: 0,
        exchange_order_id: o.exchange_order_id.clone(),
        status: "ALIVE".to_string(),
        volume_left: o.volume_left,
        last_msg: o.last_msg.clone(),
    }
}

/// The signed code of a direction and an offset: positive for buying, of
/// magnitude 2 to open, 3 to close and 4 to close a position of the day; what
/// is unknown opens by buying.
pub open spec fn towards_of(direction: Seq<char>, offset: Seq<char>) -> int {
    if direction == "BUY"@ && offset == "OPEN"@ {
        2
    } else if direction == "SELL"@ && offset == "OPEN"@ {
        -2
    } else if direction == "BUY"@ && offset == "CLOSE"@ {
        3
    } else if direction == "SELL"@ && offset == "CLOSE"@ {
        -3
    } else if direction == "BUY"@ && offset == "CLOSETODAY"@ {
        4
    } else if direction == "SELL"@ && offset == "CLOSETODAY"@ {
        -4
    } else {
        2
    }
}

/// Computes the signed code of a direction and an offset.
pub fn calculate_towards(direction: &str, offset: &str) -> (r: i32)
    ensures
        r == towards_of(direction@, offset@),
{
    if text::same(direction, "BUY") {
        if text::same(offset, "OPEN") {
            return 2;
        } else if text::same(offset, "CLOSE") {
            return 3;
        } else if text::same(offset, "CLOSETODAY") {
            return 4;
        }
    } else if text::same(direction, "SELL") {
        if text::same(offset, "OPEN") {
            return -2;
        } else if text::same(offset, "CLOSE") {
            return -3;
        } else if text::same(offset, "CLOSETODAY") {
            return -4;
        }
    }
    proof {
        reveal_strlit("BUY");
        reveal_strlit("SELL");
        assert("BUY"@.len() != "SELL"@.len());
        reveal_strlit("OPEN");
        reveal_strlit("CLOSE");
        reveal_strlit("CLOSETODAY");
    }
    2
}

/// Whether a word is one of the two directions.
pub open spec fn known_direction(direction: Seq<char>) -> bool {
    direction == "BUY"@ || direction == "SELL"@
}

/// Whether a word is one of the three offsets.
pub open spec fn known_offset(offset: Seq<char>) -> bool {
    offset == "OPEN"@ || offset == "CLOSE"@ || offset == "CLOSETODAY"@
}

/// The code of a direction and an offset is positive exactly to buy, and its
/// magnitude is 2 exactly to open, 3 exactly to close and 4 exactly to close a
/// position of the day; so the code tells both. What is unknown has the code of
/// buying to open.
pub proof fn codes_are_signed(direction: Seq<char>, offset: Seq<char>)
    ensures
        ({
            let code = towards_of(direction, offset);
            &&& known_direction(direction) && known_offset(offset) ==> {
                &&& code > 0 <==> direction == "BUY"@
                &&& code < 0 <==> direction == "SELL"@
                &&& code == 2 || code == -2 <==> offset == "OPEN"@
                &&& code == 3 || code == -3 <==> offset == "CLOSE"@
                &&& code == 4 || code == -4 <==> offset == "CLOSETODAY"@
            }
            &&& !known_direction(direction) || !known_offset(offset) ==> code == 2
        }),
{
    reveal_strlit("BUY");
    reveal_strlit("SELL");
    reveal_strlit("OPEN");
    reveal_strlit("CLOSE");
    reveal_strlit("CLOSETODAY");
    assert("BUY"@.len() != "SELL"@.len());
    assert("OPEN"@.len() == 4 && "CLOSE"@.len() == 5 && "CLOSETODAY"@.len() == 10);
}

/// The order of the protocol is the order of the account layer: it has the same
/// account, identifiers, instrument, direction, offset, volumes, price, type and
/// conditions, and is alive.
pub proof fn conversion_keeps_the_order(o: QAOrder<Seq<char>>)
    ensures
        qifi_order(o).user_id == o.user_id,
        qifi_order(o).order_id == o.order_id,
        qifi_order(o).exchange_id == o.exchange_id,
        qifi_order(o).instrument_id == o.instrument_id,
        qifi_order(o).direction == o.direction,
        qifi_order(o).offset == o.offset,
        qifi_order(o).volume_orign == o.volume,
        qifi_order(o).volume_left == o.volume_left,
        qifi_order(o).price_type == o.price_type,
        qifi_order(o).limit_price == o.limit_price,
        qifi_order(o).time_condition == o.time_condition,
        qifi_order(o).volume_condition == o.volume_condition,
        qifi_order(o).exchange_order_id == o.exchange_order_id,
        qifi_order(o).last_msg == o.last_msg,
        qifi_order(o).status == "ALIVE"@,
        qifi_order(o).seqno == 0 && qifi_order(o).insert_date_time == 0,
{
}

/// An order rests exactly when it was submitted or filled in part, and is closed
/// exactly when it was filled, cancelled or rejected; it is never both.
pub proof fn statuses_are_told_apart(status: OrderStatus)
    ensures
        status.active() <==> status == OrderStatus::Submitted || status
            == OrderStatus::PartiallyFilled,
        status.closed() <==> status == OrderStatus::Filled || status == OrderStatus::Cancelled
            || status == OrderStatus::Rejected,
        status.word() == (if status is Filled {
            "filled"@
        } else if status is PartiallyFilled {
            "partially_filled"@
        } else if status is Cancelled {
            "cancelled"@
        } else if status is Rejected {
            "rejected"@
        } else {
            "submitted"@
        }),
        status is PendingRisk ==> status.name() == "PendingRisk"@,
        status is PendingRoute ==> status.name() == "PendingRoute"@,
        status is Submitted ==> status.name() == "Submitted"@,
        status is PartiallyFilled ==> status.name() == "PartiallyFilled"@,
        status is Filled ==> status.name() == "Filled"@,
        status is Cancelled ==> status.name() == "Cancelled"@,
        status is Rejected ==> status.name() == "Rejected"@,
{
}

/// An error of the exchange is written as its kind and its text in brackets; its text
/// alone is the text that it was made with.
pub proof fn errors_are_written(s: Seq<char>)
    ensures
        ExchangeError::OrderError(s).debug_form() == "OrderError("@ + text::debug_form(s) + ")"@,
        ExchangeError::MatchingError(s).debug_form() == "MatchingError("@ + text::debug_form(s)
            + ")"@,
        ExchangeError::AccountError(s).debug_form() == "AccountError("@ + text::debug_form(s)
            + ")"@,
        ExchangeError::OrderError(s).text() == s,
        ExchangeError::MatchingError(s).text() == s,
        ExchangeError::AccountError(s).text() == s,
{
}

} // verus!
