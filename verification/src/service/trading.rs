//! Orders over the web: placing, cancelling, showing and changing them, one by
//! one or many at once.
use crate::orders::{
    CancelOrderRequest, ExchangeError, Order, OrderStatus, SubmitOrderRequest, SubmitOrderResponse,
};
use crate::router::cancelling;
use crate::router::cancelling::CancelResult;
use crate::router::queries;
use crate::router::queries::{NamedOrderDetail, OrderDetail};
use crate::service;
use crate::service::ApiError;
use crate::text;
use vstd::prelude::*;

verus! {

/// An order as a client asks for it.
#[derive(Debug)]
pub struct OrderForm<S = String> {
    pub instrument_id: S,
    pub direction: S,
    pub offset: S,
    /// In ten-thousandths.
    pub volume: i64,
    /// In ten-thousandths.
    pub price: i64,
    pub order_type: S,
}

impl View for OrderForm<String> {
    type V = OrderForm<Seq<char>>;

    open spec fn view(&self) -> OrderForm<Seq<char>> {
        OrderForm {
            instrument_id: self.instrument_id@,
            direction: self.direction@,
            offset: self.offset@,
            volume: self.volume,
            price: self.price,
            order_type: self.order_type@,
        }
    }
}

/// The request to the router for an order of an account, without conditions.
pub open spec fn order_request(account_id: Seq<char>, form: OrderForm<Seq<char>>) -> SubmitOrderRequest<
    Seq<char>,
> {
    SubmitOrderRequest {
        account_id,
        instrument_id: form.instrument_id,
        direction: form.direction,
        offset: form.offset,
        volume: form.volume,
        price: form.price,
        order_type: form.order_type,
        time_condition: None,
        volume_condition: None,
    }
}

/// Makes the request to the router for an order of an account.
pub fn submit_order(account_id: &str, form: &OrderForm) -> (r: SubmitOrderRequest)
    ensures
        r@ == order_request(account_id@, form@),
{
    SubmitOrderRequest {
        account_id: account_id.to_string(),
        instrument_id: form.instrument_id.clone(),
        direction: form.direction.clone(),
        offset: form.offset.clone(),
        volume: form.volume,
        price: form.price,
        order_type: form.order_type.clone(),
        time_condition: None,
        volume_condition: None,
    }
}

/// A text, or another one where there is none.
pub open spec fn text_or(o: Option<Seq<char>>, other: Seq<char>) -> Seq<char> {
    match o {
        Some(s) => s,
        None => other,
    }
}

/// The identifier and the status of an order that was placed, or the error.
pub open spec fn submit_answer(response: SubmitOrderResponse<Seq<char>>) -> Result<
    (Seq<char>, Seq<char>),
    ApiError<Seq<char>>,
> {
    if response.success {
        Ok((text_or(response.order_id, ""@), text_or(response.status, "submitted"@)))
    } else {
        Err(
            service::bad_request(
                match response.error_code {
                    Some(code) => code,
                    None => 400,
                },
                text_or(response.error_message, "Order submission failed"@),
            ),
        )
    }
}

fn or_else(o: Option<String>, other: &str) -> (r: String)
    ensures
        r@ == text_or(text::opt_text(o), other@),
{
    match o {
        Some(s) => s,
        None => other.to_string(),
    }
}

/// Answers a request to place an order: with the identifier and the status of
/// the order, or with the error.
pub fn submit_order_reply(response: SubmitOrderResponse) -> (r: Result<(String, String), ApiError>)
    ensures
        match (r, submit_answer(response@)) {
            (Ok(a), Ok(b)) => a.0@ == b.0 && a.1@ == b.1,
            (Err(a), Err(b)) => a@ == b,
            _ => false,
        },
{
    if response.success {
        Ok((or_else(response.order_id, ""), or_else(response.status, "submitted")))
    } else {
        let code: u32 = match response.error_code {
            Some(code) => code,
            None => 400,
        };
        Err(service::bad(code, or_else(response.error_message, "Order submission failed")))
    }
}

/// The request to the router to cancel an order of an account.
pub open spec fn cancel_request(account_id: Seq<char>, order_id: Seq<char>) -> CancelOrderRequest<
    Seq<char>,
> {
    CancelOrderRequest { account_id, order_id }
}

/// Makes the request to the router to cancel an order of an account.
pub fn cancel_order(account_id: &str, order_id: &str) -> (r: CancelOrderRequest)
    ensures
        r@ == (CancelOrderRequest { account_id: account_id@, order_id: order_id@ }),
        r@ == cancel_request(account_id@, order_id@),
{
    CancelOrderRequest { account_id: account_id.to_string(), order_id: order_id.to_string() }
}

/// Answers a request to cancel an order.
pub fn cancel_order_reply(order_id: String, result: CancelResult) -> (r: Result<String, ApiError>)
    ensures
        match (r, cancelling::cancel_result(result)) {
            (Ok(id), Ok(_)) => id@ == order_id@,
            (Err(e), Err(cause)) => e@ == service::bad_request(
                400,
                "Cancel order failed: "@ + cause.debug_form(),
            ),
            _ => false,
        },
{
    match result {
        Ok(_) => Ok(order_id),
        Err(e) => Err(service::bad(400, text::joined("Cancel order failed: ", &e.debug_text()))),
    }
}

/// What is shown of an order.
#[derive(Debug)]
pub struct OrderInfo<S = String> {
    pub order_id: S,
    pub user_id: S,
    pub instrument_id: S,
    pub direction: S,
    pub offset: S,
    pub volume: i64,
    pub price: i64,
    pub filled_volume: i64,
    pub status: S,
    pub submit_time: i64,
    pub update_time: i64,
}

impl View for OrderInfo<String> {
    type V = OrderInfo<Seq<char>>;

    open spec fn view(&self) -> OrderInfo<Seq<char>> {
        OrderInfo {
            order_id: self.order_id@,
            user_id: self.user_id@,
            instrument_id: self.instrument_id@,
            direction: self.direction@,
            offset: self.offset@,
            volume: self.volume,
            price: self.price,
            filled_volume: self.filled_volume,
            status: self.status@,
            submit_time: self.submit_time,
            update_time: self.update_time,
        }
    }
}

/// What is shown of an order.
pub open spec fn order_info(
    order_id: Seq<char>,
    d: (Order<Seq<char>>, OrderStatus, i64, i64, i64),
) -> OrderInfo<Seq<char>> {
    OrderInfo {
        order_id,
        user_id: d.0.user_id,
        instrument_id: d.0.instrument_id,
        direction: d.0.direction,
        offset: d.0.offset,
        volume: d.0.volume_orign,
        price: d.0.limit_price,
        filled_volume: d.4,
        status: d.1.name(),
        submit_time: d.2,
        update_time: d.3,
    }
}

fn show_order(order_id: String, d: OrderDetail) -> (r: OrderInfo)
    ensures
        r@ == order_info(order_id@, queries::detail_view(d)),
{
    let (order, status, submit_time, update_time, filled_volume): OrderDetail = d;
    OrderInfo {
        order_id,
        user_id: order.user_id,
        instrument_id: order.instrument_id,
        direction: order.direction,
        offset: order.offset,
        volume: order.volume_orign,
        price: order.limit_price,
        filled_volume,
        status: status.name_text(),
        submit_time,
        update_time,
    }
}

/// Shows an order, or tells that there is none.
pub fn query_order(order_id: &str, detail: Option<OrderDetail>) -> (r: Result<OrderInfo, ApiError>)
    ensures
        match (r, detail) {
            (Ok(info), Some(d)) => info@ == order_info(order_id@, queries::detail_view(d)),
            (Err(e), None) => e@ == service::not_found("Order not found: "@ + order_id@),
            _ => false,
        },
{
    match detail {
        Some(d) => Ok(show_order(order_id.to_string(), d)),
        None => Err(service::missing(text::joined("Order not found: ", order_id))),
    }
}

/// What is shown of an order with its identifier.
pub open spec fn named_order_info(d: NamedOrderDetail) -> OrderInfo<Seq<char>> {
    order_info(d.0@, (d.1@, d.2, d.3, d.4, d.5))
}

/// Shows the orders of a user, in their order.
pub fn query_user_orders(details: Vec<NamedOrderDetail>) -> (r: Vec<OrderInfo>)
    ensures
        r@.map_values(|i: OrderInfo| i@) == details@.map_values(
            |d: NamedOrderDetail| named_order_info(d),
        ),
{
    let ghost shown = details@.map_values(|d: NamedOrderDetail| named_order_info(d));
    let mut left: Vec<NamedOrderDetail> = details;
    let mut out: Vec<OrderInfo> = Vec::new();
    while left.len() > 0
        invariant
            out@.len() + left@.len() == details@.len(),
            left@ == details@.skip(out@.len() as int),
            shown == details@.map_values(|d: NamedOrderDetail| named_order_info(d)),
            out@.map_values(|i: OrderInfo| i@) == shown.take(out@.len() as int),
        decreases left@.len(),
    {
        let ghost n = out@.len() as int;
        let d: NamedOrderDetail = left.remove(0);
        assert(d == details@[n]);
        out.push(show_order(d.0, (d.1, d.2, d.3, d.4, d.5)));
        assert(left@ =~= details@.skip(n + 1));
        assert(out@.map_values(|i: OrderInfo| i@) =~= shown.take(n + 1));
    }
    assert(shown.take(out@.len() as int) =~= shown);
    out
}

/// What an order is to be changed to.
#[derive(Debug)]
pub struct ModifyOrderRequest<S = String> {
    pub account_id: S,
    pub new_price: Option<i64>,
    pub new_volume: Option<i64>,
}

impl View for ModifyOrderRequest<String> {
    type V = ModifyOrderRequest<Seq<char>>;

    open spec fn view(&self) -> ModifyOrderRequest<Seq<char>> {
        ModifyOrderRequest {
            account_id: self.account_id@,
            new_price: self.new_price,
            new_volume: self.new_volume,
        }
    }
}

/// A number, or another one where there is none.
pub open spec fn number_or(o: Option<i64>, other: i64) -> i64 {
    match o {
        Some(n) => n,
        None => other,
    }
}

/// The order that takes the place of an order.
pub open spec fn replacement(request: ModifyOrderRequest<Seq<char>>, order: Order<Seq<char>>) -> SubmitOrderRequest<
    Seq<char>,
> {
    SubmitOrderRequest {
        account_id: request.account_id,
        instrument_id: order.instrument_id,
        direction: order.direction,
        offset: order.offset,
        volume: number_or(request.new_volume, order.volume_orign),
        price: number_or(request.new_price, order.limit_price),
        order_type: order.price_type,
        time_condition: None,
        volume_condition: None,
    }
}

/// How an order is changed: it is cancelled, and its replacement is placed. The
/// order must rest in the matching engine with nothing filled.
pub open spec fn modification(
    order_id: Seq<char>,
    request: ModifyOrderRequest<Seq<char>>,
    detail: Option<(Order<Seq<char>>, OrderStatus, i64, i64, i64)>,
) -> Result<
    (CancelOrderRequest<Seq<char>>, SubmitOrderRequest<Seq<char>>),
    ApiError<Seq<char>>,
> {
    match detail {
        None => Err(service::not_found("订单不存在: "@ + order_id)),
        Some(d) => if !d.1.active() {
            Err(service::bad_request(4005, "订单状态不允许修改: "@ + d.1.name()))
        } else if d.4 > 0 {
            Err(service::bad_request(4006, "已部分成交的订单不能修改"@))
        } else {
            Ok(
                (
                    CancelOrderRequest { account_id: request.account_id, order_id },
                    replacement(request, d.0),
                ),
            )
        },
    }
}

/// Says how an order is changed.
pub fn modify_order(order_id: &str, request: &ModifyOrderRequest, detail: Option<OrderDetail>) -> (r:
    Result<(CancelOrderRequest, SubmitOrderRequest), ApiError>)
    ensures
        match (
            r,
            modification(
                order_id@,
                request@,
                match detail {
                    Some(d) => Some(queries::detail_view(d)),
                    None => None,
                },
            ),
        ) {
            (Ok(a), Ok(b)) => a.0@ == b.0 && a.1@ == b.1,
            (Err(a), Err(b)) => a@ == b,
            _ => false,
        },
{
    match detail {
        None => Err(service::missing(text::joined("订单不存在: ", order_id))),
        Some(d) => {
            if !d.1.is_active() {
                return Err(
                    service::bad(4005, text::joined("订单状态不允许修改: ", &d.1.name_text())),
                );
            }
            if d.4 > 0 {
                return Err(service::bad(4006, "已部分成交的订单不能修改".to_string()));
            }
            let order: Order = d.0;
            let volume: i64 = match request.new_volume {
                Some(n) => n,
                None => order.volume_orign,
            };
            let price: i64 = match request.new_price {
                Some(n) => n,
                None => order.limit_price,
            };
            Ok(
                (
                    cancel_order(&request.account_id, order_id),
                    SubmitOrderRequest {
                        account_id: request.account_id.clone(),
                        instrument_id: order.instrument_id,
                        direction: order.direction,
                        offset: order.offset,
                        volume,
                        price,
                        order_type: order.price_type,
                        time_condition: None,
                        volume_condition: None,
                    },
                ),
            )
        },
    }
}

/// The answer when the order that is to be changed could not be cancelled.
pub fn modify_cancel_failed(e: &ExchangeError) -> (r: ApiError)
    ensures
        r@ == service::bad_request(4007, "撤单失败: "@ + e@.debug_form()),
{
    service::bad(4007, text::joined("撤单失败: ", &e.debug_text()))
}

/// An order that was changed.
#[derive(Debug)]
pub struct ModifiedOrder<S = String> {
    pub old_order_id: S,
    pub new_order_id: Option<S>,
    pub new_price: i64,
    pub new_volume: i64,
}

impl View for ModifiedOrder<String> {
    type V = ModifiedOrder<Seq<char>>;

    open spec fn view(&self) -> ModifiedOrder<Seq<char>> {
        ModifiedOrder {
            old_order_id: self.old_order_id@,
            new_order_id: text::opt_text(self.new_order_id),
            new_price: self.new_price,
            new_volume: self.new_volume,
        }
    }
}

/// The answer to a request to change an order, from what the router said to its
/// replacement.
pub open spec fn changed_answer(
    order_id: Seq<char>,
    placed: SubmitOrderRequest<Seq<char>>,
    response: SubmitOrderResponse<Seq<char>>,
) -> Result<ModifiedOrder<Seq<char>>, ApiError<Seq<char>>> {
    if response.success {
        Ok(
            ModifiedOrder {
                old_order_id: order_id,
                new_order_id: response.order_id,
                new_price: placed.price,
                new_volume: placed.volume,
            },
        )
    } else {
        Err(
            service::bad_request(
                4008,
                "订单修改失败（原订单已撤销，新订单提交失败）: "@ + text_or(
                    response.error_message,
                    ""@,
                ),
            ),
        )
    }
}

/// Answers a request to change an order after its replacement was asked for.
pub fn modify_order_reply(
    order_id: &str,
    placed: &SubmitOrderRequest,
    response: SubmitOrderResponse,
) -> (r: Result<ModifiedOrder, ApiError>)
    ensures
        match r {
            Ok(m) => response.success && m@ == (ModifiedOrder {
                old_order_id: order_id@,
                new_order_id: response@.order_id,
                new_price: placed.price,
                new_volume: placed.volume,
            }),
            Err(e) => !response.success && e@ == service::bad_request(
                4008,
                "订单修改失败（原订单已撤销，新订单提交失败）: "@ + text_or(
                    response@.error_message,
                    ""@,
                ),
            ),
        },
        match (r, changed_answer(order_id@, placed@, response@)) {
            (Ok(a), Ok(b)) => a@ == b,
            (Err(a), Err(b)) => a@ == b,
            _ => false,
        },
{
    if response.success {
        Ok(
            ModifiedOrder {
                old_order_id: order_id.to_string(),
                new_order_id: response.order_id,
                new_price: placed.price,
                new_volume: placed.volume,
            },
        )
    } else {
        Err(
            service::bad(
                4008,
                text::joined(
                    "订单修改失败（原订单已撤销，新订单提交失败）: ",
                    &or_else(response.error_message, ""),
                ),
            ),
        )
    }
}

/// A change keeps what an order is about: its replacement has the instrument,
/// the direction, the offset and the type of the order, and its volume and its
/// price wherever the request names no other.
pub proof fn replacement_keeps_the_order(
    request: ModifyOrderRequest<Seq<char>>,
    order: Order<Seq<char>>,
)
    ensures
        replacement(request, order).instrument_id == order.instrument_id,
        replacement(request, order).direction == order.direction,
        replacement(request, order).offset == order.offset,
        replacement(request, order).order_type == order.price_type,
        request.new_price is None ==> replacement(request, order).price == order.limit_price,
        request.new_volume is None ==> replacement(request, order).volume == order.volume_orign,
{
}

/// A change asks for what the request names: the replacement is an order of the
/// account of the request, at its new price and of its new volume wherever it names
/// one, and without conditions; two requests that differ in what they name lead to
/// replacements that differ.
pub proof fn replacement_follows_the_request(
    request: ModifyOrderRequest<Seq<char>>,
    other: ModifyOrderRequest<Seq<char>>,
    order: Order<Seq<char>>,
)
    ensures
        replacement(request, order).account_id == request.account_id,
        request.new_volume matches Some(v) ==> replacement(request, order).volume == v,
        request.new_price matches Some(p) ==> replacement(request, order).price == p,
        replacement(request, order).time_condition is None,
        replacement(request, order).volume_condition is None,
        request.new_volume is Some && other.new_volume is Some && request.new_volume
            != other.new_volume ==> replacement(request, order) != replacement(other, order),
        request.new_price is Some && other.new_price is Some && request.new_price
            != other.new_price ==> replacement(request, order) != replacement(other, order),
        request.account_id != other.account_id ==> replacement(request, order) != replacement(
            other,
            order,
        ),
{
}

/// An order can be changed exactly while it is known, rests and has nothing filled.
/// It is cancelled as the order of that identifier for the account of the request,
/// and the new order has the new volume and the new price where they are named, and
/// those of the order elsewhere.
pub proof fn changes_cancel_and_replace(
    order_id: Seq<char>,
    request: ModifyOrderRequest<Seq<char>>,
    order: Order<Seq<char>>,
    status: OrderStatus,
    submit_time: i64,
    update_time: i64,
    filled: i64,
)
    ensures
        ({
            let active = status == OrderStatus::Submitted || status
                == OrderStatus::PartiallyFilled;
            let r = modification(
                order_id,
                request,
                Some((order, status, submit_time, update_time, filled)),
            );
            &&& r is Ok <==> active && filled <= 0
            &&& r matches Ok((cancel, place)) ==> {
                &&& cancel.account_id == request.account_id && cancel.order_id == order_id
                &&& place.account_id == request.account_id
                &&& place.instrument_id == order.instrument_id
                &&& place.direction == order.direction && place.offset == order.offset
                &&& place.order_type == order.price_type
                &&& request.new_volume matches Some(v) ==> place.volume == v
                &&& request.new_volume is None ==> place.volume == order.volume_orign
                &&& request.new_price matches Some(p) ==> place.price == p
                &&& request.new_price is None ==> place.price == order.limit_price
                &&& place.time_condition is None && place.volume_condition is None
            }
            &&& r matches Err(e) ==> {
                &&& e.http_status == 400
                &&& e.code == (if active {
                    4006u32
                } else {
                    4005u32
                })
                &&& e.message == (if active {
                    "已部分成交的订单不能修改"@
                } else {
                    "订单状态不允许修改: "@ + status.name()
                })
            }
            &&& modification(order_id, request, None) matches Err(e)
            &&& e.http_status == 404
            &&& e.message == "订单不存在: "@ + order_id
        }),
{
}

/// A request over the web reaches the router as it was made, for the account that
/// it was made for; what differs in the form differs in the request.
pub proof fn forms_reach_the_router(
    account_id: Seq<char>,
    form: OrderForm<Seq<char>>,
    other: OrderForm<Seq<char>>,
)
    ensures
        order_request(account_id, form).account_id == account_id,
        order_request(account_id, form).instrument_id == form.instrument_id,
        order_request(account_id, form).direction == form.direction,
        order_request(account_id, form).offset == form.offset,
        order_request(account_id, form).volume == form.volume,
        order_request(account_id, form).price == form.price,
        order_request(account_id, form).order_type == form.order_type,
        order_request(account_id, form).time_condition is None,
        order_request(account_id, form).volume_condition is None,
        order_request(account_id, form) == order_request(account_id, other) ==> form == other,
{
}

/// The answer to a request over the web is a success exactly where the router's is,
/// with its identifier and status; an error is a bad request with the router's code
/// and message, where it gave them.
pub proof fn answers_tell_what_the_router_said(response: SubmitOrderResponse<Seq<char>>)
    ensures
        submit_answer(response) is Ok <==> response.success,
        submit_answer(response) matches Ok((id, status)) ==> {
            &&& response.order_id matches Some(o) ==> id == o
            &&& response.order_id is None ==> id == ""@
            &&& response.status matches Some(t) ==> status == t
            &&& response.status is None ==> status == "submitted"@
        },
        submit_answer(response) matches Err(e) ==> {
            &&& e.http_status == 400
            &&& response.error_code matches Some(code) ==> e.code == code
            &&& response.error_code is None ==> e.code == 400
            &&& response.error_message matches Some(m) ==> e.message == m
            &&& response.error_message is None ==> e.message == "Order submission failed"@
        },
{
}

/// An order is shown as it is: under its identifier, with the account, the
/// instrument, the direction, the offset, the whole volume, the limit, the volume
/// that is filled and the two times of it.
pub proof fn orders_are_shown_as_they_are(
    order_id: Seq<char>,
    order: Order<Seq<char>>,
    status: OrderStatus,
    submit_time: i64,
    update_time: i64,
    filled: i64,
)
    ensures
        ({
            let info = order_info(order_id, (order, status, submit_time, update_time, filled));
            &&& info.order_id == order_id
            &&& info.user_id == order.user_id
            &&& info.instrument_id == order.instrument_id
            &&& info.direction == order.direction
            &&& info.offset == order.offset
            &&& info.volume == order.volume_orign
            &&& info.price == order.limit_price
            &&& info.filled_volume == filled
            &&& info.submit_time == submit_time
            &&& info.update_time == update_time
            &&& info.status == status.name()
        }),
{
}

/// An order of a list is shown as one that is asked for by its identifier.
pub proof fn listed_orders_are_shown_alike(d: NamedOrderDetail, single: OrderDetail)
    requires
        d.1 == single.0,
        d.2 == single.1,
        d.3 == single.2,
        d.4 == single.3,
        d.5 == single.4,
    ensures
        named_order_info(d).order_id == d.0@,
        named_order_info(d) == order_info(d.0@, queries::detail_view(single)),
        named_order_info(d).submit_time == d.3,
        named_order_info(d).update_time == d.4,
        named_order_info(d).filled_volume == d.5,
{
}

/// A cancellation is asked for the account and the order that are given.
pub proof fn cancellations_reach_the_router(account_id: Seq<char>, order_id: Seq<char>)
    ensures
        cancel_request(account_id, order_id).account_id == account_id,
        cancel_request(account_id, order_id).order_id == order_id,
{
}

/// A change succeeds exactly where its replacement was placed. The answer names the
/// order that was changed, the one that took its place, and the price and the volume
/// that the replacement was placed with; so, after a request that names new ones, it
/// names those.
pub proof fn changes_are_answered_by_their_replacement(
    order_id: Seq<char>,
    request: ModifyOrderRequest<Seq<char>>,
    order: Order<Seq<char>>,
    response: SubmitOrderResponse<Seq<char>>,
)
    ensures
        ({
            let placed = replacement(request, order);
            let answer = changed_answer(order_id, placed, response);
            &&& answer is Ok <==> response.success
            &&& answer matches Ok(m) ==> {
                &&& m.old_order_id == order_id
                &&& m.new_order_id == response.order_id
                &&& m.new_price == placed.price && m.new_volume == placed.volume
                &&& request.new_price matches Some(p) ==> m.new_price == p
                &&& request.new_volume matches Some(v) ==> m.new_volume == v
                &&& request.new_price is None ==> m.new_price == order.limit_price
                &&& request.new_volume is None ==> m.new_volume == order.volume_orign
            }
            &&& answer matches Err(e) ==> e.http_status == 400 && e.code == 4008
        }),
{
}

} // verus!
