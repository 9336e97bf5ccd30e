//! Orders that wait for a condition. An engine of its own keeps them; here is
//! what its clients are answered.
use crate::service;
use crate::service::ApiError;
use crate::text;
use vstd::prelude::*;

verus! {

/// Whether a conditional order may be made: there must be the account.
pub fn create_conditional_order(account_id: &str, known: bool) -> (r: Result<(), ApiError>)
    ensures
        match r {
            Ok(_) => known,
            Err(e) => !known && e@ == service::not_found("账户不存在: "@ + account_id@),
        },
{
    if known {
        Ok(())
    } else {
        Err(service::missing(text::joined("账户不存在: ", account_id)))
    }
}

/// The answer when the engine refused a conditional order.
pub fn create_conditional_order_failed(reason: String) -> (r: ApiError)
    ensures
        r@ == service::bad_request(4009, reason@),
{
    service::bad(4009, reason)
}

/// The account whose conditional orders are to be shown.
pub fn get_conditional_orders(account_id: Option<String>) -> (r: Result<String, ApiError>)
    ensures
        match (r, account_id) {
            (Ok(id), Some(given)) => id@ == given@,
            (Err(e), None) => e@ == service::bad_request(400, "缺少 account_id 参数"@),
            _ => false,
        },
{
    match account_id {
        Some(id) => Ok(id),
        None => Err(service::bad(400, "缺少 account_id 参数".to_string())),
    }
}

/// What the client is told of a conditional order that was cancelled.
#[derive(Debug)]
pub struct ConditionalCancellation<S = String> {
    pub conditional_order_id: S,
    pub message: S,
}

impl View for ConditionalCancellation<String> {
    type V = ConditionalCancellation<Seq<char>>;

    open spec fn view(&self) -> ConditionalCancellation<Seq<char>> {
        ConditionalCancellation {
            conditional_order_id: self.conditional_order_id@,
            message: self.message@,
        }
    }
}

/// The answer to the cancellation of a conditional order, from what the engine
/// said of it.
pub fn cancel_conditional_order(
    conditional_order_id: String,
    outcome: Result<(), String>,
) -> (r: Result<ConditionalCancellation, ApiError>)
    ensures
        match (r, outcome) {
            (Ok(c), Ok(_)) => c@ == (ConditionalCancellation {
                conditional_order_id: conditional_order_id@,
                message: "条件单取消成功"@,
            }),
            (Err(e), Err(reason)) => e@ == service::bad_request(4010, reason@),
            _ => false,
        },
{
    match outcome {
        Ok(_) => Ok(
            ConditionalCancellation {
                conditional_order_id,
                message: "条件单取消成功".to_string(),
            },
        ),
        Err(reason) => Err(service::bad(4010, reason)),
    }
}

} // verus!
