//! Many orders at once.
use crate::orders::{CancelOrderRequest, SubmitOrderRequest, SubmitOrderResponse};
use crate::router::cancelling;
use crate::router::cancelling::CancelResult;
use crate::service;
use crate::service::trading;
use crate::service::trading::OrderForm;
use crate::service::ApiError;
use crate::text;
use vstd::prelude::*;

verus! {

/// What became of one order of many.
#[derive(Debug)]
pub struct SingleOrderResult<S = String> {
    /// The place of the order among all.
    pub index: usize,
    pub success: bool,
    pub order_id: Option<S>,
    pub error: Option<S>,
}

impl View for SingleOrderResult<String> {
    type V = SingleOrderResult<Seq<char>>;

    open spec fn view(&self) -> SingleOrderResult<Seq<char>> {
        SingleOrderResult {
            index: self.index,
            success: self.success,
            order_id: text::opt_text(self.order_id),
            error: text::opt_text(self.error),
        }
    }
}

/// What became of many orders.
#[derive(Debug)]
pub struct BatchResponse<R = Vec<SingleOrderResult>> {
    pub total: usize,
    pub success_count: usize,
    pub failed_count: usize,
    /// The results, in the order of the request.
    pub results: R,
}

impl View for BatchResponse {
    type V = BatchResponse<Seq<SingleOrderResult<Seq<char>>>>;

    open spec fn view(&self) -> BatchResponse<Seq<SingleOrderResult<Seq<char>>>> {
        BatchResponse {
            total: self.total,
            success_count: self.success_count,
            failed_count: self.failed_count,
            results: self.results@.map_values(|r: SingleOrderResult| r@),
        }
    }
}

/// The number of results that are a success, or that are none.
pub open spec fn count(results: Seq<SingleOrderResult<Seq<char>>>, success: bool) -> nat {
    results.filter(|r: SingleOrderResult<Seq<char>>| r.success == success).len()
}

/// All results, and how many of each kind they are.
pub open spec fn tallied(results: Seq<SingleOrderResult<Seq<char>>>) -> BatchResponse<
    Seq<SingleOrderResult<Seq<char>>>,
> {
    BatchResponse {
        total: results.len() as usize,
        success_count: count(results, true) as usize,
        failed_count: count(results, false) as usize,
        results,
    }
}

/// What became of an order that was to be placed.
pub open spec fn placed_result(index: int, response: SubmitOrderResponse<Seq<char>>) -> SingleOrderResult<
    Seq<char>,
> {
    if response.success {
        SingleOrderResult {
            index: index as usize,
            success: true,
            order_id: response.order_id,
            error: None,
        }
    } else {
        SingleOrderResult {
            index: index as usize,
            success: false,
            order_id: None,
            error: response.error_message,
        }
    }
}

/// What became of an order that was to be cancelled.
pub open spec fn cancelled_result(index: int, order_id: Seq<char>, result: CancelResult) -> SingleOrderResult<
    Seq<char>,
> {
    SingleOrderResult {
        index: index as usize,
        success: result is Ok,
        order_id: Some(order_id),
        error: match cancelling::cancel_result(result) {
            Ok(_) => None,
            Err(e) => Some(e.debug_form()),
        },
    }
}

/// Successes and failures together are all results.
pub proof fn counts_add_up(results: Seq<SingleOrderResult<Seq<char>>>)
    ensures
        count(results, true) + count(results, false) == results.len(),
    decreases results.len(),
{
    reveal(Seq::filter);
    if results.len() > 0 {
        counts_add_up(results.drop_last());
    }
}

/// One more result counts once.
proof fn count_grows(
    results: Seq<SingleOrderResult<Seq<char>>>,
    next: SingleOrderResult<Seq<char>>,
)
    ensures
        count(results.push(next), true) == count(results, true) + if next.success {
            1nat
        } else {
            0nat
        },
        count(results.push(next), false) == count(results, false) + if next.success {
            0nat
        } else {
            1nat
        },
{
    reveal(Seq::filter);
    assert(results.push(next).drop_last() =~= results);
}

/// A list of results with its counts.
struct Tally {
    success_count: usize,
    failed_count: usize,
    results: Vec<SingleOrderResult>,
}

impl Tally {
    spec fn shown(self) -> Seq<SingleOrderResult<Seq<char>>> {
        self.results@.map_values(|r: SingleOrderResult| r@)
    }

    spec fn right(self) -> bool {
        self.success_count == count(self.shown(), true) && self.failed_count == count(
            self.shown(),
            false,
        )
    }

    fn new() -> (r: Self)
        ensures
            r.right(),
            r.shown() == Seq::<SingleOrderResult<Seq<char>>>::empty(),
    {
        let r: Tally = Tally { success_count: 0, failed_count: 0, results: Vec::new() };
        assert(r.shown() =~= Seq::empty());
        proof {
            reveal(Seq::filter);
        }
        r
    }

    fn push(&mut self, next: SingleOrderResult)
        requires
            old(self).right(),
            old(self).results@.len() < usize::MAX,
        ensures
            final(self).right(),
            final(self).shown() == old(self).shown().push(next@),
    {
        proof {
            count_grows(self.shown(), next@);
            counts_add_up(self.shown());
        }
        if next.success {
            self.success_count = self.success_count + 1;
        } else {
            self.failed_count = self.failed_count + 1;
        }
        self.results.push(next);
        assert(self.shown() =~= old(self).shown().push(next@));
    }

    fn done(self) -> (r: BatchResponse)
        requires
            self.right(),
        ensures
            r@ == tallied(self.shown()),
    {
        BatchResponse {
            total: self.results.len(),
            success_count: self.success_count,
            failed_count: self.failed_count,
            results: self.results,
        }
    }
}

/// Makes the requests to the router for many orders of an account, if there is
/// the account.
pub fn batch_submit_orders(account_id: &str, known: bool, orders: &Vec<OrderForm>) -> (r: Result<
    Vec<SubmitOrderRequest>,
    ApiError,
>)
    ensures
        match r {
            Ok(requests) => known && requests@.map_values(|q: SubmitOrderRequest| q@)
                == orders@.map_values(|f: OrderForm| trading::order_request(account_id@, f@)),
            Err(e) => !known && e@ == service::not_found("账户不存在: "@ + account_id@),
        },
{
    if !known {
        return Err(service::missing(text::joined("账户不存在: ", account_id)));
    }
    let ghost expected = orders@.map_values(
        |f: OrderForm| trading::order_request(account_id@, f@),
    );
    let mut out: Vec<SubmitOrderRequest> = Vec::new();
    let n: usize = orders.len();
    let mut i: usize = 0;
    while i < n
        invariant
            i <= n,
            n == orders@.len(),
            expected == orders@.map_values(
                |f: OrderForm| trading::order_request(account_id@, f@),
            ),
            out@.len() == i,
            forall|j: int| 0 <= j < i ==> #[trigger] out@[j]@ == expected[j],
        decreases n - i,
    {
        out.push(trading::submit_order(account_id, &orders[i]));
        i += 1;
    }
    assert(out@.map_values(|q: SubmitOrderRequest| q@) =~= expected);
    Ok(out)
}

/// Tells what became of many orders that were to be placed.
pub fn batch_submit_orders_reply(responses: Vec<SubmitOrderResponse>) -> (r: BatchResponse)
    ensures
        r@ == tallied(
            Seq::new(responses@.len(), |i: int| placed_result(i, responses@[i]@)),
        ),
        r@.total == responses@.len(),
        r@.success_count + r@.failed_count == responses@.len(),
{
    let ghost expected = Seq::new(responses@.len(), |i: int| placed_result(i, responses@[i]@));
    let n: usize = responses.len();
    let mut left: Vec<SubmitOrderResponse> = responses;
    let mut tally: Tally = Tally::new();
    let mut i: usize = 0;
    assert(tally.shown() =~= expected.take(0));
    while i < n
        invariant
            i <= n,
            n == responses@.len(),
            left@ == responses@.skip(i as int),
            expected == Seq::new(responses@.len(), |i: int| placed_result(i, responses@[i]@)),
            tally.right(),
            tally.shown() == expected.take(i as int),
        decreases n - i,
    {
        let response: SubmitOrderResponse = left.remove(0);
        assert(response == responses@[i as int]);
        let result: SingleOrderResult = if response.success {
            SingleOrderResult {
                index: i,
                success: true,
                order_id: response.order_id,
                error: None,
            }
        } else {
            SingleOrderResult {
                index: i,
                success: false,
                order_id: None,
                error: response.error_message,
            }
        };
        assert(tally.results@.len() == tally.shown().len());
        tally.push(result);
        i += 1;
        assert(left@ =~= responses@.skip(i as int));
        assert(tally.shown() =~= expected.take(i as int));
    }
    assert(expected.take(n as int) =~= expected);
    proof {
        counts_add_up(expected);
    }
    tally.done()
}

/// Makes the requests to the router to cancel many orders of an account.
pub fn batch_cancel_orders(account_id: &str, order_ids: &Vec<String>) -> (r: Vec<CancelOrderRequest>)
    ensures
        r@.map_values(|q: CancelOrderRequest| q@) == order_ids@.map_values(
            |id: String|
                (CancelOrderRequest { account_id: account_id@, order_id: id@ }),
        ),
{
    let ghost expected = order_ids@.map_values(
        |id: String| (CancelOrderRequest { account_id: account_id@, order_id: id@ }),
    );
    let mut out: Vec<CancelOrderRequest> = Vec::new();
    let n: usize = order_ids.len();
    let mut i: usize = 0;
    while i < n
        invariant
            i <= n,
            n == order_ids@.len(),
            expected == order_ids@.map_values(
                |id: String| (CancelOrderRequest { account_id: account_id@, order_id: id@ }),
            ),
            out@.len() == i,
            forall|j: int| 0 <= j < i ==> #[trigger] out@[j]@ == expected[j],
        decreases n - i,
    {
        out.push(trading::cancel_order(account_id, &order_ids[i]));
        i += 1;
    }
    assert(out@.map_values(|q: CancelOrderRequest| q@) =~= expected);
    out
}

/// Tells what became of many orders that were to be cancelled.
pub fn batch_cancel_orders_reply(cancelled: Vec<(String, CancelResult)>) -> (r: BatchResponse)
    ensures
        r@ == tallied(
            Seq::new(
                cancelled@.len(),
                |i: int| cancelled_result(i, cancelled@[i].0@, cancelled@[i].1),
            ),
        ),
        r@.total == cancelled@.len(),
        r@.success_count + r@.failed_count == cancelled@.len(),
{
    let ghost expected = Seq::new(
        cancelled@.len(),
        |i: int| cancelled_result(i, cancelled@[i].0@, cancelled@[i].1),
    );
    let n: usize = cancelled.len();
    let mut left: Vec<(String, CancelResult)> = cancelled;
    let mut tally: Tally = Tally::new();
    let mut i: usize = 0;
    assert(tally.shown() =~= expected.take(0));
    while i < n
        invariant
            i <= n,
            n == cancelled@.len(),
            left@ == cancelled@.skip(i as int),
            expected == Seq::new(
                cancelled@.len(),
                |i: int| cancelled_result(i, cancelled@[i].0@, cancelled@[i].1),
            ),
            tally.right(),
            tally.shown() == expected.take(i as int),
        decreases n - i,
    {
        let (order_id, result): (String, CancelResult) = left.remove(0);
        assert((order_id, result) == cancelled@[i as int]);
        let (success, error): (bool, Option<String>) = match &result {
            Ok(_) => (true, None),
            Err(e) => (false, Some(e.debug_text())),
        };
        assert(tally.results@.len() == tally.shown().len());
        tally.push(SingleOrderResult { index: i, success, order_id: Some(order_id), error });
        i += 1;
        assert(left@ =~= cancelled@.skip(i as int));
        assert(tally.shown() =~= expected.take(i as int));
    }
    assert(expected.take(n as int) =~= expected);
    proof {
        counts_add_up(expected);
    }
    tally.done()
}

/// What became of each order of many is told at its place: an order that was placed
/// with its identifier and no error, one that was not with the error and no
/// identifier; an order that was to be cancelled by its identifier in any case.
pub proof fn results_tell_what_became(
    index: int,
    response: SubmitOrderResponse<Seq<char>>,
    order_id: Seq<char>,
    result: CancelResult,
)
    requires
        0 <= index <= usize::MAX,
    ensures
        ({
            let placed = placed_result(index, response);
            &&& placed.index == index
            &&& placed.success == response.success
            &&& response.success ==> placed.order_id == response.order_id && placed.error is None
            &&& !response.success ==> placed.order_id is None && placed.error
                == response.error_message
        }),
        ({
            let cancelled = cancelled_result(index, order_id, result);
            &&& cancelled.index == index
            &&& cancelled.success <==> result is Ok
            &&& cancelled.order_id == Some(order_id)
            &&& result is Ok ==> cancelled.error is None
            &&& result matches Err(e) ==> cancelled.error == Some(e@.debug_form())
        }),
{
}

/// Of many results all are told, in their order; each success counts once as a
/// success and each failure once as a failure.
pub proof fn results_are_counted(
    results: Seq<SingleOrderResult<Seq<char>>>,
    next: SingleOrderResult<Seq<char>>,
)
    requires
        results.len() < usize::MAX,
    ensures
        ({
            let before = tallied(results);
            let after = tallied(results.push(next));
            &&& before.results == results
            &&& before.total == results.len()
            &&& after.total == before.total + 1
            &&& next.success ==> after.success_count == before.success_count + 1
                && after.failed_count == before.failed_count
            &&& !next.success ==> after.success_count == before.success_count
                && after.failed_count == before.failed_count + 1
            &&& results.len() == 0 ==> before.success_count == 0 && before.failed_count == 0
        }),
{
    count_grows(results, next);
    counts_add_up(results);
    counts_add_up(results.push(next));
}

} // verus!
