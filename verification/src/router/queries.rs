//! What the router tells of its orders.
use crate::clock::ClockReading;
use crate::orders::{
    ExchangeError, Order, OrderRouteInfo, OrderStatistics, OrderStatus, TradeStatistics,
};
use crate::protocol::{Effect, EffectView};
use crate::router::state::RouterState;
use crate::router::OrderRouter;
use crate::tables;
use crate::text;
use vstd::prelude::*;

verus! {

/// An order with its status, the times it was submitted and changed at, and the
/// volume filled.
pub type OrderDetail = (Order, OrderStatus, i64, i64, i64);

/// An order with its identifier, its status, the times it was submitted and
/// changed at, and the volume filled.
pub type NamedOrderDetail = (String, Order, OrderStatus, i64, i64, i64);

/// What is told of an order.
pub open spec fn detail_of(info: OrderRouteInfo<Seq<char>>) -> (
    Order<Seq<char>>,
    OrderStatus,
    i64,
    i64,
    i64,
) {
    (info.order, info.status, info.submit_time, info.update_time, info.filled_volume)
}

/// What is told of an order, with its identifier.
pub open spec fn named_detail_of(order_id: Seq<char>, info: OrderRouteInfo<Seq<char>>) -> (
    Seq<char>,
    Order<Seq<char>>,
    OrderStatus,
    i64,
    i64,
    i64,
) {
    (order_id, info.order, info.status, info.submit_time, info.update_time, info.filled_volume)
}

/// The view of what is told of an order.
pub open spec fn detail_view(d: OrderDetail) -> (Order<Seq<char>>, OrderStatus, i64, i64, i64) {
    (d.0@, d.1, d.2, d.3, d.4)
}

/// The view of what is told of an order, with its identifier.
pub open spec fn named_detail_view(d: NamedOrderDetail) -> (
    Seq<char>,
    Order<Seq<char>>,
    OrderStatus,
    i64,
    i64,
    i64,
) {
    (d.0@, d.1@, d.2, d.3, d.4, d.5)
}

/// The identifiers of the orders of an account that are known.
pub open spec fn known_ids(s: RouterState, user_id: Seq<char>) -> Seq<Seq<char>> {
    s.list_of(user_id).filter(|id: Seq<char>| s.orders.contains_key(id))
}

/// The identifiers of the orders whose status meets a condition.
pub open spec fn ids_with(s: RouterState, p: spec_fn(OrderStatus) -> bool) -> Set<Seq<char>> {
    s.orders.dom().filter(|id: Seq<char>| p(s.orders[id].status))
}

/// The state after the status of an order was set from outside.
pub open spec fn status_updated(
    s: RouterState,
    order_id: Seq<char>,
    status: OrderStatus,
    now: i64,
) -> RouterState {
    s.changed(order_id, OrderRouteInfo { status, update_time: now, ..s.orders[order_id] })
}

/// The effect of a change of the status of an order from outside.
pub open spec fn update_effect(
    s: RouterState,
    order_id: Seq<char>,
    status: OrderStatus,
) -> Option<EffectView> {
    if status.closed() {
        Some(Effect::ReleaseActive { user_id: s.orders[order_id].order.user_id, order_id })
    } else {
        None
    }
}

/// The identifiers among the first entries of a list whose status meets a
/// condition.
spec fn seen(
    v: Seq<(String, OrderRouteInfo)>,
    n: int,
    p: spec_fn(OrderStatus) -> bool,
) -> Set<Seq<char>>
    decreases n,
{
    if n <= 0 {
        Set::empty()
    } else if p(v[n - 1].1.status) {
        seen(v, n - 1, p).insert(v[n - 1].0@)
    } else {
        seen(v, n - 1, p)
    }
}

/// What has been seen of a list are the identifiers among its first entries.
proof fn seen_are_listed(
    v: Seq<(String, OrderRouteInfo)>,
    n: int,
    p: spec_fn(OrderStatus) -> bool,
)
    requires
        0 <= n <= v.len(),
    ensures
        seen(v, n, p).finite(),
        seen(v, n, p).len() <= n,
        forall|id: Seq<char>|
            seen(v, n, p).contains(id) <==> exists|i: int|
                0 <= i < n && #[trigger] v[i].0@ == id && p(v[i].1.status),
    decreases n,
{
    if n > 0 {
        seen_are_listed(v, n - 1, p);
        let before = seen(v, n - 1, p);
        assert forall|id: Seq<char>| seen(v, n, p).contains(id) implies exists|i: int|
            0 <= i < n && #[trigger] v[i].0@ == id && p(v[i].1.status) by {
            if before.contains(id) {
                let i = choose|i: int|
                    0 <= i < n - 1 && #[trigger] v[i].0@ == id && p(v[i].1.status);
                assert(v[i].0@ == id);
            } else {
                assert(v[n - 1].0@ == id);
            }
        }
    }
}

/// One more entry of a list without repetition adds one identifier, if its
/// status meets the condition.
proof fn seen_grows(
    v: Seq<(String, OrderRouteInfo)>,
    n: int,
    p: spec_fn(OrderStatus) -> bool,
)
    requires
        0 <= n < v.len(),
        forall|i: int, j: int| 0 <= i < j < v.len() ==> #[trigger] v[i].0@ != #[trigger] v[j].0@,
    ensures
        seen(v, n + 1, p).len() == seen(v, n, p).len() + (if p(v[n].1.status) {
            1int
        } else {
            0int
        }),
{
    seen_are_listed(v, n, p);
    if seen(v, n, p).contains(v[n].0@) {
        let i = choose|i: int| 0 <= i < n && #[trigger] v[i].0@ == v[n].0@ && p(v[i].1.status);
        assert(v[i].0@ != v[n].0@);
    }
}

/// A list of all entries shows all identifiers.
proof fn seen_in_all(
    s: RouterState,
    v: Seq<(String, OrderRouteInfo)>,
    p: spec_fn(OrderStatus) -> bool,
)
    requires
        forall|i: int|
            0 <= i < v.len() ==> s.orders.contains_key(#[trigger] v[i].0@) && v[i].1@
                == s.orders[v[i].0@],
        forall|k: Seq<char>|
            s.orders.contains_key(k) ==> exists|i: int| 0 <= i < v.len() && #[trigger] v[i].0@ == k,
    ensures
        seen(v, v.len() as int, p) == ids_with(s, p),
{
    let n = v.len() as int;
    seen_are_listed(v, n, p);
    assert forall|id: Seq<char>| seen(v, n, p).contains(id) <==> ids_with(s, p).contains(id) by {
        if seen(v, n, p).contains(id) {
            let i = choose|i: int| 0 <= i < n && #[trigger] v[i].0@ == id && p(v[i].1.status);
            assert(v[i].1@ == s.orders[id]);
        }
        if ids_with(s, p).contains(id) {
            let i = choose|i: int| 0 <= i < n && #[trigger] v[i].0@ == id;
            assert(v[i].1@ == s.orders[id]);
        }
    }
    assert(seen(v, n, p) =~= ids_with(s, p));
}

impl OrderRouter {
    /// The order of an identifier, where it is known.
    pub fn query_order(&self, order_id: &str) -> (r: Option<Order>)
        ensures
            match r {
                Some(order) => self@.orders.contains_key(order_id@) && order@
                    == self@.orders[order_id@].order,
                None => !self@.orders.contains_key(order_id@),
            },
    {
        match tables::get_order(&self.orders, order_id) {
            Some(info) => Some(info.order),
            None => None,
        }
    }

    /// The known orders of an account, oldest first.
    pub fn query_user_orders(&self, user_id: &str) -> (r: Vec<Order>)
        ensures
            r@.map_values(|o: Order| o@) == known_ids(self@, user_id@).map_values(
                |id: Seq<char>| self@.orders[id].order,
            ),
    {
        let mut out: Vec<Order> = Vec::new();
        let details: Vec<NamedOrderDetail> = self.get_user_order_details(user_id);
        let ghost told = details@.map_values(|d: NamedOrderDetail| named_detail_view(d));
        let ghost known = known_ids(self@, user_id@);
        let mut i: usize = 0;
        while i < details.len()
            invariant
                i <= details@.len(),
                out@.len() == i,
                forall|j: int| 0 <= j < i ==> #[trigger] out@[j]@ == details@[j].1@,
            decreases details@.len() - i,
        {
            out.push(details[i].1.clone());
            i += 1;
        }
        assert(told.len() == details@.len());
        assert(told.len() == known.len());
        assert forall|j: int| 0 <= j < out@.len() implies #[trigger] out@[j]@
            == self@.orders[known[j]].order by {
            assert(told[j] == named_detail_view(details@[j]));
            assert(told[j] == named_detail_of(known[j], self@.orders[known[j]]));
        }
        assert(out@.map_values(|o: Order| o@) =~= known.map_values(
            |id: Seq<char>| self@.orders[id].order,
        ));
        out
    }

    /// The status of an order, where it is known.
    pub fn get_order_status(&self, order_id: &str) -> (r: Option<OrderStatus>)
        ensures
            match r {
                Some(status) => self@.orders.contains_key(order_id@) && status
                    == self@.orders[order_id@].status,
                None => !self@.orders.contains_key(order_id@),
            },
    {
        match tables::get_order(&self.orders, order_id) {
            Some(info) => Some(info.status),
            None => None,
        }
    }

    /// Sets the status of an order at a time. Where nothing more happens to the
    /// order, the risk checker is to drop it.
    pub fn update_order_status_at(&mut self, order_id: &str, status: OrderStatus, now: i64) -> (r:
        Result<Option<Effect>, ExchangeError>)
        ensures
            match r {
                Ok(effect) => old(self)@.orders.contains_key(order_id@) && final(self)@
                    == status_updated(old(self)@, order_id@, status, now) && match (effect, update_effect(old(self)@, order_id@, status)) {
                    (Some(e), Some(expected)) => e@ == expected,
                    (None, None) => true,
                    _ => false,
                },
                Err(e) => !old(self)@.orders.contains_key(order_id@) && final(self)@ == old(self)@
                    && e@ == ExchangeError::OrderError("Order not found: "@ + order_id@),
            },
    {
        match tables::get_order(&self.orders, order_id) {
            None => Err(ExchangeError::OrderError(text::joined("Order not found: ", order_id))),
            Some(info) => {
                let user_id: String = info.order.user_id.clone();
                tables::put_order(
                    &mut self.orders,
                    order_id.to_string(),
                    OrderRouteInfo { status, update_time: now, ..info },
                );
                if status.is_closed() {
                    Ok(Some(Effect::ReleaseActive { user_id, order_id: order_id.to_string() }))
                } else {
                    Ok(None)
                }
            },
        }
    }

    /// Sets the status of an order by the present time.
    pub fn update_order_status(&mut self, order_id: &str, status: OrderStatus) -> (r: Result<
        Option<Effect>,
        ExchangeError,
    >)
        ensures
            match r {
                Ok(effect) => old(self)@.orders.contains_key(order_id@) && (exists|now: i64|
                    final(self)@ == #[trigger] status_updated(
                        old(self)@,
                        order_id@,
                        status,
                        now,
                    )) && match (effect, update_effect(old(self)@, order_id@, status)) {
                    (Some(e), Some(expected)) => e@ == expected,
                    (None, None) => true,
                    _ => false,
                },
                Err(e) => !old(self)@.orders.contains_key(order_id@) && final(self)@ == old(self)@
                    && e@ == ExchangeError::OrderError("Order not found: "@ + order_id@),
            },
    {
        let clock: ClockReading = self.clock.read();
        self.update_order_status_at(order_id, status, clock.nanos)
    }

    /// The number of orders that rest in the matching engine.
    pub fn get_active_order_count(&self) -> (r: usize)
        ensures
            r == ids_with(self@, |status: OrderStatus| status.active()).len(),
    {
        self.get_order_statistics().pending_count
    }

    /// Counts the orders by their status.
    pub fn get_order_statistics(&self) -> (r: OrderStatistics)
        ensures
            r.total_count == self@.orders.dom().len(),
            r.pending_count == ids_with(self@, |status: OrderStatus| status.active()).len(),
            r.filled_count == ids_with(self@, |status: OrderStatus| status is Filled).len(),
            r.cancelled_count == ids_with(self@, |status: OrderStatus| status is Cancelled).len(),
            r.rejected_count == ids_with(self@, |status: OrderStatus| status is Rejected).len(),
    {
        let entries: Vec<(String, OrderRouteInfo)> = tables::all_orders(&self.orders);
        let ghost v = entries@;
        let ghost any = |status: OrderStatus| true;
        let ghost active = |status: OrderStatus| status.active();
        let ghost filled = |status: OrderStatus| status is Filled;
        let ghost cancelled = |status: OrderStatus| status is Cancelled;
        let ghost rejected = |status: OrderStatus| status is Rejected;
        let n: usize = entries.len();
        let mut stats: OrderStatistics = OrderStatistics {
            total_count: 0,
            pending_count: 0,
            filled_count: 0,
            cancelled_count: 0,
            rejected_count: 0,
        };
        let mut i: usize = 0;
        while i < n
            invariant
                i <= n,
                n == v.len(),
                v == entries@,
                forall|i: int, j: int|
                    0 <= i < j < v.len() ==> #[trigger] v[i].0@ != #[trigger] v[j].0@,
                any == (|status: OrderStatus| true),
                active == (|status: OrderStatus| status.active()),
                filled == (|status: OrderStatus| status is Filled),
                cancelled == (|status: OrderStatus| status is Cancelled),
                rejected == (|status: OrderStatus| status is Rejected),
                stats.total_count == seen(v, i as int, any).len(),
                stats.pending_count == seen(v, i as int, active).len(),
                stats.filled_count == seen(v, i as int, filled).len(),
                stats.cancelled_count == seen(v, i as int, cancelled).len(),
                stats.rejected_count == seen(v, i as int, rejected).len(),
            decreases n - i,
        {
            proof {
                seen_grows(v, i as int, any);
                seen_grows(v, i as int, active);
                seen_grows(v, i as int, filled);
                seen_grows(v, i as int, cancelled);
                seen_grows(v, i as int, rejected);
                seen_are_listed(v, i as int, any);
                seen_are_listed(v, i as int, active);
                seen_are_listed(v, i as int, filled);
                seen_are_listed(v, i as int, cancelled);
                seen_are_listed(v, i as int, rejected);
            }
            stats.total_count = stats.total_count + 1;
            match entries[i].1.status {
                OrderStatus::Submitted | OrderStatus::PartiallyFilled => {
                    stats.pending_count = stats.pending_count + 1;
                },
                OrderStatus::Filled => {
                    stats.filled_count = stats.filled_count + 1;
                },
                OrderStatus::Cancelled => {
                    stats.cancelled_count = stats.cancelled_count + 1;
                },
                OrderStatus::Rejected => {
                    stats.rejected_count = stats.rejected_count + 1;
                },
                _ => {},
            }
            i += 1;
        }
        proof {
            seen_in_all(self@, v, any);
            seen_in_all(self@, v, active);
            seen_in_all(self@, v, filled);
            seen_in_all(self@, v, cancelled);
            seen_in_all(self@, v, rejected);
            assert(ids_with(self@, any) =~= self@.orders.dom());
        }
        stats
    }

    /// The totals over all trades.
    pub fn get_trade_statistics(&self) -> (r: TradeStatistics)
        ensures
            r.total_count == self@.trade_count,
            r.total_volume == self@.trade_volume,
            r.total_amount == self@.trade_amount,
    {
        TradeStatistics {
            total_count: self.trade_count,
            total_volume: self.trade_volume,
            total_amount: self.trade_amount,
        }
    }

    /// What is told of an order, where it is known.
    pub fn get_order_detail(&self, order_id: &str) -> (r: Option<OrderDetail>)
        ensures
            match r {
                Some(d) => self@.orders.contains_key(order_id@) && detail_view(d) == detail_of(
                    self@.orders[order_id@],
                ),
                None => !self@.orders.contains_key(order_id@),
            },
    {
        match tables::get_order(&self.orders, order_id) {
            Some(info) => Some(
                (
                    info.order,
                    info.status,
                    info.submit_time,
                    info.update_time,
                    info.filled_volume,
                ),
            ),
            None => None,
        }
    }

    /// What is told of the known orders of an account, oldest first.
    pub fn get_user_order_details(&self, user_id: &str) -> (r: Vec<NamedOrderDetail>)
        ensures
            r@.map_values(|d: NamedOrderDetail| named_detail_view(d)) == known_ids(
                self@,
                user_id@,
            ).map_values(|id: Seq<char>| named_detail_of(id, self@.orders[id])),
    {
        let mut out: Vec<NamedOrderDetail> = Vec::new();
        let list: Vec<String> = match tables::get_list(&self.user_orders, user_id) {
            Some(list) => list,
            None => Vec::new(),
        };
        let ghost ids = self@.list_of(user_id@);
        let ghost p = |id: Seq<char>| self@.orders.contains_key(id);
        let ghost tell = |id: Seq<char>| named_detail_of(id, self@.orders[id]);
        let ghost show = |d: NamedOrderDetail| named_detail_view(d);
        assert(text::texts(list@) =~= ids);
        let n: usize = list.len();
        let mut i: usize = 0;
        assert(ids.take(0).filter(p) =~= Seq::empty()) by {
            reveal(Seq::filter);
        }
        assert(out@.map_values(show) =~= ids.take(0).filter(p).map_values(tell));
        while i < n
            invariant
                i <= n,
                n == list@.len(),
                ids == text::texts(list@),
                p == (|id: Seq<char>| self@.orders.contains_key(id)),
                tell == (|id: Seq<char>| named_detail_of(id, self@.orders[id])),
                show == (|d: NamedOrderDetail| named_detail_view(d)),
                out@.map_values(show) == ids.take(i as int).filter(p).map_values(tell),
            decreases n - i,
        {
            let ghost before = out@;
            let ghost shown = ids.take(i as int).filter(p);
            assert(ids.take(i + 1).drop_last() =~= ids.take(i as int));
            assert(ids.take(i + 1).last() == list@[i as int]@);
            assert(ids.take(i + 1).filter(p) == if p(list@[i as int]@) {
                shown.push(list@[i as int]@)
            } else {
                shown
            }) by {
                reveal(Seq::filter);
            }
            if let Some(info) = tables::get_order(&self.orders, &list[i]) {
                let detail: NamedOrderDetail = (
                    list[i].clone(),
                    info.order,
                    info.status,
                    info.submit_time,
                    info.update_time,
                    info.filled_volume,
                );
                out.push(detail);
                assert(out@.map_values(show) =~= before.map_values(show).push(show(detail)));
                assert(shown.push(list@[i as int]@).map_values(tell) =~= shown.map_values(
                    tell,
                ).push(tell(list@[i as int]@)));
            }
            i += 1;
        }
        assert(ids.take(n as int) =~= ids);
        out
    }

    /// What is told of all orders, each order once, in any order.
    pub fn get_all_orders(&self) -> (r: Vec<NamedOrderDetail>)
        ensures
            forall|i: int|
                0 <= i < r@.len() ==> self@.orders.contains_key(#[trigger] r@[i].0@)
                    && named_detail_view(r@[i]) == named_detail_of(
                    r@[i].0@,
                    self@.orders[r@[i].0@],
                ),
            forall|i: int, j: int|
                0 <= i < j < r@.len() ==> #[trigger] r@[i].0@ != #[trigger] r@[j].0@,
            forall|id: Seq<char>|
                self@.orders.contains_key(id) ==> exists|i: int|
                    0 <= i < r@.len() && #[trigger] r@[i].0@ == id,
    {
        let entries: Vec<(String, OrderRouteInfo)> = tables::all_orders(&self.orders);
        let mut out: Vec<NamedOrderDetail> = Vec::new();
        let n: usize = entries.len();
        let mut i: usize = 0;
        while i < n
            invariant
                i <= n,
                n == entries@.len(),
                out@.len() == i,
                forall|j: int|
                    0 <= j < i ==> #[trigger] out@[j].0@ == entries@[j].0@ && named_detail_view(
                        out@[j],
                    ) == named_detail_of(entries@[j].0@, entries@[j].1@),
            decreases n - i,
        {
            let info: OrderRouteInfo = entries[i].1.clone();
            out.push(
                (
                    entries[i].0.clone(),
                    info.order,
                    info.status,
                    info.submit_time,
                    info.update_time,
                    info.filled_volume,
                ),
            );
            i += 1;
        }
        assert forall|id: Seq<char>| self@.orders.contains_key(id) implies exists|i: int|
            0 <= i < out@.len() && #[trigger] out@[i].0@ == id by {
            let i = choose|i: int| 0 <= i < entries@.len() && #[trigger] entries@[i].0@ == id;
            assert(out@[i].0@ == id);
        }
        out
    }

    /// The number of orders.
    pub fn get_order_count(&self) -> (r: usize)
        ensures
            r == self@.orders.dom().len(),
    {
        tables::order_count(&self.orders)
    }
}

} // verus!
