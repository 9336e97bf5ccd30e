use qaexchange::book::{Level, OrderBook};
use qaexchange::clock::ClockReading;
use qaexchange::conditions::{TimeCondition, VolumeCondition};
use qaexchange::orders::{
    CancelOrderRequest, ExchangeError, Order, OrderStatus, QAOrder, SubmitOrderRequest,
    SubmitOrderResponse,
};
use qaexchange::protocol::{
    AccountLookup, Ask, Effect, MatchResult, OrderDirection, OrderToSend, OrderValidation, Reply,
    RiskCheckOutcome, Success,
};
use qaexchange::router::cancelling::Step;
use qaexchange::router::flushing::FlushTurn;
use qaexchange::router::restoring::HeldOrder;
use qaexchange::router::OrderRouter;
use std::collections::{BTreeMap, HashSet};

/// A number in ten-thousandths.
fn amount(x: f64) -> i64 {
    (x * 10_000.0).round() as i64
}

struct Resting {
    id: u64,
    buying: bool,
    price: i64,
    volume: i64,
}

/// An order book that matches by price and time.
struct Market {
    last_price: i64,
    resting: Vec<Resting>,
    next_id: u64,
}

impl Market {
    fn new(last_price: f64) -> Self {
        Market { last_price: amount(last_price), resting: Vec::new(), next_id: 1 }
    }

    fn side(&self, buying: bool) -> Option<Vec<Level>> {
        let mut v: Vec<&Resting> = self.resting.iter().filter(|r| r.buying == buying).collect();
        v.sort_by_key(|r| if buying { (-r.price, r.id) } else { (r.price, r.id) });
        Some(v.iter().map(|r| Level { price: r.price, volume: r.volume }).collect())
    }

    fn book(&self) -> OrderBook {
        OrderBook { bids: self.side(true), asks: self.side(false), last_price: self.last_price }
    }

    fn limit(&mut self, buying: bool, price: i64, volume: i64, ts: i64) -> Vec<MatchResult> {
        if volume <= 0 {
            return vec![MatchResult::Failed("ValidationFailed".to_string())];
        }
        let id = self.next_id;
        self.next_id += 1;
        let mut out = vec![MatchResult::Done(Success::Accepted { id, ts })];
        let mut left = volume;
        loop {
            let best = self
                .resting
                .iter()
                .enumerate()
                .filter(|(_, r)| {
                    r.buying != buying && if buying { r.price <= price } else { r.price >= price }
                })
                .min_by_key(|(_, r)| if buying { (r.price, r.id) } else { (-r.price, r.id) })
                .map(|(i, _)| i);
            let Some(i) = best else { break };
            let traded = left.min(self.resting[i].volume);
            left -= traded;
            self.resting[i].volume -= traded;
            let (maker, at) = (self.resting[i].id, self.resting[i].price);
            let maker_left = self.resting[i].volume;
            self.last_price = at;
            out.push(event(left == 0, id, at, traded, ts, maker));
            out.push(event(maker_left == 0, maker, at, traded, ts, id));
            if maker_left == 0 {
                self.resting.remove(i);
            }
            if left == 0 {
                break;
            }
        }
        if left > 0 {
            self.resting.push(Resting { id, buying, price, volume: left });
        }
        out
    }

    fn cancel(&mut self, id: u64, ts: i64) -> Vec<MatchResult> {
        match self.resting.iter().position(|r| r.id == id) {
            Some(i) => {
                self.resting.remove(i);
                vec![MatchResult::Done(Success::Cancelled { id, ts })]
            }
            None => vec![MatchResult::Failed("OrderNotFound".to_string())],
        }
    }
}

fn event(filled: bool, order_id: u64, price: i64, volume: i64, ts: i64, opposite: u64) -> MatchResult {
    MatchResult::Done(if filled {
        Success::Filled { order_id, price, volume, ts, opposite_order_id: opposite }
    } else {
        Success::PartiallyFilled { order_id, price, volume, ts, opposite_order_id: opposite }
    })
}

/// The exchange around a router.
struct Exchange {
    router: OrderRouter,
    money: BTreeMap<String, i64>,
    markets: BTreeMap<String, Market>,
    risk: Option<(String, u32)>,
    trading: Option<String>,
    refuse_reports: bool,
    effects: Vec<Effect>,
    asked: Vec<String>,
    sent: u64,
}

fn create_test_router() -> Exchange {
    let mut money = BTreeMap::new();
    money.insert("test_user".to_string(), amount(1_000_000.0));
    let mut markets = BTreeMap::new();
    markets.insert("IX2301".to_string(), Market::new(120.0));
    Exchange {
        router: OrderRouter::new(),
        money,
        markets,
        risk: None,
        trading: None,
        refuse_reports: false,
        effects: Vec::new(),
        asked: Vec::new(),
        sent: 0,
    }
}

impl Exchange {
    fn open_account(&mut self, id: &str) {
        self.money.insert(id.to_string(), amount(1_000_000.0));
    }

    fn send(&mut self, o: &OrderToSend) -> Reply {
        self.sent += 1;
        let (direction, offset) = match o.towards {
            2 => ("BUY", "OPEN"),
            -2 => ("SELL", "OPEN"),
            3 => ("BUY", "CLOSE"),
            -3 => ("SELL", "CLOSE"),
            4 => ("BUY", "CLOSETODAY"),
            _ => ("SELL", "CLOSETODAY"),
        };
        Reply::Sent {
            qa_order_id: format!("QA{}", self.sent),
            order: QAOrder {
                user_id: o.account_id.clone(),
                order_id: o.order_id.clone(),
                exchange_id: o.exchange_id.clone(),
                instrument_id: o.instrument_id.clone(),
                direction: direction.to_string(),
                offset: offset.to_string(),
                volume: o.volume,
                price_type: o.order_type.clone(),
                limit_price: o.price,
                time_condition: "GFD".to_string(),
                volume_condition: "ANY".to_string(),
                exchange_order_id: String::new(),
                volume_left: o.volume,
                last_msg: String::new(),
            },
        }
    }

    fn reply(&mut self, ask: Ask) -> Reply {
        let name = format!("{:?}", ask);
        self.asked.push(name.split(|c| c == ' ' || c == '(').next().unwrap().to_string());
        match ask {
            Ask::Book { instrument_id } => {
                Reply::Book(self.markets.get(&instrument_id).map(|m| m.book()))
            }
            Ask::ValidateOrder { .. } | Ask::ValidateCancel { .. } => {
                Reply::Trading(match &self.trading {
                    Some(reason) => OrderValidation::Rejected(reason.clone()),
                    None => OrderValidation::Allowed,
                })
            }
            Ask::CheckRisk(_) => Reply::Risk(match &self.risk {
                Some((reason, 0)) => RiskCheckOutcome::Error(reason.clone()),
                Some((reason, code)) => {
                    RiskCheckOutcome::Reject { reason: reason.clone(), code: *code }
                }
                None => RiskCheckOutcome::Pass,
            }),
            Ask::Balance { account_id } => Reply::Account(match self.money.get(&account_id) {
                Some(m) => AccountLookup::Found(*m),
                None => AccountLookup::Missing(account_id),
            }),
            Ask::LockedBalance { account_id } => Reply::Locked(self.money[&account_id]),
            Ask::SendOrder(o) => self.send(&o),
            Ask::RegisterActive(_) => Reply::Done,
            Ask::FindBook { instrument_id } => {
                Reply::BookFound(self.markets.contains_key(&instrument_id))
            }
            Ask::MatchLimit { instrument_id, direction, price, volume, timestamp } => {
                let market = self.markets.get_mut(&instrument_id).unwrap();
                Reply::Matched(market.limit(
                    direction == OrderDirection::BUY,
                    price,
                    volume,
                    timestamp,
                ))
            }
            Ask::MatchCancel { instrument_id, id, .. } => {
                Reply::Matched(self.markets.get_mut(&instrument_id).unwrap().cancel(id, 7))
            }
            Ask::Perform(effect) => {
                let refused = self.refuse_reports && effect.is_fallible();
                self.effects.push(effect);
                if refused {
                    Reply::Failed("gateway down".to_string())
                } else {
                    Reply::Done
                }
            }
        }
    }

    fn submit_order(&mut self, request: SubmitOrderRequest) -> SubmitOrderResponse {
        let mut step = self.router.submit_order(request);
        loop {
            match step {
                Step::Finished(response) => return response,
                Step::Pending(flow) => {
                    let reply = self.reply(flow.pending());
                    step = self.router.answer(flow, reply);
                }
            }
        }
    }

    fn submit_order_at(&mut self, request: SubmitOrderRequest, moment: u64) -> SubmitOrderResponse {
        let clock = ClockReading {
            nanos: 1_000 + moment as i64,
            millis: 77,
            seconds: 5,
            moment,
            local_time: "2025-01-01 09:00:00".to_string(),
        };
        let mut step = self.router.submit_order_with_options(request, false, clock.millis);
        loop {
            match step {
                Step::Finished(response) => return response,
                Step::Pending(flow) => {
                    let reply = self.reply(flow.pending());
                    step = self.router.answer_at(flow, reply, &clock);
                }
            }
        }
    }

    fn submit_force_order(&mut self, request: SubmitOrderRequest) -> SubmitOrderResponse {
        let mut step = self.router.submit_force_order(request);
        loop {
            match step {
                Step::Finished(response) => return response,
                Step::Pending(flow) => {
                    let reply = self.reply(flow.pending());
                    step = self.router.answer(flow, reply);
                }
            }
        }
    }

    fn cancel_order(&mut self, request: CancelOrderRequest) -> Result<(), ExchangeError> {
        let mut step = self.router.cancel_order(request);
        loop {
            match step {
                Step::Finished(result) => return result,
                Step::Pending(flow) => {
                    let reply = self.reply(flow.pending());
                    step = self.router.answer_cancel(flow, reply);
                }
            }
        }
    }

    fn restore(&mut self, held: Vec<HeldOrder>) {
        let mut step = self.router.restore_orders_from_accounts(held);
        while let Step::Pending(flow) = step {
            let reply = self.reply(flow.pending());
            step = self.router.answer_restore(flow, reply);
        }
    }
}

fn order(account: &str, direction: &str, volume: f64, price: f64) -> SubmitOrderRequest {
    SubmitOrderRequest {
        account_id: account.to_string(),
        instrument_id: "IX2301".to_string(),
        direction: direction.to_string(),
        offset: "OPEN".to_string(),
        volume: amount(volume),
        price: amount(price),
        order_type: "LIMIT".to_string(),
        time_condition: None,
        volume_condition: None,
    }
}

fn buy(volume: f64, price: f64) -> SubmitOrderRequest {
    order("test_user", "BUY", volume, price)
}

fn cancel(account: &str, id: &str) -> CancelOrderRequest {
    CancelOrderRequest { account_id: account.to_string(), order_id: id.to_string() }
}

fn kinds(effects: &[Effect]) -> Vec<String> {
    effects
        .iter()
        .map(|e| format!("{:?}", e).split(' ').next().unwrap().to_string())
        .collect()
}

#[test]
fn test_submit_order() {
    let mut router = create_test_router();
    let response = router.submit_order(buy(10.0, 120.0));
    assert!(response.success);
    assert!(response.order_id.is_some());
    assert!(response.error_message.is_none());
    assert_eq!(response.status.as_deref(), Some("submitted"));
    assert_eq!(response.error_code, None);
}

#[test]
fn test_submit_order_insufficient_funds() {
    let mut router = create_test_router();
    let response = router.submit_order(buy(100000.0, 1000.0));
    assert!(!response.success);
    assert!(response.error_message.is_some());
    assert_eq!(
        response.error_message.as_deref(),
        Some("Insufficient funds: available=1000000.00, required=100030000.00")
    );
    assert_eq!(response.error_code, Some(4001));
    assert_eq!(router.router.get_order_count(), 0);
}

#[test]
fn test_query_order() {
    let mut router = create_test_router();
    let response = router.submit_order(buy(10.0, 120.0));
    assert!(response.success);
    let order_id = response.order_id.unwrap();
    let order = router.router.query_order(&order_id);
    assert!(order.is_some());
    let order = order.unwrap();
    assert_eq!(order.user_id, "test_user");
    assert_eq!(order.instrument_id, "IX2301");
}

#[test]
fn test_query_user_orders() {
    let mut router = create_test_router();
    for i in 0..3 {
        router.submit_order(buy(10.0 + i as f64, 120.0));
    }
    let orders = router.router.query_user_orders("test_user");
    assert_eq!(orders.len(), 3);
    let volumes: Vec<i64> = orders.iter().map(|o| o.volume_orign).collect();
    assert_eq!(volumes, vec![amount(10.0), amount(11.0), amount(12.0)]);
}

#[test]
fn test_generate_order_id() {
    let mut router = create_test_router().router;
    let id1 = router.generate_order_id();
    let id2 = router.generate_order_id();
    assert_ne!(id1, id2);
    assert!(id1.starts_with('O'));
    assert!(id2.starts_with('O'));
}

#[test]
fn test_complete_order_flow_with_matching() {
    let mut router = create_test_router();
    router.open_account("test_user_2");
    let buy_response = router.submit_order(buy(10.0, 120.0));
    assert!(buy_response.success, "Buy order submission failed: {:?}", buy_response.error_message);
    let buy_order_id = buy_response.order_id.unwrap();
    let sell_response = router.submit_order(order("test_user_2", "SELL", 5.0, 120.0));
    assert!(sell_response.success, "Sell order submission failed: {:?}", sell_response.error_message);
    let sell_order_id = sell_response.order_id.unwrap();
    assert_eq!(sell_response.status.as_deref(), Some("filled"));
    assert!(router.router.query_order(&buy_order_id).is_some());
    assert_eq!(router.router.get_order_status(&buy_order_id), Some(OrderStatus::PartiallyFilled));
    assert_eq!(router.router.get_order_status(&sell_order_id), Some(OrderStatus::Filled));
    let stats = router.router.get_trade_statistics();
    assert_eq!(stats.total_count, 2);
    assert_eq!(stats.total_volume, amount(10.0) as i128);
    assert_eq!(stats.total_amount, 2 * 5 * 120 * 100_000_000);
    assert!(router.money["test_user"] > 0, "Account balance should be positive");
    let trades: Vec<(String, bool, Option<String>, Option<String>)> = router
        .effects
        .iter()
        .filter_map(|e| match e {
            Effect::TradeReport { order_id, is_taker, opposite_user, opposite_order, .. } => Some((
                order_id.clone(),
                *is_taker,
                opposite_user.clone(),
                opposite_order.clone(),
            )),
            _ => None,
        })
        .collect();
    assert_eq!(
        trades,
        vec![
            (
                sell_order_id.clone(),
                true,
                Some("test_user".to_string()),
                Some(buy_order_id.clone())
            ),
            (buy_order_id, false, Some("test_user_2".to_string()), Some(sell_order_id)),
        ]
    );
}

#[test]
fn test_cancel_order_not_found() {
    let mut router = create_test_router();
    let result = router.cancel_order(cancel("test_user", "NON_EXISTENT_ORDER"));
    assert!(result.is_err());
    if let Err(ExchangeError::OrderError(msg)) = result {
        assert!(msg.contains("Order not found"));
        assert_eq!(msg, "Order not found: NON_EXISTENT_ORDER");
    } else {
        panic!("Expected OrderError");
    }
}

#[test]
fn test_cancel_order_wrong_owner() {
    let mut router = create_test_router();
    router.open_account("test_user_2");
    let response = router.submit_order(buy(10.0, 120.0));
    assert!(response.success);
    let order_id = response.order_id.unwrap();
    let result = router.cancel_order(cancel("test_user_2", &order_id));
    assert!(result.is_err());
    if let Err(ExchangeError::OrderError(msg)) = result {
        assert!(msg.contains("does not belong"));
    } else {
        panic!("Expected OrderError about ownership");
    }
    assert_eq!(router.router.get_order_status(&order_id), Some(OrderStatus::Submitted));
}

#[test]
fn test_get_order_statistics_empty() {
    let router = create_test_router().router;
    let stats = router.get_order_statistics();
    assert_eq!(stats.total_count, 0);
    assert_eq!(stats.pending_count, 0);
    assert_eq!(stats.filled_count, 0);
    assert_eq!(stats.cancelled_count, 0);
    assert_eq!(stats.rejected_count, 0);
}

#[test]
fn test_get_order_statistics_after_submit() {
    let mut router = create_test_router();
    router.submit_order(buy(10.0, 120.0));
    let stats = router.router.get_order_statistics();
    assert_eq!(stats.total_count, 1);
    assert_eq!(stats.pending_count, 1);
}

#[test]
fn test_get_order_statistics_multiple() {
    let mut router = create_test_router();
    for _ in 0..5 {
        router.submit_order(buy(1.0, 120.0));
    }
    let stats = router.router.get_order_statistics();
    assert_eq!(stats.total_count, 5);
}

#[test]
fn test_get_trade_statistics_empty() {
    let router = create_test_router().router;
    let stats = router.get_trade_statistics();
    assert_eq!(stats.total_count, 0);
    assert_eq!(stats.total_volume, 0);
    assert_eq!(stats.total_amount, 0);
}

#[test]
fn test_get_order_detail_not_found() {
    let router = create_test_router().router;
    let detail = router.get_order_detail("NON_EXISTENT");
    assert!(detail.is_none());
}

#[test]
fn test_get_order_detail_exists() {
    let mut router = create_test_router();
    let response = router.submit_order(buy(10.0, 120.0));
    assert!(response.success);
    let order_id = response.order_id.unwrap();
    let detail = router.router.get_order_detail(&order_id);
    assert!(detail.is_some());
    let (order, status, submit_time, update_time, filled_volume) = detail.unwrap();
    assert_eq!(order.user_id, "test_user");
    assert_eq!(order.instrument_id, "IX2301");
    assert_eq!(status, OrderStatus::Submitted);
    assert!(submit_time > 0);
    assert!(update_time >= submit_time);
    assert_eq!(filled_volume, 0);
}

#[test]
fn test_get_user_order_details_not_found() {
    let router = create_test_router().router;
    let details = router.get_user_order_details("NON_EXISTENT_USER");
    assert!(details.is_empty());
}

#[test]
fn test_get_user_order_details_exists() {
    let mut router = create_test_router();
    for i in 0..3 {
        router.submit_order(buy(1.0 + i as f64, 120.0));
    }
    let details = router.router.get_user_order_details("test_user");
    assert_eq!(details.len(), 3);
    for (order_id, order, _status, submit_time, update_time, _filled) in details {
        assert!(!order_id.is_empty());
        assert_eq!(order.user_id, "test_user");
        assert!(submit_time > 0);
        assert!(update_time >= submit_time);
    }
}

#[test]
fn test_get_all_orders_empty() {
    let router = create_test_router().router;
    let orders = router.get_all_orders();
    assert!(orders.is_empty());
}

#[test]
fn test_get_all_orders_multiple_users() {
    let mut router = create_test_router();
    router.open_account("test_user_2");
    for _ in 0..2 {
        router.submit_order(buy(1.0, 120.0));
    }
    for _ in 0..3 {
        router.submit_order(order("test_user_2", "SELL", 1.0, 120.0));
    }
    let orders = router.router.get_all_orders();
    assert_eq!(orders.len(), 5);
    let ids: HashSet<String> = orders.iter().map(|o| o.0.clone()).collect();
    assert_eq!(ids.len(), 5);
}

#[test]
fn test_get_order_count_empty() {
    let router = create_test_router().router;
    assert_eq!(router.get_order_count(), 0);
}

#[test]
fn test_get_order_count_growth() {
    let mut router = create_test_router();
    for i in 0..10 {
        router.submit_order(buy(1.0, 120.0));
        assert_eq!(router.router.get_order_count(), i + 1);
    }
}

#[test]
fn test_query_order_not_found() {
    let router = create_test_router().router;
    let order = router.query_order("NON_EXISTENT");
    assert!(order.is_none());
}

#[test]
fn test_query_user_orders_not_found() {
    let router = create_test_router().router;
    let orders = router.query_user_orders("NON_EXISTENT_USER");
    assert!(orders.is_empty());
}

#[test]
fn test_generate_order_id_unique() {
    let mut router = create_test_router().router;
    let mut ids = HashSet::new();
    for _ in 0..1000 {
        let id = router.generate_order_id();
        assert!(ids.insert(id.clone()), "Duplicate order ID generated: {}", id);
    }
}

#[test]
fn test_generate_order_id_format() {
    let mut router = create_test_router().router;
    for _ in 0..10 {
        let id = router.generate_order_id();
        assert!(id.starts_with('O'), "Order ID should start with 'O': {}", id);
        assert!(id.len() > 10, "Order ID should be longer than 10 chars: {}", id);
    }
}

#[test]
fn test_submit_limit_order() {
    let mut router = create_test_router();
    let mut req = buy(10.0, 120.0);
    req.time_condition = Some(TimeCondition::GFD);
    req.volume_condition = Some(VolumeCondition::ANY);
    let response = router.submit_order(req);
    assert!(response.success);
}

#[test]
fn test_submit_sell_order() {
    let mut router = create_test_router();
    let response = router.submit_order(order("test_user", "SELL", 5.0, 120.0));
    assert!(response.success);
}

#[test]
fn test_submit_ioc_order() {
    let mut router = create_test_router();
    let mut req = buy(5.0, 120.0);
    req.time_condition = Some(TimeCondition::IOC);
    req.volume_condition = Some(VolumeCondition::ANY);
    let response = router.submit_order(req);
    assert!(response.order_id.is_some() || response.error_message.is_some());
    assert_eq!(response.status.as_deref(), Some("cancelled"));
}

#[test]
fn test_submit_gtc_order() {
    let mut router = create_test_router();
    let mut req = buy(5.0, 120.0);
    req.time_condition = Some(TimeCondition::GTC);
    let response = router.submit_order(req);
    assert!(response.success);
}

#[test]
fn test_submit_fok_order() {
    let mut router = create_test_router();
    let mut req = buy(5.0, 120.0);
    req.time_condition = Some(TimeCondition::IOC);
    req.volume_condition = Some(VolumeCondition::ALL);
    let response = router.submit_order(req);
    assert!(response.order_id.is_some() || response.error_message.is_some());
    assert_eq!(response.error_code, Some(4010));
    assert_eq!(
        response.error_message.as_deref(),
        Some("FOK order cannot be fully filled immediately")
    );
}

#[test]
fn test_submit_order_instrument_not_found() {
    let mut router = create_test_router();
    let mut req = buy(10.0, 100.0);
    req.instrument_id = "NON_EXISTENT_INSTRUMENT".to_string();
    let response = router.submit_order(req);
    assert!(!response.success);
    assert!(response.error_message.is_some());
    assert_eq!(
        response.error_message.as_deref(),
        Some("Routing error: Orderbook not found for instrument: NON_EXISTENT_INSTRUMENT")
    );
    assert_eq!(response.error_code, Some(5000));
    let id = response.order_id.unwrap();
    assert_eq!(router.router.get_order_status(&id), Some(OrderStatus::Rejected));
}

#[test]
fn test_submit_order_account_not_found() {
    let mut router = create_test_router();
    let response = router.submit_order(order("NON_EXISTENT_ACCOUNT", "BUY", 10.0, 120.0));
    assert!(!response.success);
    assert!(response.error_message.is_some());
    assert_eq!(
        response.error_message.as_deref(),
        Some("Account not found: NON_EXISTENT_ACCOUNT")
    );
    assert_eq!(response.error_code, Some(4000));
}

#[test]
fn test_submit_order_zero_price() {
    let mut router = create_test_router();
    let response = router.submit_order(buy(10.0, 0.0));
    assert!(response.order_id.is_some() || response.error_message.is_some());
}

#[test]
fn test_submit_order_zero_volume() {
    let mut router = create_test_router();
    let response = router.submit_order(buy(0.0, 120.0));
    assert!(response.order_id.is_some() || response.error_message.is_some());
}

#[test]
fn test_submit_order_negative_volume() {
    let mut router = create_test_router();
    let response = router.submit_order(buy(-10.0, 120.0));
    assert!(response.order_id.is_some() || response.error_message.is_some());
}

#[test]
fn market_orders_take_the_opposite_best_price() {
    let mut router = create_test_router();
    router.open_account("maker");
    router.submit_order(order("maker", "SELL", 3.0, 121.5));
    let mut req = buy(2.0, 0.0);
    req.order_type = "MARKET".to_string();
    let response = router.submit_order(req);
    assert_eq!(response.status.as_deref(), Some("filled"));
    let order = router.router.query_order(&response.order_id.unwrap()).unwrap();
    assert_eq!(order.limit_price, amount(121.5));
    // Without an order on the other side, the last price counts.
    let mut req = order_at_market("SELL");
    req.volume = amount(1.0);
    let response = router.submit_order(req);
    let order = router.router.query_order(&response.order_id.unwrap()).unwrap();
    assert_eq!(order.limit_price, amount(121.5));
}

fn order_at_market(direction: &str) -> SubmitOrderRequest {
    let mut req = order("test_user", direction, 1.0, 0.0);
    req.order_type = "MARKET".to_string();
    req
}

#[test]
fn market_orders_without_a_price_are_refused() {
    let mut router = create_test_router();
    router.markets.get_mut("IX2301").unwrap().last_price = 0;
    let response = router.submit_order(order_at_market("BUY"));
    assert!(!response.success);
    assert_eq!(response.error_code, Some(4002));
    assert_eq!(
        response.error_message.as_deref(),
        Some("No market price available for instrument IX2301")
    );
    assert_eq!(router.router.get_order_count(), 0);
}

#[test]
fn the_trading_state_is_asked_where_it_is_attached() {
    let mut router = create_test_router();
    router.trading = Some("market closed".to_string());
    assert!(router.submit_order(buy(1.0, 120.0)).success);
    router.router.set_trading_state_machine();
    assert!(router.router.get_trading_state_machine());
    let response = router.submit_order(buy(1.0, 120.0));
    assert_eq!(response.error_code, Some(4100));
    assert_eq!(response.error_message.as_deref(), Some("market closed"));
    // Forced orders are no exception.
    assert_eq!(router.submit_force_order(buy(1.0, 120.0)).error_code, Some(4100));
}

#[test]
fn the_risk_check_rejects_and_fails() {
    let mut router = create_test_router();
    router.risk = Some(("too large".to_string(), 1003));
    let response = router.submit_order(buy(1.0, 120.0));
    assert_eq!(response.error_code, Some(1003));
    assert_eq!(response.error_message.as_deref(), Some("too large"));
    router.risk = Some(("no data".to_string(), 0));
    let response = router.submit_order(buy(1.0, 120.0));
    assert_eq!(response.error_code, Some(9999));
    assert_eq!(response.error_message.as_deref(), Some("Risk check error: no data"));
    assert_eq!(router.router.get_order_count(), 0);
}

#[test]
fn forced_orders_skip_risk_funds_and_depth() {
    let mut router = create_test_router();
    router.risk = Some(("too large".to_string(), 1003));
    let mut req = buy(100000.0, 1000.0);
    req.time_condition = Some(TimeCondition::IOC);
    req.volume_condition = Some(VolumeCondition::ALL);
    let response = router.submit_force_order(req);
    assert!(response.success);
    assert!(!router.asked.contains(&"CheckRisk".to_string()));
    assert!(!router.asked.contains(&"LockedBalance".to_string()));
    assert!(router.asked.contains(&"SendOrder".to_string()));
}

#[test]
fn funds_depend_on_direction_and_offset() {
    // To open by selling takes a fifth, to close only the commission.
    let mut router = create_test_router();
    router.money.insert("test_user".to_string(), amount(240.36));
    assert!(router.submit_order(order("test_user", "SELL", 10.0, 120.0)).success);
    router.money.insert("test_user".to_string(), amount(240.35));
    let response = router.submit_order(order("test_user", "SELL", 10.0, 120.0));
    assert_eq!(
        response.error_message.as_deref(),
        Some("Insufficient funds: available=240.35, required=240.36")
    );
    let mut req = order("test_user", "SELL", 10.0, 120.0);
    req.offset = "CLOSE".to_string();
    router.money.insert("test_user".to_string(), amount(0.36));
    assert!(router.submit_order(req).success);
}

#[test]
fn an_order_that_the_account_layer_refuses_is_not_stored() {
    let mut router = create_test_router();
    let mut step = router.router.submit_order(buy(1.0, 120.0));
    loop {
        match step {
            Step::Finished(response) => {
                assert_eq!(response.error_code, Some(4001));
                assert_eq!(
                    response.error_message.as_deref(),
                    Some("Insufficient funds/margin: no margin")
                );
                break;
            }
            Step::Pending(flow) => {
                let ask = flow.pending();
                let reply = if matches!(ask, Ask::SendOrder(_)) {
                    Reply::Refused("no margin".to_string())
                } else {
                    router.reply(ask)
                };
                step = router.router.answer(flow, reply);
            }
        }
    }
    assert_eq!(router.router.get_order_count(), 0);
    assert!(router.router.query_user_orders("test_user").is_empty());
}

#[test]
fn an_answer_to_another_question_changes_nothing() {
    let mut router = create_test_router();
    let step = router.router.submit_order(buy(1.0, 120.0));
    let Step::Pending(flow) = step else { panic!("the flow should wait") };
    assert!(matches!(flow.pending(), Ask::CheckRisk(_)));
    let Step::Pending(flow) = router.router.answer(flow, Reply::Done) else {
        panic!("the flow should wait")
    };
    assert!(matches!(flow.pending(), Ask::CheckRisk(_)));
}

#[test]
fn immediate_orders_keep_what_was_filled() {
    let mut router = create_test_router();
    router.open_account("maker");
    router.submit_order(order("maker", "SELL", 2.0, 120.0));
    let mut req = buy(5.0, 120.0);
    req.time_condition = Some(TimeCondition::IOC);
    let response = router.submit_order(req);
    assert!(response.success);
    assert_eq!(response.status.as_deref(), Some("cancelled"));
    let id = response.order_id.unwrap();
    let (_, status, _, _, filled) = router.router.get_order_detail(&id).unwrap();
    assert_eq!(status, OrderStatus::Cancelled);
    assert_eq!(filled, amount(2.0));
    let reports: Vec<i64> = router
        .effects
        .iter()
        .filter_map(|e| match e {
            Effect::CancelReport { remaining, .. } => Some(*remaining),
            _ => None,
        })
        .collect();
    assert_eq!(reports, vec![amount(3.0)]);
}

#[test]
fn fill_or_kill_orders_are_filled_where_there_is_depth() {
    let mut router = create_test_router();
    router.open_account("maker");
    router.submit_order(order("maker", "SELL", 2.0, 119.0));
    router.submit_order(order("maker", "SELL", 3.0, 120.0));
    router.submit_order(order("maker", "SELL", 3.0, 121.0));
    let mut req = buy(6.0, 120.0);
    req.time_condition = Some(TimeCondition::IOC);
    req.volume_condition = Some(VolumeCondition::ALL);
    assert_eq!(router.submit_order(req.clone()).error_code, Some(4010));
    req.volume = amount(5.0);
    let response = router.submit_order(req);
    assert!(response.success);
    let id = response.order_id.unwrap();
    // The first trade is booked on the order, the later ones add to it.
    assert_eq!(router.router.get_order_status(&id), Some(OrderStatus::Filled));
    let (_, _, _, _, filled) = router.router.get_order_detail(&id).unwrap();
    assert_eq!(filled, amount(5.0));
}

#[test]
fn an_order_that_fills_in_two_trades_has_its_volume_filled() {
    let mut router = create_test_router();
    router.open_account("maker");
    let a = router.submit_order(order("maker", "SELL", 2.0, 119.0)).order_id.unwrap();
    let b = router.submit_order(order("maker", "SELL", 4.0, 120.0)).order_id.unwrap();
    let id = router.submit_order(buy(5.0, 120.0)).order_id.unwrap();
    let (_, status, _, _, filled) = router.router.get_order_detail(&id).unwrap();
    assert_eq!((status, filled), (OrderStatus::Filled, amount(5.0)));
    // Both trades are reported for both sides, and the order took them.
    let reports: Vec<(String, i64, bool)> = router
        .effects
        .iter()
        .filter_map(|e| match e {
            Effect::TradeReport { order_id, volume, is_taker, .. } => {
                Some((order_id.clone(), *volume, *is_taker))
            }
            _ => None,
        })
        .collect();
    assert_eq!(
        reports,
        vec![
            (id.clone(), amount(2.0), true),
            (a.clone(), amount(2.0), false),
            (id.clone(), amount(3.0), true),
            (b.clone(), amount(3.0), false),
        ]
    );
    // What rests fills up as well.
    router.submit_order(buy(1.0, 120.0));
    let (_, status, _, _, filled) = router.router.get_order_detail(&b).unwrap();
    assert_eq!((status, filled), (OrderStatus::Filled, amount(4.0)));
    let totals = router.router.get_trade_statistics();
    assert_eq!(totals.total_count, 6);
}

#[test]
fn forced_orders_succeed_where_others_are_refused() {
    let mut router = create_test_router();
    router.risk = Some(("limit".to_string(), 4321));
    router.money.insert("test_user".to_string(), 0);
    assert_eq!(router.submit_order(buy(5.0, 120.0)).error_code, Some(4321));
    router.risk = None;
    assert_eq!(router.submit_order(buy(5.0, 120.0)).error_code, Some(4001));
    router.risk = Some(("limit".to_string(), 4321));
    let response = router.submit_force_order(buy(5.0, 120.0));
    assert!(response.success);
    assert_eq!((response.error_code, response.error_message), (None, None));
    assert_eq!(response.status.as_deref(), Some("submitted"));
}

#[test]
fn cancelling_closes_the_order_and_only_once() {
    let mut router = create_test_router();
    let id = router.submit_order(buy(5.0, 120.0)).order_id.unwrap();
    assert_eq!(router.router.get_active_order_count(), 1);
    assert!(router.cancel_order(cancel("test_user", &id)).is_ok());
    assert_eq!(router.router.get_order_status(&id), Some(OrderStatus::Cancelled));
    assert_eq!(router.router.get_active_order_count(), 0);
    let stats = router.router.get_order_statistics();
    assert_eq!((stats.total_count, stats.cancelled_count), (1, 1));
    match router.cancel_order(cancel("test_user", &id)) {
        Err(ExchangeError::OrderError(m)) => {
            assert_eq!(m, "Order cannot be cancelled in status: Cancelled")
        }
        other => panic!("unexpected {:?}", other),
    }
}

#[test]
fn cancelling_is_refused_by_the_trading_state() {
    let mut router = create_test_router();
    let id = router.submit_order(buy(5.0, 120.0)).order_id.unwrap();
    router.router.set_trading_state_machine();
    router.trading = Some("auction".to_string());
    match router.cancel_order(cancel("test_user", &id)) {
        Err(ExchangeError::OrderError(m)) => {
            assert_eq!(m, "Cancel rejected by trading state: auction")
        }
        other => panic!("unexpected {:?}", other),
    }
    router.trading = None;
    assert!(router.cancel_order(cancel("test_user", &id)).is_ok());
}

#[test]
fn cancelling_fails_where_the_engine_fails() {
    let mut router = create_test_router();
    let id = router.submit_order(buy(5.0, 120.0)).order_id.unwrap();
    router.markets.get_mut("IX2301").unwrap().resting.clear();
    match router.cancel_order(cancel("test_user", &id)) {
        Err(ExchangeError::MatchingError(m)) => assert_eq!(m, "Cancel order failed: OrderNotFound"),
        other => panic!("unexpected {:?}", other),
    }
    router.markets.clear();
    match router.cancel_order(cancel("test_user", &id)) {
        Err(ExchangeError::MatchingError(m)) => {
            assert_eq!(m, "Orderbook not found for instrument: IX2301")
        }
        other => panic!("unexpected {:?}", other),
    }
    assert_eq!(router.router.get_order_status(&id), Some(OrderStatus::Submitted));
}

#[test]
fn a_report_that_fails_rejects_the_order() {
    let mut router = create_test_router();
    router.refuse_reports = true;
    let response = router.submit_order(buy(5.0, 120.0));
    assert!(!response.success);
    assert_eq!(response.error_code, Some(5000));
    assert_eq!(response.error_message.as_deref(), Some("Routing error: gateway down"));
    let id = response.order_id.unwrap();
    assert_eq!(router.router.get_order_status(&id), Some(OrderStatus::Rejected));
    assert_eq!(router.router.get_order_statistics().rejected_count, 1);
}

#[test]
fn a_report_that_fails_while_cancelling_is_passed_over() {
    let mut router = create_test_router();
    let id = router.submit_order(buy(5.0, 120.0)).order_id.unwrap();
    router.refuse_reports = true;
    router.effects.clear();
    assert!(router.cancel_order(cancel("test_user", &id)).is_ok());
    assert_eq!(kinds(&router.effects), vec!["CancelReport"]);
    assert_eq!(router.router.get_order_status(&id), Some(OrderStatus::Cancelled));
}

#[test]
fn a_rejection_is_reported_before_it_is_marked() {
    for report in [Reply::Done, Reply::Failed("gateway down".to_string())] {
        let mut report = Some(report);
        let mut router = create_test_router();
        let mut step = router.router.submit_order(buy(0.0, 120.0));
        let response = loop {
            match step {
                Step::Finished(response) => break response,
                Step::Pending(flow) => {
                    let ask = flow.pending();
                    let reply = if let Ask::Perform(Effect::RejectedReport { order_id, .. }) = &ask {
                        assert_eq!(
                            router.router.get_order_status(order_id),
                            Some(OrderStatus::PendingRoute)
                        );
                        report.take().unwrap()
                    } else {
                        router.reply(ask)
                    };
                    step = router.router.answer(flow, reply);
                }
            }
        };
        assert!(report.is_none());
        assert!(response.success);
        assert_eq!(response.status.as_deref(), Some("rejected"));
        let id = response.order_id.unwrap();
        assert_eq!(router.router.get_order_status(&id), Some(OrderStatus::Rejected));
    }
}

#[test]
fn an_order_that_the_engine_fails_is_rejected() {
    let mut router = create_test_router();
    let response = router.submit_order(buy(0.0, 120.0));
    assert!(response.success);
    assert_eq!(response.status.as_deref(), Some("rejected"));
    assert_eq!(kinds(&router.effects), vec!["RejectedReport"]);
}

#[test]
fn effects_come_in_order() {
    let mut router = create_test_router();
    router.open_account("maker");
    router.router.set_storage();
    router.router.set_market_broadcaster();
    router.submit_order(order("maker", "SELL", 2.0, 120.0));
    assert_eq!(
        kinds(&router.effects),
        vec!["AcceptedReport", "BroadcastVolume", "WriteSnapshot"]
    );
    router.effects.clear();
    router.submit_order(buy(2.0, 120.0));
    assert_eq!(
        kinds(&router.effects),
        vec![
            "AcceptedReport",
            "BroadcastVolume",
            "BroadcastTick",
            "BroadcastLastPrice",
            "TradeReport",
            "ReleaseActive",
            "BroadcastTick",
            "BroadcastLastPrice",
            "TradeReport",
            "ReleaseActive",
        ]
    );
}

#[test]
fn ticks_are_written_in_batches_and_put_back() {
    let mut router = create_test_router();
    router.open_account("maker");
    assert!(!router.router.start_batch_flush_worker());
    router.router.set_storage();
    assert!(router.router.start_batch_flush_worker());
    router.submit_order(order("maker", "SELL", 2.0, 120.0));
    router.submit_order(buy(2.0, 120.0));
    let FlushTurn::Write(batch) = router.router.next_flush() else { panic!("a batch waits") };
    let seen: Vec<(i128, i64, i64, i64)> =
        batch.iter().map(|t| (t.last_price, t.bid_price, t.ask_price, t.volume)).collect();
    let price = 12_000_000_000;
    assert_eq!(
        seen,
        vec![
            (price, 0, amount(120.0), 0),
            (price, 0, 0, 0),
            (price, 0, 0, 2),
            (price, 0, 0, 2),
        ]
    );
    assert!(matches!(router.router.next_flush(), FlushTurn::Idle));
    let n = batch.len();
    router.router.requeue(batch);
    let FlushTurn::Write(again) = router.router.next_flush() else { panic!("the batch is back") };
    assert_eq!(again.len(), n);
    router.router.requeue(again);
    router.router.stop_batch_flush_worker();
    let FlushTurn::Drain(rest) = router.router.next_flush() else { panic!("some are left") };
    assert_eq!(rest.len(), n);
    assert!(matches!(router.router.next_flush(), FlushTurn::Stop));
    assert!(matches!(router.router.next_flush(), FlushTurn::Stop));
}

#[test]
fn what_is_left_at_the_end_comes_in_batches_too() {
    let mut router = create_test_router();
    router.router.set_storage();
    for _ in 0..2005 {
        router.submit_order(buy(1.0, 1.0));
    }
    router.router.stop_batch_flush_worker();
    let mut sizes = Vec::new();
    let mut last = 0;
    while let FlushTurn::Drain(batch) = router.router.next_flush() {
        sizes.push(batch.len());
        for tick in batch {
            assert!(tick.timestamp >= last);
            last = tick.timestamp;
        }
    }
    assert_eq!(sizes, vec![1000, 1000, 5]);
    assert!(matches!(router.router.next_flush(), FlushTurn::Stop));
}

#[test]
fn batches_hold_at_most_a_thousand_ticks() {
    let mut router = create_test_router();
    router.router.set_storage();
    for _ in 0..1005 {
        router.submit_order(buy(1.0, 1.0));
    }
    let FlushTurn::Write(batch) = router.router.next_flush() else { panic!("a batch waits") };
    assert_eq!(batch.len(), 1000);
    let FlushTurn::Write(batch) = router.router.next_flush() else { panic!("a batch waits") };
    assert_eq!(batch.len(), 5);
}

#[test]
fn a_snapshot_holds_ten_levels_and_comes_once_a_second() {
    let mut router = create_test_router();
    router.router.set_storage();
    for i in 0..12 {
        router.submit_order(buy(1.0 + i as f64, 100.0 + i as f64));
    }
    let snapshots: Vec<(Vec<(i64, i64)>, Vec<(i64, i64)>, i64)> = router
        .effects
        .iter()
        .filter_map(|e| match e {
            Effect::WriteSnapshot { record, .. } => {
                Some((record.bids.clone(), record.asks.clone(), record.last_price))
            }
            _ => None,
        })
        .collect();
    assert_eq!(snapshots.len(), 1);
    let (bids, asks, last) = &snapshots[0];
    assert_eq!(bids.len(), 10);
    assert_eq!(bids[0], (amount(100.0), 1));
    assert_eq!(bids[1], (0, 0));
    assert_eq!(asks, &vec![(0, 0); 10]);
    assert_eq!(*last, amount(100.0));
}

fn held(id: &str, status: &str, volume: f64, left: f64) -> HeldOrder {
    HeldOrder {
        account_id: "test_user".to_string(),
        order_id: id.to_string(),
        order: Order {
            seqno: 0,
            user_id: "test_user".to_string(),
            order_id: id.to_string(),
            exchange_id: "EXCHANGE".to_string(),
            instrument_id: "IX2301".to_string(),
            direction: "BUY".to_string(),
            offset: "OPEN".to_string(),
            volume_orign: amount(volume),
            price_type: "LIMIT".to_string(),
            limit_price: amount(120.0),
            time_condition: "GFD".to_string(),
            volume_condition: "ANY".to_string(),
            insert_date_time: 5_000_000_123,
            exchange_order_id: String::new(),
            status: status.to_string(),
            volume_left: amount(left),
            last_msg: String::new(),
        },
    }
}

#[test]
fn open_orders_are_restored_once() {
    let mut router = create_test_router();
    let list = || {
        vec![
            held("A", "SUBMITTED", 5.0, 5.0),
            held("B", "ALIVE", 5.0, 2.0),
            held("C", "FINISHED", 5.0, 0.0),
            held("D", "ALIVE", 5.0, 0.0),
        ]
    };
    router.restore(list());
    assert_eq!(router.router.get_order_count(), 3);
    let (_, status, submitted, updated, filled) = router.router.get_order_detail("B").unwrap();
    assert_eq!(status, OrderStatus::PartiallyFilled);
    assert_eq!(submitted, 5);
    assert!(updated > 1_000_000_000 && updated < 100_000_000_000);
    assert_eq!(filled, amount(3.0));
    assert_eq!(router.router.get_order_status("A"), Some(OrderStatus::Submitted));
    assert_eq!(router.router.get_order_status("C"), None);
    let volumes: Vec<i64> =
        router.markets["IX2301"].resting.iter().map(|r| r.volume).collect();
    assert_eq!(volumes, vec![amount(5.0), amount(2.0)]);
    router.restore(list());
    assert_eq!(router.router.get_order_count(), 3);
    assert_eq!(router.router.query_user_orders("test_user").len(), 3);
    // A restored order can be cancelled.
    assert!(router.cancel_order(cancel("test_user", "A")).is_ok());
    // One that has nothing left is not known to the engine.
    match router.cancel_order(cancel("test_user", "D")) {
        Err(ExchangeError::OrderError(m)) => assert_eq!(m, "Matching engine order ID not found"),
        other => panic!("unexpected {:?}", other),
    }
}

#[test]
fn restoration_copes_with_missing_books_and_directions() {
    let mut router = create_test_router();
    let mut lost = held("A", "ALIVE", 5.0, 5.0);
    lost.order.instrument_id = "GONE".to_string();
    let mut odd = held("B", "ALIVE", 5.0, 5.0);
    odd.order.direction = "HOLD".to_string();
    router.restore(vec![lost, odd]);
    assert_eq!(router.router.get_order_status("A"), Some(OrderStatus::PartiallyFilled));
    assert_eq!(router.router.get_order_status("B"), None);
}

#[test]
fn a_second_restoration_finds_nothing_left_to_do() {
    let mut router = create_test_router();
    let list = || {
        let mut odd = held("B", "ALIVE", 5.0, 5.0);
        odd.order.direction = "HOLD".to_string();
        vec![held("A", "SUBMITTED", 5.0, 5.0), odd, held("C", "ALIVE", 5.0, 0.0)]
    };
    router.restore(list());
    let asked = router.asked.len();
    let resting = |r: &Exchange| -> Vec<(u64, i64)> {
        r.markets["IX2301"].resting.iter().map(|o| (o.id, o.volume)).collect()
    };
    let before = resting(&router);
    assert_eq!(before.len(), 1);
    router.restore(list());
    assert_eq!(resting(&router), before);
    assert_eq!(router.router.get_order_count(), 2);
    assert_eq!(router.router.query_user_orders("test_user").len(), 2);
    // Only the order without a direction is looked at again.
    assert_eq!(router.asked.len(), asked + 1);
}

#[test]
fn a_status_can_be_set_from_outside() {
    let mut router = create_test_router();
    let id = router.submit_order(buy(5.0, 120.0)).order_id.unwrap();
    match router.router.update_order_status(&id, OrderStatus::Filled) {
        Ok(Some(Effect::ReleaseActive { user_id, order_id })) => {
            assert_eq!(user_id, "test_user");
            assert_eq!(order_id, id);
        }
        other => panic!("unexpected {:?}", other),
    }
    assert_eq!(router.router.get_order_status(&id), Some(OrderStatus::Filled));
    assert!(matches!(router.router.update_order_status(&id, OrderStatus::Submitted), Ok(None)));
    match router.router.update_order_status("NONE", OrderStatus::Filled) {
        Err(ExchangeError::OrderError(m)) => assert_eq!(m, "Order not found: NONE"),
        other => panic!("unexpected {:?}", other),
    }
}

#[test]
fn preferred_users_belong_to_the_priority_queue() {
    let mut router = create_test_router().router;
    router.add_vip_user("early".to_string());
    assert!(router.get_priority_queue().is_none());
    router.enable_priority_queue(100, amount(1_000_000.0));
    router.add_vip_user("a".to_string());
    router.add_vip_users(vec!["b".to_string(), "c".to_string()]);
    router.disable_priority_queue();
    let settings = router.get_priority_queue().unwrap();
    assert_eq!(settings.low_queue_limit, 100);
    assert_eq!(settings.critical_amount_threshold, amount(1_000_000.0));
    assert_eq!(settings.vip_users, vec!["a", "b", "c"]);
}

#[test]
fn order_ids_carry_time_and_number() {
    let mut router = create_test_router().router;
    assert_eq!(router.generate_order_id_at(1_700_000_000_123), "O17000000001230000000001");
    assert_eq!(router.generate_order_id_at(-5), "O-50000000002");
}

#[test]
fn snapshots_keep_their_distance() {
    let mut router = create_test_router();
    router.router.set_storage();
    for moment in [0, 999_999_999, 1_000_000_000, 1_500_000_000, 2_000_000_000] {
        router.submit_order_at(buy(1.0, 100.0), moment);
    }
    let moments: Vec<u64> = router
        .effects
        .iter()
        .filter_map(|e| match e {
            Effect::WriteSnapshot { moment, .. } => Some(*moment),
            _ => None,
        })
        .collect();
    assert_eq!(moments, vec![0, 1_000_000_000, 2_000_000_000]);
}

#[test]
fn an_order_carries_the_times_of_its_steps() {
    let mut router = create_test_router();
    let response = router.submit_order_at(buy(1.0, 100.0), 11);
    let id = response.order_id.unwrap();
    assert_eq!(id, "O770000000001");
    let (_, _, submitted, updated, _) = router.router.get_order_detail(&id).unwrap();
    assert_eq!((submitted, updated), (1_011, 1_011));
}

#[test]
fn every_order_counts_at_most_once() {
    let mut router = create_test_router();
    router.open_account("maker");
    router.submit_order(order("maker", "SELL", 2.0, 120.0));
    router.submit_order(buy(2.0, 120.0));
    let rests = router.submit_order(buy(1.0, 110.0)).order_id.unwrap();
    let gone = router.submit_order(buy(1.0, 110.0)).order_id.unwrap();
    router.cancel_order(cancel("test_user", &gone)).unwrap();
    router.submit_order(buy(0.0, 110.0));
    let s = router.router.get_order_statistics();
    assert_eq!(s.total_count, 5);
    assert_eq!(
        (s.pending_count, s.filled_count, s.cancelled_count, s.rejected_count),
        (1, 2, 1, 1)
    );
    assert_eq!(router.router.get_order_status(&rests), Some(OrderStatus::Submitted));
}

#[test]
fn flows_do_not_disturb_each_other() {
    let mut router = create_test_router();
    let Step::Pending(first) = router.router.submit_order(buy(1.0, 120.0)) else {
        panic!("the flow should wait")
    };
    let second = router.submit_order(buy(2.0, 120.0));
    assert!(second.success);
    let mut step = Step::Pending(first);
    let response = loop {
        match step {
            Step::Finished(response) => break response,
            Step::Pending(flow) => {
                let reply = router.reply(flow.pending());
                step = router.router.answer(flow, reply);
            }
        }
    };
    assert!(response.success);
    assert_ne!(response.order_id, second.order_id);
    let volumes: Vec<i64> =
        router.router.query_user_orders("test_user").iter().map(|o| o.volume_orign).collect();
    assert_eq!(volumes, vec![amount(2.0), amount(1.0)]);
}
