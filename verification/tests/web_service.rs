use qaexchange::orders::{ExchangeError, Order, OrderStatus, SubmitOrderResponse};
use qaexchange::service::batches::{
    batch_cancel_orders, batch_cancel_orders_reply, batch_submit_orders, batch_submit_orders_reply,
};
use qaexchange::service::conditional::{
    cancel_conditional_order, create_conditional_order, create_conditional_order_failed,
    get_conditional_orders,
};
use qaexchange::service::equity::{
    compute_statistics, convert_settlements, current_point, equity_points, get_equity_curve,
    AccountSettlement,
};
use qaexchange::service::health_check;
use qaexchange::service::trades::{
    query_account_trades, query_user_trades, TradeRecord, UserTradeView,
};
use qaexchange::service::trading::{
    cancel_order, cancel_order_reply, modify_cancel_failed, modify_order, modify_order_reply,
    query_order, query_user_orders, submit_order, submit_order_reply, ModifyOrderRequest,
    OrderForm,
};

fn order(id: &str) -> Order {
    Order {
        seqno: 0,
        user_id: "ACC_1".to_string(),
        order_id: id.to_string(),
        exchange_id: "EXCHANGE".to_string(),
        instrument_id: "cu2501".to_string(),
        direction: "BUY".to_string(),
        offset: "OPEN".to_string(),
        volume_orign: 50_000,
        price_type: "LIMIT".to_string(),
        limit_price: 1_200_000,
        time_condition: "GFD".to_string(),
        volume_condition: "ANY".to_string(),
        insert_date_time: 0,
        exchange_order_id: String::new(),
        status: "ALIVE".to_string(),
        volume_left: 50_000,
        last_msg: String::new(),
    }
}

fn form() -> OrderForm {
    OrderForm {
        instrument_id: "cu2501".to_string(),
        direction: "SELL".to_string(),
        offset: "CLOSE".to_string(),
        volume: 10_000,
        price: 20_000,
        order_type: "LIMIT".to_string(),
    }
}

fn response(success: bool) -> SubmitOrderResponse {
    SubmitOrderResponse {
        success,
        order_id: Some("O1".to_string()),
        status: Some("filled".to_string()),
        error_message: if success { None } else { Some("too poor".to_string()) },
        error_code: if success { None } else { Some(4001) },
    }
}

#[test]
fn the_service_tells_that_it_lives() {
    assert_eq!(health_check(), ("ok".to_string(), "qaexchange".to_string()));
}

#[test]
fn an_order_form_becomes_a_request_without_conditions() {
    let r = submit_order("ACC_1", &form());
    assert_eq!(r.account_id, "ACC_1");
    assert_eq!((r.direction.as_str(), r.offset.as_str(), r.order_type.as_str()), ("SELL", "CLOSE", "LIMIT"));
    assert_eq!((r.volume, r.price), (10_000, 20_000));
    assert!(r.time_condition.is_none() && r.volume_condition.is_none());
    let c = cancel_order("ACC_1", "O1");
    assert_eq!((c.account_id.as_str(), c.order_id.as_str()), ("ACC_1", "O1"));
}

#[test]
fn a_response_becomes_an_answer() {
    assert_eq!(
        submit_order_reply(response(true)).unwrap(),
        ("O1".to_string(), "filled".to_string())
    );
    let e = submit_order_reply(response(false)).unwrap_err();
    assert_eq!((e.http_status, e.code, e.message.as_str()), (400, 4001, "too poor"));
    let mut bare = response(true);
    bare.order_id = None;
    bare.status = None;
    assert_eq!(submit_order_reply(bare).unwrap(), (String::new(), "submitted".to_string()));
    let mut bare = response(false);
    bare.error_code = None;
    bare.error_message = None;
    let e = submit_order_reply(bare).unwrap_err();
    assert_eq!((e.code, e.message.as_str()), (400, "Order submission failed"));
}

#[test]
fn a_cancellation_becomes_an_answer() {
    assert_eq!(cancel_order_reply("O1".to_string(), Ok(())).unwrap(), "O1");
    let e = cancel_order_reply(
        "O1".to_string(),
        Err(ExchangeError::OrderError("Order not found: O1".to_string())),
    )
    .unwrap_err();
    assert_eq!((e.http_status, e.code), (400, 400));
    assert_eq!(e.message, "Cancel order failed: OrderError(\"Order not found: O1\")");
    let e = cancel_order_reply("O1".to_string(), Err(ExchangeError::MatchingError("x\ty".to_string())))
        .unwrap_err();
    assert_eq!(e.message, "Cancel order failed: MatchingError(\"x\\ty\")");
}

#[test]
fn an_order_is_shown() {
    let info = query_order("O1", Some((order("O1"), OrderStatus::PartiallyFilled, 3, 4, 5))).unwrap();
    assert_eq!((info.order_id.as_str(), info.status.as_str()), ("O1", "PartiallyFilled"));
    assert_eq!((info.volume, info.price, info.filled_volume), (50_000, 1_200_000, 5));
    assert_eq!((info.submit_time, info.update_time), (3, 4));
    let e = query_order("O9", None).unwrap_err();
    assert_eq!((e.http_status, e.code, e.message.as_str()), (404, 404, "Order not found: O9"));
    let list = query_user_orders(vec![
        ("A".to_string(), order("A"), OrderStatus::Filled, 1, 2, 3),
        ("B".to_string(), order("B"), OrderStatus::Rejected, 1, 2, 3),
    ]);
    let shown: Vec<(&str, &str)> =
        list.iter().map(|i| (i.order_id.as_str(), i.status.as_str())).collect();
    assert_eq!(shown, vec![("A", "Filled"), ("B", "Rejected")]);
}

fn change(new_price: Option<i64>, new_volume: Option<i64>) -> ModifyOrderRequest {
    ModifyOrderRequest { account_id: "ACC_1".to_string(), new_price, new_volume }
}

#[test]
fn an_order_is_changed_by_a_replacement() {
    let detail = Some((order("O1"), OrderStatus::Submitted, 0, 0, 0));
    let (cancel, submit) = modify_order("O1", &change(Some(9), None), detail).unwrap();
    assert_eq!((cancel.account_id.as_str(), cancel.order_id.as_str()), ("ACC_1", "O1"));
    assert_eq!((submit.price, submit.volume), (9, 50_000));
    assert_eq!((submit.instrument_id.as_str(), submit.order_type.as_str()), ("cu2501", "LIMIT"));
    let done = modify_order_reply("O1", &submit, response(true)).unwrap();
    assert_eq!((done.old_order_id.as_str(), done.new_order_id.as_deref()), ("O1", Some("O1")));
    assert_eq!((done.new_price, done.new_volume), (9, 50_000));
    let e = modify_order_reply("O1", &submit, response(false)).unwrap_err();
    assert_eq!(e.code, 4008);
    assert_eq!(e.message, "订单修改失败（原订单已撤销，新订单提交失败）: too poor");
}

#[test]
fn an_order_that_does_not_rest_is_not_changed() {
    let e = modify_order("O1", &change(None, None), None).unwrap_err();
    assert_eq!((e.http_status, e.code, e.message.as_str()), (404, 404, "订单不存在: O1"));
    let filled = Some((order("O1"), OrderStatus::Filled, 0, 0, 0));
    let e = modify_order("O1", &change(None, None), filled).unwrap_err();
    assert_eq!((e.code, e.message.as_str()), (4005, "订单状态不允许修改: Filled"));
    let partial = Some((order("O1"), OrderStatus::PartiallyFilled, 0, 0, 1));
    let e = modify_order("O1", &change(None, None), partial).unwrap_err();
    assert_eq!((e.code, e.message.as_str()), (4006, "已部分成交的订单不能修改"));
    let e = modify_cancel_failed(&ExchangeError::OrderError("no".to_string()));
    assert_eq!((e.code, e.message.as_str()), (4007, "撤单失败: OrderError(\"no\")"));
}

#[test]
fn many_orders_are_tallied() {
    let requests = batch_submit_orders("ACC_1", true, &vec![form(), form()]).unwrap();
    assert_eq!(requests.len(), 2);
    assert_eq!(requests[1].account_id, "ACC_1");
    let e = batch_submit_orders("ACC_9", false, &vec![form()]).unwrap_err();
    assert_eq!((e.http_status, e.message.as_str()), (404, "账户不存在: ACC_9"));
    let r = batch_submit_orders_reply(vec![response(true), response(false), response(true)]);
    assert_eq!((r.total, r.success_count, r.failed_count), (3, 2, 1));
    assert_eq!(r.results[1].index, 1);
    assert_eq!(r.results[1].order_id, None);
    assert_eq!(r.results[1].error.as_deref(), Some("too poor"));
    assert_eq!(r.results[2].order_id.as_deref(), Some("O1"));
}

#[test]
fn many_cancellations_are_tallied() {
    let requests = batch_cancel_orders("ACC_1", &vec!["A".to_string(), "B".to_string()]);
    assert_eq!(requests[1].order_id, "B");
    let r = batch_cancel_orders_reply(vec![
        ("A".to_string(), Ok(())),
        ("B".to_string(), Err(ExchangeError::OrderError("no".to_string()))),
    ]);
    assert_eq!((r.total, r.success_count, r.failed_count), (2, 1, 1));
    assert_eq!(r.results[0].error, None);
    assert_eq!(r.results[1].order_id.as_deref(), Some("B"));
    assert_eq!(r.results[1].error.as_deref(), Some("OrderError(\"no\")"));
}

#[test]
fn conditional_orders_are_answered() {
    assert!(create_conditional_order("ACC_1", true).is_ok());
    let e = create_conditional_order("ACC_9", false).unwrap_err();
    assert_eq!((e.http_status, e.message.as_str()), (404, "账户不存在: ACC_9"));
    assert_eq!(create_conditional_order_failed("bad".to_string()).code, 4009);
    let c = cancel_conditional_order("C1".to_string(), Ok(())).unwrap();
    assert_eq!((c.conditional_order_id.as_str(), c.message.as_str()), ("C1", "条件单取消成功"));
    let e = cancel_conditional_order("C1".to_string(), Err("bad".to_string())).unwrap_err();
    assert_eq!((e.http_status, e.code, e.message.as_str()), (400, 4010, "bad"));
    assert_eq!(get_conditional_orders(Some("ACC_1".to_string())).unwrap(), "ACC_1");
    let e = get_conditional_orders(None).unwrap_err();
    assert_eq!((e.code, e.message.as_str()), (400, "缺少 account_id 参数"));
}

fn trade(id: &str) -> TradeRecord {
    TradeRecord {
        trade_id: id.to_string(),
        instrument_id: "cu2501".to_string(),
        buy_user_id: "B".to_string(),
        sell_user_id: "S".to_string(),
        buy_order_id: "OB".to_string(),
        sell_order_id: "OS".to_string(),
        taker_order_id: "OS".to_string(),
        price: 1,
        volume: 2,
        timestamp: 3,
        trading_day: "20250101".to_string(),
    }
}

#[test]
fn a_trade_is_seen_from_both_sides() {
    let buyer = UserTradeView::from_trade_record(&trade("T"), "B");
    assert_eq!((buyer.user_direction.as_str(), buyer.is_taker), ("BUY", false));
    assert_eq!((buyer.user_order_id.as_str(), buyer.opposite_order_id.as_str()), ("OB", "OS"));
    let seller = UserTradeView::from_trade_record(&trade("T"), "S");
    assert_eq!((seller.user_direction.as_str(), seller.is_taker), ("SELL", true));
    assert_eq!((seller.user_order_id.as_str(), seller.opposite_order_id.as_str()), ("OS", "OB"));
    assert_eq!((seller.price, seller.volume, seller.timestamp), (1, 2, 3));
}

#[test]
fn trades_are_listed_account_by_account() {
    assert_eq!(query_account_trades(&vec![trade("1"), trade("2")], "B").len(), 2);
    let all = query_user_trades(&vec![
        ("B".to_string(), vec![trade("1"), trade("2")]),
        ("S".to_string(), vec![trade("3")]),
    ]);
    let shown: Vec<(&str, &str)> =
        all.iter().map(|t| (t.trade_id.as_str(), t.user_direction.as_str())).collect();
    assert_eq!(shown, vec![("1", "BUY"), ("2", "BUY"), ("3", "SELL")]);
}

fn settlement(date: &str, balance: i64, close_profit: i64) -> AccountSettlement {
    AccountSettlement {
        date: date.to_string(),
        balance,
        available: 1,
        margin: 2,
        close_profit,
        commission: 3,
    }
}

#[test]
fn settlements_become_points_in_the_order_of_dates() {
    let points = convert_settlements(vec![
        settlement("2025-01-03", 90, 0),
        settlement("2025-01-01", 100, 20),
        settlement("2025-01-02", 110, 5),
        settlement("2025-01-01", 120, 7),
    ]);
    let shown: Vec<(&str, i64, i128)> =
        points.iter().map(|p| (p.date.as_str(), p.balance, p.daily_profit)).collect();
    assert_eq!(
        shown,
        vec![
            ("2025-01-01", 100, 20),
            ("2025-01-01", 120, 20),
            ("2025-01-02", 110, -10),
            ("2025-01-03", 90, -20),
        ]
    );
    let rate = points[0].daily_profit_rate;
    assert_eq!((rate.num, rate.den), (20, 80));
    let none = convert_settlements(vec![settlement("d", 50, 50)]);
    assert_eq!((none[0].daily_profit_rate.num, none[0].daily_profit_rate.den), (0, 1));
}

#[test]
fn statistics_follow_the_balances() {
    let points = convert_settlements(vec![
        settlement("1", 100, 0),
        settlement("2", 120, 0),
        settlement("3", 90, 0),
        settlement("4", 110, 0),
        settlement("5", 110, 0),
    ]);
    let s = compute_statistics(&points);
    assert_eq!((s.start_balance, s.end_balance, s.total_profit), (100, 110, 10));
    assert_eq!((s.total_profit_rate.num, s.total_profit_rate.den), (10, 100));
    assert_eq!(s.max_drawdown, 30);
    assert_eq!((s.max_drawdown_rate.num, s.max_drawdown_rate.den), (30, 120));
    assert_eq!((s.profit_days, s.loss_days), (3, 1));
    assert_eq!((s.win_rate.num, s.win_rate.den), (3, 4));
    assert_eq!((s.avg_daily_profit.num, s.avg_daily_profit.den), (10, 4));
    let returns: Vec<(i128, i128)> = s.daily_returns.iter().map(|r| (r.num, r.den)).collect();
    assert_eq!(returns, vec![(20, 100), (-30, 120), (20, 90), (0, 110)]);
    let empty = compute_statistics(&vec![]);
    assert_eq!((empty.total_profit, empty.profit_days, empty.daily_returns.len()), (0, 0, 0));
}

#[test]
fn an_account_without_settlements_shows_its_present_figures() {
    let now = current_point("2025-02-02".to_string(), 7, 6, 5);
    let points = equity_points(vec![], now);
    assert_eq!(points.len(), 1);
    assert_eq!((points[0].date.as_str(), points[0].balance, points[0].margin), ("2025-02-02", 7, 5));
    let s = compute_statistics(&points);
    assert_eq!((s.start_balance, s.end_balance, s.win_rate.num), (7, 7, 0));
    let now = current_point("2025-02-02".to_string(), 7, 6, 5);
    assert_eq!(equity_points(vec![settlement("1", 100, 0)], now)[0].balance, 100);
    assert_eq!(get_equity_curve("u".to_string()).unwrap(), "u");
    let e = get_equity_curve(String::new()).unwrap_err();
    assert_eq!((e.code, e.message.as_str()), (400, "Missing user_id"));
}
