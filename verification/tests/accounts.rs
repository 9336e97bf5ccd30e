use qaexchange::account::{AccountQars2Ext, Funds, QA_Account};
use qaexchange::clock::Clock;
use qaexchange::orders::{ExchangeError, Order};
use qaexchange::service::accounts::{
    choose_account, create_user_account, create_user_account_reply, get_user_accounts,
    open_account, open_account_reply, query_account, resolve_account, AccountFigures,
    AccountMetadata, AccountType,
};
use qaexchange::service::positions::{query_position, query_positions_by_user, Holding};
use qaexchange::service::transfers::{
    account_not_found, deposit, deposit_at, sole_account, transfer_target, withdraw, withdraw_at,
    TransferTarget,
};

fn order(id: &str) -> Order {
    Order {
        seqno: 0,
        user_id: "u".to_string(),
        order_id: id.to_string(),
        exchange_id: "EXCHANGE".to_string(),
        instrument_id: "cu2501".to_string(),
        direction: "BUY".to_string(),
        offset: "OPEN".to_string(),
        volume_orign: 50_000,
        price_type: "LIMIT".to_string(),
        limit_price: 1_200_000,
        time_condition: "GFD".to_string(),
        volume_condition: "ANY".to_string(),
        insert_date_time: 0,
        exchange_order_id: String::new(),
        status: "SUBMITTED".to_string(),
        volume_left: 50_000,
        last_msg: String::new(),
    }
}

fn account() -> QA_Account {
    QA_Account {
        account_cookie: "ACC_1".to_string(),
        user_cookie: "u".to_string(),
        money: 1_000,
        accounts: Funds {
            balance: 1_500,
            available: 1_000,
            deposit: 10,
            withdraw: 20,
            close_profit: 30,
            risk_ratio: 40,
        },
        frozen: vec![("A".to_string(), 300), ("B".to_string(), 200)],
        dailyorders: vec![("A".to_string(), order("A")), ("B".to_string(), order("B"))],
    }
}

#[test]
fn payments_change_money_and_totals() {
    let mut a = account();
    a.deposit(500);
    assert_eq!((a.money, a.accounts.deposit, a.accounts.withdraw), (1_500, 510, 20));
    a.withdraw(500);
    assert_eq!((a.money, a.accounts.deposit, a.accounts.withdraw), (1_000, 510, 520));
    assert_eq!(a.accounts.balance, 1_500);
}

#[test]
fn payments_out_of_range_stay_at_the_end() {
    let mut a = account();
    a.deposit(i64::MAX);
    assert_eq!(a.money, i64::MAX);
}

#[test]
fn frozen_margin_is_the_sum_of_all_orders() {
    let mut a = account();
    assert_eq!(a.get_frozen_margin(), 500);
    a.frozen.clear();
    assert_eq!(a.get_frozen_margin(), 0);
    a.frozen = vec![("A".to_string(), i64::MAX), ("B".to_string(), 1)];
    assert_eq!(a.get_frozen_margin(), i64::MAX);
}

#[test]
fn a_confirmed_order_is_alive() {
    let mut a = account();
    assert!(a.on_order_confirm("B", "X9").is_ok());
    assert_eq!(a.dailyorders[1].1.status, "ALIVE");
    assert_eq!(a.dailyorders[1].1.exchange_order_id, "X9");
    assert_eq!(a.dailyorders[0].1.status, "SUBMITTED");
    assert_eq!(a.on_order_confirm("C", "X9"), Err("order C not found".to_string()));
}

#[test]
fn a_cancelled_order_frees_its_money_once() {
    let mut a = account();
    let cancelled = a.cancel_order("A", "CANCELLED").unwrap();
    assert_eq!(cancelled.status, "CANCELLED");
    assert_eq!(cancelled.volume_left, 0);
    assert_eq!(cancelled.volume_orign, 50_000);
    assert_eq!(a.money, 1_300);
    assert_eq!(a.frozen, vec![("B".to_string(), 200)]);
    assert_eq!(a.money + a.get_frozen_margin(), 1_500);
    assert_eq!(a.dailyorders[0].1.status, "CANCELLED");
    a.cancel_order("A", "CANCELLED").unwrap();
    assert_eq!(a.money, 1_300);
    let e = a.cancel_order("Z", "CANCELLED").unwrap_err();
    assert_eq!(e, "order Z not found");
}

#[test]
fn a_cancellation_leaves_other_orders_alone() {
    let mut a = account();
    let before = account();
    a.cancel_order("A", "CANCELLED").unwrap();
    a.on_order_confirm("A", "X1").unwrap();
    let keys: Vec<&str> = a.dailyorders.iter().map(|e| e.0.as_str()).collect();
    assert_eq!(keys, vec!["A", "B"]);
    assert_eq!(a.dailyorders[1].1.status, before.dailyorders[1].1.status);
    assert_eq!(a.dailyorders[1].1.volume_left, before.dailyorders[1].1.volume_left);
    assert_eq!(a.frozen, before.frozen[1..].to_vec());
}

#[test]
fn money_of_an_unknown_order_is_freed_too() {
    let mut a = account();
    a.dailyorders.clear();
    assert!(a.cancel_order("A", "CANCELLED").is_err());
    assert_eq!(a.money, 1_300);
}

#[test]
fn deposits_are_recorded() {
    let mut a = account();
    let r = deposit_at(&mut a, 250, "id-1".to_string(), 99);
    assert_eq!(a.money, 1_250);
    assert_eq!((r.id.as_str(), r.datetime, r.currency.as_str()), ("id-1", 99, "CNY"));
    assert_eq!((r.amount, r.error_id, r.error_msg.as_str()), (250, 0, "入金成功"));
    assert_eq!((r.bank_id.as_str(), r.bank_name.as_str()), ("API", "API入金"));
}

#[test]
fn transfers_get_distinct_identifiers() {
    let clock = Clock::new();
    let mut a = account();
    let one = deposit(&mut a, 1, &clock);
    let two = withdraw(&mut a, 1, &clock).unwrap();
    assert_eq!(one.id.len(), 36);
    assert_eq!(one.id.as_bytes()[8], b'-');
    assert_ne!(one.id, two.id);
    assert!(one.datetime > 1_600_000_000_000);
    assert_eq!((one.amount, two.amount), (1, -1));
}

#[test]
fn withdrawals_need_available_money() {
    let mut a = account();
    let e = withdraw_at(&mut a, 1_001, "x".to_string(), 0).unwrap_err();
    assert_eq!((e.http_status, e.code), (400, 400));
    assert_eq!(e.message, "Insufficient available balance");
    assert_eq!(a.money, 1_000);
    let r = withdraw_at(&mut a, 1_000, "x".to_string(), 0).unwrap();
    assert_eq!(a.money, 0);
    assert_eq!(r.amount, -1_000);
    assert_eq!(r.bank_name, "API出金");
    assert_eq!(r.error_msg, "出金成功");
}

#[test]
fn transfers_find_their_account() {
    assert!(matches!(transfer_target("ACC_7"), TransferTarget::Account { .. }));
    assert!(matches!(transfer_target("acc_7"), TransferTarget::User { .. }));
    assert!(matches!(transfer_target("ACC"), TransferTarget::User { .. }));
    assert_eq!(sole_account("u", &vec!["ACC_7".to_string()]).unwrap(), "ACC_7");
    let none = sole_account("u", &vec![]).unwrap_err();
    assert_eq!(none.http_status, 404);
    assert_eq!(
        none.message,
        "Account not found: AccountError(\"No accounts found for user: u\")"
    );
    let many = sole_account("u", &vec!["a".to_string(), "b\"c".to_string()]).unwrap_err();
    assert_eq!(many.http_status, 400);
    assert_eq!(
        many.message,
        "User has 2 accounts, please specify account_id: [\"a\", \"b\\\"c\"]"
    );
    let e = account_not_found(&ExchangeError::AccountError("gone".to_string()));
    assert_eq!(e.message, "Account not found: AccountError(\"gone\")");
}

#[test]
fn accounts_are_opened_by_kind() {
    let r = open_account("u", "name", 500, "institutional").unwrap();
    assert_eq!(r.account_type, AccountType::Institutional);
    assert_eq!((r.user_id.as_str(), r.account_name.as_str(), r.init_cash), ("u", "name", 500));
    assert_eq!(r.account_id, None);
    assert_eq!(open_account("u", "n", 0, "individual").unwrap().account_type, AccountType::Individual);
    let e = open_account("u", "n", 0, "market_maker").unwrap_err();
    assert_eq!((e.http_status, e.code, e.message.as_str()), (400, 400, "Invalid account type"));
    assert_eq!(
        create_user_account("u", "n", 0, "market_maker").unwrap().account_type,
        AccountType::MarketMaker
    );
    assert!(create_user_account("u", "n", 0, "other").is_err());
}

#[test]
fn the_answer_to_an_opening_names_what_failed() {
    assert_eq!(open_account_reply(Ok("ACC_1".to_string())).unwrap(), "ACC_1");
    let e = open_account_reply(Err(ExchangeError::AccountError("dup".to_string()))).unwrap_err();
    assert_eq!((e.http_status, e.code), (500, 500));
    assert_eq!(e.message, "Failed to open account: AccountError(\"dup\")");
    let e = create_user_account_reply(Err(ExchangeError::AccountError("dup".to_string())))
        .unwrap_err();
    assert_eq!(e.message, "Failed to create account: AccountError(\"dup\")");
}

fn figures() -> AccountFigures {
    AccountFigures {
        account_id: "ACC_1".to_string(),
        balance: 1_500,
        money: 1_000,
        close_profit: 30,
        risk_ratio: 40,
        position_margin: 70,
        frozen_margin: 80,
    }
}

#[test]
fn an_account_is_shown_with_frozen_money_and_margin() {
    let meta = AccountMetadata {
        account_name: "main".to_string(),
        account_type: AccountType::MarketMaker,
        created_at: 5,
    };
    let info = query_account("ACC_1", Ok(figures()), Some(meta)).unwrap();
    assert_eq!((info.frozen, info.margin, info.available), (500, 150, 1_000));
    assert_eq!((info.user_name.as_str(), info.account_type.as_str()), ("main", "marketmaker"));
    let info = query_account("ACC_1", Ok(figures()), None).unwrap();
    assert_eq!((info.user_name.as_str(), info.account_type.as_str()), ("ACC_1", "individual"));
    assert_eq!(info.created_at, 0);
    let e = query_account("x", Err(ExchangeError::AccountError("no".to_string())), None).unwrap_err();
    assert_eq!((e.http_status, e.code), (404, 404));
    assert_eq!(e.message, "Account not found: AccountError(\"no\")");
}

#[test]
fn the_accounts_of_a_user_are_listed() {
    let list = get_user_accounts(vec![(figures(), None), (figures(), None)]);
    assert_eq!(list.len(), 2);
    assert_eq!(list[0].account_type, "Individual");
    assert_eq!((list[0].margin, list[0].frozen_margin), (150, 80));
}

#[test]
fn a_request_is_for_its_own_account() {
    let named = choose_account(&Some("ACC_1".to_string()), "u");
    assert_eq!(resolve_account(named, Ok(String::new())).unwrap(), "ACC_1");
    let named = choose_account(&Some("ACC_1".to_string()), "u");
    let e = resolve_account(named, Err(ExchangeError::AccountError("not yours".to_string())))
        .unwrap_err();
    assert_eq!((e.http_status, e.code), (403, 4003));
    assert_eq!(e.message, "Account verification failed: not yours");
    let default = choose_account(&None, "u");
    assert_eq!(resolve_account(default, Ok("ACC_2".to_string())).unwrap(), "ACC_2");
    let default = choose_account(&None, "u");
    let e = resolve_account(default, Err(ExchangeError::AccountError("none".to_string())))
        .unwrap_err();
    assert_eq!((e.http_status, e.code), (400, 4000));
    assert_eq!(e.message, "Account not found for user u: none");
}

fn holding(id: &str) -> Holding {
    Holding {
        instrument_id: id.to_string(),
        volume_long: 1,
        volume_short: 2,
        volume_long_frozen: 3,
        volume_short_frozen: 4,
        cost_long: 5,
        cost_short: 6,
        profit_long: 7,
        profit_short: 8,
    }
}

#[test]
fn positions_are_listed_account_by_account() {
    let one = query_position("ACC_1", Ok(vec![holding("a"), holding("b")])).unwrap();
    assert_eq!(one.len(), 2);
    assert_eq!(one[1].account_id, "ACC_1");
    assert_eq!(one[1].holding.instrument_id, "b");
    assert!(query_position("x", Err(ExchangeError::AccountError("no".to_string()))).is_err());
    let all = query_positions_by_user(
        "u",
        vec![
            ("ACC_1".to_string(), vec![holding("a")]),
            ("ACC_2".to_string(), vec![holding("b"), holding("c")]),
        ],
    )
    .unwrap();
    let shown: Vec<(&str, &str)> = all
        .iter()
        .map(|p| (p.account_id.as_str(), p.holding.instrument_id.as_str()))
        .collect();
    assert_eq!(shown, vec![("ACC_1", "a"), ("ACC_2", "b"), ("ACC_2", "c")]);
    let e = query_positions_by_user("u", vec![]).unwrap_err();
    assert_eq!((e.http_status, e.message.as_str()), (404, "No accounts found for user: u"));
}
