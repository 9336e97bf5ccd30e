//! Trades, as the accounts on either side see them.
use crate::text;
use vstd::prelude::*;

verus! {

/// A trade.
#[derive(Debug)]
pub struct TradeRecord<S = String> {
    pub trade_id: S,
    pub instrument_id: S,
    pub buy_user_id: S,
    pub sell_user_id: S,
    pub buy_order_id: S,
    pub sell_order_id: S,
    /// The order that took the liquidity.
    pub taker_order_id: S,
    pub price: i64,
    pub volume: i64,
    pub timestamp: i64,
    pub trading_day: S,
}

impl View for TradeRecord<String> {
    type V = TradeRecord<Seq<char>>;

    open spec fn view(&self) -> TradeRecord<Seq<char>> {
        TradeRecord {
            trade_id: self.trade_id@,
            instrument_id: self.instrument_id@,
            buy_user_id: self.buy_user_id@,
            sell_user_id: self.sell_user_id@,
            buy_order_id: self.buy_order_id@,
            sell_order_id: self.sell_order_id@,
            taker_order_id: self.taker_order_id@,
            price: self.price,
            volume: self.volume,
            timestamp: self.timestamp,
            trading_day: self.trading_day@,
        }
    }
}

/// A trade from one side.
#[derive(Debug)]
pub struct UserTradeView<S = String> {
    pub trade_id: S,
    pub instrument_id: S,
    /// `BUY` or `SELL`.
    pub user_direction: S,
    pub user_order_id: S,
    pub opposite_order_id: S,
    /// Whether this side took the liquidity.
    pub is_taker: bool,
    pub price: i64,
    pub volume: i64,
    pub timestamp: i64,
    pub trading_day: S,
}

impl View for UserTradeView<String> {
    type V = UserTradeView<Seq<char>>;

    open spec fn view(&self) -> UserTradeView<Seq<char>> {
        UserTradeView {
            trade_id: self.trade_id@,
            instrument_id: self.instrument_id@,
            user_direction: self.user_direction@,
            user_order_id: self.user_order_id@,
            opposite_order_id: self.opposite_order_id@,
            is_taker: self.is_taker,
            price: self.price,
            volume: self.volume,
            timestamp: self.timestamp,
            trading_day: self.trading_day@,
        }
    }
}

/// A trade as an account sees it: from the side of the buyer where the account
/// bought, else from that of the seller.
pub open spec fn trade_seen_by(t: TradeRecord<Seq<char>>, account_id: Seq<char>) -> UserTradeView<
    Seq<char>,
> {
    let is_buyer = t.buy_user_id == account_id;
    let (own, other) = if is_buyer {
        (t.buy_order_id, t.sell_order_id)
    } else {
        (t.sell_order_id, t.buy_order_id)
    };
    UserTradeView {
        trade_id: t.trade_id,
        instrument_id: t.instrument_id,
        user_direction: if is_buyer {
            "BUY"@
        } else {
            "SELL"@
        },
        user_order_id: own,
        opposite_order_id: other,
        is_taker: t.taker_order_id == own,
        price: t.price,
        volume: t.volume,
        timestamp: t.timestamp,
        trading_day: t.trading_day,
    }
}

impl UserTradeView<String> {
    /// A trade as an account sees it.
    pub fn from_trade_record(record: &TradeRecord, account_id: &str) -> (r: UserTradeView)
        ensures
            r@ == trade_seen_by(record@, account_id@),
    {
        let is_buyer: bool = text::same(&record.buy_user_id, account_id);
        let user_direction: String = if is_buyer {
            "BUY".to_string()
        } else {
            "SELL".to_string()
        };
        let (user_order_id, opposite_order_id): (String, String) = if is_buyer {
            (record.buy_order_id.clone(), record.sell_order_id.clone())
        } else {
            (record.sell_order_id.clone(), record.buy_order_id.clone())
        };
        let is_taker: bool = text::same(&record.taker_order_id, &user_order_id);
        UserTradeView {
            trade_id: record.trade_id.clone(),
            instrument_id: record.instrument_id.clone(),
            user_direction,
            user_order_id,
            opposite_order_id,
            is_taker,
            price: record.price,
            volume: record.volume,
            timestamp: record.timestamp,
            trading_day: record.trading_day.clone(),
        }
    }
}

/// The trades of an account as it sees them.
pub open spec fn trades_seen_by(trades: Seq<TradeRecord>, account_id: Seq<char>) -> Seq<
    UserTradeView<Seq<char>>,
> {
    trades.map_values(|t: TradeRecord| trade_seen_by(t@, account_id))
}

/// The view of a list of trades.
pub open spec fn trades_view(v: Seq<UserTradeView>) -> Seq<UserTradeView<Seq<char>>> {
    v.map_values(|t: UserTradeView| t@)
}

/// The trades of an account as it sees them, in their order.
pub fn query_account_trades(trades: &Vec<TradeRecord>, account_id: &str) -> (r: Vec<UserTradeView>)
    ensures
        trades_view(r@) == trades_seen_by(trades@, account_id@),
{
    let mut out: Vec<UserTradeView> = Vec::new();
    let n: usize = trades.len();
    let mut i: usize = 0;
    while i < n
        invariant
            i <= n,
            n == trades@.len(),
            out@.len() == i,
            forall|j: int|
                0 <= j < i ==> #[trigger] out@[j]@ == trade_seen_by(trades@[j]@, account_id@),
        decreases n - i,
    {
        out.push(UserTradeView::from_trade_record(&trades[i], account_id));
        i += 1;
    }
    assert(trades_view(out@) =~= trades_seen_by(trades@, account_id@));
    out
}

/// The trades of the accounts of a user, account by account.
pub open spec fn trades_of_accounts(accounts: Seq<(String, Vec<TradeRecord>)>) -> Seq<
    UserTradeView<Seq<char>>,
>
    decreases accounts.len(),
{
    if accounts.len() == 0 {
        Seq::empty()
    } else {
        trades_of_accounts(accounts.drop_last()) + trades_seen_by(
            accounts.last().1@,
            accounts.last().0@,
        )
    }
}

/// The trades of the accounts of a user, account by account.
pub fn query_user_trades(accounts: &Vec<(String, Vec<TradeRecord>)>) -> (r: Vec<UserTradeView>)
    ensures
        trades_view(r@) == trades_of_accounts(accounts@),
{
    let mut out: Vec<UserTradeView> = Vec::new();
    let n: usize = accounts.len();
    let mut i: usize = 0;
    assert(trades_view(out@) =~= trades_of_accounts(accounts@.take(0)));
    while i < n
        invariant
            i <= n,
            n == accounts@.len(),
            trades_view(out@) == trades_of_accounts(accounts@.take(i as int)),
        decreases n - i,
    {
        let ghost before = out@;
        let mut more: Vec<UserTradeView> = query_account_trades(&accounts[i].1, &accounts[i].0);
        let ghost added = more@;
        out.append(&mut more);
        assert(accounts@.take(i + 1).drop_last() =~= accounts@.take(i as int));
        assert(trades_view(out@) =~= trades_view(before) + trades_view(added));
        i += 1;
    }
    assert(accounts@.take(n as int) =~= accounts@);
    out
}

/// Buyer and seller see the same trade from opposite sides: the order of one is
/// the opposite order of the other, and exactly one of them took the liquidity,
/// where the trade names one of its two orders as the taker.
pub proof fn sides_are_opposite(t: TradeRecord<Seq<char>>)
    requires
        t.buy_user_id != t.sell_user_id,
    ensures
        ({
            let buyer = trade_seen_by(t, t.buy_user_id);
            let seller = trade_seen_by(t, t.sell_user_id);
            &&& buyer.user_direction == "BUY"@
            &&& seller.user_direction == "SELL"@
            &&& buyer.user_order_id == seller.opposite_order_id
            &&& seller.user_order_id == buyer.opposite_order_id
            &&& t.buy_order_id != t.sell_order_id && (t.taker_order_id == t.buy_order_id
                || t.taker_order_id == t.sell_order_id) ==> buyer.is_taker != seller.is_taker
        }),
{
}

/// An account sees a trade as it was made: at its price, of its volume and its
/// instrument, under its number and at its time. Who bought sees the order that
/// bought as their own, anyone else the order that sold; they took the liquidity
/// exactly where the trade names that order as the taker.
pub proof fn trades_are_shown_as_made(t: TradeRecord<Seq<char>>, account_id: Seq<char>)
    ensures
        ({
            let seen = trade_seen_by(t, account_id);
            &&& seen.trade_id == t.trade_id
            &&& seen.instrument_id == t.instrument_id
            &&& seen.price == t.price
            &&& seen.volume == t.volume
            &&& seen.timestamp == t.timestamp
            &&& seen.trading_day == t.trading_day
            &&& account_id == t.buy_user_id ==> {
                &&& seen.user_direction == "BUY"@
                &&& seen.user_order_id == t.buy_order_id
                &&& seen.opposite_order_id == t.sell_order_id
                &&& seen.is_taker <==> t.taker_order_id == t.buy_order_id
            }
            &&& account_id != t.buy_user_id ==> {
                &&& seen.user_direction == "SELL"@
                &&& seen.user_order_id == t.sell_order_id
                &&& seen.opposite_order_id == t.buy_order_id
                &&& seen.is_taker <==> t.taker_order_id == t.sell_order_id
            }
        }),
{
}

/// The trades of an account are shown one by one in their order; those of one more
/// account follow those of the accounts before it, seen by that account.
pub proof fn trades_are_shown_by_account(
    accounts: Seq<(String, Vec<TradeRecord>)>,
    next: (String, Vec<TradeRecord>),
    i: int,
)
    requires
        0 <= i < next.1@.len(),
    ensures
        ({
            let before = trades_of_accounts(accounts);
            let after = trades_of_accounts(accounts.push(next));
            &&& after.len() == before.len() + next.1@.len()
            &&& after.take(before.len() as int) == before
            &&& after[before.len() + i] == trade_seen_by(next.1@[i]@, next.0@)
            &&& accounts.len() == 0 ==> before.len() == 0
        }),
{
    assert(accounts.push(next).drop_last() =~= accounts);
    let before = trades_of_accounts(accounts);
    assert(trades_of_accounts(accounts.push(next)).take(before.len() as int) =~= before);
}

/// Each trade of an account is shown in its place, as that account sees it.
pub proof fn trades_keep_their_order(trades: Seq<TradeRecord>, account_id: Seq<char>, i: int)
    requires
        0 <= i < trades.len(),
    ensures
        trades_seen_by(trades, account_id).len() == trades.len(),
        trades_seen_by(trades, account_id)[i].trade_id == trades[i].trade_id@,
        trades_seen_by(trades, account_id)[i] == trade_seen_by(trades[i]@, account_id),
{
}

} // verus!
