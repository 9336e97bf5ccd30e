//! The money of an account, and the orders that it holds.
//!
//! Money that an order may need is frozen when the order is sent: it leaves the
//! available money and is kept under the identifier of the order.
use crate::amounts;
use crate::orders::Order;
use crate::text;
use vstd::prelude::*;

verus! {

/// The sums of an account, in ten-thousandths.
#[derive(Debug, Clone, Copy)]
pub struct Funds {
    pub balance: i64,
    pub available: i64,
    /// All money that was paid in.
    pub deposit: i64,
    /// All money that was paid out.
    pub withdraw: i64,
    pub close_profit: i64,
    pub risk_ratio: i64,
}

/// An account.
#[allow(non_camel_case_types)]
#[derive(Debug)]
pub struct QA_Account<S = String, F = Vec<(String, i64)>, O = Vec<(String, Order)>> {
    pub account_cookie: S,
    pub user_cookie: S,
    /// The available money, in ten-thousandths.
    pub money: i64,
    pub accounts: Funds,
    /// The frozen money of each order.
    pub frozen: F,
    /// The orders of the day.
    pub dailyorders: O,
}

/// The view of an account.
pub type AccountView = QA_Account<
    Seq<char>,
    Seq<(Seq<char>, i64)>,
    Seq<(Seq<char>, Order<Seq<char>>)>,
>;

impl View for QA_Account {
    type V = AccountView;

    open spec fn view(&self) -> AccountView {
        QA_Account {
            account_cookie: self.account_cookie@,
            user_cookie: self.user_cookie@,
            money: self.money,
            accounts: self.accounts,
            frozen: self.frozen@.map_values(|e: (String, i64)| (e.0@, e.1)),
            dailyorders: self.dailyorders@.map_values(|e: (String, Order)| (e.0@, e.1@)),
        }
    }
}

/// Whether no key occurs twice among entries.
pub open spec fn distinct_keys<V>(entries: Seq<(Seq<char>, V)>) -> bool {
    forall|i: int, j: int|
        0 <= i < j < entries.len() ==> #[trigger] entries[i].0 != #[trigger] entries[j].0
}

impl AccountView {
    /// Whether the account is well formed: money is frozen at most once for an
    /// order, and no two orders have the same identifier.
    pub open spec fn well_formed(self) -> bool {
        distinct_keys(self.frozen) && distinct_keys(self.dailyorders)
    }
}

/// The entries without that of a key.
pub open spec fn without<V>(entries: Seq<(Seq<char>, V)>, key: Seq<char>) -> Seq<(Seq<char>, V)>
    decreases entries.len(),
{
    if entries.len() == 0 {
        entries
    } else if entries[0].0 == key {
        entries.drop_first()
    } else {
        seq![entries[0]] + without(entries.drop_first(), key)
    }
}

/// The first value of a key, where there is one.
pub open spec fn value_of<V>(entries: Seq<(Seq<char>, V)>, key: Seq<char>) -> Option<V>
    decreases entries.len(),
{
    if entries.len() == 0 {
        None
    } else if entries[0].0 == key {
        Some(entries[0].1)
    } else {
        value_of(entries.drop_first(), key)
    }
}

/// The entries with another value at the first occurrence of a key.
pub open spec fn with_value<V>(entries: Seq<(Seq<char>, V)>, key: Seq<char>, value: V) -> Seq<
    (Seq<char>, V),
>
    decreases entries.len(),
{
    if entries.len() == 0 {
        entries
    } else if entries[0].0 == key {
        seq![(key, value)] + entries.drop_first()
    } else {
        seq![entries[0]] + with_value(entries.drop_first(), key, value)
    }
}

/// The sum of all values.
pub open spec fn total(entries: Seq<(Seq<char>, i64)>) -> int
    decreases entries.len(),
{
    if entries.len() == 0 {
        0
    } else {
        total(entries.drop_last()) + entries.last().1
    }
}

/// The account after a payment to it.
pub open spec fn deposited(a: AccountView, amount: int) -> AccountView {
    QA_Account {
        money: amounts::clamp64(a.money + amount) as i64,
        accounts: Funds {
            deposit: amounts::clamp64(a.accounts.deposit + amount) as i64,
            ..a.accounts
        },
        ..a
    }
}

/// The account after a payment from it.
pub open spec fn withdrawn(a: AccountView, amount: int) -> AccountView {
    QA_Account {
        money: amounts::clamp64(a.money - amount) as i64,
        accounts: Funds {
            withdraw: amounts::clamp64(a.accounts.withdraw + amount) as i64,
            ..a.accounts
        },
        ..a
    }
}

/// The account after the exchange has confirmed an order.
pub open spec fn confirmed(
    a: AccountView,
    order_id: Seq<char>,
    exchange_order_id: Seq<char>,
) -> AccountView {
    match value_of(a.dailyorders, order_id) {
        Some(order) => QA_Account {
            dailyorders: with_value(
                a.dailyorders,
                order_id,
                Order { status: "ALIVE"@, exchange_order_id, ..order },
            ),
            ..a
        },
        None => a,
    }
}

/// An order after it was cancelled.
pub open spec fn cancelled_order(order: Order<Seq<char>>, closed: Seq<char>) -> Order<Seq<char>> {
    Order { status: closed, volume_left: 0, ..order }
}

/// The account after its frozen money for an order was released.
pub open spec fn released(a: AccountView, order_id: Seq<char>) -> AccountView {
    match value_of(a.frozen, order_id) {
        Some(money) => QA_Account {
            money: amounts::clamp64(a.money + money) as i64,
            frozen: without(a.frozen, order_id),
            ..a
        },
        None => a,
    }
}

/// The account after an order was cancelled: its frozen money is available
/// again, and the order, where there is one, is closed.
pub open spec fn cancelled(a: AccountView, order_id: Seq<char>, closed: Seq<char>) -> AccountView {
    let a = released(a, order_id);
    match value_of(a.dailyorders, order_id) {
        Some(order) => QA_Account {
            dailyorders: with_value(a.dailyorders, order_id, cancelled_order(order, closed)),
            ..a
        },
        None => a,
    }
}

/// What the exchange does with an account.
pub trait AccountQars2Ext {
    /// The account as it stands.
    spec fn stands(&self) -> AccountView;

    /// Pays money in.
    fn deposit(&mut self, amount: i64)
        ensures
            final(self).stands() == deposited(old(self).stands(), amount as int),
            old(self).stands().well_formed() ==> final(self).stands().well_formed(),
    ;

    /// Pays money out.
    fn withdraw(&mut self, amount: i64)
        ensures
            final(self).stands() == withdrawn(old(self).stands(), amount as int),
            old(self).stands().well_formed() ==> final(self).stands().well_formed(),
    ;

    /// The money that all orders have frozen.
    fn get_frozen_margin(&self) -> (r: i64)
        ensures
            r == amounts::clamp64(total(self.stands().frozen)),
    ;

    /// Marks an order as alive under the identifier of the exchange.
    fn on_order_confirm(&mut self, order_id: &str, exchange_order_id: &str) -> (r: Result<(), String>)
        ensures
            final(self).stands() == confirmed(old(self).stands(), order_id@, exchange_order_id@),
            old(self).stands().well_formed() ==> final(self).stands().well_formed(),
            match r {
                Ok(_) => value_of(old(self).stands().dailyorders, order_id@) is Some,
                Err(e) => value_of(old(self).stands().dailyorders, order_id@) is None && e@
                    == order_missing(order_id@),
            },
    ;

    /// Releases the frozen money of an order, closes the order with the status
    /// `closed`, and returns it.
    fn cancel_order(&mut self, order_id: &str, closed: &str) -> (r: Result<Order, String>)
        ensures
            final(self).stands() == cancelled(old(self).stands(), order_id@, closed@),
            old(self).stands().well_formed() ==> final(self).stands().well_formed(),
            match (r, value_of(old(self).stands().dailyorders, order_id@)) {
                (Ok(order), Some(before)) => order@ == cancelled_order(before, closed@),
                (Err(e), None) => e@ == order_missing(order_id@),
                _ => false,
            },
    ;
}

/// The position of a key, where it occurs, or the end.
pub open spec fn position<V>(entries: Seq<(Seq<char>, V)>, key: Seq<char>) -> int
    decreases entries.len(),
{
    if entries.len() == 0 || entries[0].0 == key {
        0
    } else {
        1 + position(entries.drop_first(), key)
    }
}

/// The position of a key tells its value, the entries without it, and the
/// entries with another value there.
proof fn position_tells<V>(entries: Seq<(Seq<char>, V)>, key: Seq<char>, value: V)
    ensures
        0 <= position(entries, key) <= entries.len(),
        position(entries, key) == entries.len() ==> value_of(entries, key) is None && without(
            entries,
            key,
        ) == entries && with_value(entries, key, value) == entries,
        position(entries, key) < entries.len() ==> value_of(entries, key) == Some(
            entries[position(entries, key)].1,
        ) && entries[position(entries, key)].0 == key && without(entries, key) == entries.remove(
            position(entries, key),
        ) && with_value(entries, key, value) == entries.update(
            position(entries, key),
            (key, value),
        ),
    decreases entries.len(),
{
    if entries.len() > 0 {
        let rest = entries.drop_first();
        position_tells(rest, key, value);
        if entries[0].0 == key {
            assert(entries.drop_first() =~= entries.remove(0));
            assert(seq![(key, value)] + rest =~= entries.update(0, (key, value)));
        } else {
            let p = position(rest, key);
            assert(seq![entries[0]] + rest =~= entries);
            if p < rest.len() {
                assert(seq![entries[0]] + rest.remove(p) =~= entries.remove(p + 1));
                assert(seq![entries[0]] + rest.update(p, (key, value)) =~= entries.update(
                    p + 1,
                    (key, value),
                ));
            }
        }
    }
}

/// A key does not occur before its position.
proof fn position_is_first<V>(entries: Seq<(Seq<char>, V)>, key: Seq<char>, i: int)
    requires
        0 <= i <= entries.len(),
        forall|j: int| 0 <= j < i ==> #[trigger] entries[j].0 != key,
        i == entries.len() || entries[i].0 == key,
    ensures
        position(entries, key) == i,
    decreases entries.len(),
{
    if i > 0 {
        let rest = entries.drop_first();
        assert(entries[0].0 != key);
        assert forall|j: int| 0 <= j < i - 1 implies #[trigger] rest[j].0 != key by {
            assert(entries[j + 1].0 != key);
        }
        position_is_first(rest, key, i - 1);
    }
}

/// Finds the position of a key among frozen sums.
fn find_frozen(entries: &Vec<(String, i64)>, key: &str) -> (r: usize)
    ensures
        r == position(entries@.map_values(|e: (String, i64)| (e.0@, e.1)), key@),
        r <= entries@.len(),
{
    let ghost all = entries@.map_values(|e: (String, i64)| (e.0@, e.1));
    let n: usize = entries.len();
    let mut i: usize = 0;
    while i < n
        invariant
            i <= n,
            n == entries@.len(),
            all == entries@.map_values(|e: (String, i64)| (e.0@, e.1)),
            forall|j: int| 0 <= j < i ==> #[trigger] all[j].0 != key@,
        decreases n - i,
    {
        assert(all[i as int].0 == entries@[i as int].0@);
        if text::same(&entries[i].0, key) {
            proof {
                position_is_first(all, key@, i as int);
            }
            return i;
        }
        i += 1;
    }
    proof {
        position_is_first(all, key@, n as int);
    }
    n
}

/// Finds the position of a key among orders.
fn find_order(entries: &Vec<(String, Order)>, key: &str) -> (r: usize)
    ensures
        r == position(entries@.map_values(|e: (String, Order)| (e.0@, e.1@)), key@),
        r <= entries@.len(),
{
    let ghost all = entries@.map_values(|e: (String, Order)| (e.0@, e.1@));
    let n: usize = entries.len();
    let mut i: usize = 0;
    while i < n
        invariant
            i <= n,
            n == entries@.len(),
            all == entries@.map_values(|e: (String, Order)| (e.0@, e.1@)),
            forall|j: int| 0 <= j < i ==> #[trigger] all[j].0 != key@,
        decreases n - i,
    {
        assert(all[i as int].0 == entries@[i as int].0@);
        if text::same(&entries[i].0, key) {
            proof {
                position_is_first(all, key@, i as int);
            }
            return i;
        }
        i += 1;
    }
    proof {
        position_is_first(all, key@, n as int);
    }
    n
}

/// The message for an order that an account does not hold.
pub open spec fn order_missing(order_id: Seq<char>) -> Seq<char> {
    "order "@ + order_id + " not found"@
}

/// Writes the message for an order that an account does not hold.
fn order_missing_text(order_id: &str) -> (r: String)
    ensures
        r@ == order_missing(order_id@),
{
    text::joined(&text::joined("order ", order_id), " not found")
}

impl QA_Account {
    /// Releases the frozen money of an order.
    fn release(&mut self, order_id: &str)
        ensures
            final(self)@ == released(old(self)@, order_id@),
    {
        let p: usize = find_frozen(&self.frozen, order_id);
        proof {
            position_tells(self@.frozen, order_id@, 0i64);
        }
        if p < self.frozen.len() {
            let entry: (String, i64) = self.frozen.remove(p);
            self.money = amounts::plus(self.money, entry.1);
            assert(self@.frozen =~= old(self)@.frozen.remove(p as int));
        }
    }
}

impl AccountQars2Ext for QA_Account {
    open spec fn stands(&self) -> AccountView {
        self@
    }

    fn deposit(&mut self, amount: i64) {
        self.money = amounts::plus(self.money, amount);
        let accounts: Funds = Funds {
            deposit: amounts::plus(self.accounts.deposit, amount),
            ..self.accounts
        };
        self.accounts = accounts;
    }

    fn withdraw(&mut self, amount: i64) {
        self.money = amounts::minus(self.money, amount);
        let accounts: Funds = Funds {
            withdraw: amounts::plus(self.accounts.withdraw, amount),
            ..self.accounts
        };
        self.accounts = accounts;
    }

    fn get_frozen_margin(&self) -> (r: i64) {
        let n: usize = self.frozen.len();
        let mut sum: i128 = 0;
        let mut i: usize = 0;
        while i < n
            invariant
                i <= n,
                n == self.frozen@.len(),
                sum == total(self@.frozen.take(i as int)),
                -0x8000_0000_0000_0000 * i <= sum <= 0x8000_0000_0000_0000 * i,
            decreases n - i,
        {
            assert(self@.frozen.take(i + 1).drop_last() =~= self@.frozen.take(i as int));
            sum = sum + self.frozen[i].1 as i128;
            i += 1;
        }
        assert(self@.frozen.take(n as int) =~= self@.frozen);
        if sum < i64::MIN as i128 {
            i64::MIN
        } else if sum > i64::MAX as i128 {
            i64::MAX
        } else {
            sum as i64
        }
    }

    fn on_order_confirm(&mut self, order_id: &str, exchange_order_id: &str) -> (r: Result<(), String>) {
        let p: usize = find_order(&self.dailyorders, order_id);
        if p < self.dailyorders.len() {
            let (key, order): (String, Order) = self.dailyorders.remove(p);
            let order: Order = Order {
                status: "ALIVE".to_string(),
                exchange_order_id: exchange_order_id.to_string(),
                ..order
            };
            proof {
                position_tells(old(self)@.dailyorders, order_id@, order@);
            }
            self.dailyorders.insert(p, (key, order));
            assert(self@.dailyorders =~= old(self)@.dailyorders.update(
                p as int,
                (order_id@, order@),
            ));
            Ok(())
        } else {
            proof {
                position_tells(old(self)@.dailyorders, order_id@, arbitrary());
            }
            Err(order_missing_text(order_id))
        }
    }

    fn cancel_order(&mut self, order_id: &str, closed: &str) -> (r: Result<Order, String>) {
        proof {
            if self@.well_formed() {
                accounts_stay_well_formed(self@, 0, order_id@, order_id@, closed@);
            }
        }
        self.release(order_id);
        let ghost mid = self@;
        let p: usize = find_order(&self.dailyorders, order_id);
        if p < self.dailyorders.len() {
            let (key, order): (String, Order) = self.dailyorders.remove(p);
            let order: Order = Order { status: closed.to_string(), volume_left: 0, ..order };
            proof {
                position_tells(mid.dailyorders, order_id@, order@);
            }
            let copy: Order = order.clone();
            self.dailyorders.insert(p, (key, order));
            assert(self@.dailyorders =~= mid.dailyorders.update(p as int, (order_id@, order@)));
            Ok(copy)
        } else {
            proof {
                position_tells(mid.dailyorders, order_id@, arbitrary());
            }
            Err(order_missing_text(order_id))
        }
    }
}

/// What is paid in and out again leaves the available money as it was, and
/// counts in both totals, where the sums fit.
pub proof fn payments_cancel_out(a: AccountView, amount: int)
    requires
        i64::MIN <= a.money + amount <= i64::MAX,
    ensures
        withdrawn(deposited(a, amount), amount).money == a.money,
        withdrawn(deposited(a, amount), amount).frozen == a.frozen,
        withdrawn(deposited(a, amount), amount).dailyorders == a.dailyorders,
        i64::MIN <= a.accounts.deposit + amount <= i64::MAX ==> withdrawn(
            deposited(a, amount),
            amount,
        ).accounts.deposit == a.accounts.deposit + amount,
        i64::MIN <= a.accounts.withdraw + amount <= i64::MAX ==> withdrawn(
            deposited(a, amount),
            amount,
        ).accounts.withdraw == a.accounts.withdraw + amount,
{
}

/// A value is part of the sum.
proof fn total_without(entries: Seq<(Seq<char>, i64)>, p: int)
    requires
        0 <= p < entries.len(),
    ensures
        total(entries.remove(p)) + entries[p].1 == total(entries),
    decreases entries.len(),
{
    if p == entries.len() - 1 {
        assert(entries.remove(p) =~= entries.drop_last());
    } else {
        total_without(entries.drop_last(), p);
        assert(entries.remove(p).drop_last() =~= entries.drop_last().remove(p));
        assert(entries.remove(p).last() == entries.last());
    }
}

/// A cancellation moves exactly the frozen money of the order back: available
/// and frozen money together stay the same, where the available money fits.
pub proof fn cancelling_keeps_the_money(a: AccountView, order_id: Seq<char>, closed: Seq<char>)
    requires
        value_of(a.frozen, order_id) matches Some(m) ==> i64::MIN <= a.money + m <= i64::MAX,
    ensures
        cancelled(a, order_id, closed).money + total(cancelled(a, order_id, closed).frozen) == a.money
            + total(a.frozen),
{
    position_tells(a.frozen, order_id, 0i64);
    let p = position(a.frozen, order_id);
    if p < a.frozen.len() {
        total_without(a.frozen, p);
    }
}

/// Entries without that of a key have no key twice where they had none, and the
/// key no longer; the other keys have what they had.
proof fn without_keeps_keys<V>(entries: Seq<(Seq<char>, V)>, key: Seq<char>)
    requires
        distinct_keys(entries),
    ensures
        distinct_keys(without(entries, key)),
        value_of(without(entries, key), key) is None,
        forall|other: Seq<char>|
            other != key ==> #[trigger] value_of(without(entries, key), other) == value_of(
                entries,
                other,
            ),
    decreases entries.len(),
{
    let left = without(entries, key);
    if entries.len() > 0 {
        let rest = entries.drop_first();
        assert(distinct_keys(rest)) by {
            assert forall|i: int, j: int| 0 <= i < j < rest.len() implies #[trigger] rest[i].0
                != #[trigger] rest[j].0 by {
                assert(rest[i] == entries[i + 1] && rest[j] == entries[j + 1]);
            }
        }
        without_keeps_keys(rest, key);
        if entries[0].0 == key {
            assert forall|j: int| 0 <= j < rest.len() implies #[trigger] rest[j].0 != key by {
                assert(rest[j] == entries[j + 1]);
            }
            position_is_first(rest, key, rest.len() as int);
            position_tells(rest, key, arbitrary());
        } else {
            let tail = without(rest, key);
            position_tells(rest, key, arbitrary());
            assert(left.drop_first() =~= tail);
            assert forall|i: int, j: int| 0 <= i < j < left.len() implies #[trigger] left[i].0
                != #[trigger] left[j].0 by {
                let p = position(rest, key);
                assert(left[j] == tail[j - 1]);
                let q = if j - 1 < p {
                    j - 1
                } else {
                    j
                };
                assert(tail[j - 1] == rest[q] && rest[q] == entries[q + 1]);
                if i > 0 {
                    assert(left[i] == tail[i - 1]);
                } else {
                    assert(left[i] == entries[0]);
                }
            }
            assert forall|other: Seq<char>| other != key implies #[trigger] value_of(left, other)
                == value_of(entries, other) by {
                assert(value_of(tail, other) == value_of(rest, other));
            }
        }
    }
}

/// Entries with another value at a key have the keys that they had, and the
/// other keys have what they had.
proof fn with_value_keeps_keys<V>(entries: Seq<(Seq<char>, V)>, key: Seq<char>, value: V)
    ensures
        distinct_keys(entries) ==> distinct_keys(with_value(entries, key, value)),
        value_of(with_value(entries, key, value), key) == (if value_of(entries, key) is Some {
            Some(value)
        } else {
            None
        }),
        forall|other: Seq<char>|
            other != key ==> #[trigger] value_of(with_value(entries, key, value), other)
                == value_of(entries, other),
    decreases entries.len(),
{
    let new = with_value(entries, key, value);
    position_tells(entries, key, value);
    if distinct_keys(entries) {
        assert forall|i: int, j: int| 0 <= i < j < new.len() implies #[trigger] new[i].0
            != #[trigger] new[j].0 by {
            assert(new[i].0 == entries[i].0 && new[j].0 == entries[j].0);
        }
    }
    if entries.len() > 0 {
        let rest = entries.drop_first();
        with_value_keeps_keys(rest, key, value);
        if entries[0].0 == key {
            assert(new.drop_first() =~= rest);
        } else {
            assert(new.drop_first() =~= with_value(rest, key, value));
            assert forall|other: Seq<char>| other != key implies #[trigger] value_of(new, other)
                == value_of(entries, other) by {
                assert(value_of(with_value(rest, key, value), other) == value_of(rest, other));
            }
        }
    }
}

/// Whatever the exchange does with a well-formed account leaves it well formed.
pub proof fn accounts_stay_well_formed(
    a: AccountView,
    amount: int,
    order_id: Seq<char>,
    exchange_order_id: Seq<char>,
    closed: Seq<char>,
)
    requires
        a.well_formed(),
    ensures
        deposited(a, amount).well_formed(),
        withdrawn(a, amount).well_formed(),
        confirmed(a, order_id, exchange_order_id).well_formed(),
        cancelled(a, order_id, closed).well_formed(),
{
    without_keeps_keys(a.frozen, order_id);
    match value_of(a.dailyorders, order_id) {
        Some(order) => {
            with_value_keeps_keys(
                a.dailyorders,
                order_id,
                Order { status: "ALIVE"@, exchange_order_id, ..order },
            );
            with_value_keeps_keys(a.dailyorders, order_id, cancelled_order(order, closed));
        },
        None => {},
    }
}

/// A cancellation releases what is frozen for the order, once, and closes the
/// order where there is one; all other orders, and what is frozen for them, stay
/// as they were.
pub proof fn cancelling_touches_one_order(
    a: AccountView,
    order_id: Seq<char>,
    closed: Seq<char>,
    other: Seq<char>,
)
    requires
        a.well_formed(),
    ensures
        ({
            let b = cancelled(a, order_id, closed);
            &&& value_of(b.frozen, order_id) is None
            &&& value_of(b.dailyorders, order_id) == match value_of(a.dailyorders, order_id) {
                Some(order) => Some(cancelled_order(order, closed)),
                None => None,
            }
            &&& other != order_id ==> value_of(b.frozen, other) == value_of(a.frozen, other)
            &&& other != order_id ==> value_of(b.dailyorders, other) == value_of(
                a.dailyorders,
                other,
            )
            &&& b.accounts == a.accounts
        }),
{
    without_keeps_keys(a.frozen, order_id);
    match value_of(a.dailyorders, order_id) {
        Some(order) => {
            with_value_keeps_keys(a.dailyorders, order_id, cancelled_order(order, closed));
        },
        None => {},
    }
}

/// The value of a key is that of the first entry with the key.
pub proof fn values_are_found_by_key<V>(entries: Seq<(Seq<char>, V)>, key: Seq<char>, i: int)
    requires
        0 <= i < entries.len(),
        entries[i].0 == key,
        forall|j: int| 0 <= j < i ==> #[trigger] entries[j].0 != key,
    ensures
        value_of(entries, key) == Some(entries[i].1),
        without(entries, key) == entries.remove(i),
{
    position_is_first(entries, key, i);
    position_tells(entries, key, arbitrary());
}

/// A key that does not occur has no value.
pub proof fn other_keys_have_no_value<V>(entries: Seq<(Seq<char>, V)>, key: Seq<char>)
    requires
        forall|j: int| 0 <= j < entries.len() ==> #[trigger] entries[j].0 != key,
    ensures
        value_of(entries, key) is None,
        without(entries, key) == entries,
{
    position_is_first(entries, key, entries.len() as int);
    position_tells(entries, key, arbitrary());
}

/// One more frozen sum adds its money to what is frozen in all.
pub proof fn frozen_money_adds_up(entries: Seq<(Seq<char>, i64)>, next: (Seq<char>, i64))
    ensures
        total(entries.push(next)) == total(entries) + next.1,
        total(Seq::empty()) == 0,
{
    assert(entries.push(next).drop_last() =~= entries);
}

/// An order that the exchange has confirmed is alive under the identifier that the
/// exchange gave it; nothing else of it, no other order, and no money changes.
pub proof fn confirmed_orders_are_alive(
    a: AccountView,
    order_id: Seq<char>,
    exchange_order_id: Seq<char>,
    other: Seq<char>,
)
    ensures
        ({
            let b = confirmed(a, order_id, exchange_order_id);
            &&& value_of(a.dailyorders, order_id) matches Some(before) ==> {
                &&& value_of(b.dailyorders, order_id) matches Some(after)
                &&& after.status == "ALIVE"@
                &&& after.exchange_order_id == exchange_order_id
                &&& after.order_id == before.order_id && after.user_id == before.user_id
                &&& after.instrument_id == before.instrument_id
                &&& after.direction == before.direction && after.offset == before.offset
                &&& after.limit_price == before.limit_price
                &&& after.volume_orign == before.volume_orign && after.volume_left
                    == before.volume_left
            }
            &&& value_of(a.dailyorders, order_id) is None ==> b == a
            &&& other != order_id ==> value_of(b.dailyorders, other) == value_of(
                a.dailyorders,
                other,
            )
            &&& b.money == a.money && b.accounts == a.accounts && b.frozen == a.frozen
        }),
{
    match value_of(a.dailyorders, order_id) {
        Some(order) => {
            with_value_keeps_keys(
                a.dailyorders,
                order_id,
                Order { status: "ALIVE"@, exchange_order_id, ..order },
            );
        },
        None => {},
    }
}

/// An order that was cancelled has the status that closes it and nothing left to be
/// filled, and is the same order else; what was frozen for it is available again.
pub proof fn cancelled_orders_are_closed(
    a: AccountView,
    order: Order<Seq<char>>,
    order_id: Seq<char>,
    closed: Seq<char>,
)
    ensures
        cancelled_order(order, closed).status == closed,
        cancelled_order(order, closed).volume_left == 0,
        cancelled_order(order, closed).order_id == order.order_id,
        cancelled_order(order, closed).user_id == order.user_id,
        cancelled_order(order, closed).instrument_id == order.instrument_id,
        cancelled_order(order, closed).direction == order.direction,
        cancelled_order(order, closed).offset == order.offset,
        cancelled_order(order, closed).limit_price == order.limit_price,
        cancelled_order(order, closed).volume_orign == order.volume_orign,
        cancelled_order(order, closed).exchange_order_id == order.exchange_order_id,
        value_of(a.frozen, order_id) matches Some(m) ==> (i64::MIN <= a.money + m <= i64::MAX
            ==> cancelled(a, order_id, closed).money == a.money + m),
        value_of(a.frozen, order_id) is None ==> cancelled(a, order_id, closed).money == a.money,
        order_missing(order_id) == "order "@ + order_id + " not found"@,
{
}

} // verus!
