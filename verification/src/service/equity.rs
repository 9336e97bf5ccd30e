//! The equity of an account over time.
//!
//! Rates are exact fractions of sums of money.
use crate::service;
use crate::service::ApiError;
use crate::text;
use vstd::prelude::*;

verus! {

/// A fraction.
#[derive(Debug, Clone, Copy)]
pub struct Ratio {
    pub num: i128,
    pub den: i128,
}

/// The fraction that stands for nothing.
pub open spec fn zero() -> Ratio {
    Ratio { num: 0, den: 1 }
}

/// A fraction, or nothing where it has no denominator.
pub open spec fn ratio(num: int, den: int) -> Ratio {
    if den != 0 {
        Ratio { num: num as i128, den: den as i128 }
    } else {
        zero()
    }
}

/// The settlement of an account at the end of a day.
#[derive(Debug)]
pub struct AccountSettlement<S = String> {
    pub date: S,
    pub balance: i64,
    pub available: i64,
    pub margin: i64,
    pub close_profit: i64,
    pub commission: i64,
}

impl View for AccountSettlement<String> {
    type V = AccountSettlement<Seq<char>>;

    open spec fn view(&self) -> AccountSettlement<Seq<char>> {
        AccountSettlement {
            date: self.date@,
            balance: self.balance,
            available: self.available,
            margin: self.margin,
            close_profit: self.close_profit,
            commission: self.commission,
        }
    }
}

/// The equity of an account on a day.
#[derive(Debug)]
pub struct EquityCurvePoint<S = String> {
    pub date: S,
    pub balance: i64,
    pub available: i64,
    pub margin: i64,
    pub daily_profit: i128,
    pub daily_profit_rate: Ratio,
    pub trade_count: i32,
    pub commission: i64,
}

impl View for EquityCurvePoint<String> {
    type V = EquityCurvePoint<Seq<char>>;

    open spec fn view(&self) -> EquityCurvePoint<Seq<char>> {
        EquityCurvePoint {
            date: self.date@,
            balance: self.balance,
            available: self.available,
            margin: self.margin,
            daily_profit: self.daily_profit,
            daily_profit_rate: self.daily_profit_rate,
            trade_count: self.trade_count,
            commission: self.commission,
        }
    }
}

/// The view of a list of settlements.
pub open spec fn settlements_view(v: Seq<AccountSettlement>) -> Seq<AccountSettlement<Seq<char>>> {
    v.map_values(|s: AccountSettlement| s@)
}

/// The view of a list of points.
pub open spec fn points_view(v: Seq<EquityCurvePoint>) -> Seq<EquityCurvePoint<Seq<char>>> {
    v.map_values(|p: EquityCurvePoint| p@)
}

/// Settlements in the order of their dates with one more, behind all that are
/// not after it.
pub open spec fn inserted(
    sorted: Seq<AccountSettlement<Seq<char>>>,
    x: AccountSettlement<Seq<char>>,
) -> Seq<AccountSettlement<Seq<char>>>
    decreases sorted.len(),
{
    if sorted.len() == 0 || text::text_le(sorted.last().date, x.date) {
        sorted.push(x)
    } else {
        inserted(sorted.drop_last(), x).push(sorted.last())
    }
}

/// Settlements in the order of their dates; those of one date keep their order.
pub open spec fn by_date(v: Seq<AccountSettlement<Seq<char>>>) -> Seq<AccountSettlement<Seq<char>>>
    decreases v.len(),
{
    if v.len() == 0 {
        v
    } else {
        inserted(by_date(v.drop_last()), v.last())
    }
}

/// The balance before a settlement: that of the settlement before it, or the
/// balance without the profit where there is none.
pub open spec fn balance_before(sorted: Seq<AccountSettlement<Seq<char>>>, i: int) -> int {
    if i == 0 {
        sorted[0].balance - sorted[0].close_profit
    } else {
        sorted[i - 1].balance as int
    }
}

/// The point of a settlement.
pub open spec fn point_of(sorted: Seq<AccountSettlement<Seq<char>>>, i: int) -> EquityCurvePoint<
    Seq<char>,
> {
    let before = balance_before(sorted, i);
    let profit = sorted[i].balance - before;
    EquityCurvePoint {
        date: sorted[i].date,
        balance: sorted[i].balance,
        available: sorted[i].available,
        margin: sorted[i].margin,
        daily_profit: profit as i128,
        daily_profit_rate: ratio(profit, before),
        trade_count: 0,
        commission: sorted[i].commission,
    }
}

/// The points of settlements, in the order of their dates.
pub open spec fn points_of(settlements: Seq<AccountSettlement<Seq<char>>>) -> Seq<
    EquityCurvePoint<Seq<char>>,
> {
    let sorted = by_date(settlements);
    Seq::new(sorted.len(), |i: int| point_of(sorted, i))
}

/// One more settlement stands at the place where everything behind it is after
/// it and what is before it is not.
proof fn inserted_at(
    sorted: Seq<AccountSettlement<Seq<char>>>,
    x: AccountSettlement<Seq<char>>,
    p: int,
)
    requires
        0 <= p <= sorted.len(),
        forall|j: int| p <= j < sorted.len() ==> !text::text_le(#[trigger] sorted[j].date, x.date),
        p > 0 ==> text::text_le(sorted[p - 1].date, x.date),
    ensures
        inserted(sorted, x) == sorted.insert(p, x),
    decreases sorted.len(),
{
    if p == sorted.len() {
        assert(sorted.insert(p, x) =~= sorted.push(x));
    } else {
        assert(!text::text_le(sorted[sorted.len() - 1].date, x.date));
        inserted_at(sorted.drop_last(), x, p);
        assert(sorted.drop_last().insert(p, x).push(sorted.last()) =~= sorted.insert(p, x));
    }
}

/// Puts settlements in the order of their dates.
fn sort_by_date(settlements: Vec<AccountSettlement>) -> (r: Vec<AccountSettlement>)
    ensures
        settlements_view(r@) == by_date(settlements_view(settlements@)),
{
    let ghost all = settlements_view(settlements@);
    let mut left: Vec<AccountSettlement> = settlements;
    let mut out: Vec<AccountSettlement> = Vec::new();
    let ghost mut done: int = 0;
    assert(settlements_view(out@) =~= by_date(all.take(0)));
    while left.len() > 0
        invariant
            0 <= done <= all.len(),
            all == settlements_view(settlements@),
            left@ == settlements@.skip(done),
            settlements_view(out@) == by_date(all.take(done)),
        decreases left@.len(),
    {
        let next: AccountSettlement = left.remove(0);
        let ghost sorted = settlements_view(out@);
        assert(next@ == all[done]);
        let mut p: usize = out.len();
        while p > 0 && !text::not_after(&out[p - 1].date, &next.date)
            invariant
                p <= out@.len(),
                sorted == settlements_view(out@),
                forall|j: int|
                    p <= j < sorted.len() ==> !text::text_le(
                        #[trigger] sorted[j].date,
                        next@.date,
                    ),
            decreases p,
        {
            assert(sorted[p - 1].date == out@[p - 1].date@);
            p = p - 1;
        }
        proof {
            if p > 0 {
                assert(sorted[p - 1].date == out@[p - 1].date@);
            }
            inserted_at(sorted, next@, p as int);
        }
        out.insert(p, next);
        proof {
            assert(settlements_view(out@) =~= sorted.insert(p as int, next@));
            assert(all.take(done + 1).drop_last() =~= all.take(done));
            assert(all.take(done + 1).last() == next@);
            done = done + 1;
            assert(left@ =~= settlements@.skip(done));
        }
    }
    assert(all.take(done) =~= all);
    out
}

/// Makes a fraction, or nothing where it has no denominator.
fn make_ratio(num: i128, den: i128) -> (r: Ratio)
    ensures
        r == ratio(num as int, den as int),
{
    if den != 0 {
        Ratio { num, den }
    } else {
        Ratio { num: 0, den: 1 }
    }
}

/// The points of settlements, in the order of their dates.
pub fn convert_settlements(settlements: Vec<AccountSettlement>) -> (r: Vec<EquityCurvePoint>)
    ensures
        points_view(r@) == points_of(settlements_view(settlements@)),
{
    let sorted: Vec<AccountSettlement> = sort_by_date(settlements);
    let ghost all = settlements_view(sorted@);
    let n: usize = sorted.len();
    let mut out: Vec<EquityCurvePoint> = Vec::new();
    let mut i: usize = 0;
    while i < n
        invariant
            i <= n,
            n == sorted@.len(),
            all == settlements_view(sorted@),
            out@.len() == i,
            forall|j: int| 0 <= j < i ==> #[trigger] out@[j]@ == point_of(all, j),
        decreases n - i,
    {
        let s: &AccountSettlement = &sorted[i];
        assert(all[i as int] == s@);
        let before: i128 = if i == 0 {
            s.balance as i128 - s.close_profit as i128
        } else {
            assert(all[i - 1] == sorted@[i - 1]@);
            sorted[i - 1].balance as i128
        };
        let profit: i128 = s.balance as i128 - before;
        out.push(
            EquityCurvePoint {
                date: s.date.clone(),
                balance: s.balance,
                available: s.available,
                margin: s.margin,
                daily_profit: profit,
                daily_profit_rate: make_ratio(profit, before),
                trade_count: 0,
                commission: s.commission,
            },
        );
        i += 1;
    }
    assert(points_view(out@) =~= points_of(settlements_view(settlements@)));
    out
}

/// The point of the present figures of an account, without a profit.
pub open spec fn present_point(date: Seq<char>, balance: i64, available: i64, margin: i64) -> EquityCurvePoint<
    Seq<char>,
> {
    EquityCurvePoint {
        date,
        balance,
        available,
        margin,
        daily_profit: 0,
        daily_profit_rate: zero(),
        trade_count: 0,
        commission: 0,
    }
}

/// The point that stands for an account without settlements: its present
/// figures, without a profit.
pub fn current_point(date: String, balance: i64, available: i64, margin: i64) -> (r: EquityCurvePoint)
    ensures
        r@ == (EquityCurvePoint {
            date: date@,
            balance,
            available,
            margin,
            daily_profit: 0i128,
            daily_profit_rate: zero(),
            trade_count: 0i32,
            commission: 0i64,
        }),
        r@ == present_point(date@, balance, available, margin),
{
    EquityCurvePoint {
        date,
        balance,
        available,
        margin,
        daily_profit: 0,
        daily_profit_rate: Ratio { num: 0, den: 1 },
        trade_count: 0,
        commission: 0,
    }
}

/// The points of an account: those of its settlements, or else the present one.
pub fn equity_points(settlements: Vec<AccountSettlement>, current: EquityCurvePoint) -> (r: Vec<
    EquityCurvePoint,
>)
    ensures
        points_view(r@) == if settlements@.len() == 0 {
            seq![current@]
        } else {
            points_of(settlements_view(settlements@))
        },
{
    if settlements.len() == 0 {
        let mut out: Vec<EquityCurvePoint> = Vec::new();
        out.push(current);
        assert(points_view(out@) =~= seq![current@]);
        return out;
    }
    convert_settlements(settlements)
}

/// The user whose equity is asked for.
pub fn get_equity_curve(user_id: String) -> (r: Result<String, ApiError>)
    ensures
        match r {
            Ok(id) => user_id@.len() > 0 && id@ == user_id@,
            Err(e) => user_id@.len() == 0 && e@ == service::bad_request(400, "Missing user_id"@),
        },
{
    proof {
        reveal_strlit("");
    }
    if text::same(&user_id, "") {
        assert(user_id@.len() == 0);
        return Err(service::bad(400, "Missing user_id".to_string()));
    }
    assert(user_id@.len() == 0 ==> user_id@ =~= ""@);
    Ok(user_id)
}

/// The larger of two numbers.
pub open spec fn larger(a: int, b: int) -> int {
    if a >= b {
        a
    } else {
        b
    }
}

/// The highest balance up to a day.
pub open spec fn peak(p: Seq<EquityCurvePoint<Seq<char>>>, i: int) -> int
    decreases i,
{
    if i <= 0 {
        p[0].balance as int
    } else {
        larger(peak(p, i - 1), p[i].balance as int)
    }
}

/// How far the balance of a day is below the highest balance so far.
pub open spec fn drawdown(p: Seq<EquityCurvePoint<Seq<char>>>, i: int) -> int {
    peak(p, i) - p[i].balance
}

/// The largest drawdown up to a day.
pub open spec fn max_drawdown(p: Seq<EquityCurvePoint<Seq<char>>>, i: int) -> int
    decreases i,
{
    if i <= 0 {
        0
    } else {
        larger(max_drawdown(p, i - 1), drawdown(p, i))
    }
}

/// Whether a fraction with a positive denominator is below another such one.
pub open spec fn below(a: Ratio, b: Ratio) -> bool {
    a.num * b.den < b.num * a.den
}

/// The largest drawdown up to a day as a fraction of the peak before it, where
/// the peak is positive.
pub open spec fn max_drawdown_rate(p: Seq<EquityCurvePoint<Seq<char>>>, i: int) -> Ratio
    decreases i,
{
    if i <= 0 {
        zero()
    } else {
        let so_far = max_drawdown_rate(p, i - 1);
        let today = Ratio { num: drawdown(p, i) as i128, den: peak(p, i) as i128 };
        if peak(p, i) > 0 && below(so_far, today) {
            today
        } else {
            so_far
        }
    }
}

/// The number of days up to a day on which the balance did not fall.
pub open spec fn profit_days(p: Seq<EquityCurvePoint<Seq<char>>>, i: int) -> nat
    decreases i,
{
    if i <= 0 {
        0
    } else {
        profit_days(p, i - 1) + if p[i].balance >= p[i - 1].balance {
            1nat
        } else {
            0nat
        }
    }
}

/// The returns of the days up to a day, where the balance before was not zero.
pub open spec fn daily_returns(p: Seq<EquityCurvePoint<Seq<char>>>, i: int) -> Seq<Ratio>
    decreases i,
{
    if i <= 0 {
        Seq::empty()
    } else if p[i - 1].balance != 0 {
        daily_returns(p, i - 1).push(
            Ratio {
                num: (p[i].balance - p[i - 1].balance) as i128,
                den: p[i - 1].balance as i128,
            },
        )
    } else {
        daily_returns(p, i - 1)
    }
}

/// What is told of the equity of an account over time.
#[derive(Debug)]
pub struct EquityStatistics<R = Vec<Ratio>> {
    pub start_balance: i64,
    pub end_balance: i64,
    pub total_profit: i128,
    pub total_profit_rate: Ratio,
    pub max_drawdown: i128,
    pub max_drawdown_rate: Ratio,
    pub profit_days: usize,
    pub loss_days: usize,
    pub win_rate: Ratio,
    pub avg_daily_profit: Ratio,
    /// The returns of the days, from which the Sharpe ratio follows.
    pub daily_returns: R,
}

impl View for EquityStatistics {
    type V = EquityStatistics<Seq<Ratio>>;

    open spec fn view(&self) -> EquityStatistics<Seq<Ratio>> {
        EquityStatistics {
            start_balance: self.start_balance,
            end_balance: self.end_balance,
            total_profit: self.total_profit,
            total_profit_rate: self.total_profit_rate,
            max_drawdown: self.max_drawdown,
            max_drawdown_rate: self.max_drawdown_rate,
            profit_days: self.profit_days,
            loss_days: self.loss_days,
            win_rate: self.win_rate,
            avg_daily_profit: self.avg_daily_profit,
            daily_returns: self.daily_returns@,
        }
    }
}

/// What is told of the equity of an account over time; all zeros without a
/// point.
pub open spec fn statistics(p: Seq<EquityCurvePoint<Seq<char>>>) -> EquityStatistics<Seq<Ratio>> {
    let last = p.len() - 1;
    if p.len() == 0 {
        EquityStatistics {
            start_balance: 0,
            end_balance: 0,
            total_profit: 0,
            total_profit_rate: zero(),
            max_drawdown: 0,
            max_drawdown_rate: zero(),
            profit_days: 0,
            loss_days: 0,
            win_rate: zero(),
            avg_daily_profit: zero(),
            daily_returns: Seq::empty(),
        }
    } else {
        EquityStatistics {
            start_balance: p[0].balance,
            end_balance: p[last].balance,
            total_profit: (p[last].balance - p[0].balance) as i128,
            total_profit_rate: ratio(p[last].balance - p[0].balance, p[0].balance as int),
            max_drawdown: max_drawdown(p, last) as i128,
            max_drawdown_rate: max_drawdown_rate(p, last),
            profit_days: profit_days(p, last) as usize,
            loss_days: (last - profit_days(p, last)) as usize,
            win_rate: ratio(profit_days(p, last) as int, last),
            avg_daily_profit: ratio(p[last].balance - p[0].balance, last),
            daily_returns: daily_returns(p, last),
        }
    }
}

/// Bounds on what is computed of points.
proof fn statistics_are_bounded(p: Seq<EquityCurvePoint<Seq<char>>>, i: int)
    requires
        0 <= i < p.len(),
    ensures
        p[i].balance <= peak(p, i) <= i64::MAX,
        0 <= drawdown(p, i) <= 0xffff_ffff_ffff_ffff,
        0 <= max_drawdown(p, i) <= 0xffff_ffff_ffff_ffff,
        0 <= max_drawdown_rate(p, i).num <= 0xffff_ffff_ffff_ffff,
        0 < max_drawdown_rate(p, i).den <= i64::MAX,
        profit_days(p, i) <= i,
    decreases i,
{
    if i > 0 {
        statistics_are_bounded(p, i - 1);
    }
}

/// Whether a fraction is below another one.
fn is_below(a: Ratio, b: Ratio) -> (r: bool)
    requires
        0 <= a.num <= 0xffff_ffff_ffff_ffff,
        0 < a.den <= i64::MAX,
        0 <= b.num <= 0xffff_ffff_ffff_ffff,
        0 < b.den <= i64::MAX,
    ensures
        r == below(a, b),
{
    assert(0 <= a.num * b.den <= 0xffff_ffff_ffff_ffff * 0x7fff_ffff_ffff_ffff) by (nonlinear_arith)
        requires
            0 <= a.num <= 0xffff_ffff_ffff_ffff,
            0 < b.den <= 0x7fff_ffff_ffff_ffff,
    ;
    assert(0 <= b.num * a.den <= 0xffff_ffff_ffff_ffff * 0x7fff_ffff_ffff_ffff) by (nonlinear_arith)
        requires
            0 <= b.num <= 0xffff_ffff_ffff_ffff,
            0 < a.den <= 0x7fff_ffff_ffff_ffff,
    ;
    a.num * b.den < b.num * a.den
}

/// Computes what is told of the equity of an account over time.
pub fn compute_statistics(points: &Vec<EquityCurvePoint>) -> (r: EquityStatistics)
    ensures
        r@ == statistics(points_view(points@)),
{
    let n: usize = points.len();
    if n == 0 {
        let none: Ratio = Ratio { num: 0, den: 1 };
        return EquityStatistics {
            start_balance: 0,
            end_balance: 0,
            total_profit: 0,
            total_profit_rate: none,
            max_drawdown: 0,
            max_drawdown_rate: none,
            profit_days: 0,
            loss_days: 0,
            win_rate: none,
            avg_daily_profit: none,
            daily_returns: Vec::new(),
        };
    }
    let ghost p = points_view(points@);
    let start: i64 = points[0].balance;
    let end: i64 = points[n - 1].balance;
    assert(p[0].balance == start && p[n - 1].balance == end);
    let mut high: i64 = start;
    let mut worst: i128 = 0;
    let mut worst_rate: Ratio = Ratio { num: 0, den: 1 };
    let mut profits: usize = 0;
    let mut losses: usize = 0;
    let mut gains: Vec<Ratio> = Vec::new();
    let mut i: usize = 1;
    while i < n
        invariant
            1 <= i <= n,
            n == points@.len(),
            p == points_view(points@),
            high == peak(p, i - 1),
            worst == max_drawdown(p, i - 1),
            worst_rate == max_drawdown_rate(p, i - 1),
            profits == profit_days(p, i - 1),
            profits + losses == i - 1,
            gains@ == daily_returns(p, i - 1),
        decreases n - i,
    {
        let before: i64 = points[i - 1].balance;
        let now: i64 = points[i].balance;
        assert(p[i - 1].balance == before && p[i as int].balance == now);
        proof {
            statistics_are_bounded(p, i - 1);
            statistics_are_bounded(p, i as int);
        }
        if now > high {
            high = now;
        }
        let down: i128 = high as i128 - now as i128;
        if down > worst {
            worst = down;
        }
        if high > 0 {
            let today: Ratio = Ratio { num: down, den: high as i128 };
            if is_below(worst_rate, today) {
                worst_rate = today;
            }
        }
        if now >= before {
            profits = profits + 1;
        } else {
            losses = losses + 1;
        }
        if before != 0 {
            gains.push(Ratio { num: now as i128 - before as i128, den: before as i128 });
        }
        i += 1;
    }
    let total: i128 = end as i128 - start as i128;
    let days: usize = n - 1;
    EquityStatistics {
        start_balance: start,
        end_balance: end,
        total_profit: total,
        total_profit_rate: make_ratio(total, start as i128),
        max_drawdown: worst,
        max_drawdown_rate: worst_rate,
        profit_days: profits,
        loss_days: losses,
        win_rate: make_ratio(profits as i128, days as i128),
        avg_daily_profit: make_ratio(total, days as i128),
        daily_returns: gains,
    }
}

/// Settlements in the order of their dates are sorted, and are the same
/// settlements.
pub proof fn sorting_orders_dates(v: Seq<AccountSettlement<Seq<char>>>)
    ensures
        forall|i: int, j: int|
            0 <= i <= j < by_date(v).len() ==> text::text_le(
                #[trigger] by_date(v)[i].date,
                #[trigger] by_date(v)[j].date,
            ),
        by_date(v).to_multiset() == v.to_multiset(),
    decreases v.len(),
{
    broadcast use vstd::seq_lib::group_to_multiset_ensures;

    if v.len() > 0 {
        sorting_orders_dates(v.drop_last());
        insertion_keeps_order(by_date(v.drop_last()), v.last());
        assert(v.drop_last().push(v.last()) =~= v);
    }
}

/// One more settlement leaves settlements sorted, and adds itself alone.
proof fn insertion_keeps_order(
    sorted: Seq<AccountSettlement<Seq<char>>>,
    x: AccountSettlement<Seq<char>>,
)
    requires
        forall|i: int, j: int|
            0 <= i <= j < sorted.len() ==> text::text_le(
                #[trigger] sorted[i].date,
                #[trigger] sorted[j].date,
            ),
    ensures
        inserted(sorted, x).len() == sorted.len() + 1,
        forall|i: int, j: int|
            0 <= i <= j < inserted(sorted, x).len() ==> text::text_le(
                #[trigger] inserted(sorted, x)[i].date,
                #[trigger] inserted(sorted, x)[j].date,
            ),
        inserted(sorted, x).to_multiset() == sorted.to_multiset().insert(x),
        forall|bound: Seq<char>|
            text::text_le(x.date, bound) && (forall|k: int|
                0 <= k < sorted.len() ==> text::text_le(#[trigger] sorted[k].date, bound)) ==> (
            forall|k: int|
                0 <= k < inserted(sorted, x).len() ==> text::text_le(
                    #[trigger] inserted(sorted, x)[k].date,
                    bound,
                )),
    decreases sorted.len(),
{
    broadcast use vstd::seq_lib::group_to_multiset_ensures;

    text::text_le_total(x.date, x.date);
    if sorted.len() == 0 || text::text_le(sorted.last().date, x.date) {
        let r = sorted.push(x);
        assert forall|i: int, j: int| 0 <= i <= j < r.len() implies text::text_le(
            #[trigger] r[i].date,
            #[trigger] r[j].date,
        ) by {
            if j == sorted.len() && i < j {
                assert(text::text_le(sorted[i].date, sorted[sorted.len() - 1].date));
                text::text_le_transitive(sorted[i].date, sorted.last().date, x.date);
            }
        }
    } else {
        let front = sorted.drop_last();
        let last = sorted.last();
        insertion_keeps_order(front, x);
        text::text_le_total(last.date, x.date);
        text::text_le_total(last.date, last.date);
        let inner = inserted(front, x);
        let r = inner.push(last);
        assert forall|k: int| 0 <= k < front.len() implies text::text_le(
            #[trigger] front[k].date,
            last.date,
        ) by {
            assert(text::text_le(sorted[k].date, sorted[sorted.len() - 1].date));
        }
        assert forall|i: int, j: int| 0 <= i <= j < r.len() implies text::text_le(
            #[trigger] r[i].date,
            #[trigger] r[j].date,
        ) by {
            if j < inner.len() {
                assert(r[i] == inner[i] && r[j] == inner[j]);
            } else if i < inner.len() {
                assert(text::text_le(inner[i].date, last.date));
            }
        }
        assert(front.push(last) =~= sorted);
        assert(r.to_multiset() =~= sorted.to_multiset().insert(x));
    }
}

/// Every fall of the balance from one day to a later one is within the largest
/// drawdown.
pub proof fn drawdown_covers_every_fall(p: Seq<EquityCurvePoint<Seq<char>>>, i: int, j: int, n: int)
    requires
        0 <= i <= j <= n < p.len(),
    ensures
        p[i].balance - p[j].balance <= max_drawdown(p, n),
        peak(p, j) >= p[i].balance,
        max_drawdown(p, n) >= 0,
    decreases n,
{
    statistics_are_bounded(p, n);
    if n > j {
        drawdown_covers_every_fall(p, i, j, n - 1);
    } else if j > i {
        drawdown_covers_every_fall(p, i, j - 1, n - 1);
    }
}

/// The sum of the profits of the days after the first, up to a day.
pub open spec fn profit_sum(p: Seq<EquityCurvePoint<Seq<char>>>, i: int) -> int
    decreases i,
{
    if i <= 0 {
        0
    } else {
        profit_sum(p, i - 1) + p[i].daily_profit
    }
}

/// The profits of the days after the first add up to the total profit.
pub proof fn profits_add_up(settlements: Seq<AccountSettlement<Seq<char>>>, i: int)
    requires
        0 <= i < points_of(settlements).len(),
    ensures
        profit_sum(points_of(settlements), i) == points_of(settlements)[i].balance - points_of(
            settlements,
        )[0].balance,
    decreases i,
{
    if i > 0 {
        profits_add_up(settlements, i - 1);
    }
}

/// Every day after the first is a day of profit or a day of loss.
pub proof fn days_add_up(p: Seq<EquityCurvePoint<Seq<char>>>)
    requires
        0 < p.len() <= usize::MAX,
    ensures
        statistics(p).profit_days + statistics(p).loss_days == p.len() - 1,
{
    statistics_are_bounded(p, p.len() - 1);
}

/// The settlements of a date.
pub open spec fn of_date(v: Seq<AccountSettlement<Seq<char>>>, date: Seq<char>) -> Seq<
    AccountSettlement<Seq<char>>,
> {
    v.filter(|s: AccountSettlement<Seq<char>>| s.date == date)
}

/// One more settlement at the end is one more of its date.
proof fn of_date_grows(
    v: Seq<AccountSettlement<Seq<char>>>,
    x: AccountSettlement<Seq<char>>,
    date: Seq<char>,
)
    ensures
        of_date(v.push(x), date) == if x.date == date {
            of_date(v, date).push(x)
        } else {
            of_date(v, date)
        },
{
    reveal(Seq::filter);
    assert(v.push(x).drop_last() =~= v);
}

/// One more settlement comes last among those of its date.
proof fn insertion_is_stable(
    sorted: Seq<AccountSettlement<Seq<char>>>,
    x: AccountSettlement<Seq<char>>,
    date: Seq<char>,
)
    ensures
        of_date(inserted(sorted, x), date) == of_date(sorted.push(x), date),
    decreases sorted.len(),
{
    if !(sorted.len() == 0 || text::text_le(sorted.last().date, x.date)) {
        let front = sorted.drop_last();
        let last = sorted.last();
        text::text_le_total(x.date, x.date);
        assert(last.date != x.date);
        insertion_is_stable(front, x, date);
        of_date_grows(inserted(front, x), last, date);
        of_date_grows(front, x, date);
        of_date_grows(front, last, date);
        of_date_grows(sorted, x, date);
        assert(front.push(last) =~= sorted);
    }
}

/// Settlements of one date keep their order.
pub proof fn sorting_is_stable(v: Seq<AccountSettlement<Seq<char>>>, date: Seq<char>)
    ensures
        of_date(by_date(v), date) == of_date(v, date),
    decreases v.len(),
{
    if v.len() > 0 {
        let front = v.drop_last();
        sorting_is_stable(front, date);
        insertion_is_stable(by_date(front), v.last(), date);
        of_date_grows(by_date(front), v.last(), date);
        of_date_grows(front, v.last(), date);
        assert(front.push(v.last()) =~= v);
    }
}

/// No drawdown is a larger fraction of its peak than the largest one.
pub proof fn drawdown_rate_is_largest(p: Seq<EquityCurvePoint<Seq<char>>>, i: int, n: int)
    requires
        0 < i <= n < p.len(),
        peak(p, i) > 0,
    ensures
        !below(
            max_drawdown_rate(p, n),
            Ratio { num: drawdown(p, i) as i128, den: peak(p, i) as i128 },
        ),
    decreases n,
{
    statistics_are_bounded(p, i);
    statistics_are_bounded(p, n);
    statistics_are_bounded(p, n - 1);
    let rate = Ratio { num: drawdown(p, i) as i128, den: peak(p, i) as i128 };
    let now = max_drawdown_rate(p, n);
    if i < n {
        drawdown_rate_is_largest(p, i, n - 1);
        let before = max_drawdown_rate(p, n - 1);
        if now != before {
            let a: int = rate.num as int;
            let b: int = rate.den as int;
            let c: int = before.num as int;
            let d: int = before.den as int;
            let e: int = now.num as int;
            let f: int = now.den as int;
            assert(!(e * b < a * f)) by (nonlinear_arith)
                requires
                    c * b >= a * d,
                    c * f < e * d,
                    b > 0,
                    d > 0,
                    f > 0,
            {
                if e * b < a * f {
                    assert((e * b) * d < (a * f) * d);
                    assert((a * d) * f <= (c * b) * f);
                    assert((c * f) * b < (e * d) * b);
                    assert((a * f) * d == (a * d) * f);
                    assert((c * b) * f == (c * f) * b);
                    assert((e * d) * b == (e * b) * d);
                }
            }
        }
    }
}

/// The point of a day shows the settlement of that day. Its profit is how far the
/// balance is above that of the day before, or above the balance without the profit
/// of the day where there is none before; its rate is that profit per balance before.
pub proof fn points_show_their_day(settlements: Seq<AccountSettlement<Seq<char>>>, i: int)
    requires
        0 <= i < by_date(settlements).len(),
    ensures
        ({
            let day = by_date(settlements)[i];
            let point = points_of(settlements)[i];
            let profit = if i == 0 {
                day.close_profit as int
            } else {
                day.balance - by_date(settlements)[i - 1].balance
            };
            &&& points_of(settlements).len() == by_date(settlements).len()
            &&& point.date == day.date
            &&& point.balance == day.balance
            &&& point.available == day.available
            &&& point.margin == day.margin
            &&& point.commission == day.commission
            &&& point.trade_count == 0
            &&& point.daily_profit == profit
            &&& day.balance != profit ==> point.daily_profit_rate.num == profit
                && point.daily_profit_rate.den == day.balance - profit
            &&& day.balance == profit ==> point.daily_profit_rate.num == 0
                && point.daily_profit_rate.den == 1
        }),
{
}

/// The peak of a day is the highest balance up to it: none is higher, and one is as
/// high. The drawdown is how far the balance is below it.
pub proof fn peak_is_highest(p: Seq<EquityCurvePoint<Seq<char>>>, i: int, j: int)
    requires
        0 <= j <= i < p.len(),
    ensures
        p[j].balance <= peak(p, i),
        exists|k: int| 0 <= k <= i && #[trigger] p[k].balance == peak(p, i),
        drawdown(p, i) + p[i].balance == peak(p, i),
    decreases i,
{
    if i > 0 {
        if j < i {
            peak_is_highest(p, i - 1, j);
        } else {
            peak_is_highest(p, i - 1, i - 1);
        }
        let k = choose|k: int| 0 <= k <= i - 1 && #[trigger] p[k].balance == peak(p, i - 1);
        if peak(p, i) == peak(p, i - 1) {
            assert(p[k].balance == peak(p, i));
        } else {
            assert(p[i].balance == peak(p, i));
        }
    } else {
        assert(p[0].balance == peak(p, i));
    }
}

/// The largest drawdown is a fall that took place: from one day to a later one.
pub proof fn drawdown_took_place(p: Seq<EquityCurvePoint<Seq<char>>>, n: int)
    requires
        0 <= n < p.len(),
    ensures
        exists|i: int, j: int|
            0 <= i <= j <= n && max_drawdown(p, n) == (#[trigger] p[i]).balance - (
            #[trigger] p[j]).balance,
    decreases n,
{
    if n > 0 && max_drawdown(p, n) != max_drawdown(p, n - 1) {
        peak_is_highest(p, n, n);
        let i = choose|k: int| 0 <= k <= n && #[trigger] p[k].balance == peak(p, n);
        assert(max_drawdown(p, n) == p[i].balance - p[n].balance);
    } else if n > 0 {
        drawdown_took_place(p, n - 1);
        let (i, j) = choose|i: int, j: int|
            0 <= i <= j <= n - 1 && max_drawdown(p, n - 1) == (#[trigger] p[i]).balance - (
            #[trigger] p[j]).balance;
        assert(max_drawdown(p, n) == p[i].balance - p[j].balance);
    } else {
        assert(max_drawdown(p, n) == p[0].balance - p[0].balance);
    }
}

/// The largest rate of a drawdown is that of a day, or zero.
pub proof fn drawdown_rate_took_place(p: Seq<EquityCurvePoint<Seq<char>>>, n: int)
    requires
        0 <= n < p.len(),
    ensures
        max_drawdown_rate(p, n).num == 0 || exists|j: int|
            #![trigger p[j]]
            0 < j <= n && max_drawdown_rate(p, n).num == peak(p, j) - p[j].balance
                && max_drawdown_rate(p, n).den == peak(p, j),
        max_drawdown_rate(p, n).den > 0,
    decreases n,
{
    statistics_are_bounded(p, n);
    if n > 0 {
        drawdown_rate_took_place(p, n - 1);
        if max_drawdown_rate(p, n) != max_drawdown_rate(p, n - 1) {
            assert(max_drawdown_rate(p, n).num == peak(p, n) - p[n].balance);
        } else if max_drawdown_rate(p, n).num != 0 {
            let j = choose|j: int|
                #![trigger p[j]]
                0 < j <= n - 1 && max_drawdown_rate(p, n - 1).num == peak(p, j) - p[j].balance
                    && max_drawdown_rate(p, n - 1).den == peak(p, j);
            assert(max_drawdown_rate(p, n).num == peak(p, j) - p[j].balance);
        }
    }
}

/// A day counts as one of profit exactly where its balance is at least that of the
/// day before; its return, that is the change per balance before, is listed last,
/// where there is such a balance.
pub proof fn days_are_counted_and_listed(p: Seq<EquityCurvePoint<Seq<char>>>, i: int)
    requires
        0 < i < p.len(),
    ensures
        profit_days(p, 0) == 0,
        daily_returns(p, 0).len() == 0,
        p[i].balance >= p[i - 1].balance ==> profit_days(p, i) == profit_days(p, i - 1) + 1,
        p[i].balance < p[i - 1].balance ==> profit_days(p, i) == profit_days(p, i - 1),
        p[i - 1].balance == 0 ==> daily_returns(p, i) == daily_returns(p, i - 1),
        p[i - 1].balance != 0 ==> {
            &&& daily_returns(p, i).drop_last() == daily_returns(p, i - 1)
            &&& daily_returns(p, i).last().num == p[i].balance - p[i - 1].balance
            &&& daily_returns(p, i).last().den == p[i - 1].balance
        },
{
    if p[i - 1].balance != 0 {
        assert(daily_returns(p, i).drop_last() =~= daily_returns(p, i - 1));
    }
}

/// What is told of an account goes from its first balance to its last one: the profit
/// is the difference, its rate is per first balance, its average per day after the
/// first, and the share of days of profit is among those days.
pub proof fn statistics_span_all_days(p: Seq<EquityCurvePoint<Seq<char>>>)
    requires
        0 < p.len() <= usize::MAX,
    ensures
        ({
            let r = statistics(p);
            let days = p.len() - 1;
            &&& r.start_balance == p[0].balance
            &&& r.end_balance == p[days].balance
            &&& r.start_balance + r.total_profit == r.end_balance
            &&& p[0].balance != 0 ==> r.total_profit_rate.num == r.total_profit
                && r.total_profit_rate.den == p[0].balance
            &&& p[0].balance == 0 ==> r.total_profit_rate.num == 0
            &&& r.max_drawdown == max_drawdown(p, days)
            &&& r.max_drawdown_rate == max_drawdown_rate(p, days)
            &&& r.profit_days == profit_days(p, days)
            &&& r.profit_days + r.loss_days == days
            &&& days > 0 ==> r.win_rate.num == r.profit_days && r.win_rate.den == days
            &&& days > 0 ==> r.avg_daily_profit.num == r.total_profit && r.avg_daily_profit.den
                == days
            &&& days == 0 ==> r.win_rate.num == 0 && r.avg_daily_profit.num == 0
            &&& r.daily_returns == daily_returns(p, days)
        }),
        statistics(Seq::empty()).start_balance == 0,
        statistics(Seq::empty()).end_balance == 0,
        statistics(Seq::empty()).total_profit == 0,
        statistics(Seq::empty()).max_drawdown == 0,
        statistics(Seq::empty()).profit_days == 0,
        statistics(Seq::empty()).loss_days == 0,
        statistics(Seq::empty()).win_rate.num == 0,
{
    statistics_are_bounded(p, p.len() - 1);
}

/// The present point of an account shows its figures as they are given, and neither a
/// profit nor a commission; the statistics of that point alone show no profit.
pub proof fn present_points_show_the_figures(
    date: Seq<char>,
    balance: i64,
    available: i64,
    margin: i64,
)
    ensures
        ({
            let point = present_point(date, balance, available, margin);
            &&& point.date == date
            &&& point.balance == balance
            &&& point.available == available
            &&& point.margin == margin
            &&& point.daily_profit == 0 && point.daily_profit_rate.num == 0
            &&& point.trade_count == 0 && point.commission == 0
            &&& statistics(seq![point]).start_balance == balance
            &&& statistics(seq![point]).end_balance == balance
            &&& statistics(seq![point]).total_profit == 0
        }),
{
}

} // verus!
