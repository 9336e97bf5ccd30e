//! A view of an order book, and what the router reads from it.
use crate::text;
use vstd::prelude::*;

verus! {

/// A price and the volume that rests at it, both in ten-thousandths.
#[derive(Debug, Clone, Copy)]
pub struct Level {
    pub price: i64,
    pub volume: i64,
}

/// An order book: each side in the order in which it is matched, where the
/// side has one, and the last price.
#[derive(Debug)]
pub struct OrderBook {
    pub bids: Option<Vec<Level>>,
    pub asks: Option<Vec<Level>>,
    pub last_price: i64,
}

/// How many levels of each side a snapshot holds.
pub const SNAPSHOT_DEPTH: usize = 10;

/// The levels of a side; none where the side is missing.
pub open spec fn levels(side: Option<Vec<Level>>) -> Seq<Level> {
    match side {
        Some(v) => v@,
        None => Seq::empty(),
    }
}

/// The price of the first level; zero where there is none.
pub open spec fn best_price(side: Option<Vec<Level>>) -> int {
    if levels(side).len() > 0 {
        levels(side)[0].price as int
    } else {
        0
    }
}

/// Reads the price of the first level.
pub fn best(side: &Option<Vec<Level>>) -> (r: i64)
    ensures
        r == best_price(*side),
{
    match side {
        Some(v) => if v.len() > 0 {
            v[0].price
        } else {
            0
        },
        None => 0,
    }
}

/// The price at which a market order is placed: the best price of the opposite
/// side where it is positive, else the last price where that is positive, else
/// zero, which stands for no price.
pub open spec fn market_price(book: Option<OrderBook>, direction: Seq<char>) -> int {
    match book {
        None => 0,
        Some(b) => {
            let opposite = if direction == "BUY"@ {
                best_price(b.asks)
            } else if direction == "SELL"@ {
                best_price(b.bids)
            } else {
                0
            };
            if opposite > 0 {
                opposite
            } else if b.last_price > 0 {
                b.last_price as int
            } else {
                0
            }
        },
    }
}

/// Determines the price at which a market order is placed.
pub fn get_market_price_for_order(book: &Option<OrderBook>, direction: &str) -> (r: i64)
    ensures
        r == market_price(*book, direction@),
{
    match book {
        None => 0,
        Some(b) => {
            let opposite: i64 = if text::same(direction, "BUY") {
                best(&b.asks)
            } else if text::same(direction, "SELL") {
                best(&b.bids)
            } else {
                0
            };
            if opposite > 0 {
                opposite
            } else if b.last_price > 0 {
                b.last_price
            } else {
                0
            }
        },
    }
}

/// Whether a level can trade with an order that buys (or sells) at a limit.
pub open spec fn crosses(level: Level, limit: int, buying: bool) -> bool {
    if buying {
        level.price <= limit
    } else {
        level.price >= limit
    }
}

/// The volume of all levels that can trade with an order at a limit.
pub open spec fn volume_within(side: Seq<Level>, limit: int, buying: bool) -> int
    decreases side.len(),
{
    if side.len() == 0 {
        0
    } else {
        volume_within(side.drop_last(), limit, buying) + (if crosses(side.last(), limit, buying) {
            side.last().volume as int
        } else {
            0
        })
    }
}

/// The volume that an order could trade with at once.
pub open spec fn available_volume(book: OrderBook, direction: Seq<char>, price: int) -> int {
    if direction == "BUY"@ {
        volume_within(levels(book.asks), price, true)
    } else if direction == "SELL"@ {
        volume_within(levels(book.bids), price, false)
    } else {
        0
    }
}

fn sum_within(side: &Option<Vec<Level>>, limit: i64, buying: bool) -> (r: i128)
    ensures
        r == volume_within(levels(*side), limit as int, buying),
{
    match side {
        None => 0,
        Some(v) => {
            let mut total: i128 = 0;
            let mut i: usize = 0;
            let n: usize = v.len();
            assert(v@.take(0) =~= Seq::<Level>::empty());
            while i < n
                invariant
                    n == v@.len(),
                    i <= n,
                    total == volume_within(v@.take(i as int), limit as int, buying),
                    -0x8000_0000_0000_0000 * i <= total <= 0x8000_0000_0000_0000 * i,
                decreases n - i,
            {
                let level = v[i];
                assert(v@.take(i + 1).drop_last() =~= v@.take(i as int));
                let matched: bool = if buying {
                    level.price <= limit
                } else {
                    level.price >= limit
                };
                if matched {
                    total = total + level.volume as i128;
                }
                i += 1;
            }
            assert(v@.take(v@.len() as int) =~= v@);
            total
        },
    }
}

/// Whether an order could be filled at once and whole: there is an order book,
/// and it offers at least the volume of the order at its price or better.
pub open spec fn fok_fulfillable(
    book: Option<OrderBook>,
    direction: Seq<char>,
    volume: int,
    price: int,
) -> bool {
    match book {
        None => false,
        Some(b) => available_volume(b, direction, price) >= volume,
    }
}

/// Tests whether an order could be filled at once and whole.
pub fn check_fok_fulfillable(book: &Option<OrderBook>, direction: &str, volume: i64, price: i64) -> (r:
    bool)
    ensures
        r == fok_fulfillable(*book, direction@, volume as int, price as int),
{
    match book {
        None => false,
        Some(b) => {
            let available: i128 = if text::same(direction, "BUY") {
                sum_within(&b.asks, price, true)
            } else if text::same(direction, "SELL") {
                sum_within(&b.bids, price, false)
            } else {
                0
            };
            available >= volume as i128
        },
    }
}

/// The volume at the first level of a given price; zero where there is none.
pub open spec fn volume_at(side: Seq<Level>, price: int) -> int
    decreases side.len(),
{
    if side.len() == 0 {
        0
    } else if side[0].price == price {
        side[0].volume as int
    } else {
        volume_at(side.drop_first(), price)
    }
}

fn resting_volume(side: &Option<Vec<Level>>, price: i64) -> (r: i64)
    ensures
        r == volume_at(levels(*side), price as int),
{
    match side {
        None => 0,
        Some(v) => {
            let mut i: usize = 0;
            assert(v@.skip(0) =~= v@);
            while i < v.len()
                invariant
                    i <= v@.len(),
                    levels(*side) == v@,
                    volume_at(v@, price as int) == volume_at(v@.skip(i as int), price as int),
                decreases v@.len() - i,
            {
                assert(v@.skip(i as int)[0] == v@[i as int]);
                if v[i].price == price {
                    return v[i].volume;
                }
                assert(v@.skip(i as int).drop_first() =~= v@.skip(i + 1));
                i += 1;
            }
            0
        },
    }
}

/// The volume that a book update announces: nothing without an order book;
/// else the volume that is given, or the one that rests at the price.
pub open spec fn announced_volume(
    book: Option<OrderBook>,
    bid: bool,
    price: int,
    volume: Option<i64>,
) -> Option<int> {
    match (book, volume) {
        (None, _) => None,
        (Some(_), Some(v)) => Some(v as int),
        (Some(b), None) => Some(
            volume_at(
                levels(
                    if bid {
                        b.bids
                    } else {
                        b.asks
                    },
                ),
                price,
            ),
        ),
    }
}

/// Determines the volume that a book update announces.
pub fn book_update_volume(book: &Option<OrderBook>, bid: bool, price: i64, volume: Option<i64>) -> (r:
    Option<i64>)
    ensures
        match r {
            Some(v) => announced_volume(*book, bid, price as int, volume) == Some(v as int),
            None => announced_volume(*book, bid, price as int, volume) is None,
        },
{
    match book {
        None => None,
        Some(b) => match volume {
            Some(v) => Some(v),
            None => if bid {
                Some(resting_volume(&b.bids, price))
            } else {
                Some(resting_volume(&b.asks, price))
            },
        },
    }
}

/// A volume in whole units, cut off towards zero.
pub open spec fn whole_units(v: int) -> int {
    if v >= 0 {
        v / 10_000
    } else {
        -((-v) / 10_000)
    }
}

/// Cuts a volume off to whole units.
pub fn to_whole_units(v: i64) -> (r: i64)
    ensures
        r == whole_units(v as int),
{
    if v >= 0 {
        v / 10_000
    } else {
        let m: i128 = -(v as i128);
        (-(m / 10_000)) as i64
    }
}

/// The first levels of a side as prices and whole volumes, filled up with
/// zeros to the depth of a snapshot.
pub open spec fn top_levels(side: Option<Vec<Level>>) -> Seq<(i64, i64)> {
    Seq::new(
        SNAPSHOT_DEPTH as nat,
        |i: int|
            if i < levels(side).len() {
                (levels(side)[i].price, whole_units(levels(side)[i].volume as int) as i64)
            } else {
                (0i64, 0i64)
            },
    )
}

/// Lists the first levels of a side.
pub fn top(side: &Option<Vec<Level>>) -> (r: Vec<(i64, i64)>)
    ensures
        r@ == top_levels(*side),
{
    let mut out: Vec<(i64, i64)> = Vec::new();
    let mut i: usize = 0;
    while i < SNAPSHOT_DEPTH
        invariant
            i <= SNAPSHOT_DEPTH,
            out@ == top_levels(*side).take(i as int),
        decreases SNAPSHOT_DEPTH - i,
    {
        let entry: (i64, i64) = match side {
            Some(v) => if i < v.len() {
                (v[i].price, to_whole_units(v[i].volume))
            } else {
                (0, 0)
            },
            None => (0, 0),
        };
        out.push(entry);
        i += 1;
        assert(out@ =~= top_levels(*side).take(i as int));
    }
    assert(top_levels(*side).take(SNAPSHOT_DEPTH as int) =~= top_levels(*side));
    out
}

/// The price that a change of the order book is recorded with, in
/// hundred-millionths: the last price where it is positive, else the middle of
/// both best prices where both are positive, else the one that is positive, else
/// zero.
pub open spec fn reference_price(book: OrderBook) -> int {
    let bid = best_price(book.bids);
    let ask = best_price(book.asks);
    if book.last_price > 0 {
        book.last_price * 10_000
    } else if bid > 0 && ask > 0 {
        (bid + ask) * 5_000
    } else if bid > 0 {
        bid * 10_000
    } else if ask > 0 {
        ask * 10_000
    } else {
        0
    }
}

/// Determines the price that a change of the order book is recorded with.
pub fn reference(book: &OrderBook) -> (r: i128)
    ensures
        r == reference_price(*book),
{
    let bid: i64 = best(&book.bids);
    let ask: i64 = best(&book.asks);
    if book.last_price > 0 {
        book.last_price as i128 * 10_000
    } else if bid > 0 && ask > 0 {
        (bid as i128 + ask as i128) * 5_000
    } else if bid > 0 {
        bid as i128 * 10_000
    } else if ask > 0 {
        ask as i128 * 10_000
    } else {
        0
    }
}

/// Whether a volume is that of the first level of a side at a price; zero where
/// the side has none.
pub open spec fn is_volume_at(side: Seq<Level>, price: int, volume: int) -> bool {
    ||| (volume == 0 && forall|i: int| 0 <= i < side.len() ==> #[trigger] side[i].price != price)
    ||| exists|i: int|
        #![trigger side[i]]
        0 <= i < side.len() && side[i].price == price && side[i].volume == volume && forall|j: int|
            0 <= j < i ==> #[trigger] side[j].price != price
}

/// The volume at a price is that of the first level at the price.
pub proof fn volume_at_is_first(side: Seq<Level>, price: int)
    ensures
        is_volume_at(side, price, volume_at(side, price)),
        i64::MIN <= volume_at(side, price) <= i64::MAX,
    decreases side.len(),
{
    if side.len() > 0 && side[0].price != price {
        let rest = side.drop_first();
        let volume = volume_at(rest, price);
        volume_at_is_first(rest, price);
        if exists|i: int|
            #![trigger rest[i]]
            0 <= i < rest.len() && rest[i].price == price && rest[i].volume == volume
                && forall|j: int| 0 <= j < i ==> #[trigger] rest[j].price != price {
            let i = choose|i: int|
                #![trigger rest[i]]
                0 <= i < rest.len() && rest[i].price == price && rest[i].volume == volume
                    && forall|j: int| 0 <= j < i ==> #[trigger] rest[j].price != price;
            assert(side[i + 1] == rest[i]);
            assert forall|j: int| 0 <= j < i + 1 implies #[trigger] side[j].price != price by {
                if j > 0 {
                    assert(rest[j - 1].price != price);
                }
            }
        } else {
            assert forall|i: int| 0 <= i < side.len() implies #[trigger] side[i].price != price by {
                if i > 0 {
                    assert(rest[i - 1].price != price);
                }
            }
        }
    } else if side.len() > 0 {
        assert(side[0].price == price);
    }
}

/// A side offers more than another one at a limit by what each further level adds:
/// its volume, where a buyer pays no more or a seller gets no less than the limit,
/// and nothing elsewhere.
pub proof fn levels_add_up(side: Seq<Level>, level: Level, limit: int, buying: bool)
    ensures
        volume_within(Seq::empty(), limit, buying) == 0,
        buying && level.price <= limit ==> volume_within(side.push(level), limit, buying)
            == volume_within(side, limit, buying) + level.volume,
        buying && level.price > limit ==> volume_within(side.push(level), limit, buying)
            == volume_within(side, limit, buying),
        !buying && level.price >= limit ==> volume_within(side.push(level), limit, buying)
            == volume_within(side, limit, buying) + level.volume,
        !buying && level.price < limit ==> volume_within(side.push(level), limit, buying)
            == volume_within(side, limit, buying),
{
    assert(side.push(level).drop_last() =~= side);
}

/// What could be filled at once is measured on the side that the order trades with:
/// a purchase on the asks, a sale on the bids, and anything else on none.
pub proof fn orders_trade_with_the_other_side(
    book: OrderBook,
    direction: Seq<char>,
    volume: int,
    price: int,
)
    ensures
        direction == "BUY"@ ==> (fok_fulfillable(Some(book), direction, volume, price) <==> volume
            <= volume_within(levels(book.asks), price, true)),
        direction == "SELL"@ ==> (fok_fulfillable(Some(book), direction, volume, price)
            <==> volume <= volume_within(levels(book.bids), price, false)),
        direction != "BUY"@ && direction != "SELL"@ ==> (fok_fulfillable(
            Some(book),
            direction,
            volume,
            price,
        ) <==> volume <= 0),
        !fok_fulfillable(None, direction, volume, price),
        book.asks is None ==> levels(book.asks).len() == 0,
        book.asks matches Some(v) ==> levels(book.asks) == v@,
{
    reveal_strlit("BUY");
    reveal_strlit("SELL");
    assert("BUY"@.len() != "SELL"@.len());
}

/// A market order takes the first price of the side that it trades with, or else
/// the last price, as long as it is positive; without either there is none.
pub proof fn market_orders_take_the_first_price(book: OrderBook, direction: Seq<char>)
    ensures
        ({
            let price = market_price(Some(book), direction);
            let asks = book.asks is Some && book.asks->0@.len() > 0 && book.asks->0@[0].price > 0;
            let bids = book.bids is Some && book.bids->0@.len() > 0 && book.bids->0@[0].price > 0;
            &&& direction == "BUY"@ && asks ==> price == book.asks->0@[0].price
            &&& direction == "SELL"@ && bids ==> price == book.bids->0@[0].price
            &&& !(direction == "BUY"@ && asks) && !(direction == "SELL"@ && bids)
                && book.last_price > 0 ==> price == book.last_price
            &&& !(direction == "BUY"@ && asks) && !(direction == "SELL"@ && bids)
                && book.last_price <= 0 ==> price == 0
            &&& market_price(None, direction) == 0
        }),
{
    reveal_strlit("BUY");
    reveal_strlit("SELL");
    assert("BUY"@.len() != "SELL"@.len());
}

} // verus!
