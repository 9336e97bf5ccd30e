//! The concurrent tables of the router.
//!
//! Each table is a `dashmap::DashMap`. What a table holds is named by a spec
//! function of the table, keys and values taken by their views. A table is
//! only ever changed through an exclusive reference to it.
use crate::orders::OrderRouteInfo;
use crate::text;
use dashmap::DashMap;
use vstd::prelude::*;

verus! {

/// The concurrent hash map of the `dashmap` crate.
#[verifier::external_type_specification]
#[verifier::external_body]
#[verifier::reject_recursive_types(K)]
#[verifier::reject_recursive_types(V)]
#[verifier::reject_recursive_types(S)]
pub struct ExDashMap<K, V, S>(dashmap::DashMap<K, V, S>);

/// The orders of an order table, by order identifier.
pub uninterp spec fn order_table(m: DashMap<String, OrderRouteInfo>) -> Map<
    Seq<char>,
    OrderRouteInfo<Seq<char>>,
>;

/// The lists of a list table, by account.
pub uninterp spec fn list_table(m: DashMap<String, Vec<String>>) -> Map<Seq<char>, Seq<Seq<char>>>;

/// The identifiers of an identifier table, by the number of the order in the
/// matching engine.
pub uninterp spec fn id_table(m: DashMap<u64, String>) -> Map<u64, Seq<char>>;

/// The moments of a time table, by instrument.
pub uninterp spec fn time_table(m: DashMap<String, u64>) -> Map<Seq<char>, u64>;

/// `DashMap::new`: the table is empty.
#[verifier::external_body]
pub(crate) fn new_orders() -> (m: DashMap<String, OrderRouteInfo>)
    ensures
        order_table(m).dom() == Set::<Seq<char>>::empty(),
{
    DashMap::new()
}

/// `DashMap::get`: a copy of the entry of a key, or nothing where the key has none.
#[verifier::external_body]
pub(crate) fn get_order(m: &DashMap<String, OrderRouteInfo>, key: &str) -> (r: Option<OrderRouteInfo>)
    ensures
        match r {
            Some(v) => order_table(*m).contains_key(key@) && v@ == order_table(*m)[key@],
            None => !order_table(*m).contains_key(key@),
        },
{
    m.get(key).map(|entry| entry.value().clone())
}

/// `DashMap::insert`: the key has the new entry, and every other key what it had.
#[verifier::external_body]
pub(crate) fn put_order(m: &mut DashMap<String, OrderRouteInfo>, key: String, value: OrderRouteInfo)
    ensures
        order_table(*final(m)) == order_table(*old(m)).insert(key@, value@),
{
    m.insert(key, value);
}

/// `DashMap::contains_key`: whether the key has an entry.
#[verifier::external_body]
pub(crate) fn has_order(m: &DashMap<String, OrderRouteInfo>, key: &str) -> (r: bool)
    ensures
        r == order_table(*m).contains_key(key@),
{
    m.contains_key(key)
}

/// `DashMap::len`: the number of keys.
#[verifier::external_body]
pub(crate) fn order_count(m: &DashMap<String, OrderRouteInfo>) -> (r: usize)
    ensures
        r == order_table(*m).dom().len(),
{
    m.len()
}

/// `DashMap::iter`: copies of all entries with their keys, each key once, in an
/// order that nothing is said of.
#[verifier::external_body]
pub(crate) fn all_orders(m: &DashMap<String, OrderRouteInfo>) -> (r: Vec<(String, OrderRouteInfo)>)
    ensures
        forall|i: int|
            0 <= i < r@.len() ==> order_table(*m).contains_key(#[trigger] r@[i].0@) && r@[i].1@
                == order_table(*m)[r@[i].0@],
        forall|i: int, j: int| 0 <= i < j < r@.len() ==> #[trigger] r@[i].0@ != #[trigger] r@[j].0@,
        forall|k: Seq<char>|
            order_table(*m).contains_key(k) ==> exists|i: int| 0 <= i < r@.len() && #[trigger] r@[i].0@ == k,
{
    m.iter().map(|entry| (entry.key().clone(), entry.value().clone())).collect()
}

/// `DashMap::new`: the table is empty.
#[verifier::external_body]
pub(crate) fn new_lists() -> (m: DashMap<String, Vec<String>>)
    ensures
        list_table(m).dom() == Set::<Seq<char>>::empty(),
{
    DashMap::new()
}

/// `DashMap::get`: a copy of the list of a key, or nothing where the key has none.
#[verifier::external_body]
pub(crate) fn get_list(m: &DashMap<String, Vec<String>>, key: &str) -> (r: Option<Vec<String>>)
    ensures
        match r {
            Some(v) => list_table(*m).contains_key(key@) && text::texts(v@) == list_table(*m)[key@],
            None => !list_table(*m).contains_key(key@),
        },
{
    m.get(key).map(|entry| entry.value().clone())
}

/// `DashMap::insert`: the key has the new list, and every other key what it had.
#[verifier::external_body]
pub(crate) fn put_list(m: &mut DashMap<String, Vec<String>>, key: String, value: Vec<String>)
    ensures
        list_table(*final(m)) == list_table(*old(m)).insert(key@, text::texts(value@)),
{
    m.insert(key, value);
}

/// `DashMap::new`: the table is empty.
#[verifier::external_body]
pub(crate) fn new_ids() -> (m: DashMap<u64, String>)
    ensures
        id_table(m).dom() == Set::<u64>::empty(),
{
    DashMap::new()
}

/// `DashMap::get`: a copy of the identifier of a number, or nothing where the
/// number has none.
#[verifier::external_body]
pub(crate) fn get_id(m: &DashMap<u64, String>, key: u64) -> (r: Option<String>)
    ensures
        match r {
            Some(v) => id_table(*m).contains_key(key) && v@ == id_table(*m)[key],
            None => !id_table(*m).contains_key(key),
        },
{
    m.get(&key).map(|entry| entry.value().clone())
}

/// `DashMap::insert`: the number has the new identifier, and every other number
/// what it had.
#[verifier::external_body]
pub(crate) fn put_id(m: &mut DashMap<u64, String>, key: u64, value: String)
    ensures
        id_table(*final(m)) == id_table(*old(m)).insert(key, value@),
{
    m.insert(key, value);
}

/// `DashMap::new`: the table is empty.
#[verifier::external_body]
pub(crate) fn new_times() -> (m: DashMap<String, u64>)
    ensures
        time_table(m).dom() == Set::<Seq<char>>::empty(),
{
    DashMap::new()
}

/// `DashMap::get`: the moment of a key, or nothing where the key has none.
#[verifier::external_body]
pub(crate) fn get_time(m: &DashMap<String, u64>, key: &str) -> (r: Option<u64>)
    ensures
        match r {
            Some(v) => time_table(*m).contains_key(key@) && v == time_table(*m)[key@],
            None => !time_table(*m).contains_key(key@),
        },
{
    m.get(key).map(|entry| *entry.value())
}

/// `DashMap::insert`: the key has the new moment, and every other key what it had.
#[verifier::external_body]
pub(crate) fn put_time(m: &mut DashMap<String, u64>, key: String, value: u64)
    ensures
        time_table(*final(m)) == time_table(*old(m)).insert(key@, value),
{
    m.insert(key, value);
}

} // verus!
