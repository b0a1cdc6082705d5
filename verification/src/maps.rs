//! The concurrent maps of the `dashmap` crate, as far as the library uses them.
//! A map is always changed through an exclusive reference here, so that its
//! contents are a function of its value.

use dashmap::DashMap;
use vstd::prelude::*;

verus! {

/// The map type of the `dashmap` crate.
#[verifier::external_type_specification]
#[verifier::external_body]
#[verifier::reject_recursive_types(K)]
#[verifier::reject_recursive_types(V)]
#[verifier::reject_recursive_types(S)]
pub struct ExDashMap<K, V, S>(DashMap<K, V, S>);

/// What a map from texts to texts holds.
pub uninterp spec fn texts_in(m: DashMap<String, String>) -> Map<Seq<char>, Seq<char>>;

/// `DashMap::new` makes a map that holds nothing.
#[verifier::external_body]
pub(crate) fn text_map() -> (r: DashMap<String, String>)
    ensures
        forall|k: Seq<char>| !texts_in(r).dom().contains(k),
{
    DashMap::new()
}

/// `DashMap::insert` sets the value of a key, in place of an earlier one.
#[verifier::external_body]
pub(crate) fn text_insert(m: &mut DashMap<String, String>, key: String, value: String)
    ensures
        texts_in(*final(m)) == texts_in(*old(m)).insert(key@, value@),
{
    m.insert(key, value);
}

/// `DashMap::remove` takes a key out of the map and returns the value that it
/// had, if any.
#[verifier::external_body]
pub(crate) fn text_remove(m: &mut DashMap<String, String>, key: &str) -> (r: Option<String>)
    ensures
        texts_in(*final(m)) == texts_in(*old(m)).remove(key@),
        r is Some <==> texts_in(*old(m)).dom().contains(key@),
        r matches Some(v) ==> v@ == texts_in(*old(m))[key@],
{
    m.remove(key).map(|p| p.1)
}

/// `DashMap::len` counts the keys.
#[verifier::external_body]
pub(crate) fn text_len(m: &DashMap<String, String>) -> (r: usize)
    ensures
        r == texts_in(*m).dom().len(),
{
    m.len()
}

/// `DashMap::iter` walks every key once, in no particular order, with its value.
#[verifier::external_body]
pub(crate) fn text_pairs(m: &DashMap<String, String>) -> (r: Vec<(String, String)>)
    ensures
        forall|i: int|
            0 <= i < r@.len() ==> texts_in(*m).dom().contains((#[trigger] r@[i]).0@) && r@[i].1@
                == texts_in(*m)[r@[i].0@],
        forall|i: int, j: int| 0 <= i < j < r@.len() ==> (#[trigger] r@[i]).0@ != (#[trigger] r@[j]).0@,
        forall|k: Seq<char>|
            texts_in(*m).dom().contains(k) ==> exists|i: int|
                0 <= i < r@.len() && (#[trigger] r@[i]).0@ == k,
{
    m.iter().map(|e| (e.key().clone(), e.value().clone())).collect()
}

/// The texts of a row.
pub open spec fn row(r: (String, String, String)) -> (Seq<char>, Seq<char>, Seq<char>) {
    (r.0@, r.1@, r.2@)
}

/// The texts of a list of rows.
pub open spec fn rows(v: Seq<(String, String, String)>) -> Seq<(Seq<char>, Seq<char>, Seq<char>)> {
    v.map_values(|r: (String, String, String)| row(r))
}

/// What a map from texts to lists of rows holds.
pub uninterp spec fn lists_in(m: DashMap<String, Vec<(String, String, String)>>) -> Map<
    Seq<char>,
    Seq<(Seq<char>, Seq<char>, Seq<char>)>,
>;

/// `DashMap::new` makes a map that holds nothing.
#[verifier::external_body]
pub(crate) fn list_map() -> (r: DashMap<String, Vec<(String, String, String)>>)
    ensures
        forall|k: Seq<char>| !lists_in(r).dom().contains(k),
{
    DashMap::new()
}

/// `DashMap::insert` sets the list of a key, in place of an earlier one.
#[verifier::external_body]
pub(crate) fn list_insert(
    m: &mut DashMap<String, Vec<(String, String, String)>>,
    key: String,
    value: Vec<(String, String, String)>,
)
    ensures
        lists_in(*final(m)) == lists_in(*old(m)).insert(key@, rows(value@)),
{
    m.insert(key, value);
}

/// `DashMap::remove` takes a key out of the map and returns the list that it
/// had, if any.
#[verifier::external_body]
pub(crate) fn list_remove(
    m: &mut DashMap<String, Vec<(String, String, String)>>,
    key: &str,
) -> (r: Option<Vec<(String, String, String)>>)
    ensures
        lists_in(*final(m)) == lists_in(*old(m)).remove(key@),
        r is Some <==> lists_in(*old(m)).dom().contains(key@),
        r matches Some(v) ==> rows(v@) == lists_in(*old(m))[key@],
{
    m.remove(key).map(|p| p.1)
}

/// `DashMap::iter` walks every key once, in no particular order; of each list
/// its length is taken.
#[verifier::external_body]
pub(crate) fn list_lengths(m: &DashMap<String, Vec<(String, String, String)>>) -> (r: Vec<
    (String, usize),
>)
    ensures
        forall|i: int|
            0 <= i < r@.len() ==> lists_in(*m).dom().contains((#[trigger] r@[i]).0@) && r@[i].1
                == lists_in(*m)[r@[i].0@].len(),
        forall|i: int, j: int| 0 <= i < j < r@.len() ==> (#[trigger] r@[i]).0@ != (#[trigger] r@[j]).0@,
        forall|k: Seq<char>|
            lists_in(*m).dom().contains(k) ==> exists|i: int|
                0 <= i < r@.len() && (#[trigger] r@[i]).0@ == k,
{
    m.iter().map(|e| (e.key().clone(), e.value().len())).collect()
}

} // verus!
