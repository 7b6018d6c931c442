//! First-match lookup of catalog records by a string key.

use vstd::prelude::*;

use crate::text::{str_eq, str_eq_at};

verus! {

/// A record found in a catalog table by its string key.
pub trait Keyed {
    /// The record's key.
    spec fn key_view(&self) -> Seq<char>;

    /// Returns the record's key.
    fn key(&self) -> (k: &str)
        ensures
            k@ == self.key_view(),
    ;
}

/// `i` is the smallest index below `n` that satisfies `p`.
pub open spec fn is_first_index(p: spec_fn(int) -> bool, n: int, i: int) -> bool {
    &&& 0 <= i < n
    &&& p(i)
    &&& forall|j: int| 0 <= j < i ==> !#[trigger] p(j)
}

/// The smallest index below `n` that satisfies `p`, if there is one.
pub open spec fn first_index(p: spec_fn(int) -> bool, n: int) -> Option<int> {
    if exists|i: int| is_first_index(p, n, i) {
        Some(choose|i: int| is_first_index(p, n, i))
    } else {
        None
    }
}

/// A smallest satisfying index is the first index.
pub proof fn lemma_first_index_found(p: spec_fn(int) -> bool, n: int, i: int)
    requires
        is_first_index(p, n, i),
    ensures
        first_index(p, n) == Some(i),
{
    let c = choose|c: int| is_first_index(p, n, c);
    assert(is_first_index(p, n, c));
    if c < i {
        assert(!p(c));
    } else if c > i {
        assert(!p(i));
    }
}

/// Some satisfying index below `n` means there is a first index.
pub proof fn lemma_first_index_exists(p: spec_fn(int) -> bool, n: int, i: int)
    requires
        0 <= i < n,
        p(i),
    ensures
        first_index(p, n) is Some,
    decreases i,
{
    if forall|j: int| 0 <= j < i ==> !#[trigger] p(j) {
        lemma_first_index_found(p, n, i);
    } else {
        let j = choose|j: int| 0 <= j < i && #[trigger] p(j);
        lemma_first_index_exists(p, n, j);
    }
}

/// A record with key `key` at index `i` means the lookup finds a record with
/// that key.
pub proof fn lemma_lookup_found<T: Keyed>(items: Seq<T>, key: Seq<char>, i: int)
    requires
        0 <= i < items.len(),
        items[i].key_view() == key,
    ensures
        lookup(items, key) matches Some(x) && x.key_view() == key,
{
    assert(key_pred(items, key)(i));
    lemma_first_index_exists(key_pred(items, key), items.len() as int, i);
    lemma_first_match_facts(items, key);
}

/// With no satisfying index below `n`, there is no first index.
pub proof fn lemma_first_index_none(p: spec_fn(int) -> bool, n: int)
    requires
        forall|i: int| 0 <= i < n ==> !#[trigger] p(i),
    ensures
        first_index(p, n) is None,
{
}

/// Whether the record at `i` has key `key`.
pub open spec fn key_pred<T: Keyed>(items: Seq<T>, key: Seq<char>) -> spec_fn(int) -> bool {
    |i: int| items[i].key_view() == key
}

/// Index of the first record whose key is `key`.
pub open spec fn first_match<T: Keyed>(items: Seq<T>, key: Seq<char>) -> Option<int> {
    first_index(key_pred(items, key), items.len() as int)
}

/// The first record whose key is `key`.
pub open spec fn lookup<T: Keyed>(items: Seq<T>, key: Seq<char>) -> Option<T> {
    match first_match(items, key) {
        Some(i) => Some(items[i]),
        None => None,
    }
}

/// Whether some record has key `key`.
pub open spec fn has_key<T: Keyed>(items: Seq<T>, key: Seq<char>) -> bool {
    first_match(items, key) is Some
}

/// Relates an optional index to the first-match model.
pub open spec fn matches_first<T: Keyed>(r: Option<usize>, items: Seq<T>, key: Seq<char>) -> bool {
    match r {
        Some(i) => first_match(items, key) == Some(i as int),
        None => first_match(items, key) is None,
    }
}

/// A first match is in range and has the key.
pub proof fn lemma_first_match_facts<T: Keyed>(items: Seq<T>, key: Seq<char>)
    ensures
        first_match(items, key) matches Some(i) ==> 0 <= i < items.len() && items[i].key_view()
            == key,
{
    if first_match(items, key) is Some {
        let i = choose|i: int| is_first_index(key_pred(items, key), items.len() as int, i);
        assert(is_first_index(key_pred(items, key), items.len() as int, i));
    }
}

/// Finds the first record whose key equals the part of `d` from `pos` on.
pub fn find_at<T: Keyed>(items: &Vec<T>, d: &str, d_len: usize, pos: usize) -> (r: Option<usize>)
    requires
        d_len == d@.len(),
        pos <= d_len,
    ensures
        matches_first(r, items@, d@.skip(pos as int)),
        r matches Some(i) ==> i < items@.len(),
{
    let ghost key = d@.skip(pos as int);
    let n = items.len();
    let mut i: usize = 0;
    while i < n
        invariant
            n == items@.len(),
            i <= n,
            d_len == d@.len(),
            pos <= d_len,
            key == d@.skip(pos as int),
            forall|j: int| 0 <= j < i ==> items@[j].key_view() != key,
        decreases n - i,
    {
        if str_eq_at(items[i].key(), d, d_len, pos) {
            proof {
                assert(forall|j: int| 0 <= j < i ==> !(#[trigger] key_pred(items@, key)(j)));
                lemma_first_index_found(key_pred(items@, key), n as int, i as int);
            }
            return Some(i);
        }
        i = i + 1;
    }
    proof {
        assert(forall|j: int| 0 <= j < n ==> !(#[trigger] key_pred(items@, key)(j)));
        lemma_first_index_none(key_pred(items@, key), n as int);
    }
    None
}

/// Finds the first record whose key is `key`.
pub fn find<T: Keyed>(items: &Vec<T>, key: &str) -> (r: Option<usize>)
    ensures
        matches_first(r, items@, key@),
        r matches Some(i) ==> i < items@.len(),
{
    let n = items.len();
    let mut i: usize = 0;
    while i < n
        invariant
            n == items@.len(),
            i <= n,
            forall|j: int| 0 <= j < i ==> items@[j].key_view() != key@,
        decreases n - i,
    {
        if str_eq(items[i].key(), key) {
            proof {
                assert(forall|j: int| 0 <= j < i ==> !(#[trigger] key_pred(items@, key@)(j)));
                lemma_first_index_found(key_pred(items@, key@), n as int, i as int);
            }
            return Some(i);
        }
        i = i + 1;
    }
    proof {
        assert(forall|j: int| 0 <= j < n ==> !(#[trigger] key_pred(items@, key@)(j)));
        lemma_first_index_none(key_pred(items@, key@), n as int);
    }
    None
}

/// An optional reference as an optional value.
pub open spec fn opt_deref<T>(r: Option<&T>) -> Option<T> {
    match r {
        Some(x) => Some(*x),
        None => None,
    }
}

/// Returns the first record whose key is `key`.
pub fn get<'a, T: Keyed>(items: &'a Vec<T>, key: &str) -> (r: Option<&'a T>)
    ensures
        opt_deref(r) == lookup(items@, key@),
{
    match find(items, key) {
        Some(k) => {
            proof {
                lemma_first_match_facts(items@, key@);
            }
            Some(&items[k])
        },
        None => None,
    }
}

} // verus!
