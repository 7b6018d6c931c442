//! Character-level models of domain names and small verified string helpers.
//!
//! A domain is modelled as a `Seq<char>`. Its labels are the pieces between
//! `'.'` separators, and the suffix made of the labels from index `i` onward
//! is `join(labels(d).skip(i))`.

use vstd::prelude::*;

verus! {

/// Position of the first `sep` in `s`, or `s.len()` when there is none.
pub open spec fn first_sep<A>(s: Seq<A>, sep: A) -> nat
    decreases s.len(),
{
    if s.len() == 0 {
        0
    } else if s[0] == sep {
        0
    } else {
        1 + first_sep(s.drop_first(), sep)
    }
}

/// The pieces of `s` between `sep` separators, in order; `s` without a
/// separator is a single piece.
pub open spec fn split_seq<A>(s: Seq<A>, sep: A) -> Seq<Seq<A>>
    decreases s.len(),
{
    if first_sep(s, sep) < s.len() {
        seq![s.take(first_sep(s, sep) as int)] + split_seq(s.skip(first_sep(s, sep) as int + 1), sep)
    } else {
        seq![s]
    }
}

/// Joins pieces with `sep` between neighbours.
pub open spec fn join_seq<A>(ls: Seq<Seq<A>>, sep: A) -> Seq<A>
    decreases ls.len(),
{
    if ls.len() == 0 {
        Seq::empty()
    } else if ls.len() == 1 {
        ls[0]
    } else {
        ls[0] + seq![sep] + join_seq(ls.drop_first(), sep)
    }
}

/// Position of the first `'.'` in a name, or its length when there is none.
pub open spec fn first_dot(s: Seq<char>) -> nat {
    first_sep(s, '.')
}

/// The labels of a dotted name, in order; a name without dots has one label.
pub open spec fn labels(s: Seq<char>) -> Seq<Seq<char>> {
    split_seq(s, '.')
}

/// Joins labels with `'.'` separators.
pub open spec fn join(ls: Seq<Seq<char>>) -> Seq<char> {
    join_seq(ls, '.')
}

/// The suffix formed by the labels of `d` from index `i` onward.
pub open spec fn suffix_from(d: Seq<char>, i: int) -> Seq<char> {
    join(labels(d).skip(i))
}

/// Number of labels in a dotted name.
pub open spec fn label_count(d: Seq<char>) -> nat {
    labels(d).len()
}

/// The last label of a dotted name.
pub open spec fn last_label(d: Seq<char>) -> Seq<char> {
    labels(d).last()
}

/// `first_sep` is in range, at a separator when below the length, and
/// preceded by no separator.
pub proof fn lemma_first_sep<A>(s: Seq<A>, sep: A)
    ensures
        first_sep(s, sep) <= s.len(),
        first_sep(s, sep) < s.len() ==> s[first_sep(s, sep) as int] == sep,
        forall|j: int| 0 <= j < first_sep(s, sep) ==> s[j] != sep,
    decreases s.len(),
{
    if s.len() > 0 && s[0] != sep {
        lemma_first_sep(s.drop_first(), sep);
        assert forall|j: int| 0 <= j < first_sep(s, sep) implies s[j] != sep by {
            if j > 0 {
                assert(s.drop_first()[j - 1] == s[j]);
            }
        }
    }
}

/// `first_sep` is the index of the first separator found by a scan.
pub proof fn lemma_first_sep_at<A>(s: Seq<A>, sep: A, k: int)
    requires
        0 <= k <= s.len(),
        k == s.len() || s[k] == sep,
        forall|j: int| 0 <= j < k ==> s[j] != sep,
    ensures
        first_sep(s, sep) == k,
    decreases s.len(),
{
    if s.len() > 0 && k > 0 {
        lemma_first_sep_at(s.drop_first(), sep, k - 1);
    }
}

/// A split has at least one piece, the text before the first separator.
pub proof fn lemma_split_nonempty<A>(s: Seq<A>, sep: A)
    ensures
        split_seq(s, sep).len() >= 1,
        split_seq(s, sep)[0] == s.take(first_sep(s, sep) as int),
    decreases s.len(),
{
    lemma_first_sep(s, sep);
    if first_sep(s, sep) < s.len() {
        lemma_split_nonempty(s.skip(first_sep(s, sep) as int + 1), sep);
    } else {
        assert(s.take(s.len() as int) =~= s);
    }
}

/// Splitting and joining give back the original sequence.
pub proof fn lemma_join_split<A>(s: Seq<A>, sep: A)
    ensures
        join_seq(split_seq(s, sep), sep) == s,
    decreases s.len(),
{
    lemma_first_sep(s, sep);
    lemma_split_nonempty(s, sep);
    if first_sep(s, sep) < s.len() {
        let k = first_sep(s, sep) as int;
        let rest = s.skip(k + 1);
        lemma_join_split(rest, sep);
        lemma_split_nonempty(rest, sep);
        let ls = split_seq(s, sep);
        assert(ls.drop_first() =~= split_seq(rest, sep));
        assert(join_seq(ls, sep) == ls[0] + seq![sep] + join_seq(ls.drop_first(), sep));
        assert(s =~= s.take(k) + seq![sep] + rest);
    }
}

/// The pieces after the first separator are the remaining pieces.
pub proof fn lemma_split_step<A>(s: Seq<A>, sep: A)
    requires
        first_sep(s, sep) < s.len(),
    ensures
        split_seq(s.skip(first_sep(s, sep) as int + 1), sep) == split_seq(s, sep).drop_first(),
        split_seq(s, sep).len() == 1 + split_seq(s.skip(first_sep(s, sep) as int + 1), sep).len(),
        split_seq(s, sep)[0] == s.take(first_sep(s, sep) as int),
{
    let k = first_sep(s, sep) as int;
    assert(split_seq(s, sep).drop_first() =~= split_seq(s.skip(k + 1), sep));
}

/// A sequence without a separator is a single piece.
pub proof fn lemma_split_single<A>(s: Seq<A>, sep: A)
    requires
        first_sep(s, sep) >= s.len(),
    ensures
        split_seq(s, sep) == seq![s],
{
}

/// Walking `i` separators from the start reaches `suffix_from(d, i)`.
pub proof fn lemma_suffix_from_rest(d: Seq<char>, pos: int, i: int)
    requires
        0 <= pos <= d.len(),
        0 <= i,
        labels(d.skip(pos)) == labels(d).skip(i),
    ensures
        suffix_from(d, i) == d.skip(pos),
{
    lemma_join_split(d.skip(pos), '.');
}

/// Index of the first `'.'` at or after `pos`, or the length when there is none.
pub fn find_dot_from(d: &str, len: usize, pos: usize) -> (r: usize)
    requires
        len == d@.len(),
        pos <= len,
    ensures
        r == pos + first_dot(d@.skip(pos as int)),
        r <= len,
{
    let mut j = pos;
    while j < len
        invariant
            len == d@.len(),
            pos <= j <= len,
            forall|k: int| pos <= k < j ==> d@[k] != '.',
        ensures
            pos <= j <= len,
            j == len || d@[j as int] == '.',
            forall|k: int| pos <= k < j ==> d@[k] != '.',
        decreases len - j,
    {
        if d.get_char(j) == '.' {
            break;
        }
        j = j + 1;
    }
    proof {
        let s = d@.skip(pos as int);
        assert forall|k: int| 0 <= k < j - pos implies s[k] != '.' by {
            assert(s[k] == d@[pos + k]);
        }
        if j < len {
            assert(s[j - pos] == d@[j as int]);
        }
        lemma_first_sep_at(s, '.', j - pos);
    }
    j
}

/// Whether `a` equals the part of `d` that starts at character `pos`.
pub fn str_eq_at(a: &str, d: &str, d_len: usize, pos: usize) -> (r: bool)
    requires
        d_len == d@.len(),
        pos <= d_len,
    ensures
        r == (a@ == d@.skip(pos as int)),
{
    let a_len = a.unicode_len();
    if a_len != d_len - pos {
        proof {
            assert(d@.skip(pos as int).len() == d_len - pos);
        }
        return false;
    }
    let mut k: usize = 0;
    while k < a_len
        invariant
            a_len == a@.len(),
            d_len == d@.len(),
            pos <= d_len,
            a_len == d_len - pos,
            k <= a_len,
            forall|m: int| 0 <= m < k ==> a@[m] == d@[pos + m],
        decreases a_len - k,
    {
        if a.get_char(k) != d.get_char(pos + k) {
            proof {
                assert(d@.skip(pos as int)[k as int] == d@[pos + k]);
            }
            return false;
        }
        k = k + 1;
    }
    proof {
        assert(a@ =~= d@.skip(pos as int));
    }
    true
}

/// Whether two strings hold the same characters.
pub fn str_eq(a: &str, b: &str) -> (r: bool)
    ensures
        r == (a@ == b@),
{
    let b_len = b.unicode_len();
    proof {
        assert(b@.skip(0) =~= b@);
    }
    str_eq_at(a, b, b_len, 0)
}

/// Copies the characters of `d` from `pos` to its end into a new `String`.
pub fn tail_string(d: &str, len: usize, pos: usize) -> (r: String)
    requires
        len == d@.len(),
        pos <= len,
    ensures
        r@ == d@.skip(pos as int),
{
    let part = d.substring_char(pos, len);
    proof {
        assert(d@.subrange(pos as int, len as int) =~= d@.skip(pos as int));
    }
    part.to_owned()
}

/// Character position at which the `i`-th label of `d` starts.
pub fn label_start(d: &str, len: usize, i: usize) -> (r: usize)
    requires
        len == d@.len(),
        i < label_count(d@),
    ensures
        r <= len,
        labels(d@.skip(r as int)) == labels(d@).skip(i as int),
        d@.skip(r as int) == suffix_from(d@, i as int),
{
    let mut pos: usize = 0;
    let mut k: usize = 0;
    proof {
        assert(d@.skip(0) =~= d@);
        assert(labels(d@).skip(0) =~= labels(d@));
    }
    while k < i
        invariant
            len == d@.len(),
            i < label_count(d@),
            k <= i,
            pos <= len,
            labels(d@.skip(pos as int)) == labels(d@).skip(k as int),
        decreases i - k,
    {
        let dot = find_dot_from(d, len, pos);
        proof {
            let s = d@.skip(pos as int);
            if first_dot(s) >= s.len() {
                lemma_split_single(s, '.');
                assert(labels(d@).skip(k as int).len() == 1);
                assert(false);
            }
            lemma_split_step(s, '.');
            assert(s.skip(first_dot(s) as int + 1) =~= d@.skip(dot + 1));
            assert(labels(d@).skip(k as int).drop_first() =~= labels(d@).skip(k + 1));
        }
        pos = dot + 1;
        k = k + 1;
    }
    proof {
        lemma_suffix_from_rest(d@, pos as int, i as int);
    }
    pos
}

/// Number of labels of `d`.
pub fn count_labels(d: &str) -> (r: usize)
    requires
        d@.len() < usize::MAX,
    ensures
        r == label_count(d@),
{
    let len = d.unicode_len();
    let mut pos: usize = 0;
    let mut k: usize = 1;
    proof {
        assert(d@.skip(0) =~= d@);
    }
    loop
        invariant
            len == d@.len(),
            pos <= len,
            1 <= k <= pos + 1,
            len < usize::MAX,
            k - 1 + label_count(d@.skip(pos as int)) == label_count(d@),
        decreases len - pos,
    {
        let dot = find_dot_from(d, len, pos);
        let ghost s = d@.skip(pos as int);
        if dot == len {
            proof {
                lemma_split_single(s, '.');
            }
            return k;
        }
        proof {
            lemma_split_step(s, '.');
            assert(s.skip(first_dot(s) as int + 1) =~= d@.skip(dot + 1));
        }
        pos = dot + 1;
        k = k + 1;
    }
}

/// The last label of a dotted name, as an owned string.
pub fn last_label_string(d: &str) -> (r: String)
    ensures
        r@ == last_label(d@),
{
    let len = d.unicode_len();
    let mut pos: usize = 0;
    let ghost mut i: int = 0;
    proof {
        assert(d@.skip(0) =~= d@);
        assert(labels(d@).skip(0) =~= labels(d@));
        lemma_split_nonempty(d@, '.');
    }
    loop
        invariant
            len == d@.len(),
            pos <= len,
            0 <= i < label_count(d@),
            labels(d@.skip(pos as int)) == labels(d@).skip(i),
        decreases len - pos,
    {
        let dot = find_dot_from(d, len, pos);
        let ghost s = d@.skip(pos as int);
        if dot == len {
            proof {
                lemma_split_single(s, '.');
                assert(labels(d@).skip(i).len() == 1);
                assert(labels(d@).skip(i)[0] == labels(d@).last());
            }
            return tail_string(d, len, pos);
        }
        proof {
            lemma_split_step(s, '.');
            assert(s.skip(first_dot(s) as int + 1) =~= d@.skip(dot + 1));
            assert(labels(d@).skip(i).drop_first() =~= labels(d@).skip(i + 1));
        }
        pos = dot + 1;
        proof {
            i = i + 1;
        }
    }
}

} // verus!
