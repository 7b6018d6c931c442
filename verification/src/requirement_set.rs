//! An ordered set of requirement identifiers supplied by a caller.

use vstd::prelude::*;

use crate::text::str_eq;

verus! {

/// Lexicographic order of character sequences by code point.
pub open spec fn seq_lt(a: Seq<char>, b: Seq<char>) -> bool
    decreases a.len(),
{
    if a.len() == 0 {
        b.len() > 0
    } else if b.len() == 0 {
        false
    } else if a[0] != b[0] {
        a[0] < b[0]
    } else {
        seq_lt(a.drop_first(), b.drop_first())
    }
}

/// Every element is strictly smaller than every later element.
pub open spec fn strictly_sorted(s: Seq<Seq<char>>) -> bool {
    forall|i: int, j: int| 0 <= i < j < s.len() ==> seq_lt(#[trigger] s[i], #[trigger] s[j])
}

/// No identifier precedes itself.
pub proof fn lemma_seq_lt_irreflexive(a: Seq<char>)
    ensures
        !seq_lt(a, a),
    decreases a.len(),
{
    if a.len() > 0 {
        lemma_seq_lt_irreflexive(a.drop_first());
    }
}

/// Any two identifiers are equal or ordered one way.
pub proof fn lemma_seq_lt_total(a: Seq<char>, b: Seq<char>)
    ensures
        a == b || seq_lt(a, b) || seq_lt(b, a),
    decreases a.len(),
{
    if a.len() > 0 && b.len() > 0 && a[0] == b[0] {
        lemma_seq_lt_total(a.drop_first(), b.drop_first());
        if a.drop_first() == b.drop_first() {
            assert(a =~= seq![a[0]] + a.drop_first());
            assert(b =~= seq![b[0]] + b.drop_first());
        }
    } else if a.len() == 0 && b.len() == 0 {
        assert(a =~= b);
    }
}

/// The identifier order is transitive.
pub proof fn lemma_seq_lt_transitive(a: Seq<char>, b: Seq<char>, c: Seq<char>)
    requires
        seq_lt(a, b),
        seq_lt(b, c),
    ensures
        seq_lt(a, c),
    decreases a.len(),
{
    if a.len() > 0 && b.len() > 0 && c.len() > 0 && a[0] == b[0] && b[0] == c[0] {
        lemma_seq_lt_transitive(a.drop_first(), b.drop_first(), c.drop_first());
    }
}

/// The identifier order is asymmetric.
pub proof fn lemma_seq_lt_asymmetric(a: Seq<char>, b: Seq<char>)
    requires
        seq_lt(a, b),
    ensures
        !seq_lt(b, a),
        a != b,
{
    lemma_seq_lt_irreflexive(a);
    if seq_lt(b, a) {
        lemma_seq_lt_transitive(a, b, a);
    }
}

/// Compares two strings by code point, lexicographically.
pub fn str_lt(a: &str, b: &str) -> (r: bool)
    ensures
        r == seq_lt(a@, b@),
{
    let a_len = a.unicode_len();
    let b_len = b.unicode_len();
    let mut k: usize = 0;
    proof {
        assert(a@.skip(0) =~= a@);
        assert(b@.skip(0) =~= b@);
    }
    while k < a_len && k < b_len
        invariant
            a_len == a@.len(),
            b_len == b@.len(),
            k <= a_len,
            k <= b_len,
            seq_lt(a@, b@) == seq_lt(a@.skip(k as int), b@.skip(k as int)),
        decreases a_len - k,
    {
        let ca = a.get_char(k);
        let cb = b.get_char(k);
        let ghost sa = a@.skip(k as int);
        let ghost sb = b@.skip(k as int);
        proof {
            assert(sa[0] == ca);
            assert(sb[0] == cb);
        }
        if ca != cb {
            return ca < cb;
        }
        proof {
            assert(sa.drop_first() =~= a@.skip(k + 1));
            assert(sb.drop_first() =~= b@.skip(k + 1));
        }
        k = k + 1;
    }
    k < b_len
}

/// An ordered, duplicate-free set of requirement identifiers.
#[derive(Debug, PartialEq, Eq)]
pub struct RequirementSet {
    ids: Vec<String>,
}

impl View for RequirementSet {
    type V = Seq<Seq<char>>;

    /// The identifiers in increasing code-point order.
    closed spec fn view(&self) -> Seq<Seq<char>> {
        self.ids@.map_values(|s: String| s@)
    }
}

impl RequirementSet {
    #[verifier::type_invariant]
    spec fn sorted_ids(self) -> bool {
        strictly_sorted(self.ids@.map_values(|s: String| s@))
    }

    /// The set of identifiers held.
    pub open spec fn id_set(self) -> Set<Seq<char>> {
        self@.to_set()
    }

    /// Creates an empty set.
    pub fn new() -> (r: Self)
        ensures
            r@ == Seq::<Seq<char>>::empty(),
    {
        let r = RequirementSet { ids: Vec::new() };
        proof {
            assert(r@ =~= Seq::<Seq<char>>::empty());
        }
        r
    }

    /// Number of identifiers held.
    pub fn len(&self) -> (r: usize)
        ensures
            r == self@.len(),
            strictly_sorted(self@),
    {
        proof {
            use_type_invariant(self);
        }
        self.ids.len()
    }

    /// Whether no identifier is held.
    pub fn is_empty(&self) -> (r: bool)
        ensures
            r == (self@.len() == 0),
    {
        self.ids.len() == 0
    }

    /// The identifier at position `i` in increasing order.
    pub fn get(&self, i: usize) -> (r: &str)
        requires
            i < self@.len(),
        ensures
            r@ == self@[i as int],
    {
        self.ids[i].as_str()
    }

    /// Whether `id` is held.
    pub fn contains(&self, id: &str) -> (r: bool)
        ensures
            r == self@.contains(id@),
    {
        let n = self.ids.len();
        let mut i: usize = 0;
        while i < n
            invariant
                n == self.ids@.len(),
                n == self@.len(),
                i <= n,
                forall|j: int| 0 <= j < i ==> self@[j] != id@,
            decreases n - i,
        {
            if str_eq(self.ids[i].as_str(), id) {
                proof {
                    assert(self@[i as int] == id@);
                }
                return true;
            }
            i = i + 1;
        }
        false
    }

    /// Adds `id`; returns whether it was not already present.
    pub fn insert(&mut self, id: String) -> (r: bool)
        ensures
            r == !old(self)@.contains(id@),
            final(self).id_set() == old(self).id_set().insert(id@),
    {
        proof {
            use_type_invariant(&*self);
        }
        let ghost before = self@;
        let n = self.ids.len();
        let mut p: usize = 0;
        while p < n && str_lt(self.ids[p].as_str(), id.as_str())
            invariant
                n == self.ids@.len(),
                before == self.ids@.map_values(|s: String| s@),
                strictly_sorted(before),
                p <= n,
                forall|j: int| 0 <= j < p ==> seq_lt(#[trigger] before[j], id@),
            decreases n - p,
        {
            p = p + 1;
        }
        if p < n && str_eq(self.ids[p].as_str(), id.as_str()) {
            proof {
                assert(before[p as int] == id@);
                assert(before.contains(id@));
                assert(before.to_set().insert(id@) =~= before.to_set());
            }
            return false;
        }
        proof {
            if p < n {
                lemma_seq_lt_total(before[p as int], id@);
            }
            assert forall|j: int| p <= j < n implies seq_lt(id@, #[trigger] before[j]) by {
                if j > p {
                    lemma_seq_lt_transitive(id@, before[p as int], before[j]);
                }
            }
            assert forall|j: int| 0 <= j < n implies before[j] != id@ by {
                if j < p {
                    lemma_seq_lt_asymmetric(before[j], id@);
                } else {
                    lemma_seq_lt_asymmetric(id@, before[j]);
                }
            }
        }
        let ghost id_view = id@;
        let mut ids = Vec::new();
        std::mem::swap(&mut ids, &mut self.ids);
        ids.insert(p, id);
        let ghost after = ids@.map_values(|s: String| s@);
        proof {
            assert(after =~= before.insert(p as int, id_view));
            assert forall|i: int, j: int| 0 <= i < j < after.len() implies seq_lt(
                #[trigger] after[i],
                #[trigger] after[j],
            ) by {
                if j < p {
                    assert(after[i] == before[i] && after[j] == before[j]);
                } else if j == p {
                    assert(after[i] == before[i]);
                } else if i == p {
                    assert(after[j] == before[j - 1]);
                } else if i < p {
                    assert(after[i] == before[i] && after[j] == before[j - 1]);
                } else {
                    assert(after[i] == before[i - 1] && after[j] == before[j - 1]);
                }
            }
            assert(!before.contains(id_view));
            assert forall|x: Seq<char>| after.to_set().contains(x) <==> before.to_set().insert(
                id_view,
            ).contains(x) by {
                if after.to_set().contains(x) {
                    let k = choose|k: int| 0 <= k < after.len() && after[k] == x;
                    if k < p {
                        assert(before[k] == x);
                    } else if k > p {
                        assert(before[k - 1] == x);
                    }
                }
                if before.to_set().contains(x) {
                    let k = choose|k: int| 0 <= k < before.len() && before[k] == x;
                    if k < p {
                        assert(after[k] == x);
                    } else {
                        assert(after[k + 1] == x);
                    }
                }
                if x == id_view {
                    assert(after[p as int] == x);
                }
            }
            assert(after.to_set() =~= before.to_set().insert(id_view));
        }
        self.ids = ids;
        true
    }
}

impl Clone for RequirementSet {
    fn clone(&self) -> (r: Self)
        ensures
            r@ == self@,
    {
        proof {
            use_type_invariant(self);
        }
        let ids = self.ids.clone();
        proof {
            assert(ids@.map_values(|s: String| s@) =~= self.ids@.map_values(|s: String| s@));
        }
        RequirementSet { ids }
    }
}

impl Default for RequirementSet {
    fn default() -> (r: Self)
        ensures
            r@ == Seq::<Seq<char>>::empty(),
    {
        RequirementSet::new()
    }
}

/// The identifiers in `a` or `b`, in increasing order and without repeats.
pub fn sorted_union(a: &RequirementSet, b: &RequirementSet) -> (r: Vec<String>)
    ensures
        strictly_sorted(r@.map_values(|s: String| s@)),
        r@.map_values(|s: String| s@).to_set() == a@.to_set() + b@.to_set(),
{
    let na = a.len();
    let nb = b.len();
    let mut i: usize = 0;
    let mut j: usize = 0;
    let mut out: Vec<String> = Vec::new();
    while i < na || j < nb
        invariant
            na == a@.len(),
            nb == b@.len(),
            i <= na,
            j <= nb,
            strictly_sorted(a@),
            strictly_sorted(b@),
            strictly_sorted(out@.map_values(|s: String| s@)),
            out@.map_values(|s: String| s@).to_set() == a@.take(i as int).to_set() + b@.take(
                j as int,
            ).to_set(),
            out@.len() > 0 ==> forall|k: int|
                i <= k < na ==> seq_lt(out@.last()@, #[trigger] a@[k]),
            out@.len() > 0 ==> forall|k: int|
                j <= k < nb ==> seq_lt(out@.last()@, #[trigger] b@[k]),
        decreases na + nb - i - j,
    {
        let ghost old_out = out@.map_values(|s: String| s@);
        let take_a: bool;
        let take_b: bool;
        if i < na && j < nb {
            let x = a.get(i);
            let y = b.get(j);
            if str_eq(x, y) {
                take_a = true;
                take_b = true;
            } else if str_lt(x, y) {
                take_a = true;
                take_b = false;
            } else {
                proof {
                    lemma_seq_lt_total(a@[i as int], b@[j as int]);
                }
                take_a = false;
                take_b = true;
            }
        } else if i < na {
            take_a = true;
            take_b = false;
        } else {
            take_a = false;
            take_b = true;
        }
        let ghost v: Seq<char>;
        if take_a {
            let x = a.get(i);
            out.push(x.to_owned());
            proof {
                v = a@[i as int];
            }
        } else {
            let y = b.get(j);
            out.push(y.to_owned());
            proof {
                v = b@[j as int];
            }
        }
        let ghost new_out = out@.map_values(|s: String| s@);
        proof {
            assert(new_out =~= old_out.push(v));
            assert(new_out.last() == v);
            assert forall|p: int, q: int| 0 <= p < q < new_out.len() implies seq_lt(
                #[trigger] new_out[p],
                #[trigger] new_out[q],
            ) by {
                if q < old_out.len() {
                    assert(new_out[p] == old_out[p] && new_out[q] == old_out[q]);
                } else {
                    assert(new_out[p] == old_out[p]);
                    if p < old_out.len() - 1 {
                        assert(seq_lt(old_out[p], old_out.last()));
                        if take_a {
                            lemma_seq_lt_transitive(old_out[p], old_out.last(), v);
                        } else {
                            lemma_seq_lt_transitive(old_out[p], old_out.last(), v);
                        }
                    }
                }
            }
        }
        let ni: usize = if take_a { i + 1 } else { i };
        let nj: usize = if take_b { j + 1 } else { j };
        proof {
            assert forall|k: int| ni <= k < na implies seq_lt(v, #[trigger] a@[k]) by {
                if take_a {
                    assert(seq_lt(a@[i as int], a@[k]));
                } else {
                    assert(v == b@[j as int]);
                    assert(seq_lt(b@[j as int], a@[i as int]) || b@[j as int] == a@[i as int]);
                    if k > i {
                        if b@[j as int] == a@[i as int] {
                        } else {
                            lemma_seq_lt_transitive(v, a@[i as int], a@[k]);
                        }
                    }
                }
            }
            assert forall|k: int| nj <= k < nb implies seq_lt(v, #[trigger] b@[k]) by {
                if take_b {
                    assert(seq_lt(b@[j as int], b@[k]));
                } else {
                    assert(v == a@[i as int]);
                    if k > j {
                        lemma_seq_lt_transitive(v, b@[j as int], b@[k]);
                    }
                }
            }
            assert(a@.take(ni as int) =~= if take_a {
                a@.take(i as int).push(a@[i as int])
            } else {
                a@.take(i as int)
            });
            assert(b@.take(nj as int) =~= if take_b {
                b@.take(j as int).push(b@[j as int])
            } else {
                b@.take(j as int)
            });
            old_out.lemma_push_to_set_commute(v);
            a@.take(i as int).lemma_push_to_set_commute(a@[i as int]);
            b@.take(j as int).lemma_push_to_set_commute(b@[j as int]);
            assert(new_out.to_set() =~= a@.take(ni as int).to_set() + b@.take(nj as int).to_set());
        }
        i = ni;
        j = nj;
    }
    proof {
        assert(a@.take(na as int) =~= a@);
        assert(b@.take(nb as int) =~= b@);
    }
    out
}


/// Two strictly sorted sequences with the same elements are equal.
pub proof fn lemma_sorted_by_set_unique(a: Seq<Seq<char>>, b: Seq<Seq<char>>)
    requires
        strictly_sorted(a),
        strictly_sorted(b),
        a.to_set() == b.to_set(),
    ensures
        a == b,
    decreases a.len(),
{
    if a.len() == 0 {
        if b.len() > 0 {
            assert(b.to_set().contains(b[0]));
            assert(!a.to_set().contains(b[0]));
        }
        assert(a =~= b);
    } else if b.len() == 0 {
        assert(a.to_set().contains(a[0]));
    } else {
        assert(a.to_set().contains(a[0]));
        assert(b.to_set().contains(b[0]));
        let ia = choose|k: int| 0 <= k < a.len() && a[k] == b[0];
        let ib = choose|k: int| 0 <= k < b.len() && b[k] == a[0];
        if ia > 0 {
            assert(seq_lt(a[0], a[ia]));
            if ib > 0 {
                assert(seq_lt(b[0], b[ib]));
                lemma_seq_lt_asymmetric(a[0], b[0]);
            }
        }
        assert(a[0] == b[0]) by {
            if ia > 0 && ib > 0 {
                lemma_seq_lt_asymmetric(a[0], b[0]);
            }
        }
        let a1 = a.drop_first();
        let b1 = b.drop_first();
        assert forall|x: Seq<char>| a1.to_set().contains(x) <==> b1.to_set().contains(x) by {
            if a1.to_set().contains(x) {
                let k = choose|k: int| 0 <= k < a1.len() && a1[k] == x;
                assert(a[k + 1] == x);
                assert(seq_lt(a[0], x));
                lemma_seq_lt_asymmetric(a[0], x);
                assert(b.to_set().contains(x));
                let m = choose|m: int| 0 <= m < b.len() && b[m] == x;
                assert(m != 0);
                assert(b1[m - 1] == x);
            }
            if b1.to_set().contains(x) {
                let k = choose|k: int| 0 <= k < b1.len() && b1[k] == x;
                assert(b[k + 1] == x);
                assert(seq_lt(b[0], x));
                lemma_seq_lt_asymmetric(b[0], x);
                assert(a.to_set().contains(x));
                let m = choose|m: int| 0 <= m < a.len() && a[m] == x;
                assert(m != 0);
                assert(a1[m - 1] == x);
            }
        }
        assert(a1.to_set() =~= b1.to_set());
        assert forall|i: int, j: int| 0 <= i < j < a1.len() implies seq_lt(#[trigger] a1[i], #[trigger] a1[j]) by {
            assert(a1[i] == a[i + 1] && a1[j] == a[j + 1]);
        }
        assert forall|i: int, j: int| 0 <= i < j < b1.len() implies seq_lt(#[trigger] b1[i], #[trigger] b1[j]) by {
            assert(b1[i] == b[i + 1] && b1[j] == b[j + 1]);
        }
        lemma_sorted_by_set_unique(a1, b1);
        assert(a =~= seq![a[0]] + a1);
        assert(b =~= seq![b[0]] + b1);
    }
}

/// The elements of `s` in increasing order, without repeats.
pub open spec fn sorted_elements(s: Set<Seq<char>>) -> Seq<Seq<char>> {
    choose|q: Seq<Seq<char>>| strictly_sorted(q) && q.to_set() == s
}

/// A strictly sorted sequence is the sorted listing of its elements.
pub proof fn lemma_sorted_elements(q: Seq<Seq<char>>)
    requires
        strictly_sorted(q),
    ensures
        sorted_elements(q.to_set()) == q,
{
    let c = sorted_elements(q.to_set());
    assert(strictly_sorted(c) && c.to_set() == q.to_set());
    lemma_sorted_by_set_unique(c, q);
}

/// Views a list of identifiers.
pub open spec fn ids_view(v: Seq<&'static str>) -> Seq<Seq<char>> {
    v.map_values(|s: &'static str| s@)
}

/// Inserts `x` into a strictly increasing list of identifiers, keeping it so.
pub fn insert_sorted_id(v: &mut Vec<&'static str>, x: &'static str)
    requires
        strictly_sorted(ids_view(old(v)@)),
    ensures
        strictly_sorted(ids_view(final(v)@)),
        ids_view(final(v)@).to_set() == ids_view(old(v)@).to_set().insert(x@),
{
    let ghost before = ids_view(v@);
    let n = v.len();
    let mut p: usize = 0;
    while p < n && str_lt(v[p], x)
        invariant
            n == v@.len(),
            before == ids_view(v@),
            strictly_sorted(before),
            p <= n,
            forall|j: int| 0 <= j < p ==> seq_lt(#[trigger] before[j], x@),
        decreases n - p,
    {
        p = p + 1;
    }
    if p < n && str_eq(v[p], x) {
        proof {
            assert(before[p as int] == x@);
            assert(before.to_set().insert(x@) =~= before.to_set());
        }
        return;
    }
    proof {
        if p < n {
            lemma_seq_lt_total(before[p as int], x@);
        }
        assert forall|j: int| p <= j < n implies seq_lt(x@, #[trigger] before[j]) by {
            if j > p {
                lemma_seq_lt_transitive(x@, before[p as int], before[j]);
            }
        }
    }
    v.insert(p, x);
    let ghost after = ids_view(v@);
    proof {
        assert(after =~= before.insert(p as int, x@));
        assert forall|i: int, j: int| 0 <= i < j < after.len() implies seq_lt(
            #[trigger] after[i],
            #[trigger] after[j],
        ) by {
            if j < p {
                assert(after[i] == before[i] && after[j] == before[j]);
            } else if j == p {
                assert(after[i] == before[i]);
            } else if i == p {
                assert(after[j] == before[j - 1]);
            } else if i < p {
                assert(after[i] == before[i] && after[j] == before[j - 1]);
            } else {
                assert(after[i] == before[i - 1] && after[j] == before[j - 1]);
            }
        }
        assert forall|y: Seq<char>| after.to_set().contains(y) <==> before.to_set().insert(x@).contains(y) by {
            if after.to_set().contains(y) {
                let k = choose|k: int| 0 <= k < after.len() && after[k] == y;
                if k < p {
                    assert(before[k] == y);
                } else if k > p {
                    assert(before[k - 1] == y);
                }
            }
            if before.to_set().contains(y) {
                let k = choose|k: int| 0 <= k < before.len() && before[k] == y;
                if k < p {
                    assert(after[k] == y);
                } else {
                    assert(after[k + 1] == y);
                }
            }
            if y == x@ {
                assert(after[p as int] == y);
            }
        }
        assert(after.to_set() =~= before.to_set().insert(x@));
    }
}

/// Inserts every identifier of `ids` into a strictly increasing list.
pub fn insert_sorted_ids(v: &mut Vec<&'static str>, ids: &[&'static str])
    requires
        strictly_sorted(ids_view(old(v)@)),
    ensures
        strictly_sorted(ids_view(final(v)@)),
        ids_view(final(v)@).to_set() == ids_view(old(v)@).to_set() + ids_view(ids@).to_set(),
{
    let ghost start = ids_view(v@).to_set();
    let n = ids.len();
    let mut i: usize = 0;
    proof {
        assert(ids_view(ids@.take(0)).to_set() =~= Set::<Seq<char>>::empty());
        assert(start + Set::<Seq<char>>::empty() =~= start);
    }
    while i < n
        invariant
            n == ids@.len(),
            i <= n,
            strictly_sorted(ids_view(v@)),
            ids_view(v@).to_set() == start + ids_view(ids@.take(i as int)).to_set(),
        decreases n - i,
    {
        insert_sorted_id(v, ids[i]);
        proof {
            assert(ids_view(ids@.take(i + 1)) =~= ids_view(ids@.take(i as int)).push(ids@[i as int]@));
            ids_view(ids@.take(i as int)).lemma_push_to_set_commute(ids@[i as int]@);
            assert(ids_view(v@).to_set() =~= start + ids_view(ids@.take(i + 1)).to_set());
        }
        i = i + 1;
    }
    proof {
        assert(ids@.take(n as int) =~= ids@);
    }
}

/// The identifiers in both `a` and `b`, in increasing order and without repeats.
pub fn sorted_intersection(a: &RequirementSet, b: &RequirementSet) -> (r: Vec<String>)
    ensures
        strictly_sorted(r@.map_values(|s: String| s@)),
        r@.map_values(|s: String| s@).to_set() == a@.to_set().intersect(b@.to_set()),
{
    let na = a.len();
    let mut out: Vec<String> = Vec::new();
    let mut i: usize = 0;
    let ghost mut last: int = -1;
    proof {
        assert(a@.take(0).to_set() =~= Set::<Seq<char>>::empty());
        assert(out@.map_values(|s: String| s@).to_set() =~= Set::<Seq<char>>::empty());
    }
    while i < na
        invariant
            na == a@.len(),
            i <= na,
            strictly_sorted(a@),
            strictly_sorted(out@.map_values(|s: String| s@)),
            -1 <= last < i,
            out@.len() == 0 <==> last == -1,
            out@.len() > 0 ==> out@.last()@ == a@[last],
            out@.map_values(|s: String| s@).to_set() == a@.take(i as int).to_set().intersect(
                b@.to_set(),
            ),
        decreases na - i,
    {
        let x = a.get(i);
        let ghost old_out = out@.map_values(|s: String| s@);
        proof {
            assert(a@.take(i + 1) =~= a@.take(i as int).push(a@[i as int]));
        }
        if b.contains(x) {
            out.push(x.to_owned());
            let ghost new_out = out@.map_values(|s: String| s@);
            proof {
                assert(new_out =~= old_out.push(a@[i as int]));
                assert forall|p: int, q: int| 0 <= p < q < new_out.len() implies seq_lt(
                    #[trigger] new_out[p],
                    #[trigger] new_out[q],
                ) by {
                    if q < old_out.len() {
                        assert(new_out[p] == old_out[p] && new_out[q] == old_out[q]);
                    } else {
                        assert(seq_lt(a@[last], a@[i as int]));
                        if p < old_out.len() - 1 {
                            assert(seq_lt(old_out[p], old_out.last()));
                            lemma_seq_lt_transitive(old_out[p], old_out.last(), a@[i as int]);
                        }
                    }
                }
                old_out.lemma_push_to_set_commute(a@[i as int]);
                a@.take(i as int).lemma_push_to_set_commute(a@[i as int]);
                assert(b@.to_set().contains(a@[i as int]));
                assert(a@.take(i + 1).to_set().intersect(b@.to_set()) =~= a@.take(
                    i as int,
                ).to_set().intersect(b@.to_set()).insert(a@[i as int]));
                last = i as int;
            }
        } else {
            proof {
                a@.take(i as int).lemma_push_to_set_commute(a@[i as int]);
                assert(!b@.to_set().contains(a@[i as int]));
                assert(a@.take(i + 1).to_set().intersect(b@.to_set()) =~= a@.take(
                    i as int,
                ).to_set().intersect(b@.to_set()));
            }
        }
        i = i + 1;
    }
    proof {
        assert(a@.take(na as int) =~= a@);
    }
    out
}

/// `q` with `x` added at its place in the order, unless already present.
pub open spec fn sorted_insert(q: Seq<Seq<char>>, x: Seq<char>) -> Seq<Seq<char>>
    decreases q.len(),
{
    if q.len() == 0 {
        seq![x]
    } else if q[0] == x {
        q
    } else if seq_lt(x, q[0]) {
        seq![x] + q
    } else {
        seq![q[0]] + sorted_insert(q.drop_first(), x)
    }
}

/// Inserting keeps a list strictly increasing and adds exactly `x`.
proof fn lemma_sorted_insert(q: Seq<Seq<char>>, x: Seq<char>)
    requires
        strictly_sorted(q),
    ensures
        strictly_sorted(sorted_insert(q, x)),
        sorted_insert(q, x).to_set() == q.to_set().insert(x),
        forall|k: int|
            0 <= k < sorted_insert(q, x).len() ==> #[trigger] sorted_insert(q, x)[k] == x
                || q.contains(sorted_insert(q, x)[k]),
    decreases q.len(),
{
    let r = sorted_insert(q, x);
    if q.len() == 0 {
        assert forall|y: Seq<char>| r.to_set().contains(y) <==> q.to_set().insert(x).contains(y) by {
            if r.to_set().contains(y) {
                let k = choose|k: int| 0 <= k < r.len() && r[k] == y;
                assert(r[k] == x);
            }
            if y == x {
                assert(r[0] == y);
            }
        }
        assert(r.to_set() =~= q.to_set().insert(x));
    } else if q[0] == x {
        assert(q.to_set().contains(x));
        assert(r.to_set() =~= q.to_set().insert(x));
    } else if seq_lt(x, q[0]) {
        assert forall|i: int, j: int| 0 <= i < j < r.len() implies seq_lt(
            #[trigger] r[i],
            #[trigger] r[j],
        ) by {
            if i == 0 {
                if j > 1 {
                    assert(seq_lt(q[0], q[j - 1]));
                    lemma_seq_lt_transitive(x, q[0], q[j - 1]);
                }
            } else {
                assert(r[i] == q[i - 1] && r[j] == q[j - 1]);
            }
        }
        assert forall|y: Seq<char>| r.to_set().contains(y) <==> q.to_set().insert(x).contains(y) by {
            if r.to_set().contains(y) {
                let k = choose|k: int| 0 <= k < r.len() && r[k] == y;
                if k > 0 {
                    assert(q[k - 1] == y);
                }
            }
            if q.to_set().contains(y) {
                let k = choose|k: int| 0 <= k < q.len() && q[k] == y;
                assert(r[k + 1] == y);
            }
            if y == x {
                assert(r[0] == y);
            }
        }
        assert(r.to_set() =~= q.to_set().insert(x));
    } else {
        let t = q.drop_first();
        let rt = sorted_insert(t, x);
        assert forall|i: int, j: int| 0 <= i < j < t.len() implies seq_lt(
            #[trigger] t[i],
            #[trigger] t[j],
        ) by {
            assert(t[i] == q[i + 1] && t[j] == q[j + 1]);
        }
        lemma_sorted_insert(t, x);
        lemma_seq_lt_total(x, q[0]);
        assert forall|i: int, j: int| 0 <= i < j < r.len() implies seq_lt(
            #[trigger] r[i],
            #[trigger] r[j],
        ) by {
            if i == 0 {
                assert(r[j] == rt[j - 1]);
                if rt[j - 1] != x {
                    let k = choose|k: int| 0 <= k < t.len() && t[k] == rt[j - 1];
                    assert(seq_lt(q[0], q[k + 1]));
                }
            } else {
                assert(r[i] == rt[i - 1] && r[j] == rt[j - 1]);
            }
        }
        assert forall|k: int| 0 <= k < r.len() implies #[trigger] r[k] == x || q.contains(r[k]) by {
            if k == 0 {
                assert(q[0] == r[0]);
            } else {
                assert(r[k] == rt[k - 1]);
                if rt[k - 1] != x {
                    let m = choose|m: int| 0 <= m < t.len() && t[m] == rt[k - 1];
                    assert(q[m + 1] == r[k]);
                }
            }
        }
        assert forall|y: Seq<char>| r.to_set().contains(y) <==> q.to_set().insert(x).contains(y) by {
            if r.to_set().contains(y) {
                let k = choose|k: int| 0 <= k < r.len() && r[k] == y;
                if k == 0 {
                    assert(q[0] == y);
                } else {
                    assert(rt[k - 1] == y);
                    assert(rt.to_set().contains(y));
                    if y != x {
                        let m = choose|m: int| 0 <= m < t.len() && t[m] == y;
                        assert(q[m + 1] == y);
                    }
                }
            }
            if q.to_set().contains(y) {
                let k = choose|k: int| 0 <= k < q.len() && q[k] == y;
                if k == 0 {
                    assert(r[0] == y);
                } else {
                    assert(t[k - 1] == y);
                    assert(t.to_set().contains(y));
                    assert(rt.to_set().contains(y));
                    let m = choose|m: int| 0 <= m < rt.len() && rt[m] == y;
                    assert(r[m + 1] == y);
                }
            }
            if y == x {
                assert(rt.to_set().contains(x));
                let m = choose|m: int| 0 <= m < rt.len() && rt[m] == x;
                assert(r[m + 1] == x);
            }
        }
        assert(r.to_set() =~= q.to_set().insert(x));
    }
}

/// The elements of `s` inserted one by one into an empty list.
pub open spec fn sorted_listing(s: Seq<Seq<char>>) -> Seq<Seq<char>>
    decreases s.len(),
{
    if s.len() == 0 {
        Seq::empty()
    } else {
        sorted_insert(sorted_listing(s.drop_last()), s.last())
    }
}

/// The listing is strictly increasing and holds exactly the elements of `s`.
proof fn lemma_sorted_listing(s: Seq<Seq<char>>)
    ensures
        strictly_sorted(sorted_listing(s)),
        sorted_listing(s).to_set() == s.to_set(),
    decreases s.len(),
{
    if s.len() == 0 {
        assert(sorted_listing(s).to_set() =~= s.to_set());
    } else {
        lemma_sorted_listing(s.drop_last());
        lemma_sorted_insert(sorted_listing(s.drop_last()), s.last());
        s.drop_last().lemma_push_to_set_commute(s.last());
        assert(s.drop_last().push(s.last()) =~= s);
    }
}

/// The sorted listing of a sequence's elements is strictly increasing and
/// holds exactly those elements.
pub proof fn lemma_sorted_elements_of(s: Seq<Seq<char>>)
    ensures
        strictly_sorted(sorted_elements(s.to_set())),
        sorted_elements(s.to_set()).to_set() == s.to_set(),
{
    lemma_sorted_listing(s);
    let q = sorted_listing(s);
    assert(strictly_sorted(q) && q.to_set() == s.to_set());
}

} // verus!
