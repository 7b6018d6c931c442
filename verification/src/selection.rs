//! Registration-product selection, independent of the prevailing PSL boundary.
//!
//! Walking from the whole name towards its root, the first suffix that an
//! exact selector names wins; at the same depth, an exact selector is tried
//! before a one-label-below family keyed by the suffix's parent, and a family
//! does not apply to a suffix that is itself a PSL exception.

use vstd::prelude::*;

use crate::catalog::ProductSelector;
use crate::label_policy::{strip_suffix_spec, strip_suffix_str};
use crate::lookup::{
    find_at, first_index, has_key, lemma_first_index_found, lemma_first_index_none,
    lemma_first_match_facts, lookup,
};
use crate::text::{
    find_dot_from, first_dot, label_count, labels, last_label, last_label_string,
    lemma_split_nonempty, lemma_split_single, lemma_split_step, lemma_suffix_from_rest,
    suffix_from, tail_string,
};
use crate::types::{CandidateStatus, SuffixRule};

verus! {

/// A product selector resolved against one concrete candidate.
#[derive(Debug, Clone, PartialEq, Eq)]
pub struct ProductAssignment {
    /// Stable product identifier.
    pub product_id: &'static str,
    /// Concrete suffix at which the product allocates names.
    pub suffix: String,
    /// Candidate shape relative to the product suffix.
    pub candidate_status: CandidateStatus,
}

/// An exact selector names the suffix from label `i`.
pub open spec fn exact_at(exact: Seq<ProductSelector>, d: Seq<char>, i: int) -> bool {
    has_key(exact, suffix_from(d, i))
}

/// A one-label-below family covers the suffix from label `i`: it has a parent
/// that a family selector names, and it is not itself a PSL exception.
pub open spec fn family_at(
    one_below: Seq<ProductSelector>,
    exceptions: Seq<SuffixRule>,
    d: Seq<char>,
    i: int,
) -> bool {
    &&& i + 1 < label_count(d)
    &&& !has_key(exceptions, suffix_from(d, i))
    &&& has_key(one_below, suffix_from(d, i + 1))
}

/// Some selector covers the suffix from label `i`.
pub open spec fn selector_pred(
    exact: Seq<ProductSelector>,
    one_below: Seq<ProductSelector>,
    exceptions: Seq<SuffixRule>,
    d: Seq<char>,
) -> spec_fn(int) -> bool {
    |i: int| exact_at(exact, d, i) || family_at(one_below, exceptions, d, i)
}

/// The shape of a candidate whose product suffix starts at label `i`.
pub open spec fn shape_at(i: int) -> CandidateStatus {
    if i == 0 {
        CandidateStatus::BareSuffix
    } else if i == 1 {
        CandidateStatus::RegistrableDomain
    } else {
        CandidateStatus::Subdomain
    }
}

/// The product named at label `i`, preferring the exact selector.
pub open spec fn selected_id(
    exact: Seq<ProductSelector>,
    one_below: Seq<ProductSelector>,
    d: Seq<char>,
    i: int,
) -> Seq<char> {
    if exact_at(exact, d, i) {
        lookup(exact, suffix_from(d, i)).unwrap().product_id@
    } else {
        lookup(one_below, suffix_from(d, i + 1)).unwrap().product_id@
    }
}

/// The selected product identifier, product suffix and candidate shape: at the
/// most specific covered suffix, or none when no selector covers any suffix.
pub open spec fn assignment_for(
    exact: Seq<ProductSelector>,
    one_below: Seq<ProductSelector>,
    exceptions: Seq<SuffixRule>,
    d: Seq<char>,
) -> Option<(Seq<char>, Seq<char>, CandidateStatus)> {
    match first_index(selector_pred(exact, one_below, exceptions, d), label_count(d) as int) {
        Some(i) => Some((selected_id(exact, one_below, d, i), suffix_from(d, i), shape_at(i))),
        None => None,
    }
}

/// An assignment as plain values.
pub open spec fn assignment_view(a: Option<ProductAssignment>) -> Option<
    (Seq<char>, Seq<char>, CandidateStatus),
> {
    match a {
        Some(x) => Some((x.product_id@, x.suffix@, x.candidate_status)),
        None => None,
    }
}

/// Applies most-specific selector precedence, preferring exact at equal depth.
pub fn select_product_assignment(
    ascii_domain: &str,
    exact: &Vec<ProductSelector>,
    one_label_below: &Vec<ProductSelector>,
    exceptions: &Vec<SuffixRule>,
) -> (r: Option<ProductAssignment>)
    ensures
        assignment_view(r) == assignment_for(
            exact@,
            one_label_below@,
            exceptions@,
            ascii_domain@,
        ),
{
    let d = ascii_domain;
    let ghost pred = selector_pred(exact@, one_label_below@, exceptions@, d@);
    let ghost n = label_count(d@) as int;
    let len = d.unicode_len();
    let mut pos: usize = 0;
    let mut depth: u8 = 0;
    let ghost mut i: int = 0;
    proof {
        assert(d@.skip(0) =~= d@);
        assert(labels(d@).skip(0) =~= labels(d@));
        lemma_split_nonempty(d@, '.');
    }
    loop
        invariant
            d@ == ascii_domain@,
            len == d@.len(),
            n == label_count(d@),
            pred == selector_pred(exact@, one_label_below@, exceptions@, d@),
            pos <= len,
            0 <= i < n,
            depth == if i < 2 { i } else { 2 },
            labels(d@.skip(pos as int)) == labels(d@).skip(i),
            forall|j: int| 0 <= j < i ==> !#[trigger] pred(j),
        decreases len - pos,
    {
        proof {
            lemma_suffix_from_rest(d@, pos as int, i);
        }
        let status = if depth == 0 {
            CandidateStatus::BareSuffix
        } else if depth == 1 {
            CandidateStatus::RegistrableDomain
        } else {
            CandidateStatus::Subdomain
        };
        let found = find_at(exact, d, len, pos);
        let dot = find_dot_from(d, len, pos);
        let ghost s = d@.skip(pos as int);
        if dot < len {
            proof {
                lemma_split_step(s, '.');
                assert(s.skip(first_dot(s) as int + 1) =~= d@.skip(dot + 1));
                assert(labels(d@).skip(i).drop_first() =~= labels(d@).skip(i + 1));
                lemma_suffix_from_rest(d@, dot + 1, i + 1);
            }
        } else {
            proof {
                lemma_split_single(s, '.');
                assert(labels(d@).skip(i).len() == 1);
            }
        }
        if let Some(k) = found {
            proof {
                lemma_first_match_facts(exact@, suffix_from(d@, i));
                assert(exact_at(exact@, d@, i));
                assert(pred(i));
                lemma_first_index_found(pred, n, i);
                assert(lookup(exact@, suffix_from(d@, i)) == Some(exact@[k as int]));
                assert(status == shape_at(i));
            }
            let suffix = tail_string(d, len, pos);
            let r = ProductAssignment { product_id: exact[k].product_id, suffix, candidate_status: status };
            proof {
                assert(suffix@ == suffix_from(d@, i));
                assert(selected_id(exact@, one_label_below@, d@, i) == r.product_id@);
                assert(assignment_for(exact@, one_label_below@, exceptions@, d@) == Some(
                    (r.product_id@, suffix_from(d@, i), shape_at(i)),
                ));
            }
            return Some(r);
        }
        if dot < len {
            let is_exception = find_at(exceptions, d, len, pos);
            if is_exception.is_none() {
                let family = find_at(one_label_below, d, len, dot + 1);
                if let Some(k) = family {
                    proof {
                        lemma_first_match_facts(one_label_below@, suffix_from(d@, i + 1));
                        assert(!exact_at(exact@, d@, i));
                        assert(family_at(one_label_below@, exceptions@, d@, i));
                        assert(pred(i));
                        lemma_first_index_found(pred, n, i);
                        assert(lookup(one_label_below@, suffix_from(d@, i + 1)) == Some(
                            one_label_below@[k as int],
                        ));
                        assert(status == shape_at(i));
                    }
                    let suffix = tail_string(d, len, pos);
                    let r = ProductAssignment {
                        product_id: one_label_below[k].product_id,
                        suffix,
                        candidate_status: status,
                    };
                    proof {
                        assert(suffix@ == suffix_from(d@, i));
                        assert(selected_id(exact@, one_label_below@, d@, i) == r.product_id@);
                        assert(assignment_for(exact@, one_label_below@, exceptions@, d@) == Some(
                            (r.product_id@, suffix_from(d@, i), shape_at(i)),
                        ));
                    }
                    return Some(r);
                }
            }
        }
        if dot == len {
            proof {
                assert(!pred(i));
                lemma_first_index_none(pred, n);
            }
            return None;
        }
        pos = dot + 1;
        if depth < 2 {
            depth = depth + 1;
        }
        proof {
            i = i + 1;
        }
    }
}

/// The registrable domain one label above a product suffix: the last label
/// before `.suffix`, joined to the suffix, when there is a non-empty one.
pub open spec fn registration_domain(d: Seq<char>, suffix: Seq<char>) -> Option<Seq<char>> {
    match strip_suffix_spec(d, suffix) {
        None => None,
        Some(p) => match strip_suffix_spec(p, "."@) {
            None => None,
            Some(q) => if last_label(q).len() > 0 {
                Some(last_label(q) + "."@ + suffix)
            } else {
                None
            },
        },
    }
}

/// Finds the registrable domain immediately above a selected product suffix.
pub fn registration_domain_for(ascii_domain: &str, product_suffix: &str) -> (r: Option<String>)
    ensures
        crate::types::opt_string_view(r) == registration_domain(ascii_domain@, product_suffix@),
{
    let prefix = match strip_suffix_str(ascii_domain, product_suffix) {
        Some(p) => p,
        None => {
            return None;
        },
    };
    let prefix = match strip_suffix_str(prefix, ".") {
        Some(p) => p,
        None => {
            return None;
        },
    };
    let mut label = last_label_string(prefix);
    if label.as_str().unicode_len() == 0 {
        return None;
    }
    label.append(".");
    label.append(product_suffix);
    Some(label)
}

} // verus!
