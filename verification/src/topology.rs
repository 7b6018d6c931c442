//! Public Suffix List resolution against the pinned rule tables.

use vstd::prelude::*;

use crate::lookup::{
    first_index, find_at, has_key, is_first_index, lemma_first_index_found,
    lemma_first_index_none, lemma_first_match_facts, first_match, Keyed,
};
use crate::text::{
    count_labels, find_dot_from, first_dot, label_count, label_start, labels, last_label,
    lemma_split_single, lemma_split_step, lemma_suffix_from_rest, suffix_from, tail_string,
};
use crate::types::{CandidateStatus, SuffixMatch, SuffixMatchModel, SuffixRule, SuffixRuleKind};

verus! {

impl Keyed for SuffixRule {
    open spec fn key_view(&self) -> Seq<char> {
        self.labels@
    }

    fn key(&self) -> (k: &str) {
        self.labels
    }
}

/// The exact, wildcard, and exception rules of a pinned Public Suffix List.
///
/// A wildcard rule `*.x` is stored as `x`; an exception rule `!y` as `y`.
#[derive(Debug, Clone)]
pub struct PslRules {
    /// Literal rules.
    pub exact: Vec<SuffixRule>,
    /// One-label wildcard rules, keyed by the part after `*.`.
    pub wildcard: Vec<SuffixRule>,
    /// Exception rules, keyed by the part after `!`.
    pub exception: Vec<SuffixRule>,
}

/// The suffix from label `i` is an exception rule.
pub open spec fn exception_at(rules: PslRules, d: Seq<char>, i: int) -> bool {
    has_key(rules.exception@, suffix_from(d, i))
}

/// The exception rule at each label index, as a predicate.
pub open spec fn exception_pred(rules: PslRules, d: Seq<char>) -> spec_fn(int) -> bool {
    |i: int| exception_at(rules, d, i)
}

/// The suffix from label `i` is an exact rule, or the suffix from label
/// `i + 1` is the anchor of a wildcard rule.
pub open spec fn rule_at(rules: PslRules, d: Seq<char>, i: int) -> bool {
    ||| has_key(rules.exact@, suffix_from(d, i))
    ||| (i + 1 < label_count(d) && has_key(rules.wildcard@, suffix_from(d, i + 1)))
}

/// The exact or wildcard rule at each label index, as a predicate.
pub open spec fn rule_pred(rules: PslRules, d: Seq<char>) -> spec_fn(int) -> bool {
    |i: int| rule_at(rules, d, i)
}

/// A match that copies its metadata from a source rule.
pub open spec fn rule_model(suffix: Seq<char>, matched: Seq<char>, r: SuffixRule) -> SuffixMatchModel {
    SuffixMatchModel {
        suffix,
        matched_rule: Some(matched),
        rule_kind: r.kind,
        section: Some(r.section),
        role: Some(r.role),
        evidence: Some(r.evidence@),
    }
}

/// The prevailing Public Suffix List boundary of a canonical name.
///
/// An exception rule takes precedence over every ordinary match, the longest
/// one first, and yields the exception with its leftmost label removed.
/// Otherwise the longest exact or wildcard match prevails, exact syntax
/// winning at equal length. A name that matches no rule falls back to its
/// last label.
pub open spec fn resolved_suffix(rules: PslRules, d: Seq<char>) -> SuffixMatchModel {
    let n = label_count(d) as int;
    match first_index(exception_pred(rules, d), n) {
        Some(i) => {
            let r = rules.exception@[first_match(rules.exception@, suffix_from(d, i)).unwrap()];
            rule_model(suffix_from(d, i + 1), "!"@ + r.labels@, r)
        },
        None => match first_index(rule_pred(rules, d), n) {
            Some(i) => if has_key(rules.exact@, suffix_from(d, i)) {
                let r = rules.exact@[first_match(rules.exact@, suffix_from(d, i)).unwrap()];
                rule_model(suffix_from(d, i), r.labels@, r)
            } else {
                let r = rules.wildcard@[first_match(
                    rules.wildcard@,
                    suffix_from(d, i + 1),
                ).unwrap()];
                rule_model(suffix_from(d, i), "*."@ + r.labels@, r)
            },
            None => SuffixMatchModel {
                suffix: last_label(d),
                matched_rule: None,
                rule_kind: SuffixRuleKind::Default,
                section: None,
                role: None,
                evidence: None,
            },
        },
    }
}

/// Builds a match from a rule.
fn rule_match(suffix: String, matched: String, rule: &SuffixRule) -> (r: SuffixMatch)
    ensures
        r@ == rule_model(suffix@, matched@, *rule),
{
    SuffixMatch {
        suffix,
        matched_rule: Some(matched),
        rule_kind: rule.kind,
        section: Some(rule.section),
        role: Some(rule.role),
        evidence: Some(rule.evidence),
    }
}

/// Prefixes a rule's labels with a marker.
fn marked(marker: &str, labels: &str) -> (r: String)
    ensures
        r@ == marker@ + labels@,
{
    let mut s = marker.to_owned();
    s.append(labels);
    s
}

/// Finds the prevailing exact, wildcard, exception, or implicit PSL rule.
pub fn resolve_suffix(rules: &PslRules, d: &str) -> (r: SuffixMatch)
    ensures
        r@ == resolved_suffix(*rules, d@),
{
    let len = d.unicode_len();
    let ghost n = label_count(d@) as int;
    let mut pos: usize = 0;
    let ghost mut i: int = 0;
    proof {
        assert(d@.skip(0) =~= d@);
        assert(labels(d@).skip(0) =~= labels(d@));
        crate::text::lemma_split_nonempty(d@, '.');
    }
    loop
        invariant
            len == d@.len(),
            n == label_count(d@),
            pos <= len,
            0 <= i < n,
            labels(d@.skip(pos as int)) == labels(d@).skip(i),
            forall|j: int| 0 <= j < i ==> !#[trigger] exception_pred(*rules, d@)(j),
        ensures
            forall|j: int| 0 <= j < n ==> !#[trigger] exception_pred(*rules, d@)(j),
        decreases len - pos,
    {
        proof {
            lemma_suffix_from_rest(d@, pos as int, i);
        }
        let found = find_at(&rules.exception, d, len, pos);
        let dot = find_dot_from(d, len, pos);
        let ghost s = d@.skip(pos as int);
        if dot < len {
            proof {
                lemma_split_step(s, '.');
                assert(s.skip(first_dot(s) as int + 1) =~= d@.skip(dot + 1));
                assert(labels(d@).skip(i).drop_first() =~= labels(d@).skip(i + 1));
            }
        } else {
            proof {
                lemma_split_single(s, '.');
            }
        }
        if let Some(k) = found {
            proof {
                lemma_first_match_facts(rules.exception@, suffix_from(d@, i));
                lemma_first_index_found(exception_pred(*rules, d@), n, i);
            }
            let rule = &rules.exception[k];
            let suffix = if dot < len {
                proof {
                    lemma_suffix_from_rest(d@, dot + 1, i + 1);
                }
                tail_string(d, len, dot + 1)
            } else {
                proof {
                    assert(labels(d@).skip(i + 1) =~= Seq::<Seq<char>>::empty());
                }
                String::new()
            };
            return rule_match(suffix, marked("!", rule.labels), rule);
        }
        if dot == len {
            proof {
                assert(labels(d@).skip(i).len() == 1);
                assert(!exception_pred(*rules, d@)(i));
            }
            break;
        }
        pos = dot + 1;
        proof {
            i = i + 1;
        }
    }
    proof {
        lemma_first_index_none(exception_pred(*rules, d@), n);
    }

    let mut pos: usize = 0;
    let ghost mut i: int = 0;
    proof {
        assert(d@.skip(0) =~= d@);
        assert(labels(d@).skip(0) =~= labels(d@));
    }
    loop
        invariant
            len == d@.len(),
            n == label_count(d@),
            pos <= len,
            0 <= i < n,
            labels(d@.skip(pos as int)) == labels(d@).skip(i),
            first_index(exception_pred(*rules, d@), n) is None,
            forall|j: int| 0 <= j < i ==> !#[trigger] rule_pred(*rules, d@)(j),
        decreases len - pos,
    {
        proof {
            lemma_suffix_from_rest(d@, pos as int, i);
        }
        let exact = find_at(&rules.exact, d, len, pos);
        let dot = find_dot_from(d, len, pos);
        let ghost s = d@.skip(pos as int);
        if dot < len {
            proof {
                lemma_split_step(s, '.');
                assert(s.skip(first_dot(s) as int + 1) =~= d@.skip(dot + 1));
                assert(labels(d@).skip(i).drop_first() =~= labels(d@).skip(i + 1));
                lemma_suffix_from_rest(d@, dot + 1, i + 1);
            }
        } else {
            proof {
                lemma_split_single(s, '.');
            }
        }
        if let Some(k) = exact {
            proof {
                lemma_first_match_facts(rules.exact@, suffix_from(d@, i));
                lemma_first_index_found(rule_pred(*rules, d@), n, i);
            }
            let rule = &rules.exact[k];
            return rule_match(tail_string(d, len, pos), rule.labels.to_owned(), rule);
        }
        if dot < len {
            let wild = find_at(&rules.wildcard, d, len, dot + 1);
            if let Some(k) = wild {
                proof {
                    lemma_first_match_facts(rules.wildcard@, suffix_from(d@, i + 1));
                    lemma_first_index_found(rule_pred(*rules, d@), n, i);
                }
                let rule = &rules.wildcard[k];
                return rule_match(tail_string(d, len, pos), marked("*.", rule.labels), rule);
            }
        }
        if dot == len {
            proof {
                lemma_first_index_none(rule_pred(*rules, d@), n);
                assert(labels(d@).skip(i) =~= seq![labels(d@).last()]);
            }
            return SuffixMatch {
                suffix: tail_string(d, len, pos),
                matched_rule: None,
                rule_kind: SuffixRuleKind::Default,
                section: None,
                role: None,
                evidence: None,
            };
        }
        pos = dot + 1;
        proof {
            i = i + 1;
        }
    }
}

/// The registrable domain one label above a suffix of `suffix_labels` labels.
pub open spec fn registrable_above(d: Seq<char>, suffix_labels: int) -> Option<Seq<char>> {
    if label_count(d) > suffix_labels {
        Some(suffix_from(d, label_count(d) - suffix_labels - 1))
    } else {
        None
    }
}

/// The shape of a name relative to a suffix of `suffix_labels` labels.
pub open spec fn shape_against(d: Seq<char>, suffix_labels: int) -> CandidateStatus {
    if label_count(d) <= suffix_labels {
        CandidateStatus::BareSuffix
    } else if label_count(d) == suffix_labels + 1 {
        CandidateStatus::RegistrableDomain
    } else {
        CandidateStatus::Subdomain
    }
}

/// A candidate's registration boundary and structural relationship to it.
#[derive(Debug, Clone, PartialEq, Eq)]
pub struct ResolvedDomain {
    /// Prevailing public-suffix boundary.
    pub suffix: SuffixMatch,
    /// One-label-above registrable domain, when the candidate has one.
    pub registrable_domain: Option<String>,
    /// Whether the input is the registrable domain, a suffix, or a subdomain.
    pub candidate_status: CandidateStatus,
}

/// Resolves a canonical domain: its PSL boundary, the registrable domain one
/// label above it, and the candidate's shape relative to that boundary.
pub fn resolve_domain(rules: &PslRules, d: &str) -> (r: ResolvedDomain)
    requires
        d@.len() < usize::MAX,
    ensures
        r.suffix@ == resolved_suffix(*rules, d@),
        crate::types::opt_string_view(r.registrable_domain) == registrable_above(
            d@,
            label_count(resolved_suffix(*rules, d@).suffix) as int,
        ),
        r.candidate_status == shape_against(
            d@,
            label_count(resolved_suffix(*rules, d@).suffix) as int,
        ),
{
    let suffix = resolve_suffix(rules, d);
    let n = count_labels(d);
    let len = d.unicode_len();
    proof {
        assert(suffix.suffix@.len() <= d@.len()) by {
            suffix_len_bound(*rules, d@);
        }
    }
    let m = count_labels(suffix.suffix.as_str());
    let registrable_domain = if n > m {
        let start = label_start(d, len, n - m - 1);
        Some(tail_string(d, len, start))
    } else {
        None
    };
    let candidate_status = if n <= m {
        CandidateStatus::BareSuffix
    } else if n == m + 1 {
        CandidateStatus::RegistrableDomain
    } else {
        CandidateStatus::Subdomain
    };
    ResolvedDomain { suffix, registrable_domain, candidate_status }
}

/// A suffix of a name is never longer than the name.
pub proof fn lemma_suffix_from_len(d: Seq<char>, i: int)
    requires
        0 <= i <= label_count(d),
    ensures
        suffix_from(d, i).len() <= d.len(),
{
    let n = label_count(d) as int;
    if i < n {
        lemma_suffix_skip_len(d, i);
    } else {
        assert(labels(d).skip(i).len() == 0);
    }
}

/// The suffix from label `i` is a tail of the name.
proof fn lemma_suffix_skip_len(d: Seq<char>, i: int)
    requires
        0 <= i < label_count(d),
    ensures
        suffix_from(d, i).len() <= d.len(),
    decreases i,
{
    if i == 0 {
        crate::text::lemma_join_split(d, '.');
        assert(labels(d).skip(0) =~= labels(d));
    } else {
        let s = d;
        if first_dot(s) < s.len() {
            lemma_split_step(s, '.');
            let rest = s.skip(first_dot(s) as int + 1);
            assert(labels(d).skip(i) =~= labels(rest).skip(i - 1));
            lemma_suffix_skip_len(rest, i - 1);
        } else {
            lemma_split_single(s, '.');
        }
    }
}

/// The resolved suffix is never longer than the name.
proof fn suffix_len_bound(rules: PslRules, d: Seq<char>)
    ensures
        resolved_suffix(rules, d).suffix.len() <= d.len(),
{
    let n = label_count(d) as int;
    crate::text::lemma_split_nonempty(d, '.');
    match first_index(exception_pred(rules, d), n) {
        Some(i) => {
            assert(is_first_index(exception_pred(rules, d), n, i));
            lemma_suffix_from_len(d, i + 1);
        },
        None => match first_index(rule_pred(rules, d), n) {
            Some(i) => {
                assert(is_first_index(rule_pred(rules, d), n, i));
                lemma_suffix_from_len(d, i);
            },
            None => {
                lemma_suffix_from_len(d, n - 1);
                assert(labels(d).skip(n - 1) =~= seq![labels(d).last()]);
            },
        },
    }
}

} // verus!
