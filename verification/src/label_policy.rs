//! Registry-specific label-policy evaluation.

use vstd::prelude::*;
use vstd::string::StringSliceAdditionalSpecFns;
use vstd::utf8::is_ascii_chars;

use crate::lookup::{first_index, lemma_first_index_found, lemma_first_index_none};
use crate::normalize::{ascii_lowercase, idna_to_unicode, uts46_to_unicode, ascii_lower_char};
use crate::types::{
    ClaimStatus, IdnSupport, LabelPolicy, LabelPolicyStatus, LengthUnit, ReservedDisposition,
};

verus! {

/// `s` with the suffix `p` removed, when `s` ends with `p`.
pub open spec fn strip_suffix_spec(s: Seq<char>, p: Seq<char>) -> Option<Seq<char>> {
    if s.len() >= p.len() && s.skip(s.len() - p.len()) == p {
        Some(s.take(s.len() - p.len()))
    } else {
        None
    }
}

/// The label that registry policy applies to: the registrable domain with
/// `.` and the product suffix removed, or the whole name when the registrable
/// domain does not end that way.
pub open spec fn policy_label(
    registrable: Seq<char>,
    product_suffix: Seq<char>,
    ascii_domain: Seq<char>,
) -> Seq<char> {
    match strip_suffix_spec(registrable, "."@ + product_suffix) {
        Some(l) => l,
        None => ascii_domain,
    }
}

/// Whether two names are equal when ASCII letters are compared without case.
pub open spec fn eq_ignore_ascii_case(a: Seq<char>, b: Seq<char>) -> bool {
    ascii_lowercase(a) == ascii_lowercase(b)
}

/// Whether the reserved entry at `i` names `label`.
pub open spec fn reserved_pred(policy: LabelPolicy, label: Seq<char>) -> spec_fn(int) -> bool {
    |i: int| eq_ignore_ascii_case(policy.reserved_labels@[i].label@, label)
}

/// The length of `label` that a constraint measures, when it can be measured.
pub open spec fn measured_length(
    unit: LengthUnit,
    label: Seq<char>,
    unicode: Seq<char>,
    unicode_ok: bool,
) -> Option<int> {
    match unit {
        LengthUnit::ALabelOctets => Some(vstd::utf8::encode_utf8(label).len() as int),
        LengthUnit::UnicodeCodePoints => if unicode_ok {
            Some(unicode.len() as int)
        } else {
            None
        },
        LengthUnit::GraphemeClusters => None,
    }
}

/// Whether a label is internationalized: an `xn--` A-label, or one whose
/// Unicode form is not ASCII.
pub open spec fn is_idn_label(label: Seq<char>, unicode: Seq<char>) -> bool {
    (label.len() >= 4 && label.take(4) == "xn--"@) || !is_ascii_chars(unicode)
}

/// The label-policy result for `label`, whose UTS #46 Unicode form is
/// `unicode` (with `unicode_ok` when conversion reported no error).
///
/// A measurable length outside the verified range fails and an unmeasurable
/// one is partial; a verified IDN prohibition fails an internationalized
/// label, while IDN support alone never authorizes one; a reserved entry
/// fails (prohibited or held) or is partial (premium or special allocation).
/// Otherwise the result passes when the policy and its reserved set are
/// verified complete and every facet was decided, is partial when some facet
/// applied, and unknown when none did.
pub open spec fn label_status(
    policy: LabelPolicy,
    label: Seq<char>,
    unicode: Seq<char>,
    unicode_ok: bool,
) -> LabelPolicyStatus {
    let idn = is_idn_label(label, unicode);
    let length_fails = match policy.length {
        Some(c) => match measured_length(c.unit, label, unicode, unicode_ok) {
            Some(m) => m < c.minimum || m > c.maximum,
            None => false,
        },
        None => false,
    };
    let length_unmeasurable = match policy.length {
        Some(c) => measured_length(c.unit, label, unicode, unicode_ok) is None,
        None => false,
    };
    let reserved = first_index(reserved_pred(policy, label), policy.reserved_labels@.len() as int);
    let known = policy.length is Some || idn || policy.reserved_status == ClaimStatus::Verified;
    let unresolved = policy.completeness != ClaimStatus::Verified || idn
        || policy.reserved_status != ClaimStatus::Verified;
    if length_unmeasurable {
        LabelPolicyStatus::Partial
    } else if length_fails {
        LabelPolicyStatus::Fail
    } else if idn && policy.idn_support.verified_spec() == Some(IdnSupport::Unsupported) {
        LabelPolicyStatus::Fail
    } else if policy.reserved_status == ClaimStatus::Verified && reserved is Some {
        match policy.reserved_labels@[reserved.unwrap()].disposition {
            ReservedDisposition::Prohibited | ReservedDisposition::Held => LabelPolicyStatus::Fail,
            ReservedDisposition::Premium | ReservedDisposition::SpecialAllocation => {
                LabelPolicyStatus::Partial
            },
        }
    } else if unresolved {
        if known {
            LabelPolicyStatus::Partial
        } else {
            LabelPolicyStatus::Unknown
        }
    } else {
        LabelPolicyStatus::Pass
    }
}

/// The label-policy result for a candidate.
pub open spec fn label_policy_result(
    policy: Option<LabelPolicy>,
    registrable: Option<Seq<char>>,
    product_suffix: Option<Seq<char>>,
    ascii_domain: Seq<char>,
) -> LabelPolicyStatus {
    match (policy, registrable, product_suffix) {
        (Some(p), Some(r), Some(s)) => {
            let label = policy_label(r, s, ascii_domain);
            let (unicode, ok) = uts46_to_unicode(label);
            label_status(p, label, unicode, ok)
        },
        _ => LabelPolicyStatus::Unknown,
    }
}

fn lower_char(c: char) -> (r: char)
    ensures
        r == ascii_lower_char(c),
{
    if 'A' <= c && c <= 'Z' {
        proof {
            assert(((c as u32) + 32) as char == ascii_lower_char(c));
        }
        ((c as u32 + 32) as u8) as char
    } else {
        c
    }
}

/// Compares two strings with ASCII letters case-folded.
pub fn str_eq_ignore_ascii_case(a: &str, b: &str) -> (r: bool)
    ensures
        r == eq_ignore_ascii_case(a@, b@),
{
    let n = a.unicode_len();
    if n != b.unicode_len() {
        proof {
            assert(ascii_lowercase(a@).len() != ascii_lowercase(b@).len());
        }
        return false;
    }
    let mut i: usize = 0;
    while i < n
        invariant
            n == a@.len(),
            n == b@.len(),
            i <= n,
            forall|k: int| 0 <= k < i ==> ascii_lower_char(a@[k]) == ascii_lower_char(b@[k]),
        decreases n - i,
    {
        if lower_char(a.get_char(i)) != lower_char(b.get_char(i)) {
            proof {
                assert(ascii_lowercase(a@)[i as int] != ascii_lowercase(b@)[i as int]);
            }
            return false;
        }
        i = i + 1;
    }
    proof {
        assert(ascii_lowercase(a@) =~= ascii_lowercase(b@));
    }
    true
}

/// Whether a string is ASCII.
fn all_ascii(s: &str) -> (r: bool)
    ensures
        r == is_ascii_chars(s@),
{
    let n = s.unicode_len();
    let mut i: usize = 0;
    while i < n
        invariant
            n == s@.len(),
            i <= n,
            forall|k: int| 0 <= k < i ==> '\0' <= #[trigger] s@[k] <= '\u{7f}',
        decreases n - i,
    {
        if s.get_char(i) > '\u{7f}' {
            return false;
        }
        i = i + 1;
    }
    true
}

/// The first reserved entry that names `label`, ignoring ASCII case.
pub fn find_reserved(policy: &LabelPolicy, label: &str) -> (r: Option<usize>)
    ensures
        match r {
            Some(i) => first_index(reserved_pred(*policy, label@), policy.reserved_labels@.len() as int)
                == Some(i as int),
            None => first_index(reserved_pred(*policy, label@), policy.reserved_labels@.len() as int) is None,
        },
{
    let n = policy.reserved_labels.len();
    let mut i: usize = 0;
    while i < n
        invariant
            n == policy.reserved_labels@.len(),
            i <= n,
            forall|k: int| 0 <= k < i ==> !#[trigger] reserved_pred(*policy, label@)(k),
        decreases n - i,
    {
        if str_eq_ignore_ascii_case(policy.reserved_labels[i].label, label) {
            proof {
                lemma_first_index_found(reserved_pred(*policy, label@), n as int, i as int);
            }
            return Some(i);
        }
        i = i + 1;
    }
    proof {
        lemma_first_index_none(reserved_pred(*policy, label@), n as int);
    }
    None
}

/// Applies researched registry constraints to a label, given its UTS #46
/// Unicode form.
pub fn label_policy_status(
    policy: &LabelPolicy,
    label: &str,
    unicode: &str,
    unicode_ok: bool,
) -> (r: LabelPolicyStatus)
    ensures
        r == label_status(*policy, label@, unicode@, unicode_ok),
{
    let label_len = label.unicode_len();
    let is_idn = (label_len >= 4 && label.get_char(0) == 'x' && label.get_char(1) == 'n'
        && label.get_char(2) == '-' && label.get_char(3) == '-') || !all_ascii(unicode);
    proof {
        if label_len >= 4 {
            reveal_strlit("xn--");
            assert("xn--"@ =~= seq!['x', 'n', '-', '-']);
            assert((label@.take(4) == "xn--"@) == (label@[0] == 'x' && label@[1] == 'n' && label@[2]
                == '-' && label@[3] == '-')) by {
                if label@[0] == 'x' && label@[1] == 'n' && label@[2] == '-' && label@[3] == '-' {
                    assert(label@.take(4) =~= "xn--"@);
                }
            }
        }
    }
    let mut known = false;
    let mut unresolved = match policy.completeness {
        ClaimStatus::Verified => false,
        _ => true,
    };
    if let Some(length) = policy.length {
        known = true;
        let measured: Option<usize> = match length.unit {
            LengthUnit::ALabelOctets => Some(label.as_bytes().len()),
            LengthUnit::UnicodeCodePoints => if unicode_ok {
                Some(unicode.unicode_len())
            } else {
                None
            },
            LengthUnit::GraphemeClusters => None,
        };
        match measured {
            None => {
                return LabelPolicyStatus::Partial;
            },
            Some(m) => {
                if m < length.minimum as usize || m > length.maximum as usize {
                    return LabelPolicyStatus::Fail;
                }
            },
        }
    }
    if is_idn {
        known = true;
        match policy.idn_support.verified_value() {
            Some(IdnSupport::Unsupported) => {
                return LabelPolicyStatus::Fail;
            },
            _ => {
                unresolved = true;
            },
        }
    }
    match policy.reserved_status {
        ClaimStatus::Verified => {
            known = true;
            if let Some(i) = find_reserved(policy, label) {
                return match policy.reserved_labels[i].disposition {
                    ReservedDisposition::Prohibited | ReservedDisposition::Held => {
                        LabelPolicyStatus::Fail
                    },
                    ReservedDisposition::Premium | ReservedDisposition::SpecialAllocation => {
                        LabelPolicyStatus::Partial
                    },
                };
            }
        },
        _ => {
            unresolved = true;
        },
    }
    if unresolved {
        if known {
            LabelPolicyStatus::Partial
        } else {
            LabelPolicyStatus::Unknown
        }
    } else {
        LabelPolicyStatus::Pass
    }
}

/// Removes the suffix `p` from `s`, when `s` ends with it.
pub fn strip_suffix_str<'a>(s: &'a str, p: &str) -> (r: Option<&'a str>)
    ensures
        match r {
            Some(t) => strip_suffix_spec(s@, p@) == Some(t@),
            None => strip_suffix_spec(s@, p@) is None,
        },
{
    let sl = s.unicode_len();
    let pl = p.unicode_len();
    if sl < pl {
        return None;
    }
    if crate::text::str_eq_at(p, s, sl, sl - pl) {
        let t = s.substring_char(0, sl - pl);
        proof {
            assert(t@ =~= s@.take(sl - pl));
        }
        Some(t)
    } else {
        None
    }
}

/// Applies researched registry constraints to the registrable label.
pub fn evaluate_label_policy(
    policy: Option<&LabelPolicy>,
    registrable_domain: Option<&str>,
    product_suffix: Option<&str>,
    ascii_domain: &str,
) -> (r: LabelPolicyStatus)
    ensures
        r == label_policy_result(
            match policy {
                Some(p) => Some(*p),
                None => None,
            },
            crate::types::opt_str_view(registrable_domain),
            crate::types::opt_str_view(product_suffix),
            ascii_domain@,
        ),
{
    let policy = match policy {
        Some(p) => p,
        None => {
            return LabelPolicyStatus::Unknown;
        },
    };
    let (registrable_domain, product_suffix) = match (registrable_domain, product_suffix) {
        (Some(r), Some(s)) => (r, s),
        _ => {
            return LabelPolicyStatus::Unknown;
        },
    };
    let mut pattern = ".".to_owned();
    pattern.append(product_suffix);
    let label_ascii = match strip_suffix_str(registrable_domain, pattern.as_str()) {
        Some(l) => l,
        None => ascii_domain,
    };
    let (unicode, ok) = idna_to_unicode(label_ascii);
    label_policy_status(policy, label_ascii, unicode.as_str(), ok)
}

/// A label passes registry policy exactly when the policy and its reserved
/// set are verified complete, the label is not internationalized, a length
/// constraint, if any, is measurable and met, and no reserved entry names the
/// label. In particular an incomplete policy never passes a label.
pub proof fn law_label_passes_only_under_complete_policy(
    policy: LabelPolicy,
    label: Seq<char>,
    unicode: Seq<char>,
    unicode_ok: bool,
)
    ensures
        label_status(policy, label, unicode, unicode_ok) == LabelPolicyStatus::Pass <==> {
            &&& policy.completeness == ClaimStatus::Verified
            &&& policy.reserved_status == ClaimStatus::Verified
            &&& !is_idn_label(label, unicode)
            &&& policy.length matches Some(c) ==> (measured_length(
                c.unit,
                label,
                unicode,
                unicode_ok,
            ) matches Some(m) && c.minimum <= m <= c.maximum)
            &&& first_index(reserved_pred(policy, label), policy.reserved_labels@.len() as int)
                is None
        },
{
}

/// A label fails registry policy exactly when, its length being measurable
/// where constrained, a verified rule rules it out: a length outside the
/// range, a verified IDN prohibition for an internationalized label, or a
/// verified reserved entry that prohibits or holds it. The result is unknown
/// exactly when no facet applies: no length constraint, not internationalized
/// and no verified reserved set.
pub proof fn law_label_fails_only_by_verified_rule(
    policy: LabelPolicy,
    label: Seq<char>,
    unicode: Seq<char>,
    unicode_ok: bool,
)
    ensures
        label_status(policy, label, unicode, unicode_ok) == LabelPolicyStatus::Fail <==> {
            let measured = match policy.length {
                Some(c) => measured_length(c.unit, label, unicode, unicode_ok),
                None => None,
            };
            let reserved = first_index(
                reserved_pred(policy, label),
                policy.reserved_labels@.len() as int,
            );
            &&& (policy.length is Some ==> measured is Some)
            &&& {
                ||| (policy.length matches Some(c) && (measured matches Some(m) && (m < c.minimum
                    || m > c.maximum)))
                ||| (is_idn_label(label, unicode) && policy.idn_support.status
                    == ClaimStatus::Verified && policy.idn_support.value == Some(
                    IdnSupport::Unsupported,
                ))
                ||| (policy.reserved_status == ClaimStatus::Verified && (reserved matches Some(i)
                    && (policy.reserved_labels@[i].disposition == ReservedDisposition::Prohibited
                    || policy.reserved_labels@[i].disposition == ReservedDisposition::Held)))
            }
        },
        label_status(policy, label, unicode, unicode_ok) == LabelPolicyStatus::Unknown <==> (
        policy.length is None && !is_idn_label(label, unicode) && policy.reserved_status
            != ClaimStatus::Verified),
{
}

/// A candidate's label passes only under a policy whose completeness and
/// reserved set are verified, applied to a registrable domain at a product
/// suffix.
pub proof fn law_label_pass_needs_verified_policy(
    policy: Option<LabelPolicy>,
    registrable: Option<Seq<char>>,
    product_suffix: Option<Seq<char>>,
    ascii_domain: Seq<char>,
)
    ensures
        label_policy_result(policy, registrable, product_suffix, ascii_domain)
            == LabelPolicyStatus::Pass ==> {
            &&& policy matches Some(p) && p.completeness == ClaimStatus::Verified
                && p.reserved_status == ClaimStatus::Verified
            &&& registrable is Some
            &&& product_suffix is Some
        },
{
    if let (Some(p), Some(r), Some(s)) = (policy, registrable, product_suffix) {
        let label = policy_label(r, s, ascii_domain);
        let (unicode, ok) = uts46_to_unicode(label);
        law_label_passes_only_under_complete_policy(p, label, unicode, ok);
    }
}

} // verus!
