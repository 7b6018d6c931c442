//! ASCII DNS syntax validation helpers.
//!
//! Both checks read the UTF-8 bytes of their input, so a non-ASCII character
//! is always rejected as an invalid label character (or by a length rule).

use vstd::prelude::*;
use vstd::string::StringSliceAdditionalSpecFns;

use crate::text::{lemma_first_sep, lemma_split_single, lemma_split_step, split_seq};

verus! {

/// Why a name fails basic DNS or IDNA syntax.
#[derive(Debug, Clone, Copy, PartialEq, Eq, Hash, Structural)]
pub enum DnsSyntaxError {
    /// The domain has no characters.
    EmptyDomain,
    /// The domain is longer than 253 bytes.
    DomainTooLong,
    /// A label has no characters.
    EmptyLabel,
    /// A label is longer than 63 bytes.
    LabelTooLong,
    /// A label starts or ends with a hyphen.
    HyphenAtEdge,
    /// Hyphens in positions three and four outside an `xn--` A-label.
    ReservedHyphens,
    /// A label holds a byte outside `[a-z0-9-]`.
    InvalidCharacters,
}

/// Human-readable rendering of a syntax error.
pub open spec fn error_message(e: DnsSyntaxError) -> Seq<char> {
    match e {
        DnsSyntaxError::EmptyDomain => "DNS syntax: empty domain"@,
        DnsSyntaxError::DomainTooLong => "DNS syntax: domain exceeds 253 characters"@,
        DnsSyntaxError::EmptyLabel => "DNS syntax: empty label"@,
        DnsSyntaxError::LabelTooLong => "DNS syntax: label exceeds 63 characters"@,
        DnsSyntaxError::HyphenAtEdge => "DNS syntax: label cannot start or end with a hyphen"@,
        DnsSyntaxError::ReservedHyphens => "IDNA syntax: hyphens in positions three and four require an A-label"@,
        DnsSyntaxError::InvalidCharacters => "DNS syntax: label contains invalid characters"@,
    }
}

impl DnsSyntaxError {
    /// Human-readable rendering of this error.
    pub fn message(self) -> (r: &'static str)
        ensures
            r@ == error_message(self),
    {
        match self {
            DnsSyntaxError::EmptyDomain => "DNS syntax: empty domain",
            DnsSyntaxError::DomainTooLong => "DNS syntax: domain exceeds 253 characters",
            DnsSyntaxError::EmptyLabel => "DNS syntax: empty label",
            DnsSyntaxError::LabelTooLong => "DNS syntax: label exceeds 63 characters",
            DnsSyntaxError::HyphenAtEdge => "DNS syntax: label cannot start or end with a hyphen",
            DnsSyntaxError::ReservedHyphens => "IDNA syntax: hyphens in positions three and four require an A-label",
            DnsSyntaxError::InvalidCharacters => "DNS syntax: label contains invalid characters",
        }
    }
}

/// ASCII `-`.
pub open spec fn hyphen() -> u8 {
    45
}

/// ASCII `.`.
pub open spec fn dot_byte() -> u8 {
    46
}

/// A byte allowed in a lowercase LDH label: `a-z`, `0-9`, or `-`.
pub open spec fn ldh_byte(b: u8) -> bool {
    (97 <= b <= 122) || (48 <= b <= 57) || b == 45
}

/// The first syntax rule that a label's bytes break, checked in order.
pub open spec fn label_error(l: Seq<u8>) -> Option<DnsSyntaxError> {
    if l.len() == 0 {
        Some(DnsSyntaxError::EmptyLabel)
    } else if l.len() > 63 {
        Some(DnsSyntaxError::LabelTooLong)
    } else if l[0] == hyphen() || l.last() == hyphen() {
        Some(DnsSyntaxError::HyphenAtEdge)
    } else if l.len() >= 4 && l[2] == hyphen() && l[3] == hyphen() && !(l[0] == 120 && l[1]
        == 110) {
        Some(DnsSyntaxError::ReservedHyphens)
    } else if exists|i: int| 0 <= i < l.len() && !ldh_byte(#[trigger] l[i]) {
        Some(DnsSyntaxError::InvalidCharacters)
    } else {
        None
    }
}

/// The error of the first failing label, if any.
pub open spec fn first_label_error(ls: Seq<Seq<u8>>) -> Option<DnsSyntaxError>
    decreases ls.len(),
{
    if ls.len() == 0 {
        None
    } else if label_error(ls[0]) is Some {
        label_error(ls[0])
    } else {
        first_label_error(ls.drop_first())
    }
}

/// The first syntax rule that a domain's bytes break, checked in order.
pub open spec fn domain_error(b: Seq<u8>) -> Option<DnsSyntaxError> {
    if b.len() == 0 {
        Some(DnsSyntaxError::EmptyDomain)
    } else if b.len() > 253 {
        Some(DnsSyntaxError::DomainTooLong)
    } else {
        first_label_error(split_seq(b, dot_byte()))
    }
}

/// Checks the bytes `b[start..end]` as one label.
fn label_error_in(b: &[u8], start: usize, end: usize) -> (r: Option<DnsSyntaxError>)
    requires
        start <= end <= b@.len(),
    ensures
        r == label_error(b@.subrange(start as int, end as int)),
{
    let ghost l = b@.subrange(start as int, end as int);
    let len = end - start;
    if len == 0 {
        return Some(DnsSyntaxError::EmptyLabel);
    }
    if len > 63 {
        return Some(DnsSyntaxError::LabelTooLong);
    }
    if b[start] == 45u8 || b[end - 1] == 45u8 {
        proof {
            assert(l[0] == b@[start as int]);
            assert(l.last() == b@[end - 1]);
        }
        return Some(DnsSyntaxError::HyphenAtEdge);
    }
    proof {
        assert(l[0] == b@[start as int]);
        assert(l.last() == b@[end - 1]);
    }
    if len >= 4 && b[start + 2] == 45u8 && b[start + 3] == 45u8 && !(b[start] == 120u8 && b[start
        + 1] == 110u8) {
        proof {
            assert(l[2] == b@[start + 2]);
            assert(l[3] == b@[start + 3]);
            assert(l[1] == b@[start + 1]);
        }
        return Some(DnsSyntaxError::ReservedHyphens);
    }
    proof {
        if len >= 4 {
            assert(l[2] == b@[start + 2]);
            assert(l[3] == b@[start + 3]);
            assert(l[1] == b@[start + 1]);
        }
    }
    let mut i = start;
    while i < end
        invariant
            start <= i <= end,
            end <= b@.len(),
            l == b@.subrange(start as int, end as int),
            0 < l.len() <= 63,
            l[0] != hyphen() && l.last() != hyphen(),
            !(l.len() >= 4 && l[2] == hyphen() && l[3] == hyphen() && !(l[0] == 120 && l[1] == 110)),
            forall|k: int| 0 <= k < i - start ==> ldh_byte(#[trigger] l[k]),
        decreases end - i,
    {
        let c = b[i];
        if !((97u8 <= c && c <= 122u8) || (48u8 <= c && c <= 57u8) || c == 45u8) {
            proof {
                assert(l[i - start] == c);
                assert(!ldh_byte(l[i - start]));
            }
            return Some(DnsSyntaxError::InvalidCharacters);
        }
        proof {
            assert(l[i - start] == c);
        }
        i = i + 1;
    }
    None
}

/// Validates a single lowercased ASCII DNS label.
///
/// Returns an error message when the label is empty, too long, starts or ends
/// with a hyphen, has hyphens in positions three and four without being an
/// `xn--` A-label, or contains bytes outside `[a-z0-9-]`.
pub fn validate_ascii_label(label: &str) -> (r: Result<(), String>)
    ensures
        match label_error(label.spec_bytes()) {
            None => r is Ok,
            Some(e) => r matches Err(m) && m@ == error_message(e),
        },
{
    let b = label.as_bytes();
    proof {
        assert(b@.subrange(0, b@.len() as int) =~= b@);
    }
    match label_error_in(b, 0, b.len()) {
        None => Ok(()),
        Some(e) => Err(e.message().to_owned()),
    }
}

/// The first failing rule of a domain's bytes, if any.
pub fn domain_error_of(b: &[u8]) -> (r: Option<DnsSyntaxError>)
    ensures
        r == domain_error(b@),
{
    let len = b.len();
    if len == 0 {
        return Some(DnsSyntaxError::EmptyDomain);
    }
    if len > 253 {
        return Some(DnsSyntaxError::DomainTooLong);
    }
    let mut pos: usize = 0;
    proof {
        assert(b@.skip(0) =~= b@);
    }
    loop
        invariant
            len == b@.len(),
            pos <= len,
            domain_error(b@) == first_label_error(split_seq(b@.skip(pos as int), dot_byte())),
            0 < len <= 253,
        decreases len - pos,
    {
        let ghost rest = b@.skip(pos as int);
        let mut j = pos;
        while j < len && b[j] != 46u8
            invariant
                len == b@.len(),
                pos <= j <= len,
                forall|k: int| pos <= k < j ==> b@[k] != 46u8,
            decreases len - j,
        {
            j = j + 1;
        }
        proof {
            assert forall|k: int| 0 <= k < j - pos implies rest[k] != dot_byte() by {
                assert(rest[k] == b@[pos + k]);
            }
            if j < len {
                assert(rest[j - pos] == b@[j as int]);
            }
            crate::text::lemma_first_sep_at(rest, dot_byte(), j - pos);
            lemma_first_sep(rest, dot_byte());
            assert(rest.take(j - pos) =~= b@.subrange(pos as int, j as int));
        }
        let e = label_error_in(b, pos, j);
        if j == len {
            proof {
                lemma_split_single(rest, dot_byte());
                assert(rest =~= b@.subrange(pos as int, j as int));
                let ls = split_seq(rest, dot_byte());
                assert(ls.drop_first() =~= Seq::<Seq<u8>>::empty());
                assert(first_label_error(ls.drop_first()) is None);
                assert(first_label_error(ls) == label_error(rest));
            }
            return e;
        }
        proof {
            lemma_split_step(rest, dot_byte());
            assert(rest.skip(j - pos + 1) =~= b@.skip(j + 1));
            let ls = split_seq(rest, dot_byte());
            assert(ls.len() > 0);
            assert(first_label_error(ls) == if label_error(ls[0]) is Some {
                label_error(ls[0])
            } else {
                first_label_error(ls.drop_first())
            });
        }
        if e.is_some() {
            return e;
        }
        pos = j + 1;
    }
}

/// Validates a lowercased ASCII domain name for basic DNS syntax.
///
/// Returns an error message when the domain is empty, longer than 253 bytes,
/// or contains an invalid label (the first one, in order).
pub fn validate_ascii_domain(domain: &str) -> (r: Result<(), String>)
    ensures
        match domain_error(domain.spec_bytes()) {
            None => r is Ok,
            Some(e) => r matches Err(m) && m@ == error_message(e),
        },
{
    let b = domain.as_bytes();
    match domain_error_of(b) {
        None => Ok(()),
        Some(e) => Err(e.message().to_owned()),
    }
}

/// A label is accepted exactly when it has 1 to 63 bytes, every byte is a
/// lowercase ASCII letter, a digit or a hyphen (in any position, a digit
/// first included), it neither starts nor ends with a hyphen, and it has no
/// hyphens in positions three and four unless it starts with `xn`.
pub proof fn law_label_accepted(l: Seq<u8>)
    ensures
        label_error(l) is None <==> {
            &&& 1 <= l.len() <= 63
            &&& forall|i: int|
                0 <= i < l.len() ==> (97 <= #[trigger] l[i] <= 122) || (48 <= l[i] <= 57) || l[i]
                    == 45
            &&& l[0] != 45
            &&& l[l.len() - 1] != 45
            &&& !(l.len() >= 4 && l[2] == 45 && l[3] == 45 && !(l[0] == 120 && l[1] == 110))
        },
{
    if l.len() > 0 {
        assert(l.last() == l[l.len() - 1]);
    }
}

/// The first failing label's error is none exactly when every label passes.
proof fn lemma_first_label_error_none(ls: Seq<Seq<u8>>)
    ensures
        first_label_error(ls) is None <==> forall|i: int|
            0 <= i < ls.len() ==> label_error(#[trigger] ls[i]) is None,
    decreases ls.len(),
{
    if ls.len() > 0 {
        lemma_first_label_error_none(ls.drop_first());
        assert(forall|i: int| 0 <= i < ls.drop_first().len() ==> #[trigger] ls.drop_first()[i]
            == ls[i + 1]);
        if forall|i: int| 0 <= i < ls.drop_first().len() ==> label_error(
            #[trigger] ls.drop_first()[i],
        ) is None {
            if label_error(ls[0]) is None {
                assert forall|i: int| 0 <= i < ls.len() implies label_error(#[trigger] ls[i]) is None by {
                    if i > 0 {
                        assert(ls[i] == ls.drop_first()[i - 1]);
                    }
                }
            }
        } else {
            let i = choose|i: int| 0 <= i < ls.drop_first().len() && !(label_error(
                #[trigger] ls.drop_first()[i],
            ) is None);
            assert(ls[i + 1] == ls.drop_first()[i]);
        }
    }
}

/// A domain is accepted exactly when it has 1 to 253 bytes and every
/// dot-separated label is accepted.
pub proof fn law_domain_accepted(b: Seq<u8>)
    ensures
        domain_error(b) is None <==> {
            &&& 1 <= b.len() <= 253
            &&& forall|i: int|
                0 <= i < split_seq(b, dot_byte()).len() ==> label_error(
                    #[trigger] split_seq(b, dot_byte())[i],
                ) is None
        },
{
    lemma_first_label_error_none(split_seq(b, dot_byte()));
}

} // verus!
