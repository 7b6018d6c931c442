//! Input normalization: whitespace trimming, IDNA conversion, and ASCII
//! lowercasing.

use vstd::prelude::*;
use vstd::string::StringSliceAdditionalSpecFns;
use vstd::utf8::encode_utf8;

use crate::types::opt_string_view;

verus! {

/// The UTS #46 ToASCII result that `idna::domain_to_ascii` computes for a
/// name (no ASCII deny list, hyphens allowed, DNS length unchecked), or
/// `None` when the processing reports errors.
pub uninterp spec fn uts46_to_ascii(domain: Seq<char>) -> Option<Seq<char>>;

/// The UTS #46 ToUnicode result that `idna::domain_to_unicode` computes: the
/// Unicode form and whether processing reported no error.
pub uninterp spec fn uts46_to_unicode(domain: Seq<char>) -> (Seq<char>, bool);

/// Calls `idna::domain_to_ascii`.
///
/// Trusted: the returned string is the crate's ToASCII result for `domain`,
/// and `None` stands for its `Err`. Nothing is claimed about that result
/// beyond being a function of the input.
#[verifier::external_body]
pub(crate) fn idna_to_ascii(domain: &str) -> (r: Option<String>)
    ensures
        opt_string_view(r) == uts46_to_ascii(domain@),
{
    idna::domain_to_ascii(domain).ok()
}

/// Calls `idna::domain_to_unicode`.
///
/// Trusted: the returned string is the crate's ToUnicode result for
/// `domain` and the flag is whether its status was `Ok`.
#[verifier::external_body]
pub(crate) fn idna_to_unicode(domain: &str) -> (r: (String, bool))
    ensures
        (r.0@, r.1) == uts46_to_unicode(domain@),
{
    let (unicode, status) = idna::domain_to_unicode(domain);
    (unicode, status.is_ok())
}

/// ASCII lowercasing of one character; other characters are unchanged.
pub open spec fn ascii_lower_char(c: char) -> char {
    if 'A' <= c <= 'Z' {
        ((c as u32) + 32) as char
    } else {
        c
    }
}

/// ASCII lowercasing of every character.
pub open spec fn ascii_lowercase(s: Seq<char>) -> Seq<char> {
    s.map_values(|c: char| ascii_lower_char(c))
}

/// Calls `str::to_ascii_lowercase`.
///
/// Trusted, as std documents it: each ASCII letter `A`-`Z` becomes `a`-`z`
/// and every other character is kept.
#[verifier::external_body]
pub(crate) fn to_ascii_lowercase(s: &str) -> (r: String)
    ensures
        r@ == ascii_lowercase(s@),
{
    s.to_ascii_lowercase()
}

/// Whether a character has the Unicode `White_Space` property.
pub open spec fn is_unicode_whitespace(c: char) -> bool {
    ||| ('\u{9}' <= c <= '\u{d}')
    ||| c == ' '
    ||| c == '\u{85}'
    ||| c == '\u{a0}'
    ||| c == '\u{1680}'
    ||| ('\u{2000}' <= c <= '\u{200a}')
    ||| c == '\u{2028}'
    ||| c == '\u{2029}'
    ||| c == '\u{202f}'
    ||| c == '\u{205f}'
    ||| c == '\u{3000}'
}

fn whitespace_char(c: char) -> (r: bool)
    ensures
        r == is_unicode_whitespace(c),
{
    ('\u{9}' <= c && c <= '\u{d}') || c == ' ' || c == '\u{85}' || c == '\u{a0}' || c == '\u{1680}'
        || ('\u{2000}' <= c && c <= '\u{200a}') || c == '\u{2028}' || c == '\u{2029}' || c
        == '\u{202f}' || c == '\u{205f}' || c == '\u{3000}'
}

/// Number of leading characters of `s` that satisfy `p`.
pub open spec fn leading_count(s: Seq<char>, p: spec_fn(char) -> bool) -> nat
    decreases s.len(),
{
    if s.len() > 0 && p(s[0]) {
        1 + leading_count(s.drop_first(), p)
    } else {
        0
    }
}

/// Number of trailing characters of `s` that satisfy `p`.
pub open spec fn trailing_count(s: Seq<char>, p: spec_fn(char) -> bool) -> nat
    decreases s.len(),
{
    if s.len() > 0 && p(s.last()) {
        1 + trailing_count(s.drop_last(), p)
    } else {
        0
    }
}

/// The Unicode white-space predicate as a value.
pub open spec fn whitespace_pred() -> spec_fn(char) -> bool {
    |c: char| is_unicode_whitespace(c)
}

/// The `'.'` predicate as a value.
pub open spec fn dot_pred() -> spec_fn(char) -> bool {
    |c: char| c == '.'
}

/// `s` without leading and trailing Unicode whitespace.
pub open spec fn trimmed(s: Seq<char>) -> Seq<char> {
    let t = s.skip(leading_count(s, whitespace_pred()) as int);
    t.take(t.len() - trailing_count(t, whitespace_pred()))
}

/// `s` without its leading `'.'` characters.
pub open spec fn without_leading_dots(s: Seq<char>) -> Seq<char> {
    s.skip(leading_count(s, dot_pred()) as int)
}

/// `s` without one trailing `'.'`, when it has one.
pub open spec fn without_trailing_dot(s: Seq<char>) -> Seq<char> {
    if s.len() > 0 && s.last() == '.' {
        s.drop_last()
    } else {
        s
    }
}

/// `leading_count` is the length of the run that a scan finds.
pub proof fn lemma_leading_count(s: Seq<char>, p: spec_fn(char) -> bool, k: int)
    requires
        0 <= k <= s.len(),
        forall|j: int| 0 <= j < k ==> #[trigger] p(s[j]),
        k == s.len() || !p(s[k]),
    ensures
        leading_count(s, p) == k,
    decreases s.len(),
{
    if k > 0 {
        assert forall|j: int| 0 <= j < k - 1 implies #[trigger] p(s.drop_first()[j]) by {
            assert(s.drop_first()[j] == s[j + 1]);
        }
        lemma_leading_count(s.drop_first(), p, k - 1);
    }
}

/// `trailing_count` is the length of the run that a backward scan finds.
pub proof fn lemma_trailing_count(s: Seq<char>, p: spec_fn(char) -> bool, k: int)
    requires
        0 <= k <= s.len(),
        forall|j: int| s.len() - k <= j < s.len() ==> #[trigger] p(s[j]),
        k == s.len() || !p(s[s.len() - k - 1]),
    ensures
        trailing_count(s, p) == k,
    decreases s.len(),
{
    if k > 0 {
        assert forall|j: int| s.drop_last().len() - (k - 1) <= j < s.drop_last().len() implies #[trigger] p(
            s.drop_last()[j],
        ) by {
            assert(s.drop_last()[j] == s[j]);
        }
        lemma_trailing_count(s.drop_last(), p, k - 1);
    }
}

/// Whether every character of `s` is Unicode whitespace.
pub open spec fn all_whitespace(s: Seq<char>) -> bool {
    forall|j: int| 0 <= j < s.len() ==> is_unicode_whitespace(#[trigger] s[j])
}

/// Whether `s` is non-empty and neither starts nor ends with whitespace.
pub open spec fn unpadded(s: Seq<char>) -> bool {
    s.len() > 0 && !is_unicode_whitespace(s[0]) && !is_unicode_whitespace(s.last())
}

/// Trimming undoes whitespace padding around an unpadded text.
pub proof fn lemma_trimmed_padded(before: Seq<char>, x: Seq<char>, after: Seq<char>)
    requires
        all_whitespace(before),
        all_whitespace(after),
        unpadded(x),
    ensures
        trimmed(before + x + after) == x,
{
    let p = whitespace_pred();
    let s = before + x + after;
    let k = before.len() as int;
    assert forall|j: int| 0 <= j < k implies #[trigger] p(s[j]) by {
        assert(s[j] == before[j]);
    }
    assert(s[k] == x[0]);
    lemma_leading_count(s, p, k);
    let t = s.skip(k);
    assert(t =~= x + after);
    let m = after.len() as int;
    assert forall|j: int| t.len() - m <= j < t.len() implies #[trigger] p(t[j]) by {
        assert(t[j] == after[j - x.len()]);
    }
    assert(t[t.len() - m - 1] == x.last());
    lemma_trailing_count(t, p, m);
    assert(t.take(t.len() - m) =~= x);
}

/// Removes leading and trailing Unicode whitespace, as `str::trim` does.
pub fn trim(s: &str) -> (r: &str)
    ensures
        r@ == trimmed(s@),
{
    let len = s.unicode_len();
    let mut a: usize = 0;
    while a < len && whitespace_char(s.get_char(a))
        invariant
            len == s@.len(),
            a <= len,
            forall|j: int| 0 <= j < a ==> #[trigger] is_unicode_whitespace(s@[j]),
        decreases len - a,
    {
        a = a + 1;
    }
    proof {
        assert forall|j: int| 0 <= j < a implies #[trigger] whitespace_pred()(s@[j]) by {}
        lemma_leading_count(s@, whitespace_pred(), a as int);
    }
    let ghost t = s@.skip(a as int);
    let mut b: usize = len;
    while b > a && whitespace_char(s.get_char(b - 1))
        invariant
            len == s@.len(),
            a <= b <= len,
            forall|j: int| b <= j < len ==> #[trigger] is_unicode_whitespace(s@[j]),
        decreases b,
    {
        b = b - 1;
    }
    proof {
        let k = len - b;
        assert forall|j: int| t.len() - k <= j < t.len() implies #[trigger] whitespace_pred()(t[j]) by {
            assert(t[j] == s@[a + j]);
        }
        if b > a {
            assert(t[t.len() - k - 1] == s@[b - 1]);
        }
        lemma_trailing_count(t, whitespace_pred(), k as int);
    }
    let r = s.substring_char(a, b);
    proof {
        assert(r@ =~= trimmed(s@));
    }
    r
}

/// Removes every leading `'.'`, as `trim_start_matches('.')` does.
pub fn trim_leading_dots(s: &str) -> (r: &str)
    ensures
        r@ == without_leading_dots(s@),
{
    let len = s.unicode_len();
    let mut a: usize = 0;
    while a < len && s.get_char(a) == '.'
        invariant
            len == s@.len(),
            a <= len,
            forall|j: int| 0 <= j < a ==> s@[j] == '.',
        decreases len - a,
    {
        a = a + 1;
    }
    proof {
        assert forall|j: int| 0 <= j < a implies #[trigger] dot_pred()(s@[j]) by {}
        lemma_leading_count(s@, dot_pred(), a as int);
    }
    let r = s.substring_char(a, len);
    proof {
        assert(r@ =~= without_leading_dots(s@));
    }
    r
}

/// Removes one trailing `'.'`, as `strip_suffix('.')` followed by a fallback
/// to the whole string does.
pub fn strip_trailing_dot(s: &str) -> (r: &str)
    ensures
        r@ == without_trailing_dot(s@),
{
    let len = s.unicode_len();
    if len > 0 && s.get_char(len - 1) == '.' {
        let r = s.substring_char(0, len - 1);
        proof {
            assert(r@ =~= s@.drop_last());
        }
        r
    } else {
        let r = s.substring_char(0, len);
        proof {
            assert(r@ =~= s@);
        }
        r
    }
}

/// A character sequence is never longer than its UTF-8 encoding.
pub proof fn lemma_encode_utf8_len(c: Seq<char>)
    ensures
        encode_utf8(c).len() >= c.len(),
    decreases c.len(),
{
    if c.len() > 0 {
        lemma_encode_utf8_len(c.drop_first());
    }
}

/// A string is never longer in characters than in bytes.
pub proof fn lemma_chars_within_bytes(s: &str)
    ensures
        s@.len() <= s.spec_bytes().len(),
{
    lemma_encode_utf8_len(s@);
}

} // verus!
