//! The revision number that a chain ID carries in its suffix.
use vstd::prelude::*;
use vstd::string::*;

verus! {

/// The pattern of a chain ID with a revision number: anything, a dash, then digits to the end.
pub const REVISION_PATTERN: &'static str = ".*-([0-9]+)$";

/// An ASCII decimal digit.
pub open spec fn is_digit(c: char) -> bool {
    '0' <= c <= '9'
}

/// Position `p` of `t` holds a dash followed by one or more digits up to the end.
pub open spec fn revision_suffix_at(t: Seq<char>, p: int) -> bool {
    &&& 0 <= p
    &&& p + 1 < t.len()
    &&& t[p] == '-'
    &&& forall|q: int| p < q < t.len() ==> is_digit(#[trigger] t[q])
}

/// The text ends in a dash followed by one or more digits.
pub open spec fn has_revision_suffix(t: Seq<char>) -> bool {
    exists|p: int| revision_suffix_at(t, p)
}

/// The digits after the last dash of a text with a revision suffix.
pub open spec fn revision_digits(t: Seq<char>) -> Seq<char> {
    let p = choose|p: int| revision_suffix_at(t, p);
    t.subrange(p + 1, t.len() as int)
}

/// The value of a sequence of decimal digits.
pub open spec fn digits_value(s: Seq<char>) -> nat
    decreases s.len(),
{
    if s.len() == 0 {
        0
    } else {
        digits_value(s.drop_last()) * 10 + ((s.last() as int) - ('0' as int)) as nat
    }
}

/// The revision number of a chain ID: the number after its last dash if only digits follow
/// it, else zero.
pub open spec fn spec_revision_number(t: Seq<char>) -> nat {
    if has_revision_suffix(t) {
        digits_value(revision_digits(t))
    } else {
        0
    }
}

/// Calls `regex::Regex::new` on `pattern` and then `Regex::is_match` on `text`. For the
/// revision pattern, the regex crate's documented semantics (`.` any character but a newline,
/// `[0-9]` the ASCII digits, `$` the end of the text, unanchored search) make this a test for a
/// dash followed by digits up to the end of the text.
#[verifier::external_body]
fn regex_is_match(pattern: &str, text: &str) -> (r: bool)
    requires
        pattern@ == REVISION_PATTERN@,
    ensures
        r == has_revision_suffix(text@),
{
    regex::Regex::new(pattern).unwrap().is_match(text)
}

/// Calls `regex::Regex::new` on `pattern`, then `Regex::captures` on `text` and
/// `Captures::extract` for the single group. For the revision pattern, greedy `.*` makes the
/// group the digits after the last dash.
#[verifier::external_body]
fn regex_first_capture(pattern: &str, text: &str) -> (r: Option<String>)
    requires
        pattern@ == REVISION_PATTERN@,
    ensures
        r is Some <==> has_revision_suffix(text@),
        r matches Some(s) ==> s@ == revision_digits(text@),
{
    match regex::Regex::new(pattern).unwrap().captures(text) {
        Some(c) => {
            let (_, [digits]) = c.extract::<1>();
            Some(digits.to_string())
        },
        None => None,
    }
}

proof fn lemma_digits_prefix_le(s: Seq<char>, i: int)
    requires
        0 <= i <= s.len(),
        forall|q: int| 0 <= q < s.len() ==> is_digit(#[trigger] s[q]),
    ensures
        digits_value(s.subrange(0, i)) <= digits_value(s),
    decreases s.len() - i,
{
    if i < s.len() {
        lemma_digits_prefix_le(s, i + 1);
        let t = s.subrange(0, i + 1);
        assert(t.drop_last() =~= s.subrange(0, i));
        assert(digits_value(t) == digits_value(s.subrange(0, i)) * 10 + ((t.last() as int)
            - ('0' as int)) as nat);
    } else {
        assert(s.subrange(0, i) =~= s);
    }
}

/// The value of a string of decimal digits.
fn parse_digits(s: &String) -> (r: u64)
    requires
        forall|q: int| 0 <= q < s@.len() ==> is_digit(#[trigger] s@[q]),
        digits_value(s@) <= u64::MAX,
    ensures
        r == digits_value(s@),
{
    let n = s.as_str().unicode_len();
    let mut acc: u64 = 0;
    let mut i: usize = 0;
    while i < n
        invariant
            n == s@.len(),
            0 <= i <= n,
            forall|q: int| 0 <= q < s@.len() ==> is_digit(#[trigger] s@[q]),
            digits_value(s@) <= u64::MAX,
            acc == digits_value(s@.subrange(0, i as int)),
        decreases n - i,
    {
        let c = s.as_str().get_char(i);
        proof {
            lemma_digits_prefix_le(s@, i + 1);
            let t = s@.subrange(0, i + 1);
            assert(t.drop_last() =~= s@.subrange(0, i as int));
            assert(t.last() == c);
            assert(is_digit(s@[i as int]));
        }
        let d = (c as u32 - '0' as u32) as u64;
        acc = acc * 10 + d;
        i = i + 1;
    }
    assert(s@.subrange(0, n as int) =~= s@);
    acc
}

/// The revision number of a chain ID: the number after its last dash if only digits follow
/// it, else zero.
pub fn revision_number_from_chain_id(chain_id: &str) -> (r: u64)
    requires
        has_revision_suffix(chain_id@) ==> digits_value(revision_digits(chain_id@)) <= u64::MAX,
    ensures
        r == spec_revision_number(chain_id@),
{
    if !regex_is_match(REVISION_PATTERN, chain_id) {
        return 0;
    }
    let digits = regex_first_capture(REVISION_PATTERN, chain_id).unwrap();
    proof {
        let t = chain_id@;
        let p = choose|p: int| revision_suffix_at(t, p);
        assert forall|q: int| 0 <= q < digits@.len() implies is_digit(#[trigger] digits@[q]) by {
            assert(digits@[q] == t[p + 1 + q]);
        }
    }
    parse_digits(&digits)
}

} // verus!
