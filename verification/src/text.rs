//! Small text helpers shared by the driver and the argument parser.

use vstd::prelude::*;

verus! {

/// The characters that `String::from_utf8_lossy` decodes a byte
/// sequence to: UTF-8 decoding with replacement characters for invalid
/// sequences. A function of the bytes alone.
pub uninterp spec fn lossy_utf8(bytes: Seq<u8>) -> Seq<char>;

/// Relies on String::from_utf8_lossy: decodes UTF-8, replacing invalid
/// sequences with U+FFFD. The result depends on the bytes alone; an
/// empty input decodes to an empty string.
#[verifier::external_body]
pub fn utf8_lossy_string(bytes: &Vec<u8>) -> (r: String)
    ensures
        r@ == lossy_utf8(bytes@),
        bytes@.len() == 0 ==> r@.len() == 0,
{
    String::from_utf8_lossy(bytes.as_slice()).into_owned()
}

/// Whether a character counts as whitespace in the sense of Unicode
/// `White_Space`, the classification `char::is_whitespace` implements.
pub uninterp spec fn is_unicode_space(c: char) -> bool;

/// Relies on char::is_whitespace: the Unicode `White_Space` property.
/// A function of the character alone; the ASCII whitespace characters
/// have it, and the printable ASCII characters do not.
#[verifier::external_body]
pub fn char_is_space(c: char) -> (r: bool)
    ensures
        r == is_unicode_space(c),
        (c == ' ' || c == '\t' || c == '\n' || c == '\r') ==> r,
        ('!' <= c && c <= '~') ==> !r,
{
    c.is_whitespace()
}

/// Character-wise string equality.
pub fn str_eq(a: &str, b: &str) -> (r: bool)
    ensures
        r == (a@ == b@),
{
    let alen = a.unicode_len();
    let blen = b.unicode_len();
    if alen != blen {
        proof {
            assert(a@.len() != b@.len());
        }
        return false;
    }
    let mut i: usize = 0;
    while i < alen
        invariant
            i <= alen,
            alen == a@.len(),
            alen == b@.len(),
            forall|j: int| 0 <= j < i ==> a@[j] == b@[j],
        decreases alen - i,
    {
        if a.get_char(i) != b.get_char(i) {
            return false;
        }
        i += 1;
    }
    proof {
        assert(a@ =~= b@);
    }
    true
}

/// `a` matches `p` up to ASCII case, where `p` is lower case: either
/// the same character, or `a` is the ASCII upper-case form of `p`.
pub open spec fn ci_match(a: char, p: char) -> bool {
    a == p || ('A' <= a && a <= 'Z' && a as u32 + 32 == p as u32)
}

/// `s` equals the lower-case pattern `p` up to ASCII case.
pub open spec fn ci_eq(s: Seq<char>, p: Seq<char>) -> bool {
    s.len() == p.len() && forall|i: int| 0 <= i < s.len() ==> ci_match(#[trigger] s[i], p[i])
}

/// Compare a string against a lower-case pattern, ignoring ASCII
/// case in the string.
pub fn str_ci_eq(s: &str, p: &str) -> (r: bool)
    ensures
        r == ci_eq(s@, p@),
{
    let slen = s.unicode_len();
    let plen = p.unicode_len();
    if slen != plen {
        return false;
    }
    let mut i: usize = 0;
    while i < slen
        invariant
            i <= slen,
            slen == s@.len(),
            slen == p@.len(),
            forall|j: int| 0 <= j < i ==> ci_match(#[trigger] s@[j], p@[j]),
        decreases slen - i,
    {
        let a = s.get_char(i);
        let b = p.get_char(i);
        let ok = a == b || ('A' <= a && a <= 'Z' && (a as u32) + 32 == b as u32);
        if !ok {
            proof {
                assert(!ci_match(s@[i as int], p@[i as int]));
            }
            return false;
        }
        i += 1;
    }
    true
}

/// The character for the decimal digit `d`.
pub open spec fn dec_digit_char(d: int) -> char {
    ((d + 48) as u8) as char
}

/// The decimal representation of `n`, most significant digit first,
/// without leading zeros.
pub open spec fn spec_u8_dec(n: u8) -> Seq<char>
    decreases n,
{
    if n < 10 {
        seq![dec_digit_char(n as int)]
    } else {
        spec_u8_dec((n / 10) as u8).push(dec_digit_char((n % 10) as int))
    }
}

/// The one-character string for the decimal digit `d`.
fn digit_str(d: u8) -> (r: &'static str)
    requires
        d < 10,
    ensures
        r@ =~= seq![dec_digit_char(d as int)],
{
    let r = match d {
        0 => "0",
        1 => "1",
        2 => "2",
        3 => "3",
        4 => "4",
        5 => "5",
        6 => "6",
        7 => "7",
        8 => "8",
        _ => "9",
    };
    proof {
        reveal_strlit("0");
        reveal_strlit("1");
        reveal_strlit("2");
        reveal_strlit("3");
        reveal_strlit("4");
        reveal_strlit("5");
        reveal_strlit("6");
        reveal_strlit("7");
        reveal_strlit("8");
        reveal_strlit("9");
    }
    r
}

/// Format `n` in decimal.
pub fn u8_dec(n: u8) -> (r: String)
    ensures
        r@ == spec_u8_dec(n),
    decreases n,
{
    if n < 10 {
        digit_str(n).to_owned()
    } else {
        let s = u8_dec(n / 10);
        s.concat(digit_str(n % 10))
    }
}

/// Whether every character of `s` is a decimal digit.
pub open spec fn all_digits(s: Seq<char>) -> bool {
    forall|i: int| 0 <= i < s.len() ==> '0' <= #[trigger] s[i] && s[i] <= '9'
}

/// The number a digit string denotes.
pub open spec fn spec_dec_val(s: Seq<char>) -> int
    decreases s.len(),
{
    if s.len() == 0 {
        0
    } else {
        spec_dec_val(s.drop_last()) * 10 + (s.last() as int - 48)
    }
}

/// What `str::parse::<u32>` accepts: an optional plus sign, then one
/// or more decimal digits denoting a value that fits in 32 bits.
pub open spec fn spec_parse_u32(s: Seq<char>) -> Option<u32> {
    let t = if s.len() >= 1 && s[0] == '+' {
        s.subrange(1, s.len() as int)
    } else {
        s
    };
    if t.len() >= 1 && all_digits(t) && spec_dec_val(t) <= u32::MAX {
        Some(spec_dec_val(t) as u32)
    } else {
        None
    }
}

/// A digit string's value is at least the value of any of its
/// prefixes.
proof fn lemma_dec_val_prefix(s: Seq<char>, m: int)
    requires
        all_digits(s),
        0 <= m <= s.len(),
    ensures
        0 <= spec_dec_val(s.take(m)) <= spec_dec_val(s),
    decreases s.len() - m,
{
    lemma_dec_val_nonneg(s.take(m));
    if m < s.len() {
        lemma_dec_val_prefix(s, m + 1);
        assert(s.take(m + 1).drop_last() =~= s.take(m));
        lemma_dec_val_nonneg(s.take(m));
    } else {
        assert(s.take(m) =~= s);
    }
}

/// A digit string denotes a nonnegative number.
proof fn lemma_dec_val_nonneg(s: Seq<char>)
    requires
        all_digits(s),
    ensures
        spec_dec_val(s) >= 0,
    decreases s.len(),
{
    if s.len() > 0 {
        assert(all_digits(s.drop_last()));
        lemma_dec_val_nonneg(s.drop_last());
    }
}

/// Parse a decimal `u32`, exactly as `str::parse::<u32>` does: an
/// optional plus sign, then digits; anything else, or a value over
/// `u32::MAX`, yields `None`.
pub fn parse_u32(s: &str) -> (r: Option<u32>)
    ensures
        r == spec_parse_u32(s@),
{
    let len = s.unicode_len();
    let mut i: usize = 0;
    if len >= 1 && s.get_char(0) == '+' {
        i = 1;
    }
    let ghost t = if s@.len() >= 1 && s@[0] == '+' {
        s@.subrange(1, s@.len() as int)
    } else {
        s@
    };
    if i == len {
        return None;
    }
    let start = i;
    let mut val: u32 = 0;
    while i < len
        invariant
            start <= i <= len,
            len == s@.len(),
            start == if s@.len() >= 1 && s@[0] == '+' { 1int } else { 0int },
            t == (if s@.len() >= 1 && s@[0] == '+' {
                s@.subrange(1, s@.len() as int)
            } else {
                s@
            }),
            t =~= s@.subrange(start as int, s@.len() as int),
            all_digits(t.take(i - start)),
            val == spec_dec_val(t.take(i - start)),
        decreases len - i,
    {
        let c = s.get_char(i);
        if c < '0' || c > '9' {
            proof {
                assert(t[i - start] == c);
                assert(!all_digits(t));
            }
            return None;
        }
        let d: u32 = (c as u32) - 48;
        if val > (u32::MAX - d) / 10 {
            proof {
                assert(t.take(i + 1 - start).drop_last() =~= t.take(i - start));
                assert(t.take(i + 1 - start).last() == c);
                assert(spec_dec_val(t.take(i + 1 - start)) == val * 10 + d);
                if all_digits(t) {
                    lemma_dec_val_prefix(t, i + 1 - start);
                    assert(10 * val + d > u32::MAX) by (nonlinear_arith)
                        requires
                            val > (u32::MAX - d) / 10,
                            d <= 9,
                    ;
                    assert(spec_dec_val(t) > u32::MAX);
                }
                assert(spec_parse_u32(s@) is None);
            }
            return None;
        }
        proof {
            assert(10 * val + d <= u32::MAX) by (nonlinear_arith)
                requires
                    val <= (u32::MAX - d) / 10,
                    d <= 9,
            ;
            assert(t.take(i + 1 - start).drop_last() =~= t.take(i - start));
            assert(t.take(i + 1 - start).last() == c);
        }
        val = val * 10 + d;
        i += 1;
    }
    proof {
        assert(t.take(len - start) =~= t);
        lemma_dec_val_nonneg(t);
    }
    Some(val)
}

} // verus!
