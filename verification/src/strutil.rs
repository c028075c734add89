//! Verified string utilities: equality, substring search, tag stripping and
//! decimal parsing, plus the one trusted lowercase mapping.

use vstd::prelude::*;

verus! {

/// True when `pat` occurs in `s` starting at index `i`.
pub open spec fn matches_at(s: Seq<char>, pat: Seq<char>, i: int) -> bool {
    &&& 0 <= i
    &&& i + pat.len() <= s.len()
    &&& s.subrange(i, i + pat.len() as int) == pat
}

/// True when `pat` occurs somewhere in `s`.
pub open spec fn contains_seq(s: Seq<char>, pat: Seq<char>) -> bool {
    exists|i: int| matches_at(s, pat, i)
}

/// Character-wise string equality.
pub fn str_eq(a: &str, b: &str) -> (r: bool)
    ensures
        r == (a@ == b@),
{
    let alen: usize = a.unicode_len();
    let blen: usize = b.unicode_len();
    if alen != blen {
        return false;
    }
    let mut i: usize = 0;
    while i < alen
        invariant
            alen == a@.len(),
            blen == b@.len(),
            alen == blen,
            0 <= i <= alen,
            forall|j: int| 0 <= j < i ==> a@[j] == b@[j],
        decreases alen - i,
    {
        if a.get_char(i) != b.get_char(i) {
            return false;
        }
        i = i + 1;
    }
    proof {
        assert(a@ =~= b@);
    }
    true
}

/// Whether `pat` occurs in `s` starting exactly at index `i`.
pub fn matches_at_exec(s: &str, pat: &str, i: usize) -> (r: bool)
    requires
        i + pat@.len() <= s@.len(),
    ensures
        r == matches_at(s@, pat@, i as int),
{
    let slen: usize = s.unicode_len();
    let plen: usize = pat.unicode_len();
    let mut j: usize = 0;
    while j < plen
        invariant
            slen == s@.len(),
            plen == pat@.len(),
            i + plen <= slen,
            0 <= j <= plen,
            forall|k: int| 0 <= k < j ==> s@[i + k] == pat@[k],
        decreases plen - j,
    {
        if s.get_char(i + j) != pat.get_char(j) {
            proof {
                assert(s@.subrange(i as int, i + plen as int)[j as int] != pat@[j as int]);
            }
            return false;
        }
        j = j + 1;
    }
    proof {
        assert(s@.subrange(i as int, i + plen as int) =~= pat@);
    }
    true
}

/// Substring search: whether `pat` occurs anywhere in `s`.
pub fn contains_str(s: &str, pat: &str) -> (r: bool)
    ensures
        r == contains_seq(s@, pat@),
{
    let slen: usize = s.unicode_len();
    let plen: usize = pat.unicode_len();
    if plen > slen {
        return false;
    }
    if plen == 0 {
        proof {
            assert(s@.subrange(0, 0) =~= pat@);
            assert(matches_at(s@, pat@, 0));
        }
        return true;
    }
    let last: usize = slen - plen;
    let mut i: usize = 0;
    while i <= last
        invariant
            slen == s@.len(),
            plen == pat@.len(),
            1 <= plen <= slen,
            last == slen - plen,
            0 <= i <= last + 1,
            forall|k: int| 0 <= k < i ==> !matches_at(s@, pat@, k),
        decreases last + 1 - i,
    {
        if matches_at_exec(s, pat, i) {
            return true;
        }
        i = i + 1;
    }
    false
}

/// Whether `s` begins with `pat`.
pub fn starts_with_str(s: &str, pat: &str) -> (r: bool)
    ensures
        r == matches_at(s@, pat@, 0),
{
    let slen: usize = s.unicode_len();
    let plen: usize = pat.unicode_len();
    if plen > slen {
        return false;
    }
    matches_at_exec(s, pat, 0)
}

/// Removes a leading `tag` from `s`: the rest of the string when the tag is
/// there, nothing otherwise.
pub fn strip_tag(s: &str, tag: &str) -> (r: Option<String>)
    ensures
        r is Some <==> matches_at(s@, tag@, 0),
        r matches Some(rest) ==> rest@ == s@.subrange(tag@.len() as int, s@.len() as int),
{
    if starts_with_str(s, tag) {
        let slen: usize = s.unicode_len();
        let tlen: usize = tag.unicode_len();
        Some(String::from_str(s.substring_char(tlen, slen)))
    } else {
        None
    }
}

/// A string with a leading `tag` removed when it is there, the string
/// itself otherwise.
pub open spec fn strip_spec(s: Seq<char>, tag: Seq<char>) -> Seq<char> {
    if matches_at(s, tag, 0) {
        s.skip(tag.len() as int)
    } else {
        s
    }
}

/// Removes a leading `tag` from `s` when it is there; otherwise returns
/// `s` unchanged.
pub fn strip_tag_or_self(s: &str, tag: &str) -> (r: String)
    ensures
        r@ == strip_spec(s@, tag@),
{
    match strip_tag(s, tag) {
        Some(rest) => {
            proof {
                assert(s@.subrange(tag@.len() as int, s@.len() as int) =~= s@.skip(
                    tag@.len() as int,
                ));
            }
            rest
        },
        None => String::from_str(s),
    }
}

/// A decimal digit.
pub open spec fn is_digit(c: char) -> bool {
    '0' <= c && c <= '9'
}

/// The numeric value of one digit character.
pub open spec fn digit_val(c: char) -> int {
    c as int - '0' as int
}

/// A non-empty, all-digit character sequence.
pub open spec fn is_numeral(s: Seq<char>) -> bool {
    s.len() > 0 && forall|i: int| 0 <= i < s.len() ==> is_digit(#[trigger] s[i])
}

/// The decimal value of a digit sequence, most significant digit first.
pub open spec fn numeral_val(s: Seq<char>) -> int
    decreases s.len(),
{
    if s.len() == 0 {
        0
    } else {
        numeral_val(s.drop_last()) * 10 + digit_val(s.last())
    }
}

/// Parses a decimal numeral: its value when `s` is non-empty, all digits,
/// and the value fits; nothing otherwise.
pub fn parse_u32(s: &str) -> (r: Option<u32>)
    ensures
        r is Some <==> is_numeral(s@) && numeral_val(s@) <= u32::MAX,
        r matches Some(v) ==> v == numeral_val(s@),
{
    let slen: usize = s.unicode_len();
    if slen == 0 {
        return None;
    }
    let mut acc: u64 = 0;
    let mut i: usize = 0;
    while i < slen
        invariant
            slen == s@.len(),
            0 < slen,
            0 <= i <= slen,
            forall|k: int| 0 <= k < i ==> is_digit(#[trigger] s@[k]),
            acc <= 0x1_0000_0000u64,
            acc <= u32::MAX ==> acc == numeral_val(s@.subrange(0, i as int)),
            acc > u32::MAX ==> numeral_val(s@.subrange(0, i as int)) > u32::MAX,
        decreases slen - i,
    {
        let c: char = s.get_char(i);
        if c < '0' || c > '9' {
            return None;
        }
        let d: u64 = (c as u32 as u64) - ('0' as u32 as u64);
        proof {
            assert(s@.subrange(0, i + 1).drop_last() =~= s@.subrange(0, i as int));
            assert(s@.subrange(0, i + 1).last() == s@[i as int]);
        }
        if acc > u32::MAX as u64 {
            acc = 0x1_0000_0000u64;
        } else {
            acc = acc * 10 + d;
            if acc > u32::MAX as u64 {
                acc = 0x1_0000_0000u64;
            }
        }
        i = i + 1;
    }
    proof {
        assert(s@.subrange(0, slen as int) =~= s@);
    }
    if acc > u32::MAX as u64 {
        None
    } else {
        Some(acc as u32)
    }
}

/// Parses a decimal numeral into a `u16`, as `parse_u32` but with the
/// smaller bound.
pub fn parse_u16(s: &str) -> (r: Option<u16>)
    ensures
        r is Some <==> is_numeral(s@) && numeral_val(s@) <= u16::MAX,
        r matches Some(v) ==> v == numeral_val(s@),
{
    match parse_u32(s) {
        Some(v) => {
            if v <= u16::MAX as u32 {
                Some(v as u16)
            } else {
                None
            }
        },
        None => {
            proof {
                if is_numeral(s@) && numeral_val(s@) <= u16::MAX {
                    assert(numeral_val(s@) <= u32::MAX);
                }
            }
            None
        },
    }
}

/// The lowercase image of a character sequence, as `str::to_lowercase`
/// computes it.
pub uninterp spec fn lower_of(s: Seq<char>) -> Seq<char>;

/// Relies on str::to_lowercase: the result is the Unicode lowercase mapping
/// of the input, a function of the characters alone; an empty string stays
/// empty.
#[verifier::external_body]
pub(crate) fn to_lowercase(s: &str) -> (r: String)
    ensures
        r@ == lower_of(s@),
        s@.len() == 0 ==> r@.len() == 0,
{
    s.to_lowercase()
}

} // verus!
