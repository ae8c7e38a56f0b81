//! Small verified text utilities: decimal formatting and parsing, ASCII
//! lowercasing, and substring search over character sequences.

use vstd::prelude::*;
use vstd::string::*;

verus! {

/// Relies on `String::push`: appends one character at the end of the string.
#[verifier::external_body]
pub fn push_char(s: &mut String, c: char)
    ensures
        final(s)@ == old(s)@.push(c),
{
    s.push(c);
}

pub open spec fn spec_is_digit(c: char) -> bool {
    48 <= c as u32 && c as u32 <= 57
}

pub open spec fn spec_digit_val(c: char) -> int {
    c as u32 - 48
}

pub open spec fn spec_digit_char(d: int) -> char {
    if d == 0 {
        '0'
    } else if d == 1 {
        '1'
    } else if d == 2 {
        '2'
    } else if d == 3 {
        '3'
    } else if d == 4 {
        '4'
    } else if d == 5 {
        '5'
    } else if d == 6 {
        '6'
    } else if d == 7 {
        '7'
    } else if d == 8 {
        '8'
    } else {
        '9'
    }
}

/// The usual base-ten rendering of a non-negative integer, most significant
/// digit first.
pub open spec fn spec_decimal(n: int) -> Seq<char>
    decreases n,
{
    if n < 0 {
        Seq::empty()
    } else if n < 10 {
        seq![spec_digit_char(n)]
    } else {
        spec_decimal(n / 10) + seq![spec_digit_char(n % 10)]
    }
}

pub open spec fn spec_all_digits(s: Seq<char>) -> bool {
    forall|i: int| 0 <= i < s.len() ==> spec_is_digit(#[trigger] s[i])
}

/// Value of a digit string read in base ten.
pub open spec fn spec_digits_value(s: Seq<char>) -> int
    decreases s.len(),
{
    if s.len() == 0 {
        0
    } else {
        spec_digits_value(s.drop_last()) * 10 + spec_digit_val(s.last())
    }
}

pub proof fn lemma_digits_value_nonneg(s: Seq<char>)
    requires
        spec_all_digits(s),
    ensures
        spec_digits_value(s) >= 0,
    decreases s.len(),
{
    if s.len() > 0 {
        lemma_digits_value_nonneg(s.drop_last());
    }
}

/// A digit string is worth at least any of its prefixes.
pub proof fn lemma_digits_value_prefix_le(s: Seq<char>, k: int)
    requires
        spec_all_digits(s),
        0 <= k <= s.len(),
    ensures
        spec_digits_value(s.take(k)) <= spec_digits_value(s),
    decreases s.len(),
{
    if k == s.len() {
        assert(s.take(k) =~= s);
    } else {
        let d = s.drop_last();
        assert(spec_all_digits(d));
        assert(s.take(k) =~= d.take(k));
        lemma_digits_value_prefix_le(d, k);
        lemma_digits_value_nonneg(d);
    }
}

fn digit_str(d: u64) -> (r: &'static str)
    requires
        d < 10,
    ensures
        r@ =~= seq![spec_digit_char(d as int)],
{
    proof {
        reveal_strlit("0");
        reveal_strlit("1");
        reveal_strlit("2");
        reveal_strlit("3");
        reveal_strlit("4");
        reveal_strlit("5");
        reveal_strlit("6");
        reveal_strlit("7");
        reveal_strlit("8");
        reveal_strlit("9");
    }
    if d == 0 {
        "0"
    } else if d == 1 {
        "1"
    } else if d == 2 {
        "2"
    } else if d == 3 {
        "3"
    } else if d == 4 {
        "4"
    } else if d == 5 {
        "5"
    } else if d == 6 {
        "6"
    } else if d == 7 {
        "7"
    } else if d == 8 {
        "8"
    } else {
        "9"
    }
}

/// Appends the base-ten rendering of `n` to `s`.
pub fn append_decimal(s: &mut String, n: u64)
    ensures
        final(s)@ == old(s)@ + spec_decimal(n as int),
    decreases n,
{
    if n >= 10 {
        append_decimal(s, n / 10);
    }
    let d = digit_str(n % 10);
    s.append(d);
    proof {
        assert(s@ =~= old(s)@ + spec_decimal(n as int));
    }
}

/// The base-ten rendering of `n` as a fresh string.
pub fn decimal_string(n: u64) -> (r: String)
    ensures
        r@ == spec_decimal(n as int),
{
    let mut s = String::new();
    append_decimal(&mut s, n);
    proof {
        assert(s@ =~= spec_decimal(n as int));
    }
    s
}

/// What `parse_u64` yields: the value when the whole string is one or
/// more digits and the value fits in a `u64`.
pub open spec fn spec_parsed_u64(s: Seq<char>) -> Option<int> {
    if s.len() > 0 && spec_all_digits(s) && spec_digits_value(s) <= u64::MAX {
        Some(spec_digits_value(s))
    } else {
        None
    }
}

/// Reads a base-ten number. Returns the value exactly when the whole string
/// is one or more digits and the value fits in a `u64`.
pub fn parse_u64(s: &str) -> (r: Option<u64>)
    ensures
        match r {
            Some(v) => s@.len() > 0 && spec_all_digits(s@) && v == spec_digits_value(s@),
            None => s@.len() == 0 || !spec_all_digits(s@) || spec_digits_value(s@) > u64::MAX,
        },
        match spec_parsed_u64(s@) {
            Some(v) => r == Some(v as u64),
            None => r is None,
        },
{
    let len = s.unicode_len();
    if len == 0 {
        return None;
    }
    let mut acc: u64 = 0;
    let mut i: usize = 0;
    while i < len
        invariant
            0 <= i <= len,
            len == s@.len(),
            spec_all_digits(s@.take(i as int)),
            acc == spec_digits_value(s@.take(i as int)),
        decreases len - i,
    {
        let c = s.get_char(i);
        let u = c as u32;
        if u < 48 || u > 57 {
            assert(!spec_is_digit(s@[i as int]));
            return None;
        }
        let d = (u - 48) as u64;
        assert(spec_is_digit(s@[i as int]));
        assert(d == spec_digit_val(s@[i as int]));
        if acc > (u64::MAX - d) / 10 {
            proof {
                let p = s@.take(i + 1);
                assert(p.drop_last() =~= s@.take(i as int));
                assert(p.last() == s@[i as int]);
                assert(spec_digits_value(p) == acc * 10 + d);
                assert(acc * 10 + d > u64::MAX) by {
                    let m = (u64::MAX - d) as int;
                    assert(acc > m / 10);
                    assert(acc * 10 > m) by {
                        assert(acc >= m / 10 + 1);
                        assert((m / 10 + 1) * 10 == (m / 10) * 10 + 10);
                        assert(m / 10 * 10 + m % 10 == m);
                        assert(acc * 10 >= (m / 10 + 1) * 10) by (nonlinear_arith)
                            requires
                                acc >= m / 10 + 1,
                        ;
                    }
                }
                if spec_all_digits(s@) {
                    lemma_digits_value_prefix_le(s@, i + 1);
                    assert(spec_digits_value(s@) > u64::MAX);
                }
            }
            return None;
        }
        proof {
            let p = s@.take(i + 1);
            assert(p.drop_last() =~= s@.take(i as int));
            assert(p.last() == s@[i as int]);
            assert(acc * 10 <= u64::MAX - d) by {
                let m = (u64::MAX - d) as int;
                assert(acc <= m / 10);
                assert(acc * 10 <= (m / 10) * 10) by (nonlinear_arith)
                    requires
                        acc <= m / 10,
                ;
                assert((m / 10) * 10 <= m);
            }
        }
        acc = acc * 10 + d;
        i = i + 1;
    }
    proof {
        assert(s@.take(len as int) =~= s@);
    }
    Some(acc)
}

/// ASCII lowercase of one character; anything outside `A`..`Z` is unchanged.
pub open spec fn spec_ascii_lower(c: char) -> char {
    if 65 <= c as u32 && c as u32 <= 90 {
        ((c as u32 + 32) as u8) as char
    } else {
        c
    }
}

pub fn ascii_lower_char(c: char) -> (r: char)
    ensures
        r == spec_ascii_lower(c),
{
    let u = c as u32;
    if 65 <= u && u <= 90 {
        ((u + 32) as u8) as char
    } else {
        c
    }
}

/// The characters of `s`, ASCII-lowercased one by one.
pub open spec fn spec_lower_chars(s: Seq<char>) -> Seq<char> {
    s.map_values(|c: char| spec_ascii_lower(c))
}

/// Collects the characters of a string slice into a vector.
pub fn str_to_chars(s: &str) -> (v: Vec<char>)
    ensures
        v@ == s@,
{
    let len = s.unicode_len();
    let mut v: Vec<char> = Vec::new();
    let mut i: usize = 0;
    while i < len
        invariant
            0 <= i <= len,
            len == s@.len(),
            v@ =~= s@.take(i as int),
        decreases len - i,
    {
        v.push(s.get_char(i));
        i = i + 1;
    }
    proof {
        assert(s@.take(len as int) =~= s@);
    }
    v
}

/// Collects the ASCII-lowercased characters of a string slice.
pub fn lower_chars(s: &str) -> (v: Vec<char>)
    ensures
        v@ == spec_lower_chars(s@),
{
    let len = s.unicode_len();
    let mut v: Vec<char> = Vec::new();
    let mut i: usize = 0;
    while i < len
        invariant
            0 <= i <= len,
            len == s@.len(),
            v@ =~= spec_lower_chars(s@.take(i as int)),
        decreases len - i,
    {
        let c = ascii_lower_char(s.get_char(i));
        v.push(c);
        proof {
            assert(v@ =~= spec_lower_chars(s@.take(i + 1)));
        }
        i = i + 1;
    }
    proof {
        assert(s@.take(len as int) =~= s@);
    }
    v
}

/// `p` occurs in `h` starting at position `i`.
pub open spec fn spec_match_at(h: Seq<char>, p: Seq<char>, i: int) -> bool {
    &&& 0 <= i
    &&& i + p.len() <= h.len()
    &&& h.subrange(i, i + p.len()) == p
}

/// `p` occurs somewhere in `h`.
pub open spec fn spec_contains_seq(h: Seq<char>, p: Seq<char>) -> bool {
    exists|i: int| spec_match_at(h, p, i)
}

fn match_at(h: &Vec<char>, p: &str, i: usize) -> (b: bool)
    requires
        i + p@.len() <= h@.len(),
    ensures
        b == spec_match_at(h@, p@, i as int),
{
    let plen = p.unicode_len();
    let hlen = h.len();
    let mut j: usize = 0;
    while j < plen
        invariant
            0 <= j <= plen,
            plen == p@.len(),
            hlen == h@.len(),
            i + plen <= hlen,
            forall|k: int| 0 <= k < j ==> h@[i + k] == p@[k],
        decreases plen - j,
    {
        if h[i + j] != p.get_char(j) {
            assert(h@.subrange(i as int, i + p@.len())[j as int] != p@[j as int]);
            return false;
        }
        j = j + 1;
    }
    proof {
        assert(h@.subrange(i as int, i + p@.len()) =~= p@);
    }
    true
}

/// Whether `p` occurs as a contiguous run of characters in `h`.
pub fn contains_pattern(h: &Vec<char>, p: &str) -> (b: bool)
    ensures
        b == spec_contains_seq(h@, p@),
{
    let plen = p.unicode_len();
    let hlen = h.len();
    if plen > hlen {
        return false;
    }
    if plen == 0 {
        assert(spec_match_at(h@, p@, 0)) by {
            assert(h@.subrange(0, 0) =~= p@);
        }
        return true;
    }
    let mut i: usize = 0;
    while i <= hlen - plen
        invariant
            0 <= i <= hlen - plen + 1,
            1 <= plen <= hlen,
            plen == p@.len(),
            hlen == h@.len(),
            forall|k: int| 0 <= k < i ==> !spec_match_at(h@, p@, k),
        decreases hlen - i,
    {
        if match_at(h, p, i) {
            return true;
        }
        i = i + 1;
    }
    false
}

/// ASCII-lowercases `s` and reports whether `p` occurs in the result.
pub fn contains_lowered(s: &str, p: &str) -> (b: bool)
    ensures
        b == spec_contains_seq(spec_lower_chars(s@), p@),
{
    let h = lower_chars(s);
    contains_pattern(&h, p)
}

} // verus!
