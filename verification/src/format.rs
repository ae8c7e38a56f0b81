//! Human-readable formatting of sizes, durations and ratios, and
//! file-name sanitizing.

use vstd::prelude::*;
use vstd::string::*;

use crate::text::{append_decimal, push_char, spec_decimal, spec_digit_char};

verus! {

/// Characters that file systems refuse in names.
pub open spec fn spec_invalid_filename_char(c: char) -> bool {
    c == '<' || c == '>' || c == ':' || c == '"' || c == '|' || c == '?' || c == '*' || c == '/'
        || c == '\\'
}

/// Control characters (the C0 and C1 ranges and delete).
pub open spec fn spec_control_char(c: char) -> bool {
    (c as u32) < 32 || (127 <= c as u32 && c as u32 <= 159)
}

pub open spec fn spec_sanitize_char(c: char) -> char {
    if spec_invalid_filename_char(c) || spec_control_char(c) {
        '_'
    } else {
        c
    }
}

/// White space as trimming removes it.
pub open spec fn spec_is_space(c: char) -> bool {
    let u = c as u32;
    u == 32 || u == 9 || u == 10 || u == 13 || u == 11 || u == 12 || u == 0x85 || u == 0xA0 || u
        == 0x1680 || (0x2000 <= u && u <= 0x200A) || u == 0x2028 || u == 0x2029 || u == 0x202F || u
        == 0x205F || u == 0x3000
}

pub open spec fn spec_trim_front(s: Seq<char>) -> Seq<char>
    decreases s.len(),
{
    if s.len() > 0 && spec_is_space(s[0]) {
        spec_trim_front(s.drop_first())
    } else {
        s
    }
}

pub open spec fn spec_trim_back(s: Seq<char>) -> Seq<char>
    decreases s.len(),
{
    if s.len() > 0 && spec_is_space(s.last()) {
        spec_trim_back(s.drop_last())
    } else {
        s
    }
}

/// What sanitizing yields: every forbidden or control character replaced
/// by an underscore, and surrounding white space trimmed.
pub open spec fn spec_sanitize(s: Seq<char>) -> Seq<char> {
    spec_trim_back(spec_trim_front(s.map_values(|c: char| spec_sanitize_char(c))))
}

fn sanitize_char(c: char) -> (r: char)
    ensures
        r == spec_sanitize_char(c),
{
    let u = c as u32;
    let invalid = c == '<' || c == '>' || c == ':' || c == '"' || c == '|' || c == '?' || c == '*'
        || c == '/' || c == '\\';
    let control = u < 32 || (127 <= u && u <= 159);
    if invalid || control {
        '_'
    } else {
        c
    }
}

fn is_space(c: char) -> (r: bool)
    ensures
        r == spec_is_space(c),
{
    let u = c as u32;
    u == 32 || u == 9 || u == 10 || u == 13 || u == 11 || u == 12 || u == 0x85 || u == 0xA0 || u
        == 0x1680 || (0x2000 <= u && u <= 0x200A) || u == 0x2028 || u == 0x2029 || u == 0x202F || u
        == 0x205F || u == 0x3000
}

/// Replaces invalid and control characters by underscores and trims
/// surrounding white space.
pub fn sanitize_filename(filename: &str) -> (r: String)
    ensures
        r@ == spec_sanitize(filename@),
{
    let len = filename.unicode_len();
    let mut mapped: Vec<char> = Vec::new();
    let mut i: usize = 0;
    while i < len
        invariant
            0 <= i <= len,
            len == filename@.len(),
            mapped@ =~= filename@.take(i as int).map_values(|c: char| spec_sanitize_char(c)),
        decreases len - i,
    {
        mapped.push(sanitize_char(filename.get_char(i)));
        proof {
            assert(mapped@ =~= filename@.take(i + 1).map_values(
                |c: char| spec_sanitize_char(c),
            )) by {
                let f = |c: char| spec_sanitize_char(c);
                assert(filename@.take(i + 1).map_values(f).len() == i + 1);
                assert forall|j: int|
                    0 <= j < i + 1 implies filename@.take(i + 1).map_values(f)[j] == mapped@[j] by {
                    assert(filename@.take(i + 1)[j] == filename@[j]);
                }
            }
        }
        i = i + 1;
    }
    let ghost t = filename@.map_values(|c: char| spec_sanitize_char(c));
    proof {
        assert(filename@.take(len as int) =~= filename@);
        assert(mapped@ == t);
    }
    let m = mapped.len();
    // Skip leading white space.
    let mut a: usize = 0;
    proof {
        assert(t.skip(0) =~= t);
    }
    while a < m && is_space(mapped[a])
        invariant
            0 <= a <= m,
            m == t.len(),
            mapped@ == t,
            spec_trim_front(t) == spec_trim_front(t.skip(a as int)),
        decreases m - a,
    {
        proof {
            assert(t.skip(a as int)[0] == t[a as int]);
            assert(t.skip(a as int).drop_first() =~= t.skip(a + 1));
        }
        a = a + 1;
    }
    let ghost t2 = t.skip(a as int);
    proof {
        assert(spec_trim_front(t) == t2);
    }
    // Drop trailing white space.
    let mut b: usize = m;
    proof {
        assert(t2.take(m - a) =~= t2);
    }
    while b > a && is_space(mapped[b - 1])
        invariant
            a <= b <= m,
            m == t.len(),
            mapped@ == t,
            t2 == t.skip(a as int),
            spec_trim_back(t2) == spec_trim_back(t2.take(b - a)),
        decreases b,
    {
        proof {
            assert(t2.take(b - a).last() == t[b - 1]);
            assert(t2.take(b - a).drop_last() =~= t2.take(b - 1 - a));
        }
        b = b - 1;
    }
    proof {
        if b > a {
            assert(t2.take(b - a).last() == t[b - 1]);
        }
        assert(spec_trim_back(t2) == t2.take(b - a));
    }
    // Collect the kept middle.
    let mut r = String::new();
    let mut k: usize = a;
    while k < b
        invariant
            a <= k <= b <= m,
            m == t.len(),
            mapped@ == t,
            t2 == t.skip(a as int),
            r@ =~= t2.take(k - a),
        decreases b - k,
    {
        proof {
            assert(t2.take(k - a + 1).drop_last() =~= t2.take(k - a));
            assert(t2.take(k - a + 1).last() == t[k as int]);
        }
        push_char(&mut r, mapped[k]);
        k = k + 1;
    }
    proof {
        assert(r@ =~= spec_sanitize(filename@));
    }
    r
}

/// Size units in ascending order of scale.
pub open spec fn spec_unit_suffix(u: int) -> Seq<char> {
    if u == 0 {
        " B"@
    } else if u == 1 {
        " KB"@
    } else if u == 2 {
        " MB"@
    } else if u == 3 {
        " GB"@
    } else {
        " TB"@
    }
}

/// The scale a byte count is shown in: the largest unit it reaches.
pub open spec fn spec_size_unit(n: int) -> int {
    if n < 1024 {
        0
    } else if n < 1024 * 1024 {
        1
    } else if n < 1024 * 1024 * 1024 {
        2
    } else if n < 1024 * 1024 * 1024 * 1024 {
        3
    } else {
        4
    }
}

pub open spec fn spec_unit_divisor(u: int) -> int {
    if u == 0 {
        1
    } else if u == 1 {
        1024
    } else if u == 2 {
        (1024 * 1024) as int
    } else if u == 3 {
        (1024 * 1024 * 1024) as int
    } else {
        (1024 * 1024 * 1024 * 1024) as int
    }
}

/// The size scaled into its unit, in tenths, rounded half up.
pub open spec fn spec_size_tenths(n: int, u: int) -> int {
    let p = spec_unit_divisor(u);
    let q = n / p;
    let rm = n % p;
    let t0 = q * 10 + rm * 10 / p;
    if (rm * 10 % p) * 2 >= p {
        t0 + 1
    } else {
        t0
    }
}

/// A byte count in human-readable form: whole bytes below one kilobyte,
/// one decimal place in the reached unit above.
pub open spec fn spec_format_file_size(n: int) -> Seq<char> {
    let u = spec_size_unit(n);
    if u == 0 {
        spec_decimal(n) + " B"@
    } else {
        let t = spec_size_tenths(n, u);
        spec_decimal(t / 10) + "."@ + seq![spec_digit_char(t % 10)] + spec_unit_suffix(u)
    }
}

pub fn format_file_size(size_bytes: u64) -> (r: String)
    ensures
        r@ == spec_format_file_size(size_bytes as int),
{
    let kb: u64 = 1024;
    let mb: u64 = 1024 * 1024;
    let gb: u64 = 1024 * 1024 * 1024;
    let tb: u64 = 1024 * 1024 * 1024 * 1024;
    if size_bytes < kb {
        let mut s = String::new();
        append_decimal(&mut s, size_bytes);
        s.append(" B");
        proof {
            assert(s@ =~= spec_format_file_size(size_bytes as int));
        }
        return s;
    }
    let (p, suffix): (u64, &'static str) = if size_bytes < mb {
        (kb, " KB")
    } else if size_bytes < gb {
        (mb, " MB")
    } else if size_bytes < tb {
        (gb, " GB")
    } else {
        (tb, " TB")
    };
    let q = size_bytes / p;
    let rm = size_bytes % p;
    let t0 = q * 10 + rm * 10 / p;
    let t = if (rm * 10 % p) * 2 >= p {
        t0 + 1
    } else {
        t0
    };
    let mut s = String::new();
    append_decimal(&mut s, t / 10);
    s.append(".");
    let frac = crate::text::decimal_string(t % 10);
    s.append(frac.as_str());
    s.append(suffix);
    proof {
        assert(s@ =~= spec_format_file_size(size_bytes as int));
    }
    s
}

/// A duration in human-readable form, with one (zero) decimal place on the
/// seconds.
pub open spec fn spec_format_duration(s: int) -> Seq<char> {
    if s < 60 {
        spec_decimal(s) + ".0s"@
    } else if s < 3600 {
        spec_decimal(s / 60) + "m "@ + spec_decimal(s % 60) + ".0s"@
    } else {
        spec_decimal(s / 3600) + "h "@ + spec_decimal(s % 3600 / 60) + "m "@ + spec_decimal(s % 60)
            + ".0s"@
    }
}

pub fn format_duration(seconds: u64) -> (r: String)
    ensures
        r@ == spec_format_duration(seconds as int),
{
    let mut s = String::new();
    if seconds < 60 {
        append_decimal(&mut s, seconds);
        s.append(".0s");
    } else if seconds < 3600 {
        append_decimal(&mut s, seconds / 60);
        s.append("m ");
        append_decimal(&mut s, seconds % 60);
        s.append(".0s");
    } else {
        append_decimal(&mut s, seconds / 3600);
        s.append("h ");
        append_decimal(&mut s, seconds % 3600 / 60);
        s.append("m ");
        append_decimal(&mut s, seconds % 60);
        s.append(".0s");
    }
    proof {
        assert(s@ =~= spec_format_duration(seconds as int));
    }
    s
}

/// A compression ratio, given in hundredths, shown as `x.y:1` when the
/// output shrank and `1:x.y` when it grew, rounded half up.
pub open spec fn spec_format_ratio(p: int) -> Seq<char> {
    if p >= 100 {
        let t = (p + 5) / 10;
        spec_decimal(t / 10) + "."@ + seq![spec_digit_char(t % 10)] + ":1"@
    } else {
        let t = (2000 + p) / (2 * p);
        "1:"@ + spec_decimal(t / 10) + "."@ + seq![spec_digit_char(t % 10)]
    }
}

pub fn format_compression_ratio(ratio_percent: u64) -> (r: String)
    requires
        1 <= ratio_percent <= 0x1000_0000_0000_0000,
    ensures
        r@ == spec_format_ratio(ratio_percent as int),
{
    let p = ratio_percent;
    let mut s = String::new();
    if p >= 100 {
        let t = (p + 5) / 10;
        append_decimal(&mut s, t / 10);
        s.append(".");
        let frac = crate::text::decimal_string(t % 10);
        s.append(frac.as_str());
        s.append(":1");
    } else {
        let t = (2000 + p) / (2 * p);
        s.append("1:");
        append_decimal(&mut s, t / 10);
        s.append(".");
        let frac = crate::text::decimal_string(t % 10);
        s.append(frac.as_str());
    }
    proof {
        assert(s@ =~= spec_format_ratio(ratio_percent as int));
    }
    s
}

/// By how many percent compression shrank the input; zero for an empty
/// input or a grown output.
pub open spec fn spec_compression_percentage(original: int, compressed: int) -> int {
    if original == 0 {
        0
    } else if compressed >= original {
        0
    } else {
        (original - compressed) * 100 / original
    }
}

pub fn calculate_compression_percentage(original_size: u64, compressed_size: u64) -> (r: u64)
    requires
        original_size <= u64::MAX / 100,
    ensures
        r == spec_compression_percentage(original_size as int, compressed_size as int),
        r <= 100,
{
    if original_size == 0 {
        return 0;
    }
    if compressed_size >= original_size {
        return 0;
    }
    let reduction = original_size - compressed_size;
    proof {
        vstd::arithmetic::div_mod::lemma_div_is_ordered(
            (reduction * 100) as int,
            (original_size * 100) as int,
            original_size as int,
        );
        vstd::arithmetic::div_mod::lemma_div_by_multiple(100, original_size as int);
    }
    reduction * 100 / original_size
}

/// Two-digit rendering of a value below sixty.
pub open spec fn spec_two_digits(v: int) -> Seq<char> {
    seq![spec_digit_char(v / 10), spec_digit_char(v % 10)]
}

/// A duration in clock form: `M:SS`, or `H:MM:SS` from one hour up.
pub open spec fn spec_format_clock(s: int) -> Seq<char> {
    if s < 3600 {
        spec_decimal(s / 60) + ":"@ + spec_two_digits(s % 60)
    } else {
        spec_decimal(s / 3600) + ":"@ + spec_two_digits(s % 3600 / 60) + ":"@ + spec_two_digits(
            s % 60,
        )
    }
}

fn append_two_digits(out: &mut String, v: u64)
    requires
        v < 60,
    ensures
        final(out)@ == old(out)@ + spec_two_digits(v as int),
{
    append_decimal(out, v / 10);
    append_decimal(out, v % 10);
    proof {
        assert(out@ =~= old(out)@ + spec_two_digits(v as int));
    }
}

/// Formats a duration the way a player clock shows it.
pub fn format_clock(seconds: u64) -> (r: String)
    ensures
        r@ == spec_format_clock(seconds as int),
{
    let mut s = String::new();
    if seconds < 3600 {
        append_decimal(&mut s, seconds / 60);
        s.append(":");
        append_two_digits(&mut s, seconds % 60);
    } else {
        append_decimal(&mut s, seconds / 3600);
        s.append(":");
        append_two_digits(&mut s, seconds % 3600 / 60);
        s.append(":");
        append_two_digits(&mut s, seconds % 60);
    }
    proof {
        assert(s@ =~= spec_format_clock(seconds as int));
    }
    s
}

} // verus!
