//! Progress parsing and scaling: reads the media timestamp out of the
//! encoder's line-oriented progress stream, turns it into a clamped
//! fraction of the known duration, and derives an ETA from elapsed time.
//!
//! Fractions are carried in permille (0 to 1000) so that two-pass scaling
//! and clamping stay exact.

use vstd::prelude::*;

use crate::text::{spec_digit_val, spec_is_digit, str_to_chars};

verus! {

/// A media timestamp `HH:MM:SS.f…` preceded by `time=` starts at `i`.
pub open spec fn spec_timestamp_at(h: Seq<char>, i: int) -> bool {
    &&& 0 <= i
    &&& i + 15 <= h.len()
    &&& h[i] == 't'
    &&& h[i + 1] == 'i'
    &&& h[i + 2] == 'm'
    &&& h[i + 3] == 'e'
    &&& h[i + 4] == '='
    &&& spec_is_digit(h[i + 5])
    &&& spec_is_digit(h[i + 6])
    &&& h[i + 7] == ':'
    &&& spec_is_digit(h[i + 8])
    &&& spec_is_digit(h[i + 9])
    &&& h[i + 10] == ':'
    &&& spec_is_digit(h[i + 11])
    &&& spec_is_digit(h[i + 12])
    &&& h[i + 13] == '.'
    &&& spec_is_digit(h[i + 14])
}

/// The timestamp starting at `i`, in centiseconds of media time; a second
/// fractional digit is read when present.
pub open spec fn spec_timestamp_value_cs(h: Seq<char>, i: int) -> int {
    let hh = spec_digit_val(h[i + 5]) * 10 + spec_digit_val(h[i + 6]);
    let mm = spec_digit_val(h[i + 8]) * 10 + spec_digit_val(h[i + 9]);
    let ss = spec_digit_val(h[i + 11]) * 10 + spec_digit_val(h[i + 12]);
    let f1 = spec_digit_val(h[i + 14]);
    let f2 = if i + 15 < h.len() && spec_is_digit(h[i + 15]) {
        spec_digit_val(h[i + 15])
    } else {
        0
    };
    hh * 360000 + mm * 6000 + ss * 100 + f1 * 10 + f2
}

fn digit_at(v: &Vec<char>, i: usize) -> (r: u64)
    requires
        i < v@.len(),
        spec_is_digit(v@[i as int]),
    ensures
        r == spec_digit_val(v@[i as int]),
        r <= 9,
{
    (v[i] as u32 - 48) as u64
}

fn is_digit_at(v: &Vec<char>, i: usize) -> (r: bool)
    requires
        i < v@.len(),
    ensures
        r == spec_is_digit(v@[i as int]),
{
    let u = v[i] as u32;
    48 <= u && u <= 57
}

fn timestamp_at(v: &Vec<char>, i: usize) -> (r: bool)
    requires
        i + 15 <= v@.len(),
    ensures
        r == spec_timestamp_at(v@, i as int),
{
    let n = v.len();
    v[i] == 't' && v[i + 1] == 'i' && v[i + 2] == 'm' && v[i + 3] == 'e' && v[i + 4] == '='
        && is_digit_at(v, i + 5) && is_digit_at(v, i + 6) && v[i + 7] == ':' && is_digit_at(
        v,
        i + 8,
    ) && is_digit_at(v, i + 9) && v[i + 10] == ':' && is_digit_at(v, i + 11) && is_digit_at(
        v,
        i + 12,
    ) && v[i + 13] == '.' && is_digit_at(v, i + 14)
}

/// Scans one progress line for the first `time=HH:MM:SS.f…` field and
/// returns the media time in centiseconds; `None` exactly when no such
/// field occurs.
pub fn parse_progress_line(line: &str) -> (r: Option<u64>)
    ensures
        match r {
            Some(v) => exists|i: int|
                {
                    &&& #[trigger] spec_timestamp_at(line@, i)
                    &&& forall|j: int| 0 <= j < i ==> !spec_timestamp_at(line@, j)
                    &&& v == spec_timestamp_value_cs(line@, i)
                },
            None => forall|i: int| !spec_timestamp_at(line@, i),
        },
{
    let chars = str_to_chars(line);
    let len = chars.len();
    if len < 15 {
        return None;
    }
    let mut i: usize = 0;
    while i <= len - 15
        invariant
            0 <= i <= len - 15 + 1,
            15 <= len,
            len == line@.len(),
            chars@ == line@,
            forall|j: int| 0 <= j < i ==> !spec_timestamp_at(line@, j),
        decreases len - i,
    {
        if timestamp_at(&chars, i) {
            let hh = digit_at(&chars, i + 5) * 10 + digit_at(&chars, i + 6);
            let mm = digit_at(&chars, i + 8) * 10 + digit_at(&chars, i + 9);
            let ss = digit_at(&chars, i + 11) * 10 + digit_at(&chars, i + 12);
            let f1 = digit_at(&chars, i + 14);
            let f2 = if i + 15 < len && is_digit_at(&chars, i + 15) {
                digit_at(&chars, i + 15)
            } else {
                0
            };
            let v = hh * 360000 + mm * 6000 + ss * 100 + f1 * 10 + f2;
            proof {
                assert(spec_timestamp_at(line@, i as int));
            }
            return Some(v);
        }
        i = i + 1;
    }
    None
}

/// Fraction of the duration reached, clamped to [0, 1], in permille.
pub open spec fn spec_progress_permille(time_cs: int, duration_cs: int) -> int {
    if time_cs * 1000 / duration_cs > 1000 {
        1000
    } else {
        time_cs * 1000 / duration_cs
    }
}

/// Elapsed media time over total duration, clamped to [0, 1], in permille.
pub fn progress_permille(time_cs: u64, duration_cs: u64) -> (r: u32)
    requires
        1 <= duration_cs,
        time_cs <= 0x10_0000_0000_0000,
    ensures
        r == spec_progress_permille(time_cs as int, duration_cs as int),
        r <= 1000,
{
    let scaled = time_cs * 1000 / duration_cs;
    if scaled > 1000 {
        1000
    } else {
        scaled as u32
    }
}

/// During pass one of a two-pass encode, reported progress runs in
/// [0, 500] permille: the raw fraction scaled into the first half.
pub fn first_pass_progress(raw_permille: u32) -> (r: u32)
    requires
        raw_permille <= 1000,
    ensures
        r == raw_permille / 2,
        r <= 500,
{
    raw_permille / 2
}

/// During pass two, reported progress runs in [500, 1000] permille: the
/// raw fraction scaled into the second half.
pub fn second_pass_progress(raw_permille: u32) -> (r: u32)
    requires
        raw_permille <= 1000,
    ensures
        r == 500 + raw_permille / 2,
        500 <= r <= 1000,
{
    500 + raw_permille / 2
}

/// Estimated time to completion: `elapsed * (1 - p) / p`, reported only
/// once progress clears the one-percent threshold (and is not complete),
/// and only while something remains.
pub open spec fn spec_eta_ms(elapsed_ms: int, permille: int) -> Option<int> {
    if 10 < permille < 1000 {
        let remaining = elapsed_ms * (1000 - permille) / permille;
        if remaining > 0 {
            Some(remaining)
        } else {
            None
        }
    } else {
        None
    }
}

pub fn eta_ms(elapsed_ms: u64, permille: u32) -> (r: Option<u64>)
    requires
        permille <= 1000,
        elapsed_ms <= 0x1000_0000_0000,
    ensures
        match r {
            Some(v) => Some(v as int) == spec_eta_ms(elapsed_ms as int, permille as int),
            None => spec_eta_ms(elapsed_ms as int, permille as int) is None,
        },
{
    if 10 < permille && permille < 1000 {
        proof {
            vstd::arithmetic::mul::lemma_mul_upper_bound(
                elapsed_ms as int,
                0x1000_0000_0000,
                (1000 - permille) as int,
                1000,
            );
        }
        let remaining = elapsed_ms * ((1000 - permille) as u64) / (permille as u64);
        if remaining > 0 {
            Some(remaining)
        } else {
            None
        }
    } else {
        None
    }
}

} // verus!
