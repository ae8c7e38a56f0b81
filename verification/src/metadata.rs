//! Interpretation of what the metadata probe reports: the raw fields an
//! external probe extracts for one input file are validated and turned
//! into well-formed `VideoMetadata`. A probe failure is fatal to the
//! request; nothing here is retried.

use vstd::prelude::*;
use vstd::string::*;

use crate::error::CompressionError;
use crate::estimator::{ContentComplexity, VideoMetadata};
use crate::text::{parse_u64, spec_all_digits, spec_digits_value, spec_parsed_u64, str_to_chars};

verus! {

/// The raw fields a probe reports for one input file, still unchecked.
#[derive(Debug, Clone)]
pub struct ProbeFields {
    pub width: Option<u64>,
    pub height: Option<u64>,
    /// Frame rate as a fraction such as `30000/1001`, the preferred field.
    pub r_frame_rate: Option<String>,
    /// Fallback frame-rate fraction.
    pub avg_frame_rate: Option<String>,
    /// Last-resort frame rate, already in thousandths.
    pub fps_direct_millis: Option<u32>,
    /// Duration in seconds as decimal text, from the container.
    pub duration_format: Option<String>,
    /// Fallback duration from the stream.
    pub duration_stream: Option<String>,
    /// Overall bitrate in bits per second, as digits.
    pub bit_rate: Option<String>,
    pub codec_name: Option<String>,
}

/// `d` is the single `/` of `s`, with one or more digits on each side.
pub open spec fn spec_fraction_shape(s: Seq<char>, d: int) -> bool {
    &&& 1 <= d < s.len() - 1
    &&& s[d] == '/'
    &&& forall|j: int| 0 <= j < s.len() && j != d ==> s[j] != '/'
    &&& spec_all_digits(s.take(d))
    &&& spec_all_digits(s.skip(d + 1))
}

/// The fraction reads as a frame rate: both sides parse, the denominator
/// is positive, and the value in thousandths fits the metadata bounds.
pub open spec fn spec_fraction_ok(s: Seq<char>) -> bool {
    exists|d: int|
        {
            &&& #[trigger] spec_fraction_shape(s, d)
            &&& spec_digits_value(s.take(d)) <= 0x10_0000_0000_0000
            &&& spec_digits_value(s.skip(d + 1)) > 0
            &&& spec_digits_value(s.skip(d + 1)) <= u64::MAX
        }
}

/// The frame rate in thousandths that the fraction denotes.
pub open spec fn spec_fraction_millis(s: Seq<char>) -> int {
    let d = choose|d: int| #[trigger] spec_fraction_shape(s, d);
    spec_digits_value(s.take(d)) * 1000 / spec_digits_value(s.skip(d + 1))
}

/// Reads a fraction such as `30/1` or `30000/1001` as a frame rate in
/// thousandths of a frame per second (truncated).
pub fn parse_fraction(fraction: &str) -> (r: Option<u64>)
    ensures
        spec_fraction_ok(fraction@) ==> 0 <= spec_fraction_millis(fraction@) <= u64::MAX && r
            == Some(spec_fraction_millis(fraction@) as u64),
        !spec_fraction_ok(fraction@) ==> r is None,
{
    let len = fraction.unicode_len();
    let chars = str_to_chars(fraction);
    // Find the slashes.
    let mut slashes: usize = 0;
    let mut first: usize = 0;
    let mut second: usize = 0;
    let mut i: usize = 0;
    while i < len
        invariant
            0 <= i <= len,
            len == fraction@.len(),
            chars@ == fraction@,
            slashes <= i,
            slashes == 0 ==> forall|j: int| 0 <= j < i ==> fraction@[j] != '/',
            slashes >= 1 ==> first < i && fraction@[first as int] == '/' && forall|j: int|
                0 <= j < i && j != first ==> (slashes == 1 ==> fraction@[j] != '/'),
            slashes >= 2 ==> second < i && second != first && fraction@[second as int] == '/',
        decreases len - i,
    {
        if chars[i] == '/' {
            if slashes == 0 {
                first = i;
            } else if slashes == 1 {
                second = i;
            }
            slashes = slashes + 1;
        }
        i = i + 1;
    }
    if slashes != 1 {
        proof {
            assert forall|d: int| !spec_fraction_shape(fraction@, d) by {
                if 0 <= d < fraction@.len() {
                    if slashes == 0 {
                    } else {
                        if d == first {
                            assert(fraction@[second as int] == '/');
                        } else {
                            assert(fraction@[first as int] == '/');
                        }
                    }
                }
            }
        }
        return None;
    }
    let d = first;
    if d == 0 || d + 1 >= len {
        proof {
            assert forall|k: int| !spec_fraction_shape(fraction@, k) by {
                if 0 <= k < fraction@.len() && fraction@[k] == '/' {
                    assert(k == d);
                }
            }
        }
        return None;
    }
    let num_str = fraction.substring_char(0, d);
    let den_str = fraction.substring_char(d + 1, len);
    proof {
        assert(num_str@ =~= fraction@.take(d as int));
        assert(den_str@ =~= fraction@.skip(d + 1));
    }
    let num = match parse_u64(num_str) {
        Some(n) => n,
        None => {
            proof {
                lemma_shape_unique(fraction@, d as int);
            }
            return None;
        },
    };
    let den = match parse_u64(den_str) {
        Some(n) => n,
        None => {
            proof {
                lemma_shape_unique(fraction@, d as int);
            }
            return None;
        },
    };
    if den == 0 || num > 0x10_0000_0000_0000 {
        proof {
            lemma_shape_unique(fraction@, d as int);
        }
        return None;
    }
    proof {
        assert(spec_fraction_shape(fraction@, d as int));
        lemma_shape_unique(fraction@, d as int);
    }
    Some(num * 1000 / den)
}

/// Only one position can hold the single slash of a well-shaped fraction.
proof fn lemma_shape_unique(s: Seq<char>, d: int)
    requires
        0 <= d < s.len(),
        s[d] == '/',
    ensures
        forall|k: int| #[trigger] spec_fraction_shape(s, k) ==> k == d,
{
}

/// `d` is the single `.` of `s`, with one or more digits before it and
/// only digits after it.
pub open spec fn spec_decimal_point_shape(s: Seq<char>, d: int) -> bool {
    &&& 1 <= d < s.len()
    &&& s[d] == '.'
    &&& forall|j: int| 0 <= j < s.len() && j != d ==> s[j] != '.'
    &&& spec_all_digits(s.take(d))
    &&& spec_all_digits(s.skip(d + 1))
}

/// The text reads as a non-negative decimal number of seconds whose whole
/// part fits.
pub open spec fn spec_decimal_seconds_ok(s: Seq<char>) -> bool {
    ||| (s.len() > 0 && spec_all_digits(s) && spec_digits_value(s) <= u64::MAX)
    ||| exists|d: int| #[trigger]
        spec_decimal_point_shape(s, d) && spec_digits_value(s.take(d)) <= u64::MAX
}

/// The whole seconds the text denotes (the fraction is truncated).
pub open spec fn spec_decimal_seconds(s: Seq<char>) -> int {
    if s.len() > 0 && spec_all_digits(s) {
        spec_digits_value(s)
    } else {
        let d = choose|d: int| #[trigger] spec_decimal_point_shape(s, d);
        spec_digits_value(s.take(d))
    }
}

/// Reads decimal text such as `60.063` as whole seconds, truncating the
/// fractional part.
pub fn parse_decimal_seconds(text: &str) -> (r: Option<u64>)
    ensures
        spec_decimal_seconds_ok(text@) ==> 0 <= spec_decimal_seconds(text@) <= u64::MAX && r
            == Some(spec_decimal_seconds(text@) as u64),
        !spec_decimal_seconds_ok(text@) ==> r is None,
{
    let len = text.unicode_len();
    let chars = str_to_chars(text);
    let mut dots: usize = 0;
    let mut first: usize = 0;
    let mut second: usize = 0;
    let mut i: usize = 0;
    while i < len
        invariant
            0 <= i <= len,
            len == text@.len(),
            chars@ == text@,
            dots <= i,
            dots == 0 ==> forall|j: int| 0 <= j < i ==> text@[j] != '.',
            dots >= 1 ==> first < i && text@[first as int] == '.' && forall|j: int|
                0 <= j < i && j != first ==> (dots == 1 ==> text@[j] != '.'),
            dots >= 2 ==> second < i && second != first && text@[second as int] == '.',
        decreases len - i,
    {
        if chars[i] == '.' {
            if dots == 0 {
                first = i;
            } else if dots == 1 {
                second = i;
            }
            dots = dots + 1;
        }
        i = i + 1;
    }
    if dots == 0 {
        proof {
            assert forall|d: int| !spec_decimal_point_shape(text@, d) by {}
        }
        return parse_u64(text);
    }
    if dots >= 2 {
        proof {
            assert forall|d: int| !spec_decimal_point_shape(text@, d) by {
                if 0 <= d < text@.len() {
                    if d == first {
                        assert(text@[second as int] == '.');
                    } else {
                        assert(text@[first as int] == '.');
                    }
                }
            }
            assert(text@[first as int] == '.');
            assert(!spec_all_digits(text@));
        }
        return None;
    }
    let d = first;
    proof {
        assert(text@[d as int] == '.');
        assert(!spec_all_digits(text@));
        assert forall|k: int| #[trigger] spec_decimal_point_shape(text@, k) implies k == d by {}
    }
    if d == 0 {
        return None;
    }
    let int_str = text.substring_char(0, d);
    let frac_str = text.substring_char(d + 1, len);
    proof {
        assert(int_str@ =~= text@.take(d as int));
        assert(frac_str@ =~= text@.skip(d + 1));
    }
    // The fractional digits are only checked, then discarded.
    let mut k: usize = 0;
    let flen = len - d - 1;
    while k < flen
        invariant
            0 <= k <= flen,
            len == text@.len(),
            d < text@.len(),
            flen == frac_str@.len(),
            frac_str@ == text@.skip(d + 1),
            text@[d as int] == '.',
            spec_all_digits(frac_str@.take(k as int)),
        decreases flen - k,
    {
        let c = frac_str.get_char(k);
        let u = c as u32;
        if u < 48 || u > 57 {
            proof {
                assert(!crate::text::spec_is_digit(frac_str@[k as int]));
                assert(!crate::text::spec_is_digit(text@[d as int]));
                assert(!spec_all_digits(text@));
                assert forall|j: int| !spec_decimal_point_shape(text@, j) by {
                    if spec_decimal_point_shape(text@, j) {
                        if j != d {
                            assert(text@[d as int] != '.');
                        }
                        assert(j == d);
                        assert(spec_all_digits(text@.skip(d + 1)));
                        assert(text@.skip(d + 1)[k as int] == frac_str@[k as int]);
                        assert(crate::text::spec_is_digit(text@.skip(d + 1)[k as int]));
                    }
                }
                assert(!spec_decimal_seconds_ok(text@));
            }
            return None;
        }
        proof {
            assert(frac_str@.take(k + 1).drop_last() =~= frac_str@.take(k as int));
        }
        k = k + 1;
    }
    proof {
        assert(frac_str@.take(flen as int) =~= frac_str@);
        assert(spec_all_digits(text@.skip(d + 1)));
    }
    match parse_u64(int_str) {
        Some(v) => {
            proof {
                assert(spec_decimal_point_shape(text@, d as int));
                assert(!spec_all_digits(text@));
            }
            Some(v)
        },
        None => {
            proof {
                assert(!spec_all_digits(text@));
                assert forall|j: int| #[trigger]
                    spec_decimal_point_shape(text@, j) implies !(spec_digits_value(text@.take(j))
                    <= u64::MAX) by {
                    assert(j == d);
                }
            }
            None
        },
    }
}

/// The frame rate the probe fields yield: the preferred fraction, then the
/// fallback fraction, then the direct field; `None` when nothing parses.
pub open spec fn spec_fps_millis_of(f: ProbeFields) -> Option<int> {
    match f.r_frame_rate {
        Some(s) => if spec_fraction_ok(s@) {
            Some(spec_fraction_millis(s@))
        } else {
            spec_fps_fallback_of(f)
        },
        None => spec_fps_fallback_of(f),
    }
}

pub open spec fn spec_fps_fallback_of(f: ProbeFields) -> Option<int> {
    match f.avg_frame_rate {
        Some(s) => if spec_fraction_ok(s@) {
            Some(spec_fraction_millis(s@))
        } else {
            match f.fps_direct_millis {
                Some(v) => Some(v as int),
                None => None,
            }
        },
        None => match f.fps_direct_millis {
            Some(v) => Some(v as int),
            None => None,
        },
    }
}

/// The duration the probe fields yield: the container field first, the
/// stream field as fallback.
pub open spec fn spec_duration_of(f: ProbeFields) -> Option<int> {
    match f.duration_format {
        Some(s) => if spec_decimal_seconds_ok(s@) {
            Some(spec_decimal_seconds(s@))
        } else {
            spec_duration_fallback_of(f)
        },
        None => spec_duration_fallback_of(f),
    }
}

pub open spec fn spec_duration_fallback_of(f: ProbeFields) -> Option<int> {
    match f.duration_stream {
        Some(s) => if spec_decimal_seconds_ok(s@) {
            Some(spec_decimal_seconds(s@))
        } else {
            None
        },
        None => None,
    }
}

/// The source bitrate in kbps, when the probe reported one that parses.
pub open spec fn spec_bitrate_kbps_of(f: ProbeFields) -> Option<u32> {
    match f.bit_rate {
        Some(s) => match spec_parsed_u64(s@) {
            Some(v) => if v / 1000 <= u32::MAX {
                Some((v / 1000) as u32)
            } else {
                None
            },
            None => None,
        },
        None => None,
    }
}

/// All checks a probe result must pass before metadata is built from it.
pub open spec fn spec_probe_ok(f: ProbeFields) -> bool {
    &&& match f.width {
        Some(w) => 1 <= w <= 16384,
        None => false,
    }
    &&& match f.height {
        Some(h) => 1 <= h <= 16384,
        None => false,
    }
    &&& match spec_fps_millis_of(f) {
        Some(v) => 1 <= v <= 1000000,
        None => false,
    }
    &&& match spec_duration_of(f) {
        Some(v) => 1 <= v <= 100000000,
        None => false,
    }
}

fn fps_millis_of(f: &ProbeFields) -> (r: Option<u64>)
    ensures
        match spec_fps_millis_of(*f) {
            Some(v) => 0 <= v <= u64::MAX && r == Some(v as u64),
            None => r is None,
        },
{
    match &f.r_frame_rate {
        Some(s) => match parse_fraction(s.as_str()) {
            Some(v) => Some(v),
            None => fps_fallback_of(f),
        },
        None => fps_fallback_of(f),
    }
}

fn fps_fallback_of(f: &ProbeFields) -> (r: Option<u64>)
    requires
        match f.r_frame_rate {
            Some(s) => !spec_fraction_ok(s@),
            None => true,
        },
    ensures
        match spec_fps_millis_of(*f) {
            Some(v) => 0 <= v <= u64::MAX && r == Some(v as u64),
            None => r is None,
        },
{
    match &f.avg_frame_rate {
        Some(s) => match parse_fraction(s.as_str()) {
            Some(v) => Some(v),
            None => match f.fps_direct_millis {
                Some(v) => Some(v as u64),
                None => None,
            },
        },
        None => match f.fps_direct_millis {
            Some(v) => Some(v as u64),
            None => None,
        },
    }
}

fn duration_of(f: &ProbeFields) -> (r: Option<u64>)
    ensures
        match spec_duration_of(*f) {
            Some(v) => 0 <= v <= u64::MAX && r == Some(v as u64),
            None => r is None,
        },
{
    match &f.duration_format {
        Some(s) => match parse_decimal_seconds(s.as_str()) {
            Some(v) => Some(v),
            None => duration_fallback_of(f),
        },
        None => duration_fallback_of(f),
    }
}

fn duration_fallback_of(f: &ProbeFields) -> (r: Option<u64>)
    requires
        match f.duration_format {
            Some(s) => !spec_decimal_seconds_ok(s@),
            None => true,
        },
    ensures
        match spec_duration_of(*f) {
            Some(v) => 0 <= v <= u64::MAX && r == Some(v as u64),
            None => r is None,
        },
{
    match &f.duration_stream {
        Some(s) => match parse_decimal_seconds(s.as_str()) {
            Some(v) => Some(v),
            None => None,
        },
        None => None,
    }
}

/// Validates a probe's raw fields and builds well-formed metadata: the
/// dimensions and frame rate are bounds-checked, the duration must be at
/// least one second, the source bitrate is optional, and the content
/// complexity is derived from it. Any missing or malformed required field
/// is a fatal probe failure.
pub fn interpret_probe(fields: &ProbeFields) -> (r: Result<VideoMetadata, CompressionError>)
    ensures
        match r {
            Ok(m) => {
                &&& spec_probe_ok(*fields)
                &&& Some(m.width as u64) == fields.width
                &&& Some(m.height as u64) == fields.height
                &&& Some(m.fps_millis as int) == spec_fps_millis_of(*fields)
                &&& Some(m.duration_seconds as int) == spec_duration_of(*fields)
                &&& m.bitrate_kbps == spec_bitrate_kbps_of(*fields)
                &&& m.codec@ == (match fields.codec_name {
                    Some(s) => s@,
                    None => "unknown"@,
                })
                &&& m.estimated_complexity == (VideoMetadata {
                    estimated_complexity: ContentComplexity::Medium,
                    ..m
                }).spec_complexity_from_bitrate()
                &&& m.wf()
            },
            Err(e) => {
                &&& !spec_probe_ok(*fields)
                &&& e matches CompressionError::MetadataProbeFailed { .. }
            },
        },
{
    let width64 = match fields.width {
        Some(w) => w,
        None => {
            return Err(
                CompressionError::MetadataProbeFailed {
                    message: String::from_str("missing video width"),
                },
            );
        },
    };
    let height64 = match fields.height {
        Some(h) => h,
        None => {
            return Err(
                CompressionError::MetadataProbeFailed {
                    message: String::from_str("missing video height"),
                },
            );
        },
    };
    if width64 < 1 || width64 > 16384 || height64 < 1 || height64 > 16384 {
        return Err(
            CompressionError::MetadataProbeFailed {
                message: String::from_str("video dimensions out of range"),
            },
        );
    }
    let fps64 = match fps_millis_of(fields) {
        Some(v) => v,
        None => {
            return Err(
                CompressionError::MetadataProbeFailed {
                    message: String::from_str("failed to parse frame rate"),
                },
            );
        },
    };
    if fps64 < 1 || fps64 > 1000000 {
        return Err(
            CompressionError::MetadataProbeFailed {
                message: String::from_str("frame rate out of range"),
            },
        );
    }
    let duration64 = match duration_of(fields) {
        Some(v) => v,
        None => {
            return Err(
                CompressionError::MetadataProbeFailed {
                    message: String::from_str("failed to read video duration"),
                },
            );
        },
    };
    if duration64 < 1 || duration64 > 100000000 {
        return Err(
            CompressionError::MetadataProbeFailed {
                message: String::from_str("video duration out of range"),
            },
        );
    }
    let bitrate_kbps: Option<u32> = match &fields.bit_rate {
        Some(s) => match parse_u64(s.as_str()) {
            Some(v) => {
                if v / 1000 <= 0xFFFF_FFFF {
                    Some((v / 1000) as u32)
                } else {
                    None
                }
            },
            None => None,
        },
        None => None,
    };
    let codec = match &fields.codec_name {
        Some(s) => s.clone(),
        None => String::from_str("unknown"),
    };
    let mut metadata = VideoMetadata {
        width: width64 as u32,
        height: height64 as u32,
        fps_millis: fps64 as u32,
        duration_seconds: duration64 as u32,
        bitrate_kbps,
        codec,
        estimated_complexity: ContentComplexity::Medium,
    };
    metadata.estimate_complexity_from_bitrate();
    Ok(metadata)
}

} // verus!
