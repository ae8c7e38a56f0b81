//! File-name logic: deterministic output-name generation that never
//! clobbers an existing file, unique-name fallback, extension handling and
//! file-name sanitizing. All of it works on plain names; the caller looks
//! up which names are taken and joins directories.

use vstd::prelude::*;
use vstd::string::*;

use crate::text::{append_decimal, push_char, spec_decimal, spec_lower_chars};

verus! {

/// How many output-name candidates exist: the plain suffix, three
/// alternative suffixes, and 999 numbered fallbacks.
pub const OUTPUT_CANDIDATE_COUNT: usize = 1003;

/// The `k`-th candidate output name for an input stem: the disambiguating
/// suffixes in fixed order, then numbered names.
pub open spec fn spec_candidate_name(stem: Seq<char>, k: int) -> Seq<char> {
    if k == 0 {
        stem + "_compressed.mp4"@
    } else if k == 1 {
        stem + "_small.mp4"@
    } else if k == 2 {
        stem + "_squeezed.mp4"@
    } else if k == 3 {
        stem + "_compact.mp4"@
    } else {
        stem + "_compressed_"@ + spec_decimal(k - 3) + ".mp4"@
    }
}

/// A name equal to `n` stands in the taken list.
pub open spec fn spec_name_taken(taken: Seq<String>, n: Seq<char>) -> bool {
    exists|i: int| 0 <= i < taken.len() && (#[trigger] taken[i])@ == n
}

/// Builds the `k`-th candidate output name.
pub fn candidate_output_name(stem: &str, k: usize) -> (r: String)
    requires
        k < OUTPUT_CANDIDATE_COUNT,
    ensures
        r@ == spec_candidate_name(stem@, k as int),
{
    let mut s = String::from_str(stem);
    if k == 0 {
        s.append("_compressed.mp4");
    } else if k == 1 {
        s.append("_small.mp4");
    } else if k == 2 {
        s.append("_squeezed.mp4");
    } else if k == 3 {
        s.append("_compact.mp4");
    } else {
        s.append("_compressed_");
        append_decimal(&mut s, (k - 3) as u64);
        s.append(".mp4");
    }
    proof {
        assert(s@ =~= spec_candidate_name(stem@, k as int));
    }
    s
}

/// Whether the taken list holds a name equal to `n`.
pub fn name_is_taken(taken: &Vec<String>, n: &String) -> (b: bool)
    ensures
        b == spec_name_taken(taken@, n@),
{
    let mut i: usize = 0;
    while i < taken.len()
        invariant
            0 <= i <= taken@.len(),
            forall|j: int| 0 <= j < i ==> (#[trigger] taken@[j])@ != n@,
        decreases taken@.len() - i,
    {
        if taken[i] == *n {
            return true;
        }
        i = i + 1;
    }
    false
}

/// Picks the output name for an input stem: the first candidate, in the
/// fixed order, that no existing name equals. The result never collides
/// with a taken name; `None` comes only when every candidate is taken.
pub fn generate_output_path(stem: &str, taken: &Vec<String>) -> (r: Option<String>)
    ensures
        match r {
            Some(name) => {
                &&& !spec_name_taken(taken@, name@)
                &&& exists|k: int|
                    {
                        &&& 0 <= k < OUTPUT_CANDIDATE_COUNT
                        &&& name@ == spec_candidate_name(stem@, k)
                        &&& forall|j: int|
                            0 <= j < k ==> spec_name_taken(
                                taken@,
                                #[trigger] spec_candidate_name(stem@, j),
                            )
                    }
            },
            None => forall|k: int|
                0 <= k < OUTPUT_CANDIDATE_COUNT ==> spec_name_taken(
                    taken@,
                    #[trigger] spec_candidate_name(stem@, k),
                ),
        },
{
    let mut k: usize = 0;
    while k < OUTPUT_CANDIDATE_COUNT
        invariant
            0 <= k <= OUTPUT_CANDIDATE_COUNT,
            forall|j: int|
                0 <= j < k ==> spec_name_taken(taken@, #[trigger] spec_candidate_name(stem@, j)),
        decreases OUTPUT_CANDIDATE_COUNT - k,
    {
        let candidate = candidate_output_name(stem, k);
        if !name_is_taken(taken, &candidate) {
            return Some(candidate);
        }
        k = k + 1;
    }
    None
}

/// The `k`-th unique-name candidate: the base name itself, then the stem
/// with `_k` wedged in front of the extension.
pub open spec fn spec_unique_candidate(stem: Seq<char>, ext: Seq<char>, k: int) -> Seq<char> {
    let dot_ext = if ext.len() == 0 {
        Seq::<char>::empty()
    } else {
        "."@ + ext
    };
    if k == 0 {
        stem + dot_ext
    } else {
        stem + "_"@ + spec_decimal(k) + dot_ext
    }
}

/// How many unique-name candidates are tried: the base name and 999
/// numbered variants.
pub const UNIQUE_CANDIDATE_COUNT: usize = 1000;

fn unique_candidate(stem: &str, ext: &str, k: usize) -> (r: String)
    requires
        k < UNIQUE_CANDIDATE_COUNT,
    ensures
        r@ == spec_unique_candidate(stem@, ext@, k as int),
{
    let mut s = String::from_str(stem);
    if k > 0 {
        s.append("_");
        append_decimal(&mut s, k as u64);
    }
    if ext.unicode_len() > 0 {
        s.append(".");
        s.append(ext);
    }
    proof {
        assert(s@ =~= spec_unique_candidate(stem@, ext@, k as int));
    }
    s
}

/// Finds a file name not yet taken: the base name when it is free, else
/// the first numbered variant that is. `None` only after 999 collisions.
pub fn generate_unique_filename(stem: &str, extension: &str, taken: &Vec<String>) -> (r: Option<
    String,
>)
    ensures
        match r {
            Some(name) => {
                &&& !spec_name_taken(taken@, name@)
                &&& exists|k: int|
                    {
                        &&& 0 <= k < UNIQUE_CANDIDATE_COUNT
                        &&& name@ == spec_unique_candidate(stem@, extension@, k)
                        &&& forall|j: int|
                            0 <= j < k ==> spec_name_taken(
                                taken@,
                                #[trigger] spec_unique_candidate(stem@, extension@, j),
                            )
                    }
            },
            None => forall|k: int|
                0 <= k < UNIQUE_CANDIDATE_COUNT ==> spec_name_taken(
                    taken@,
                    #[trigger] spec_unique_candidate(stem@, extension@, k),
                ),
        },
{
    let mut k: usize = 0;
    while k < UNIQUE_CANDIDATE_COUNT
        invariant
            0 <= k <= UNIQUE_CANDIDATE_COUNT,
            forall|j: int|
                0 <= j < k ==> spec_name_taken(
                    taken@,
                    #[trigger] spec_unique_candidate(stem@, extension@, j),
                ),
        decreases UNIQUE_CANDIDATE_COUNT - k,
    {
        let candidate = unique_candidate(stem, extension, k);
        if !name_is_taken(taken, &candidate) {
            return Some(candidate);
        }
        k = k + 1;
    }
    None
}

/// Index of the last `.` of a name, or -1 when there is none.
pub open spec fn spec_last_dot(s: Seq<char>) -> int
    decreases s.len(),
{
    if s.len() == 0 {
        -1
    } else if s.last() == '.' {
        s.len() - 1
    } else {
        spec_last_dot(s.drop_last())
    }
}

/// The extension of a file name: what follows the last `.`, lower-cased;
/// none when there is no `.` or it only starts a hidden name.
pub open spec fn spec_extension_of(s: Seq<char>) -> Option<Seq<char>> {
    let d = spec_last_dot(s);
    if d <= 0 {
        None
    } else {
        Some(spec_lower_chars(s.skip(d + 1)))
    }
}

/// The extension of a file name, lower-cased, if it has one.
pub fn get_file_extension(name: &str) -> (r: Option<String>)
    ensures
        match r {
            Some(e) => spec_extension_of(name@) == Some(e@),
            None => spec_extension_of(name@) is None,
        },
{
    let chars = crate::text::str_to_chars(name);
    let n = chars.len();
    // Forward scan for the last dot.
    let mut ld: Option<usize> = None;
    let mut i: usize = 0;
    while i < n
        invariant
            0 <= i <= n,
            n == name@.len(),
            chars@ == name@,
            match ld {
                None => spec_last_dot(name@.take(i as int)) == -1,
                Some(x) => x < i && spec_last_dot(name@.take(i as int)) == x,
            },
        decreases n - i,
    {
        proof {
            assert(name@.take(i + 1).last() == name@[i as int]);
            assert(name@.take(i + 1).drop_last() =~= name@.take(i as int));
        }
        if chars[i] == '.' {
            ld = Some(i);
        }
        i = i + 1;
    }
    proof {
        assert(name@.take(n as int) =~= name@);
    }
    let d: usize = match ld {
        None => {
            return None;
        },
        Some(x) => {
            if x == 0 {
                return None;
            }
            x + 1
        },
    };
    // The dot sits at d - 1; the extension follows it.
    let mut e = String::new();
    let mut i: usize = d;
    while i < n
        invariant
            d <= i <= n,
            n == name@.len(),
            chars@ == name@,
            e@ =~= spec_lower_chars(name@.skip(d as int).take(i - d)),
        decreases n - i,
    {
        proof {
            assert(name@.skip(d as int).take(i - d + 1).drop_last() =~= name@.skip(d as int).take(
                i - d,
            ));
            assert(name@.skip(d as int).take(i - d + 1).last() == name@[i as int]);
        }
        let c = crate::text::ascii_lower_char(chars[i]);
        push_char(&mut e, c);
        proof {
            assert(e@ =~= spec_lower_chars(name@.skip(d as int).take(i - d + 1)));
        }
        i = i + 1;
    }
    proof {
        assert(name@.skip(d as int).take(n - d) =~= name@.skip(d as int));
        assert(spec_last_dot(name@) == d - 1);
    }
    Some(e)
}

/// Extensions recognized as video containers.
pub open spec fn spec_is_video_extension(e: Seq<char>) -> bool {
    ||| e == "mp4"@
    ||| e == "mkv"@
    ||| e == "avi"@
    ||| e == "mov"@
    ||| e == "wmv"@
    ||| e == "flv"@
    ||| e == "webm"@
    ||| e == "m4v"@
    ||| e == "mpg"@
    ||| e == "mpeg"@
    ||| e == "3gp"@
    ||| e == "asf"@
    ||| e == "rm"@
    ||| e == "rmvb"@
    ||| e == "ts"@
    ||| e == "mts"@
}

pub open spec fn spec_is_video_file(name: Seq<char>) -> bool {
    match spec_extension_of(name) {
        Some(e) => spec_is_video_extension(e),
        None => false,
    }
}

/// Whether an owned string equals a literal.
pub fn string_eq_lit(s: &String, lit: &str) -> (b: bool)
    ensures
        b == (s@ == lit@),
{
    let o = String::from_str(lit);
    *s == o
}

/// Whether the name carries a recognized video-container extension
/// (matched case-insensitively).
pub fn is_video_file(name: &str) -> (b: bool)
    ensures
        b == spec_is_video_file(name@),
{
    match get_file_extension(name) {
        Some(e) => string_eq_lit(&e, "mp4") || string_eq_lit(&e, "mkv") || string_eq_lit(&e, "avi")
            || string_eq_lit(&e, "mov") || string_eq_lit(&e, "wmv") || string_eq_lit(&e, "flv")
            || string_eq_lit(&e, "webm") || string_eq_lit(&e, "m4v") || string_eq_lit(&e, "mpg")
            || string_eq_lit(&e, "mpeg") || string_eq_lit(&e, "3gp") || string_eq_lit(&e, "asf")
            || string_eq_lit(&e, "rm") || string_eq_lit(&e, "rmvb") || string_eq_lit(&e, "ts")
            || string_eq_lit(&e, "mts"),
        None => false,
    }
}

} // verus!
