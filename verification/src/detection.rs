//! Pure pieces of hardware detection: parsing what the vendor probe tools
//! print, deriving the encoder set a device generation supports, and the
//! fixed per-backend tuning tables. The probes themselves run outside the
//! library and hand their raw text in.

use vstd::prelude::*;
use vstd::string::*;

use crate::capabilities::CudaDevice;
use crate::encoders::HardwareEncoder;
use crate::text::{
    contains_pattern, lower_chars, parse_u64, spec_contains_seq, spec_lower_chars, spec_parsed_u64,
    str_to_chars,
};

verus! {

/// What the AMD probe learned of one GPU.
#[derive(Debug, Clone)]
pub struct AmdGpuInfo {
    pub name: String,
    pub memory_mb: u64,
    pub architecture: String,
    pub vce_version: String,
}

/// What the Intel probe learned of one GPU.
#[derive(Debug, Clone)]
pub struct IntelGpuInfo {
    pub name: String,
    pub generation: String,
    pub quicksync_version: String,
    pub execution_units: u32,
}

/// One platform-native acceleration method.
#[derive(Debug, Clone)]
pub struct PlatformHwAccel {
    pub name: String,
    pub description: String,
    pub codec_support: Vec<String>,
    pub platform: String,
}

/// How many times `c` occurs in `s`.
pub open spec fn spec_count_char(s: Seq<char>, c: char) -> int
    decreases s.len(),
{
    if s.len() == 0 {
        0
    } else {
        spec_count_char(s.drop_last(), c) + (if s.last() == c {
            1int
        } else {
            0int
        })
    }
}

/// The number a field parses to, or zero when it does not parse as an
/// unsigned 32-bit number.
pub open spec fn spec_u32_or_zero(s: Seq<char>) -> u32 {
    match spec_parsed_u64(s) {
        Some(v) => if v <= u32::MAX {
            v as u32
        } else {
            0
        },
        None => 0,
    }
}

fn parse_u32_or_zero(s: &str) -> (r: u32)
    ensures
        r == spec_u32_or_zero(s@),
{
    match parse_u64(s) {
        Some(v) => {
            if v <= 0xFFFF_FFFF {
                v as u32
            } else {
                0
            }
        },
        None => 0,
    }
}

/// Scans for a separator: how many there are, and where the first two sit.
fn scan_char(s: &str, sep: char) -> (r: (usize, usize))
    ensures
        r.0 == spec_count_char(s@, sep),
        spec_count_char(s@, sep) > 0 ==> r.1 < s@.len() && s@[r.1 as int] == sep && forall|j: int|
            0 <= j < r.1 ==> s@[j] != sep,
{
    let chars = str_to_chars(s);
    let len = chars.len();
    let mut count: usize = 0;
    let mut first: usize = 0;
    let mut i: usize = 0;
    while i < len
        invariant
            0 <= i <= len,
            len == s@.len(),
            chars@ == s@,
            count == spec_count_char(s@.take(i as int), sep),
            count <= i,
            count > 0 ==> first < i && s@[first as int] == sep && forall|j: int|
                0 <= j < first ==> s@[j] != sep,
            count == 0 ==> forall|j: int| 0 <= j < i ==> s@[j] != sep,
        decreases len - i,
    {
        proof {
            assert(s@.take(i + 1).drop_last() =~= s@.take(i as int));
            assert(s@.take(i + 1).last() == s@[i as int]);
        }
        if chars[i] == sep {
            if count == 0 {
                first = i;
            }
            count = count + 1;
        }
        i = i + 1;
    }
    proof {
        assert(s@.take(len as int) =~= s@);
    }
    (count, first)
}

/// The compute-capability pair a probe field such as `8.6` denotes; a
/// field without exactly one dot reads as zero.
pub open spec fn spec_cc_of(s: Seq<char>) -> (u32, u32) {
    if spec_count_char(s, '.') == 1 {
        let d = choose|d: int| 0 <= d < s.len() && s[d] == '.';
        (spec_u32_or_zero(s.take(d)), spec_u32_or_zero(s.skip(d + 1)))
    } else {
        (0, 0)
    }
}

/// Reads a compute capability such as `8.6` into its major and minor
/// parts.
pub fn parse_compute_capability(text: &str) -> (r: (u32, u32))
    ensures
        r == spec_cc_of(text@),
{
    let (count, first) = scan_char(text, '.');
    if count != 1 {
        proof {
            if spec_count_char(text@, '.') == 1 {
            }
        }
        return (0, 0);
    }
    let len = text.unicode_len();
    let major_str = text.substring_char(0, first);
    let minor_str = text.substring_char(first + 1, len);
    proof {
        assert(major_str@ =~= text@.take(first as int));
        assert(minor_str@ =~= text@.skip(first + 1));
        let d = choose|d: int| 0 <= d < text@.len() && text@[d] == '.';
        assert(text@[first as int] == '.');
        if d != first {
            lemma_count_char_two(text@, '.', d, first as int);
        }
    }
    (parse_u32_or_zero(major_str), parse_u32_or_zero(minor_str))
}

/// Two distinct occurrences mean the count is at least two.
proof fn lemma_count_char_two(s: Seq<char>, c: char, a: int, b: int)
    requires
        0 <= a < s.len(),
        0 <= b < s.len(),
        a != b,
        s[a] == c,
        s[b] == c,
    ensures
        spec_count_char(s, c) >= 2,
    decreases s.len(),
{
    lemma_count_char_at(s, c, if a > b {
        a
    } else {
        b
    });
    let hi = if a > b {
        a
    } else {
        b
    };
    let lo = if a > b {
        b
    } else {
        a
    };
    lemma_count_char_split(s, c, hi, lo);
}

proof fn lemma_count_char_nonneg(s: Seq<char>, c: char)
    ensures
        spec_count_char(s, c) >= 0,
    decreases s.len(),
{
    if s.len() > 0 {
        lemma_count_char_nonneg(s.drop_last(), c);
    }
}

/// A position holding `c` contributes to the count.
proof fn lemma_count_char_at(s: Seq<char>, c: char, i: int)
    requires
        0 <= i < s.len(),
        s[i] == c,
    ensures
        spec_count_char(s, c) >= 1,
    decreases s.len(),
{
    lemma_count_char_nonneg(s, c);
    if i < s.len() - 1 {
        lemma_count_char_at(s.drop_last(), c, i);
    } else {
        lemma_count_char_nonneg(s.drop_last(), c);
    }
}

proof fn lemma_count_char_split(s: Seq<char>, c: char, hi: int, lo: int)
    requires
        0 <= lo < hi < s.len(),
        s[hi] == c,
        s[lo] == c,
    ensures
        spec_count_char(s, c) >= 2,
    decreases s.len(),
{
    if hi == s.len() - 1 {
        lemma_count_char_at(s.drop_last(), c, lo);
    } else {
        lemma_count_char_split(s.drop_last(), c, hi, lo);
    }
}

/// Session limits by device generation, used when the probe does not
/// report one.
pub open spec fn spec_estimated_sessions(cc_major: u32) -> u32 {
    if 8 <= cc_major && cc_major <= 9 {
        5
    } else if cc_major == 7 {
        3
    } else if cc_major == 6 {
        2
    } else {
        1
    }
}

pub fn estimate_max_concurrent_sessions(cc_major: u32, cc_minor: u32) -> (r: u32)
    ensures
        r == spec_estimated_sessions(cc_major),
{
    let _ = cc_minor;
    if 8 <= cc_major && cc_major <= 9 {
        5
    } else if cc_major == 7 {
        3
    } else if cc_major == 6 {
        2
    } else {
        1
    }
}

/// Reads one comma-separated device line of the accelerator listing tool:
/// index, name, compute capability, memory, and optionally the session
/// limit. `None` when the line is too short or the index does not parse.
pub fn parse_nvidia_smi_line(parts: &Vec<String>) -> (r: Option<CudaDevice>)
    ensures
        match r {
            Some(d) => {
                &&& parts@.len() >= 4
                &&& Some(d.id as int) == spec_parsed_u64(parts@[0]@)
                &&& d.name == parts@[1]
                &&& (d.compute_major, d.compute_minor) == spec_cc_of(parts@[2]@)
                &&& d.memory_mb == spec_u32_or_zero(parts@[3]@) as u64
                &&& d.nvenc_support == (d.compute_major >= 6)
                &&& d.max_concurrent_sessions == (if parts@.len() > 4 && parts@[4]@.len() > 0
                    && parts@[4]@ != "[Not Supported]"@ {
                    match spec_parsed_u64(parts@[4]@) {
                        Some(v) => if v <= u32::MAX {
                            v as u32
                        } else {
                            2
                        },
                        None => 2,
                    }
                } else {
                    spec_estimated_sessions(d.compute_major)
                })
            },
            None => parts@.len() < 4 || (match spec_parsed_u64(parts@[0]@) {
                Some(v) => v > u32::MAX,
                None => true,
            }),
        },
{
    if parts.len() < 4 {
        return None;
    }
    let id: u32 = match parse_u64(parts[0].as_str()) {
        Some(v) => {
            if v <= 0xFFFF_FFFF {
                v as u32
            } else {
                return None;
            }
        },
        None => {
            return None;
        },
    };
    let name = parts[1].clone();
    let (compute_major, compute_minor) = parse_compute_capability(parts[2].as_str());
    let memory_mb = parse_u32_or_zero(parts[3].as_str()) as u64;
    let max_concurrent_sessions: u32 = if parts.len() > 4 && parts[4].unicode_len() > 0
        && !crate::paths::string_eq_lit(&parts[4], "[Not Supported]") {
        match parse_u64(parts[4].as_str()) {
            Some(v) => {
                if v <= 0xFFFF_FFFF {
                    v as u32
                } else {
                    2
                }
            },
            None => 2,
        }
    } else {
        estimate_max_concurrent_sessions(compute_major, compute_minor)
    };
    let nvenc_support = compute_major >= 6;
    Some(
        CudaDevice {
            id,
            name,
            compute_major,
            compute_minor,
            memory_mb,
            nvenc_support,
            max_concurrent_sessions,
        },
    )
}

/// Compute capability of the best NVENC-capable device, if any.
pub open spec fn spec_best_nvenc_cc(devices: Seq<CudaDevice>) -> Option<(u32, u32)>
    decreases devices.len(),
{
    if devices.len() == 0 {
        None
    } else {
        let rest = spec_best_nvenc_cc(devices.drop_last());
        let last = devices.last();
        if last.nvenc_support {
            let lc = (last.compute_major, last.compute_minor);
            match rest {
                None => Some(lc),
                Some(b) => if spec_cc_ge(lc, b) {
                    Some(lc)
                } else {
                    Some(b)
                },
            }
        } else {
            rest
        }
    }
}

pub open spec fn spec_cc_ge(a: (u32, u32), b: (u32, u32)) -> bool {
    a.0 > b.0 || (a.0 == b.0 && a.1 >= b.1)
}

/// The NVENC encoder set the best discovered device generation supports.
pub open spec fn spec_nvenc_encoders(devices: Seq<CudaDevice>) -> Seq<HardwareEncoder> {
    match spec_best_nvenc_cc(devices) {
        None => Seq::empty(),
        Some(cc) => seq![HardwareEncoder::NvencH264] + (if spec_cc_ge(cc, (5, 2)) {
            seq![HardwareEncoder::NvencH265]
        } else {
            Seq::<HardwareEncoder>::empty()
        }) + (if spec_cc_ge(cc, (8, 9)) {
            seq![HardwareEncoder::NvencAV1]
        } else {
            Seq::<HardwareEncoder>::empty()
        }),
    }
}

/// Which NVENC encoders the discovered devices support: H.264 on every
/// NVENC-capable device, H.265 from capability 5.2, AV1 from 8.9.
pub fn determine_nvenc_encoders(cuda_devices: &Vec<CudaDevice>) -> (r: Vec<HardwareEncoder>)
    ensures
        r@ == spec_nvenc_encoders(cuda_devices@),
{
    let mut best: Option<(u32, u32)> = None;
    let mut i: usize = 0;
    while i < cuda_devices.len()
        invariant
            0 <= i <= cuda_devices@.len(),
            best == spec_best_nvenc_cc(cuda_devices@.take(i as int)),
        decreases cuda_devices@.len() - i,
    {
        proof {
            assert(cuda_devices@.take(i + 1).drop_last() =~= cuda_devices@.take(i as int));
            assert(cuda_devices@.take(i + 1).last() == cuda_devices@[i as int]);
        }
        let d = &cuda_devices[i];
        if d.nvenc_support {
            let lc = (d.compute_major, d.compute_minor);
            best = match best {
                None => Some(lc),
                Some(b) => {
                    if lc.0 > b.0 || (lc.0 == b.0 && lc.1 >= b.1) {
                        Some(lc)
                    } else {
                        Some(b)
                    }
                },
            };
        }
        i = i + 1;
    }
    proof {
        assert(cuda_devices@.take(cuda_devices@.len() as int) =~= cuda_devices@);
    }
    let mut encoders: Vec<HardwareEncoder> = Vec::new();
    match best {
        None => {
            proof {
                assert(encoders@ =~= spec_nvenc_encoders(cuda_devices@));
            }
        },
        Some(cc) => {
            encoders.push(HardwareEncoder::NvencH264);
            if cc.0 > 5 || (cc.0 == 5 && cc.1 >= 2) {
                encoders.push(HardwareEncoder::NvencH265);
            }
            if cc.0 > 8 || (cc.0 == 8 && cc.1 >= 9) {
                encoders.push(HardwareEncoder::NvencAV1);
            }
            proof {
                assert(encoders@ =~= spec_nvenc_encoders(cuda_devices@));
            }
        },
    }
    encoders
}

/// Whether one specific device can drive one specific encoder.
pub fn device_supports_encoder(device: &CudaDevice, encoder: &HardwareEncoder) -> (r: bool)
    ensures
        r == (device.nvenc_support && match *encoder {
            HardwareEncoder::NvencH264 => true,
            HardwareEncoder::NvencH265 => spec_cc_ge(
                (device.compute_major, device.compute_minor),
                (5, 2),
            ),
            HardwareEncoder::NvencAV1 => spec_cc_ge(
                (device.compute_major, device.compute_minor),
                (8, 9),
            ),
            _ => false,
        }),
{
    if !device.nvenc_support {
        return false;
    }
    match encoder {
        HardwareEncoder::NvencH264 => true,
        HardwareEncoder::NvencH265 => device.compute_major > 5 || (device.compute_major == 5
            && device.compute_minor >= 2),
        HardwareEncoder::NvencAV1 => device.compute_major > 8 || (device.compute_major == 8
            && device.compute_minor >= 9),
        _ => false,
    }
}

/// Whether any reported acceleration method points at this vendor's
/// hardware (the generic Linux method counts for both).
pub open spec fn spec_amd_hw_available(names: Seq<String>) -> bool {
    exists|i: int|
        0 <= i < names.len() && (spec_contains_seq((#[trigger] names[i])@, "amf"@)
            || spec_contains_seq(names[i]@, "amd"@) || names[i]@ == "vaapi"@)
}

pub fn is_amd_hardware_available(hwaccels: &Vec<String>) -> (r: bool)
    ensures
        r == spec_amd_hw_available(hwaccels@),
{
    let mut i: usize = 0;
    while i < hwaccels.len()
        invariant
            0 <= i <= hwaccels@.len(),
            forall|j: int|
                0 <= j < i ==> !(spec_contains_seq((#[trigger] hwaccels@[j])@, "amf"@)
                    || spec_contains_seq(hwaccels@[j]@, "amd"@) || hwaccels@[j]@ == "vaapi"@),
        decreases hwaccels@.len() - i,
    {
        let name = &hwaccels[i];
        let chars = str_to_chars(name.as_str());
        if contains_pattern(&chars, "amf") || contains_pattern(&chars, "amd")
            || crate::paths::string_eq_lit(name, "vaapi") {
            return true;
        }
        i = i + 1;
    }
    false
}

pub open spec fn spec_intel_hw_available(names: Seq<String>) -> bool {
    exists|i: int|
        0 <= i < names.len() && (spec_contains_seq((#[trigger] names[i])@, "qsv"@)
            || spec_contains_seq(names[i]@, "intel"@) || names[i]@ == "vaapi"@ || names[i]@
            == "dxva2"@)
}

pub fn is_intel_hardware_available(hwaccels: &Vec<String>) -> (r: bool)
    ensures
        r == spec_intel_hw_available(hwaccels@),
{
    let mut i: usize = 0;
    while i < hwaccels.len()
        invariant
            0 <= i <= hwaccels@.len(),
            forall|j: int|
                0 <= j < i ==> !(spec_contains_seq((#[trigger] hwaccels@[j])@, "qsv"@)
                    || spec_contains_seq(hwaccels@[j]@, "intel"@) || hwaccels@[j]@ == "vaapi"@
                    || hwaccels@[j]@ == "dxva2"@),
        decreases hwaccels@.len() - i,
    {
        let name = &hwaccels[i];
        let chars = str_to_chars(name.as_str());
        if contains_pattern(&chars, "qsv") || contains_pattern(&chars, "intel")
            || crate::paths::string_eq_lit(name, "vaapi") || crate::paths::string_eq_lit(
            name,
            "dxva2",
        ) {
            return true;
        }
        i = i + 1;
    }
    false
}

/// The GPU generation a device name suggests.
pub open spec fn spec_intel_generation(t: Seq<char>) -> Seq<char> {
    if spec_contains_seq(t, "arc"@) {
        "Arc"@
    } else if spec_contains_seq(t, "xe"@) {
        "Xe"@
    } else if spec_contains_seq(t, "uhd"@) {
        if spec_contains_seq(t, "630"@) || spec_contains_seq(t, "620"@) {
            "Coffee Lake"@
        } else if spec_contains_seq(t, "750"@) {
            "Ice Lake"@
        } else {
            "Modern"@
        }
    } else if spec_contains_seq(t, "hd"@) {
        if spec_contains_seq(t, "2500"@) || spec_contains_seq(t, "3000"@) {
            "Sandy Bridge"@
        } else if spec_contains_seq(t, "4000"@) {
            "Ivy Bridge"@
        } else if spec_contains_seq(t, "4400"@) || spec_contains_seq(t, "4600"@) {
            "Haswell"@
        } else if spec_contains_seq(t, "5500"@) || spec_contains_seq(t, "6000"@) {
            "Broadwell"@
        } else if spec_contains_seq(t, "530"@) || spec_contains_seq(t, "540"@) {
            "Skylake"@
        } else {
            "Legacy"@
        }
    } else if spec_contains_seq(t, "iris"@) {
        "Modern"@
    } else {
        "Unknown"@
    }
}

/// Classifies an Intel GPU name into its generation, matched
/// case-insensitively.
pub fn determine_intel_generation(gpu_name: &str) -> (r: String)
    ensures
        r@ == spec_intel_generation(spec_lower_chars(gpu_name@)),
{
    let t = lower_chars(gpu_name);
    if contains_pattern(&t, "arc") {
        String::from_str("Arc")
    } else if contains_pattern(&t, "xe") {
        String::from_str("Xe")
    } else if contains_pattern(&t, "uhd") {
        if contains_pattern(&t, "630") || contains_pattern(&t, "620") {
            String::from_str("Coffee Lake")
        } else if contains_pattern(&t, "750") {
            String::from_str("Ice Lake")
        } else {
            String::from_str("Modern")
        }
    } else if contains_pattern(&t, "hd") {
        if contains_pattern(&t, "2500") || contains_pattern(&t, "3000") {
            String::from_str("Sandy Bridge")
        } else if contains_pattern(&t, "4000") {
            String::from_str("Ivy Bridge")
        } else if contains_pattern(&t, "4400") || contains_pattern(&t, "4600") {
            String::from_str("Haswell")
        } else if contains_pattern(&t, "5500") || contains_pattern(&t, "6000") {
            String::from_str("Broadwell")
        } else if contains_pattern(&t, "530") || contains_pattern(&t, "540") {
            String::from_str("Skylake")
        } else {
            String::from_str("Legacy")
        }
    } else if contains_pattern(&t, "iris") {
        String::from_str("Modern")
    } else {
        String::from_str("Unknown")
    }
}

pub open spec fn spec_quicksync_version(g: Seq<char>) -> Seq<char> {
    if g == "Sandy Bridge"@ {
        "QuickSync 1.0"@
    } else if g == "Ivy Bridge"@ {
        "QuickSync 2.0"@
    } else if g == "Haswell"@ {
        "QuickSync 3.0"@
    } else if g == "Broadwell"@ {
        "QuickSync 4.0"@
    } else if g == "Skylake"@ {
        "QuickSync 5.0"@
    } else if g == "Coffee Lake"@ {
        "QuickSync 6.0"@
    } else if g == "Ice Lake"@ {
        "QuickSync 7.0"@
    } else if g == "Arc"@ || g == "Xe"@ {
        "QuickSync 8.0+"@
    } else if g == "Modern"@ {
        "QuickSync 6.0+"@
    } else {
        "Unknown"@
    }
}

/// The QuickSync version a generation ships with.
pub fn determine_quicksync_version(generation: &str) -> (r: String)
    ensures
        r@ == spec_quicksync_version(generation@),
{
    let g = String::from_str(generation);
    if crate::paths::string_eq_lit(&g, "Sandy Bridge") {
        String::from_str("QuickSync 1.0")
    } else if crate::paths::string_eq_lit(&g, "Ivy Bridge") {
        String::from_str("QuickSync 2.0")
    } else if crate::paths::string_eq_lit(&g, "Haswell") {
        String::from_str("QuickSync 3.0")
    } else if crate::paths::string_eq_lit(&g, "Broadwell") {
        String::from_str("QuickSync 4.0")
    } else if crate::paths::string_eq_lit(&g, "Skylake") {
        String::from_str("QuickSync 5.0")
    } else if crate::paths::string_eq_lit(&g, "Coffee Lake") {
        String::from_str("QuickSync 6.0")
    } else if crate::paths::string_eq_lit(&g, "Ice Lake") {
        String::from_str("QuickSync 7.0")
    } else if crate::paths::string_eq_lit(&g, "Arc") || crate::paths::string_eq_lit(&g, "Xe") {
        String::from_str("QuickSync 8.0+")
    } else if crate::paths::string_eq_lit(&g, "Modern") {
        String::from_str("QuickSync 6.0+")
    } else {
        String::from_str("Unknown")
    }
}

/// The pairs as plain character sequences.
pub open spec fn spec_pair_views(s: Seq<(String, String)>) -> Seq<(Seq<char>, Seq<char>)> {
    Seq::new(s.len(), |i: int| (s[i].0@, s[i].1@))
}

fn push_pair(v: &mut Vec<(String, String)>, key: &str, value: String)
    ensures
        spec_pair_views(final(v)@) == spec_pair_views(old(v)@).push((key@, value@)),
{
    let ghost val = value@;
    v.push((String::from_str(key), value));
    proof {
        assert(spec_pair_views(v@) =~= spec_pair_views(old(v)@).push((key@, val)));
    }
}

/// Tuned encoder options for an NVENC device, by its generation.
pub open spec fn spec_nvenc_settings(d: CudaDevice, e: HardwareEncoder) -> Seq<
    (Seq<char>, Seq<char>),
> {
    let base = seq![
        ("hwaccel"@, "cuda"@),
        ("hwaccel_output_format"@, "cuda"@),
        ("hwaccel_device"@, crate::text::spec_decimal(d.id as int)),
    ];
    match e {
        HardwareEncoder::NvencH264 => base + seq![("c:v"@, "h264_nvenc"@)] + (if d.compute_major
            >= 8 {
            seq![
                ("preset"@, "p4"@),
                ("tune"@, "hq"@),
                ("rc"@, "vbr"@),
                ("multipass"@, "fullres"@),
            ]
        } else if d.compute_major >= 7 {
            seq![("preset"@, "medium"@), ("tune"@, "hq"@), ("rc"@, "vbr"@)]
        } else {
            seq![("preset"@, "medium"@), ("rc"@, "cbr"@)]
        }),
        HardwareEncoder::NvencH265 => base + seq![("c:v"@, "hevc_nvenc"@)] + (if d.compute_major
            >= 8 {
            seq![
                ("preset"@, "p4"@),
                ("tune"@, "hq"@),
                ("rc"@, "vbr"@),
                ("multipass"@, "fullres"@),
            ]
        } else {
            seq![("preset"@, "medium"@), ("tune"@, "hq"@), ("rc"@, "vbr"@)]
        }),
        HardwareEncoder::NvencAV1 => base + seq![
            ("c:v"@, "av1_nvenc"@),
            ("preset"@, "p4"@),
            ("tune"@, "hq"@),
            ("rc"@, "vbr"@),
        ],
        _ => base,
    }
}

/// Tuned options for an NVENC encode on a specific device.
pub fn get_optimal_nvenc_settings(device: &CudaDevice, encoder: &HardwareEncoder) -> (r: Vec<
    (String, String),
>)
    ensures
        spec_pair_views(r@) == spec_nvenc_settings(*device, *encoder),
{
    let mut v: Vec<(String, String)> = Vec::new();
    push_pair(&mut v, "hwaccel", String::from_str("cuda"));
    push_pair(&mut v, "hwaccel_output_format", String::from_str("cuda"));
    push_pair(&mut v, "hwaccel_device", crate::text::decimal_string(device.id as u64));
    match encoder {
        HardwareEncoder::NvencH264 => {
            push_pair(&mut v, "c:v", String::from_str("h264_nvenc"));
            if device.compute_major >= 8 {
                push_pair(&mut v, "preset", String::from_str("p4"));
                push_pair(&mut v, "tune", String::from_str("hq"));
                push_pair(&mut v, "rc", String::from_str("vbr"));
                push_pair(&mut v, "multipass", String::from_str("fullres"));
            } else if device.compute_major >= 7 {
                push_pair(&mut v, "preset", String::from_str("medium"));
                push_pair(&mut v, "tune", String::from_str("hq"));
                push_pair(&mut v, "rc", String::from_str("vbr"));
            } else {
                push_pair(&mut v, "preset", String::from_str("medium"));
                push_pair(&mut v, "rc", String::from_str("cbr"));
            }
        },
        HardwareEncoder::NvencH265 => {
            push_pair(&mut v, "c:v", String::from_str("hevc_nvenc"));
            if device.compute_major >= 8 {
                push_pair(&mut v, "preset", String::from_str("p4"));
                push_pair(&mut v, "tune", String::from_str("hq"));
                push_pair(&mut v, "rc", String::from_str("vbr"));
                push_pair(&mut v, "multipass", String::from_str("fullres"));
            } else {
                push_pair(&mut v, "preset", String::from_str("medium"));
                push_pair(&mut v, "tune", String::from_str("hq"));
                push_pair(&mut v, "rc", String::from_str("vbr"));
            }
        },
        HardwareEncoder::NvencAV1 => {
            push_pair(&mut v, "c:v", String::from_str("av1_nvenc"));
            push_pair(&mut v, "preset", String::from_str("p4"));
            push_pair(&mut v, "tune", String::from_str("hq"));
            push_pair(&mut v, "rc", String::from_str("vbr"));
        },
        _ => {},
    }
    proof {
        assert(spec_pair_views(v@) =~= spec_nvenc_settings(*device, *encoder));
    }
    v
}

pub open spec fn spec_amd_settings(e: HardwareEncoder) -> Seq<(Seq<char>, Seq<char>)> {
    match e {
        HardwareEncoder::AmfH264 => seq![
            ("c:v"@, "h264_amf"@),
            ("quality"@, "speed"@),
            ("rc"@, "vbr_peak"@),
            ("qmin"@, "18"@),
            ("qmax"@, "30"@),
        ],
        HardwareEncoder::AmfH265 => seq![
            ("c:v"@, "hevc_amf"@),
            ("quality"@, "speed"@),
            ("rc"@, "vbr_peak"@),
            ("qmin"@, "20"@),
            ("qmax"@, "32"@),
        ],
        _ => Seq::empty(),
    }
}

/// Tuned options for an AMD VCE encode.
pub fn get_optimal_amd_settings(encoder: &HardwareEncoder) -> (r: Vec<(String, String)>)
    ensures
        spec_pair_views(r@) == spec_amd_settings(*encoder),
{
    let mut v: Vec<(String, String)> = Vec::new();
    match encoder {
        HardwareEncoder::AmfH264 => {
            push_pair(&mut v, "c:v", String::from_str("h264_amf"));
            push_pair(&mut v, "quality", String::from_str("speed"));
            push_pair(&mut v, "rc", String::from_str("vbr_peak"));
            push_pair(&mut v, "qmin", String::from_str("18"));
            push_pair(&mut v, "qmax", String::from_str("30"));
        },
        HardwareEncoder::AmfH265 => {
            push_pair(&mut v, "c:v", String::from_str("hevc_amf"));
            push_pair(&mut v, "quality", String::from_str("speed"));
            push_pair(&mut v, "rc", String::from_str("vbr_peak"));
            push_pair(&mut v, "qmin", String::from_str("20"));
            push_pair(&mut v, "qmax", String::from_str("32"));
        },
        _ => {},
    }
    proof {
        assert(spec_pair_views(v@) =~= spec_amd_settings(*encoder));
    }
    v
}

pub open spec fn spec_intel_settings(e: HardwareEncoder) -> Seq<(Seq<char>, Seq<char>)> {
    match e {
        HardwareEncoder::QsvH264 => seq![
            ("c:v"@, "h264_qsv"@),
            ("preset"@, "medium"@),
            ("look_ahead"@, "1"@),
            ("look_ahead_depth"@, "15"@),
            ("global_quality"@, "23"@),
        ],
        HardwareEncoder::QsvH265 => seq![
            ("c:v"@, "hevc_qsv"@),
            ("preset"@, "medium"@),
            ("look_ahead"@, "1"@),
            ("look_ahead_depth"@, "15"@),
            ("global_quality"@, "25"@),
        ],
        HardwareEncoder::QsvAV1 => seq![
            ("c:v"@, "av1_qsv"@),
            ("preset"@, "medium"@),
            ("global_quality"@, "27"@),
        ],
        _ => Seq::empty(),
    }
}

/// Tuned options for an Intel QuickSync encode.
pub fn get_optimal_intel_settings(encoder: &HardwareEncoder) -> (r: Vec<(String, String)>)
    ensures
        spec_pair_views(r@) == spec_intel_settings(*encoder),
{
    let mut v: Vec<(String, String)> = Vec::new();
    match encoder {
        HardwareEncoder::QsvH264 => {
            push_pair(&mut v, "c:v", String::from_str("h264_qsv"));
            push_pair(&mut v, "preset", String::from_str("medium"));
            push_pair(&mut v, "look_ahead", String::from_str("1"));
            push_pair(&mut v, "look_ahead_depth", String::from_str("15"));
            push_pair(&mut v, "global_quality", String::from_str("23"));
        },
        HardwareEncoder::QsvH265 => {
            push_pair(&mut v, "c:v", String::from_str("hevc_qsv"));
            push_pair(&mut v, "preset", String::from_str("medium"));
            push_pair(&mut v, "look_ahead", String::from_str("1"));
            push_pair(&mut v, "look_ahead_depth", String::from_str("15"));
            push_pair(&mut v, "global_quality", String::from_str("25"));
        },
        HardwareEncoder::QsvAV1 => {
            push_pair(&mut v, "c:v", String::from_str("av1_qsv"));
            push_pair(&mut v, "preset", String::from_str("medium"));
            push_pair(&mut v, "global_quality", String::from_str("27"));
        },
        _ => {},
    }
    proof {
        assert(spec_pair_views(v@) =~= spec_intel_settings(*encoder));
    }
    v
}

pub open spec fn spec_vaapi_settings() -> Seq<(Seq<char>, Seq<char>)> {
    seq![
        ("hwaccel"@, "vaapi"@),
        ("hwaccel_device"@, "/dev/dri/renderD128"@),
        ("c:v"@, "h264_vaapi"@),
        ("profile"@, "main"@),
        ("level"@, "4.0"@),
    ]
}

/// Options for an encode through the generic Linux acceleration API.
pub fn get_vaapi_settings() -> (r: Vec<(String, String)>)
    ensures
        spec_pair_views(r@) == spec_vaapi_settings(),
{
    let mut v: Vec<(String, String)> = Vec::new();
    push_pair(&mut v, "hwaccel", String::from_str("vaapi"));
    push_pair(&mut v, "hwaccel_device", String::from_str("/dev/dri/renderD128"));
    push_pair(&mut v, "c:v", String::from_str("h264_vaapi"));
    push_pair(&mut v, "profile", String::from_str("main"));
    push_pair(&mut v, "level", String::from_str("4.0"));
    proof {
        assert(spec_pair_views(v@) =~= spec_vaapi_settings());
    }
    v
}

pub open spec fn spec_videotoolbox_settings() -> Seq<(Seq<char>, Seq<char>)> {
    seq![
        ("hwaccel"@, "videotoolbox"@),
        ("c:v"@, "h264_videotoolbox"@),
        ("profile"@, "main"@),
        ("allow_sw"@, "1"@),
    ]
}

/// Options for an encode through the Apple media framework.
pub fn get_videotoolbox_settings() -> (r: Vec<(String, String)>)
    ensures
        spec_pair_views(r@) == spec_videotoolbox_settings(),
{
    let mut v: Vec<(String, String)> = Vec::new();
    push_pair(&mut v, "hwaccel", String::from_str("videotoolbox"));
    push_pair(&mut v, "c:v", String::from_str("h264_videotoolbox"));
    push_pair(&mut v, "profile", String::from_str("main"));
    push_pair(&mut v, "allow_sw", String::from_str("1"));
    proof {
        assert(spec_pair_views(v@) =~= spec_videotoolbox_settings());
    }
    v
}

pub open spec fn spec_platform_settings(p: Seq<char>) -> Seq<(Seq<char>, Seq<char>)> {
    if p == "linux"@ || p == "vaapi"@ {
        spec_vaapi_settings()
    } else if p == "macos"@ || p == "videotoolbox"@ {
        spec_videotoolbox_settings()
    } else if p == "windows"@ || p == "dxva"@ {
        seq![("hwaccel"@, "dxva2"@), ("c:v"@, "libx264"@)]
    } else {
        Seq::empty()
    }
}

/// Platform-specific acceleration options, keyed by platform name.
pub fn get_platform_optimal_settings(platform: &str) -> (r: Vec<(String, String)>)
    ensures
        spec_pair_views(r@) == spec_platform_settings(platform@),
{
    let p = String::from_str(platform);
    if crate::paths::string_eq_lit(&p, "linux") || crate::paths::string_eq_lit(&p, "vaapi") {
        get_vaapi_settings()
    } else if crate::paths::string_eq_lit(&p, "macos") || crate::paths::string_eq_lit(
        &p,
        "videotoolbox",
    ) {
        get_videotoolbox_settings()
    } else if crate::paths::string_eq_lit(&p, "windows") || crate::paths::string_eq_lit(
        &p,
        "dxva",
    ) {
        let mut v: Vec<(String, String)> = Vec::new();
        push_pair(&mut v, "hwaccel", String::from_str("dxva2"));
        push_pair(&mut v, "c:v", String::from_str("libx264"));
        proof {
            assert(spec_pair_views(v@) =~= spec_platform_settings(platform@));
        }
        v
    } else {
        let v: Vec<(String, String)> = Vec::new();
        proof {
            assert(spec_pair_views(v@) =~= spec_platform_settings(platform@));
        }
        v
    }
}

/// The text views of an advice list.
pub open spec fn spec_string_views(s: Seq<String>) -> Seq<Seq<char>> {
    Seq::new(s.len(), |i: int| s[i]@)
}

fn push_line(v: &mut Vec<String>, s: &str)
    ensures
        spec_string_views(final(v)@) == spec_string_views(old(v)@).push(s@),
{
    v.push(String::from_str(s));
    proof {
        assert(spec_string_views(v@) =~= spec_string_views(old(v)@).push(s@));
    }
}

pub open spec fn spec_encoder_recommendations(e: HardwareEncoder) -> Seq<Seq<char>> {
    match e {
        HardwareEncoder::NvencH264 => seq![
            "Use preset 'p4' (medium) for balanced quality/speed"@,
            "Enable 'tune hq' for better quality"@,
            "Use variable bitrate (VBR) for optimal size control"@,
        ],
        HardwareEncoder::NvencH265 => seq![
            "HEVC provides better compression than H.264"@,
            "May have slightly slower encoding than H.264"@,
            "Recommended for smaller file sizes"@,
        ],
        HardwareEncoder::VideoToolbox => seq![
            "Native macOS hardware acceleration"@,
            "Optimized for Apple Silicon and Intel Macs"@,
            "Good balance of quality and performance"@,
        ],
        HardwareEncoder::Software => seq![
            "Most compatible but slowest option"@,
            "Uses CPU instead of dedicated hardware"@,
            "Supports all advanced encoding features"@,
        ],
        _ => seq![
            "Hardware-accelerated encoding available"@,
            "May provide significant speed improvements"@,
        ],
    }
}

/// Fixed advice on using each backend well.
pub fn get_encoder_recommendations(encoder: &HardwareEncoder) -> (r: Vec<String>)
    ensures
        spec_string_views(r@) == spec_encoder_recommendations(*encoder),
{
    let mut v: Vec<String> = Vec::new();
    match encoder {
        HardwareEncoder::NvencH264 => {
            push_line(&mut v, "Use preset 'p4' (medium) for balanced quality/speed");
            push_line(&mut v, "Enable 'tune hq' for better quality");
            push_line(&mut v, "Use variable bitrate (VBR) for optimal size control");
        },
        HardwareEncoder::NvencH265 => {
            push_line(&mut v, "HEVC provides better compression than H.264");
            push_line(&mut v, "May have slightly slower encoding than H.264");
            push_line(&mut v, "Recommended for smaller file sizes");
        },
        HardwareEncoder::VideoToolbox => {
            push_line(&mut v, "Native macOS hardware acceleration");
            push_line(&mut v, "Optimized for Apple Silicon and Intel Macs");
            push_line(&mut v, "Good balance of quality and performance");
        },
        HardwareEncoder::Software => {
            push_line(&mut v, "Most compatible but slowest option");
            push_line(&mut v, "Uses CPU instead of dedicated hardware");
            push_line(&mut v, "Supports all advanced encoding features");
        },
        _ => {
            push_line(&mut v, "Hardware-accelerated encoding available");
            push_line(&mut v, "May provide significant speed improvements");
        },
    }
    proof {
        assert(spec_string_views(v@) =~= spec_encoder_recommendations(*encoder));
    }
    v
}

} // verus!
