//! Capability model: the closed catalog of encoder backends and their fixed
//! metadata (vendor, codec family, hardware acceleration, presets).

use vstd::prelude::*;

verus! {

/// A specific video-encoding backend, identified by vendor and codec.
#[derive(Clone, Copy, Debug, PartialEq, Eq, Structural)]
pub enum HardwareEncoder {
    NvencH264,
    NvencH265,
    NvencAV1,
    AmfH264,
    AmfH265,
    QsvH264,
    QsvH265,
    QsvAV1,
    Vaapi,
    VideoToolbox,
    Software,
}

/// Number of encoder variants; `encoder_index` is a bijection onto
/// `0 .. ENCODER_COUNT`.
pub const ENCODER_COUNT: usize = 11;

/// Position of an encoder in the fixed catalog order, used to key
/// per-encoder tables without a hash map.
pub open spec fn spec_encoder_index(e: HardwareEncoder) -> int {
    match e {
        HardwareEncoder::NvencH264 => 0,
        HardwareEncoder::NvencH265 => 1,
        HardwareEncoder::NvencAV1 => 2,
        HardwareEncoder::AmfH264 => 3,
        HardwareEncoder::AmfH265 => 4,
        HardwareEncoder::QsvH264 => 5,
        HardwareEncoder::QsvH265 => 6,
        HardwareEncoder::QsvAV1 => 7,
        HardwareEncoder::Vaapi => 8,
        HardwareEncoder::VideoToolbox => 9,
        HardwareEncoder::Software => 10,
    }
}

/// The encoder sitting at a catalog position (inverse of `spec_encoder_index`).
pub open spec fn spec_encoder_at(i: int) -> HardwareEncoder {
    if i == 0 {
        HardwareEncoder::NvencH264
    } else if i == 1 {
        HardwareEncoder::NvencH265
    } else if i == 2 {
        HardwareEncoder::NvencAV1
    } else if i == 3 {
        HardwareEncoder::AmfH264
    } else if i == 4 {
        HardwareEncoder::AmfH265
    } else if i == 5 {
        HardwareEncoder::QsvH264
    } else if i == 6 {
        HardwareEncoder::QsvH265
    } else if i == 7 {
        HardwareEncoder::QsvAV1
    } else if i == 8 {
        HardwareEncoder::Vaapi
    } else if i == 9 {
        HardwareEncoder::VideoToolbox
    } else {
        HardwareEncoder::Software
    }
}

pub proof fn lemma_encoder_index_bijective(e: HardwareEncoder)
    ensures
        0 <= spec_encoder_index(e) < ENCODER_COUNT,
        spec_encoder_at(spec_encoder_index(e)) == e,
{
}

pub proof fn lemma_encoder_at_index(i: int)
    requires
        0 <= i < ENCODER_COUNT,
    ensures
        spec_encoder_index(spec_encoder_at(i)) == i,
{
}

pub fn encoder_index(e: &HardwareEncoder) -> (i: usize)
    ensures
        i == spec_encoder_index(*e),
        i < ENCODER_COUNT,
{
    match e {
        HardwareEncoder::NvencH264 => 0,
        HardwareEncoder::NvencH265 => 1,
        HardwareEncoder::NvencAV1 => 2,
        HardwareEncoder::AmfH264 => 3,
        HardwareEncoder::AmfH265 => 4,
        HardwareEncoder::QsvH264 => 5,
        HardwareEncoder::QsvH265 => 6,
        HardwareEncoder::QsvAV1 => 7,
        HardwareEncoder::Vaapi => 8,
        HardwareEncoder::VideoToolbox => 9,
        HardwareEncoder::Software => 10,
    }
}

/// All encoder variants in catalog order.
pub fn all_encoders() -> (v: Vec<HardwareEncoder>)
    ensures
        v@.len() == ENCODER_COUNT,
        forall|i: int| 0 <= i < ENCODER_COUNT ==> v@[i] == spec_encoder_at(i),
{
    let mut v: Vec<HardwareEncoder> = Vec::new();
    v.push(HardwareEncoder::NvencH264);
    v.push(HardwareEncoder::NvencH265);
    v.push(HardwareEncoder::NvencAV1);
    v.push(HardwareEncoder::AmfH264);
    v.push(HardwareEncoder::AmfH265);
    v.push(HardwareEncoder::QsvH264);
    v.push(HardwareEncoder::QsvH265);
    v.push(HardwareEncoder::QsvAV1);
    v.push(HardwareEncoder::Vaapi);
    v.push(HardwareEncoder::VideoToolbox);
    v.push(HardwareEncoder::Software);
    v
}

pub open spec fn spec_display_name(e: HardwareEncoder) -> Seq<char> {
    match e {
        HardwareEncoder::NvencH264 => "NVIDIA NVENC H.264"@,
        HardwareEncoder::NvencH265 => "NVIDIA NVENC H.265/HEVC"@,
        HardwareEncoder::NvencAV1 => "NVIDIA NVENC AV1"@,
        HardwareEncoder::AmfH264 => "AMD VCE H.264"@,
        HardwareEncoder::AmfH265 => "AMD VCE H.265/HEVC"@,
        HardwareEncoder::QsvH264 => "Intel QuickSync H.264"@,
        HardwareEncoder::QsvH265 => "Intel QuickSync H.265/HEVC"@,
        HardwareEncoder::QsvAV1 => "Intel QuickSync AV1"@,
        HardwareEncoder::Vaapi => "VAAPI (Linux)"@,
        HardwareEncoder::VideoToolbox => "VideoToolbox (macOS)"@,
        HardwareEncoder::Software => "Software (CPU)"@,
    }
}

/// The identifier the external encoder process uses for this backend.
pub open spec fn spec_codec_name(e: HardwareEncoder) -> Seq<char> {
    match e {
        HardwareEncoder::NvencH264 => "h264_nvenc"@,
        HardwareEncoder::NvencH265 => "hevc_nvenc"@,
        HardwareEncoder::NvencAV1 => "av1_nvenc"@,
        HardwareEncoder::AmfH264 => "h264_amf"@,
        HardwareEncoder::AmfH265 => "hevc_amf"@,
        HardwareEncoder::QsvH264 => "h264_qsv"@,
        HardwareEncoder::QsvH265 => "hevc_qsv"@,
        HardwareEncoder::QsvAV1 => "av1_qsv"@,
        HardwareEncoder::Vaapi => "h264_vaapi"@,
        HardwareEncoder::VideoToolbox => "h264_videotoolbox"@,
        HardwareEncoder::Software => "libx264"@,
    }
}

pub open spec fn spec_vendor(e: HardwareEncoder) -> Seq<char> {
    match e {
        HardwareEncoder::NvencH264 => "NVIDIA"@,
        HardwareEncoder::NvencH265 => "NVIDIA"@,
        HardwareEncoder::NvencAV1 => "NVIDIA"@,
        HardwareEncoder::AmfH264 => "AMD"@,
        HardwareEncoder::AmfH265 => "AMD"@,
        HardwareEncoder::QsvH264 => "Intel"@,
        HardwareEncoder::QsvH265 => "Intel"@,
        HardwareEncoder::QsvAV1 => "Intel"@,
        HardwareEncoder::Vaapi => "Linux"@,
        HardwareEncoder::VideoToolbox => "Apple"@,
        HardwareEncoder::Software => "Software"@,
    }
}

pub open spec fn spec_is_hardware_accelerated(e: HardwareEncoder) -> bool {
    e != HardwareEncoder::Software
}

/// Small numeric key for an encoder's vendor, used where two encoders'
/// vendors are compared; equal exactly when `spec_vendor` is equal.
pub open spec fn spec_vendor_id(e: HardwareEncoder) -> int {
    match e {
        HardwareEncoder::NvencH264 => 0,
        HardwareEncoder::NvencH265 => 0,
        HardwareEncoder::NvencAV1 => 0,
        HardwareEncoder::AmfH264 => 1,
        HardwareEncoder::AmfH265 => 1,
        HardwareEncoder::QsvH264 => 2,
        HardwareEncoder::QsvH265 => 2,
        HardwareEncoder::QsvAV1 => 2,
        HardwareEncoder::Vaapi => 3,
        HardwareEncoder::VideoToolbox => 4,
        HardwareEncoder::Software => 5,
    }
}

/// The vendor key as an executable value.
pub fn vendor_id(e: &HardwareEncoder) -> (r: u32)
    ensures
        r == spec_vendor_id(*e),
{
    match e {
        HardwareEncoder::NvencH264 => 0,
        HardwareEncoder::NvencH265 => 0,
        HardwareEncoder::NvencAV1 => 0,
        HardwareEncoder::AmfH264 => 1,
        HardwareEncoder::AmfH265 => 1,
        HardwareEncoder::QsvH264 => 2,
        HardwareEncoder::QsvH265 => 2,
        HardwareEncoder::QsvAV1 => 2,
        HardwareEncoder::Vaapi => 3,
        HardwareEncoder::VideoToolbox => 4,
        HardwareEncoder::Software => 5,
    }
}

impl HardwareEncoder {
    pub fn display_name(&self) -> (r: &'static str)
        ensures
            r@ == spec_display_name(*self),
    {
        match self {
            HardwareEncoder::NvencH264 => "NVIDIA NVENC H.264",
            HardwareEncoder::NvencH265 => "NVIDIA NVENC H.265/HEVC",
            HardwareEncoder::NvencAV1 => "NVIDIA NVENC AV1",
            HardwareEncoder::AmfH264 => "AMD VCE H.264",
            HardwareEncoder::AmfH265 => "AMD VCE H.265/HEVC",
            HardwareEncoder::QsvH264 => "Intel QuickSync H.264",
            HardwareEncoder::QsvH265 => "Intel QuickSync H.265/HEVC",
            HardwareEncoder::QsvAV1 => "Intel QuickSync AV1",
            HardwareEncoder::Vaapi => "VAAPI (Linux)",
            HardwareEncoder::VideoToolbox => "VideoToolbox (macOS)",
            HardwareEncoder::Software => "Software (CPU)",
        }
    }

    pub fn codec_name(&self) -> (r: &'static str)
        ensures
            r@ == spec_codec_name(*self),
    {
        match self {
            HardwareEncoder::NvencH264 => "h264_nvenc",
            HardwareEncoder::NvencH265 => "hevc_nvenc",
            HardwareEncoder::NvencAV1 => "av1_nvenc",
            HardwareEncoder::AmfH264 => "h264_amf",
            HardwareEncoder::AmfH265 => "hevc_amf",
            HardwareEncoder::QsvH264 => "h264_qsv",
            HardwareEncoder::QsvH265 => "hevc_qsv",
            HardwareEncoder::QsvAV1 => "av1_qsv",
            HardwareEncoder::Vaapi => "h264_vaapi",
            HardwareEncoder::VideoToolbox => "h264_videotoolbox",
            HardwareEncoder::Software => "libx264",
        }
    }

    pub fn vendor(&self) -> (r: &'static str)
        ensures
            r@ == spec_vendor(*self),
    {
        match self {
            HardwareEncoder::NvencH264 => "NVIDIA",
            HardwareEncoder::NvencH265 => "NVIDIA",
            HardwareEncoder::NvencAV1 => "NVIDIA",
            HardwareEncoder::AmfH264 => "AMD",
            HardwareEncoder::AmfH265 => "AMD",
            HardwareEncoder::QsvH264 => "Intel",
            HardwareEncoder::QsvH265 => "Intel",
            HardwareEncoder::QsvAV1 => "Intel",
            HardwareEncoder::Vaapi => "Linux",
            HardwareEncoder::VideoToolbox => "Apple",
            HardwareEncoder::Software => "Software",
        }
    }

    pub fn is_hardware_accelerated(&self) -> (r: bool)
        ensures
            r == spec_is_hardware_accelerated(*self),
    {
        match self {
            HardwareEncoder::Software => false,
            _ => true,
        }
    }
}

/// Encoding speed/quality presets, mapped to backend-specific preset names.
#[derive(Clone, Copy, Debug, PartialEq, Eq, Structural)]
pub enum HardwarePreset {
    UltraFast,
    Faster,
    Fast,
    Medium,
    Slow,
    Slower,
    Highest,
}

pub open spec fn spec_nvenc_preset(p: HardwarePreset) -> Seq<char> {
    match p {
        HardwarePreset::UltraFast => "p1"@,
        HardwarePreset::Faster => "p2"@,
        HardwarePreset::Fast => "p3"@,
        HardwarePreset::Medium => "p4"@,
        HardwarePreset::Slow => "p5"@,
        HardwarePreset::Slower => "p6"@,
        HardwarePreset::Highest => "p7"@,
    }
}

pub open spec fn spec_software_preset(p: HardwarePreset) -> Seq<char> {
    match p {
        HardwarePreset::UltraFast => "ultrafast"@,
        HardwarePreset::Faster => "faster"@,
        HardwarePreset::Fast => "fast"@,
        HardwarePreset::Medium => "medium"@,
        HardwarePreset::Slow => "slow"@,
        HardwarePreset::Slower => "slower"@,
        HardwarePreset::Highest => "veryslow"@,
    }
}

impl HardwarePreset {
    pub fn nvenc_preset(&self) -> (r: &'static str)
        ensures
            r@ == spec_nvenc_preset(*self),
    {
        match self {
            HardwarePreset::UltraFast => "p1",
            HardwarePreset::Faster => "p2",
            HardwarePreset::Fast => "p3",
            HardwarePreset::Medium => "p4",
            HardwarePreset::Slow => "p5",
            HardwarePreset::Slower => "p6",
            HardwarePreset::Highest => "p7",
        }
    }

    pub fn software_preset(&self) -> (r: &'static str)
        ensures
            r@ == spec_software_preset(*self),
    {
        match self {
            HardwarePreset::UltraFast => "ultrafast",
            HardwarePreset::Faster => "faster",
            HardwarePreset::Fast => "fast",
            HardwarePreset::Medium => "medium",
            HardwarePreset::Slow => "slow",
            HardwarePreset::Slower => "slower",
            HardwarePreset::Highest => "veryslow",
        }
    }

    pub fn display_name(&self) -> (r: &'static str)
        ensures
            r@ == spec_preset_display_name(*self),
    {
        match self {
            HardwarePreset::UltraFast => "Ultra Fast",
            HardwarePreset::Faster => "Faster",
            HardwarePreset::Fast => "Fast",
            HardwarePreset::Medium => "Medium",
            HardwarePreset::Slow => "Slow",
            HardwarePreset::Slower => "Slower",
            HardwarePreset::Highest => "Highest Quality",
        }
    }

    /// Fixed multiplier this preset applies to the baseline encoding time,
    /// in percent (faster presets shrink the estimate, slower ones grow it).
    pub fn time_multiplier_percent(&self) -> (r: u32)
        ensures
            r == spec_preset_time_percent(*self),
            r >= 50,
    {
        match self {
            HardwarePreset::UltraFast => 50,
            HardwarePreset::Faster => 70,
            HardwarePreset::Fast => 85,
            HardwarePreset::Medium => 100,
            HardwarePreset::Slow => 130,
            HardwarePreset::Slower => 180,
            HardwarePreset::Highest => 250,
        }
    }
}

pub open spec fn spec_preset_display_name(p: HardwarePreset) -> Seq<char> {
    match p {
        HardwarePreset::UltraFast => "Ultra Fast"@,
        HardwarePreset::Faster => "Faster"@,
        HardwarePreset::Fast => "Fast"@,
        HardwarePreset::Medium => "Medium"@,
        HardwarePreset::Slow => "Slow"@,
        HardwarePreset::Slower => "Slower"@,
        HardwarePreset::Highest => "Highest Quality"@,
    }
}

pub open spec fn spec_preset_time_percent(p: HardwarePreset) -> u32 {
    match p {
        HardwarePreset::UltraFast => 50,
        HardwarePreset::Faster => 70,
        HardwarePreset::Fast => 85,
        HardwarePreset::Medium => 100,
        HardwarePreset::Slow => 130,
        HardwarePreset::Slower => 180,
        HardwarePreset::Highest => 250,
    }
}

/// Rate-control mode requested from the backend.
#[derive(Clone, Copy, Debug, PartialEq, Eq, Structural)]
pub enum HardwareQuality {
    Auto,
    Constant,
    Variable,
    Constrained,
}

pub open spec fn spec_nvenc_rc_mode(q: HardwareQuality) -> Seq<char> {
    match q {
        HardwareQuality::Auto => "vbr"@,
        HardwareQuality::Constant => "constqp"@,
        HardwareQuality::Variable => "vbr"@,
        HardwareQuality::Constrained => "cbr"@,
    }
}

impl HardwareQuality {
    pub fn nvenc_rc_mode(&self) -> (r: &'static str)
        ensures
            r@ == spec_nvenc_rc_mode(*self),
    {
        match self {
            HardwareQuality::Auto => "vbr",
            HardwareQuality::Constant => "constqp",
            HardwareQuality::Variable => "vbr",
            HardwareQuality::Constrained => "cbr",
        }
    }
}

} // verus!
