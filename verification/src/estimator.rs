//! Size/bitrate estimator: converts a target output size and the video's
//! metadata into a target video bitrate, and estimates the resulting quality
//! and encoding time. Everything here is a pure numeric mapping.
//!
//! The bits budget implied by the target size is apportioned as follows: an
//! audio allowance scaled down for longer inputs (128 kbps up to five
//! minutes, 112 up to ten, 96 beyond), one percent container overhead, and
//! the rest for video, shaved by a two-percent safety margin and clamped to
//! a resolution-dependent floor.

use vstd::prelude::*;
use vstd::arithmetic::div_mod::{lemma_div_is_ordered, lemma_fundamental_div_mod};
use vstd::arithmetic::mul::{lemma_mul_inequality, lemma_mul_upper_bound};

use crate::encoders::{
    spec_encoder_index, spec_preset_time_percent, HardwareEncoder, ENCODER_COUNT,
};
use crate::settings::CompressionSettings;
use crate::size_presets::TargetSize;

verus! {

/// Content complexity classes; easier content looks better at the same
/// bitrate.
#[derive(Debug, Clone, Copy, PartialEq, Eq, Structural)]
pub enum ContentComplexity {
    Low,
    Medium,
    High,
}

/// What a probe reports about one input video. Frame rate is carried in
/// thousandths of a frame per second so that fractional rates stay exact.
#[derive(Debug, Clone)]
pub struct VideoMetadata {
    pub width: u32,
    pub height: u32,
    pub fps_millis: u32,
    pub duration_seconds: u32,
    pub bitrate_kbps: Option<u32>,
    pub codec: String,
    pub estimated_complexity: ContentComplexity,
}

impl VideoMetadata {
    /// Sane bounds on probed metadata: positive dimensions within what
    /// codecs support, a positive frame rate and duration.
    pub open spec fn wf(self) -> bool {
        &&& 1 <= self.width <= 16384
        &&& 1 <= self.height <= 16384
        &&& 1 <= self.fps_millis <= 1000000
        &&& 1 <= self.duration_seconds <= 100000000
    }

    /// Plain full-HD metadata, useful as a fixture.
    pub fn default_hd() -> (r: VideoMetadata)
        ensures
            r.wf(),
            r.width == 1920,
            r.height == 1080,
            r.fps_millis == 30000,
            r.duration_seconds == 60,
            r.bitrate_kbps == Some(5000u32),
            r.estimated_complexity == ContentComplexity::Medium,
    {
        VideoMetadata {
            width: 1920,
            height: 1080,
            fps_millis: 30000,
            duration_seconds: 60,
            bitrate_kbps: Some(5000),
            codec: String::from_str("h264"),
            estimated_complexity: ContentComplexity::Medium,
        }
    }

    pub open spec fn spec_pixel_count(self) -> int {
        self.width * self.height
    }

    pub fn pixel_count(&self) -> (r: u64)
        requires
            self.wf(),
        ensures
            r == self.spec_pixel_count(),
    {
        proof {
            lemma_mul_upper_bound(self.width as int, 16384, self.height as int, 16384);
        }
        (self.width as u64) * (self.height as u64)
    }

    /// Complexity suggested by the source bitrate: thousandths of a bit per
    /// pixel per frame, against fixed breakpoints.
    pub open spec fn spec_complexity_from_bitrate(self) -> ContentComplexity {
        match self.bitrate_kbps {
            Some(b) => {
                let bpp_milli = b * 1000 * 1000000 / (self.spec_pixel_count() * self.fps_millis);
                if bpp_milli > 200 {
                    ContentComplexity::High
                } else if bpp_milli > 100 {
                    ContentComplexity::Medium
                } else {
                    ContentComplexity::Low
                }
            },
            None => self.estimated_complexity,
        }
    }

    /// Re-derives the content complexity from the source bitrate, when one
    /// is known.
    pub fn estimate_complexity_from_bitrate(&mut self)
        requires
            old(self).wf(),
        ensures
            final(self).estimated_complexity == old(self).spec_complexity_from_bitrate(),
            final(self).width == old(self).width,
            final(self).height == old(self).height,
            final(self).fps_millis == old(self).fps_millis,
            final(self).duration_seconds == old(self).duration_seconds,
            final(self).bitrate_kbps == old(self).bitrate_kbps,
            final(self).codec == old(self).codec,
            final(self).wf(),
    {
        if let Some(bitrate) = self.bitrate_kbps {
            proof {
                lemma_mul_upper_bound(self.width as int, 16384, self.height as int, 16384);
            }
            let pixels = (self.width as u64) * (self.height as u64);
            proof {
                lemma_mul_upper_bound(pixels as int, (16384 * 16384) as int, self.fps_millis as int, 1000000);
                assert(pixels * self.fps_millis > 0) by (nonlinear_arith)
                    requires
                        self.width >= 1,
                        self.height >= 1,
                        self.fps_millis >= 1,
                        pixels == self.width * self.height,
                ;
            }
            let denom = pixels * (self.fps_millis as u64);
            let bpp_milli = (bitrate as u64) * 1000 * 1000000 / denom;
            self.estimated_complexity = if bpp_milli > 200 {
                ContentComplexity::High
            } else if bpp_milli > 100 {
                ContentComplexity::Medium
            } else {
                ContentComplexity::Low
            };
        }
    }

    pub fn is_high_resolution(&self) -> (r: bool)
        ensures
            r == (self.width >= 1920 && self.height >= 1080),
    {
        self.width >= 1920 && self.height >= 1080
    }

    pub fn is_high_framerate(&self) -> (r: bool)
        ensures
            r == (self.fps_millis >= 60000),
    {
        self.fps_millis >= 60000
    }
}

/// Audio allowance in kbps for a given duration: longer inputs cede audio
/// bits to video.
pub open spec fn spec_audio_kbps(duration_seconds: u32) -> u32 {
    if duration_seconds > 600 {
        96
    } else if duration_seconds > 300 {
        112
    } else {
        128
    }
}

pub fn audio_kbps_for_duration(duration_seconds: u32) -> (r: u32)
    ensures
        r == spec_audio_kbps(duration_seconds),
        96 <= r <= 128,
{
    if duration_seconds > 600 {
        96
    } else if duration_seconds > 300 {
        112
    } else {
        128
    }
}

/// Bitrate floor by horizontal resolution, below which quality collapses.
pub open spec fn spec_min_bitrate(width: u32) -> u32 {
    if width >= 1920 {
        300
    } else if width >= 1280 {
        200
    } else {
        150
    }
}

/// The target video bitrate in kbps for a target size: the bits budget
/// minus the audio allowance and one percent container overhead, spread
/// over the duration, with a two-percent safety margin and the resolution
/// floor applied (saturating at `u32::MAX`).
pub open spec fn spec_bitrate_for_target(meta: VideoMetadata, target_mb: u32) -> u32 {
    let total_bits = target_mb * 8 * 1024 * 1024;
    let audio_bits = spec_audio_kbps(meta.duration_seconds) * 1024 * meta.duration_seconds;
    let overhead = total_bits / 100;
    let avail = total_bits - audio_bits - overhead;
    let clamped = if avail < 0 {
        0
    } else {
        avail
    };
    let kbps = clamped / (meta.duration_seconds as int) / 1024;
    let safe = kbps * 98 / 100;
    let floored = if safe < spec_min_bitrate(meta.width) {
        spec_min_bitrate(meta.width) as int
    } else {
        safe
    };
    if floored > u32::MAX {
        u32::MAX
    } else {
        floored as u32
    }
}

/// Deterministic, side-effect-free mapping from a target size to the video
/// bitrate the encoder should be asked for. The result never falls below
/// the resolution-dependent floor.
pub fn bitrate_for_target(metadata: &VideoMetadata, target_mb: u32) -> (r: u32)
    requires
        metadata.wf(),
    ensures
        r == spec_bitrate_for_target(*metadata, target_mb),
        r >= spec_min_bitrate(metadata.width),
{
    let duration = metadata.duration_seconds as u64;
    let total_bits: u64 = (target_mb as u64) * 8 * 1024 * 1024;
    let audio_kbps = audio_kbps_for_duration(metadata.duration_seconds) as u64;
    proof {
        lemma_mul_upper_bound((audio_kbps * 1024) as int, 131072, duration as int, 100000000);
    }
    let audio_bits: u64 = audio_kbps * 1024 * duration;
    let overhead: u64 = total_bits / 100;
    let clamped: u64 = if total_bits > audio_bits + overhead {
        total_bits - audio_bits - overhead
    } else {
        0
    };
    let kbps: u64 = clamped / duration / 1024;
    let safe: u64 = kbps * 98 / 100;
    let min_bitrate: u32 = if metadata.width >= 1920 {
        300
    } else if metadata.width >= 1280 {
        200
    } else {
        150
    };
    let floored: u64 = if safe < min_bitrate as u64 {
        min_bitrate as u64
    } else {
        safe
    };
    if floored > u32::MAX as u64 {
        u32::MAX
    } else {
        floored as u32
    }
}

/// Subtracting a one-percent share keeps order: the net budget grows with
/// the gross one.
proof fn lemma_minus_hundredth_monotonic(a: int, b: int)
    requires
        0 <= a <= b,
    ensures
        a - a / 100 <= b - b / 100,
{
    lemma_fundamental_div_mod(a, 100);
    lemma_fundamental_div_mod(b, 100);
}

/// The computed bitrate never decreases when the target size grows, for
/// fixed metadata.
pub proof fn lemma_bitrate_monotonic(meta: VideoMetadata, t1: u32, t2: u32)
    requires
        meta.wf(),
        t1 <= t2,
    ensures
        spec_bitrate_for_target(meta, t1) <= spec_bitrate_for_target(meta, t2),
{
    let d = meta.duration_seconds as int;
    let audio_bits = spec_audio_kbps(meta.duration_seconds) * 1024 * meta.duration_seconds;
    let total1 = t1 * 8 * 1024 * 1024;
    let total2 = t2 * 8 * 1024 * 1024;
    assert(total1 <= total2) by {
        lemma_mul_inequality(t1 as int, t2 as int, (8 * 1024 * 1024) as int);
    }
    lemma_minus_hundredth_monotonic(total1, total2);
    let avail1 = total1 - audio_bits - total1 / 100;
    let avail2 = total2 - audio_bits - total2 / 100;
    assert(avail1 <= avail2);
    let c1 = if avail1 < 0 {
        0
    } else {
        avail1
    };
    let c2 = if avail2 < 0 {
        0
    } else {
        avail2
    };
    assert(c1 <= c2);
    lemma_div_is_ordered(c1, c2, d);
    lemma_div_is_ordered(c1 / d, c2 / d, 1024);
    let k1 = c1 / d / 1024;
    let k2 = c2 / d / 1024;
    assert(k1 * 98 <= k2 * 98) by {
        lemma_mul_inequality(k1, k2, 98);
    }
    lemma_div_is_ordered(k1 * 98, k2 * 98, 100);
}

/// Base quality score in hundredths from thousandths of a bit per pixel
/// per frame, through fixed breakpoints.
pub open spec fn spec_base_quality(bpp_milli: int) -> u32 {
    if bpp_milli >= 200 {
        95
    } else if bpp_milli >= 150 {
        85
    } else if bpp_milli >= 100 {
        75
    } else if bpp_milli >= 70 {
        60
    } else if bpp_milli >= 40 {
        45
    } else {
        25
    }
}

/// Quality score in hundredths (0 to 100) expected at a bitrate: the base
/// breakpoint score adjusted by content complexity and capped at 1.0.
pub open spec fn spec_quality_score(meta: VideoMetadata, bitrate_kbps: u32) -> u32 {
    let bpp_milli = bitrate_kbps * 1024 * 1000000 / (meta.spec_pixel_count() * meta.fps_millis);
    let base = spec_base_quality(bpp_milli);
    let adjusted = match meta.estimated_complexity {
        ContentComplexity::Low => base * 110 / 100,
        ContentComplexity::Medium => base as int,
        ContentComplexity::High => base * 90 / 100,
    };
    if adjusted > 100 {
        100
    } else {
        adjusted as u32
    }
}

/// Expected visual quality at a bitrate, in hundredths of the 0-to-1 scale.
pub fn quality_score(metadata: &VideoMetadata, bitrate_kbps: u32) -> (r: u32)
    requires
        metadata.wf(),
    ensures
        r == spec_quality_score(*metadata, bitrate_kbps),
        r <= 104,
{
    proof {
        lemma_mul_upper_bound(metadata.width as int, 16384, metadata.height as int, 16384);
    }
    let pixels = (metadata.width as u64) * (metadata.height as u64);
    proof {
        lemma_mul_upper_bound(pixels as int, (16384 * 16384) as int, metadata.fps_millis as int, 1000000);
        assert(pixels * metadata.fps_millis > 0) by (nonlinear_arith)
            requires
                metadata.width >= 1,
                metadata.height >= 1,
                metadata.fps_millis >= 1,
                pixels == metadata.width * metadata.height,
        ;
    }
    let denom = pixels * (metadata.fps_millis as u64);
    let bpp_milli = (bitrate_kbps as u64) * 1024 * 1000000 / denom;
    let base: u32 = if bpp_milli >= 200 {
        95
    } else if bpp_milli >= 150 {
        85
    } else if bpp_milli >= 100 {
        75
    } else if bpp_milli >= 70 {
        60
    } else if bpp_milli >= 40 {
        45
    } else {
        25
    };
    let adjusted: u32 = match metadata.estimated_complexity {
        ContentComplexity::Low => base * 110 / 100,
        ContentComplexity::Medium => base,
        ContentComplexity::High => base * 90 / 100,
    };
    if adjusted > 100 {
        100
    } else {
        adjusted
    }
}

/// Wall-clock encoding time estimate in milliseconds: software encoding is
/// assumed to run at a fifth of real time; hardware backends divide that by
/// a fixed per-vendor speedup, and the preset scales it further.
pub open spec fn spec_encoding_time_ms(meta: VideoMetadata, settings: CompressionSettings) -> int {
    let base_ms = meta.duration_seconds * 200;
    let speedup: int = if settings.enable_hardware_accel {
        match settings.hardware_encoder {
            HardwareEncoder::NvencH264 | HardwareEncoder::NvencH265 => 8,
            HardwareEncoder::NvencAV1 => 6,
            HardwareEncoder::AmfH264 | HardwareEncoder::AmfH265 => 5,
            HardwareEncoder::QsvH264 | HardwareEncoder::QsvH265 => 6,
            HardwareEncoder::VideoToolbox => 4,
            HardwareEncoder::Vaapi => 3,
            _ => 1,
        }
    } else {
        1
    };
    base_ms / speedup * spec_preset_time_percent(settings.hardware_preset) / 100
}

pub fn encoding_time_estimate(metadata: &VideoMetadata, settings: &CompressionSettings) -> (r:
    u64)
    requires
        metadata.wf(),
    ensures
        r == spec_encoding_time_ms(*metadata, *settings),
{
    let base_ms: u64 = (metadata.duration_seconds as u64) * 200;
    let speedup: u64 = if settings.enable_hardware_accel {
        match settings.hardware_encoder {
            HardwareEncoder::NvencH264 | HardwareEncoder::NvencH265 => 8,
            HardwareEncoder::NvencAV1 => 6,
            HardwareEncoder::AmfH264 | HardwareEncoder::AmfH265 => 5,
            HardwareEncoder::QsvH264 | HardwareEncoder::QsvH265 => 6,
            HardwareEncoder::VideoToolbox => 4,
            HardwareEncoder::Vaapi => 3,
            _ => 1,
        }
    } else {
        1
    };
    let preset_pct = settings.hardware_preset.time_multiplier_percent() as u64;
    proof {
        lemma_mul_upper_bound((base_ms / speedup) as int, 0x5000000000, preset_pct as int, 250);
    }
    base_ms / speedup * preset_pct / 100
}

/// What the estimator expects of one compression run.
#[derive(Debug, Clone)]
pub struct SizeEstimation {
    pub estimated_size_mb: u32,
    /// Confidence in hundredths of the 0-to-1 scale.
    pub confidence_hundredths: u32,
    pub encoding_time_ms: u64,
    /// Quality in hundredths of the 0-to-1 scale.
    pub quality_score_hundredths: u32,
    pub recommended_bitrate_kbps: Option<u32>,
}

/// A bitrate recommendation for a specific encoder.
#[derive(Debug, Clone)]
pub struct BitrateRecommendation {
    pub recommended_bitrate_kbps: u32,
    pub estimated_quality_hundredths: u32,
    pub size_achievable_mb: u32,
    pub confidence_hundredths: u32,
}

/// Compression efficiency of each backend relative to the software
/// encoder, in hundredths (hardware encoders trade some efficiency for
/// speed; the newer codecs are denser).
pub open spec fn spec_encoder_efficiency(e: HardwareEncoder) -> u32 {
    match e {
        HardwareEncoder::NvencH264 => 85,
        HardwareEncoder::NvencH265 => 90,
        HardwareEncoder::NvencAV1 => 95,
        HardwareEncoder::AmfH264 => 80,
        HardwareEncoder::AmfH265 => 85,
        HardwareEncoder::QsvH264 => 82,
        HardwareEncoder::QsvH265 => 87,
        HardwareEncoder::QsvAV1 => 92,
        HardwareEncoder::Vaapi => 80,
        HardwareEncoder::VideoToolbox => 83,
        HardwareEncoder::Software => 100,
    }
}

/// Pure estimator: holds the per-encoder efficiency table.
#[derive(Debug, Clone)]
pub struct SizeEstimator {
    /// Efficiency in hundredths, keyed by `encoder_index`.
    pub encoder_efficiency_hundredths: Vec<u32>,
}

impl SizeEstimator {
    pub open spec fn wf(self) -> bool {
        &&& self.encoder_efficiency_hundredths@.len() == ENCODER_COUNT
        &&& forall|e: HardwareEncoder|
            self.encoder_efficiency_hundredths@[spec_encoder_index(e)] == spec_encoder_efficiency(
                e,
            )
    }

    pub fn new() -> (r: SizeEstimator)
        ensures
            r.wf(),
    {
        let mut t: Vec<u32> = Vec::new();
        t.push(85);
        t.push(90);
        t.push(95);
        t.push(80);
        t.push(85);
        t.push(82);
        t.push(87);
        t.push(92);
        t.push(80);
        t.push(83);
        t.push(100);
        let r = SizeEstimator { encoder_efficiency_hundredths: t };
        proof {
            assert forall|e: HardwareEncoder|
                r.encoder_efficiency_hundredths@[spec_encoder_index(e)]
                    == spec_encoder_efficiency(e) by {
                crate::encoders::lemma_encoder_index_bijective(e);
            }
        }
        r
    }

    /// Efficiency multiplier of an encoder, in hundredths.
    pub fn get_encoder_efficiency(&self, encoder: &HardwareEncoder) -> (r: u32)
        requires
            self.wf(),
        ensures
            r == spec_encoder_efficiency(*encoder),
            1 <= r <= 100,
    {
        let idx = crate::encoders::encoder_index(encoder);
        proof {
            assert(self.encoder_efficiency_hundredths@[spec_encoder_index(*encoder)]
                == spec_encoder_efficiency(*encoder));
        }
        self.encoder_efficiency_hundredths[idx]
    }

    /// Estimates the outcome of compressing to the settings' target size:
    /// the optimal bitrate, the quality it buys, and the encoding time.
    pub fn estimate_size(
        &self,
        metadata: &VideoMetadata,
        settings: &CompressionSettings,
    ) -> (r: SizeEstimation)
        requires
            self.wf(),
            metadata.wf(),
        ensures
            r.estimated_size_mb == crate::size_presets::spec_target_mb(settings.target_size),
            r.confidence_hundredths == 90,
            r.encoding_time_ms == spec_encoding_time_ms(*metadata, *settings),
            r.recommended_bitrate_kbps == Some(
                spec_bitrate_for_target(
                    *metadata,
                    crate::size_presets::spec_target_mb(settings.target_size),
                ),
            ),
            r.quality_score_hundredths == spec_quality_score(
                *metadata,
                spec_bitrate_for_target(
                    *metadata,
                    crate::size_presets::spec_target_mb(settings.target_size),
                ),
            ),
    {
        let target_mb = settings.target_size.as_mb();
        let optimal_bitrate = bitrate_for_target(metadata, target_mb);
        let encoding_time_ms = encoding_time_estimate(metadata, settings);
        let quality = quality_score(metadata, optimal_bitrate);
        SizeEstimation {
            estimated_size_mb: target_mb,
            confidence_hundredths: 90,
            encoding_time_ms,
            quality_score_hundredths: quality,
            recommended_bitrate_kbps: Some(optimal_bitrate),
        }
    }

    /// Recommends a bitrate for a target size on a specific encoder: the
    /// optimal bitrate scaled by the encoder's efficiency.
    pub fn recommend_bitrate_for_size(
        &self,
        metadata: &VideoMetadata,
        target_size: TargetSize,
        encoder: &HardwareEncoder,
    ) -> (r: BitrateRecommendation)
        requires
            self.wf(),
            metadata.wf(),
        ensures
            r.recommended_bitrate_kbps == spec_bitrate_for_target(
                *metadata,
                crate::size_presets::spec_target_mb(target_size),
            ) * spec_encoder_efficiency(*encoder) / 100,
            r.estimated_quality_hundredths == spec_quality_score(
                *metadata,
                r.recommended_bitrate_kbps,
            ),
            r.size_achievable_mb == crate::size_presets::spec_target_mb(target_size),
            r.confidence_hundredths == 90,
    {
        let target_mb = target_size.as_mb();
        let optimal_bitrate = bitrate_for_target(metadata, target_mb);
        let efficiency = self.get_encoder_efficiency(encoder) as u64;
        proof {
            lemma_mul_upper_bound(optimal_bitrate as int, u32::MAX as int, efficiency as int, 100);
            lemma_div_is_ordered((optimal_bitrate * efficiency) as int, u32::MAX * 100, 100);
        }
        let adjusted_bitrate = ((optimal_bitrate as u64) * efficiency / 100) as u32;
        let quality = quality_score(metadata, adjusted_bitrate);
        BitrateRecommendation {
            recommended_bitrate_kbps: adjusted_bitrate,
            estimated_quality_hundredths: quality,
            size_achievable_mb: target_mb,
            confidence_hundredths: 90,
        }
    }
}

} // verus!

