use small_mp4::encoders::{HardwareEncoder, HardwarePreset};
use small_mp4::estimator::{
    bitrate_for_target, encoding_time_estimate, quality_score, ContentComplexity, SizeEstimator,
    VideoMetadata,
};
use small_mp4::metadata::parse_fraction;
use small_mp4::settings::CompressionSettings;
use small_mp4::size_presets::TargetSize;

fn hd_metadata() -> VideoMetadata {
    VideoMetadata::default_hd()
}

// Full HD at 30 fps for one minute, squeezed to ten megabytes: the budget
// loses a 128 kbps audio allowance and one percent container overhead, and
// the result sits between the 1080p floor and the unconstrained budget.
#[test]
fn test_bitrate_for_hd_ten_megabytes() {
    let meta = hd_metadata();
    let bitrate = bitrate_for_target(&meta, 10);
    assert_eq!(bitrate, 1198);
    assert!(bitrate >= 300);
    let unconstrained = 10 * 8 * 1024 * 1024 / 60 / 1024;
    assert!((bitrate as u64) <= unconstrained);
}

#[test]
fn test_bitrate_floor_applies_on_tiny_targets() {
    let meta = hd_metadata();
    // One megabyte over a minute cannot even pay for audio: the floor wins.
    assert_eq!(bitrate_for_target(&meta, 1), 300);
    let mut smaller = hd_metadata();
    smaller.width = 1280;
    assert!(bitrate_for_target(&smaller, 1) == 200);
    smaller.width = 640;
    assert!(bitrate_for_target(&smaller, 1) == 150);
}

#[test]
fn test_bitrate_monotonic_in_target() {
    let meta = hd_metadata();
    let mut prev = 0u32;
    for target in [1u32, 5, 10, 11, 30, 50, 100, 250, 500, 1000] {
        let b = bitrate_for_target(&meta, target);
        assert!(b >= prev);
        prev = b;
    }
}

#[test]
fn test_audio_allowance_shrinks_for_long_videos() {
    let mut meta = hd_metadata();
    meta.duration_seconds = 200;
    let short = bitrate_for_target(&meta, 100);
    meta.duration_seconds = 400;
    let medium = bitrate_for_target(&meta, 100);
    meta.duration_seconds = 700;
    let long = bitrate_for_target(&meta, 100);
    // Longer durations spread the same bits thinner.
    assert!(short > medium && medium > long);
}

#[test]
fn test_quality_score_breakpoints() {
    let meta = hd_metadata();
    // 1198 kbps over full HD at 30 fps is under the lowest breakpoint.
    assert_eq!(quality_score(&meta, 1198), 25);
    // A generous bitrate reaches the top score.
    assert_eq!(quality_score(&meta, 15000), 95);
    let mut easy = hd_metadata();
    easy.estimated_complexity = ContentComplexity::Low;
    // The low-complexity bonus caps at 1.0.
    assert_eq!(quality_score(&easy, 15000), 100);
    let mut hard = hd_metadata();
    hard.estimated_complexity = ContentComplexity::High;
    assert_eq!(quality_score(&hard, 15000), 85);
}

#[test]
fn test_encoding_time_estimate() {
    let meta = hd_metadata();
    let mut settings = CompressionSettings::default();
    // Software encoding at a fifth of real time: 60 s of video takes 12 s.
    assert_eq!(encoding_time_estimate(&meta, &settings), 12000);
    settings.hardware_encoder = HardwareEncoder::NvencH264;
    settings.enable_hardware_accel = true;
    assert_eq!(encoding_time_estimate(&meta, &settings), 1500);
    settings.hardware_preset = HardwarePreset::Highest;
    assert_eq!(encoding_time_estimate(&meta, &settings), 3750);
}

#[test]
fn test_estimate_size_reports_target_and_bitrate() {
    let estimator = SizeEstimator::new();
    let meta = hd_metadata();
    let settings = CompressionSettings::default();
    let estimation = estimator.estimate_size(&meta, &settings);
    assert_eq!(estimation.estimated_size_mb, 10);
    assert_eq!(estimation.recommended_bitrate_kbps, Some(1198));
    assert_eq!(estimation.confidence_hundredths, 90);
    assert_eq!(estimation.encoding_time_ms, 12000);
}

#[test]
fn test_recommend_bitrate_applies_encoder_efficiency() {
    let estimator = SizeEstimator::new();
    let meta = hd_metadata();
    let rec = estimator.recommend_bitrate_for_size(
        &meta,
        TargetSize::Size10MB,
        &HardwareEncoder::NvencH265,
    );
    // 1198 kbps scaled by the 0.90 efficiency of this backend.
    assert_eq!(rec.recommended_bitrate_kbps, 1198 * 90 / 100);
    assert_eq!(rec.size_achievable_mb, 10);
}

#[test]
fn test_parse_fraction() {
    assert_eq!(parse_fraction("30/1"), Some(30000));
    assert_eq!(parse_fraction("25/1"), Some(25000));
    assert_eq!(parse_fraction("30000/1001"), Some(29970));
    assert_eq!(parse_fraction("24000/1001"), Some(23976));
    assert_eq!(parse_fraction("invalid"), None);
    assert_eq!(parse_fraction("30/0"), None);
}

#[test]
fn test_complexity_from_bitrate() {
    let mut meta = hd_metadata();
    // Five megabits over full HD at 30 fps is modest: low complexity.
    meta.estimate_complexity_from_bitrate();
    assert_eq!(meta.estimated_complexity, ContentComplexity::Low);
    meta.bitrate_kbps = Some(50000);
    meta.estimate_complexity_from_bitrate();
    assert_eq!(meta.estimated_complexity, ContentComplexity::High);
    meta.bitrate_kbps = Some(10000);
    meta.estimate_complexity_from_bitrate();
    assert_eq!(meta.estimated_complexity, ContentComplexity::Medium);
}
