use small_mp4::capabilities::HardwareCapabilities;
use small_mp4::cli::{
    CompressionCliSettings, HardwareEncoderCli, HardwarePresetCli, HardwareQualityCli, Language,
    SizePreset,
};
use small_mp4::encoders::{HardwareEncoder, HardwarePreset, HardwareQuality};
use small_mp4::settings::CompressionSettings;
use small_mp4::size_presets::TargetSize;

#[test]
fn test_target_sizes() {
    assert_eq!(TargetSize::Size1MB.as_mb(), 1);
    assert_eq!(TargetSize::Size5MB.as_mb(), 5);
    assert_eq!(TargetSize::Size10MB.as_mb(), 10);
    assert_eq!(TargetSize::Size30MB.as_mb(), 30);
    assert_eq!(TargetSize::Size50MB.as_mb(), 50);
}

#[test]
fn test_compression_settings_default() {
    let settings = CompressionSettings::default();
    assert_eq!(settings.target_size, TargetSize::Size10MB);
    assert!(settings.enable_hardware_accel);
    assert_eq!(settings.hardware_encoder, HardwareEncoder::Software);
    assert_eq!(settings.hardware_preset, HardwarePreset::Medium);
    assert!(!settings.memory_optimization);
    assert!(settings.compatibility_mode);
}

#[test]
fn test_hardware_capabilities_software_only() {
    let hw_caps = HardwareCapabilities::software_only();
    assert_eq!(hw_caps.available_encoders.len(), 1);
    assert_eq!(hw_caps.available_encoders[0], HardwareEncoder::Software);
}

#[test]
fn test_target_size_round_trip_through_index() {
    for (i, t) in [
        TargetSize::Size1MB,
        TargetSize::Size5MB,
        TargetSize::Size10MB,
        TargetSize::Size30MB,
        TargetSize::Size50MB,
        TargetSize::Size100MB,
        TargetSize::Size250MB,
        TargetSize::Size500MB,
        TargetSize::Size1000MB,
    ]
    .iter()
    .enumerate()
    {
        assert_eq!(t.to_index(), i);
        assert_eq!(TargetSize::from_index(i), Some(*t));
    }
    assert_eq!(TargetSize::from_index(9), None);
}

#[test]
fn test_target_size_from_mb_bands() {
    assert_eq!(TargetSize::from_mb(0), TargetSize::Size1MB);
    assert_eq!(TargetSize::from_mb(8), TargetSize::Size10MB);
    assert_eq!(TargetSize::from_mb(20), TargetSize::Size10MB);
    assert_eq!(TargetSize::from_mb(21), TargetSize::Size30MB);
    assert_eq!(TargetSize::from_mb(751), TargetSize::Size1000MB);
}

#[test]
fn test_capabilities_from_probes() {
    let caps = HardwareCapabilities::from_probes(
        Vec::new(),
        vec![HardwareEncoder::NvencH264, HardwareEncoder::NvencH265, HardwareEncoder::NvencH264],
        Vec::new(),
        vec![HardwareEncoder::QsvH264],
        Vec::new(),
    );
    // Deduplicated, catalog order, software appended.
    assert_eq!(
        caps.available_encoders,
        vec![
            HardwareEncoder::NvencH264,
            HardwareEncoder::NvencH265,
            HardwareEncoder::QsvH264,
            HardwareEncoder::Software,
        ]
    );
    // The preferred encoder is the first hit of the fixed priority order.
    assert_eq!(caps.preferred_encoder, Some(HardwareEncoder::NvencH265));
}

#[test]
fn test_speed_improvement_defaults() {
    let caps = HardwareCapabilities::software_only();
    assert_eq!(caps.speed_improvement(&HardwareEncoder::Software), 10);
    assert_eq!(caps.speed_improvement(&HardwareEncoder::NvencH264), 80);
    assert_eq!(caps.speed_improvement(&HardwareEncoder::Vaapi), 40);
}

#[test]
fn test_cli_encoder_mapping() {
    assert_eq!(
        HardwareEncoderCli::NvencH264.to_hardware_encoder(),
        HardwareEncoder::NvencH264
    );
    assert_eq!(HardwareEncoderCli::QsvAv1.to_hardware_encoder(), HardwareEncoder::QsvAV1);
    assert_eq!(HardwareEncoderCli::Auto.to_hardware_encoder(), HardwareEncoder::Software);
    assert_eq!(HardwarePresetCli::UltraFast.to_hardware_preset(), HardwarePreset::UltraFast);
    assert_eq!(HardwareQualityCli::Constant.to_hardware_quality(), HardwareQuality::Constant);
}

#[test]
fn test_settings_from_cli_prefers_available_encoder() {
    let caps = HardwareCapabilities::from_probes(
        Vec::new(),
        vec![HardwareEncoder::NvencH264],
        Vec::new(),
        Vec::new(),
        Vec::new(),
    );
    let cli = CompressionCliSettings {
        size: SizePreset::Size10MB,
        hw_encoder: Some(HardwareEncoderCli::QsvH264),
        hw_preset: HardwarePresetCli::Medium,
        hw_quality: HardwareQualityCli::Auto,
        cuda_device: None,
        force_software: false,
        memory_opt: false,
        compatibility: false,
        lang: Language::English,
    };
    let settings = CompressionSettings::from_cli_settings(&cli, &caps);
    // The requested backend is absent, so the preferred one takes over.
    assert_eq!(settings.hardware_encoder, HardwareEncoder::NvencH264);
    assert!(settings.enable_hardware_accel);
    assert_eq!(settings.target_size, TargetSize::Size10MB);

    let forced = CompressionCliSettings { force_software: true, hw_encoder: None, ..cli };
    let settings = CompressionSettings::from_cli_settings(&forced, &caps);
    assert_eq!(settings.hardware_encoder, HardwareEncoder::Software);
    assert!(!settings.enable_hardware_accel);
}

#[test]
fn test_encoder_metadata() {
    assert_eq!(HardwareEncoder::NvencH264.vendor(), "NVIDIA");
    assert_eq!(HardwareEncoder::Software.vendor(), "Software");
    assert_eq!(HardwareEncoder::QsvH265.codec_name(), "hevc_qsv");
    assert_eq!(HardwareEncoder::Software.codec_name(), "libx264");
    assert!(HardwareEncoder::Vaapi.is_hardware_accelerated());
    assert!(!HardwareEncoder::Software.is_hardware_accelerated());
    assert_eq!(HardwareEncoder::VideoToolbox.display_name(), "VideoToolbox (macOS)");
    assert_eq!(HardwarePreset::Highest.software_preset(), "veryslow");
    assert_eq!(HardwarePreset::Highest.nvenc_preset(), "p7");
    assert_eq!(HardwareQuality::Constrained.nvenc_rc_mode(), "cbr");
    assert_eq!(TargetSize::Size10MB.display_name(), "10 MB - Compact");
    assert_eq!(TargetSize::Size1MB.use_case(), "Social media, messaging");
}
