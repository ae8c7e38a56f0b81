use small_mp4::capabilities::HardwareCapabilities;
use small_mp4::encoders::HardwareEncoder;
use small_mp4::fallback::{
    analyze_error_for_recovery, apply_recovery_strategy, create_fallback_chain, FallbackSystem,
    RecoveryStrategy,
};

fn caps_with(cuda: Vec<HardwareEncoder>, intel: Vec<HardwareEncoder>) -> HardwareCapabilities {
    HardwareCapabilities::from_probes(Vec::new(), cuda, Vec::new(), intel, Vec::new())
}

// Three straight failures blacklist an encoder; one success clears it.
#[test]
fn test_failure_threshold_and_reset() {
    let caps = HardwareCapabilities::software_only();
    let mut fs = FallbackSystem::new(&caps);
    let e = HardwareEncoder::NvencH264;
    assert!(fs.is_encoder_usable(&e));
    fs.record_failure(&e, "encoder crashed");
    fs.record_failure(&e, "encoder crashed");
    assert!(fs.is_encoder_usable(&e));
    fs.record_failure(&e, "encoder crashed");
    assert!(!fs.is_encoder_usable(&e));
    fs.record_success(&e);
    assert!(fs.is_encoder_usable(&e));
}

// A usable preferred encoder is returned unchanged, whatever the chain.
#[test]
fn test_next_encoder_keeps_usable_preferred() {
    let caps = caps_with(
        vec![HardwareEncoder::NvencH264, HardwareEncoder::NvencH265],
        vec![HardwareEncoder::QsvH264],
    );
    let fs = FallbackSystem::new(&caps);
    assert_eq!(
        fs.get_next_encoder(&HardwareEncoder::QsvH264),
        HardwareEncoder::QsvH264
    );
    assert_eq!(
        fs.get_next_encoder(&HardwareEncoder::NvencH265),
        HardwareEncoder::NvencH265
    );
}

#[test]
fn test_next_encoder_walks_chain_after_blacklist() {
    let caps = caps_with(vec![HardwareEncoder::NvencH264], vec![HardwareEncoder::QsvH264]);
    let mut fs = FallbackSystem::new(&caps);
    for _ in 0..3 {
        fs.record_failure(&HardwareEncoder::NvencH264, "boom");
    }
    // The chain tries the remaining hardware encoder before software.
    assert_eq!(
        fs.get_next_encoder(&HardwareEncoder::NvencH264),
        HardwareEncoder::QsvH264
    );
    for _ in 0..3 {
        fs.record_failure(&HardwareEncoder::QsvH264, "boom");
    }
    assert_eq!(
        fs.get_next_encoder(&HardwareEncoder::NvencH264),
        HardwareEncoder::Software
    );
}

// An NVENC backend failing with device trouble yields a vendor-avoidance
// strategy, is steered to another vendor for the same codec, and the chain
// walk then avoids NVIDIA.
#[test]
fn test_cuda_device_unavailable_prefers_other_vendor() {
    let caps = caps_with(vec![HardwareEncoder::NvencH264], vec![HardwareEncoder::QsvH264]);
    let mut fs = FallbackSystem::new(&caps);
    let error = "cuda device unavailable";
    assert_eq!(analyze_error_for_recovery(error), RecoveryStrategy::AvoidNvidia);
    for _ in 0..3 {
        fs.record_failure(&HardwareEncoder::NvencH264, error);
    }
    assert_eq!(
        fs.get_error_specific_fallback(&HardwareEncoder::NvencH264, error),
        Some(HardwareEncoder::QsvH264)
    );
    let next = fs.get_next_encoder(&HardwareEncoder::NvencH264);
    assert_eq!(next, HardwareEncoder::QsvH264);
    assert_ne!(next.vendor(), "NVIDIA");
}

// A blacklisted backend never hands the retry to its own vendor's sibling:
// with only NVENC encoders left, the walk falls through to software even
// though the sibling is still usable.
#[test]
fn test_next_encoder_skips_failing_vendors_siblings() {
    let caps = caps_with(
        vec![HardwareEncoder::NvencH264, HardwareEncoder::NvencH265],
        Vec::new(),
    );
    let mut fs = FallbackSystem::new(&caps);
    for _ in 0..3 {
        fs.record_failure(&HardwareEncoder::NvencH264, "cuda device unavailable");
    }
    assert!(fs.is_encoder_usable(&HardwareEncoder::NvencH265));
    let next = fs.get_next_encoder(&HardwareEncoder::NvencH264);
    assert_eq!(next, HardwareEncoder::Software);
    assert_ne!(next.vendor(), "NVIDIA");
}

#[test]
fn test_cuda_error_falls_to_software_without_alternatives() {
    let caps = caps_with(vec![HardwareEncoder::NvencH264], Vec::new());
    let mut fs = FallbackSystem::new(&caps);
    for _ in 0..3 {
        fs.record_failure(&HardwareEncoder::NvencH264, "cuda device unavailable");
    }
    // No other vendor offers the codec, so no specific recommendation.
    assert_eq!(
        fs.get_error_specific_fallback(&HardwareEncoder::NvencH264, "cuda device unavailable"),
        None
    );
    assert_eq!(
        fs.get_next_encoder(&HardwareEncoder::NvencH264),
        HardwareEncoder::Software
    );
}

#[test]
fn test_memory_errors_recommend_software() {
    let caps = HardwareCapabilities::software_only();
    let fs = FallbackSystem::new(&caps);
    assert_eq!(
        fs.get_error_specific_fallback(&HardwareEncoder::Software, "Out Of MEMORY"),
        Some(HardwareEncoder::Software)
    );
}

#[test]
fn test_error_classification_priority() {
    assert_eq!(
        analyze_error_for_recovery("process ran out of memory"),
        RecoveryStrategy::ReduceMemoryUsage
    );
    assert_eq!(
        analyze_error_for_recovery("cuda device unavailable"),
        RecoveryStrategy::AvoidNvidia
    );
    assert_eq!(
        analyze_error_for_recovery("no such device available"),
        RecoveryStrategy::ChangeDevice
    );
    assert_eq!(
        analyze_error_for_recovery("driver initialization went wrong"),
        RecoveryStrategy::FallbackToSoftware
    );
    assert_eq!(
        analyze_error_for_recovery("unsupported codec profile"),
        RecoveryStrategy::ChangeEncoder
    );
    assert_eq!(analyze_error_for_recovery("NVENC session limit"), RecoveryStrategy::AvoidNvidia);
    assert_eq!(analyze_error_for_recovery("AMF init error"), RecoveryStrategy::AvoidAmd);
    assert_eq!(analyze_error_for_recovery("QSV session failed"), RecoveryStrategy::AvoidIntel);
    assert_eq!(analyze_error_for_recovery("something else"), RecoveryStrategy::TryAlternative);
}

#[test]
fn test_apply_recovery_strategy() {
    let caps = caps_with(vec![HardwareEncoder::NvencH264], vec![HardwareEncoder::QsvH264]);
    assert_eq!(
        apply_recovery_strategy(
            &RecoveryStrategy::AvoidNvidia,
            &HardwareEncoder::NvencH264,
            &caps
        ),
        Ok(HardwareEncoder::QsvH264)
    );
    assert_eq!(
        apply_recovery_strategy(
            &RecoveryStrategy::FallbackToSoftware,
            &HardwareEncoder::NvencH264,
            &caps
        ),
        Ok(HardwareEncoder::Software)
    );
    assert_eq!(
        apply_recovery_strategy(
            &RecoveryStrategy::ChangeEncoder,
            &HardwareEncoder::NvencH265,
            &caps
        ),
        Ok(HardwareEncoder::NvencH264)
    );
    assert!(
        apply_recovery_strategy(
            &RecoveryStrategy::ChangeDevice,
            &HardwareEncoder::NvencH264,
            &caps
        )
        .is_err()
    );
}

#[test]
fn test_fallback_chain_order_and_members() {
    let available = vec![
        HardwareEncoder::QsvH264,
        HardwareEncoder::NvencH264,
        HardwareEncoder::Software,
    ];
    let chain = create_fallback_chain(&available);
    assert_eq!(
        chain,
        vec![
            HardwareEncoder::NvencH264,
            HardwareEncoder::QsvH264,
            HardwareEncoder::Software,
        ]
    );
}

#[test]
fn test_has_usable_hardware_encoders() {
    let caps = caps_with(vec![HardwareEncoder::NvencH264], Vec::new());
    let mut fs = FallbackSystem::new(&caps);
    assert!(fs.has_usable_hardware_encoders());
    for _ in 0..3 {
        fs.record_failure(&HardwareEncoder::NvencH264, "boom");
    }
    assert!(!fs.has_usable_hardware_encoders());
    fs.reset_failures();
    assert!(fs.has_usable_hardware_encoders());
}

#[test]
fn test_strategy_descriptions() {
    assert_eq!(
        RecoveryStrategy::ReduceMemoryUsage.description(),
        "Reduce memory usage and try again"
    );
    assert_eq!(RecoveryStrategy::FallbackToSoftware.description(), "Use software encoding");
}
