use small_mp4::capabilities::HardwareCapabilities;
use small_mp4::encoders::HardwareEncoder;
use small_mp4::engine::{
    AttemptOutcome, CompressionEngine, CompressionRequest, EngineStep,
};
use small_mp4::error::CompressionError;
use small_mp4::estimator::VideoMetadata;
use small_mp4::settings::CompressionSettings;

fn engine_and_request() -> (CompressionEngine, CompressionRequest) {
    let caps = HardwareCapabilities::software_only();
    let engine = CompressionEngine::new(caps);
    let request = engine.begin_request(
        "clip.mov".to_string(),
        "clip_compressed.mp4".to_string(),
        10_000_000,
        CompressionSettings::default(),
    );
    (engine, request)
}

// Three consecutive failures end the request with a terminal error citing
// exactly three attempts and the last error text; nothing claims success.
#[test]
fn test_three_failures_report_terminal_error() {
    let (mut engine, mut request) = engine_and_request();
    let first = engine.record_attempt(
        &mut request,
        AttemptOutcome::Failed { error: "first".to_string() },
    );
    assert!(matches!(first, EngineStep::Retry { .. }));
    let second = engine.record_attempt(
        &mut request,
        AttemptOutcome::Failed { error: "second".to_string() },
    );
    assert!(matches!(second, EngineStep::Retry { .. }));
    let third = engine.record_attempt(
        &mut request,
        AttemptOutcome::Failed { error: "device exploded".to_string() },
    );
    match third {
        EngineStep::Failed { error } => match error {
            CompressionError::ExhaustedAttempts { attempts, last_error } => {
                assert_eq!(attempts, 3);
                assert_eq!(last_error, "device exploded");
                let rebuilt = CompressionError::ExhaustedAttempts { attempts, last_error };
                assert_eq!(
                    rebuilt.message(),
                    "Compression failed after 3 attempts. Last error: device exploded"
                );
            },
            other => panic!("wrong error variant: {:?}", other),
        },
        _ => panic!("expected a terminal failure"),
    }
    assert_eq!(request.attempts, 3);
}

#[test]
fn test_success_closes_request_with_ratio() {
    let (mut engine, mut request) = engine_and_request();
    let step = engine.record_attempt(
        &mut request,
        AttemptOutcome::Succeeded { output_size_bytes: 2_000_000, encoding_time_ms: 1234 },
    );
    match step {
        EngineStep::Done { result } => {
            assert_eq!(result.input_size_bytes, 10_000_000);
            assert_eq!(result.output_size_bytes, 2_000_000);
            assert_eq!(result.compression_ratio_percent, 500);
            assert_eq!(result.encoding_time_ms, 1234);
            assert_eq!(result.encoder_used, HardwareEncoder::Software);
        },
        _ => panic!("expected a finished request"),
    }
    assert_eq!(request.attempts, 1);
}

#[test]
fn test_failure_swaps_to_fallback_encoder() {
    let caps = HardwareCapabilities::from_probes(
        Vec::new(),
        vec![HardwareEncoder::NvencH264],
        Vec::new(),
        vec![HardwareEncoder::QsvH264],
        Vec::new(),
    );
    let mut engine = CompressionEngine::new(caps);
    let mut settings = CompressionSettings::default();
    settings.hardware_encoder = HardwareEncoder::NvencH264;
    settings.enable_hardware_accel = true;
    let mut request =
        engine.begin_request("a.mp4".to_string(), "b.mp4".to_string(), 1000, settings);
    // Blacklist the preferred backend up front.
    for _ in 0..3 {
        engine
            .fallback_system
            .record_failure(&HardwareEncoder::NvencH264, "boom");
    }
    let step = engine.record_attempt(
        &mut request,
        AttemptOutcome::Failed { error: "boom".to_string() },
    );
    match step {
        EngineStep::Retry { encoder } => assert_eq!(encoder, HardwareEncoder::QsvH264),
        _ => panic!("expected a retry"),
    }
    assert_eq!(request.settings.hardware_encoder, HardwareEncoder::QsvH264);
    assert!(request.settings.enable_hardware_accel);
}

// A two-pass plan for the software encoder: pass one analyzes into a
// discarded output without audio, pass two reuses the statistics log, and
// both log files are slated for unconditional removal.
#[test]
fn test_two_pass_plan_for_software_encoder() {
    let (engine, request) = engine_and_request();
    let meta = VideoMetadata::default_hd();
    let plan = engine.plan_attempt(&request, &meta, "/tmp/pass_stats");
    assert!(plan.use_two_pass);
    assert_eq!(plan.target_bitrate_kbps, 1198);
    assert_eq!(
        plan.cleanup_files,
        vec!["/tmp/pass_stats-0.log".to_string(), "/tmp/pass_stats-0.log.mbtree".to_string()]
    );
    assert!(plan.first_pass_args.iter().any(|a| a == "-an"));
    assert!(plan.first_pass_args.iter().any(|a| a == "/dev/null"));
    assert!(plan.encode_args.iter().any(|a| a == "-pass"));
    assert_eq!(plan.encode_args.last().map(|s| s.as_str()), Some("/tmp/pass_stats"));
    // The codec is the compatible software one.
    let pos = plan.encode_args.iter().position(|a| a == "-c:v").unwrap();
    assert_eq!(plan.encode_args[pos + 1], "libx264");
    let b = plan.encode_args.iter().position(|a| a == "-b:v").unwrap();
    assert_eq!(plan.encode_args[b + 1], "1198k");
}

#[test]
fn test_one_pass_plan_for_hardware_encoder() {
    let caps = HardwareCapabilities::from_probes(
        Vec::new(),
        vec![HardwareEncoder::NvencH265],
        Vec::new(),
        Vec::new(),
        Vec::new(),
    );
    let engine = CompressionEngine::new(caps);
    let mut settings = CompressionSettings::default();
    settings.hardware_encoder = HardwareEncoder::NvencH265;
    settings.enable_hardware_accel = true;
    settings.compatibility_mode = false;
    let request = engine.begin_request(
        "a.mp4".to_string(),
        "b.mp4".to_string(),
        1000,
        settings,
    );
    let meta = VideoMetadata::default_hd();
    let plan = engine.plan_attempt(&request, &meta, "/tmp/unused");
    assert!(!plan.use_two_pass);
    assert!(plan.first_pass_args.is_empty());
    assert!(plan.cleanup_files.is_empty());
    assert_eq!(plan.encode_args[0], "-hwaccel");
    assert_eq!(plan.encode_args[1], "cuda");
    let pos = plan.encode_args.iter().position(|a| a == "-c:v").unwrap();
    assert_eq!(plan.encode_args[pos + 1], "hevc_nvenc");
    // A one-pass encode streams progress instead of writing pass logs.
    assert!(plan.encode_args.iter().any(|a| a == "-progress"));
    assert!(!plan.encode_args.iter().any(|a| a == "-pass"));
}

#[test]
fn test_error_messages() {
    let e = CompressionError::InputNotFound { path: "missing.mp4".to_string() };
    assert_eq!(e.message(), "Input file does not exist: missing.mp4");
    assert!(!e.is_retryable());
    let e = CompressionError::EncoderProcessFailed { message: "exit 1".to_string() };
    assert_eq!(e.message(), "Encoder process failed: exit 1");
    assert!(e.is_retryable());
    let e = CompressionError::UniqueNameExhausted;
    assert_eq!(e.message(), "Could not generate unique output filename");
}

#[test]
fn test_result_summary_line() {
    let (mut engine, mut request) = engine_and_request();
    let step = engine.record_attempt(
        &mut request,
        AttemptOutcome::Succeeded { output_size_bytes: 2_000_000, encoding_time_ms: 2500 },
    );
    let result = match step {
        EngineStep::Done { result } => result,
        _ => panic!("expected a finished request"),
    };
    assert_eq!(
        result.summary(),
        "Compressed clip.mov (9.5 MB) -> clip_compressed.mp4 (1.9 MB) in 2.5s \
         using Software (CPU) (5.0x compression, hardware encoder)"
    );
}
