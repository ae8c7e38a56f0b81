use small_mp4::capabilities::CudaDevice;
use small_mp4::detection::{
    determine_intel_generation, determine_nvenc_encoders, determine_quicksync_version,
    device_supports_encoder, estimate_max_concurrent_sessions, get_encoder_recommendations,
    get_optimal_amd_settings, get_optimal_intel_settings, get_optimal_nvenc_settings,
    get_platform_optimal_settings, get_vaapi_settings, get_videotoolbox_settings,
    is_amd_hardware_available, is_intel_hardware_available, parse_nvidia_smi_line,
};
use small_mp4::encoders::HardwareEncoder;
use small_mp4::metadata::{interpret_probe, ProbeFields};
use small_mp4::system_info::{
    CpuInformation, DiskInformation, MemoryInformation, ProcessInformation, ReadinessLevel,
    SystemInformation,
};

fn device(major: u32, minor: u32) -> CudaDevice {
    CudaDevice {
        id: 0,
        name: "GPU".to_string(),
        compute_major: major,
        compute_minor: minor,
        memory_mb: 8192,
        nvenc_support: major >= 6,
        max_concurrent_sessions: 2,
    }
}

#[test]
fn test_parse_nvidia_smi_line() {
    let parts: Vec<String> = ["0", "RTX 3080", "8.6", "10240", "5"]
        .iter()
        .map(|s| s.to_string())
        .collect();
    let d = parse_nvidia_smi_line(&parts).unwrap();
    assert_eq!(d.id, 0);
    assert_eq!(d.name, "RTX 3080");
    assert_eq!((d.compute_major, d.compute_minor), (8, 6));
    assert_eq!(d.memory_mb, 10240);
    assert!(d.nvenc_support);
    assert_eq!(d.max_concurrent_sessions, 5);

    let unsupported: Vec<String> = ["1", "Old GPU", "5.0", "2048", "[Not Supported]"]
        .iter()
        .map(|s| s.to_string())
        .collect();
    let d = parse_nvidia_smi_line(&unsupported).unwrap();
    assert!(!d.nvenc_support);
    // The session limit falls back to the generation estimate.
    assert_eq!(d.max_concurrent_sessions, 1);

    let short: Vec<String> = vec!["0".to_string()];
    assert!(parse_nvidia_smi_line(&short).is_none());
    let bad_index: Vec<String> = ["x", "GPU", "8.6", "1024"].iter().map(|s| s.to_string()).collect();
    assert!(parse_nvidia_smi_line(&bad_index).is_none());
}

#[test]
fn test_determine_nvenc_encoders_by_generation() {
    assert!(determine_nvenc_encoders(&Vec::new()).is_empty());
    let pascal = vec![device(6, 1)];
    assert_eq!(
        determine_nvenc_encoders(&pascal),
        vec![HardwareEncoder::NvencH264, HardwareEncoder::NvencH265]
    );
    let ada = vec![device(6, 1), device(8, 9)];
    assert_eq!(
        determine_nvenc_encoders(&ada),
        vec![
            HardwareEncoder::NvencH264,
            HardwareEncoder::NvencH265,
            HardwareEncoder::NvencAV1,
        ]
    );
}

#[test]
fn test_device_supports_encoder() {
    let d = device(8, 9);
    assert!(device_supports_encoder(&d, &HardwareEncoder::NvencH264));
    assert!(device_supports_encoder(&d, &HardwareEncoder::NvencAV1));
    assert!(!device_supports_encoder(&d, &HardwareEncoder::QsvH264));
    let old = device(5, 0);
    assert!(!device_supports_encoder(&old, &HardwareEncoder::NvencH264));
}

#[test]
fn test_session_estimates() {
    assert_eq!(estimate_max_concurrent_sessions(8, 6), 5);
    assert_eq!(estimate_max_concurrent_sessions(7, 5), 3);
    assert_eq!(estimate_max_concurrent_sessions(6, 1), 2);
    assert_eq!(estimate_max_concurrent_sessions(5, 2), 1);
}

#[test]
fn test_vendor_hardware_hints() {
    let names: Vec<String> = vec!["cuda".to_string(), "vaapi".to_string()];
    assert!(is_amd_hardware_available(&names));
    assert!(is_intel_hardware_available(&names));
    let nvidia_only: Vec<String> = vec!["cuda".to_string()];
    assert!(!is_amd_hardware_available(&nvidia_only));
    assert!(!is_intel_hardware_available(&nvidia_only));
    let qsv: Vec<String> = vec!["qsv".to_string()];
    assert!(is_intel_hardware_available(&qsv));
}

#[test]
fn test_intel_generation_classification() {
    assert_eq!(determine_intel_generation("Intel Arc A770"), "Arc");
    assert_eq!(determine_intel_generation("Intel UHD Graphics 630"), "Coffee Lake");
    assert_eq!(determine_intel_generation("Intel HD Graphics 4000"), "Ivy Bridge");
    assert_eq!(determine_intel_generation("Iris Plus"), "Modern");
    assert_eq!(determine_intel_generation("Something"), "Unknown");
    assert_eq!(determine_quicksync_version("Ivy Bridge"), "QuickSync 2.0");
    assert_eq!(determine_quicksync_version("Arc"), "QuickSync 8.0+");
    assert_eq!(determine_quicksync_version("Nonsense"), "Unknown");
}

#[test]
fn test_tuning_tables() {
    let d = device(8, 6);
    let nv = get_optimal_nvenc_settings(&d, &HardwareEncoder::NvencH264);
    assert_eq!(nv[0], ("hwaccel".to_string(), "cuda".to_string()));
    assert_eq!(nv[2], ("hwaccel_device".to_string(), "0".to_string()));
    assert!(nv.contains(&("multipass".to_string(), "fullres".to_string())));
    let amd = get_optimal_amd_settings(&HardwareEncoder::AmfH265);
    assert_eq!(amd[0], ("c:v".to_string(), "hevc_amf".to_string()));
    let intel = get_optimal_intel_settings(&HardwareEncoder::QsvAV1);
    assert_eq!(intel[0], ("c:v".to_string(), "av1_qsv".to_string()));
    assert_eq!(get_vaapi_settings()[2], ("c:v".to_string(), "h264_vaapi".to_string()));
    assert_eq!(
        get_videotoolbox_settings()[1],
        ("c:v".to_string(), "h264_videotoolbox".to_string())
    );
    assert_eq!(get_platform_optimal_settings("linux"), get_vaapi_settings());
    assert!(get_platform_optimal_settings("plan9").is_empty());
    assert_eq!(get_encoder_recommendations(&HardwareEncoder::Software).len(), 3);
    assert_eq!(get_encoder_recommendations(&HardwareEncoder::Vaapi).len(), 2);
}

fn healthy_system() -> SystemInformation {
    SystemInformation {
        os_name: "TestOS".to_string(),
        os_version: "1.0".to_string(),
        architecture: "x86_64".to_string(),
        cpu_info: CpuInformation {
            name: "CPU".to_string(),
            cores: 8,
            frequency_mhz: 3500,
            usage_percent: 20,
        },
        memory_info: MemoryInformation {
            total_mb: 32768,
            used_mb: 8192,
            available_mb: 24576,
            usage_percent: 25,
        },
        disk_info: vec![DiskInformation {
            name: "disk0".to_string(),
            mount_point: "/".to_string(),
            total_mb: 500_000,
            used_mb: 100_000,
            available_mb: 400_000,
            usage_percent: 20,
        }],
        process_info: ProcessInformation {
            total_processes: 100,
            current_process_memory_mb: 100,
            current_process_cpu_percent: 1,
        },
    }
}

#[test]
fn test_encoding_readiness_levels() {
    let healthy = healthy_system();
    let r = healthy.check_encoding_readiness();
    assert_eq!(r.readiness, ReadinessLevel::Optimal);
    assert!(r.is_ready_for_encoding());
    assert_eq!(r.summary(), "OK Optimal - 0 issues, 0 recommendations");

    let mut tight = healthy_system();
    tight.memory_info.available_mb = 1500;
    let r = tight.check_encoding_readiness();
    assert_eq!(r.readiness, ReadinessLevel::Good);

    let mut low = healthy_system();
    low.memory_info.available_mb = 800;
    let r = low.check_encoding_readiness();
    assert_eq!(r.readiness, ReadinessLevel::Marginal);
    assert!(r.is_ready_for_encoding());

    let mut bad = healthy_system();
    bad.memory_info.available_mb = 200;
    bad.cpu_info.usage_percent = 95;
    let r = bad.check_encoding_readiness();
    assert_eq!(r.readiness, ReadinessLevel::Poor);
    assert!(!r.is_ready_for_encoding());
    assert_eq!(r.issues.len(), 2);
}

#[test]
fn test_encoding_performance_estimate() {
    let healthy = healthy_system();
    let p = healthy.estimate_encoding_performance();
    assert_eq!(p.recommended_concurrent_jobs, 2);
    assert_eq!(p.estimated_speed, "Slow");
    assert!(p.memory_per_job_mb >= 1024);
}

fn hd_probe() -> ProbeFields {
    ProbeFields {
        width: Some(1920),
        height: Some(1080),
        r_frame_rate: Some("30/1".to_string()),
        avg_frame_rate: None,
        fps_direct_millis: None,
        duration_format: Some("60.063000".to_string()),
        duration_stream: None,
        bit_rate: Some("5000000".to_string()),
        codec_name: Some("h264".to_string()),
    }
}

#[test]
fn test_interpret_probe_builds_metadata() {
    let m = interpret_probe(&hd_probe()).unwrap();
    assert_eq!(m.width, 1920);
    assert_eq!(m.height, 1080);
    assert_eq!(m.fps_millis, 30000);
    assert_eq!(m.duration_seconds, 60);
    assert_eq!(m.bitrate_kbps, Some(5000));
    assert_eq!(m.codec, "h264");
}

#[test]
fn test_interpret_probe_fallbacks_and_errors() {
    let mut f = hd_probe();
    f.r_frame_rate = Some("broken".to_string());
    f.avg_frame_rate = Some("30000/1001".to_string());
    let m = interpret_probe(&f).unwrap();
    assert_eq!(m.fps_millis, 29970);

    let mut f = hd_probe();
    f.duration_format = None;
    f.duration_stream = Some("90".to_string());
    let m = interpret_probe(&f).unwrap();
    assert_eq!(m.duration_seconds, 90);

    let mut f = hd_probe();
    f.width = None;
    let e = interpret_probe(&f).unwrap_err();
    assert_eq!(e.message(), "Failed to probe video metadata: missing video width");

    let mut f = hd_probe();
    f.duration_format = Some("0.5".to_string());
    f.duration_stream = None;
    assert!(interpret_probe(&f).is_err());

    let mut f = hd_probe();
    f.bit_rate = Some("not a number".to_string());
    let m = interpret_probe(&f).unwrap();
    assert_eq!(m.bitrate_kbps, None);
}
