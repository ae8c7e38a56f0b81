use small_mp4::format::{
    calculate_compression_percentage, format_clock, format_compression_ratio, format_duration,
    format_file_size, sanitize_filename,
};
use small_mp4::paths::{get_file_extension, is_video_file};

#[test]
fn test_format_file_size() {
    assert_eq!(format_file_size(0), "0 B");
    assert_eq!(format_file_size(512), "512 B");
    assert_eq!(format_file_size(1024), "1.0 KB");
    assert_eq!(format_file_size(1536), "1.5 KB");
    assert_eq!(format_file_size(1048576), "1.0 MB");
    assert_eq!(format_file_size(1073741824), "1.0 GB");
}

#[test]
fn test_file_size_formatting() {
    assert_eq!(format_file_size(512), "512 B");
    assert_eq!(format_file_size(1536), "1.5 KB");
    assert_eq!(format_file_size(2_097_152), "2.0 MB");
}

#[test]
fn test_sanitize_filename() {
    assert_eq!(sanitize_filename("normal_file.mp4"), "normal_file.mp4");
    assert_eq!(sanitize_filename("file<with>bad:chars"), "file_with_bad_chars");
    assert_eq!(sanitize_filename("file|with\"quotes"), "file_with_quotes");
}

#[test]
fn test_sanitize_filename_trims_whitespace() {
    assert_eq!(sanitize_filename("  spaced name  "), "spaced name");
    // Control characters become underscores before trimming happens.
    assert_eq!(sanitize_filename("ctrl\u{7}chars\t"), "ctrl_chars_");
}

#[test]
fn test_format_duration() {
    assert_eq!(format_duration(30), "30.0s");
    assert_eq!(format_duration(90), "1m 30.0s");
    assert_eq!(format_duration(3660), "1h 1m 0.0s");
}

#[test]
fn test_duration_formatting() {
    assert_eq!(format_clock(30), "0:30");
    assert_eq!(format_clock(90), "1:30");
    assert_eq!(format_clock(3661), "1:01:01");
}

#[test]
fn test_format_compression_ratio() {
    assert_eq!(format_compression_ratio(200), "2.0:1");
    assert_eq!(format_compression_ratio(50), "1:2.0");
    assert_eq!(format_compression_ratio(100), "1.0:1");
}

#[test]
fn test_calculate_compression_percentage() {
    assert_eq!(calculate_compression_percentage(100, 50), 50);
    assert_eq!(calculate_compression_percentage(100, 25), 75);
    assert_eq!(calculate_compression_percentage(100, 100), 0);
    assert_eq!(calculate_compression_percentage(0, 50), 0);
}

#[test]
fn test_is_video_file() {
    assert!(is_video_file("video.mp4"));
    assert!(is_video_file("VIDEO.MP4"));
    assert!(is_video_file("movie.mkv"));
    assert!(!is_video_file("image.jpg"));
    assert!(!is_video_file("document.txt"));
}

#[test]
fn utils_test_video_file_detection() {
    assert!(is_video_file("test.mp4"));
    assert!(is_video_file("test.MP4"));
    assert!(!is_video_file("test.txt"));
}

#[test]
fn drop_zone_test_video_file_detection() {
    assert!(is_video_file("test.mp4"));
    assert!(is_video_file("test.MP4"));
    assert!(is_video_file("video.avi"));
    assert!(!is_video_file("test.txt"));
    assert!(!is_video_file("image.jpg"));
}

#[test]
fn test_get_file_extension() {
    assert_eq!(get_file_extension("clip.MP4"), Some("mp4".to_string()));
    assert_eq!(get_file_extension("archive.tar.gz"), Some("gz".to_string()));
    assert_eq!(get_file_extension("noext"), None);
    assert_eq!(get_file_extension(".hidden"), None);
}
