use small_mp4::paths::{candidate_output_name, generate_output_path, generate_unique_filename};

// Output naming never returns a name that already exists, whatever the
// collisions: it walks the fixed suffix order and then numbers.
#[test]
fn test_output_name_avoids_taken_names() {
    let taken: Vec<String> = Vec::new();
    assert_eq!(
        generate_output_path("video", &taken),
        Some("video_compressed.mp4".to_string())
    );

    let taken = vec![
        "video_compressed.mp4".to_string(),
        "video_small.mp4".to_string(),
        "video_squeezed.mp4".to_string(),
    ];
    let picked = generate_output_path("video", &taken).unwrap();
    assert_eq!(picked, "video_compact.mp4");
    assert!(!taken.contains(&picked));

    let taken = vec![
        "video_compressed.mp4".to_string(),
        "video_small.mp4".to_string(),
        "video_squeezed.mp4".to_string(),
        "video_compact.mp4".to_string(),
    ];
    let picked = generate_output_path("video", &taken).unwrap();
    assert_eq!(picked, "video_compressed_1.mp4");
    assert!(!taken.contains(&picked));
}

#[test]
fn test_output_name_numbered_fallback_skips_collisions() {
    let mut taken = vec![
        "clip_compressed.mp4".to_string(),
        "clip_small.mp4".to_string(),
        "clip_squeezed.mp4".to_string(),
        "clip_compact.mp4".to_string(),
    ];
    taken.push("clip_compressed_1.mp4".to_string());
    taken.push("clip_compressed_2.mp4".to_string());
    let picked = generate_output_path("clip", &taken).unwrap();
    assert_eq!(picked, "clip_compressed_3.mp4");
    assert!(!taken.contains(&picked));
}

#[test]
fn test_candidate_order_is_fixed() {
    assert_eq!(candidate_output_name("a", 0), "a_compressed.mp4");
    assert_eq!(candidate_output_name("a", 1), "a_small.mp4");
    assert_eq!(candidate_output_name("a", 2), "a_squeezed.mp4");
    assert_eq!(candidate_output_name("a", 3), "a_compact.mp4");
    assert_eq!(candidate_output_name("a", 4), "a_compressed_1.mp4");
    assert_eq!(candidate_output_name("a", 1002), "a_compressed_999.mp4");
}

#[test]
fn test_generate_unique_filename() {
    let taken: Vec<String> = Vec::new();
    assert_eq!(
        generate_unique_filename("report", "mp4", &taken),
        Some("report.mp4".to_string())
    );
    let taken = vec!["report.mp4".to_string(), "report_1.mp4".to_string()];
    assert_eq!(
        generate_unique_filename("report", "mp4", &taken),
        Some("report_2.mp4".to_string())
    );
    let taken = vec!["bare".to_string()];
    assert_eq!(generate_unique_filename("bare", "", &taken), Some("bare_1".to_string()));
}
