use small_mp4::progress::{
    eta_ms, first_pass_progress, parse_progress_line, progress_permille, second_pass_progress,
};

#[test]
fn test_parse_progress_line_reads_timestamp() {
    let line = "frame= 1234 fps=123.4 q=23.0 size= 1234kB time=00:01:23.45 bitrate= 123.4kbits/s";
    assert_eq!(parse_progress_line(line), Some(8345));
}

#[test]
fn test_parse_progress_line_first_match_wins() {
    let line = "time=00:00:01.5 and later time=00:00:09.99";
    // One fractional digit is scaled to centiseconds.
    assert_eq!(parse_progress_line(line), Some(150));
}

#[test]
fn test_parse_progress_line_rejects_other_lines() {
    assert_eq!(parse_progress_line("no timestamp here"), None);
    assert_eq!(parse_progress_line("time=xx:yy:zz.00"), None);
    assert_eq!(parse_progress_line("time=1:23.45"), None);
    assert_eq!(parse_progress_line(""), None);
}

#[test]
fn test_progress_clamping() {
    // Media time beyond the known duration clamps to complete.
    assert_eq!(progress_permille(20_000, 10_000), 1000);
    assert_eq!(progress_permille(5_000, 10_000), 500);
    assert_eq!(progress_permille(0, 10_000), 0);
}

// During pass one progress stays within the first half; during pass two it
// stays within the second half, and the two meet at one half.
#[test]
fn test_two_pass_progress_ranges() {
    for p in [0u32, 1, 250, 500, 999, 1000] {
        assert!(first_pass_progress(p) <= 500);
        let second = second_pass_progress(p);
        assert!((500..=1000).contains(&second));
    }
    assert_eq!(first_pass_progress(1000), 500);
    assert_eq!(second_pass_progress(0), 500);
    assert_eq!(second_pass_progress(1000), 1000);
}

#[test]
fn test_eta_needs_minimum_progress() {
    // Below the one-percent threshold no estimate is given.
    assert_eq!(eta_ms(60_000, 5), None);
    // Halfway through, the remaining time equals the elapsed time.
    assert_eq!(eta_ms(60_000, 500), Some(60_000));
    // Complete runs produce no estimate.
    assert_eq!(eta_ms(60_000, 1000), None);
}
