use podpipe::progress::{download_percent, inference_percent};
use podpipe::transcribe::{TranscriptAssembler, WindowSegment, CHUNK_SAMPLES};

fn seg(text: &str, start_cs: i64, end_cs: i64) -> WindowSegment {
    WindowSegment { text: text.to_string(), start_cs, end_cs }
}

#[test]
fn chunked_assembly_keeps_one_monotone_timeline() {
    // two full 20-minute windows and a 10-minute tail at 16 kHz
    let window: u64 = CHUNK_SAMPLES;
    let total: u64 = CHUNK_SAMPLES * 2 + CHUNK_SAMPLES / 2;
    let mut a = TranscriptAssembler::new(total, window);
    assert_eq!(a.total_windows(), 3);

    // each window reports timestamps relative to its own start
    assert!(a.push_window(&vec![seg("Hallo ", 0, 400), seg("Welt. ", 400, 119_999)]));
    assert!(a.push_window(&vec![seg("Zweites ", 10, 50_000)]));
    assert!(a.push_window(&vec![seg("Ende.", 0, 60_000)]));
    assert_eq!(a.next_window(), 3);

    let (text, segments) = a.into_parts();
    assert_eq!(text, "Hallo Welt. Zweites Ende.");
    assert_eq!(segments.len(), 4);

    // offsets: window 1 starts at 120_000 cs, window 2 at 240_000 cs
    assert_eq!(segments[0].start_ms, 0);
    assert_eq!(segments[0].end_ms, 4_000);
    assert_eq!(segments[1].end_ms, 1_199_990); // (119_999 + 0) * 10
    assert_eq!(segments[2].start_ms, (10 + 120_000) * 10);
    assert_eq!(segments[3].start_ms, 240_000 * 10);
    assert_eq!(segments[3].end_ms, (60_000 + 240_000) * 10);

    // the timeline is monotone and ends within the episode's duration
    let mut prev_end = 0i64;
    for s in &segments {
        assert!(prev_end <= s.start_ms);
        assert!(s.start_ms <= s.end_ms);
        prev_end = s.end_ms;
    }
    // duration: total samples / 160 cs, times 10 ms
    assert!(prev_end <= (total as i64 / 160) * 10);
}

#[test]
fn a_window_report_past_its_length_is_rejected() {
    let mut a = TranscriptAssembler::new(CHUNK_SAMPLES * 2, CHUNK_SAMPLES);
    // one window is 120_000 cs long; 120_001 reaches past it
    assert!(!a.push_window(&vec![seg("zu lang", 0, 120_001)]));
    assert_eq!(a.next_window(), 0);
    assert!(a.push_window(&vec![seg("passt", 0, 120_000)]));
    assert_eq!(a.next_window(), 1);
}

#[test]
fn an_unordered_window_report_is_rejected() {
    let mut a = TranscriptAssembler::new(CHUNK_SAMPLES, CHUNK_SAMPLES);
    assert!(!a.push_window(&vec![seg("b", 500, 700), seg("a", 100, 300)]));
    assert!(!a.push_window(&vec![seg("backwards", 300, 100)]));
    let (text, segments) = a.into_parts();
    assert_eq!(text, "");
    assert!(segments.is_empty());
}

#[test]
fn the_last_partial_window_is_capped_at_the_episode_end() {
    // 100_000 samples at 16 kHz are 625 cs
    let mut a = TranscriptAssembler::new(100_000, CHUNK_SAMPLES);
    assert_eq!(a.total_windows(), 1);
    let (start, end) = a.next_window_bounds();
    assert_eq!(start, 0);
    assert_eq!(end, 100_000);
    assert!(!a.push_window(&vec![seg("x", 0, 626)]));
    assert!(a.push_window(&vec![seg("x", 0, 625)]));
    let (_, segments) = a.into_parts();
    assert_eq!(segments[0].end_ms, 6_250);
}

#[test]
fn inference_progress_covers_the_second_half() {
    // a 3-window episode reports 66, 83, 100
    assert_eq!(inference_percent(1, 3), 66);
    assert_eq!(inference_percent(2, 3), 83);
    assert_eq!(inference_percent(3, 3), 100);
    assert_eq!(inference_percent(0, 7), 50);
}

#[test]
fn download_progress_covers_the_first_half() {
    assert_eq!(download_percent(0, 1000), 0);
    assert_eq!(download_percent(500, 1000), 25);
    assert_eq!(download_percent(1000, 1000), 50);
    // unknown total: the midpoint stands in
    assert_eq!(download_percent(123, 0), 25);
}
