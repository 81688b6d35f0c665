use podpipe::decode::{decoded_output, ResampleTracker};

#[test]
fn passthrough_emits_exactly_what_was_fed() {
    // a source already at the target rate: output count == input count
    let mut t = ResampleTracker::new_passthrough();
    assert_eq!(t.push_frames(1152), 0);
    assert_eq!(t.push_frames(1152), 0);
    assert_eq!(t.push_frames(577), 0);
    let pad = t.finish();
    assert_eq!(pad, 0);
    assert_eq!(t.fed_samples(), 2881);
    assert_eq!(t.produced_samples(), 2881);
}

#[test]
fn windows_drain_as_they_fill() {
    // 4096-sample windows, each producing 1486 output samples
    // (roughly 4096 * 16000 / 44100)
    let mut t = ResampleTracker::new_windowed(4096, 1486);
    assert_eq!(t.push_frames(4000), 0);
    assert_eq!(t.pending_samples(), 4000);
    assert_eq!(t.push_frames(200), 1);
    assert_eq!(t.pending_samples(), 104);
    assert_eq!(t.produced_samples(), 1486);
    assert_eq!(t.push_frames(8192), 2);
    assert_eq!(t.pending_samples(), 104);
    assert_eq!(t.produced_samples(), 3 * 1486);
}

#[test]
fn finish_pads_the_partial_window_with_silence() {
    let mut t = ResampleTracker::new_windowed(4096, 1486);
    t.push_frames(5000);
    assert_eq!(t.pending_samples(), 904);
    let pad = t.finish();
    assert_eq!(pad, 4096 - 904);
    assert_eq!(t.produced_samples(), 2 * 1486);
}

#[test]
fn finish_on_a_window_boundary_needs_no_padding() {
    let mut t = ResampleTracker::new_windowed(4096, 1486);
    t.push_frames(4096 * 3);
    let pad = t.finish();
    assert_eq!(pad, 0);
    assert_eq!(t.produced_samples(), 3 * 1486);
}

#[test]
fn round_trip_preserves_duration_within_one_window() {
    // downsample in windows of 4096 (1486 out each), then upsample the
    // result with the inverse pair (1486 in, 4096 out): the count comes
    // back within one window of the first count
    let n: u64 = 1_000_000;
    let mut down = ResampleTracker::new_windowed(4096, 1486);
    down.push_frames(n);
    down.finish();
    let low = down.produced_samples();

    let mut up = ResampleTracker::new_windowed(1486, 4096);
    up.push_frames(low);
    up.finish();
    let back = up.produced_samples();

    assert!(n <= back);
    assert!(back < n + 4096);
    assert_eq!(back, 1_003_520); // ceil(1_000_000 / 4096) * 4096
}

#[test]
fn zero_decoded_samples_is_a_distinct_error() {
    let r = decoded_output(0);
    assert_eq!(r, Err("No audio data decoded from MP3".to_string()));
    assert_eq!(decoded_output(2881), Ok(2881));
}
