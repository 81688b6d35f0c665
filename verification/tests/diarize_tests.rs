use podpipe::diarize::{is_solo, map_speaker_label, speaker_label, DiarizationSegment};

fn seg(label: &str, start_ms: i64, end_ms: i64) -> DiarizationSegment {
    DiarizationSegment { start_ms, end_ms, speaker_label: label.to_string() }
}

#[test]
fn speaker_labels_are_deterministic_from_the_index() {
    assert_eq!(speaker_label(0), "SPEAKER_0");
    assert_eq!(speaker_label(1), "SPEAKER_1");
    assert_eq!(speaker_label(12), "SPEAKER_12");
    assert_eq!(speaker_label(305), "SPEAKER_305");
}

#[test]
fn speaker_letters_map_onto_labels() {
    assert_eq!(map_speaker_label("A"), "SPEAKER_0");
    assert_eq!(map_speaker_label("B"), "SPEAKER_1");
    assert_eq!(map_speaker_label("Z"), "SPEAKER_25");
    // an empty name and anything before 'A' floor at index 0
    assert_eq!(map_speaker_label(""), "SPEAKER_0");
    assert_eq!(map_speaker_label("0"), "SPEAKER_0");
    // only the first character counts
    assert_eq!(map_speaker_label("C2"), "SPEAKER_2");
}

#[test]
fn a_marginal_second_speaker_is_classified_solo() {
    // 150 ms of 4650 ms total is about 3.2% — under the 5% threshold
    let segments = vec![seg("SPEAKER_0", 0, 4500), seg("SPEAKER_1", 4500, 4650)];
    assert!(is_solo(&segments));
}

#[test]
fn two_even_speakers_are_not_solo() {
    let segments = vec![seg("SPEAKER_0", 0, 2500), seg("SPEAKER_1", 2500, 5000)];
    assert!(!is_solo(&segments));
}

#[test]
fn one_speaker_is_always_solo() {
    let segments = vec![
        seg("SPEAKER_0", 0, 1000),
        seg("SPEAKER_0", 1000, 2000),
        seg("SPEAKER_0", 5000, 9000),
    ];
    assert!(is_solo(&segments));
}

#[test]
fn no_segments_count_as_solo() {
    let segments: Vec<DiarizationSegment> = Vec::new();
    assert!(is_solo(&segments));
}

#[test]
fn exactly_five_percent_is_not_solo() {
    // 100 of 2000 ms is exactly 5%: the least speaker must be strictly
    // under the threshold
    let segments = vec![seg("SPEAKER_0", 0, 1900), seg("SPEAKER_1", 1900, 2000)];
    assert!(!is_solo(&segments));
}

#[test]
fn the_least_speaker_decides_among_three() {
    // speakers: 5000 ms, 4000 ms, 100 ms of 9100 ms — 100/9100 ≈ 1.1%
    let segments = vec![
        seg("SPEAKER_0", 0, 5000),
        seg("SPEAKER_1", 5000, 9000),
        seg("SPEAKER_2", 9000, 9100),
    ];
    assert!(is_solo(&segments));
}
