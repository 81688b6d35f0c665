use podpipe::diarize::DiarizationSegment;
use podpipe::store::{SegmentStore, Transcript, TranscriptStore};

fn seg(label: &str, start_ms: i64, end_ms: i64) -> DiarizationSegment {
    DiarizationSegment { start_ms, end_ms, speaker_label: label.to_string() }
}

#[test]
fn rerunning_diarization_replaces_the_episode_rows_exactly() {
    let mut store = SegmentStore::new();

    // a first run stored 10 segments for episode 5
    let mut first: Vec<DiarizationSegment> = Vec::new();
    for k in 0..10 {
        first.push(seg("SPEAKER_0", k * 100, k * 100 + 90));
    }
    store.replace_for_episode(5, &first);
    assert_eq!(store.segments_for(5).len(), 10);

    // another episode's rows must survive the re-run
    store.replace_for_episode(6, &vec![seg("SPEAKER_1", 0, 50)]);

    // the re-run produces 3 segments: exactly 3 rows remain for episode 5
    let second = vec![
        seg("SPEAKER_0", 0, 1000),
        seg("SPEAKER_1", 1000, 2000),
        seg("SPEAKER_0", 2000, 2500),
    ];
    store.replace_for_episode(5, &second);

    let rows = store.segments_for(5);
    assert_eq!(rows.len(), 3);
    assert_eq!(rows[0].start_ms, 0);
    assert_eq!(rows[1].speaker_label, "SPEAKER_1");
    assert_eq!(rows[2].end_ms, 2500);
    assert_eq!(store.segments_for(6).len(), 1);
    assert_eq!(store.len(), 4);
}

#[test]
fn replacing_with_nothing_clears_the_episode() {
    let mut store = SegmentStore::new();
    store.replace_for_episode(1, &vec![seg("SPEAKER_0", 0, 10)]);
    store.replace_for_episode(1, &Vec::new());
    assert_eq!(store.segments_for(1).len(), 0);
    assert_eq!(store.len(), 0);
}

fn transcript(episode_id: i64, text: &str, model: &str) -> Transcript {
    Transcript {
        id: 0,
        episode_id,
        full_text: text.to_string(),
        segments_json: None,
        whisper_model: Some(model.to_string()),
        language: Some("de".to_string()),
        created_at: None,
    }
}

#[test]
fn a_transcript_upsert_replaces_the_prior_one() {
    let mut store = TranscriptStore::new();
    store.upsert(transcript(1, "erster Versuch", "small"));
    store.upsert(transcript(2, "anderes Thema", "small"));
    store.upsert(transcript(1, "zweiter Versuch", "large-v3"));

    assert_eq!(store.len(), 2);
    let t = store.get(1).expect("episode 1 has a transcript");
    assert_eq!(t.full_text, "zweiter Versuch");
    assert_eq!(t.whisper_model.as_deref(), Some("large-v3"));
    let other = store.get(2).expect("episode 2 kept");
    assert_eq!(other.full_text, "anderes Thema");
    assert!(store.get(3).is_none());
}
