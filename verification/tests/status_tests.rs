use podpipe::status::{
    reset_stale_diarization, reset_stale_transcription, DiarizationStatus, TranscriptionStatus,
};
use podpipe::store::StatusStore;

#[test]
fn status_column_texts_match_the_schema() {
    assert_eq!(TranscriptionStatus::NotStarted.as_str(), "not_started");
    assert_eq!(TranscriptionStatus::Queued.as_str(), "queued");
    assert_eq!(TranscriptionStatus::Downloading.as_str(), "downloading");
    assert_eq!(TranscriptionStatus::Transcribing.as_str(), "transcribing");
    assert_eq!(TranscriptionStatus::Done.as_str(), "done");
    assert_eq!(TranscriptionStatus::Error.as_str(), "error");
    assert_eq!(DiarizationStatus::Processing.as_str(), "processing");
    assert_eq!(DiarizationStatus::Solo.as_str(), "solo");
}

#[test]
fn parse_reads_column_texts_back() {
    assert_eq!(
        TranscriptionStatus::parse("transcribing"),
        Some(TranscriptionStatus::Transcribing)
    );
    assert_eq!(TranscriptionStatus::parse("nonsense"), None);
    assert_eq!(DiarizationStatus::parse("solo"), Some(DiarizationStatus::Solo));
    assert_eq!(DiarizationStatus::parse(""), None);
    // the transcription-only status is not a diarization status
    assert_eq!(DiarizationStatus::parse("transcribing"), None);
}

#[test]
fn stale_in_flight_statuses_reset_and_terminal_ones_stay() {
    assert_eq!(
        reset_stale_transcription(TranscriptionStatus::Queued),
        TranscriptionStatus::NotStarted
    );
    assert_eq!(
        reset_stale_transcription(TranscriptionStatus::Downloading),
        TranscriptionStatus::NotStarted
    );
    assert_eq!(
        reset_stale_transcription(TranscriptionStatus::Transcribing),
        TranscriptionStatus::NotStarted
    );
    assert_eq!(reset_stale_transcription(TranscriptionStatus::Done), TranscriptionStatus::Done);
    assert_eq!(reset_stale_transcription(TranscriptionStatus::Error), TranscriptionStatus::Error);
    assert_eq!(
        reset_stale_diarization(DiarizationStatus::Processing),
        DiarizationStatus::NotStarted
    );
    assert_eq!(reset_stale_diarization(DiarizationStatus::Solo), DiarizationStatus::Solo);
}

#[test]
fn status_store_updates_only_the_named_episode() {
    let mut store = StatusStore::new();
    store.ensure_episode(1);
    store.ensure_episode(2);
    assert_eq!(store.len(), 2);
    // ensure is idempotent
    store.ensure_episode(1);
    assert_eq!(store.len(), 2);

    store.set_transcription(1, TranscriptionStatus::Done, None);
    store.set_transcription(2, TranscriptionStatus::Error, Some("boom".to_string()));

    let (s1, e1) = store.get_transcription(1).expect("episode 1 known");
    assert_eq!(s1, TranscriptionStatus::Done);
    assert_eq!(e1, None);
    let (s2, e2) = store.get_transcription(2).expect("episode 2 known");
    assert_eq!(s2, TranscriptionStatus::Error);
    assert_eq!(e2.as_deref(), Some("boom"));

    // an unknown episode is a no-op and reads back as absent
    store.set_transcription(99, TranscriptionStatus::Done, None);
    assert!(store.get_transcription(99).is_none());
}

#[test]
fn startup_reconciliation_resets_only_in_flight_rows() {
    let mut store = StatusStore::new();
    store.ensure_episode(1);
    store.ensure_episode(2);
    store.ensure_episode(3);
    store.set_transcription(1, TranscriptionStatus::Transcribing, None);
    store.set_diarization(1, DiarizationStatus::Queued, None);
    store.set_transcription(2, TranscriptionStatus::Error, Some("dead link".to_string()));
    store.set_diarization(2, DiarizationStatus::Solo, None);
    store.set_transcription(3, TranscriptionStatus::Done, None);
    store.set_diarization(3, DiarizationStatus::Processing, None);

    store.reset_stale();

    let (t1, te1) = store.get_transcription(1).unwrap();
    let (d1, de1) = store.get_diarization(1).unwrap();
    assert_eq!(t1, TranscriptionStatus::NotStarted);
    assert_eq!(te1, None);
    assert_eq!(d1, DiarizationStatus::NotStarted);
    assert_eq!(de1, None);

    let (t2, te2) = store.get_transcription(2).unwrap();
    let (d2, _) = store.get_diarization(2).unwrap();
    assert_eq!(t2, TranscriptionStatus::Error);
    assert_eq!(te2.as_deref(), Some("dead link"));
    assert_eq!(d2, DiarizationStatus::Solo);

    let (t3, _) = store.get_transcription(3).unwrap();
    let (d3, _) = store.get_diarization(3).unwrap();
    assert_eq!(t3, TranscriptionStatus::Done);
    assert_eq!(d3, DiarizationStatus::NotStarted);
}
