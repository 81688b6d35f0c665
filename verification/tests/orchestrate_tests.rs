use podpipe::diarize::DiarizationSegment;
use podpipe::orchestrate::{
    DiarizationEvent, DiarizationOutcome, DiarizationPhase, DiarizationRun, DiarizationRunEvent,
    TranscriptOutput, TranscriptionEvent, TranscriptionOutcome, TranscriptionPhase,
    TranscriptionRun, TranscriptionRunEvent,
};
use podpipe::status::{DiarizationStatus, TranscriptionStatus};
use podpipe::transcribe::TranscriptSegment;

fn dseg(label: &str, start_ms: i64, end_ms: i64) -> DiarizationSegment {
    DiarizationSegment { start_ms, end_ms, speaker_label: label.to_string() }
}

#[test]
fn cancelling_mid_download_is_never_an_error_and_deletes_the_file() {
    let (mut run, begin) = TranscriptionRun::begin(9);
    let w = begin.status.expect("status moves to downloading");
    assert_eq!(w.status, TranscriptionStatus::Downloading);
    assert_eq!(w.error, None);

    let a = run.step(TranscriptionRunEvent::DownloadStarted { total_bytes: 1000 });
    assert!(!a.finished);
    let a = run.step(TranscriptionRunEvent::ChunkWritten { len: 200 });
    assert!(matches!(
        a.events[0],
        TranscriptionEvent::Downloading { percent: 10 }
    ));

    // the token is observed cancelled between two chunks
    let a = run.step(TranscriptionRunEvent::CancelObserved);
    assert!(a.finished);
    assert!(a.delete_temp, "the partial temp file is always deleted");
    let w = a.status.expect("status is written");
    assert_eq!(w.status, TranscriptionStatus::NotStarted);
    assert_eq!(w.error, None, "cancellation is not an error");
    assert_eq!(a.events.len(), 1);
    assert!(matches!(a.events[0], TranscriptionEvent::Cancelled));
    assert!(a.store.is_none());
    assert!(!a.chain_diarization);
    assert_eq!(run.phase, TranscriptionPhase::Finished);
}

#[test]
fn a_failed_download_leaves_an_error_status_and_no_temp_file() {
    let (mut run, _) = TranscriptionRun::begin(4);
    run.step(TranscriptionRunEvent::DownloadStarted { total_bytes: 0 });
    run.step(TranscriptionRunEvent::ChunkWritten { len: 4096 });

    let a = run.step(TranscriptionRunEvent::StreamFailed {
        cause: "connection reset by peer".to_string(),
    });
    assert!(a.finished);
    assert!(a.delete_temp, "the partial file goes on the error path too");
    assert!(!run.temp_file);
    let w = a.status.expect("status is written");
    assert_eq!(w.status, TranscriptionStatus::Error);
    let message = w.error.expect("the error carries a message");
    assert_eq!(message, "Download stream error: connection reset by peer");
    assert!(!message.is_empty());
    assert!(matches!(&a.events[0], TranscriptionEvent::Error { message: m } if m == &message));
    assert!(a.store.is_none());
    assert!(!a.chain_diarization);
}

#[test]
fn a_failed_request_never_touches_the_disk() {
    let (mut run, _) = TranscriptionRun::begin(4);
    let a = run.step(TranscriptionRunEvent::RequestFailed { cause: "dns failure".to_string() });
    assert!(a.finished);
    assert!(!a.delete_temp, "no temp file was created yet");
    let w = a.status.unwrap();
    assert_eq!(w.status, TranscriptionStatus::Error);
    assert_eq!(w.error.as_deref(), Some("Audio download failed: dns failure"));
}

#[test]
fn a_successful_transcription_stores_and_chains_when_models_are_present() {
    let (mut run, _) = TranscriptionRun::begin(11);
    run.step(TranscriptionRunEvent::DownloadStarted { total_bytes: 100 });
    run.step(TranscriptionRunEvent::ChunkWritten { len: 100 });

    let a = run.step(TranscriptionRunEvent::DownloadFinished);
    assert_eq!(a.status.unwrap().status, TranscriptionStatus::Transcribing);
    assert_eq!(run.phase, TranscriptionPhase::Decoding);

    let a = run.step(TranscriptionRunEvent::DecodeFinished);
    assert!(!a.delete_temp, "the temp file stays until inference ends");

    let a = run.step(TranscriptionRunEvent::WindowCompleted {
        windows_done: 1,
        windows_total: 2,
    });
    assert!(matches!(a.events[0], TranscriptionEvent::Progress { percent: 75 }));

    let output = TranscriptOutput {
        full_text: "Hallo Welt.".to_string(),
        segments: vec![TranscriptSegment {
            text: "Hallo Welt.".to_string(),
            start_ms: 0,
            end_ms: 2500,
        }],
        model_name: "small".to_string(),
    };
    let a = run.step(TranscriptionRunEvent::InferenceFinished {
        cancelled: false,
        models_present: true,
        outcome: TranscriptionOutcome::Completed { output },
    });
    assert!(a.finished);
    assert!(a.delete_temp);
    assert_eq!(a.status.unwrap().status, TranscriptionStatus::Done);
    assert!(matches!(a.events[0], TranscriptionEvent::Done { episode_id: 11 }));
    let stored = a.store.expect("the transcript is persisted");
    assert_eq!(stored.full_text, "Hallo Welt.");
    assert!(a.chain_diarization, "diarization is chained when models are present");
}

#[test]
fn chaining_is_skipped_silently_without_models() {
    let (mut run, _) = TranscriptionRun::begin(12);
    run.step(TranscriptionRunEvent::DownloadStarted { total_bytes: 10 });
    run.step(TranscriptionRunEvent::DownloadFinished);
    run.step(TranscriptionRunEvent::DecodeFinished);
    let a = run.step(TranscriptionRunEvent::InferenceFinished {
        cancelled: false,
        models_present: false,
        outcome: TranscriptionOutcome::Completed {
            output: TranscriptOutput {
                full_text: String::new(),
                segments: Vec::new(),
                model_name: "small".to_string(),
            },
        },
    });
    assert!(!a.chain_diarization);
    assert_eq!(a.status.unwrap().status, TranscriptionStatus::Done);
}

#[test]
fn cancellation_observed_after_inference_discards_the_result() {
    let (mut run, _) = TranscriptionRun::begin(13);
    run.step(TranscriptionRunEvent::DownloadStarted { total_bytes: 10 });
    run.step(TranscriptionRunEvent::DownloadFinished);
    run.step(TranscriptionRunEvent::DecodeFinished);
    let a = run.step(TranscriptionRunEvent::InferenceFinished {
        cancelled: true,
        models_present: true,
        outcome: TranscriptionOutcome::Completed {
            output: TranscriptOutput {
                full_text: "halb fertig".to_string(),
                segments: Vec::new(),
                model_name: "small".to_string(),
            },
        },
    });
    assert!(a.finished);
    assert!(a.store.is_none(), "nothing is stored after a cancellation");
    assert!(!a.chain_diarization);
    assert_eq!(a.status.unwrap().status, TranscriptionStatus::NotStarted);
    assert!(matches!(a.events[0], TranscriptionEvent::Cancelled));
}

#[test]
fn a_decode_failure_reports_its_cause() {
    let (mut run, _) = TranscriptionRun::begin(14);
    run.step(TranscriptionRunEvent::DownloadStarted { total_bytes: 10 });
    run.step(TranscriptionRunEvent::DownloadFinished);
    let a = run.step(TranscriptionRunEvent::DecodeFailed {
        cause: "No audio track found".to_string(),
    });
    assert!(a.finished);
    assert!(a.delete_temp);
    assert_eq!(
        a.status.unwrap().error.as_deref(),
        Some("Audio decode failed: No audio track found")
    );
}

#[test]
fn a_panicked_inference_task_is_surfaced_as_an_error() {
    let (mut run, _) = TranscriptionRun::begin(15);
    run.step(TranscriptionRunEvent::DownloadStarted { total_bytes: 10 });
    run.step(TranscriptionRunEvent::DownloadFinished);
    run.step(TranscriptionRunEvent::DecodeFinished);
    let a = run.step(TranscriptionRunEvent::InferenceFinished {
        cancelled: false,
        models_present: false,
        outcome: TranscriptionOutcome::Panicked { cause: "task 17 aborted".to_string() },
    });
    let w = a.status.unwrap();
    assert_eq!(w.status, TranscriptionStatus::Error);
    assert_eq!(w.error.as_deref(), Some("Whisper task panicked: task 17 aborted"));
}

#[test]
fn a_diarization_run_ends_solo_for_a_marginal_second_speaker() {
    let (mut run, begin) = DiarizationRun::begin(21);
    assert_eq!(begin.status.unwrap().status, DiarizationStatus::Processing);

    run.step(DiarizationRunEvent::DownloadStarted { total_bytes: 500 });
    let a = run.step(DiarizationRunEvent::ChunkWritten { len: 250 });
    assert!(matches!(a.events[0], DiarizationEvent::Progress { percent: 25 }));
    run.step(DiarizationRunEvent::DownloadFinished);

    let a = run.step(DiarizationRunEvent::DecodeFinished);
    assert!(a.delete_temp, "the temp file goes as soon as the buffer is decoded");

    let segments = vec![dseg("SPEAKER_0", 0, 4500), dseg("SPEAKER_1", 4500, 4650)];
    let a = run.step(DiarizationRunEvent::InferenceFinished {
        outcome: DiarizationOutcome::Completed { segments },
    });
    assert!(!a.finished);
    assert_eq!(run.phase, DiarizationPhase::Persisting);
    assert!(matches!(a.events[0], DiarizationEvent::Progress { percent: 100 }));
    let stored = a.store.expect("the rows are handed over for the transactional write");
    assert_eq!(stored.len(), 2);

    let a = run.step(DiarizationRunEvent::StoreFinished { error: None });
    assert!(a.finished);
    assert_eq!(a.status.unwrap().status, DiarizationStatus::Solo);
    assert!(matches!(a.events[0], DiarizationEvent::Done { episode_id: 21 }));
}

#[test]
fn a_diarization_run_ends_done_for_two_even_speakers() {
    let (mut run, _) = DiarizationRun::begin(22);
    run.step(DiarizationRunEvent::DownloadStarted { total_bytes: 0 });
    run.step(DiarizationRunEvent::DownloadFinished);
    run.step(DiarizationRunEvent::DecodeFinished);
    let segments = vec![dseg("SPEAKER_0", 0, 2500), dseg("SPEAKER_1", 2500, 5000)];
    run.step(DiarizationRunEvent::InferenceFinished {
        outcome: DiarizationOutcome::Completed { segments },
    });
    let a = run.step(DiarizationRunEvent::StoreFinished { error: None });
    assert_eq!(a.status.unwrap().status, DiarizationStatus::Done);
}

#[test]
fn diarization_cancellation_resets_and_cleans_up() {
    let (mut run, _) = DiarizationRun::begin(23);
    run.step(DiarizationRunEvent::DownloadStarted { total_bytes: 100 });
    run.step(DiarizationRunEvent::ChunkWritten { len: 10 });
    let a = run.step(DiarizationRunEvent::CancelObserved);
    assert!(a.finished);
    assert!(a.delete_temp);
    let w = a.status.unwrap();
    assert_eq!(w.status, DiarizationStatus::NotStarted);
    assert_eq!(w.error, None);
    assert!(matches!(a.events[0], DiarizationEvent::Cancelled));
}

#[test]
fn a_failed_segment_write_is_an_error_with_its_message() {
    let (mut run, _) = DiarizationRun::begin(24);
    run.step(DiarizationRunEvent::DownloadStarted { total_bytes: 0 });
    run.step(DiarizationRunEvent::DownloadFinished);
    run.step(DiarizationRunEvent::DecodeFinished);
    run.step(DiarizationRunEvent::InferenceFinished {
        outcome: DiarizationOutcome::Completed {
            segments: vec![dseg("SPEAKER_0", 0, 100)],
        },
    });
    let a = run.step(DiarizationRunEvent::StoreFinished {
        error: Some("Failed to commit tx: disk full".to_string()),
    });
    assert!(a.finished);
    let w = a.status.unwrap();
    assert_eq!(w.status, DiarizationStatus::Error);
    assert_eq!(w.error.as_deref(), Some("Failed to commit tx: disk full"));
}

#[test]
fn a_failed_diarization_inference_reports_after_the_progress_event() {
    let (mut run, _) = DiarizationRun::begin(25);
    run.step(DiarizationRunEvent::DownloadStarted { total_bytes: 0 });
    run.step(DiarizationRunEvent::DownloadFinished);
    run.step(DiarizationRunEvent::DecodeFinished);
    let a = run.step(DiarizationRunEvent::InferenceFinished {
        outcome: DiarizationOutcome::Failed { message: "Diarization failed: bad model".to_string() },
    });
    assert!(a.finished);
    assert_eq!(a.events.len(), 2);
    assert!(matches!(a.events[0], DiarizationEvent::Progress { percent: 100 }));
    assert!(matches!(&a.events[1], DiarizationEvent::Error { message: m }
        if m == "Diarization failed: bad model"));
    assert_eq!(a.status.unwrap().status, DiarizationStatus::Error);
}
