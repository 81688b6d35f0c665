use podpipe::queue::{DiarizationJob, DiarizationQueue, TranscriptionJob, TranscriptionQueue};

#[test]
fn new_queue_is_empty_and_idle() {
    let q = TranscriptionQueue::new();
    assert_eq!(q.queue_len(), 0);
    let s = q.status();
    assert_eq!(s.active_episode_id, None);
    assert_eq!(s.queue_length, 0);
    assert!(!s.is_processing);
}

#[test]
fn fifo_order_is_kept_even_for_late_enqueues() {
    // J1 is enqueued and starts; J2 and J3 arrive while J1 runs. They are
    // processed in exactly the order 1, 2, 3.
    let mut q = TranscriptionQueue::new();
    let was = q.enqueue_and_mark_processing(TranscriptionJob {
        episode_id: 1,
        audio_url: "http://example.test/1.mp3".to_string(),
    });
    assert!(!was);

    let j1 = q.dequeue_or_park().expect("J1 queued");
    assert_eq!(j1.episode_id, 1);

    // J1 is now active; more work arrives.
    let _token = q.register_active(j1.episode_id);
    assert!(q.enqueue_and_mark_processing(TranscriptionJob {
        episode_id: 2,
        audio_url: "http://example.test/2.mp3".to_string(),
    }));
    assert!(q.enqueue_and_mark_processing(TranscriptionJob {
        episode_id: 3,
        audio_url: "http://example.test/3.mp3".to_string(),
    }));
    assert_eq!(q.queue_len(), 2);
    q.finish_active();

    assert_eq!(q.dequeue_or_park().expect("J2 queued").episode_id, 2);
    assert_eq!(q.dequeue_or_park().expect("J3 queued").episode_id, 3);
    assert!(q.dequeue_or_park().is_none());
    assert!(!q.status().is_processing);
}

#[test]
fn cancel_active_with_no_active_job_is_a_no_op() {
    let mut q = TranscriptionQueue::new();
    q.enqueue(TranscriptionJob {
        episode_id: 7,
        audio_url: "http://example.test/7.mp3".to_string(),
    });
    q.cancel_active();
    // the queued job is untouched and still runs
    assert_eq!(q.queue_len(), 1);
    assert_eq!(q.status().active_episode_id, None);
    assert_eq!(q.dequeue().expect("job kept").episode_id, 7);
}

#[test]
fn cancel_active_signals_the_registered_token() {
    let mut q = TranscriptionQueue::new();
    let token = q.register_active(42);
    assert_eq!(q.status().active_episode_id, Some(42));
    assert!(!token.is_cancelled());
    q.cancel_active();
    assert!(token.is_cancelled());
    assert_eq!(q.status().active_episode_id, None);
}

#[test]
fn cancel_active_does_not_cancel_queued_jobs_tokens() {
    let mut q = TranscriptionQueue::new();
    let first = q.register_active(1);
    q.cancel_active();
    assert!(first.is_cancelled());
    // the next job starts un-cancelled
    let second = q.register_active(2);
    assert!(!second.is_cancelled());
}

#[test]
fn diarization_queue_behaves_like_the_transcription_queue() {
    let mut q = DiarizationQueue::new();
    assert!(!q.enqueue_and_mark_processing(DiarizationJob {
        episode_id: 10,
        audio_url: "http://example.test/10.mp3".to_string(),
    }));
    assert!(q.enqueue_and_mark_processing(DiarizationJob {
        episode_id: 11,
        audio_url: "http://example.test/11.mp3".to_string(),
    }));
    assert_eq!(q.queue_len(), 2);
    assert_eq!(q.dequeue_or_park().expect("10 first").episode_id, 10);
    let token = q.register_active(10);
    q.cancel_active();
    assert!(token.is_cancelled());
    assert_eq!(q.dequeue_or_park().expect("11 second").episode_id, 11);
    assert!(q.dequeue_or_park().is_none());
    assert!(!q.status().is_processing);
}

#[test]
fn chaining_reuses_the_episode_and_audio_location() {
    let job = TranscriptionJob {
        episode_id: 33,
        audio_url: "http://example.test/33.mp3".to_string(),
    };
    let chained = podpipe::queue::chained_job(&job);
    assert_eq!(chained.episode_id, 33);
    assert_eq!(chained.audio_url, "http://example.test/33.mp3");
}
