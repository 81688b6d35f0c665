//! Per-job orchestration.
//!
//! Each job runs through acquisition, decode and inference, consulting the
//! status tracker after every stage transition and emitting a typed event
//! stream. The loop around a job — the network reads, the decoder, the
//! offloaded inference — lives outside this crate; what is verified here is
//! every decision: one state machine per stage maps each outcome observed at
//! a safe point to the next phase and to the actions the caller must
//! perform (delete the partial file, write a status, emit events, persist a
//! result, chain the next stage, move to the next job).
//!
//! Cancellation is cooperative: it is observed only at safe points, is
//! never reported as an error, always resets the episode to not-started,
//! and always removes the partial temp file. Every failure writes the error
//! status with a non-empty message, and no exit path leaves a temp file
//! behind.

use vstd::prelude::*;
use vstd::string::StringExecFns;
use crate::diarize::{segs_view, spec_is_solo, DiarizationSegment, MAX_SEGMENTS};
use crate::progress::{
    download_percent, inference_percent, spec_download_percent, spec_inference_percent,
};
use crate::status::{DiarizationStatus, TranscriptionStatus};
use crate::transcribe::TranscriptSegment;

verus! {

/// The transcription stage's event stream, as its caller sees it.
#[derive(Debug)]
pub enum TranscriptionEvent {
    Downloading { percent: i32 },
    Progress { percent: i32 },
    Segment { text: String, start_ms: i64, end_ms: i64 },
    Done { episode_id: i64 },
    Error { message: String },
    Cancelled,
}

/// The diarization stage's event stream, as its caller sees it.
#[derive(Debug)]
pub enum DiarizationEvent {
    Progress { percent: i32 },
    Done { episode_id: i64 },
    Error { message: String },
    Cancelled,
}

/// A pending write of the transcription status columns.
#[derive(Debug)]
pub struct TranscriptionStatusWrite {
    pub status: TranscriptionStatus,
    pub error: Option<String>,
}

/// A pending write of the diarization status columns.
#[derive(Debug)]
pub struct DiarizationStatusWrite {
    pub status: DiarizationStatus,
    pub error: Option<String>,
}

/// A finished transcription, ready to be persisted.
#[derive(Debug)]
pub struct TranscriptOutput {
    pub full_text: String,
    pub segments: Vec<TranscriptSegment>,
    pub model_name: String,
}

/// Where a transcription job stands.
#[derive(Clone, Copy, Debug, PartialEq, Eq, Structural)]
pub enum TranscriptionPhase {
    /// Resolving directories and opening the download.
    Starting,
    /// Streaming audio to the temp file, chunk by chunk.
    Downloading,
    /// Decoding the temp file to PCM.
    Decoding,
    /// Running the model window by window.
    Inferring,
    /// Terminal: the worker moves on.
    Finished,
}

/// The orchestration state of one transcription job.
#[derive(Clone, Copy, Debug, PartialEq, Eq, Structural)]
pub struct TranscriptionRun {
    pub episode_id: i64,
    pub phase: TranscriptionPhase,
    /// Whether a (partial or complete) temp audio file exists on disk.
    pub temp_file: bool,
    pub downloaded_bytes: u64,
    pub total_bytes: u64,
}

/// How the offloaded inference task ended.
#[derive(Debug)]
pub enum TranscriptionOutcome {
    /// All windows ran (or cancellation broke the loop early).
    Completed { output: TranscriptOutput },
    /// The backend reported an error; the message arrives formatted.
    Failed { message: String },
    /// The offloaded task aborted abnormally.
    Panicked { cause: String },
}

/// What the caller observed at a safe point of a transcription job.
#[derive(Debug)]
pub enum TranscriptionRunEvent {
    /// Directory resolution or creation failed before anything was written;
    /// the message arrives formatted.
    SetupFailed { message: String },
    /// The download request itself failed.
    RequestFailed { cause: String },
    /// The temp file could not be created.
    TempFileCreateFailed { cause: String },
    /// The response is open and the temp file exists; the advertised length
    /// (0 when unknown) drives the progress mapping.
    DownloadStarted { total_bytes: u64 },
    /// The cancellation token was observed set at a safe point.
    CancelObserved,
    /// One chunk was appended to the temp file.
    ChunkWritten { len: u64 },
    /// The response stream broke mid-download.
    StreamFailed { cause: String },
    /// A chunk could not be written to disk.
    WriteFailed { cause: String },
    /// The final flush failed.
    FlushFailed { cause: String },
    /// The file is flushed and closed; decoding may begin.
    DownloadFinished,
    /// The decoder gave up on the file.
    DecodeFailed { cause: String },
    /// Decoding produced the PCM buffer.
    DecodeFinished,
    /// One inference window finished; progress covers the second half of
    /// the range.
    WindowCompleted { windows_done: usize, windows_total: usize },
    /// The offloaded inference task returned. `cancelled` is the token as
    /// observed after the task; `models_present` says whether the
    /// diarization models are on disk, which decides chaining.
    InferenceFinished { cancelled: bool, models_present: bool, outcome: TranscriptionOutcome },
}

/// What the caller must do after one transcription step.
#[derive(Debug)]
pub struct TranscriptionActions {
    /// Delete the temp audio file now.
    pub delete_temp: bool,
    /// Write these status columns for the episode.
    pub status: Option<TranscriptionStatusWrite>,
    /// Emit these events, in order (best effort).
    pub events: Vec<TranscriptionEvent>,
    /// Persist this transcript (replacing any prior one).
    pub store: Option<TranscriptOutput>,
    /// Enqueue a diarization job for the same episode and audio location.
    pub chain_diarization: bool,
    /// The job is over: clear the queue's active id and token, move on.
    pub finished: bool,
}

/// Which events a transcription run can observe in which phase.
pub open spec fn transcription_event_allowed(
    phase: TranscriptionPhase,
    e: TranscriptionRunEvent,
) -> bool {
    match e {
        TranscriptionRunEvent::SetupFailed { .. } => phase == TranscriptionPhase::Starting,
        TranscriptionRunEvent::RequestFailed { .. } => phase == TranscriptionPhase::Starting,
        TranscriptionRunEvent::TempFileCreateFailed { .. } => phase == TranscriptionPhase::Starting,
        TranscriptionRunEvent::DownloadStarted { .. } => phase == TranscriptionPhase::Starting,
        TranscriptionRunEvent::CancelObserved => phase == TranscriptionPhase::Downloading,
        TranscriptionRunEvent::ChunkWritten { .. } => phase == TranscriptionPhase::Downloading,
        TranscriptionRunEvent::StreamFailed { .. } => phase == TranscriptionPhase::Downloading,
        TranscriptionRunEvent::WriteFailed { .. } => phase == TranscriptionPhase::Downloading,
        TranscriptionRunEvent::FlushFailed { .. } => phase == TranscriptionPhase::Downloading,
        TranscriptionRunEvent::DownloadFinished => phase == TranscriptionPhase::Downloading,
        TranscriptionRunEvent::DecodeFailed { .. } => phase == TranscriptionPhase::Decoding,
        TranscriptionRunEvent::DecodeFinished => phase == TranscriptionPhase::Decoding,
        TranscriptionRunEvent::WindowCompleted { .. } => phase == TranscriptionPhase::Inferring,
        TranscriptionRunEvent::InferenceFinished { .. } => phase == TranscriptionPhase::Inferring,
    }
}

/// The side conditions an event must bring: messages that callers formatted
/// are non-empty, and the counters stay within machine limits.
pub open spec fn transcription_event_ok(run: TranscriptionRun, e: TranscriptionRunEvent) -> bool {
    match e {
        TranscriptionRunEvent::SetupFailed { message } => message@.len() > 0,
        TranscriptionRunEvent::ChunkWritten { len } => run.downloaded_bytes + len <= u64::MAX as int
            / 50,
        TranscriptionRunEvent::WindowCompleted { windows_done, windows_total } => 0 < windows_total
            <= usize::MAX as int / 50 && windows_done <= windows_total,
        TranscriptionRunEvent::InferenceFinished { outcome, .. } => match outcome {
            TranscriptionOutcome::Failed { message } => message@.len() > 0,
            _ => true,
        },
        _ => true,
    }
}

/// A failure step: the run is over, the temp file (if any) is deleted, the
/// episode's status becomes the error status carrying the non-empty
/// message, the same message goes out as an error event, nothing is stored
/// and nothing is chained.
pub open spec fn transcription_failure(
    pre: TranscriptionRun,
    post: TranscriptionRun,
    a: TranscriptionActions,
    msg: Seq<char>,
) -> bool {
    &&& msg.len() > 0
    &&& post == TranscriptionRun { phase: TranscriptionPhase::Finished, temp_file: false, ..pre }
    &&& a.delete_temp == pre.temp_file
    &&& a.status matches Some(w) && w.status == TranscriptionStatus::Error && (w.error matches Some(
        m,
    ) && m@ == msg)
    &&& a.events@.len() == 1
    &&& a.events@[0] matches TranscriptionEvent::Error { message } && message@ == msg
    &&& a.store is None
    &&& !a.chain_diarization
    &&& a.finished
}

/// A cancellation step: never an error — the run is over, the temp file (if
/// any) is deleted, the episode returns to not-started with the error
/// cleared (so a retry starts clean), one cancelled event goes out, nothing
/// is stored and nothing is chained.
pub open spec fn transcription_cancellation(
    pre: TranscriptionRun,
    post: TranscriptionRun,
    a: TranscriptionActions,
) -> bool {
    &&& post == TranscriptionRun { phase: TranscriptionPhase::Finished, temp_file: false, ..pre }
    &&& a.delete_temp == pre.temp_file
    &&& a.status matches Some(w) && w.status == TranscriptionStatus::NotStarted && w.error is None
    &&& a.events@.len() == 1
    &&& a.events@[0] is Cancelled
    &&& a.store is None
    &&& !a.chain_diarization
    &&& a.finished
}

impl TranscriptionRun {
    /// Starts the run for one episode: the status moves to downloading
    /// before anything touches the network or the disk.
    pub fn begin(episode_id: i64) -> (r: (TranscriptionRun, TranscriptionActions))
        ensures
            r.0 == (TranscriptionRun {
                episode_id,
                phase: TranscriptionPhase::Starting,
                temp_file: false,
                downloaded_bytes: 0,
                total_bytes: 0,
            }),
            r.1.status matches Some(w) && w.status == TranscriptionStatus::Downloading && w.error
                is None,
            r.1.events@.len() == 0,
            !r.1.delete_temp,
            r.1.store is None,
            !r.1.chain_diarization,
            !r.1.finished,
    {
        let run = TranscriptionRun {
            episode_id,
            phase: TranscriptionPhase::Starting,
            temp_file: false,
            downloaded_bytes: 0,
            total_bytes: 0,
        };
        let actions = TranscriptionActions {
            delete_temp: false,
            status: Some(
                TranscriptionStatusWrite { status: TranscriptionStatus::Downloading, error: None },
            ),
            events: Vec::new(),
            store: None,
            chain_diarization: false,
            finished: false,
        };
        (run, actions)
    }

    fn fail(&mut self, message: String) -> (r: TranscriptionActions)
        requires
            message@.len() > 0,
        ensures
            transcription_failure(*old(self), *final(self), r, message@),
    {
        let delete_temp = self.temp_file;
        self.temp_file = false;
        self.phase = TranscriptionPhase::Finished;
        let status_message = message.clone();
        let mut events: Vec<TranscriptionEvent> = Vec::new();
        events.push(TranscriptionEvent::Error { message });
        TranscriptionActions {
            delete_temp,
            status: Some(
                TranscriptionStatusWrite {
                    status: TranscriptionStatus::Error,
                    error: Some(status_message),
                },
            ),
            events,
            store: None,
            chain_diarization: false,
            finished: true,
        }
    }

    fn cancelled(&mut self) -> (r: TranscriptionActions)
        ensures
            transcription_cancellation(*old(self), *final(self), r),
    {
        let delete_temp = self.temp_file;
        self.temp_file = false;
        self.phase = TranscriptionPhase::Finished;
        let mut events: Vec<TranscriptionEvent> = Vec::new();
        events.push(TranscriptionEvent::Cancelled);
        TranscriptionActions {
            delete_temp,
            status: Some(
                TranscriptionStatusWrite {
                    status: TranscriptionStatus::NotStarted,
                    error: None,
                },
            ),
            events,
            store: None,
            chain_diarization: false,
            finished: true,
        }
    }

    fn prefixed(prefix: &str, cause: String) -> (r: String)
        requires
            prefix@.len() > 0,
        ensures
            r@ == prefix@ + cause@,
            r@.len() > 0,
    {
        let mut m = prefix.to_owned();
        m.append(cause.as_str());
        m
    }

    /// One orchestration step: maps what was observed at a safe point to the
    /// next phase and the actions to perform.
    pub fn step(&mut self, event: TranscriptionRunEvent) -> (r: TranscriptionActions)
        requires
            transcription_event_allowed(old(self).phase, event),
            transcription_event_ok(*old(self), event),
        ensures
            final(self).episode_id == old(self).episode_id,
            r.finished == (final(self).phase == TranscriptionPhase::Finished),
            r.finished ==> !final(self).temp_file,
            // setup failures: nothing on disk yet, error status and event
            (event matches TranscriptionRunEvent::SetupFailed { message } ==> transcription_failure(
                *old(self),
                *final(self),
                r,
                message@,
            )),
            (event matches TranscriptionRunEvent::RequestFailed { cause }
                ==> transcription_failure(
                *old(self),
                *final(self),
                r,
                "Audio download failed: "@ + cause@,
            )),
            (event matches TranscriptionRunEvent::TempFileCreateFailed { cause }
                ==> transcription_failure(
                *old(self),
                *final(self),
                r,
                "Cannot create temp audio file: "@ + cause@,
            )),
            // the download is open: the temp file now exists
            (event matches TranscriptionRunEvent::DownloadStarted { total_bytes } ==> {
                &&& *final(self) == TranscriptionRun {
                    phase: TranscriptionPhase::Downloading,
                    temp_file: true,
                    total_bytes,
                    ..*old(self)
                }
                &&& !r.delete_temp
                &&& r.status is None
                &&& r.events@.len() == 0
                &&& r.store is None
                &&& !r.chain_diarization
                &&& !r.finished
            }),
            // cancellation is observed between chunks, never reported as an error
            (event matches TranscriptionRunEvent::CancelObserved ==> transcription_cancellation(
                *old(self),
                *final(self),
                r,
            )),
            // one chunk: count it and report the mapped percentage
            (event matches TranscriptionRunEvent::ChunkWritten { len } ==> {
                &&& *final(self) == TranscriptionRun {
                    downloaded_bytes: (old(self).downloaded_bytes + len) as u64,
                    ..*old(self)
                }
                &&& !r.delete_temp
                &&& r.status is None
                &&& r.events@.len() == 1
                &&& r.events@[0] matches TranscriptionEvent::Downloading { percent } && percent
                    == spec_download_percent(
                    old(self).downloaded_bytes + len,
                    old(self).total_bytes as int,
                )
                &&& r.store is None
                &&& !r.chain_diarization
                &&& !r.finished
            }),
            (event matches TranscriptionRunEvent::StreamFailed { cause } ==> transcription_failure(
                *old(self),
                *final(self),
                r,
                "Download stream error: "@ + cause@,
            )),
            (event matches TranscriptionRunEvent::WriteFailed { cause } ==> transcription_failure(
                *old(self),
                *final(self),
                r,
                "Failed to write audio chunk: "@ + cause@,
            )),
            (event matches TranscriptionRunEvent::FlushFailed { cause } ==> transcription_failure(
                *old(self),
                *final(self),
                r,
                "Failed to flush audio file: "@ + cause@,
            )),
            // the file is complete: decoding begins under the transcribing status
            (event matches TranscriptionRunEvent::DownloadFinished ==> {
                &&& *final(self) == TranscriptionRun {
                    phase: TranscriptionPhase::Decoding,
                    ..*old(self)
                }
                &&& !r.delete_temp
                &&& r.status matches Some(w) && w.status == TranscriptionStatus::Transcribing
                    && w.error is None
                &&& r.events@.len() == 0
                &&& r.store is None
                &&& !r.chain_diarization
                &&& !r.finished
            }),
            (event matches TranscriptionRunEvent::DecodeFailed { cause } ==> transcription_failure(
                *old(self),
                *final(self),
                r,
                "Audio decode failed: "@ + cause@,
            )),
            // the PCM buffer is ready; the temp file stays until inference ends
            (event matches TranscriptionRunEvent::DecodeFinished ==> {
                &&& *final(self) == TranscriptionRun {
                    phase: TranscriptionPhase::Inferring,
                    ..*old(self)
                }
                &&& !r.delete_temp
                &&& r.status is None
                &&& r.events@.len() == 0
                &&& r.store is None
                &&& !r.chain_diarization
                &&& !r.finished
            }),
            // per-window progress in the inference half of the range
            (event matches TranscriptionRunEvent::WindowCompleted { windows_done, windows_total }
                ==> {
                &&& *final(self) == *old(self)
                &&& !r.delete_temp
                &&& r.status is None
                &&& r.events@.len() == 1
                &&& r.events@[0] matches TranscriptionEvent::Progress { percent } && percent
                    == spec_inference_percent(windows_done as int, windows_total as int)
                &&& r.store is None
                &&& !r.chain_diarization
                &&& !r.finished
            }),
            // the task came back: the temp file goes either way; then the
            // token decides, then the outcome
            (event matches TranscriptionRunEvent::InferenceFinished {
                cancelled,
                models_present,
                outcome,
            } ==> {
                &&& (cancelled ==> transcription_cancellation(*old(self), *final(self), r))
                &&& (!cancelled ==> match outcome {
                    TranscriptionOutcome::Completed { output } => {
                        &&& *final(self) == TranscriptionRun {
                            phase: TranscriptionPhase::Finished,
                            temp_file: false,
                            ..*old(self)
                        }
                        &&& r.delete_temp == old(self).temp_file
                        &&& r.status matches Some(w) && w.status == TranscriptionStatus::Done
                            && w.error is None
                        &&& r.events@.len() == 1
                        &&& r.events@[0] matches TranscriptionEvent::Done { episode_id }
                            && episode_id == old(self).episode_id
                        &&& r.store == Some(output)
                        &&& r.chain_diarization == models_present
                        &&& r.finished
                    },
                    TranscriptionOutcome::Failed { message } => transcription_failure(
                        *old(self),
                        *final(self),
                        r,
                        message@,
                    ),
                    TranscriptionOutcome::Panicked { cause } => transcription_failure(
                        *old(self),
                        *final(self),
                        r,
                        "Whisper task panicked: "@ + cause@,
                    ),
                })
            }),
    {
        match event {
            TranscriptionRunEvent::SetupFailed { message } => self.fail(message),
            TranscriptionRunEvent::RequestFailed { cause } => {
                proof {
                    reveal_strlit("Audio download failed: ");
                }
                let m = Self::prefixed("Audio download failed: ", cause);
                self.fail(m)
            },
            TranscriptionRunEvent::TempFileCreateFailed { cause } => {
                proof {
                    reveal_strlit("Cannot create temp audio file: ");
                }
                let m = Self::prefixed("Cannot create temp audio file: ", cause);
                self.fail(m)
            },
            TranscriptionRunEvent::DownloadStarted { total_bytes } => {
                self.phase = TranscriptionPhase::Downloading;
                self.temp_file = true;
                self.total_bytes = total_bytes;
                TranscriptionActions {
                    delete_temp: false,
                    status: None,
                    events: Vec::new(),
                    store: None,
                    chain_diarization: false,
                    finished: false,
                }
            },
            TranscriptionRunEvent::CancelObserved => self.cancelled(),
            TranscriptionRunEvent::ChunkWritten { len } => {
                self.downloaded_bytes = self.downloaded_bytes + len;
                let percent = download_percent(self.downloaded_bytes, self.total_bytes);
                let mut events: Vec<TranscriptionEvent> = Vec::new();
                events.push(TranscriptionEvent::Downloading { percent });
                TranscriptionActions {
                    delete_temp: false,
                    status: None,
                    events,
                    store: None,
                    chain_diarization: false,
                    finished: false,
                }
            },
            TranscriptionRunEvent::StreamFailed { cause } => {
                proof {
                    reveal_strlit("Download stream error: ");
                }
                let m = Self::prefixed("Download stream error: ", cause);
                self.fail(m)
            },
            TranscriptionRunEvent::WriteFailed { cause } => {
                proof {
                    reveal_strlit("Failed to write audio chunk: ");
                }
                let m = Self::prefixed("Failed to write audio chunk: ", cause);
                self.fail(m)
            },
            TranscriptionRunEvent::FlushFailed { cause } => {
                proof {
                    reveal_strlit("Failed to flush audio file: ");
                }
                let m = Self::prefixed("Failed to flush audio file: ", cause);
                self.fail(m)
            },
            TranscriptionRunEvent::DownloadFinished => {
                self.phase = TranscriptionPhase::Decoding;
                TranscriptionActions {
                    delete_temp: false,
                    status: Some(
                        TranscriptionStatusWrite {
                            status: TranscriptionStatus::Transcribing,
                            error: None,
                        },
                    ),
                    events: Vec::new(),
                    store: None,
                    chain_diarization: false,
                    finished: false,
                }
            },
            TranscriptionRunEvent::DecodeFailed { cause } => {
                proof {
                    reveal_strlit("Audio decode failed: ");
                }
                let m = Self::prefixed("Audio decode failed: ", cause);
                self.fail(m)
            },
            TranscriptionRunEvent::DecodeFinished => {
                self.phase = TranscriptionPhase::Inferring;
                TranscriptionActions {
                    delete_temp: false,
                    status: None,
                    events: Vec::new(),
                    store: None,
                    chain_diarization: false,
                    finished: false,
                }
            },
            TranscriptionRunEvent::WindowCompleted { windows_done, windows_total } => {
                let percent = inference_percent(windows_done, windows_total);
                let mut events: Vec<TranscriptionEvent> = Vec::new();
                events.push(TranscriptionEvent::Progress { percent });
                TranscriptionActions {
                    delete_temp: false,
                    status: None,
                    events,
                    store: None,
                    chain_diarization: false,
                    finished: false,
                }
            },
            TranscriptionRunEvent::InferenceFinished { cancelled, models_present, outcome } => {
                if cancelled {
                    self.cancelled()
                } else {
                    match outcome {
                        TranscriptionOutcome::Completed { output } => {
                            let delete_temp = self.temp_file;
                            self.temp_file = false;
                            self.phase = TranscriptionPhase::Finished;
                            let mut events: Vec<TranscriptionEvent> = Vec::new();
                            events.push(
                                TranscriptionEvent::Done { episode_id: self.episode_id },
                            );
                            TranscriptionActions {
                                delete_temp,
                                status: Some(
                                    TranscriptionStatusWrite {
                                        status: TranscriptionStatus::Done,
                                        error: None,
                                    },
                                ),
                                events,
                                store: Some(output),
                                chain_diarization: models_present,
                                finished: true,
                            }
                        },
                        TranscriptionOutcome::Failed { message } => self.fail(message),
                        TranscriptionOutcome::Panicked { cause } => {
                            proof {
                                reveal_strlit("Whisper task panicked: ");
                            }
                            let m = Self::prefixed("Whisper task panicked: ", cause);
                            self.fail(m)
                        },
                    }
                }
            },
        }
    }
}

/// Where a diarization job stands.
#[derive(Clone, Copy, Debug, PartialEq, Eq, Structural)]
pub enum DiarizationPhase {
    /// Resolving directories and opening the download.
    Starting,
    /// Streaming audio to the temp file, chunk by chunk.
    Downloading,
    /// Decoding the temp file to PCM.
    Decoding,
    /// Running segmentation and clustering over the whole buffer.
    Inferring,
    /// Writing the segment rows (delete then insert, one transaction).
    Persisting,
    /// Terminal: the worker moves on.
    Finished,
}

/// The orchestration state of one diarization job.
#[derive(Clone, Copy, Debug, PartialEq, Eq, Structural)]
pub struct DiarizationRun {
    pub episode_id: i64,
    pub phase: DiarizationPhase,
    /// Whether a (partial or complete) temp audio file exists on disk.
    pub temp_file: bool,
    pub downloaded_bytes: u64,
    pub total_bytes: u64,
    /// The solo classification of the computed segments, fixed when
    /// inference completes and written once the rows are stored.
    pub solo: bool,
}

/// How the offloaded diarization task ended.
#[derive(Debug)]
pub enum DiarizationOutcome {
    /// Clustering produced the labeled segments, in milliseconds.
    Completed { segments: Vec<DiarizationSegment> },
    /// The backend reported an error; the message arrives formatted.
    Failed { message: String },
    /// The offloaded task aborted abnormally.
    Panicked { cause: String },
}

/// What the caller observed at a safe point of a diarization job.
#[derive(Debug)]
pub enum DiarizationRunEvent {
    /// Directory resolution or creation failed before anything was written;
    /// the message arrives formatted.
    SetupFailed { message: String },
    /// The download request itself failed.
    RequestFailed { cause: String },
    /// The temp file could not be created.
    TempFileCreateFailed { cause: String },
    /// The response is open and the temp file exists.
    DownloadStarted { total_bytes: u64 },
    /// The cancellation token was observed set at a safe point.
    CancelObserved,
    /// One chunk was appended to the temp file.
    ChunkWritten { len: u64 },
    /// The response stream broke mid-download.
    StreamFailed { cause: String },
    /// A chunk could not be written to disk.
    WriteFailed { cause: String },
    /// The final flush failed.
    FlushFailed { cause: String },
    /// The file is flushed and closed; decoding may begin.
    DownloadFinished,
    /// The decoder gave up on the file.
    DecodeFailed { cause: String },
    /// Decoding produced the PCM buffer; the temp file goes at once.
    DecodeFinished,
    /// The offloaded clustering task returned.
    InferenceFinished { outcome: DiarizationOutcome },
    /// The segment rows were written (or the write failed).
    StoreFinished { error: Option<String> },
}

/// What the caller must do after one diarization step.
#[derive(Debug)]
pub struct DiarizationActions {
    /// Delete the temp audio file now.
    pub delete_temp: bool,
    /// Write these status columns for the episode.
    pub status: Option<DiarizationStatusWrite>,
    /// Emit these events, in order (best effort; chained runs have no
    /// listener and drop them).
    pub events: Vec<DiarizationEvent>,
    /// Replace the episode's segment rows with these, as one transaction.
    pub store: Option<Vec<DiarizationSegment>>,
    /// The job is over: clear the queue's active id and token, move on.
    pub finished: bool,
}

/// Which events a diarization run can observe in which phase.
pub open spec fn diarization_event_allowed(phase: DiarizationPhase, e: DiarizationRunEvent) -> bool {
    match e {
        DiarizationRunEvent::SetupFailed { .. } => phase == DiarizationPhase::Starting,
        DiarizationRunEvent::RequestFailed { .. } => phase == DiarizationPhase::Starting,
        DiarizationRunEvent::TempFileCreateFailed { .. } => phase == DiarizationPhase::Starting,
        DiarizationRunEvent::DownloadStarted { .. } => phase == DiarizationPhase::Starting,
        DiarizationRunEvent::CancelObserved => phase == DiarizationPhase::Downloading,
        DiarizationRunEvent::ChunkWritten { .. } => phase == DiarizationPhase::Downloading,
        DiarizationRunEvent::StreamFailed { .. } => phase == DiarizationPhase::Downloading,
        DiarizationRunEvent::WriteFailed { .. } => phase == DiarizationPhase::Downloading,
        DiarizationRunEvent::FlushFailed { .. } => phase == DiarizationPhase::Downloading,
        DiarizationRunEvent::DownloadFinished => phase == DiarizationPhase::Downloading,
        DiarizationRunEvent::DecodeFailed { .. } => phase == DiarizationPhase::Decoding,
        DiarizationRunEvent::DecodeFinished => phase == DiarizationPhase::Decoding,
        DiarizationRunEvent::InferenceFinished { .. } => phase == DiarizationPhase::Inferring,
        DiarizationRunEvent::StoreFinished { .. } => phase == DiarizationPhase::Persisting,
    }
}

/// The side conditions a diarization event must bring: formatted messages
/// are non-empty, counters stay within machine limits, and computed
/// segments are within the bounds that keep the solo arithmetic in `i64`.
pub open spec fn diarization_event_ok(run: DiarizationRun, e: DiarizationRunEvent) -> bool {
    match e {
        DiarizationRunEvent::SetupFailed { message } => message@.len() > 0,
        DiarizationRunEvent::ChunkWritten { len } => run.downloaded_bytes + len <= u64::MAX as int
            / 50,
        DiarizationRunEvent::InferenceFinished { outcome } => match outcome {
            DiarizationOutcome::Completed { segments } => {
                &&& forall|i: int|
                    0 <= i < segments@.len() ==> (#[trigger] segments@[i]).wf()
                &&& segments@.len() <= MAX_SEGMENTS
            },
            DiarizationOutcome::Failed { message } => message@.len() > 0,
            _ => true,
        },
        DiarizationRunEvent::StoreFinished { error } => match error {
            Some(message) => message@.len() > 0,
            None => true,
        },
        _ => true,
    }
}

/// A failure step of a diarization run; `extra_progress` says whether a
/// 100% progress event precedes the error event (it does when the inference
/// task has just returned).
pub open spec fn diarization_failure(
    pre: DiarizationRun,
    post: DiarizationRun,
    a: DiarizationActions,
    msg: Seq<char>,
    extra_progress: bool,
) -> bool {
    &&& msg.len() > 0
    &&& post == DiarizationRun { phase: DiarizationPhase::Finished, temp_file: false, ..pre }
    &&& a.delete_temp == pre.temp_file
    &&& a.status matches Some(w) && w.status == DiarizationStatus::Error && (w.error matches Some(m)
        && m@ == msg)
    &&& if extra_progress {
        &&& a.events@.len() == 2
        &&& a.events@[0] matches DiarizationEvent::Progress { percent } && percent == 100
        &&& a.events@[1] matches DiarizationEvent::Error { message } && message@ == msg
    } else {
        &&& a.events@.len() == 1
        &&& a.events@[0] matches DiarizationEvent::Error { message } && message@ == msg
    }
    &&& a.store is None
    &&& a.finished
}

/// A cancellation step of a diarization run: never an error, the episode
/// returns to not-started, the temp file goes.
pub open spec fn diarization_cancellation(
    pre: DiarizationRun,
    post: DiarizationRun,
    a: DiarizationActions,
) -> bool {
    &&& post == DiarizationRun { phase: DiarizationPhase::Finished, temp_file: false, ..pre }
    &&& a.delete_temp == pre.temp_file
    &&& a.status matches Some(w) && w.status == DiarizationStatus::NotStarted && w.error is None
    &&& a.events@.len() == 1
    &&& a.events@[0] is Cancelled
    &&& a.store is None
    &&& a.finished
}

impl DiarizationRun {
    /// Starts the run for one episode: the status moves to processing before
    /// anything touches the network or the disk.
    pub fn begin(episode_id: i64) -> (r: (DiarizationRun, DiarizationActions))
        ensures
            r.0 == (DiarizationRun {
                episode_id,
                phase: DiarizationPhase::Starting,
                temp_file: false,
                downloaded_bytes: 0,
                total_bytes: 0,
                solo: false,
            }),
            r.1.status matches Some(w) && w.status == DiarizationStatus::Processing && w.error
                is None,
            r.1.events@.len() == 0,
            !r.1.delete_temp,
            r.1.store is None,
            !r.1.finished,
    {
        let run = DiarizationRun {
            episode_id,
            phase: DiarizationPhase::Starting,
            temp_file: false,
            downloaded_bytes: 0,
            total_bytes: 0,
            solo: false,
        };
        let actions = DiarizationActions {
            delete_temp: false,
            status: Some(
                DiarizationStatusWrite { status: DiarizationStatus::Processing, error: None },
            ),
            events: Vec::new(),
            store: None,
            finished: false,
        };
        (run, actions)
    }

    fn fail(&mut self, message: String, extra_progress: bool) -> (r: DiarizationActions)
        requires
            message@.len() > 0,
        ensures
            diarization_failure(*old(self), *final(self), r, message@, extra_progress),
    {
        let delete_temp = self.temp_file;
        self.temp_file = false;
        self.phase = DiarizationPhase::Finished;
        let status_message = message.clone();
        let mut events: Vec<DiarizationEvent> = Vec::new();
        if extra_progress {
            events.push(DiarizationEvent::Progress { percent: 100 });
        }
        events.push(DiarizationEvent::Error { message });
        DiarizationActions {
            delete_temp,
            status: Some(
                DiarizationStatusWrite {
                    status: DiarizationStatus::Error,
                    error: Some(status_message),
                },
            ),
            events,
            store: None,
            finished: true,
        }
    }

    fn cancelled(&mut self) -> (r: DiarizationActions)
        ensures
            diarization_cancellation(*old(self), *final(self), r),
    {
        let delete_temp = self.temp_file;
        self.temp_file = false;
        self.phase = DiarizationPhase::Finished;
        let mut events: Vec<DiarizationEvent> = Vec::new();
        events.push(DiarizationEvent::Cancelled);
        DiarizationActions {
            delete_temp,
            status: Some(
                DiarizationStatusWrite { status: DiarizationStatus::NotStarted, error: None },
            ),
            events,
            store: None,
            finished: true,
        }
    }

    /// One orchestration step: maps what was observed at a safe point to the
    /// next phase and the actions to perform.
    pub fn step(&mut self, event: DiarizationRunEvent) -> (r: DiarizationActions)
        requires
            diarization_event_allowed(old(self).phase, event),
            diarization_event_ok(*old(self), event),
        ensures
            final(self).episode_id == old(self).episode_id,
            r.finished == (final(self).phase == DiarizationPhase::Finished),
            r.finished ==> !final(self).temp_file,
            (event matches DiarizationRunEvent::SetupFailed { message } ==> diarization_failure(
                *old(self),
                *final(self),
                r,
                message@,
                false,
            )),
            (event matches DiarizationRunEvent::RequestFailed { cause } ==> diarization_failure(
                *old(self),
                *final(self),
                r,
                "Audio download failed: "@ + cause@,
                false,
            )),
            (event matches DiarizationRunEvent::TempFileCreateFailed { cause }
                ==> diarization_failure(
                *old(self),
                *final(self),
                r,
                "Cannot create temp audio file: "@ + cause@,
                false,
            )),
            (event matches DiarizationRunEvent::DownloadStarted { total_bytes } ==> {
                &&& *final(self) == DiarizationRun {
                    phase: DiarizationPhase::Downloading,
                    temp_file: true,
                    total_bytes,
                    ..*old(self)
                }
                &&& !r.delete_temp
                &&& r.status is None
                &&& r.events@.len() == 0
                &&& r.store is None
                &&& !r.finished
            }),
            (event matches DiarizationRunEvent::CancelObserved ==> diarization_cancellation(
                *old(self),
                *final(self),
                r,
            )),
            (event matches DiarizationRunEvent::ChunkWritten { len } ==> {
                &&& *final(self) == DiarizationRun {
                    downloaded_bytes: (old(self).downloaded_bytes + len) as u64,
                    ..*old(self)
                }
                &&& !r.delete_temp
                &&& r.status is None
                &&& r.events@.len() == 1
                &&& r.events@[0] matches DiarizationEvent::Progress { percent } && percent
                    == spec_download_percent(
                    old(self).downloaded_bytes + len,
                    old(self).total_bytes as int,
                )
                &&& r.store is None
                &&& !r.finished
            }),
            (event matches DiarizationRunEvent::StreamFailed { cause } ==> diarization_failure(
                *old(self),
                *final(self),
                r,
                "Download stream error: "@ + cause@,
                false,
            )),
            (event matches DiarizationRunEvent::WriteFailed { cause } ==> diarization_failure(
                *old(self),
                *final(self),
                r,
                "Failed to write audio chunk: "@ + cause@,
                false,
            )),
            (event matches DiarizationRunEvent::FlushFailed { cause } ==> diarization_failure(
                *old(self),
                *final(self),
                r,
                "Failed to flush audio file: "@ + cause@,
                false,
            )),
            (event matches DiarizationRunEvent::DownloadFinished ==> {
                &&& *final(self) == DiarizationRun {
                    phase: DiarizationPhase::Decoding,
                    ..*old(self)
                }
                &&& !r.delete_temp
                &&& r.status is None
                &&& r.events@.len() == 0
                &&& r.store is None
                &&& !r.finished
            }),
            (event matches DiarizationRunEvent::DecodeFailed { cause } ==> diarization_failure(
                *old(self),
                *final(self),
                r,
                "Audio decode failed: "@ + cause@,
                false,
            )),
            // the buffer is decoded: the temp file goes before inference
            (event matches DiarizationRunEvent::DecodeFinished ==> {
                &&& *final(self) == DiarizationRun {
                    phase: DiarizationPhase::Inferring,
                    temp_file: false,
                    ..*old(self)
                }
                &&& r.delete_temp == old(self).temp_file
                &&& r.status is None
                &&& r.events@.len() == 0
                &&& r.store is None
                &&& !r.finished
            }),
            (event matches DiarizationRunEvent::InferenceFinished { outcome } ==> match outcome {
                DiarizationOutcome::Completed { segments } => {
                    &&& *final(self) == DiarizationRun {
                        phase: DiarizationPhase::Persisting,
                        solo: spec_is_solo(segs_view(segments@)),
                        ..*old(self)
                    }
                    &&& !r.delete_temp
                    &&& r.status is None
                    &&& r.events@.len() == 1
                    &&& r.events@[0] matches DiarizationEvent::Progress { percent } && percent
                        == 100
                    &&& r.store == Some(segments)
                    &&& !r.finished
                },
                DiarizationOutcome::Failed { message } => diarization_failure(
                    *old(self),
                    *final(self),
                    r,
                    message@,
                    true,
                ),
                DiarizationOutcome::Panicked { cause } => diarization_failure(
                    *old(self),
                    *final(self),
                    r,
                    "Diarization task panicked: "@ + cause@,
                    true,
                ),
            }),
            // the rows are in (or the write failed): the terminal status is
            // solo or done, never losing the stored segments
            (event matches DiarizationRunEvent::StoreFinished { error } ==> match error {
                Some(message) => diarization_failure(
                    *old(self),
                    *final(self),
                    r,
                    message@,
                    false,
                ),
                None => {
                    &&& *final(self) == DiarizationRun {
                        phase: DiarizationPhase::Finished,
                        temp_file: false,
                        ..*old(self)
                    }
                    &&& !r.delete_temp
                    &&& r.status matches Some(w) && w.status == (if old(self).solo {
                        DiarizationStatus::Solo
                    } else {
                        DiarizationStatus::Done
                    }) && w.error is None
                    &&& r.events@.len() == 1
                    &&& r.events@[0] matches DiarizationEvent::Done { episode_id } && episode_id
                        == old(self).episode_id
                    &&& r.store is None
                    &&& r.finished
                },
            }),
    {
        match event {
            DiarizationRunEvent::SetupFailed { message } => self.fail(message, false),
            DiarizationRunEvent::RequestFailed { cause } => {
                proof {
                    reveal_strlit("Audio download failed: ");
                }
                let m = TranscriptionRun::prefixed("Audio download failed: ", cause);
                self.fail(m, false)
            },
            DiarizationRunEvent::TempFileCreateFailed { cause } => {
                proof {
                    reveal_strlit("Cannot create temp audio file: ");
                }
                let m = TranscriptionRun::prefixed("Cannot create temp audio file: ", cause);
                self.fail(m, false)
            },
            DiarizationRunEvent::DownloadStarted { total_bytes } => {
                self.phase = DiarizationPhase::Downloading;
                self.temp_file = true;
                self.total_bytes = total_bytes;
                DiarizationActions {
                    delete_temp: false,
                    status: None,
                    events: Vec::new(),
                    store: None,
                    finished: false,
                }
            },
            DiarizationRunEvent::CancelObserved => self.cancelled(),
            DiarizationRunEvent::ChunkWritten { len } => {
                self.downloaded_bytes = self.downloaded_bytes + len;
                let percent = download_percent(self.downloaded_bytes, self.total_bytes);
                let mut events: Vec<DiarizationEvent> = Vec::new();
                events.push(DiarizationEvent::Progress { percent });
                DiarizationActions {
                    delete_temp: false,
                    status: None,
                    events,
                    store: None,
                    finished: false,
                }
            },
            DiarizationRunEvent::StreamFailed { cause } => {
                proof {
                    reveal_strlit("Download stream error: ");
                }
                let m = TranscriptionRun::prefixed("Download stream error: ", cause);
                self.fail(m, false)
            },
            DiarizationRunEvent::WriteFailed { cause } => {
                proof {
                    reveal_strlit("Failed to write audio chunk: ");
                }
                let m = TranscriptionRun::prefixed("Failed to write audio chunk: ", cause);
                self.fail(m, false)
            },
            DiarizationRunEvent::FlushFailed { cause } => {
                proof {
                    reveal_strlit("Failed to flush audio file: ");
                }
                let m = TranscriptionRun::prefixed("Failed to flush audio file: ", cause);
                self.fail(m, false)
            },
            DiarizationRunEvent::DownloadFinished => {
                self.phase = DiarizationPhase::Decoding;
                DiarizationActions {
                    delete_temp: false,
                    status: None,
                    events: Vec::new(),
                    store: None,
                    finished: false,
                }
            },
            DiarizationRunEvent::DecodeFailed { cause } => {
                proof {
                    reveal_strlit("Audio decode failed: ");
                }
                let m = TranscriptionRun::prefixed("Audio decode failed: ", cause);
                self.fail(m, false)
            },
            DiarizationRunEvent::DecodeFinished => {
                let delete_temp = self.temp_file;
                self.temp_file = false;
                self.phase = DiarizationPhase::Inferring;
                DiarizationActions {
                    delete_temp,
                    status: None,
                    events: Vec::new(),
                    store: None,
                    finished: false,
                }
            },
            DiarizationRunEvent::InferenceFinished { outcome } => {
                match outcome {
                    DiarizationOutcome::Completed { segments } => {
                        self.solo = crate::diarize::is_solo(&segments);
                        self.phase = DiarizationPhase::Persisting;
                        let mut events: Vec<DiarizationEvent> = Vec::new();
                        events.push(DiarizationEvent::Progress { percent: 100 });
                        DiarizationActions {
                            delete_temp: false,
                            status: None,
                            events,
                            store: Some(segments),
                            finished: false,
                        }
                    },
                    DiarizationOutcome::Failed { message } => self.fail(message, true),
                    DiarizationOutcome::Panicked { cause } => {
                        proof {
                            reveal_strlit("Diarization task panicked: ");
                        }
                        let m = TranscriptionRun::prefixed("Diarization task panicked: ", cause);
                        self.fail(m, true)
                    },
                }
            },
            DiarizationRunEvent::StoreFinished { error } => {
                match error {
                    Some(message) => self.fail(message, false),
                    None => {
                        self.phase = DiarizationPhase::Finished;
                        self.temp_file = false;
                        let mut events: Vec<DiarizationEvent> = Vec::new();
                        events.push(DiarizationEvent::Done { episode_id: self.episode_id });
                        DiarizationActions {
                            delete_temp: false,
                            status: Some(
                                DiarizationStatusWrite {
                                    status: if self.solo {
                                        DiarizationStatus::Solo
                                    } else {
                                        DiarizationStatus::Done
                                    },
                                    error: None,
                                },
                            ),
                            events,
                            store: None,
                            finished: true,
                        }
                    },
                }
            },
        }
    }
}

} // verus!
