//! Per-episode pipeline status for the two stages, with the stale-status
//! reconciliation applied at process start.
//!
//! Each stage keeps one status per episode plus an error text that is
//! present exactly when the status is the error status. A process that died
//! mid-job leaves in-flight statuses behind; since the in-memory queues are
//! empty at startup, such statuses are necessarily stale and are reset to
//! not-started with the error cleared.

use vstd::prelude::*;
use crate::text::str_eq;

verus! {

/// Status of the transcription stage for one episode.
#[derive(Clone, Copy, Debug, PartialEq, Eq, Structural)]
pub enum TranscriptionStatus {
    NotStarted,
    Queued,
    Downloading,
    Transcribing,
    Done,
    Error,
}

/// Status of the diarization stage for one episode.
#[derive(Clone, Copy, Debug, PartialEq, Eq, Structural)]
pub enum DiarizationStatus {
    NotStarted,
    Queued,
    Processing,
    Done,
    Solo,
    Error,
}

impl TranscriptionStatus {
    /// A terminal status: the stage will not move on from it by itself.
    pub open spec fn is_terminal(self) -> bool {
        self == TranscriptionStatus::Done || self == TranscriptionStatus::Error
    }

    /// An in-flight status; stale if found at process start.
    pub open spec fn is_in_flight(self) -> bool {
        self == TranscriptionStatus::Queued || self == TranscriptionStatus::Downloading
            || self == TranscriptionStatus::Transcribing
    }

    /// The status column text stored for this status.
    pub fn as_str(self) -> (r: &'static str)
        ensures
            r@ == self.spec_str(),
    {
        match self {
            TranscriptionStatus::NotStarted => "not_started",
            TranscriptionStatus::Queued => "queued",
            TranscriptionStatus::Downloading => "downloading",
            TranscriptionStatus::Transcribing => "transcribing",
            TranscriptionStatus::Done => "done",
            TranscriptionStatus::Error => "error",
        }
    }

    /// The column text of each status.
    pub open spec fn spec_str(self) -> Seq<char> {
        match self {
            TranscriptionStatus::NotStarted => "not_started"@,
            TranscriptionStatus::Queued => "queued"@,
            TranscriptionStatus::Downloading => "downloading"@,
            TranscriptionStatus::Transcribing => "transcribing"@,
            TranscriptionStatus::Done => "done"@,
            TranscriptionStatus::Error => "error"@,
        }
    }

    /// Reads a status column text back; `None` on any other text.
    pub fn parse(s: &str) -> (r: Option<TranscriptionStatus>)
        ensures
            match r {
                Some(st) => s@ == st.spec_str(),
                None => forall|st: TranscriptionStatus| s@ != st.spec_str(),
            },
    {
        if str_eq(s, "not_started") {
            Some(TranscriptionStatus::NotStarted)
        } else if str_eq(s, "queued") {
            Some(TranscriptionStatus::Queued)
        } else if str_eq(s, "downloading") {
            Some(TranscriptionStatus::Downloading)
        } else if str_eq(s, "transcribing") {
            Some(TranscriptionStatus::Transcribing)
        } else if str_eq(s, "done") {
            Some(TranscriptionStatus::Done)
        } else if str_eq(s, "error") {
            Some(TranscriptionStatus::Error)
        } else {
            assert forall|st: TranscriptionStatus| s@ != st.spec_str() by {
                match st {
                    TranscriptionStatus::NotStarted => assert(s@ != st.spec_str()),
                    TranscriptionStatus::Queued => assert(s@ != st.spec_str()),
                    TranscriptionStatus::Downloading => assert(s@ != st.spec_str()),
                    TranscriptionStatus::Transcribing => assert(s@ != st.spec_str()),
                    TranscriptionStatus::Done => assert(s@ != st.spec_str()),
                    TranscriptionStatus::Error => assert(s@ != st.spec_str()),
                }
            }
            None
        }
    }
}

impl DiarizationStatus {
    /// A terminal status: the stage will not move on from it by itself.
    pub open spec fn is_terminal(self) -> bool {
        self == DiarizationStatus::Done || self == DiarizationStatus::Solo
            || self == DiarizationStatus::Error
    }

    /// An in-flight status; stale if found at process start.
    pub open spec fn is_in_flight(self) -> bool {
        self == DiarizationStatus::Queued || self == DiarizationStatus::Processing
    }

    /// The status column text stored for this status.
    pub fn as_str(self) -> (r: &'static str)
        ensures
            r@ == self.spec_str(),
    {
        match self {
            DiarizationStatus::NotStarted => "not_started",
            DiarizationStatus::Queued => "queued",
            DiarizationStatus::Processing => "processing",
            DiarizationStatus::Done => "done",
            DiarizationStatus::Solo => "solo",
            DiarizationStatus::Error => "error",
        }
    }

    /// The column text of each status.
    pub open spec fn spec_str(self) -> Seq<char> {
        match self {
            DiarizationStatus::NotStarted => "not_started"@,
            DiarizationStatus::Queued => "queued"@,
            DiarizationStatus::Processing => "processing"@,
            DiarizationStatus::Done => "done"@,
            DiarizationStatus::Solo => "solo"@,
            DiarizationStatus::Error => "error"@,
        }
    }

    /// Reads a status column text back; `None` on any other text.
    pub fn parse(s: &str) -> (r: Option<DiarizationStatus>)
        ensures
            match r {
                Some(st) => s@ == st.spec_str(),
                None => forall|st: DiarizationStatus| s@ != st.spec_str(),
            },
    {
        if str_eq(s, "not_started") {
            Some(DiarizationStatus::NotStarted)
        } else if str_eq(s, "queued") {
            Some(DiarizationStatus::Queued)
        } else if str_eq(s, "processing") {
            Some(DiarizationStatus::Processing)
        } else if str_eq(s, "done") {
            Some(DiarizationStatus::Done)
        } else if str_eq(s, "solo") {
            Some(DiarizationStatus::Solo)
        } else if str_eq(s, "error") {
            Some(DiarizationStatus::Error)
        } else {
            assert forall|st: DiarizationStatus| s@ != st.spec_str() by {
                match st {
                    DiarizationStatus::NotStarted => assert(s@ != st.spec_str()),
                    DiarizationStatus::Queued => assert(s@ != st.spec_str()),
                    DiarizationStatus::Processing => assert(s@ != st.spec_str()),
                    DiarizationStatus::Done => assert(s@ != st.spec_str()),
                    DiarizationStatus::Solo => assert(s@ != st.spec_str()),
                    DiarizationStatus::Error => assert(s@ != st.spec_str()),
                }
            }
            None
        }
    }
}

/// Startup reconciliation for the transcription stage: an in-flight status
/// is stale at process start and resets to not-started; terminal and
/// not-started statuses are kept.
pub fn reset_stale_transcription(s: TranscriptionStatus) -> (r: TranscriptionStatus)
    ensures
        r == if s.is_in_flight() {
            TranscriptionStatus::NotStarted
        } else {
            s
        },
{
    match s {
        TranscriptionStatus::Queued => TranscriptionStatus::NotStarted,
        TranscriptionStatus::Downloading => TranscriptionStatus::NotStarted,
        TranscriptionStatus::Transcribing => TranscriptionStatus::NotStarted,
        _ => s,
    }
}

/// Startup reconciliation for the diarization stage.
pub fn reset_stale_diarization(s: DiarizationStatus) -> (r: DiarizationStatus)
    ensures
        r == if s.is_in_flight() {
            DiarizationStatus::NotStarted
        } else {
            s
        },
{
    match s {
        DiarizationStatus::Queued => DiarizationStatus::NotStarted,
        DiarizationStatus::Processing => DiarizationStatus::NotStarted,
        _ => s,
    }
}

} // verus!
