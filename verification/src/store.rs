//! Persistence semantics.
//!
//! The pipeline's durable state — per-episode stage statuses with error
//! text, one transcript per episode, and an episode's diarization segment
//! rows — lives in an external relational store. These types define exactly
//! what each write means: a status update touches one episode's columns and
//! nothing else, a transcript upsert replaces any prior transcript for the
//! episode, and a diarization run replaces the episode's segment rows as one
//! unit (delete then insert — the caller wraps the mirrored SQL in one
//! transaction), which is what makes re-runs idempotent.

use vstd::prelude::*;
use vstd::seq_lib::*;
use crate::diarize::{DiarizationSegment, SegmentView};
use crate::status::{DiarizationStatus, TranscriptionStatus};

verus! {

/// One row of the per-episode status columns.
#[derive(Debug)]
pub struct EpisodeStatusRow {
    pub episode_id: i64,
    pub transcription_status: TranscriptionStatus,
    pub transcription_error: Option<String>,
    pub diarization_status: DiarizationStatus,
    pub diarization_error: Option<String>,
}

/// Mathematical image of a status row.
pub struct EpisodeStatusRowView {
    pub episode_id: int,
    pub transcription_status: TranscriptionStatus,
    pub transcription_error: Option<Seq<char>>,
    pub diarization_status: DiarizationStatus,
    pub diarization_error: Option<Seq<char>>,
}

impl View for EpisodeStatusRow {
    type V = EpisodeStatusRowView;

    open spec fn view(&self) -> EpisodeStatusRowView {
        EpisodeStatusRowView {
            episode_id: self.episode_id as int,
            transcription_status: self.transcription_status,
            transcription_error: match self.transcription_error {
                Some(ref m) => Some(m@),
                None => None,
            },
            diarization_status: self.diarization_status,
            diarization_error: match self.diarization_error {
                Some(ref m) => Some(m@),
                None => None,
            },
        }
    }
}

/// Error text accompanies a status exactly when that status is the error
/// status, and is then non-empty.
pub open spec fn error_fits_transcription(
    status: TranscriptionStatus,
    error: Option<Seq<char>>,
) -> bool {
    match error {
        Some(m) => status == TranscriptionStatus::Error && m.len() > 0,
        None => status != TranscriptionStatus::Error,
    }
}

/// As [`error_fits_transcription`], for the diarization stage.
pub open spec fn error_fits_diarization(
    status: DiarizationStatus,
    error: Option<Seq<char>>,
) -> bool {
    match error {
        Some(m) => status == DiarizationStatus::Error && m.len() > 0,
        None => status != DiarizationStatus::Error,
    }
}

impl EpisodeStatusRowView {
    /// Both stages' error texts fit their statuses.
    pub open spec fn wf(self) -> bool {
        &&& error_fits_transcription(self.transcription_status, self.transcription_error)
        &&& error_fits_diarization(self.diarization_status, self.diarization_error)
    }

    /// This row with the transcription columns replaced.
    pub open spec fn with_transcription(
        self,
        status: TranscriptionStatus,
        error: Option<Seq<char>>,
    ) -> EpisodeStatusRowView {
        EpisodeStatusRowView { transcription_status: status, transcription_error: error, ..self }
    }

    /// This row with the diarization columns replaced.
    pub open spec fn with_diarization(
        self,
        status: DiarizationStatus,
        error: Option<Seq<char>>,
    ) -> EpisodeStatusRowView {
        EpisodeStatusRowView { diarization_status: status, diarization_error: error, ..self }
    }

    /// This row after startup reconciliation: an in-flight status of either
    /// stage resets to not-started with the error cleared.
    pub open spec fn reconciled(self) -> EpisodeStatusRowView {
        EpisodeStatusRowView {
            transcription_status: if self.transcription_status.is_in_flight() {
                TranscriptionStatus::NotStarted
            } else {
                self.transcription_status
            },
            transcription_error: if self.transcription_status.is_in_flight() {
                None
            } else {
                self.transcription_error
            },
            diarization_status: if self.diarization_status.is_in_flight() {
                DiarizationStatus::NotStarted
            } else {
                self.diarization_status
            },
            diarization_error: if self.diarization_status.is_in_flight() {
                None
            } else {
                self.diarization_error
            },
            ..self
        }
    }
}

/// The views of a vector of status rows.
pub open spec fn status_rows_view(s: Seq<EpisodeStatusRow>) -> Seq<EpisodeStatusRowView> {
    s.map_values(|r: EpisodeStatusRow| r@)
}

fn clone_opt_string(o: &Option<String>) -> (r: Option<String>)
    ensures
        match (o, &r) {
            (Some(a), Some(b)) => a@ == b@,
            (None, None) => true,
            _ => false,
        },
{
    match o {
        Some(m) => Some(m.clone()),
        None => None,
    }
}

/// The per-episode status columns of every known episode.
pub struct StatusStore {
    rows: Vec<EpisodeStatusRow>,
}

impl StatusStore {
    /// The rows, in insertion order.
    pub closed spec fn rows(&self) -> Seq<EpisodeStatusRowView> {
        status_rows_view(self.rows@)
    }

    /// Every row is well formed and no episode occurs twice.
    pub closed spec fn wf(&self) -> bool {
        &&& forall|i: int| 0 <= i < self.rows().len() ==> (#[trigger] self.rows()[i]).wf()
        &&& forall|i: int, j: int|
            0 <= i < j < self.rows().len() ==> self.rows()[i].episode_id
                != self.rows()[j].episode_id
    }

    /// An empty store.
    pub fn new() -> (s: StatusStore)
        ensures
            s.wf(),
            s.rows() == Seq::<EpisodeStatusRowView>::empty(),
    {
        let s = StatusStore { rows: Vec::new() };
        proof {
            assert(s.rows() =~= Seq::<EpisodeStatusRowView>::empty());
        }
        s
    }

    /// Number of rows.
    pub fn len(&self) -> (n: usize)
        ensures
            n == self.rows().len(),
    {
        self.rows.len()
    }

    /// Makes sure a row exists for `episode_id`; a new episode starts with
    /// both stages not started and no error.
    pub fn ensure_episode(&mut self, episode_id: i64)
        requires
            old(self).wf(),
        ensures
            final(self).wf(),
            (exists|i: int|
                0 <= i < old(self).rows().len() && (#[trigger] old(self).rows()[i]).episode_id
                    == episode_id) ==> final(self).rows() == old(self).rows(),
            !(exists|i: int|
                0 <= i < old(self).rows().len() && (#[trigger] old(self).rows()[i]).episode_id
                    == episode_id) ==> final(self).rows() == old(self).rows().push(
                EpisodeStatusRowView {
                    episode_id: episode_id as int,
                    transcription_status: TranscriptionStatus::NotStarted,
                    transcription_error: None,
                    diarization_status: DiarizationStatus::NotStarted,
                    diarization_error: None,
                },
            ),
    {
        let n = self.rows.len();
        let mut i: usize = 0;
        while i < n
            invariant
                n == self.rows().len(),
                i <= n,
                old(self).wf(),
                self.rows@ == old(self).rows@,
                forall|j: int|
                    0 <= j < i ==> (#[trigger] self.rows()[j]).episode_id != episode_id,
            decreases n - i,
        {
            proof {
                assert(self.rows()[i as int] == self.rows@[i as int]@);
            }
            if self.rows[i].episode_id == episode_id {
                proof {
                    assert(self.rows() == old(self).rows());
                    assert forall|a: int| 0 <= a < self.rows().len() implies (#[trigger] self.rows()[a]).wf() by {
                        assert(self.rows()[a] == old(self).rows()[a]);
                        assert(old(self).rows()[a].wf());
                    }
                    assert forall|a: int, b: int|
                        0 <= a < b < self.rows().len() implies self.rows()[a].episode_id
                        != self.rows()[b].episode_id by {
                        assert(self.rows()[a] == old(self).rows()[a]);
                        assert(self.rows()[b] == old(self).rows()[b]);
                    }
                    assert(self.wf());
                    assert(old(self).rows()[i as int].episode_id == episode_id);
                }
                return ;
            }
            i = i + 1;
        }
        let row = EpisodeStatusRow {
            episode_id,
            transcription_status: TranscriptionStatus::NotStarted,
            transcription_error: None,
            diarization_status: DiarizationStatus::NotStarted,
            diarization_error: None,
        };
        self.rows.push(row);
        proof {
            assert(self.rows() =~= old(self).rows().push(
                EpisodeStatusRowView {
                    episode_id: episode_id as int,
                    transcription_status: TranscriptionStatus::NotStarted,
                    transcription_error: None,
                    diarization_status: DiarizationStatus::NotStarted,
                    diarization_error: None,
                },
            ));
        }
    }

    /// Writes the transcription status (and error text) of one episode. Only
    /// that episode's transcription columns change; an unknown episode is a
    /// no-op, as a row-targeted update is.
    pub fn set_transcription(
        &mut self,
        episode_id: i64,
        status: TranscriptionStatus,
        error: Option<String>,
    )
        requires
            old(self).wf(),
            error_fits_transcription(
                status,
                match error {
                    Some(ref m) => Some(m@),
                    None => None::<Seq<char>>,
                },
            ),
        ensures
            final(self).wf(),
            final(self).rows().len() == old(self).rows().len(),
            forall|j: int|
                0 <= j < old(self).rows().len() ==> final(self).rows()[j] == (
                if (#[trigger] old(self).rows()[j]).episode_id == episode_id {
                    old(self).rows()[j].with_transcription(
                        status,
                        match error {
                            Some(ref m) => Some(m@),
                            None => None::<Seq<char>>,
                        },
                    )
                } else {
                    old(self).rows()[j]
                }),
    {
        let n = self.rows.len();
        let mut i: usize = 0;
        while i < n
            invariant
                n == self.rows().len(),
                i <= n,
                old(self).wf(),
                n == old(self).rows().len(),
                error_fits_transcription(
                    status,
                    match error {
                        Some(ref m) => Some(m@),
                        None => None::<Seq<char>>,
                    },
                ),
                forall|j: int|
                    i <= j < n ==> #[trigger] self.rows()[j] == old(self).rows()[j],
                forall|j: int|
                    0 <= j < i ==> #[trigger] self.rows()[j] == (
                    if old(self).rows()[j].episode_id == episode_id {
                        old(self).rows()[j].with_transcription(
                            status,
                            match error {
                                Some(ref m) => Some(m@),
                                None => None::<Seq<char>>,
                            },
                        )
                    } else {
                        old(self).rows()[j]
                    }),
            decreases n - i,
        {
            proof {
                assert(self.rows()[i as int] == self.rows@[i as int]@);
            }
            if self.rows[i].episode_id == episode_id {
                let row = EpisodeStatusRow {
                    episode_id: self.rows[i].episode_id,
                    transcription_status: status,
                    transcription_error: clone_opt_string(&error),
                    diarization_status: self.rows[i].diarization_status,
                    diarization_error: clone_opt_string(&self.rows[i].diarization_error),
                };
                let ghost before = self.rows@;
                self.rows.set(i, row);
                proof {
                    assert(self.rows()[i as int] == self.rows@[i as int]@);
                    assert(forall|j: int|
                        0 <= j < n && j != i ==> self.rows@[j] == before[j]);
                    assert(forall|j: int|
                        0 <= j < n && j != i ==> #[trigger] self.rows()[j] == status_rows_view(
                            before,
                        )[j]);
                }
            }
            i = i + 1;
        }
    }

    /// Writes the diarization status (and error text) of one episode. Only
    /// that episode's diarization columns change; an unknown episode is a
    /// no-op.
    pub fn set_diarization(
        &mut self,
        episode_id: i64,
        status: DiarizationStatus,
        error: Option<String>,
    )
        requires
            old(self).wf(),
            error_fits_diarization(
                status,
                match error {
                    Some(ref m) => Some(m@),
                    None => None::<Seq<char>>,
                },
            ),
        ensures
            final(self).wf(),
            final(self).rows().len() == old(self).rows().len(),
            forall|j: int|
                0 <= j < old(self).rows().len() ==> final(self).rows()[j] == (
                if (#[trigger] old(self).rows()[j]).episode_id == episode_id {
                    old(self).rows()[j].with_diarization(
                        status,
                        match error {
                            Some(ref m) => Some(m@),
                            None => None::<Seq<char>>,
                        },
                    )
                } else {
                    old(self).rows()[j]
                }),
    {
        let n = self.rows.len();
        let mut i: usize = 0;
        while i < n
            invariant
                n == self.rows().len(),
                i <= n,
                old(self).wf(),
                n == old(self).rows().len(),
                error_fits_diarization(
                    status,
                    match error {
                        Some(ref m) => Some(m@),
                        None => None::<Seq<char>>,
                    },
                ),
                forall|j: int|
                    i <= j < n ==> #[trigger] self.rows()[j] == old(self).rows()[j],
                forall|j: int|
                    0 <= j < i ==> #[trigger] self.rows()[j] == (
                    if old(self).rows()[j].episode_id == episode_id {
                        old(self).rows()[j].with_diarization(
                            status,
                            match error {
                                Some(ref m) => Some(m@),
                                None => None::<Seq<char>>,
                            },
                        )
                    } else {
                        old(self).rows()[j]
                    }),
            decreases n - i,
        {
            proof {
                assert(self.rows()[i as int] == self.rows@[i as int]@);
            }
            if self.rows[i].episode_id == episode_id {
                let row = EpisodeStatusRow {
                    episode_id: self.rows[i].episode_id,
                    transcription_status: self.rows[i].transcription_status,
                    transcription_error: clone_opt_string(&self.rows[i].transcription_error),
                    diarization_status: status,
                    diarization_error: clone_opt_string(&error),
                };
                let ghost before = self.rows@;
                self.rows.set(i, row);
                proof {
                    assert(self.rows()[i as int] == self.rows@[i as int]@);
                    assert(forall|j: int|
                        0 <= j < n && j != i ==> self.rows@[j] == before[j]);
                    assert(forall|j: int|
                        0 <= j < n && j != i ==> #[trigger] self.rows()[j] == status_rows_view(
                            before,
                        )[j]);
                }
            }
            i = i + 1;
        }
    }

    /// Startup reconciliation over every episode: stale in-flight statuses
    /// of both stages reset to not-started with their error cleared; done,
    /// solo and error rows are kept.
    pub fn reset_stale(&mut self)
        requires
            old(self).wf(),
        ensures
            final(self).wf(),
            final(self).rows().len() == old(self).rows().len(),
            forall|j: int|
                0 <= j < old(self).rows().len() ==> final(self).rows()[j] == (#[trigger] old(
                    self,
                ).rows()[j]).reconciled(),
    {
        let n = self.rows.len();
        let mut i: usize = 0;
        while i < n
            invariant
                n == self.rows().len(),
                i <= n,
                old(self).wf(),
                n == old(self).rows().len(),
                forall|j: int|
                    i <= j < n ==> #[trigger] self.rows()[j] == old(self).rows()[j],
                forall|j: int|
                    0 <= j < i ==> #[trigger] self.rows()[j] == old(self).rows()[j].reconciled(),
            decreases n - i,
        {
            proof {
                assert(self.rows()[i as int] == self.rows@[i as int]@);
            }
            let stale_t = match self.rows[i].transcription_status {
                TranscriptionStatus::Queued => true,
                TranscriptionStatus::Downloading => true,
                TranscriptionStatus::Transcribing => true,
                _ => false,
            };
            let stale_d = match self.rows[i].diarization_status {
                DiarizationStatus::Queued => true,
                DiarizationStatus::Processing => true,
                _ => false,
            };
            let row = EpisodeStatusRow {
                episode_id: self.rows[i].episode_id,
                transcription_status: if stale_t {
                    TranscriptionStatus::NotStarted
                } else {
                    self.rows[i].transcription_status
                },
                transcription_error: if stale_t {
                    None
                } else {
                    clone_opt_string(&self.rows[i].transcription_error)
                },
                diarization_status: if stale_d {
                    DiarizationStatus::NotStarted
                } else {
                    self.rows[i].diarization_status
                },
                diarization_error: if stale_d {
                    None
                } else {
                    clone_opt_string(&self.rows[i].diarization_error)
                },
            };
            let ghost before = self.rows@;
            self.rows.set(i, row);
            proof {
                assert(self.rows()[i as int] == self.rows@[i as int]@);
                assert(self.rows()[i as int] == old(self).rows()[i as int].reconciled());
                assert(forall|j: int|
                    0 <= j < n && j != i ==> self.rows@[j] == before[j]);
                assert(forall|j: int|
                    0 <= j < n && j != i ==> #[trigger] self.rows()[j] == status_rows_view(
                        before,
                    )[j]);
            }
            i = i + 1;
        }
    }

    /// Reads one episode's transcription status and error text.
    pub fn get_transcription(&self, episode_id: i64) -> (r: Option<
        (TranscriptionStatus, Option<String>),
    >)
        requires
            self.wf(),
        ensures
            match r {
                Some(t) => exists|j: int|
                    0 <= j < self.rows().len() && (#[trigger] self.rows()[j]).episode_id
                        == episode_id && t.0 == self.rows()[j].transcription_status && (match t.1 {
                        Some(ref m) => Some(m@),
                        None => None::<Seq<char>>,
                    }) == self.rows()[j].transcription_error,
                None => forall|j: int|
                    0 <= j < self.rows().len() ==> (#[trigger] self.rows()[j]).episode_id
                        != episode_id,
            },
    {
        let n = self.rows.len();
        let mut i: usize = 0;
        while i < n
            invariant
                n == self.rows().len(),
                i <= n,
                self.wf(),
                forall|j: int|
                    0 <= j < i ==> (#[trigger] self.rows()[j]).episode_id != episode_id,
            decreases n - i,
        {
            proof {
                assert(self.rows()[i as int] == self.rows@[i as int]@);
            }
            if self.rows[i].episode_id == episode_id {
                return Some(
                    (
                        self.rows[i].transcription_status,
                        clone_opt_string(&self.rows[i].transcription_error),
                    ),
                );
            }
            i = i + 1;
        }
        None
    }

    /// Reads one episode's diarization status and error text.
    pub fn get_diarization(&self, episode_id: i64) -> (r: Option<
        (DiarizationStatus, Option<String>),
    >)
        requires
            self.wf(),
        ensures
            match r {
                Some(t) => exists|j: int|
                    0 <= j < self.rows().len() && (#[trigger] self.rows()[j]).episode_id
                        == episode_id && t.0 == self.rows()[j].diarization_status && (match t.1 {
                        Some(ref m) => Some(m@),
                        None => None::<Seq<char>>,
                    }) == self.rows()[j].diarization_error,
                None => forall|j: int|
                    0 <= j < self.rows().len() ==> (#[trigger] self.rows()[j]).episode_id
                        != episode_id,
            },
    {
        let n = self.rows.len();
        let mut i: usize = 0;
        while i < n
            invariant
                n == self.rows().len(),
                i <= n,
                self.wf(),
                forall|j: int|
                    0 <= j < i ==> (#[trigger] self.rows()[j]).episode_id != episode_id,
            decreases n - i,
        {
            proof {
                assert(self.rows()[i as int] == self.rows@[i as int]@);
            }
            if self.rows[i].episode_id == episode_id {
                return Some(
                    (
                        self.rows[i].diarization_status,
                        clone_opt_string(&self.rows[i].diarization_error),
                    ),
                );
            }
            i = i + 1;
        }
        None
    }
}

/// One stored diarization segment row: the episode it belongs to plus the
/// segment.
#[derive(Debug)]
pub struct SegmentRow {
    pub episode_id: i64,
    pub segment: DiarizationSegment,
}

/// Mathematical image of a segment row.
pub struct SegmentRowView {
    pub episode_id: int,
    pub segment: SegmentView,
}

impl View for SegmentRow {
    type V = SegmentRowView;

    open spec fn view(&self) -> SegmentRowView {
        SegmentRowView { episode_id: self.episode_id as int, segment: self.segment@ }
    }
}

/// The views of a vector of segment rows.
pub open spec fn segment_rows_view(s: Seq<SegmentRow>) -> Seq<SegmentRowView> {
    s.map_values(|r: SegmentRow| r@)
}

proof fn lemma_filter_take_step<A>(s: Seq<A>, pred: spec_fn(A) -> bool, j: int)
    requires
        0 <= j < s.len(),
    ensures
        s.take(j + 1).filter(pred) == if pred(s[j]) {
            s.take(j).filter(pred).push(s[j])
        } else {
            s.take(j).filter(pred)
        },
{
    reveal(Seq::filter);
    assert(s.take(j + 1).drop_last() =~= s.take(j));
    assert(s.take(j + 1).last() == s[j]);
}

/// The diarization segment rows of every episode.
pub struct SegmentStore {
    rows: Vec<SegmentRow>,
}

impl SegmentStore {
    /// The rows, in storage order.
    pub closed spec fn rows(&self) -> Seq<SegmentRowView> {
        segment_rows_view(self.rows@)
    }

    /// The rows that belong to one episode, in order.
    pub open spec fn rows_for(&self, episode_id: int) -> Seq<SegmentRowView> {
        self.rows().filter(|r: SegmentRowView| r.episode_id == episode_id)
    }

    /// An empty store.
    pub fn new() -> (s: SegmentStore)
        ensures
            s.rows() == Seq::<SegmentRowView>::empty(),
    {
        let s = SegmentStore { rows: Vec::new() };
        proof {
            assert(s.rows() =~= Seq::<SegmentRowView>::empty());
        }
        s
    }

    /// Number of stored rows, over all episodes.
    pub fn len(&self) -> (n: usize)
        ensures
            n == self.rows().len(),
    {
        self.rows.len()
    }

    /// Replaces one episode's segment rows as a unit: every prior row of the
    /// episode is deleted and the new segments are inserted in order, other
    /// episodes' rows staying exactly as they were. Re-running diarization is
    /// therefore idempotent — afterwards the episode has exactly the new
    /// rows, however many were stored before.
    pub fn replace_for_episode(&mut self, episode_id: i64, segments: &Vec<DiarizationSegment>)
        ensures
            final(self).rows() == old(self).rows().filter(
                |r: SegmentRowView| r.episode_id != episode_id as int,
            ) + crate::diarize::segs_view(segments@).map_values(
                |s: SegmentView| SegmentRowView { episode_id: episode_id as int, segment: s },
            ),
            final(self).rows_for(episode_id as int).map_values(|r: SegmentRowView| r.segment)
                == crate::diarize::segs_view(segments@),
    {
        let ghost kept = old(self).rows().filter(
            |r: SegmentRowView| r.episode_id != episode_id as int,
        );
        let ghost added = crate::diarize::segs_view(segments@).map_values(
            |s: SegmentView| SegmentRowView { episode_id: episode_id as int, segment: s },
        );
        let n = self.rows.len();
        let mut out: Vec<SegmentRow> = Vec::new();
        let mut i: usize = 0;
        proof {
            assert(segment_rows_view(out@) =~= self.rows().take(0).filter(
                |r: SegmentRowView| r.episode_id != episode_id as int,
            )) by {
                reveal(Seq::filter);
            }
        }
        while i < n
            invariant
                n == self.rows().len(),
                i <= n,
                self.rows@ == old(self).rows@,
                segment_rows_view(out@) == self.rows().take(i as int).filter(
                    |r: SegmentRowView| r.episode_id != episode_id as int,
                ),
            decreases n - i,
        {
            proof {
                assert(self.rows()[i as int] == self.rows@[i as int]@);
                lemma_filter_take_step(
                    self.rows(),
                    |r: SegmentRowView| r.episode_id != episode_id as int,
                    i as int,
                );
            }
            if self.rows[i].episode_id != episode_id {
                let copy = SegmentRow {
                    episode_id: self.rows[i].episode_id,
                    segment: self.rows[i].segment.duplicate(),
                };
                out.push(copy);
                proof {
                    assert(segment_rows_view(out@) =~= self.rows().take(i as int + 1).filter(
                        |r: SegmentRowView| r.episode_id != episode_id as int,
                    ));
                }
            }
            i = i + 1;
        }
        proof {
            assert(self.rows().take(n as int) =~= self.rows());
        }
        let m = segments.len();
        let mut k: usize = 0;
        while k < m
            invariant
                m == segments@.len(),
                k <= m,
                added == crate::diarize::segs_view(segments@).map_values(
                    |s: SegmentView| SegmentRowView {
                        episode_id: episode_id as int,
                        segment: s,
                    },
                ),
                segment_rows_view(out@) == kept + added.take(k as int),
            decreases m - k,
        {
            proof {
                assert(crate::diarize::segs_view(segments@)[k as int] == segments@[k as int]@);
                assert(added[k as int] == SegmentRowView {
                    episode_id: episode_id as int,
                    segment: segments@[k as int]@,
                });
            }
            let row = SegmentRow { episode_id, segment: segments[k].duplicate() };
            out.push(row);
            proof {
                assert(row@ == added[k as int]);
                assert(segment_rows_view(out@) =~= (kept + added.take(k as int)).push(
                    added[k as int],
                ));
                Seq::push_distributes_over_add(kept, added.take(k as int), added[k as int]);
                assert(added.take(k as int + 1) =~= added.take(k as int).push(added[k as int]));
                assert(segment_rows_view(out@) == kept + added.take(k as int + 1));
            }
            k = k + 1;
        }
        self.rows = out;
        proof {
            assert(added.take(m as int) =~= added);
            assert(self.rows() =~= kept + added);
            // of the final rows, exactly the appended ones carry this episode
            let pred = |r: SegmentRowView| r.episode_id == episode_id as int;
            let anti = |r: SegmentRowView| r.episode_id != episode_id as int;
            Seq::filter_distributes_over_add(kept, added, pred);
            assert(kept.filter(pred) =~= Seq::<SegmentRowView>::empty()) by {
                if kept.filter(pred).len() > 0 {
                    kept.lemma_filter_pred(pred, 0);
                    let x = kept.filter(pred)[0];
                    assert(kept.filter(pred).contains(x)) by {
                        assert(kept.filter(pred)[0] == x);
                    }
                    lemma_filter_contains_implies_base(kept, pred, x);
                    let w = choose|w: int| 0 <= w < kept.len() && kept[w] == x;
                    // a row of `kept` satisfies `anti`, contradicting `pred`
                    old(self).rows().lemma_filter_pred(anti, w);
                    assert(false);
                }
            }
            assert(added.filter(pred) =~= added) by {
                reveal(Seq::filter);
                lemma_filter_all(added, pred);
            }
            assert(self.rows().filter(pred) =~= added);
            assert(self.rows_for(episode_id as int).map_values(|r: SegmentRowView| r.segment)
                =~= crate::diarize::segs_view(segments@));
        }
    }

    /// One episode's stored segments, in order.
    pub fn segments_for(&self, episode_id: i64) -> (r: Vec<DiarizationSegment>)
        ensures
            crate::diarize::segs_view(r@) == self.rows_for(episode_id as int).map_values(
                |x: SegmentRowView| x.segment,
            ),
    {
        let n = self.rows.len();
        let mut out: Vec<DiarizationSegment> = Vec::new();
        let mut i: usize = 0;
        proof {
            assert(crate::diarize::segs_view(out@) =~= self.rows().take(0).filter(
                |r: SegmentRowView| r.episode_id == episode_id as int,
            ).map_values(|x: SegmentRowView| x.segment)) by {
                reveal(Seq::filter);
            }
        }
        while i < n
            invariant
                n == self.rows().len(),
                i <= n,
                crate::diarize::segs_view(out@) == self.rows().take(i as int).filter(
                    |r: SegmentRowView| r.episode_id == episode_id as int,
                ).map_values(|x: SegmentRowView| x.segment),
            decreases n - i,
        {
            proof {
                assert(self.rows()[i as int] == self.rows@[i as int]@);
                lemma_filter_take_step(
                    self.rows(),
                    |r: SegmentRowView| r.episode_id == episode_id as int,
                    i as int,
                );
            }
            if self.rows[i].episode_id == episode_id {
                out.push(self.rows[i].segment.duplicate());
                proof {
                    let pred = |r: SegmentRowView| r.episode_id == episode_id as int;
                    let g = |x: SegmentRowView| x.segment;
                    let fprev = self.rows().take(i as int).filter(pred);
                    let fstep = self.rows().take(i as int + 1).filter(pred);
                    assert(fstep == fprev.push(self.rows()[i as int]));
                    assert(fstep.map_values(g) =~= fprev.map_values(g).push(
                        self.rows()[i as int].segment,
                    ));
                    assert(crate::diarize::segs_view(out@) =~= fstep.map_values(g));
                }
            } else {
                proof {
                    assert(crate::diarize::segs_view(out@) =~= self.rows().take(i as int + 1)
                        .filter(|r: SegmentRowView| r.episode_id == episode_id as int).map_values(
                        |x: SegmentRowView| x.segment,
                    ));
                }
            }
            i = i + 1;
        }
        proof {
            assert(self.rows().take(n as int) =~= self.rows());
        }
        out
    }
}

proof fn lemma_filter_all<A>(s: Seq<A>, pred: spec_fn(A) -> bool)
    requires
        forall|i: int| 0 <= i < s.len() ==> pred(#[trigger] s[i]),
    ensures
        s.filter(pred) == s,
    decreases s.len(),
{
    reveal(Seq::filter);
    if s.len() > 0 {
        lemma_filter_all(s.drop_last(), pred);
        assert(s.filter(pred) =~= s);
    }
}

proof fn lemma_filter_contains_implies_base<A>(s: Seq<A>, pred: spec_fn(A) -> bool, x: A)
    requires
        s.filter(pred).contains(x),
    ensures
        s.contains(x),
    decreases s.len(),
{
    reveal(Seq::filter);
    if s.len() > 0 {
        if s.last() == x {
        } else {
            if s.drop_last().filter(pred).contains(x) {
                lemma_filter_contains_implies_base(s.drop_last(), pred, x);
                assert(s.contains(x)) by {
                    let i = choose|i: int| 0 <= i < s.drop_last().len() && s.drop_last()[i] == x;
                    assert(s[i] == x);
                }
            } else {
                assert(s.filter(pred) == if pred(s.last()) {
                    s.drop_last().filter(pred).push(s.last())
                } else {
                    s.drop_last().filter(pred)
                });
            }
        }
    }
}

/// One stored transcript row: the whole text of an episode plus the
/// segments (as the JSON the caller rendered), the model that produced it
/// and the language, with the store's own id and timestamp.
#[derive(Debug)]
pub struct Transcript {
    pub id: i64,
    pub episode_id: i64,
    pub full_text: String,
    pub segments_json: Option<String>,
    pub whisper_model: Option<String>,
    pub language: Option<String>,
    pub created_at: Option<String>,
}

/// Mathematical image of a transcript row.
pub struct TranscriptView {
    pub id: int,
    pub episode_id: int,
    pub full_text: Seq<char>,
    pub segments_json: Option<Seq<char>>,
    pub whisper_model: Option<Seq<char>>,
    pub language: Option<Seq<char>>,
    pub created_at: Option<Seq<char>>,
}

impl View for Transcript {
    type V = TranscriptView;

    open spec fn view(&self) -> TranscriptView {
        TranscriptView {
            id: self.id as int,
            episode_id: self.episode_id as int,
            full_text: self.full_text@,
            segments_json: match self.segments_json {
                Some(ref m) => Some(m@),
                None => None,
            },
            whisper_model: match self.whisper_model {
                Some(ref m) => Some(m@),
                None => None,
            },
            language: match self.language {
                Some(ref m) => Some(m@),
                None => None,
            },
            created_at: match self.created_at {
                Some(ref m) => Some(m@),
                None => None,
            },
        }
    }
}

impl Transcript {
    /// An equal copy (the derived clone says nothing to the verifier).
    pub fn duplicate(&self) -> (r: Transcript)
        ensures
            r@ == self@,
    {
        Transcript {
            id: self.id,
            episode_id: self.episode_id,
            full_text: self.full_text.clone(),
            segments_json: clone_opt_string(&self.segments_json),
            whisper_model: clone_opt_string(&self.whisper_model),
            language: clone_opt_string(&self.language),
            created_at: clone_opt_string(&self.created_at),
        }
    }
}

/// The views of a vector of transcript rows.
pub open spec fn transcripts_view(s: Seq<Transcript>) -> Seq<TranscriptView> {
    s.map_values(|r: Transcript| r@)
}

/// The stored transcripts, at most one per episode once only [`TranscriptStore::upsert`]
/// writes them.
pub struct TranscriptStore {
    rows: Vec<Transcript>,
}

impl TranscriptStore {
    /// The rows, in storage order.
    pub closed spec fn rows(&self) -> Seq<TranscriptView> {
        transcripts_view(self.rows@)
    }

    /// An empty store.
    pub fn new() -> (s: TranscriptStore)
        ensures
            s.rows() == Seq::<TranscriptView>::empty(),
    {
        let s = TranscriptStore { rows: Vec::new() };
        proof {
            assert(s.rows() =~= Seq::<TranscriptView>::empty());
        }
        s
    }

    /// Number of stored transcripts.
    pub fn len(&self) -> (n: usize)
        ensures
            n == self.rows().len(),
    {
        self.rows.len()
    }

    /// Upserts one episode's transcript: any prior transcript of that
    /// episode is replaced, never merged, and other episodes' rows are
    /// untouched.
    pub fn upsert(&mut self, transcript: Transcript)
        ensures
            final(self).rows() == old(self).rows().filter(
                |r: TranscriptView| r.episode_id != transcript.episode_id as int,
            ).push(transcript@),
    {
        let ghost kept = old(self).rows().filter(
            |r: TranscriptView| r.episode_id != transcript.episode_id as int,
        );
        let n = self.rows.len();
        let mut out: Vec<Transcript> = Vec::new();
        let mut i: usize = 0;
        proof {
            assert(transcripts_view(out@) =~= self.rows().take(0).filter(
                |r: TranscriptView| r.episode_id != transcript.episode_id as int,
            )) by {
                reveal(Seq::filter);
            }
        }
        while i < n
            invariant
                n == self.rows().len(),
                i <= n,
                self.rows@ == old(self).rows@,
                transcripts_view(out@) == self.rows().take(i as int).filter(
                    |r: TranscriptView| r.episode_id != transcript.episode_id as int,
                ),
            decreases n - i,
        {
            proof {
                assert(self.rows()[i as int] == self.rows@[i as int]@);
                lemma_filter_take_step(
                    self.rows(),
                    |r: TranscriptView| r.episode_id != transcript.episode_id as int,
                    i as int,
                );
            }
            if self.rows[i].episode_id != transcript.episode_id {
                out.push(self.rows[i].duplicate());
                proof {
                    assert(transcripts_view(out@) =~= self.rows().take(i as int + 1).filter(
                        |r: TranscriptView| r.episode_id != transcript.episode_id as int,
                    ));
                }
            }
            i = i + 1;
        }
        proof {
            assert(self.rows().take(n as int) =~= self.rows());
        }
        out.push(transcript);
        self.rows = out;
        proof {
            assert(self.rows() =~= kept.push(transcript@));
        }
    }

    /// One episode's stored transcript, if any.
    pub fn get(&self, episode_id: i64) -> (r: Option<Transcript>)
        ensures
            match r {
                Some(t) => exists|j: int|
                    0 <= j < self.rows().len() && (#[trigger] self.rows()[j]).episode_id
                        == episode_id && t@ == self.rows()[j],
                None => forall|j: int|
                    0 <= j < self.rows().len() ==> (#[trigger] self.rows()[j]).episode_id
                        != episode_id,
            },
    {
        let n = self.rows.len();
        let mut i: usize = 0;
        while i < n
            invariant
                n == self.rows().len(),
                i <= n,
                forall|j: int|
                    0 <= j < i ==> (#[trigger] self.rows()[j]).episode_id != episode_id,
            decreases n - i,
        {
            proof {
                assert(self.rows()[i as int] == self.rows@[i as int]@);
            }
            if self.rows[i].episode_id == episode_id {
                return Some(self.rows[i].duplicate());
            }
            i = i + 1;
        }
        None
    }
}

} // verus!
