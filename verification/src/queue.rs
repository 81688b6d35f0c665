//! Per-stage job queues.
//!
//! Each pipeline stage owns one FIFO queue of jobs plus the bookkeeping of
//! the single active job: its episode id, a cancellation handle, and the
//! flag that says whether a worker loop is running. The queue is the only
//! shared mutable state of a stage; the caller holds it under one lock and
//! keeps the lock only across these structural operations, never across I/O
//! or inference.

use vstd::prelude::*;
use std::collections::VecDeque;
use tokio_util::sync::CancellationToken;

verus! {

broadcast use vstd::std_specs::vecdeque::group_vec_dequeue_axioms;

/// One unit of transcription work: an episode and where its audio lives.
#[derive(Debug)]
pub struct TranscriptionJob {
    pub episode_id: i64,
    pub audio_url: String,
}

/// One unit of diarization work: an episode and where its audio lives.
#[derive(Debug)]
pub struct DiarizationJob {
    pub episode_id: i64,
    pub audio_url: String,
}

/// Mathematical image of a job: the episode id and the characters of the
/// audio location.
pub struct JobView {
    pub episode_id: int,
    pub audio_url: Seq<char>,
}

impl View for TranscriptionJob {
    type V = JobView;

    open spec fn view(&self) -> JobView {
        JobView { episode_id: self.episode_id as int, audio_url: self.audio_url@ }
    }
}

impl View for DiarizationJob {
    type V = JobView;

    open spec fn view(&self) -> JobView {
        JobView { episode_id: self.episode_id as int, audio_url: self.audio_url@ }
    }
}

/// Snapshot of a transcription queue, for status queries.
#[derive(Debug, Clone)]
pub struct QueueStatus {
    pub active_episode_id: Option<i64>,
    pub queue_length: usize,
    pub is_processing: bool,
}

/// Snapshot of a diarization queue, for status queries.
#[derive(Debug, Clone)]
pub struct DiarizationQueueStatus {
    pub active_episode_id: Option<i64>,
    pub queue_length: usize,
    pub is_processing: bool,
}

/// The transcription stage's queue and active-job bookkeeping.
pub struct TranscriptionQueue {
    queue: VecDeque<TranscriptionJob>,
    active_token: Option<CancellationToken>,
    active_episode_id: Option<i64>,
    is_processing: bool,
}

impl TranscriptionQueue {
    /// The queued jobs, head (next to run) first.
    pub closed spec fn jobs(&self) -> Seq<JobView> {
        self.queue@.map_values(|j: TranscriptionJob| j@)
    }

    /// The episode whose job is currently active, if any.
    pub closed spec fn active_id(&self) -> Option<i64> {
        self.active_episode_id
    }

    /// Whether a cancellation handle for an active job is registered.
    pub closed spec fn has_active_token(&self) -> bool {
        self.active_token is Some
    }

    /// Whether a worker loop is running for this stage.
    pub closed spec fn processing(&self) -> bool {
        self.is_processing
    }

    /// A fresh stage: nothing queued, nothing active, no worker loop.
    pub fn new() -> (q: TranscriptionQueue)
        ensures
            q.jobs() == Seq::<JobView>::empty(),
            q.active_id() is None,
            !q.has_active_token(),
            !q.processing(),
    {
        let q = TranscriptionQueue {
            queue: VecDeque::new(),
            active_token: None,
            active_episode_id: None,
            is_processing: false,
        };
        proof {
            assert(q.jobs() =~= Seq::<JobView>::empty());
        }
        q
    }

    /// Appends a job at the tail; everything else is untouched.
    pub fn enqueue(&mut self, job: TranscriptionJob)
        ensures
            final(self).jobs() == old(self).jobs().push(job@),
            final(self).active_id() == old(self).active_id(),
            final(self).has_active_token() == old(self).has_active_token(),
            final(self).processing() == old(self).processing(),
    {
        self.queue.push_back(job);
        proof {
            assert(self.jobs() =~= old(self).jobs().push(job@));
        }
    }

    /// Pops the head job, or returns `None` on an empty queue; everything
    /// else is untouched.
    pub fn dequeue(&mut self) -> (r: Option<TranscriptionJob>)
        ensures
            final(self).active_id() == old(self).active_id(),
            final(self).has_active_token() == old(self).has_active_token(),
            final(self).processing() == old(self).processing(),
            match r {
                Some(job) => {
                    &&& old(self).jobs().len() > 0
                    &&& job@ == old(self).jobs().first()
                    &&& final(self).jobs() == old(self).jobs().drop_first()
                },
                None => {
                    &&& old(self).jobs().len() == 0
                    &&& final(self).jobs() == old(self).jobs()
                },
            },
    {
        let r = self.queue.pop_front();
        proof {
            if r is Some {
                assert(self.jobs() =~= old(self).jobs().drop_first());
            } else {
                assert(self.jobs() =~= old(self).jobs());
            }
        }
        r
    }

    /// Signals the active job's cancellation handle, if one is registered,
    /// and clears the active-job bookkeeping. Queued jobs are untouched:
    /// they will still run, each starting un-cancelled. With no active job
    /// this only re-clears the already empty bookkeeping.
    pub fn cancel_active(&mut self)
        ensures
            final(self).jobs() == old(self).jobs(),
            final(self).processing() == old(self).processing(),
            final(self).active_id() is None,
            !final(self).has_active_token(),
    {
        match &self.active_token {
            Some(token) => token.cancel(),
            None => {},
        }
        self.active_token = None;
        self.active_episode_id = None;
    }

    /// Number of queued jobs.
    pub fn queue_len(&self) -> (n: usize)
        ensures
            n == self.jobs().len(),
    {
        self.queue.len()
    }

    /// Appends a job and marks the stage as processing, returning whether a
    /// worker loop was already running. On `false` the caller must start
    /// one: this transition is what keeps the loop unique per stage.
    pub fn enqueue_and_mark_processing(&mut self, job: TranscriptionJob) -> (was: bool)
        ensures
            final(self).jobs() == old(self).jobs().push(job@),
            final(self).active_id() == old(self).active_id(),
            final(self).has_active_token() == old(self).has_active_token(),
            final(self).processing(),
            was == old(self).processing(),
    {
        self.enqueue(job);
        let was = self.is_processing;
        if !was {
            self.is_processing = true;
        }
        was
    }

    /// Pops the head job for the worker loop; on an empty queue the loop is
    /// about to terminate, so the processing flag is cleared atomically with
    /// the discovery that nothing is left.
    pub fn dequeue_or_park(&mut self) -> (r: Option<TranscriptionJob>)
        ensures
            final(self).active_id() == old(self).active_id(),
            final(self).has_active_token() == old(self).has_active_token(),
            match r {
                Some(job) => {
                    &&& old(self).jobs().len() > 0
                    &&& job@ == old(self).jobs().first()
                    &&& final(self).jobs() == old(self).jobs().drop_first()
                    &&& final(self).processing() == old(self).processing()
                },
                None => {
                    &&& old(self).jobs().len() == 0
                    &&& final(self).jobs() == old(self).jobs()
                    &&& !final(self).processing()
                },
            },
    {
        let r = self.dequeue();
        if r.is_none() {
            self.is_processing = false;
        }
        r
    }

    /// Creates the cancellation token for a job that starts now, registers a
    /// clone of it as the active handle and records the active episode.
    pub fn register_active(&mut self, episode_id: i64) -> (t: CancellationToken)
        ensures
            final(self).jobs() == old(self).jobs(),
            final(self).processing() == old(self).processing(),
            final(self).active_id() == Some(episode_id),
            final(self).has_active_token(),
    {
        let t = CancellationToken::new();
        self.active_token = Some(t.clone());
        self.active_episode_id = Some(episode_id);
        t
    }

    /// Clears the active-job bookkeeping after a terminal transition
    /// (done, error or cancelled), before the worker loop moves on.
    pub fn finish_active(&mut self)
        ensures
            final(self).jobs() == old(self).jobs(),
            final(self).processing() == old(self).processing(),
            final(self).active_id() is None,
            !final(self).has_active_token(),
    {
        self.active_token = None;
        self.active_episode_id = None;
    }

    /// A snapshot for status queries.
    pub fn status(&self) -> (s: QueueStatus)
        ensures
            s.active_episode_id == self.active_id(),
            s.queue_length == self.jobs().len(),
            s.is_processing == self.processing(),
    {
        QueueStatus {
            active_episode_id: self.active_episode_id,
            queue_length: self.queue.len(),
            is_processing: self.is_processing,
        }
    }
}

/// The diarization stage's queue and active-job bookkeeping.
pub struct DiarizationQueue {
    queue: VecDeque<DiarizationJob>,
    active_token: Option<CancellationToken>,
    active_episode_id: Option<i64>,
    is_processing: bool,
}

impl DiarizationQueue {
    /// The queued jobs, head (next to run) first.
    pub closed spec fn jobs(&self) -> Seq<JobView> {
        self.queue@.map_values(|j: DiarizationJob| j@)
    }

    /// The episode whose job is currently active, if any.
    pub closed spec fn active_id(&self) -> Option<i64> {
        self.active_episode_id
    }

    /// Whether a cancellation handle for an active job is registered.
    pub closed spec fn has_active_token(&self) -> bool {
        self.active_token is Some
    }

    /// Whether a worker loop is running for this stage.
    pub closed spec fn processing(&self) -> bool {
        self.is_processing
    }

    /// A fresh stage: nothing queued, nothing active, no worker loop.
    pub fn new() -> (q: DiarizationQueue)
        ensures
            q.jobs() == Seq::<JobView>::empty(),
            q.active_id() is None,
            !q.has_active_token(),
            !q.processing(),
    {
        let q = DiarizationQueue {
            queue: VecDeque::new(),
            active_token: None,
            active_episode_id: None,
            is_processing: false,
        };
        proof {
            assert(q.jobs() =~= Seq::<JobView>::empty());
        }
        q
    }

    /// Appends a job at the tail; everything else is untouched.
    pub fn enqueue(&mut self, job: DiarizationJob)
        ensures
            final(self).jobs() == old(self).jobs().push(job@),
            final(self).active_id() == old(self).active_id(),
            final(self).has_active_token() == old(self).has_active_token(),
            final(self).processing() == old(self).processing(),
    {
        self.queue.push_back(job);
        proof {
            assert(self.jobs() =~= old(self).jobs().push(job@));
        }
    }

    /// Pops the head job, or returns `None` on an empty queue; everything
    /// else is untouched.
    pub fn dequeue(&mut self) -> (r: Option<DiarizationJob>)
        ensures
            final(self).active_id() == old(self).active_id(),
            final(self).has_active_token() == old(self).has_active_token(),
            final(self).processing() == old(self).processing(),
            match r {
                Some(job) => {
                    &&& old(self).jobs().len() > 0
                    &&& job@ == old(self).jobs().first()
                    &&& final(self).jobs() == old(self).jobs().drop_first()
                },
                None => {
                    &&& old(self).jobs().len() == 0
                    &&& final(self).jobs() == old(self).jobs()
                },
            },
    {
        let r = self.queue.pop_front();
        proof {
            if r is Some {
                assert(self.jobs() =~= old(self).jobs().drop_first());
            } else {
                assert(self.jobs() =~= old(self).jobs());
            }
        }
        r
    }

    /// Signals the active job's cancellation handle, if one is registered,
    /// and clears the active-job bookkeeping. Queued jobs are untouched:
    /// they will still run, each starting un-cancelled. With no active job
    /// this only re-clears the already empty bookkeeping.
    pub fn cancel_active(&mut self)
        ensures
            final(self).jobs() == old(self).jobs(),
            final(self).processing() == old(self).processing(),
            final(self).active_id() is None,
            !final(self).has_active_token(),
    {
        match &self.active_token {
            Some(token) => token.cancel(),
            None => {},
        }
        self.active_token = None;
        self.active_episode_id = None;
    }

    /// Number of queued jobs.
    pub fn queue_len(&self) -> (n: usize)
        ensures
            n == self.jobs().len(),
    {
        self.queue.len()
    }

    /// Appends a job and marks the stage as processing, returning whether a
    /// worker loop was already running. On `false` the caller must start
    /// one: this transition is what keeps the loop unique per stage.
    pub fn enqueue_and_mark_processing(&mut self, job: DiarizationJob) -> (was: bool)
        ensures
            final(self).jobs() == old(self).jobs().push(job@),
            final(self).active_id() == old(self).active_id(),
            final(self).has_active_token() == old(self).has_active_token(),
            final(self).processing(),
            was == old(self).processing(),
    {
        self.enqueue(job);
        let was = self.is_processing;
        if !was {
            self.is_processing = true;
        }
        was
    }

    /// Pops the head job for the worker loop; on an empty queue the loop is
    /// about to terminate, so the processing flag is cleared atomically with
    /// the discovery that nothing is left.
    pub fn dequeue_or_park(&mut self) -> (r: Option<DiarizationJob>)
        ensures
            final(self).active_id() == old(self).active_id(),
            final(self).has_active_token() == old(self).has_active_token(),
            match r {
                Some(job) => {
                    &&& old(self).jobs().len() > 0
                    &&& job@ == old(self).jobs().first()
                    &&& final(self).jobs() == old(self).jobs().drop_first()
                    &&& final(self).processing() == old(self).processing()
                },
                None => {
                    &&& old(self).jobs().len() == 0
                    &&& final(self).jobs() == old(self).jobs()
                    &&& !final(self).processing()
                },
            },
    {
        let r = self.dequeue();
        if r.is_none() {
            self.is_processing = false;
        }
        r
    }

    /// Creates the cancellation token for a job that starts now, registers a
    /// clone of it as the active handle and records the active episode.
    pub fn register_active(&mut self, episode_id: i64) -> (t: CancellationToken)
        ensures
            final(self).jobs() == old(self).jobs(),
            final(self).processing() == old(self).processing(),
            final(self).active_id() == Some(episode_id),
            final(self).has_active_token(),
    {
        let t = CancellationToken::new();
        self.active_token = Some(t.clone());
        self.active_episode_id = Some(episode_id);
        t
    }

    /// Clears the active-job bookkeeping after a terminal transition
    /// (done, error or cancelled), before the worker loop moves on.
    pub fn finish_active(&mut self)
        ensures
            final(self).jobs() == old(self).jobs(),
            final(self).processing() == old(self).processing(),
            final(self).active_id() is None,
            !final(self).has_active_token(),
    {
        self.active_token = None;
        self.active_episode_id = None;
    }

    /// A snapshot for status queries.
    pub fn status(&self) -> (s: DiarizationQueueStatus)
        ensures
            s.active_episode_id == self.active_id(),
            s.queue_length == self.jobs().len(),
            s.is_processing == self.processing(),
    {
        DiarizationQueueStatus {
            active_episode_id: self.active_episode_id,
            queue_length: self.queue.len(),
            is_processing: self.is_processing,
        }
    }
}

/// The job that chaining enqueues after a successful transcription: a
/// diarization job for the same episode and the same audio location.
pub fn chained_job(job: &TranscriptionJob) -> (r: DiarizationJob)
    ensures
        r@ == job@,
{
    DiarizationJob { episode_id: job.episode_id, audio_url: job.audio_url.clone() }
}

/// FIFO processing law. A worker always dequeues the head, so with `s` the
/// jobs already queued and `t` the jobs enqueued afterwards (say while the
/// head job was running), the queue behaves as `s + t`: the k-th job to run
/// is `s[k]` while any of `s` is left, and only then `t[k - s.len()]` — a
/// later enqueue can never overtake an earlier one.
pub proof fn lemma_fifo_order(s: Seq<JobView>, t: Seq<JobView>, k: int)
    requires
        0 <= k < s.len() + t.len(),
    ensures
        (s + t)[k] == if k < s.len() {
            s[k]
        } else {
            t[k - s.len()]
        },
        s.len() > 0 ==> (s + t).first() == s.first(),
        s.len() > 0 ==> (s + t).drop_first() == s.drop_first() + t,
{
    if s.len() > 0 {
        assert((s + t).drop_first() =~= s.drop_first() + t);
    }
}

} // verus!
