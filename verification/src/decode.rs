//! Bounded-memory decode/resample bookkeeping.
//!
//! A compressed episode is decoded frame by frame; each decoded frame is
//! mixed to mono and fed straight into a fixed-size resampling window, so
//! that only one pending window and the growing output are ever held in
//! memory — never a second full-length buffer. This module is the exact
//! arithmetic of that streaming scheme: when a window is full and must be
//! handed to the resampler, how much silence pads the final partial window,
//! and how many samples come out. The sample values themselves (floating
//! point) stay with the unverified decoder around this crate; every decision
//! here depends only on counts.

use vstd::prelude::*;
use vstd::arithmetic::div_mod::{
    lemma_div_pos_is_pos, lemma_fundamental_div_mod, lemma_fundamental_div_mod_converse_div,
    lemma_fundamental_div_mod_converse_mod,
};

verus! {

/// Largest accepted resampler window, in samples.
pub const MAX_WINDOW_SAMPLES: u64 = 0x10_0000;

/// Largest accepted stream length, in samples.
pub const MAX_STREAM_SAMPLES: u64 = 0x100_0000_0000;

/// Integer division rounding up (for positive divisors).
pub open spec fn ceil_div(a: int, b: int) -> int {
    (a + b - 1) / b
}

/// How many samples the streaming scheme emits for a stream of `n` input
/// samples with an input window of `in_w` and `out_w` output samples per
/// window: the final partial window is padded with silence, so every input
/// window is a full one.
pub open spec fn flushed_output(n: int, in_w: int, out_w: int) -> int {
    ceil_div(n, in_w) * out_w
}

/// Tracks one streaming decode: how many mono samples were fed, how many
/// wait in the pending window, and how many the resampler has produced.
///
/// A source already at the target rate runs in pass-through mode: frames are
/// appended directly and the resampler is never involved.
pub struct ResampleTracker {
    passthrough: bool,
    in_window: u64,
    out_window: u64,
    fed: u64,
    pending: u64,
    windows: u64,
    produced: u64,
    finished: bool,
}

impl ResampleTracker {
    /// Pass-through mode: the source is already at the target rate.
    pub closed spec fn is_passthrough(&self) -> bool {
        self.passthrough
    }

    /// Input window size, in samples.
    pub closed spec fn spec_in_window(&self) -> int {
        self.in_window as int
    }

    /// Output samples per processed window.
    pub closed spec fn spec_out_window(&self) -> int {
        self.out_window as int
    }

    /// Total mono samples fed in so far.
    pub closed spec fn spec_fed(&self) -> int {
        self.fed as int
    }

    /// Samples waiting in the partial window.
    pub closed spec fn spec_pending(&self) -> int {
        self.pending as int
    }

    /// Windows handed to the resampler so far.
    pub closed spec fn spec_windows(&self) -> int {
        self.windows as int
    }

    /// Total samples emitted so far.
    pub closed spec fn spec_produced(&self) -> int {
        self.produced as int
    }

    /// Whether the end of the stream has been flushed.
    pub closed spec fn spec_finished(&self) -> bool {
        self.finished
    }

    /// The tracker's invariant, established by the constructors and kept by
    /// every operation.
    pub closed spec fn wf(&self) -> bool {
        &&& self.fed <= MAX_STREAM_SAMPLES
        &&& if self.passthrough {
            &&& self.produced == self.fed
            &&& self.pending == 0
            &&& self.windows == 0
        } else {
            &&& 0 < self.in_window <= MAX_WINDOW_SAMPLES
            &&& 0 < self.out_window <= MAX_WINDOW_SAMPLES
            &&& self.produced == self.windows * self.out_window
            &&& if self.finished {
                self.pending == 0 && self.windows as int == ceil_div(
                    self.fed as int,
                    self.in_window as int,
                )
            } else {
                self.fed == self.windows * self.in_window + self.pending && self.pending
                    < self.in_window
            }
        }
    }

    /// A tracker for a source already at the target rate.
    pub fn new_passthrough() -> (t: ResampleTracker)
        ensures
            t.wf(),
            t.is_passthrough(),
            !t.spec_finished(),
            t.spec_fed() == 0,
            t.spec_produced() == 0,
    {
        ResampleTracker {
            passthrough: true,
            in_window: 1,
            out_window: 1,
            fed: 0,
            pending: 0,
            windows: 0,
            produced: 0,
            finished: false,
        }
    }

    /// A tracker for a source that is resampled in windows of `in_window`
    /// input samples, each yielding `out_window` output samples.
    pub fn new_windowed(in_window: u64, out_window: u64) -> (t: ResampleTracker)
        requires
            0 < in_window <= MAX_WINDOW_SAMPLES,
            0 < out_window <= MAX_WINDOW_SAMPLES,
        ensures
            t.wf(),
            !t.is_passthrough(),
            !t.spec_finished(),
            t.spec_in_window() == in_window,
            t.spec_out_window() == out_window,
            t.spec_fed() == 0,
            t.spec_pending() == 0,
            t.spec_windows() == 0,
            t.spec_produced() == 0,
    {
        ResampleTracker {
            passthrough: false,
            in_window,
            out_window,
            fed: 0,
            pending: 0,
            windows: 0,
            produced: 0,
            finished: false,
        }
    }

    /// Accepts `n` freshly decoded mono samples. In pass-through mode they
    /// are emitted as they are; otherwise they join the pending window, and
    /// every window that fills is handed to the resampler. Returns how many
    /// windows the caller must now run through the resampler.
    pub fn push_frames(&mut self, n: u64) -> (new_windows: u64)
        requires
            old(self).wf(),
            !old(self).spec_finished(),
            old(self).spec_fed() + n <= MAX_STREAM_SAMPLES,
        ensures
            final(self).wf(),
            !final(self).spec_finished(),
            final(self).is_passthrough() == old(self).is_passthrough(),
            final(self).spec_in_window() == old(self).spec_in_window(),
            final(self).spec_out_window() == old(self).spec_out_window(),
            final(self).spec_fed() == old(self).spec_fed() + n,
            old(self).is_passthrough() ==> {
                &&& final(self).spec_produced() == final(self).spec_fed()
                &&& new_windows == 0
            },
            !old(self).is_passthrough() ==> {
                &&& final(self).spec_pending() == (old(self).spec_pending() + n) % old(
                    self,
                ).spec_in_window()
                &&& final(self).spec_windows() == old(self).spec_windows() + (old(
                    self,
                ).spec_pending() + n) / old(self).spec_in_window()
                &&& final(self).spec_produced() == final(self).spec_windows() * old(
                    self,
                ).spec_out_window()
                &&& new_windows == (old(self).spec_pending() + n) / old(self).spec_in_window()
            },
    {
        if self.passthrough {
            self.fed = self.fed + n;
            self.produced = self.produced + n;
            return 0;
        }
        self.fed = self.fed + n;
        self.pending = self.pending + n;
        let mut added: u64 = 0;
        proof {
            assert(self.windows * self.in_window >= 0) by (nonlinear_arith)
                requires
                    self.windows as int >= 0 && self.in_window as int >= 0,
            ;
        }
        while self.pending >= self.in_window
            invariant
                !self.passthrough,
                !self.finished,
                0 < self.in_window <= MAX_WINDOW_SAMPLES,
                0 < self.out_window <= MAX_WINDOW_SAMPLES,
                self.in_window == old(self).in_window,
                self.out_window == old(self).out_window,
                self.fed == old(self).fed + n,
                self.fed <= MAX_STREAM_SAMPLES,
                self.fed == self.windows * self.in_window + self.pending,
                self.produced == self.windows * self.out_window,
                self.windows == old(self).windows + added,
            decreases self.pending,
        {
            proof {
                assert((self.windows + 1) * self.in_window == self.windows * self.in_window
                    + self.in_window) by (nonlinear_arith);
                assert((self.windows + 1) * self.out_window == self.windows * self.out_window
                    + self.out_window) by (nonlinear_arith);
                // the next window still fits the stream bound, so the counters fit u64
                assert(self.windows + 1 <= (self.windows + 1) * self.in_window) by (
                nonlinear_arith)
                    requires
                        self.in_window as int >= 1 && self.windows as int >= 0,
                ;
                assert((self.windows + 1) * self.out_window <= MAX_STREAM_SAMPLES as int
                    * MAX_WINDOW_SAMPLES as int) by (nonlinear_arith)
                    requires
                        0 <= self.windows + 1 <= MAX_STREAM_SAMPLES as int && 0
                            < self.out_window as int <= MAX_WINDOW_SAMPLES as int,
                ;
            }
            self.pending = self.pending - self.in_window;
            self.windows = self.windows + 1;
            self.produced = self.produced + self.out_window;
            added = added + 1;
        }
        proof {
            let t = old(self).spec_pending() + n;
            let iw = self.in_window as int;
            let f0 = old(self).fed as int;
            let w0 = old(self).windows as int;
            let p0 = old(self).pending as int;
            let f1 = self.fed as int;
            let w1 = self.windows as int;
            let p1 = self.pending as int;
            let a = added as int;
            assert(t == a * iw + p1) by (nonlinear_arith)
                requires
                    f0 == w0 * iw + p0,
                    f1 == w1 * iw + p1,
                    f1 == f0 + n,
                    w1 == w0 + a,
                    t == p0 + n,
            ;
            lemma_fundamental_div_mod_converse_div(t, iw, a, p1);
            lemma_fundamental_div_mod_converse_mod(t, iw, a, p1);
        }
        added
    }

    /// Ends the stream. A non-empty pending window is padded with `pad`
    /// samples of silence to a full window and handed to the resampler;
    /// the caller must feed exactly that many zero samples through. After
    /// this the total output is [`flushed_output`] of the totals (or, in
    /// pass-through mode, exactly the input count — no window, no padding).
    pub fn finish(&mut self) -> (pad: u64)
        requires
            old(self).wf(),
            !old(self).spec_finished(),
        ensures
            final(self).wf(),
            final(self).spec_finished(),
            final(self).is_passthrough() == old(self).is_passthrough(),
            final(self).spec_in_window() == old(self).spec_in_window(),
            final(self).spec_out_window() == old(self).spec_out_window(),
            final(self).spec_fed() == old(self).spec_fed(),
            old(self).is_passthrough() ==> {
                &&& pad == 0
                &&& final(self).spec_produced() == final(self).spec_fed()
            },
            !old(self).is_passthrough() ==> {
                &&& pad == if old(self).spec_pending() == 0 {
                    0int
                } else {
                    old(self).spec_in_window() - old(self).spec_pending()
                }
                &&& pad < old(self).spec_in_window()
                &&& final(self).spec_produced() == flushed_output(
                    old(self).spec_fed(),
                    old(self).spec_in_window(),
                    old(self).spec_out_window(),
                )
            },
    {
        if self.passthrough {
            self.finished = true;
            return 0;
        }
        let iw = self.in_window;
        let ghost fed = self.fed as int;
        let ghost w0 = self.windows as int;
        proof {
            lemma_div_pos_is_pos(fed + iw - 1, iw as int);
        }
        if self.pending == 0 {
            proof {
                // fed == w0 * iw, so ceil_div(fed, iw) == w0
                lemma_fundamental_div_mod_converse_div(
                    fed + iw - 1,
                    iw as int,
                    w0,
                    iw - 1,
                );
            }
            self.finished = true;
            0
        } else {
            let pad = iw - self.pending;
            proof {
                assert((w0 + 1) * self.in_window == w0 * self.in_window + self.in_window) by (
                nonlinear_arith);
                assert((w0 + 1) * self.out_window == w0 * self.out_window + self.out_window) by (
                nonlinear_arith);
                assert(w0 + 1 <= (w0 + 1) * self.in_window) by (nonlinear_arith)
                    requires
                        self.in_window as int >= 1 && w0 >= 0,
                ;
                assert(w0 <= w0 * self.in_window) by (nonlinear_arith)
                    requires
                        self.in_window as int >= 1 && w0 >= 0,
                ;
                assert(w0 + 1 <= MAX_STREAM_SAMPLES as int + 1);
                assert((w0 + 1) * self.out_window <= (MAX_STREAM_SAMPLES as int + 1)
                    * MAX_WINDOW_SAMPLES as int) by (nonlinear_arith)
                    requires
                        0 <= w0 + 1 <= MAX_STREAM_SAMPLES as int + 1 && 0 < self.out_window as int
                            <= MAX_WINDOW_SAMPLES as int,
                ;
                // fed == w0 * iw + pending with 0 < pending < iw,
                // so fed + iw - 1 == (w0 + 1) * iw + (pending - 1) and
                // ceil_div(fed, iw) == w0 + 1
                assert(fed + iw - 1 == (w0 + 1) * iw as int + (self.pending - 1)) by (
                nonlinear_arith)
                    requires
                        fed == w0 * iw as int + self.pending as int,
                ;
                lemma_fundamental_div_mod_converse_div(
                    fed + iw - 1,
                    iw as int,
                    w0 + 1,
                    self.pending - 1,
                );
            }
            self.pending = 0;
            self.windows = self.windows + 1;
            self.produced = self.produced + self.out_window;
            self.finished = true;
            pad
        }
    }

    /// Total samples emitted so far.
    pub fn produced_samples(&self) -> (r: u64)
        ensures
            r == self.spec_produced(),
    {
        self.produced
    }

    /// Total mono samples fed in so far.
    pub fn fed_samples(&self) -> (r: u64)
        ensures
            r == self.spec_fed(),
    {
        self.fed
    }

    /// Samples waiting in the partial window.
    pub fn pending_samples(&self) -> (r: u64)
        ensures
            r == self.spec_pending(),
    {
        self.pending
    }
}

/// The end-of-decode check: a stream that decoded to nothing is a distinct
/// decode error, never a panic.
pub fn decoded_output(produced: u64) -> (r: Result<u64, String>)
    ensures
        produced > 0 ==> r == Ok::<u64, String>(produced),
        produced == 0 ==> (r matches Err(m) && m@ == "No audio data decoded from MP3"@),
{
    if produced == 0 {
        Err(("No audio data decoded from MP3").to_owned())
    } else {
        Ok(produced)
    }
}

/// Round-trip law: downsampling `n` samples with the window pair
/// (`w` in, `wd` out) and then upsampling the result with the inverse pair
/// (`wd` in, `w` out) yields `ceil(n / w) · w` samples — at least `n`, and
/// short of `n + w`. Duration is preserved to within one window's worth of
/// samples; the excess is exactly the silence that padded the final partial
/// window.
pub proof fn lemma_resample_round_trip(n: int, w: int, wd: int)
    requires
        0 <= n,
        0 < w,
        0 < wd,
    ensures
        flushed_output(flushed_output(n, w, wd), wd, w) == ceil_div(n, w) * w,
        n <= ceil_div(n, w) * w < n + w,
{
    let c = ceil_div(n, w);
    lemma_fundamental_div_mod(n + w - 1, w);
    let r = (n + w - 1) % w;
    assert(c * w == n + w - 1 - r) by (nonlinear_arith)
        requires
            n + w - 1 == w * c + r,
    ;
    assert(n <= c * w < n + w);
    assert(c >= 0) by {
        lemma_div_pos_is_pos(n + w - 1, w);
    }
    // ceil_div(c * wd, wd) == c: c * wd + wd - 1 == c * wd + (wd - 1)
    lemma_fundamental_div_mod_converse_div(c * wd + wd - 1, wd, c, wd - 1);
    assert(flushed_output(n, w, wd) == c * wd);
    assert(ceil_div(c * wd, wd) == c);
}

} // verus!
