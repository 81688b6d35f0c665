//! Chunked transcript assembly.
//!
//! To bound peak memory, the decoded audio is split into fixed-length,
//! non-overlapping windows and each window is transcribed independently
//! (with a fresh inference state — reusing one across windows risks stale
//! callbacks in native backends). The model reports timestamps relative to
//! its window in centiseconds; this module offsets them by the window's
//! start and splices everything into a single timeline, proving that the
//! assembled segments are chronological and never reach past the audio's
//! duration.

use vstd::prelude::*;
use vstd::arithmetic::div_mod::{
    lemma_div_pos_is_pos, lemma_fundamental_div_mod, lemma_fundamental_div_mod_converse_div,
    lemma_hoist_over_denominator,
};
use vstd::string::StringExecFns;
use crate::decode::{ceil_div, MAX_STREAM_SAMPLES};

verus! {

/// Samples per centisecond at the pipeline's 16 kHz target rate; the
/// inference backend timestamps in centiseconds.
pub const SAMPLES_PER_CS: u64 = 160;

/// The fixed inference window: 20 minutes at 16 kHz. Short enough that the
/// backend's per-window buffers stay small, long enough for context.
pub const CHUNK_SAMPLES: u64 = 19_200_000;

/// Largest accepted inference window, in samples. A window is a whole
/// number of centiseconds.
pub const MAX_INFER_WINDOW_SAMPLES: u64 = 0x1_0000_0000;

/// One segment as the inference backend reports it: text plus start and end
/// in centiseconds relative to the window it came from.
#[derive(Debug)]
pub struct WindowSegment {
    pub text: String,
    pub start_cs: i64,
    pub end_cs: i64,
}

/// One transcript segment on the episode's timeline, in milliseconds.
#[derive(Debug)]
pub struct TranscriptSegment {
    pub text: String,
    pub start_ms: i64,
    pub end_ms: i64,
}

/// Mathematical image of a window-relative segment.
pub struct WindowSegmentView {
    pub text: Seq<char>,
    pub start_cs: int,
    pub end_cs: int,
}

/// Mathematical image of a timeline segment.
pub struct TranscriptSegmentView {
    pub text: Seq<char>,
    pub start_ms: int,
    pub end_ms: int,
}

impl View for WindowSegment {
    type V = WindowSegmentView;

    open spec fn view(&self) -> WindowSegmentView {
        WindowSegmentView {
            text: self.text@,
            start_cs: self.start_cs as int,
            end_cs: self.end_cs as int,
        }
    }
}

impl View for TranscriptSegment {
    type V = TranscriptSegmentView;

    open spec fn view(&self) -> TranscriptSegmentView {
        TranscriptSegmentView {
            text: self.text@,
            start_ms: self.start_ms as int,
            end_ms: self.end_ms as int,
        }
    }
}

/// The views of a vector of timeline segments.
pub open spec fn tsegs_view(s: Seq<TranscriptSegment>) -> Seq<TranscriptSegmentView> {
    s.map_values(|x: TranscriptSegment| x@)
}

/// The views of a vector of window-relative segments.
pub open spec fn wsegs_view(s: Seq<WindowSegment>) -> Seq<WindowSegmentView> {
    s.map_values(|x: WindowSegment| x@)
}

/// A chronological timeline: every segment starts no earlier than zero and
/// no later than it ends, and no segment starts before the previous one
/// ended.
pub open spec fn chained(s: Seq<TranscriptSegmentView>) -> bool {
    &&& forall|i: int| 0 <= i < s.len() ==> 0 <= (#[trigger] s[i]).start_ms <= s[i].end_ms
    &&& forall|i: int| 0 <= i < s.len() - 1 ==> (#[trigger] s[i]).end_ms <= s[i + 1].start_ms
}

/// Every segment ends by `limit_ms`.
pub open spec fn within(s: Seq<TranscriptSegmentView>, limit_ms: int) -> bool {
    forall|i: int| 0 <= i < s.len() ==> (#[trigger] s[i]).end_ms <= limit_ms
}

/// A well-formed window report: segments are chronological within the
/// window and end by the window's length (`len_cs` centiseconds).
pub open spec fn window_ok(s: Seq<WindowSegmentView>, len_cs: int) -> bool {
    &&& forall|i: int| 0 <= i < s.len() ==> 0 <= (#[trigger] s[i]).start_cs <= s[i].end_cs <= len_cs
    &&& forall|i: int| 0 <= i < s.len() - 1 ==> (#[trigger] s[i]).end_cs <= s[i + 1].start_cs
}

/// Window segments moved onto the episode timeline: offset by the window's
/// start (`off_cs` centiseconds) and scaled to milliseconds.
pub open spec fn offset_window(s: Seq<WindowSegmentView>, off_cs: int) -> Seq<
    TranscriptSegmentView,
> {
    s.map_values(
        |x: WindowSegmentView|
            TranscriptSegmentView {
                text: x.text,
                start_ms: (x.start_cs + off_cs) * 10,
                end_ms: (x.end_cs + off_cs) * 10,
            },
    )
}

/// The concatenation of the segments' texts, in order.
pub open spec fn concat_texts(s: Seq<TranscriptSegmentView>) -> Seq<char>
    decreases s.len(),
{
    if s.len() == 0 {
        Seq::empty()
    } else {
        concat_texts(s.drop_last()) + s.last().text
    }
}

/// Number of windows that cover `total` samples.
pub open spec fn spec_num_windows(total: int, window: int) -> int {
    ceil_div(total, window)
}

/// The episode's duration in centisecond granularity, rounded up: the last
/// timestamp a window may report.
pub open spec fn duration_cs(total: int) -> int {
    ceil_div(total, SAMPLES_PER_CS as int)
}

/// `n <= ceil_div(n, w) * w < n + w` for `n >= 0 < w`.
pub proof fn lemma_ceil_div_bounds(n: int, w: int)
    requires
        0 <= n,
        0 < w,
    ensures
        n <= ceil_div(n, w) * w < n + w,
        0 <= ceil_div(n, w),
{
    let c = ceil_div(n, w);
    lemma_fundamental_div_mod(n + w - 1, w);
    let r = (n + w - 1) % w;
    assert(c * w == n + w - 1 - r) by (nonlinear_arith)
        requires
            n + w - 1 == w * c + r,
    ;
    lemma_div_pos_is_pos(n + w - 1, w);
}

proof fn lemma_chained_append(a: Seq<TranscriptSegmentView>, b: Seq<TranscriptSegmentView>, m: int)
    requires
        0 <= m,
        chained(a),
        within(a, m),
        chained(b),
        forall|i: int| 0 <= i < b.len() ==> (#[trigger] b[i]).start_ms >= m,
    ensures
        chained(a + b),
{
    let c = a + b;
    assert forall|i: int| 0 <= i < c.len() implies 0 <= (#[trigger] c[i]).start_ms <= c[i].end_ms by {
        if i < a.len() {
            assert(c[i] == a[i]);
        } else {
            assert(c[i] == b[i - a.len()]);
            assert(b[i - a.len()].start_ms >= m);
        }
    }
    assert forall|i: int| 0 <= i < c.len() - 1 implies (#[trigger] c[i]).end_ms <= c[i
        + 1].start_ms by {
        if i + 1 < a.len() {
            assert(c[i] == a[i] && c[i + 1] == a[i + 1]);
        } else if i < a.len() {
            assert(c[i] == a[i] && c[i + 1] == b[0]);
        } else {
            assert(c[i] == b[i - a.len()] && c[i + 1] == b[i + 1 - a.len()]);
        }
    }
}

proof fn lemma_concat_texts_append(a: Seq<TranscriptSegmentView>, b: Seq<TranscriptSegmentView>)
    ensures
        concat_texts(a + b) == concat_texts(a) + concat_texts(b),
    decreases b.len(),
{
    if b.len() == 0 {
        assert(a + b =~= a);
        assert(concat_texts(a) + concat_texts(b) =~= concat_texts(a));
    } else {
        lemma_concat_texts_append(a, b.drop_last());
        assert((a + b).drop_last() =~= a + b.drop_last());
        assert((a + b).last() == b.last());
        assert(concat_texts(a + b) =~= concat_texts(a) + concat_texts(b));
    }
}

/// Assembles the windows' reports into one transcript: the accumulated
/// text and the chronological, duration-bounded segment list.
pub struct TranscriptAssembler {
    window_samples: u64,
    total_samples: u64,
    next_window: u64,
    full_text: String,
    segments: Vec<TranscriptSegment>,
}

impl TranscriptAssembler {
    /// Samples per inference window.
    pub closed spec fn spec_window(&self) -> int {
        self.window_samples as int
    }

    /// Samples of the whole episode.
    pub closed spec fn spec_total(&self) -> int {
        self.total_samples as int
    }

    /// Index of the next window to be pushed.
    pub closed spec fn spec_next_window(&self) -> int {
        self.next_window as int
    }

    /// The assembled segments so far.
    pub closed spec fn spec_segments(&self) -> Seq<TranscriptSegmentView> {
        tsegs_view(self.segments@)
    }

    /// The accumulated text so far.
    pub closed spec fn spec_text(&self) -> Seq<char> {
        self.full_text@
    }

    /// How far the timeline may reach after the windows pushed so far, in
    /// centiseconds: the pushed windows' samples, or the whole (rounded-up)
    /// duration once the final partial window is in.
    pub closed spec fn processed_cs(&self) -> int {
        if self.spec_next_window() * self.spec_window() <= self.spec_total() {
            self.spec_next_window() * self.spec_window() / (SAMPLES_PER_CS as int)
        } else {
            duration_cs(self.spec_total())
        }
    }

    /// The assembler's invariant.
    pub closed spec fn wf(&self) -> bool {
        &&& 0 < self.window_samples <= MAX_INFER_WINDOW_SAMPLES
        &&& self.window_samples % SAMPLES_PER_CS == 0
        &&& self.total_samples <= MAX_STREAM_SAMPLES
        &&& 0 <= self.spec_next_window() <= spec_num_windows(self.spec_total(), self.spec_window())
        &&& chained(self.spec_segments())
        &&& within(self.spec_segments(), self.processed_cs() * 10)
        &&& self.spec_text() == concat_texts(self.spec_segments())
    }

    /// An empty assembler for an episode of `total_samples` decoded samples,
    /// transcribed in windows of `window_samples`.
    pub fn new(total_samples: u64, window_samples: u64) -> (a: TranscriptAssembler)
        requires
            0 < window_samples <= MAX_INFER_WINDOW_SAMPLES,
            window_samples % SAMPLES_PER_CS == 0,
            total_samples <= MAX_STREAM_SAMPLES,
        ensures
            a.wf(),
            a.spec_window() == window_samples,
            a.spec_total() == total_samples,
            a.spec_next_window() == 0,
            a.spec_segments() == Seq::<TranscriptSegmentView>::empty(),
            a.spec_text() == Seq::<char>::empty(),
    {
        let a = TranscriptAssembler {
            window_samples,
            total_samples,
            next_window: 0,
            full_text: String::new(),
            segments: Vec::new(),
        };
        proof {
            assert(a.spec_segments() =~= Seq::<TranscriptSegmentView>::empty());
            assert(spec_num_windows(a.spec_total(), a.spec_window()) >= 0) by {
                lemma_ceil_div_bounds(a.spec_total(), a.spec_window());
            }
            assert(a.spec_text() =~= concat_texts(a.spec_segments()));
        }
        a
    }

    /// How many windows cover the episode.
    pub fn total_windows(&self) -> (n: u64)
        requires
            self.wf(),
        ensures
            n == spec_num_windows(self.spec_total(), self.spec_window()),
    {
        (self.total_samples + (self.window_samples - 1)) / self.window_samples
    }

    /// Index of the next window to be pushed.
    pub fn next_window(&self) -> (n: u64)
        ensures
            n == self.spec_next_window(),
    {
        self.next_window
    }

    /// The sample range of the next window: its start, and its end capped at
    /// the episode's length. The caller transcribes exactly this slice.
    pub fn next_window_bounds(&self) -> (r: (u64, u64))
        requires
            self.wf(),
            self.spec_next_window() < spec_num_windows(self.spec_total(), self.spec_window()),
        ensures
            r.0 == self.spec_next_window() * self.spec_window(),
            r.1 == if r.0 + self.spec_window() <= self.spec_total() {
                r.0 + self.spec_window()
            } else {
                self.spec_total()
            },
            r.0 < r.1 <= self.spec_total(),
    {
        proof {
            self.lemma_next_window_start_in_range();
        }
        let start = self.next_window * self.window_samples;
        let end = if self.total_samples - start > self.window_samples {
            start + self.window_samples
        } else {
            self.total_samples
        };
        (start, end)
    }

    proof fn lemma_next_window_start_in_range(&self)
        requires
            self.wf(),
            self.spec_next_window() < spec_num_windows(self.spec_total(), self.spec_window()),
        ensures
            0 <= self.spec_next_window() * self.spec_window() < self.spec_total(),
            (self.spec_next_window() + 1) * self.spec_window() < self.spec_total()
                + self.spec_window(),
    {
        let nw = self.spec_next_window();
        let w = self.spec_window();
        let n = self.spec_total();
        lemma_ceil_div_bounds(n, w);
        assert(nw + 1 <= ceil_div(n, w));
        vstd::arithmetic::mul::lemma_mul_inequality(nw + 1, ceil_div(n, w), w);
        assert((nw + 1) * w == nw * w + w) by (nonlinear_arith);
        assert(nw * w >= 0) by (nonlinear_arith)
            requires
                nw >= 0 && w > 0,
        ;
    }

    /// Splices one window's report into the timeline: each timestamp is
    /// offset by the window's start and scaled to milliseconds, and the
    /// texts are appended in order. Returns `false` — leaving the assembler
    /// untouched — when the report is not chronological within the window
    /// or reaches past the window's length; such a report is the backend's
    /// fault and the caller surfaces it as an inference error.
    #[verifier::rlimit(60)]
    pub fn push_window(&mut self, window: &Vec<WindowSegment>) -> (ok: bool)
        requires
            old(self).wf(),
            old(self).spec_next_window() < spec_num_windows(
                old(self).spec_total(),
                old(self).spec_window(),
            ),
        ensures
            final(self).wf(),
            final(self).spec_window() == old(self).spec_window(),
            final(self).spec_total() == old(self).spec_total(),
            ok == window_ok(
                wsegs_view(window@),
                ceil_div(
                    (if old(self).spec_next_window() * old(self).spec_window() + old(
                        self,
                    ).spec_window() <= old(self).spec_total() {
                        old(self).spec_window()
                    } else {
                        old(self).spec_total() - old(self).spec_next_window() * old(
                            self,
                        ).spec_window()
                    }),
                    SAMPLES_PER_CS as int,
                ),
            ),
            !ok ==> {
                &&& final(self).spec_next_window() == old(self).spec_next_window()
                &&& final(self).spec_segments() == old(self).spec_segments()
                &&& final(self).spec_text() == old(self).spec_text()
            },
            ok ==> {
                &&& final(self).spec_next_window() == old(self).spec_next_window() + 1
                &&& final(self).spec_segments() == old(self).spec_segments() + offset_window(
                    wsegs_view(window@),
                    old(self).spec_next_window() * old(self).spec_window() / (
                    SAMPLES_PER_CS as int),
                )
                &&& final(self).spec_text() == old(self).spec_text() + concat_texts(
                    offset_window(
                        wsegs_view(window@),
                        old(self).spec_next_window() * old(self).spec_window() / (
                        SAMPLES_PER_CS as int),
                    ),
                )
            },
    {
        proof {
            self.lemma_next_window_start_in_range();
        }
        let start = self.next_window * self.window_samples;
        let rest = self.total_samples - start;
        let full = rest > self.window_samples;
        let span: u64 = if full {
            self.window_samples
        } else {
            rest
        };
        let len_cs: u64 = (span + (SAMPLES_PER_CS - 1)) / SAMPLES_PER_CS;
        let off: u64 = start / SAMPLES_PER_CS;
        let ghost ws = wsegs_view(window@);

        // validate the window's report
        let m = window.len();
        let mut ok = true;
        let mut k: usize = 0;
        while k < m
            invariant
                m == ws.len(),
                k <= m,
                len_cs <= MAX_INFER_WINDOW_SAMPLES,
                ws == wsegs_view(window@),
                ok == ((forall|i: int|
                    0 <= i < k ==> 0 <= (#[trigger] ws[i]).start_cs <= ws[i].end_cs
                        <= len_cs as int) && (forall|i: int|
                    0 <= i < k - 1 ==> (#[trigger] ws[i]).end_cs <= ws[i + 1].start_cs)),
            decreases m - k,
        {
            proof {
                assert(ws[k as int] == window@[k as int]@);
                if k > 0 {
                    assert(ws[k as int - 1] == window@[k as int - 1]@);
                }
            }
            let good_range = 0 <= window[k].start_cs && window[k].start_cs <= window[k].end_cs
                && window[k].end_cs <= len_cs as i64;
            let good_order = if k > 0 {
                window[k - 1].end_cs <= window[k].start_cs
            } else {
                true
            };
            ok = ok && good_range && good_order;
            k = k + 1;
        }
        if !ok {
            assert(!window_ok(ws, len_cs as int));
            return false;
        }
        assert(window_ok(ws, len_cs as int));

        // splice the report in
        let ghost old_segs = self.spec_segments();
        let ghost old_text = self.spec_text();
        let ghost shifted = offset_window(ws, off as int);
        proof {
            assert(tsegs_view(self.segments@) =~= old_segs + offset_window(
                ws.take(0),
                off as int,
            ));
            assert(self.full_text@ =~= old_text + concat_texts(
                offset_window(ws.take(0), off as int),
            ));
        }
        let mut k: usize = 0;
        while k < m
            invariant
                m == ws.len(),
                k <= m,
                ws == wsegs_view(window@),
                window_ok(ws, len_cs as int),
                0 <= len_cs <= MAX_INFER_WINDOW_SAMPLES,
                off <= MAX_STREAM_SAMPLES,
                shifted == offset_window(ws, off as int),
                self.window_samples == old(self).window_samples,
                self.total_samples == old(self).total_samples,
                self.next_window == old(self).next_window,
                tsegs_view(self.segments@) == old_segs + offset_window(
                    ws.take(k as int),
                    off as int,
                ),
                self.full_text@ == old_text + concat_texts(
                    offset_window(ws.take(k as int), off as int),
                ),
            decreases m - k,
        {
            proof {
                assert(ws[k as int] == window@[k as int]@);
                assert(0 <= ws[k as int].start_cs <= ws[k as int].end_cs <= len_cs as int);
            }
            let seg = TranscriptSegment {
                text: window[k].text.clone(),
                start_ms: (window[k].start_cs + off as i64) * 10,
                end_ms: (window[k].end_cs + off as i64) * 10,
            };
            self.full_text.append(window[k].text.as_str());
            let ghost before = self.segments@;
            self.segments.push(seg);
            proof {
                let prev = offset_window(ws.take(k as int), off as int);
                let cur = offset_window(ws.take(k as int + 1), off as int);
                assert(shifted[k as int].text == ws[k as int].text);
                assert(seg@ == shifted[k as int]);
                assert(cur =~= prev.push(shifted[k as int]));
                assert(self.segments@ == before.push(seg));
                assert(prev.len() == k as int);
                assert(cur.len() == k as int + 1);
                assert(tsegs_view(before).len() == before.len());
                assert(before.len() == old_segs.len() + k as int);
                assert(self.segments@.len() == before.len() + 1);
                assert(tsegs_view(self.segments@).len() == self.segments@.len());
                assert forall|i: int| 0 <= i < self.segments@.len() implies tsegs_view(
                    self.segments@,
                )[i] == (old_segs + cur)[i] by {
                    assert(tsegs_view(self.segments@)[i] == self.segments@[i]@);
                    if i < before.len() {
                        assert(self.segments@[i] == before[i]);
                        assert(tsegs_view(before)[i] == before[i]@);
                        assert(tsegs_view(before) == old_segs + prev);
                        if i < old_segs.len() {
                            assert((old_segs + prev)[i] == old_segs[i]);
                            assert((old_segs + cur)[i] == old_segs[i]);
                        } else {
                            assert((old_segs + prev)[i] == prev[i - old_segs.len()]);
                            assert(cur[i - old_segs.len()] == prev[i - old_segs.len()]);
                        }
                    } else {
                        assert(i == before.len());
                        assert(self.segments@[i] == seg);
                        assert((old_segs + cur)[i] == cur[k as int]);
                        assert(cur[k as int] == shifted[k as int]);
                    }
                }
                assert(tsegs_view(self.segments@) =~= old_segs + cur);
                assert(concat_texts(cur) =~= concat_texts(prev) + shifted[k as int].text) by {
                    assert(cur.drop_last() =~= prev);
                    assert(cur.last() == shifted[k as int]);
                }
                assert(self.full_text@ =~= old_text + concat_texts(cur));
            }
            k = k + 1;
        }
        proof {
            assert(ws.take(m as int) =~= ws);
        }
        self.next_window = self.next_window + 1;
        proof {
            self.lemma_push_window_wf(old(self), ws, off as int, len_cs as int);
            assert(self.spec_text() =~= old_text + concat_texts(shifted));
        }
        true
    }

    proof fn lemma_push_window_wf(
        &self,
        prev: &TranscriptAssembler,
        ws: Seq<WindowSegmentView>,
        off: int,
        len_cs: int,
    )
        requires
            prev.wf(),
            prev.spec_next_window() < spec_num_windows(prev.spec_total(), prev.spec_window()),
            window_ok(ws, len_cs),
            off == prev.spec_next_window() * prev.spec_window() / (SAMPLES_PER_CS as int),
            len_cs == ceil_div(
                (if prev.spec_next_window() * prev.spec_window() + prev.spec_window()
                    <= prev.spec_total() {
                    prev.spec_window()
                } else {
                    prev.spec_total() - prev.spec_next_window() * prev.spec_window()
                }),
                SAMPLES_PER_CS as int,
            ),
            self.spec_window() == prev.spec_window(),
            self.spec_total() == prev.spec_total(),
            self.spec_next_window() == prev.spec_next_window() + 1,
            self.spec_segments() == prev.spec_segments() + offset_window(ws, off),
            self.spec_text() == prev.spec_text() + concat_texts(offset_window(ws, off)),
        ensures
            self.wf(),
    {
        let cs = SAMPLES_PER_CS as int;
        let w = prev.spec_window();
        let n = prev.spec_total();
        let nw = prev.spec_next_window();
        let shifted = offset_window(ws, off);
        prev.lemma_next_window_start_in_range();
        // the window start is a whole number of centiseconds
        let wq = w / cs;
        lemma_fundamental_div_mod(w, cs);
        assert(w == cs * wq);
        assert(nw * w == cs * (nw * wq)) by (nonlinear_arith)
            requires
                w == cs * wq,
        ;
        lemma_fundamental_div_mod_converse_div(nw * w, cs, nw * wq, 0);
        assert(off == nw * wq);
        assert(off * cs == nw * w) by (nonlinear_arith)
            requires
                off == nw * wq && w == cs * wq,
        ;
        // the previous bound sits at the window's start
        assert(prev.processed_cs() == off);
        // shifted segments are chronological and start at or after off * 10
        assert forall|i: int| 0 <= i < shifted.len() implies 0 <= (#[trigger] shifted[i]).start_ms
            <= shifted[i].end_ms && shifted[i].start_ms >= off * 10 && shifted[i].end_ms <= (off
            + len_cs) * 10 by {
            assert(shifted[i].start_ms == (ws[i].start_cs + off) * 10);
            assert(shifted[i].end_ms == (ws[i].end_cs + off) * 10);
            assert(0 <= ws[i].start_cs <= ws[i].end_cs <= len_cs);
        }
        assert(chained(shifted)) by {
            assert forall|i: int| 0 <= i < shifted.len() - 1 implies (#[trigger] shifted[i]).end_ms
                <= shifted[i + 1].start_ms by {
                assert(ws[i].end_cs <= ws[i + 1].start_cs);
            }
        }
        lemma_chained_append(prev.spec_segments(), shifted, off * 10);
        // the new bound covers the new window
        assert(self.processed_cs() == off + len_cs) by {
            if (nw + 1) * w <= n {
                // a full window: len_cs == w / cs and the bound moves one
                // whole window forward
                lemma_ceil_div_bounds(w, cs);
                assert(w + cs - 1 == wq * cs + (cs - 1)) by (nonlinear_arith)
                    requires
                        w == cs * wq,
                ;
                lemma_fundamental_div_mod_converse_div(w + cs - 1, cs, wq, cs - 1);
                assert((nw + 1) * w == nw * w + w) by (nonlinear_arith);
                assert(nw * w + w <= n);
                assert(len_cs == ceil_div(w, cs));
                assert(len_cs == wq);
                assert((nw + 1) * w == nw * w + w) by (nonlinear_arith);
                lemma_hoist_over_denominator(nw * w, wq, SAMPLES_PER_CS as nat);
                assert((nw * w + wq * cs) / cs == off + wq);
                assert(wq * cs == w) by (nonlinear_arith)
                    requires
                        w == cs * wq,
                ;
            } else {
                // the final, possibly partial window: the bound becomes the
                // episode's rounded-up duration
                assert((nw + 1) * w == nw * w + w) by (nonlinear_arith);
                assert(nw * w + w > n);
                assert(len_cs == ceil_div(n - nw * w, cs));
                lemma_hoist_over_denominator(n - nw * w + cs - 1, off, SAMPLES_PER_CS as nat);
                assert((n - nw * w + cs - 1) / cs + off == (n - nw * w + cs - 1 + off * cs) / cs);
                assert(n - nw * w + cs - 1 + off * cs == n + cs - 1);
                assert(self.spec_next_window() * w > n) by (nonlinear_arith)
                    requires
                        self.spec_next_window() == nw + 1 && nw * w + w > n,
                ;
            }
        }
        assert(within(self.spec_segments(), self.processed_cs() * 10)) by {
            assert forall|i: int| 0 <= i < self.spec_segments().len() implies (#[trigger] self
                .spec_segments()[i]).end_ms <= self.processed_cs() * 10 by {
                if i < prev.spec_segments().len() {
                    assert(self.spec_segments()[i] == prev.spec_segments()[i]);
                } else {
                    assert(self.spec_segments()[i] == shifted[i - prev.spec_segments().len()]);
                }
            }
        }
        // the window count still bounds the index
        assert(nw + 1 <= spec_num_windows(n, w));
        // the text stays the concatenation of the segments' texts
        lemma_concat_texts_append(prev.spec_segments(), shifted);
    }

    /// The finished transcript: the accumulated text and the chronological
    /// segment list, every timestamp within the episode's duration (rounded
    /// up to the backend's centisecond granularity). This holds after any
    /// number of windows — also when cancellation stopped the loop early.
    pub fn into_parts(self) -> (r: (String, Vec<TranscriptSegment>))
        requires
            self.wf(),
        ensures
            r.0@ == self.spec_text(),
            tsegs_view(r.1@) == self.spec_segments(),
            chained(tsegs_view(r.1@)),
            within(tsegs_view(r.1@), duration_cs(self.spec_total()) * 10),
            r.0@ == concat_texts(tsegs_view(r.1@)),
    {
        proof {
            // the bound reached so far never exceeds the full duration
            let w = self.spec_window();
            let n = self.spec_total();
            let nw = self.spec_next_window();
            let cs = SAMPLES_PER_CS as int;
            if nw * w <= n {
                lemma_div_pos_is_pos(nw * w, cs);
                vstd::arithmetic::div_mod::lemma_div_is_ordered(nw * w, n + cs - 1, cs);
                assert(nw * w >= 0) by (nonlinear_arith)
                    requires
                        nw >= 0 && w > 0,
                ;
            }
        }
        (self.full_text, self.segments)
    }
}

} // verus!
