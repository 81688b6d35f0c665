//! Diarization post-processing: speaker labels and solo detection.
//!
//! The clustering backend hands back raw segments as plain values — start
//! and end in milliseconds and a zero-based speaker index. This module
//! formats the deterministic speaker labels and classifies an episode as
//! "solo" (one effective speaker).

use vstd::prelude::*;
use vstd::string::StrSliceExecFns;
use vstd::string::StringExecFns;
use crate::text::{dec_rep, str_eq, u64_to_dec};

verus! {

/// One labeled speech segment of an episode, in milliseconds.
#[derive(Debug)]
pub struct DiarizationSegment {
    pub start_ms: i64,
    pub end_ms: i64,
    pub speaker_label: String,
}

/// Mathematical image of a segment.
pub struct SegmentView {
    pub start_ms: int,
    pub end_ms: int,
    pub speaker_label: Seq<char>,
}

impl View for DiarizationSegment {
    type V = SegmentView;

    open spec fn view(&self) -> SegmentView {
        SegmentView {
            start_ms: self.start_ms as int,
            end_ms: self.end_ms as int,
            speaker_label: self.speaker_label@,
        }
    }
}

impl DiarizationSegment {
    /// A sane segment: within bounds that keep every duration sum of
    /// [`is_solo`] inside `i64`.
    pub open spec fn wf(self) -> bool {
        0 <= self.start_ms <= self.end_ms <= MAX_SEGMENT_MS
    }

    /// An equal copy (the derived clone says nothing to the verifier).
    pub fn duplicate(&self) -> (r: DiarizationSegment)
        ensures
            r@ == self@,
    {
        DiarizationSegment {
            start_ms: self.start_ms,
            end_ms: self.end_ms,
            speaker_label: self.speaker_label.clone(),
        }
    }
}

/// Largest accepted segment end, in milliseconds (about 34 years of audio).
pub const MAX_SEGMENT_MS: i64 = 0x100_0000_0000;

/// Largest accepted number of segments of one episode.
pub const MAX_SEGMENTS: usize = 0x8000;

/// The views of a vector of segments.
pub open spec fn segs_view(s: Seq<DiarizationSegment>) -> Seq<SegmentView> {
    s.map_values(|x: DiarizationSegment| x@)
}

/// The label deterministically given to the speaker with a zero-based index.
pub open spec fn spec_speaker_label(index: nat) -> Seq<char> {
    "SPEAKER_"@ + dec_rep(index)
}

/// Formats the label of the speaker with a zero-based cluster index.
pub fn speaker_label(index: u32) -> (r: String)
    ensures
        r@ == spec_speaker_label(index as nat),
{
    let mut s = ("SPEAKER_").to_owned();
    let digits = u64_to_dec(index as u64);
    s.append(digits.as_str());
    s
}

/// Maps an external one-letter speaker name onto the deterministic label:
/// the distance of its first character's low byte from `'A'` (floored at
/// zero) is the speaker index, and an empty name maps to index 0.
pub open spec fn spec_speaker_index_of(name: Seq<char>) -> nat {
    if name.len() == 0 {
        0
    } else {
        let b = (name[0] as u32) % 256;
        if b >= 65 {
            (b - 65) as nat
        } else {
            0
        }
    }
}

/// Maps a speaker letter of an external transcription service to the
/// `SPEAKER_`-style label: `"A"` becomes `SPEAKER_0`, `"B"` `SPEAKER_1`,
/// and so on.
pub fn map_speaker_label(speaker: &str) -> (r: String)
    ensures
        r@ == spec_speaker_label(spec_speaker_index_of(speaker@)),
{
    let n = speaker.unicode_len();
    let index: u32 = if n == 0 {
        0
    } else {
        let c = speaker.get_char(0);
        let b = (c as u32) % 256;
        if b >= 65 {
            b - 65
        } else {
            0
        }
    };
    speaker_label(index)
}

/// Duration of one segment.
pub open spec fn seg_dur(s: SegmentView) -> int {
    s.end_ms - s.start_ms
}

/// Total duration of a list of segments.
pub open spec fn total_dur(s: Seq<SegmentView>) -> int
    decreases s.len(),
{
    if s.len() == 0 {
        0
    } else {
        total_dur(s.drop_last()) + seg_dur(s.last())
    }
}

/// Total duration of the segments that carry the given speaker label.
pub open spec fn label_dur(s: Seq<SegmentView>, label: Seq<char>) -> int
    decreases s.len(),
{
    if s.len() == 0 {
        0
    } else {
        label_dur(s.drop_last(), label) + if s.last().speaker_label == label {
            seg_dur(s.last())
        } else {
            0
        }
    }
}

/// At most one distinct speaker label occurs.
pub open spec fn all_same_speaker(s: Seq<SegmentView>) -> bool {
    forall|i: int, j: int|
        0 <= i < s.len() && 0 <= j < s.len() ==> s[i].speaker_label == s[j].speaker_label
}

/// The solo heuristic: an episode has one effective speaker if at most one
/// distinct label occurs, or if some speaker's share of the total segmented
/// duration is under 5% — the least-speaking label is then taken for
/// transcription noise misread as a second speaker.
pub open spec fn spec_is_solo(s: Seq<SegmentView>) -> bool {
    all_same_speaker(s) || (total_dur(s) > 0 && exists|i: int|
        0 <= i < s.len() && #[trigger] label_dur(s, s[i].speaker_label) * 100 < 5 * total_dur(s))
}

proof fn lemma_total_dur_take_step(s: Seq<SegmentView>, i: int)
    requires
        0 <= i < s.len(),
    ensures
        total_dur(s.take(i + 1)) == total_dur(s.take(i)) + seg_dur(s[i]),
{
    assert(s.take(i + 1).drop_last() =~= s.take(i));
    assert(s.take(i + 1).last() == s[i]);
}

proof fn lemma_label_dur_take_step(s: Seq<SegmentView>, label: Seq<char>, i: int)
    requires
        0 <= i < s.len(),
    ensures
        label_dur(s.take(i + 1), label) == label_dur(s.take(i), label) + if s[i].speaker_label
            == label {
            seg_dur(s[i])
        } else {
            0
        },
{
    assert(s.take(i + 1).drop_last() =~= s.take(i));
    assert(s.take(i + 1).last() == s[i]);
}

proof fn lemma_total_dur_bounds(s: Seq<SegmentView>)
    requires
        forall|i: int| 0 <= i < s.len() ==> 0 <= #[trigger] seg_dur(s[i]) <= MAX_SEGMENT_MS,
    ensures
        0 <= total_dur(s) <= s.len() * MAX_SEGMENT_MS,
    decreases s.len(),
{
    if s.len() > 0 {
        lemma_total_dur_bounds(s.drop_last());
        assert(total_dur(s) <= (s.len() - 1) * MAX_SEGMENT_MS + MAX_SEGMENT_MS) by {
            assert(seg_dur(s.last()) <= MAX_SEGMENT_MS);
        }
        assert((s.len() - 1) * MAX_SEGMENT_MS + MAX_SEGMENT_MS == s.len() * MAX_SEGMENT_MS) by (
        nonlinear_arith);
    }
}

proof fn lemma_label_dur_le_total(s: Seq<SegmentView>, label: Seq<char>)
    requires
        forall|i: int| 0 <= i < s.len() ==> 0 <= #[trigger] seg_dur(s[i]),
    ensures
        0 <= label_dur(s, label) <= total_dur(s),
    decreases s.len(),
{
    if s.len() > 0 {
        lemma_label_dur_le_total(s.drop_last(), label);
    }
}

/// Classifies an episode as solo. Exactly the [`spec_is_solo`] heuristic:
/// `true` when at most one distinct label occurs, or when the least-speaking
/// label's duration is under 5% of the total.
pub fn is_solo(segments: &Vec<DiarizationSegment>) -> (r: bool)
    requires
        forall|i: int| 0 <= i < segments@.len() ==> (#[trigger] segments@[i]).wf(),
        segments@.len() <= MAX_SEGMENTS,
    ensures
        r == spec_is_solo(segs_view(segments@)),
{
    let ghost s = segs_view(segments@);
    let n = segments.len();
    proof {
        assert(forall|i: int| 0 <= i < s.len() ==> 0 <= #[trigger] seg_dur(s[i]) <= MAX_SEGMENT_MS);
    }

    // At most one distinct label?
    let mut same = true;
    let mut i: usize = 1;
    while i < n
        invariant
            1 <= i <= n || n == 0,
            n == s.len(),
            n <= MAX_SEGMENTS,
            s == segs_view(segments@),
            same == forall|j: int|
                0 <= j < i && j < n ==> (#[trigger] s[j]).speaker_label == s[0].speaker_label,
        decreases n - i,
    {
        let eq = str_eq(segments[i].speaker_label.as_str(), segments[0].speaker_label.as_str());
        proof {
            assert(s[i as int] == segments@[i as int]@);
            assert(s[0] == segments@[0]@);
        }
        same = same && eq;
        i = i + 1;
    }
    proof {
        if same {
            assert(all_same_speaker(s)) by {
                assert(forall|a: int, b: int|
                    0 <= a < s.len() && 0 <= b < s.len() ==> s[a].speaker_label
                        == s[b].speaker_label) by {
                    if n > 0 {
                        assert(forall|a: int|
                            0 <= a < s.len() ==> (#[trigger] s[a]).speaker_label
                                == s[0].speaker_label);
                    }
                }
            }
        } else {
            assert(!all_same_speaker(s));
        }
    }
    if same {
        return true;
    }

    // Total segmented duration.
    let mut total: i64 = 0;
    let mut i: usize = 0;
    while i < n
        invariant
            0 <= i <= n,
            n == s.len(),
            n <= MAX_SEGMENTS,
            s == segs_view(segments@),
            forall|k: int| 0 <= k < s.len() ==> 0 <= #[trigger] seg_dur(s[k]) <= MAX_SEGMENT_MS,
            total == total_dur(s.take(i as int)),
            0 <= total <= i * MAX_SEGMENT_MS,
        decreases n - i,
    {
        proof {
            lemma_total_dur_take_step(s, i as int);
            assert((i + 1) * MAX_SEGMENT_MS == i * MAX_SEGMENT_MS + MAX_SEGMENT_MS) by (
            nonlinear_arith);
            assert(i * MAX_SEGMENT_MS <= MAX_SEGMENTS * MAX_SEGMENT_MS) by (nonlinear_arith)
                requires
                    0 <= i as int <= MAX_SEGMENTS as int,
            ;
        }
        total = total + (segments[i].end_ms - segments[i].start_ms);
        i = i + 1;
    }
    proof {
        assert(s.take(n as int) =~= s);
        lemma_total_dur_bounds(s);
        assert(s.len() * MAX_SEGMENT_MS <= MAX_SEGMENTS * MAX_SEGMENT_MS) by (nonlinear_arith)
            requires
                0 <= s.len() <= MAX_SEGMENTS as int,
        ;
    }

    if total == 0 {
        return false;
    }

    // Is any label's share of the total under 5%?
    let mut found = false;
    let mut i: usize = 0;
    while i < n
        invariant
            0 <= i <= n,
            n == s.len(),
            n <= MAX_SEGMENTS,
            s == segs_view(segments@),
            forall|k: int| 0 <= k < s.len() ==> (#[trigger] segments@[k]).wf(),
            forall|k: int| 0 <= k < s.len() ==> 0 <= #[trigger] seg_dur(s[k]) <= MAX_SEGMENT_MS,
            total == total_dur(s),
            0 < total <= MAX_SEGMENTS * MAX_SEGMENT_MS,
            found == exists|k: int|
                0 <= k < i && #[trigger] label_dur(s, s[k].speaker_label) * 100 < 5 * total,
        decreases n - i,
    {
        let ghost label = s[i as int].speaker_label;
        let mut lt: i64 = 0;
        let mut j: usize = 0;
        while j < n
            invariant
                0 <= j <= n,
                n == s.len(),
                n <= MAX_SEGMENTS,
                s == segs_view(segments@),
                i < n,
                label == s[i as int].speaker_label,
                forall|k: int| 0 <= k < s.len() ==> 0 <= #[trigger] seg_dur(s[k]) <= MAX_SEGMENT_MS,
                lt == label_dur(s.take(j as int), label),
                0 <= lt <= j * MAX_SEGMENT_MS,
            decreases n - j,
        {
            proof {
                lemma_label_dur_take_step(s, label, j as int);
                assert((j + 1) * MAX_SEGMENT_MS == j * MAX_SEGMENT_MS + MAX_SEGMENT_MS) by (
                nonlinear_arith);
                assert(j * MAX_SEGMENT_MS <= MAX_SEGMENTS * MAX_SEGMENT_MS) by (nonlinear_arith)
                    requires
                        0 <= j as int <= MAX_SEGMENTS as int,
                ;
            }
            if str_eq(segments[j].speaker_label.as_str(), segments[i].speaker_label.as_str()) {
                lt = lt + (segments[j].end_ms - segments[j].start_ms);
            }
            j = j + 1;
        }
        proof {
            assert(s.take(n as int) =~= s);
            lemma_label_dur_le_total(s, label);
        }
        if lt * 100 < 5 * total {
            found = true;
        }
        i = i + 1;
    }
    found
}

} // verus!
