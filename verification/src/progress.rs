//! Progress percentages.
//!
//! A stage that downloads and then infers shares one 0–100 range: the
//! download half reports 0–50 from the byte counters, and the inference half
//! reports 50–100 from completed windows.

use vstd::prelude::*;

verus! {

/// Download progress mapped into the first half of the range: with a known
/// total, bytes·50/total (clamped into `i32`); with an unknown total (zero),
/// the midpoint 25 of the half.
pub open spec fn spec_download_percent(downloaded: int, total: int) -> int {
    if total == 0 {
        25
    } else if downloaded * 50 / total > i32::MAX as int {
        i32::MAX as int
    } else {
        downloaded * 50 / total
    }
}

/// Inference progress mapped into the second half of the range.
pub open spec fn spec_inference_percent(windows_done: int, windows_total: int) -> int {
    50 + windows_done * 50 / windows_total
}

/// Computes [`spec_download_percent`].
pub fn download_percent(downloaded: u64, total: u64) -> (p: i32)
    requires
        downloaded <= u64::MAX as int / 50,
    ensures
        p == spec_download_percent(downloaded as int, total as int),
        total > 0 && downloaded <= total ==> 0 <= p <= 50,
{
    if total == 0 {
        25
    } else {
        let q: u64 = downloaded * 50 / total;
        proof {
            if downloaded <= total {
                vstd::arithmetic::div_mod::lemma_div_is_ordered(
                    downloaded as int * 50,
                    total as int * 50,
                    total as int,
                );
                vstd::arithmetic::div_mod::lemma_div_multiples_vanish(50, total as int);
            }
        }
        if q > i32::MAX as u64 {
            i32::MAX
        } else {
            q as i32
        }
    }
}

/// Computes [`spec_inference_percent`]; the result lies between 50 and 100.
pub fn inference_percent(windows_done: usize, windows_total: usize) -> (p: i32)
    requires
        0 < windows_total,
        windows_done <= windows_total,
        windows_total <= usize::MAX as int / 50,
    ensures
        p == spec_inference_percent(windows_done as int, windows_total as int),
        50 <= p <= 100,
{
    let q: usize = windows_done * 50 / windows_total;
    proof {
        vstd::arithmetic::div_mod::lemma_div_is_ordered(
            windows_done as int * 50,
            windows_total as int * 50,
            windows_total as int,
        );
        vstd::arithmetic::div_mod::lemma_div_multiples_vanish(50, windows_total as int);
        vstd::arithmetic::div_mod::lemma_div_pos_is_pos(
            windows_done as int * 50,
            windows_total as int,
        );
    }
    50 + (q as i32)
}

} // verus!
