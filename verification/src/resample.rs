//! Resampling of an irregularly-timestamped series into fixed-width bins.
//!
//! Timestamps and sample values are plain integers: a timestamp counts
//! elapsed time units since some epoch the caller chose, and a sample value
//! is a fixed-point measurement at whatever scale the caller uses.

use vstd::prelude::*;

verus! {

/// A timestamp `t` falls in the half-open bin `(lo, hi]`: the lower
/// boundary is excluded, the upper boundary is included.
pub open spec fn in_bin(t: u64, lo: int, hi: int) -> bool {
    lo < t <= hi
}

/// The maximum of the first `n` samples whose timestamps fall in `(lo, hi]`,
/// or `None` if no such sample exists among the first `n`.
pub open spec fn bin_max_upto(
    samples: Seq<u64>,
    times: Seq<u64>,
    lo: int,
    hi: int,
    n: int,
) -> Option<u64>
    decreases n,
{
    if n <= 0 {
        None
    } else {
        let prev = bin_max_upto(samples, times, lo, hi, n - 1);
        if in_bin(times[n - 1], lo, hi) {
            match prev {
                None => Some(samples[n - 1]),
                Some(m) => Some(if samples[n - 1] > m {
                    samples[n - 1]
                } else {
                    m
                }),
            }
        } else {
            prev
        }
    }
}

/// The maximum sample value whose timestamp falls in `(lo, hi]`, or `None`
/// if the bin is empty.
pub open spec fn bin_max(samples: Seq<u64>, times: Seq<u64>, lo: int, hi: int) -> Option<u64> {
    bin_max_upto(samples, times, lo, hi, times.len() as int)
}

/// The width of the whole window; an inverted window counts as empty.
pub open spec fn window_width(start: u64, end: u64) -> int {
    if end >= start {
        end - start
    } else {
        0
    }
}

/// The width of one bin when the window is cut into `num_bins` equal parts
/// (rounded down).
pub open spec fn bin_width(start: u64, end: u64, num_bins: usize) -> int
    recommends
        num_bins > 0,
{
    window_width(start, end) / (num_bins as int)
}

/// The lower boundary of bin `i`; bin `i` covers
/// `(bin_lo(.., i), bin_lo(.., i + 1)]`.
pub open spec fn bin_lo(start: u64, end: u64, num_bins: usize, i: int) -> int {
    start + bin_width(start, end, num_bins) * i
}

/// `bin_max` really is the maximum: when it returns `Some(m)`, `m` is one of
/// the in-bin samples and no in-bin sample exceeds it; it returns `None`
/// exactly when no timestamp falls in `(lo, hi]`.
pub proof fn lemma_bin_max_is_max(samples: Seq<u64>, times: Seq<u64>, lo: int, hi: int)
    requires
        samples.len() == times.len(),
    ensures
        bin_max(samples, times, lo, hi) is None <==> (forall|j: int|
            0 <= j < times.len() ==> !in_bin(times[j], lo, hi)),
        forall|m: u64|
            bin_max(samples, times, lo, hi) == Some(m) ==> (exists|j: int|
                0 <= j < times.len() && in_bin(times[j], lo, hi) && samples[j] == m),
        forall|m: u64, j: int|
            bin_max(samples, times, lo, hi) == Some(m) && 0 <= j < times.len() && in_bin(
                times[j],
                lo,
                hi,
            ) ==> samples[j] <= m,
{
    lemma_bin_max_upto_is_max(samples, times, lo, hi, times.len() as int);
}

proof fn lemma_bin_max_upto_is_max(samples: Seq<u64>, times: Seq<u64>, lo: int, hi: int, n: int)
    requires
        samples.len() == times.len(),
        n <= times.len(),
    ensures
        bin_max_upto(samples, times, lo, hi, n) is None <==> (forall|j: int|
            0 <= j < n ==> !in_bin(times[j], lo, hi)),
        forall|m: u64|
            bin_max_upto(samples, times, lo, hi, n) == Some(m) ==> (exists|j: int|
                0 <= j < n && in_bin(times[j], lo, hi) && samples[j] == m),
        forall|m: u64, j: int|
            bin_max_upto(samples, times, lo, hi, n) == Some(m) && 0 <= j < n && in_bin(
                times[j],
                lo,
                hi,
            ) ==> samples[j] <= m,
    decreases n,
{
    if n > 0 {
        lemma_bin_max_upto_is_max(samples, times, lo, hi, n - 1);
    }
}

/// A timestamp exactly at a bin's lower boundary is excluded from that bin;
/// one exactly at the upper boundary is included (whenever the bin is not
/// degenerate).
pub proof fn lemma_bin_boundaries(lo: u64, hi: u64)
    ensures
        !in_bin(lo, lo as int, hi as int),
        lo < hi ==> in_bin(hi, lo as int, hi as int),
{
}

/// Resample a series of samples taken at irregular time intervals into a
/// fixed number of bins, taking the maximum value in each bin.
///
/// The window `[start, end)` is cut into `num_bins` equal-width bins; bin
/// `i` collects the samples whose timestamp lies in `(bin_lo(i), bin_lo(i+1)]`
/// and yields their maximum, or `None` when the bin holds no sample. Empty
/// input or a zero bin count yields an empty result.
pub fn resample(
    samples: &Vec<u64>,
    time_samples: &Vec<u64>,
    start: u64,
    end: u64,
    num_bins: usize,
) -> (r: Vec<Option<u64>>)
    requires
        samples@.len() == time_samples@.len() || samples@.len() == 0 || time_samples@.len() == 0,
    ensures
        samples@.len() == 0 || time_samples@.len() == 0 || num_bins == 0 ==> r@.len() == 0,
        samples@.len() > 0 && time_samples@.len() > 0 && num_bins > 0 ==> r@.len() == num_bins,
        samples@.len() > 0 && time_samples@.len() > 0 && num_bins > 0 ==> forall|i: int|
            0 <= i < num_bins ==> r@[i] == bin_max(
                samples@,
                time_samples@,
                bin_lo(start, end, num_bins, i),
                bin_lo(start, end, num_bins, i + 1),
            ),
{
    if samples.len() == 0 || time_samples.len() == 0 || num_bins == 0 {
        return Vec::new();
    }
    let total: u64 = end.saturating_sub(start);
    let width: u64 = total / (num_bins as u64);
    proof {
        assert(width == bin_width(start, end, num_bins));
        vstd::arithmetic::div_mod::lemma_fundamental_div_mod(total as int, num_bins as int);
        vstd::arithmetic::div_mod::lemma_mod_bound(total as int, num_bins as int);
        assert((num_bins as int) * (width as int) <= total as int);
        vstd::arithmetic::mul::lemma_mul_is_commutative(num_bins as int, width as int);
    }
    let mut result: Vec<Option<u64>> = Vec::new();
    let mut i: usize = 0;
    while i < num_bins
        invariant
            0 < num_bins,
            samples@.len() == time_samples@.len(),
            samples@.len() > 0,
            i <= num_bins,
            total == window_width(start, end),
            width == bin_width(start, end, num_bins),
            (width as int) * (num_bins as int) <= total as int,
            start + total <= u64::MAX,
            result@.len() == i,
            forall|k: int|
                0 <= k < i ==> result@[k] == bin_max(
                    samples@,
                    time_samples@,
                    bin_lo(start, end, num_bins, k),
                    bin_lo(start, end, num_bins, k + 1),
                ),
        decreases num_bins - i,
    {
        proof {
            let w = width as int;
            let n = num_bins as int;
            let ii = i as int;
            vstd::arithmetic::mul::lemma_mul_inequality(ii + 1, n, w);
            vstd::arithmetic::mul::lemma_mul_is_commutative(ii + 1, w);
            vstd::arithmetic::mul::lemma_mul_is_commutative(n, w);
            vstd::arithmetic::mul::lemma_mul_is_distributive_add(w, ii, 1);
            vstd::arithmetic::mul::lemma_mul_nonnegative(w, ii);
            assert(w * ii + w <= total as int);
        }
        let bin_start: u64 = start + width * (i as u64);
        let bin_end: u64 = bin_start + width;
        assert(bin_start == bin_lo(start, end, num_bins, i as int));
        assert(bin_end == bin_lo(start, end, num_bins, i as int + 1));

        let mut max_value: Option<u64> = None;
        let mut j: usize = 0;
        while j < time_samples.len()
            invariant
                samples@.len() == time_samples@.len(),
                j <= time_samples@.len(),
                max_value == bin_max_upto(
                    samples@,
                    time_samples@,
                    bin_start as int,
                    bin_end as int,
                    j as int,
                ),
            decreases time_samples@.len() - j,
        {
            let t = time_samples[j];
            if t > bin_start && t <= bin_end {
                let sample_value = samples[j];
                max_value = match max_value {
                    Some(current_max) => Some(
                        if sample_value > current_max {
                            sample_value
                        } else {
                            current_max
                        },
                    ),
                    None => Some(sample_value),
                };
            }
            j += 1;
        }
        result.push(max_value);
        i += 1;
    }
    result
}

} // verus!
