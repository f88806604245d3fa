//! The spectral reduction: one block of audio becomes one integer magnitude.
//!
//! The host runs the Fourier transform over the float samples of a block and
//! takes the integer floor of each bin's amplitude (the square root of the
//! squared complex norm).  Everything after that point is decided here: the
//! restriction to the human-audible band, the per-bin offset, the maximum and
//! the clamp to the configured ceiling.

use vstd::prelude::*;

verus! {

/// Lowest frequency (Hz) of the retained band.
pub const BAND_LOW_HZ: usize = 20;

/// Highest frequency (Hz) of the retained band.
pub const BAND_HIGH_HZ: usize = 20000;

/// The largest of `bins[i] + 1` for `i` in `[start, end)` (clipped to the
/// available bins), or `0` when the range retains nothing.
pub open spec fn spec_peak(bins: Seq<i32>, start: int, end: int) -> int
    decreases end - start,
{
    if start < end && start < bins.len() {
        let rest = spec_peak(bins, start + 1, end);
        if bins[start] + 1 > rest {
            bins[start] + 1
        } else {
            rest
        }
    } else {
        0
    }
}

/// The reported magnitude of a block: the peak of the retained band, clamped
/// to the configured ceiling.
pub open spec fn spec_block_magnitude(bins: Seq<i32>, start: int, end: int, max_magnitude: int) -> int {
    if spec_peak(bins, start, end) <= max_magnitude {
        spec_peak(bins, start, end)
    } else {
        max_magnitude
    }
}

/// The peak is never negative, whatever the bins hold.
pub proof fn lemma_peak_nonneg(bins: Seq<i32>, start: int, end: int)
    ensures
        spec_peak(bins, start, end) >= 0,
    decreases end - start,
{
    if start < end && start < bins.len() {
        lemma_peak_nonneg(bins, start + 1, end);
    }
}

/// The bin range corresponding to the audible band: `bin = freq * block_len /
/// sample_rate` for each end of the band.
pub fn bin_range(block_len: usize, sample_rate: u32) -> (r: (usize, usize))
    requires
        sample_rate > 0,
        block_len * BAND_HIGH_HZ <= usize::MAX,
    ensures
        r.0 == block_len * BAND_LOW_HZ / sample_rate as int,
        r.1 == block_len * BAND_HIGH_HZ / sample_rate as int,
{
    proof {
        vstd::arithmetic::mul::lemma_mul_upper_bound(
            block_len as int,
            block_len as int,
            BAND_LOW_HZ as int,
            BAND_HIGH_HZ as int,
        );
        vstd::arithmetic::mul::lemma_mul_nonnegative(block_len as int, BAND_LOW_HZ as int);
    }
    (block_len * BAND_LOW_HZ / (sample_rate as usize), block_len * BAND_HIGH_HZ / (
    sample_rate as usize))
}

/// The magnitude of one block: the largest `bin + 1` among the bins of
/// `[start, end)`, `0` when that range retains no bin, clamped to
/// `max_magnitude`.
pub fn block_magnitude(bins: &Vec<i32>, start: usize, end: usize, max_magnitude: i32) -> (r: i32)
    requires
        forall|i: int| 0 <= i < bins@.len() ==> 0 <= #[trigger] bins@[i] < i32::MAX,
        0 <= max_magnitude,
    ensures
        r == spec_block_magnitude(bins@, start as int, end as int, max_magnitude as int),
        0 <= r <= max_magnitude,
{
    let stop = if end <= bins.len() {
        end
    } else {
        bins.len()
    };
    let mut peak: i32 = 0;
    let mut i: usize = start;
    if i < stop {
        proof {
            lemma_peak_nonneg(bins@, start as int, end as int);
        }
        while i < stop
            invariant
                start <= i <= stop,
                stop == if end <= bins@.len() {
                    end as int
                } else {
                    bins@.len() as int
                },
                forall|k: int| 0 <= k < bins@.len() ==> 0 <= #[trigger] bins@[k] < i32::MAX,
                0 <= peak <= i32::MAX,
                spec_peak(bins@, start as int, end as int) == if peak > spec_peak(
                    bins@,
                    i as int,
                    end as int,
                ) {
                    peak as int
                } else {
                    spec_peak(bins@, i as int, end as int)
                },
            decreases stop - i,
        {
            let v = bins[i] + 1;
            if v > peak {
                peak = v;
            }
            i = i + 1;
        }
        proof {
            assert(spec_peak(bins@, i as int, end as int) == 0);
        }
    }
    proof {
        lemma_peak_nonneg(bins@, start as int, end as int);
        if start >= stop {
            assert(spec_peak(bins@, start as int, end as int) == 0);
        }
    }
    if peak <= max_magnitude {
        peak
    } else {
        max_magnitude
    }
}

} // verus!
