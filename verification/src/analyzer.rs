//! The shape of a magnitude spectrum: how wide a frequency bin is, how many bins
//! lie below the highest audible frequency, and the snapshot type that carries them.

use vstd::prelude::*;

verus! {

/// Number of samples in one analysis window, and of slots in the smoothing state.
pub const WINDOW_SIZE: usize = 4096;

/// Highest frequency, in hertz, that a spectrum snapshot covers.
pub const MAX_FREQUENCY: u64 = 20_000;

/// A magnitude spectrum. `values[i]` is the magnitude of bin `i` rounded to a whole
/// amplitude unit, or `None` where the transform produced no number. `bin_size` is the
/// width of a bin in millihertz.
#[derive(Clone, Debug)]
pub struct FftSpectrum {
    pub values: Vec<Option<u32>>,
    pub bin_size: u32,
}

/// Width of one frequency bin in millihertz at `sample_rate`, rounded down:
/// twice the sample rate divided by the window size.
pub open spec fn spec_bin_size(sample_rate: u32) -> int {
    sample_rate * 2000 / (WINDOW_SIZE as int)
}

/// Number of bins needed to reach `MAX_FREQUENCY`: `MAX_FREQUENCY` divided by the
/// exact bin width `2 * sample_rate / WINDOW_SIZE`, rounded up.
pub open spec fn spec_output_len(sample_rate: u32) -> int {
    (MAX_FREQUENCY * WINDOW_SIZE + 2 * sample_rate - 1) / (2 * sample_rate)
}

/// `n` bins of the exact width `2 * sample_rate / WINDOW_SIZE` reach
/// `MAX_FREQUENCY`, and `n - 1` do not.
pub open spec fn reaches_audible_range(sample_rate: u32, n: int) -> bool {
    &&& n * (2 * sample_rate) >= MAX_FREQUENCY * WINDOW_SIZE
    &&& (n - 1) * (2 * sample_rate) < MAX_FREQUENCY * WINDOW_SIZE
}

/// Number of magnitudes in a snapshot at `sample_rate`: the bins below the highest
/// audible frequency, and never more than the transform gives.
pub open spec fn spec_snapshot_len(sample_rate: u32) -> int {
    if spec_output_len(sample_rate) < WINDOW_SIZE {
        spec_output_len(sample_rate)
    } else {
        WINDOW_SIZE as int
    }
}

/// The first `len` entries of `values`, or all of them where there are fewer.
pub open spec fn truncated<T>(values: Seq<T>, len: int) -> Seq<T> {
    if len <= 0 {
        Seq::empty()
    } else if len < values.len() {
        values.subrange(0, len)
    } else {
        values
    }
}

impl FftSpectrum {
    /// The spectrum held while nothing is loaded: a full window of zero magnitudes
    /// with a zero bin width.
    pub fn empty() -> (spectrum: FftSpectrum)
        ensures
            spectrum.values@ == Seq::new(WINDOW_SIZE as nat, |i: int| Some(0u32)),
            spectrum.bin_size == 0,
    {
        FftSpectrum::silent(WINDOW_SIZE, 0)
    }

    /// A spectrum of `len` zero magnitudes with the given bin width.
    pub fn silent(len: usize, bin_size: u32) -> (spectrum: FftSpectrum)
        ensures
            spectrum.values@ == Seq::new(len as nat, |i: int| Some(0u32)),
            spectrum.bin_size == bin_size,
    {
        let mut values: Vec<Option<u32>> = Vec::new();
        let mut i: usize = 0;
        while i < len
            invariant
                i <= len,
                values@ == Seq::new(i as nat, |k: int| Some(0u32)),
            decreases len - i,
        {
            values.push(Some(0u32));
            i = i + 1;
        }
        FftSpectrum { values, bin_size }
    }
}

/// Width of one frequency bin in millihertz.
pub fn bin_size(sample_rate: u32) -> (width: u32)
    ensures
        width == spec_bin_size(sample_rate),
{
    let doubled: u64 = (sample_rate as u64) * 2000;
    (doubled / (WINDOW_SIZE as u64)) as u32
}

/// Number of bins below the highest audible frequency. It depends on the sample
/// rate alone, and is the least `n` whose `n` exact bin widths reach `MAX_FREQUENCY`.
pub fn output_len(sample_rate: u32) -> (len: usize)
    requires
        sample_rate > 0,
    ensures
        len == spec_output_len(sample_rate),
        reaches_audible_range(sample_rate, len as int),
        0 < len <= MAX_FREQUENCY * WINDOW_SIZE,
{
    let span: u64 = MAX_FREQUENCY * (WINDOW_SIZE as u64);
    let step: u64 = 2 * (sample_rate as u64);
    let len: u64 = (span + step - 1) / step;
    proof {
        lemma_output_len_is_least(sample_rate);
    }
    len as usize
}

/// The number of bins below the highest audible frequency is the least number of
/// exact bin widths that reach it.
pub proof fn lemma_output_len_is_least(sample_rate: u32)
    requires
        sample_rate > 0,
    ensures
        reaches_audible_range(sample_rate, spec_output_len(sample_rate)),
        0 < spec_output_len(sample_rate) <= MAX_FREQUENCY * WINDOW_SIZE,
{
    let s = MAX_FREQUENCY * WINDOW_SIZE;
    let d = 2 * sample_rate;
    let q = (s + d - 1) / d;
    assert(q * d >= s && (q - 1) * d < s && 0 < q <= s) by (nonlinear_arith)
        requires
            q == (s + d - 1) / d,
            d >= 2,
            s == 81_920_000,
    ;
}

/// Number of magnitudes in a snapshot at `sample_rate`. It depends on the sample
/// rate and the window size alone.
pub fn snapshot_len(sample_rate: u32) -> (len: usize)
    requires
        sample_rate > 0,
    ensures
        len == spec_snapshot_len(sample_rate),
        0 < len <= WINDOW_SIZE,
        len < WINDOW_SIZE ==> reaches_audible_range(sample_rate, len as int),
{
    let bins = output_len(sample_rate);
    if bins < WINDOW_SIZE {
        bins
    } else {
        WINDOW_SIZE
    }
}

/// Keeps the first `len` magnitudes of a transform's output.
pub fn truncate_spectrum(magnitudes: Vec<Option<u32>>, len: usize) -> (kept: Vec<Option<u32>>)
    ensures
        kept@ == truncated(magnitudes@, len as int),
        kept@.len() == if len < magnitudes@.len() { len as int } else { magnitudes@.len() as int },
{
    let mut kept = magnitudes;
    kept.truncate(len);
    kept
}

} // verus!
