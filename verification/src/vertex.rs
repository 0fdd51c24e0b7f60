//! Frequency vertices and the per-bin steps that prepare them for smoothing:
//! construction from a spectrum, logarithmic scaling and normalisation.

use vstd::prelude::*;
use crate::analyzer::FftSpectrum;
use crate::fixed::{floor_div, floor_sqrt, is_floor_sqrt, isqrt, lemma_square_monotone, SCALE};

verus! {

/// Volume, after logarithmic scaling, that is drawn at full height: seven and a
/// half, in millionths.
pub const VOLUME_CEILING: i64 = 7_500_000;

/// Largest scaled position that normalisation accepts: the scaled form of the
/// largest 32-bit bin index.
pub const POSITION_LIMIT: u64 = 65_536_000_000;

/// One point of the spectrum curve. `frequency` is in millihertz. `volume` is `None`
/// where the value is not a number. The unit of `volume` and `position` depends on
/// the step: whole units when built, millionths once scaled.
#[derive(Clone, Copy, Debug)]
pub struct FrequencyVertex {
    pub frequency: u64,
    pub volume: Option<i64>,
    pub position: u64,
}

/// The vertex that stands for silence at the origin.
pub open spec fn empty_vertex() -> FrequencyVertex {
    FrequencyVertex { frequency: 0, volume: Some(0i64), position: 0 }
}

/// The vertex of bin `i`: its index as position, its magnitude as volume, and the
/// upper edge of the bin as frequency.
pub open spec fn raw_vertex(i: int, magnitude: Option<u32>, bin_size: u32) -> FrequencyVertex {
    FrequencyVertex {
        frequency: ((i + 1) * bin_size) as u64,
        volume: match magnitude {
            Some(m) => Some(m as i64),
            None => None,
        },
        position: i as u64,
    }
}

/// The volume of a vertex after logarithmic scaling: the logarithm handed in for it,
/// or none where the vertex has no volume.
pub open spec fn scaled_volume(volume: Option<i64>, log_volume: Option<i64>) -> Option<i64> {
    match volume {
        Some(_) => log_volume,
        None => None,
    }
}

/// Square root of a whole-unit position, in millionths.
pub open spec fn scaled_position(position: u64) -> u64 {
    floor_sqrt(position * SCALE * SCALE) as u64
}

/// A vertex after logarithmic scaling, `log_volume` being the logarithm of its
/// volume.
pub open spec fn scaled_vertex(v: FrequencyVertex, log_volume: Option<i64>) -> FrequencyVertex {
    FrequencyVertex {
        frequency: v.frequency,
        volume: scaled_volume(v.volume, log_volume),
        position: scaled_position(v.position),
    }
}

/// The position that normalisation divides by: that of the last vertex, or one
/// whole where there is no vertex.
pub open spec fn max_position(vertices: Seq<FrequencyVertex>) -> u64 {
    if vertices.len() > 0 {
        vertices.last().position
    } else {
        SCALE
    }
}

/// A position as a fraction of `max`, in millionths. A zero `max` gives zero.
pub open spec fn normalised_position(position: u64, max: u64) -> u64 {
    if max == 0 {
        0
    } else {
        (position * SCALE / (max as int)) as u64
    }
}

/// A volume as a fraction of `VOLUME_CEILING`, in millionths, rounded down. It is
/// not clamped.
pub open spec fn normalised_volume(volume: Option<i64>) -> Option<i64> {
    match volume {
        Some(v) => Some((v * SCALE / (VOLUME_CEILING as int)) as i64),
        None => None,
    }
}

/// A vertex after normalisation against `max`.
pub open spec fn normalised_vertex(v: FrequencyVertex, max: u64) -> FrequencyVertex {
    FrequencyVertex {
        frequency: v.frequency,
        volume: normalised_volume(v.volume),
        position: normalised_position(v.position, max),
    }
}

impl FrequencyVertex {
    /// The vertex that stands for silence at the origin.
    pub fn empty() -> (v: FrequencyVertex)
        ensures
            v == empty_vertex(),
    {
        FrequencyVertex { frequency: 0, volume: Some(0), position: 0 }
    }
}

/// Builds one vertex per bin of `spectrum`.
pub fn build_vertices(spectrum: &FftSpectrum) -> (vertices: Vec<FrequencyVertex>)
    requires
        spectrum.values@.len() <= u32::MAX,
    ensures
        vertices@.len() == spectrum.values@.len(),
        forall|i: int|
            0 <= i < vertices@.len() ==> vertices@[i] == raw_vertex(
                i,
                spectrum.values@[i],
                spectrum.bin_size,
            ),
{
    let n: usize = spectrum.values.len();
    let mut vertices: Vec<FrequencyVertex> = Vec::with_capacity(n);
    let mut i: usize = 0;
    while i < n
        invariant
            i <= n,
            n == spectrum.values@.len(),
            n <= u32::MAX,
            vertices@.len() == i,
            forall|k: int|
                0 <= k < i ==> vertices@[k] == raw_vertex(
                    k,
                    spectrum.values@[k],
                    spectrum.bin_size,
                ),
        decreases n - i,
    {
        let volume: Option<i64> = match spectrum.values[i] {
            Some(m) => Some(m as i64),
            None => None,
        };
        assert((i + 1) * spectrum.bin_size <= 0xffff_ffff * 0xffff_ffff) by (nonlinear_arith)
            requires
                0 <= i + 1 <= 0xffff_ffff,
                0 <= spectrum.bin_size <= 0xffff_ffff,
        ;
        let frequency: u64 = (i as u64 + 1) * (spectrum.bin_size as u64);
        vertices.push(FrequencyVertex { frequency, volume, position: i as u64 });
        i = i + 1;
    }
    vertices
}

/// Square root, in millionths, of a whole-unit quantity.
pub fn scale_quantity(whole: u64) -> (scaled: u64)
    ensures
        scaled == floor_sqrt(whole * SCALE * SCALE),
        is_floor_sqrt(whole * SCALE * SCALE, scaled as int),
        whole <= u32::MAX ==> scaled <= POSITION_LIMIT,
{
    assert(whole * SCALE * SCALE == whole * 1_000_000_000_000) by (nonlinear_arith);
    let wide: u128 = (whole as u128) * 1_000_000_000_000u128;
    let scaled = isqrt(wide);
    proof {
        if whole <= u32::MAX && scaled > POSITION_LIMIT {
            lemma_square_monotone(POSITION_LIMIT as int + 1, scaled as int);
        }
    }
    scaled
}

/// Scales every vertex to keep detail at low energy visible: the position becomes
/// its square root, the volume its logarithm. `log_volumes[i]` is the decimal
/// logarithm of one more than the volume of vertex `i`, in millionths, or `None`
/// where that is not a number; logarithms are not integer arithmetic, so the caller
/// computes them.
pub fn apply_logarithmic_scaling(
    vertices: &mut Vec<FrequencyVertex>,
    log_volumes: &Vec<Option<i64>>,
)
    requires
        log_volumes@.len() == old(vertices)@.len(),
    ensures
        final(vertices)@.len() == old(vertices)@.len(),
        forall|i: int|
            0 <= i < old(vertices)@.len() ==> final(vertices)@[i] == scaled_vertex(
                old(vertices)@[i],
                log_volumes@[i],
            ),
        forall|i: int|
            0 <= i < old(vertices)@.len() && old(vertices)@[i].position <= u32::MAX
                ==> final(vertices)@[i].position <= POSITION_LIMIT,
{
    let n: usize = vertices.len();
    let mut i: usize = 0;
    while i < n
        invariant
            i <= n,
            n == vertices@.len(),
            n == old(vertices)@.len(),
            n == log_volumes@.len(),
            forall|k: int|
                0 <= k < i ==> vertices@[k] == scaled_vertex(old(vertices)@[k], log_volumes@[k]),
            forall|k: int|
                0 <= k < i && old(vertices)@[k].position <= u32::MAX ==> vertices@[k].position
                    <= POSITION_LIMIT,
            forall|k: int| i <= k < n ==> vertices@[k] == old(vertices)@[k],
        decreases n - i,
    {
        let v = vertices[i];
        let position = scale_quantity(v.position);
        let volume: Option<i64> = match v.volume {
            Some(_) => log_volumes[i],
            None => None,
        };
        vertices.set(i, FrequencyVertex { frequency: v.frequency, volume, position });
        i = i + 1;
    }
}

/// Divides every position by that of the last vertex and every volume by
/// `VOLUME_CEILING`.
pub fn apply_normalised_positioning(vertices: &mut Vec<FrequencyVertex>)
    requires
        forall|i: int| 0 <= i < old(vertices)@.len() ==> old(vertices)@[i].position <= POSITION_LIMIT,
    ensures
        final(vertices)@.len() == old(vertices)@.len(),
        forall|i: int|
            0 <= i < old(vertices)@.len() ==> final(vertices)@[i] == normalised_vertex(
                old(vertices)@[i],
                max_position(old(vertices)@),
            ),
{
    let n: usize = vertices.len();
    let max: u64 = if n > 0 {
        vertices[n - 1].position
    } else {
        SCALE
    };
    let mut i: usize = 0;
    while i < n
        invariant
            i <= n,
            n == vertices@.len(),
            n == old(vertices)@.len(),
            max == max_position(old(vertices)@),
            forall|k: int| 0 <= k < n ==> old(vertices)@[k].position <= POSITION_LIMIT,
            forall|k: int| 0 <= k < i ==> vertices@[k] == normalised_vertex(old(vertices)@[k], max),
            forall|k: int| i <= k < n ==> vertices@[k] == old(vertices)@[k],
        decreases n - i,
    {
        let v = vertices[i];
        let position: u64 = if max == 0 {
            0
        } else {
            assert(v.position * SCALE <= 65_536_000_000_000_000) by (nonlinear_arith)
                requires
                    v.position <= 65_536_000_000,
                    SCALE == 1_000_000,
            ;
            assert(v.position * SCALE / (max as int) <= v.position * SCALE) by (nonlinear_arith)
                requires
                    max >= 1,
                    v.position * SCALE >= 0,
            ;
            v.position * SCALE / max
        };
        let volume: Option<i64> = match v.volume {
            Some(x) => {
                let q = floor_div((x as i128) * (SCALE as i128), VOLUME_CEILING as i128);
                Some(q as i64)
            },
            None => None,
        };
        vertices.set(i, FrequencyVertex { frequency: v.frequency, volume, position });
        i = i + 1;
    }
}

} // verus!
