//! The spectrum post-processor: it turns a sparse, noisy magnitude spectrum into a
//! stable curve of fixed length by scaling, normalising, smoothing over time and
//! resampling.

use vstd::prelude::*;
use crate::analyzer::{FftSpectrum, WINDOW_SIZE};
use crate::fixed::{
    floor_div, floor_sqrt, lemma_floor_sqrt_exists, lemma_floor_sqrt_monotone,
    lemma_square_monotone, SCALE,
};
use crate::resample::{
    control_point, is_max_hold, lemma_held_silent, level, level_of, resample, resampled,
    window_count, MAX_RESOLUTION, VOLUME_LIMIT,
};
use crate::vertex::{
    apply_logarithmic_scaling, apply_normalised_positioning, build_vertices, normalised_vertex,
    raw_vertex, scaled_position, scaled_vertex, FrequencyVertex, VOLUME_CEILING,
};

verus! {

/// How fast a smoothed volume follows its target, per second.
pub const SMOOTHING_SPEED: u8 = 7;

/// A volume held to the range that the smoothing state can store.
pub open spec fn clamp_volume(v: int) -> int {
    if v < -VOLUME_LIMIT {
        -VOLUME_LIMIT as int
    } else if v > VOLUME_LIMIT {
        VOLUME_LIMIT as int
    } else {
        v
    }
}

/// One smoothing step: the previous value moves towards the target by the fraction
/// `dt * speed` of their distance, `dt` being `dt_micros` in seconds; the step is
/// rounded down. A target that is not a number leaves the previous value untouched.
pub open spec fn smoothed_value(previous: i64, target: Option<i64>, dt_micros: u32, speed: u8)
    -> int {
    match target {
        Some(t) => clamp_volume(previous + ((t - previous) * dt_micros * speed) / (SCALE as int)),
        None => previous as int,
    }
}

/// The vertices of a spectrum after scaling and normalisation, before smoothing.
/// `log_volumes[i]` is the logarithm of the magnitude of bin `i`.
pub open spec fn prepared(
    values: Seq<Option<u32>>,
    log_volumes: Seq<Option<i64>>,
    bin_size: u32,
) -> Seq<FrequencyVertex> {
    Seq::new(
        values.len(),
        |i: int|
            normalised_vertex(
                scaled_vertex(raw_vertex(i, values[i], bin_size), log_volumes[i]),
                scaled_position((values.len() - 1) as u64),
            ),
    )
}

/// The smoothing state after one pass over `targets`: slot `i` follows the volume
/// of vertex `i`; slots beyond the vertices keep their value.
pub open spec fn smoothed_state(state: Seq<i64>, targets: Seq<FrequencyVertex>, dt_micros: u32)
    -> Seq<i64> {
    Seq::new(
        state.len(),
        |i: int|
            if i < targets.len() {
                smoothed_value(state[i], targets[i].volume, dt_micros, SMOOTHING_SPEED) as i64
            } else {
                state[i]
            },
    )
}

/// The vertices with their volumes replaced by the smoothing state.
pub open spec fn smoothed_vertices(state: Seq<i64>, targets: Seq<FrequencyVertex>) -> Seq<
    FrequencyVertex,
> {
    Seq::new(
        targets.len(),
        |i: int|
            FrequencyVertex {
                frequency: targets[i].frequency,
                volume: Some(state[i]),
                position: targets[i].position,
            },
    )
}

/// The volumes of a curve.
pub open spec fn volumes(curve: Seq<FrequencyVertex>) -> Seq<i64> {
    Seq::new(curve.len(), |j: int| level(curve[j]) as i64)
}

/// Every prepared vertex lies within the width of the curve.
pub proof fn lemma_prepared_position(
    values: Seq<Option<u32>>,
    log_volumes: Seq<Option<i64>>,
    bin_size: u32,
    i: int,
)
    requires
        0 <= i < values.len() <= u32::MAX,
    ensures
        prepared(values, log_volumes, bin_size)[i].position <= SCALE,
{
    let last = values.len() - 1;
    let x = i * SCALE * SCALE;
    let y = last * SCALE * SCALE;
    assert(0 <= x <= y <= 0xffff_ffff * 1_000_000_000_000) by (nonlinear_arith)
        requires
            0 <= i <= last <= 0xffff_ffff,
            x == i * SCALE * SCALE,
            y == last * SCALE * SCALE,
            SCALE == 1_000_000,
    ;
    lemma_floor_sqrt_monotone(x, y);
    lemma_floor_sqrt_exists(y);
    let rx = floor_sqrt(x);
    let ry = floor_sqrt(y);
    if ry >= 68_719_476_736 {
        lemma_square_monotone(68_719_476_736, ry);
    }
    assert(scaled_position(i as u64) == rx);
    assert(scaled_position(last as u64) == ry);
    if ry > 0 {
        assert(rx * SCALE / ry <= SCALE) by (nonlinear_arith)
            requires
                0 <= rx <= ry,
                ry > 0,
                SCALE == 1_000_000,
        ;
        assert(rx * SCALE / ry >= 0) by (nonlinear_arith)
            requires
                0 <= rx,
                ry > 0,
                SCALE == 1_000_000,
        ;
    }
}

/// Silence stays silent: from a silent state, a spectrum of zero magnitudes, whose
/// logarithms are zero, leaves the state silent and gives a curve of zero volumes,
/// whatever the time step.
pub proof fn lemma_silence_stays_silent(
    values: Seq<Option<u32>>,
    log_volumes: Seq<Option<i64>>,
    bin_size: u32,
    state: Seq<i64>,
    dt_micros: u32,
    resolution: int,
    j: int,
)
    requires
        log_volumes.len() == values.len(),
        forall|i: int| 0 <= i < values.len() ==> values[i] == Some(0u32),
        forall|i: int| 0 <= i < values.len() ==> log_volumes[i] == Some(0i64),
        forall|i: int| 0 <= i < state.len() ==> state[i] == 0,
        values.len() <= state.len(),
        0 <= j < resolution,
    ensures
        smoothed_state(state, prepared(values, log_volumes, bin_size), dt_micros) == state,
        volumes(
            resampled(smoothed_vertices(state, prepared(values, log_volumes, bin_size)), resolution),
        )[j] == 0,
{
    let targets = prepared(values, log_volumes, bin_size);
    assert forall|i: int| 0 <= i < targets.len() implies (#[trigger] targets[i]).volume == Some(
        0i64,
    ) by {
        assert(scaled_vertex(raw_vertex(i, values[i], bin_size), log_volumes[i]).volume == Some(
            0i64,
        ));
        assert(0 * SCALE / (VOLUME_CEILING as int) == 0);
    }
    assert forall|i: int| 0 <= i < state.len() implies smoothed_state(
        state,
        targets,
        dt_micros,
    )[i] == state[i] by {
        if i < targets.len() {
            assert(targets[i].volume == Some(0i64));
            assert((0 - 0) * dt_micros * SMOOTHING_SPEED == 0) by (nonlinear_arith);
        }
    }
    assert(smoothed_state(state, targets, dt_micros) =~= state);
    let points = smoothed_vertices(state, targets);
    lemma_held_silent(points, resolution, j, window_count(points));
}

/// Computes one smoothing step.
pub fn smooth(previous: i64, target: Option<i64>, dt_micros: u32, speed: u8) -> (next: i64)
    ensures
        next == smoothed_value(previous, target, dt_micros, speed),
        target is None ==> next == previous,
        target is Some ==> -VOLUME_LIMIT <= next <= VOLUME_LIMIT,
{
    match target {
        None => previous,
        Some(t) => {
            let distance: i128 = (t as i128) - (previous as i128);
            assert(-0x1_0000_0000_0000_0000 * 0x1_0000_0000 <= distance * dt_micros
                <= 0x1_0000_0000_0000_0000 * 0x1_0000_0000) by (nonlinear_arith)
                requires
                    -0x1_0000_0000_0000_0000 <= distance <= 0x1_0000_0000_0000_0000,
                    0 <= dt_micros <= 0x1_0000_0000,
            ;
            let by_time: i128 = distance * (dt_micros as i128);
            assert(-0x1_0000_0000_0000_0000_0000_0000 * 0x100 <= by_time * speed
                <= 0x1_0000_0000_0000_0000_0000_0000 * 0x100) by (nonlinear_arith)
                requires
                    -0x1_0000_0000_0000_0000_0000_0000 <= by_time
                        <= 0x1_0000_0000_0000_0000_0000_0000,
                    0 <= speed <= 0x100,
            ;
            let by_speed: i128 = by_time * (speed as i128);
            let step: i128 = floor_div(by_speed, SCALE as i128);
            assert(-0x1_0000_0000_0000_0000_0000_0000 * 0x100 <= (by_speed as int) / (SCALE as int)
                <= 0x1_0000_0000_0000_0000_0000_0000 * 0x100);
            let moved: i128 = (previous as i128) + step;
            if moved < -(VOLUME_LIMIT as i128) {
                -VOLUME_LIMIT
            } else if moved > VOLUME_LIMIT as i128 {
                VOLUME_LIMIT
            } else {
                moved as i64
            }
        },
    }
}

/// The post-processor. It owns the smoothing state, one slot per bin of the
/// analysis window, and the number of points of the curve it produces.
pub struct Spectrometer {
    smoothing_buffer: Vec<i64>,
    resolution: usize,
}

impl Spectrometer {
    /// The smoothing state, one value per bin of the analysis window.
    pub closed spec fn state(&self) -> Seq<i64> {
        self.smoothing_buffer@
    }

    /// The number of points of every curve that this post-processor produces.
    pub closed spec fn spec_resolution(&self) -> int {
        self.resolution as int
    }

    /// The smoothing state has one slot per bin of the analysis window, every slot
    /// is within `VOLUME_LIMIT`, and the resolution is at most `MAX_RESOLUTION`.
    pub open spec fn wf(&self) -> bool {
        &&& self.state().len() == WINDOW_SIZE
        &&& forall|i: int|
            0 <= i < self.state().len() ==> -VOLUME_LIMIT <= #[trigger] self.state()[i]
                <= VOLUME_LIMIT
        &&& 0 <= self.spec_resolution() <= MAX_RESOLUTION
    }

    /// A post-processor that produces curves of `resolution` points, with a silent
    /// smoothing state.
    pub fn new(resolution: usize) -> (s: Spectrometer)
        requires
            resolution <= MAX_RESOLUTION,
        ensures
            s.wf(),
            s.spec_resolution() == resolution,
            s.state() == Seq::new(WINDOW_SIZE as nat, |i: int| 0i64),
    {
        let mut smoothing_buffer: Vec<i64> = Vec::with_capacity(WINDOW_SIZE);
        let mut i: usize = 0;
        while i < WINDOW_SIZE
            invariant
                i <= WINDOW_SIZE,
                smoothing_buffer@ == Seq::new(i as nat, |k: int| 0i64),
            decreases WINDOW_SIZE - i,
        {
            smoothing_buffer.push(0);
            i = i + 1;
        }
        Spectrometer { smoothing_buffer, resolution }
    }

    /// The number of points of every curve that this post-processor produces.
    pub fn resolution(&self) -> (r: usize)
        ensures
            r == self.spec_resolution(),
    {
        self.resolution
    }

    /// The smoothed volume of bin `i`.
    pub fn smoothed(&self, i: usize) -> (v: i64)
        requires
            i < self.state().len(),
        ensures
            v == self.state()[i as int],
    {
        self.smoothing_buffer[i]
    }

    /// Moves the smoothing state towards the volumes of `vertices` and replaces
    /// each volume by its smoothed value.
    pub fn apply_smoothing(&mut self, vertices: &mut Vec<FrequencyVertex>, dt_micros: u32)
        requires
            old(self).wf(),
            old(vertices)@.len() <= WINDOW_SIZE,
        ensures
            final(self).wf(),
            final(self).spec_resolution() == old(self).spec_resolution(),
            final(self).state() == smoothed_state(old(self).state(), old(vertices)@, dt_micros),
            final(vertices)@ == smoothed_vertices(final(self).state(), old(vertices)@),
    {
        let n: usize = vertices.len();
        let mut i: usize = 0;
        while i < n
            invariant
                i <= n <= WINDOW_SIZE,
                n == vertices@.len(),
                n == old(vertices)@.len(),
                self.wf(),
                self.resolution == old(self).resolution,
                forall|k: int|
                    0 <= k < i ==> self.smoothing_buffer@[k] == smoothed_value(
                        old(self).smoothing_buffer@[k],
                        old(vertices)@[k].volume,
                        dt_micros,
                        SMOOTHING_SPEED,
                    ),
                forall|k: int|
                    i <= k < WINDOW_SIZE ==> self.smoothing_buffer@[k] == old(
                        self,
                    ).smoothing_buffer@[k],
                forall|k: int|
                    0 <= k < i ==> vertices@[k] == (FrequencyVertex {
                        frequency: old(vertices)@[k].frequency,
                        volume: Some(self.smoothing_buffer@[k]),
                        position: old(vertices)@[k].position,
                    }),
                forall|k: int| i <= k < n ==> vertices@[k] == old(vertices)@[k],
            decreases n - i,
        {
            let v = vertices[i];
            let ghost before = self.smoothing_buffer@;
            let next = smooth(self.smoothing_buffer[i], v.volume, dt_micros, SMOOTHING_SPEED);
            assert(-VOLUME_LIMIT <= before[i as int] <= VOLUME_LIMIT);
            self.smoothing_buffer.set(i, next);
            assert forall|k: int| 0 <= k < self.state().len() implies -VOLUME_LIMIT
                <= #[trigger] self.state()[k] <= VOLUME_LIMIT by {
                if k != i {
                    assert(self.state()[k] == before[k]);
                }
            }
            vertices.set(
                i,
                FrequencyVertex { frequency: v.frequency, volume: Some(next), position: v.position },
            );
            i = i + 1;
        }
        assert(self.state() =~= smoothed_state(old(self).state(), old(vertices)@, dt_micros));
        assert(vertices@ =~= smoothed_vertices(self.state(), old(vertices)@));
    }

    /// Produces the curve for one spectrum snapshot, `dt_micros` microseconds after
    /// the previous one: vertices are built from the bins, scaled, normalised,
    /// smoothed against the state, and resampled to the resolution. `log_volumes[i]`
    /// is the decimal logarithm of one more than the magnitude of bin `i`, in
    /// millionths. The result holds the volumes of the resampled curve, in millionths
    /// of full height; its length is the resolution, whatever the spectrum holds.
    pub fn generate_spectrum(
        &mut self,
        fft_spectrum: &FftSpectrum,
        log_volumes: &Vec<Option<i64>>,
        dt_micros: u32,
    ) -> (spectrum: Vec<i64>)
        requires
            old(self).wf(),
            fft_spectrum.values@.len() <= WINDOW_SIZE,
            log_volumes@.len() == fft_spectrum.values@.len(),
        ensures
            final(self).wf(),
            final(self).spec_resolution() == old(self).spec_resolution(),
            final(self).state() == smoothed_state(
                old(self).state(),
                prepared(fft_spectrum.values@, log_volumes@, fft_spectrum.bin_size),
                dt_micros,
            ),
            spectrum@ == volumes(
                resampled(
                    smoothed_vertices(
                        final(self).state(),
                        prepared(fft_spectrum.values@, log_volumes@, fft_spectrum.bin_size),
                    ),
                    final(self).spec_resolution(),
                ),
            ),
            spectrum@.len() == old(self).spec_resolution(),
    {
        let ghost targets = prepared(fft_spectrum.values@, log_volumes@, fft_spectrum.bin_size);
        let mut vertices = build_vertices(fft_spectrum);
        let ghost raw = vertices@;
        apply_logarithmic_scaling(&mut vertices, log_volumes);
        let ghost scaled = vertices@;
        apply_normalised_positioning(&mut vertices);
        assert(vertices@ =~= targets) by {
            assert forall|i: int| 0 <= i < targets.len() implies vertices@[i] == targets[i] by {
                assert(scaled.last() == scaled_vertex(
                    raw[raw.len() - 1],
                    log_volumes@[raw.len() - 1],
                ));
            }
        }
        self.apply_smoothing(&mut vertices, dt_micros);
        assert forall|i: int| 0 <= i < vertices@.len() implies control_point(
            #[trigger] vertices@[i],
        ) by {
            lemma_prepared_position(fft_spectrum.values@, log_volumes@, fft_spectrum.bin_size, i);
            assert(vertices@[i].volume == Some(self.state()[i]));
        }
        let curve = self.get_interpolated_vertices(vertices);
        let n: usize = curve.len();
        let mut spectrum: Vec<i64> = Vec::with_capacity(n);
        let mut j: usize = 0;
        while j < n
            invariant
                j <= n,
                n == curve@.len(),
                spectrum@.len() == j,
                forall|k: int| 0 <= k < j ==> spectrum@[k] == level(curve@[k]),
            decreases n - j,
        {
            spectrum.push(level_of(&curve[j]));
            j = j + 1;
        }
        assert(spectrum@ =~= volumes(curve@));
        spectrum
    }

    /// Resamples smoothed, normalised vertices onto the curve's resolution.
    pub fn get_interpolated_vertices(&self, vertices: Vec<FrequencyVertex>) -> (curve: Vec<
        FrequencyVertex,
    >)
        requires
            self.wf(),
            forall|i: int| 0 <= i < vertices@.len() ==> control_point(#[trigger] vertices@[i]),
        ensures
            curve@ == resampled(vertices@, self.spec_resolution()),
            curve@.len() == self.spec_resolution(),
            forall|j: int|
                0 <= j < self.spec_resolution() ==> is_max_hold(
                    vertices@,
                    self.spec_resolution(),
                    j,
                    #[trigger] curve@[j],
                ),
    {
        resample(&vertices, self.resolution)
    }
}

} // verus!
