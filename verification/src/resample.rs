//! Cubic resampling of a sparse sequence of control points onto a fixed number of
//! output slots, keeping the larger volume wherever two windows meet.

use vstd::prelude::*;
use crate::fixed::{floor_div, SCALE};
use crate::vertex::{empty_vertex, FrequencyVertex};

verus! {

/// Largest magnitude of a control volume that resampling accepts.
pub const VOLUME_LIMIT: i64 = 1_000_000_000_000;

/// Largest number of output slots.
pub const MAX_RESOLUTION: usize = 1_048_576;

/// The volume of a vertex as a number: zero where it has none.
pub open spec fn level(v: FrequencyVertex) -> int {
    match v.volume {
        Some(x) => x as int,
        None => 0,
    }
}

/// A control point that resampling accepts: its position is a fraction of the whole
/// width and its volume, where it has one, is within `VOLUME_LIMIT`.
pub open spec fn control_point(v: FrequencyVertex) -> bool {
    &&& v.position <= SCALE
    &&& -VOLUME_LIMIT <= level(v) <= VOLUME_LIMIT
}

/// The control points with their boundary conditions: the first point repeated in
/// front and an empty point behind.
pub open spec fn padded(points: Seq<FrequencyVertex>) -> Seq<FrequencyVertex> {
    seq![if points.len() > 0 { points[0] } else { empty_vertex() }] + points + seq![empty_vertex()]
}

/// Number of windows of four consecutive padded points.
pub open spec fn window_count(points: Seq<FrequencyVertex>) -> nat {
    if points.len() >= 2 {
        (points.len() - 1) as nat
    } else {
        0
    }
}

/// The output slot that a position maps to.
pub open spec fn output_index(position: u64, resolution: int) -> int {
    position * resolution / (SCALE as int)
}

/// First output slot of window `w`: where its second point lies.
pub open spec fn window_start(points: Seq<FrequencyVertex>, resolution: int, w: int) -> int {
    output_index(padded(points)[w + 1].position, resolution)
}

/// End of window `w`: where its third point lies.
pub open spec fn window_end(points: Seq<FrequencyVertex>, resolution: int, w: int) -> int {
    output_index(padded(points)[w + 2].position, resolution)
}

/// Window `w` maps to slot `j`: `j` lies in `[start, end)`, or the window has zero
/// length and `j` is its only slot.
pub open spec fn covers(points: Seq<FrequencyVertex>, resolution: int, w: int, j: int) -> bool {
    let s = window_start(points, resolution, w);
    let e = window_end(points, resolution, w);
    s <= j < e || (s == e && j == s)
}

/// All four points of window `w` have a volume.
pub open spec fn window_defined(points: Seq<FrequencyVertex>, w: int) -> bool {
    let fb = padded(points);
    fb[w].volume is Some && fb[w + 1].volume is Some && fb[w + 2].volume is Some && fb[w
        + 3].volume is Some
}

/// The four-point cubic through `y1` (at 0) and `y2` (at 1), evaluated at `p / g` and
/// rounded down; at one half where the gap `g` is zero.
pub open spec fn cubic_volume(y0: int, y1: int, y2: int, y3: int, p: int, g: int) -> int {
    let a0 = y3 - y2 - y0 + y1;
    let a1 = y0 - y1 - a0;
    let a2 = y2 - y0;
    let a3 = y1;
    if g == 0 {
        (a0 + 2 * a1 + 4 * a2 + 8 * a3) / 8
    } else {
        (a0 * p * p * p + a1 * p * p * g + a2 * p * g * g + a3 * g * g * g) / (g * g * g)
    }
}

/// The frequency between `f1` and `f2` at `p / g`, rounded down; at one half where
/// the gap `g` is zero.
pub open spec fn linear_frequency(f1: int, f2: int, p: int, g: int) -> int {
    if g == 0 {
        (f1 + f2) / 2
    } else {
        (f1 * (g - p) + f2 * p) / g
    }
}

/// What window `w` proposes for slot `j`.
pub open spec fn candidate(points: Seq<FrequencyVertex>, resolution: int, w: int, j: int)
    -> FrequencyVertex {
    let fb = padded(points);
    let s = window_start(points, resolution, w);
    let g = window_end(points, resolution, w) - s;
    FrequencyVertex {
        frequency: linear_frequency(
            fb[w + 1].frequency as int,
            fb[w + 2].frequency as int,
            j - s,
            g,
        ) as u64,
        volume: Some(
            cubic_volume(level(fb[w]), level(fb[w + 1]), level(fb[w + 2]), level(fb[w + 3]), j - s, g) as i64,
        ),
        position: 0,
    }
}

/// Window `w` makes a proposal for slot `j`: it maps to the slot and all four of its
/// points have a volume.
pub open spec fn proposes(points: Seq<FrequencyVertex>, resolution: int, w: int, j: int) -> bool {
    covers(points, resolution, w, j) && window_defined(points, w)
}

/// What slot `j` holds once the first `k` windows have been applied in order:
/// nothing until a window makes a proposal for it; the first proposal is taken
/// whatever its volume, and a later one replaces it only by a larger volume.
pub open spec fn held(points: Seq<FrequencyVertex>, resolution: int, j: int, k: nat) -> Option<
    FrequencyVertex,
>
    decreases k,
{
    if k == 0 {
        None
    } else {
        let before = held(points, resolution, j, (k - 1) as nat);
        let c = candidate(points, resolution, k - 1, j);
        if proposes(points, resolution, k - 1, j) {
            match before {
                Some(b) => if level(b) < level(c) {
                    Some(c)
                } else {
                    Some(b)
                },
                None => Some(c),
            }
        } else {
            before
        }
    }
}

/// What a slot shows in the finished curve: what it holds, or the empty vertex
/// where no window reached it.
pub open spec fn settled(slot: Option<FrequencyVertex>) -> FrequencyVertex {
    match slot {
        Some(v) => v,
        None => empty_vertex(),
    }
}

/// The resampled curve: every slot after all windows have been applied.
pub open spec fn resampled(points: Seq<FrequencyVertex>, resolution: int) -> Seq<FrequencyVertex> {
    Seq::new(
        resolution as nat,
        |j: int| settled(held(points, resolution, j, window_count(points))),
    )
}

/// Max-hold at slot `j`: where some window makes a proposal for the slot, `v` is one
/// of the proposals and no proposal has a larger volume; where none does, `v` is the
/// empty vertex.
pub open spec fn is_max_hold(
    points: Seq<FrequencyVertex>,
    resolution: int,
    j: int,
    v: FrequencyVertex,
) -> bool {
    if exists|w: int| 0 <= w < window_count(points) && #[trigger] proposes(points, resolution, w, j) {
        &&& exists|w: int|
            0 <= w < window_count(points) && #[trigger] proposes(points, resolution, w, j) && v
                == candidate(points, resolution, w, j)
        &&& forall|w: int|
            0 <= w < window_count(points) && #[trigger] proposes(points, resolution, w, j)
                ==> level(v) >= level(candidate(points, resolution, w, j))
    } else {
        v == empty_vertex()
    }
}

/// A product is bounded by the product of the bounds of its factors.
proof fn lemma_product_bound(a: int, b: int, bound: int, m: int)
    by (nonlinear_arith)
    requires
        -bound <= a <= bound,
        0 <= b <= m,
    ensures
        -(bound * m) <= a * b <= bound * m,
{
}

/// A quotient is bounded by what bounds the numerator per unit of the divisor.
proof fn lemma_quotient_bound(n: int, d: int, bound: int)
    by (nonlinear_arith)
    requires
        d > 0,
        -(bound * d) <= n <= bound * d,
    ensures
        -bound <= n / d <= bound,
{
}

/// Multiplying by a factor of at most `g` keeps a bound of `c` per unit, in a unit
/// that is `g` times larger.
proof fn lemma_step_bound(x: int, f: int, c: int, m: int, g: int)
    by (nonlinear_arith)
    requires
        -(c * m) <= x <= c * m,
        0 <= f <= g,
        0 <= c,
        0 <= m,
    ensures
        -(c * (m * g)) <= x * f <= c * (m * g),
{
}

/// The volume of a vertex as a number: zero where it has none.
pub fn level_of(v: &FrequencyVertex) -> (x: i64)
    ensures
        x == level(*v),
{
    match v.volume {
        Some(x) => x,
        None => 0,
    }
}

/// The output slot that a position maps to.
pub fn slot_of(position: u64, resolution: usize) -> (slot: usize)
    requires
        position <= SCALE,
        resolution <= MAX_RESOLUTION,
    ensures
        slot == output_index(position, resolution as int),
        slot <= resolution,
{
    assert(position * resolution <= SCALE * resolution <= 1_000_000 * 1_048_576) by (nonlinear_arith)
        requires
            0 <= position <= SCALE,
            0 <= resolution <= 1_048_576,
            SCALE == 1_000_000,
    ;
    assert(position * resolution / (SCALE as int) <= resolution) by (nonlinear_arith)
        requires
            0 <= position * resolution <= SCALE * resolution,
            SCALE == 1_000_000,
    ;
    let wide: u64 = position * (resolution as u64);
    (wide / SCALE) as usize
}

/// Evaluates the four-point cubic at `p / g`, or at one half where `g` is zero.
pub fn cubic(y0: i64, y1: i64, y2: i64, y3: i64, p: usize, g: usize) -> (volume: i64)
    requires
        -VOLUME_LIMIT <= y0 <= VOLUME_LIMIT,
        -VOLUME_LIMIT <= y1 <= VOLUME_LIMIT,
        -VOLUME_LIMIT <= y2 <= VOLUME_LIMIT,
        -VOLUME_LIMIT <= y3 <= VOLUME_LIMIT,
        p <= g <= MAX_RESOLUTION,
    ensures
        volume == cubic_volume(y0 as int, y1 as int, y2 as int, y3 as int, p as int, g as int),
        -13 * VOLUME_LIMIT <= volume <= 13 * VOLUME_LIMIT,
{
    let a0: i128 = (y3 as i128) - (y2 as i128) - (y0 as i128) + (y1 as i128);
    let a1: i128 = (y0 as i128) - (y1 as i128) - a0;
    let a2: i128 = (y2 as i128) - (y0 as i128);
    let a3: i128 = y1 as i128;
    if g == 0 {
        let num: i128 = a0 + 2 * a1 + 4 * a2 + 8 * a3;
        let q = floor_div(num, 8);
        q as i64
    } else {
        let gi: i128 = g as i128;
        let pi: i128 = p as i128;
        proof {
            lemma_product_bound(gi as int, gi as int, 1_048_576, 1_048_576);
        }
        let g2: i128 = gi * gi;
        proof {
            lemma_product_bound(g2 as int, gi as int, 1_099_511_627_776, 1_048_576);
            assert(g2 >= 1 && g2 * gi >= 1) by (nonlinear_arith)
                requires
                    g2 == gi * gi,
                    gi >= 1,
            ;
        }
        let g3: i128 = g2 * gi;
        proof {
            lemma_step_bound(a0 as int, pi as int, 4_000_000_000_000, 1, gi as int);
            lemma_step_bound(a0 * pi, pi as int, 4_000_000_000_000, gi as int, gi as int);
            lemma_step_bound(a0 * pi * pi, pi as int, 4_000_000_000_000, g2 as int, gi as int);
            lemma_step_bound(a1 as int, pi as int, 6_000_000_000_000, 1, gi as int);
            lemma_step_bound(a1 * pi, pi as int, 6_000_000_000_000, gi as int, gi as int);
            lemma_step_bound(a1 * pi * pi, gi as int, 6_000_000_000_000, g2 as int, gi as int);
            lemma_step_bound(a2 as int, pi as int, 2_000_000_000_000, 1, gi as int);
            lemma_step_bound(a2 * pi, gi as int, 2_000_000_000_000, gi as int, gi as int);
            lemma_step_bound(a2 * pi * gi, gi as int, 2_000_000_000_000, g2 as int, gi as int);
            lemma_step_bound(a3 as int, gi as int, 1_000_000_000_000, 1, gi as int);
            lemma_step_bound(a3 * gi, gi as int, 1_000_000_000_000, gi as int, gi as int);
            lemma_step_bound(a3 * gi * gi, gi as int, 1_000_000_000_000, g2 as int, gi as int);
        }
        let n0: i128 = a0 * pi * pi * pi;
        let n1: i128 = a1 * pi * pi * gi;
        let n2: i128 = a2 * pi * gi * gi;
        let n3: i128 = a3 * gi * gi * gi;
        let num: i128 = n0 + n1 + n2 + n3;
        let q = floor_div(num, g3);
        proof {
            lemma_quotient_bound(num as int, g3 as int, 13_000_000_000_000);
        }
        q as i64
    }
}

/// Interpolates linearly between two frequencies at `p / g`, or at one half where
/// `g` is zero.
pub fn lerp_frequency(f1: u64, f2: u64, p: usize, g: usize) -> (frequency: u64)
    requires
        p <= g <= MAX_RESOLUTION,
    ensures
        frequency == linear_frequency(f1 as int, f2 as int, p as int, g as int),
{
    if g == 0 {
        (((f1 as u128) + (f2 as u128)) / 2) as u64
    } else {
        let top: u64 = if f1 >= f2 { f1 } else { f2 };
        proof {
            lemma_product_bound((f1 as int), (g - p) as int, top as int, (g - p) as int);
            lemma_product_bound((f2 as int), p as int, top as int, p as int);
            assert(top * (g - p) + top * p == top * g) by (nonlinear_arith);
            lemma_product_bound(top as int, g as int, 0xffff_ffff_ffff_ffff, 1_048_576);
            lemma_quotient_bound(f1 * (g - p) + f2 * p, g as int, top as int);
        }
        let num: u128 = (f1 as u128) * ((g - p) as u128) + (f2 as u128) * (p as u128);
        (num / (g as u128)) as u64
    }
}

/// The four points of window `w`, read from the control points themselves.
proof fn lemma_padded_window(points: Seq<FrequencyVertex>, w: int)
    requires
        0 <= w < window_count(points),
    ensures
        padded(points).len() == points.len() + 2,
        padded(points)[w] == (if w == 0 {
            points[0]
        } else {
            points[w - 1]
        }),
        padded(points)[w + 1] == points[w],
        padded(points)[w + 2] == points[w + 1],
        padded(points)[w + 3] == (if w + 2 < points.len() {
            points[w + 2]
        } else {
            empty_vertex()
        }),
{
}

/// What a window with the points `y0..y3`, starting at slot `start` and ending at
/// `end`, proposes for slot `j`.
fn window_candidate(
    y0: &FrequencyVertex,
    y1: &FrequencyVertex,
    y2: &FrequencyVertex,
    y3: &FrequencyVertex,
    start: usize,
    end: usize,
    j: usize,
) -> (c: FrequencyVertex)
    requires
        control_point(*y0),
        control_point(*y1),
        control_point(*y2),
        control_point(*y3),
        start <= j <= end <= MAX_RESOLUTION,
    ensures
        c.frequency == linear_frequency(
            y1.frequency as int,
            y2.frequency as int,
            j - start,
            end - start,
        ),
        c.volume == Some(
            cubic_volume(level(*y0), level(*y1), level(*y2), level(*y3), j - start, end - start) as i64,
        ),
        c.position == 0,
{
    let p: usize = j - start;
    let g: usize = end - start;
    let volume = cubic(level_of(y0), level_of(y1), level_of(y2), level_of(y3), p, g);
    let frequency = lerp_frequency(y1.frequency, y2.frequency, p, g);
    FrequencyVertex { frequency, volume: Some(volume), position: 0 }
}

/// Offers `c` to slot `j` of `curve`: it is taken where the slot holds nothing yet,
/// and replaces what is there only if its volume is larger.
fn offer(curve: &mut Vec<Option<FrequencyVertex>>, j: usize, c: FrequencyVertex)
    requires
        j < old(curve)@.len(),
    ensures
        final(curve)@ == old(curve)@.update(
            j as int,
            match old(curve)@[j as int] {
                Some(b) => if level(b) < level(c) {
                    Some(c)
                } else {
                    Some(b)
                },
                None => Some(c),
            },
        ),
{
    match curve[j] {
        Some(current) => {
            if level_of(&current) < level_of(&c) {
                curve.set(j, Some(c));
            } else {
                assert(curve@ == old(curve)@.update(j as int, old(curve)@[j as int]));
            }
        },
        None => {
            curve.set(j, Some(c));
        },
    }
}

/// Applies window `w` to slots that hold the result of the windows before it.
fn apply_window(
    curve: &mut Vec<Option<FrequencyVertex>>,
    points: &Vec<FrequencyVertex>,
    resolution: usize,
    w: usize,
)
    requires
        resolution <= MAX_RESOLUTION,
        old(curve)@.len() == resolution,
        forall|i: int| 0 <= i < points@.len() ==> control_point(#[trigger] points@[i]),
        w < window_count(points@),
        forall|j: int|
            0 <= j < resolution ==> old(curve)@[j] == held(points@, resolution as int, j, w as nat),
    ensures
        final(curve)@.len() == resolution,
        forall|j: int|
            0 <= j < resolution ==> final(curve)@[j] == held(
                points@,
                resolution as int,
                j,
                (w + 1) as nat,
            ),
{
    proof {
        lemma_padded_window(points@, w as int);
    }
    let n: usize = points.len();
    let y0 = if w == 0 {
        points[0]
    } else {
        points[w - 1]
    };
    let y1 = points[w];
    let y2 = points[w + 1];
    let y3 = if w + 2 < n {
        points[w + 2]
    } else {
        FrequencyVertex::empty()
    };
    let start = slot_of(y1.position, resolution);
    let end = slot_of(y2.position, resolution);
    let defined = y0.volume.is_some() && y1.volume.is_some() && y2.volume.is_some()
        && y3.volume.is_some();
    assert(defined == window_defined(points@, w as int));
    assert(start == window_start(points@, resolution as int, w as int));
    assert(end == window_end(points@, resolution as int, w as int));
    if defined && start == end {
        if start < resolution {
            let c = window_candidate(&y0, &y1, &y2, &y3, start, end, start);
            assert(c == candidate(points@, resolution as int, w as int, start as int));
            offer(curve, start, c);
        }
    } else if defined && start < end {
        let mut j: usize = start;
        while j < end
            invariant
                start <= j <= end <= resolution <= MAX_RESOLUTION,
                curve@.len() == resolution,
                control_point(y0),
                control_point(y1),
                control_point(y2),
                control_point(y3),
                start < end,
                window_defined(points@, w as int),
                start == window_start(points@, resolution as int, w as int),
                end == window_end(points@, resolution as int, w as int),
                y0 == padded(points@)[w as int],
                y1 == padded(points@)[w + 1],
                y2 == padded(points@)[w + 2],
                y3 == padded(points@)[w + 3],
                forall|k: int|
                    start <= k < j ==> curve@[k] == held(
                        points@,
                        resolution as int,
                        k,
                        (w + 1) as nat,
                    ),
                forall|k: int|
                    0 <= k < resolution && !(start <= k < j) ==> curve@[k] == held(
                        points@,
                        resolution as int,
                        k,
                        w as nat,
                    ),
            decreases end - j,
        {
            let c = window_candidate(&y0, &y1, &y2, &y3, start, end, j);
            assert(c == candidate(points@, resolution as int, w as int, j as int));
            offer(curve, j, c);
            j = j + 1;
        }
    }
}

/// Resamples the control points onto `resolution` output slots. Each window of four
/// consecutive padded points proposes, for the slots between its two middle points,
/// a cubic through them. A slot takes the first proposal made for it and after that
/// only a larger one, so it ends with the largest volume proposed for it; a slot for
/// which no proposal was made is empty.
pub fn resample(points: &Vec<FrequencyVertex>, resolution: usize) -> (curve: Vec<FrequencyVertex>)
    requires
        resolution <= MAX_RESOLUTION,
        forall|i: int| 0 <= i < points@.len() ==> control_point(#[trigger] points@[i]),
    ensures
        curve@ == resampled(points@, resolution as int),
        curve@.len() == resolution,
        forall|j: int|
            0 <= j < resolution ==> is_max_hold(points@, resolution as int, j, #[trigger] curve@[j]),
{
    let mut slots: Vec<Option<FrequencyVertex>> = Vec::with_capacity(resolution);
    let mut j: usize = 0;
    while j < resolution
        invariant
            j <= resolution,
            slots@.len() == j,
            forall|k: int| 0 <= k < j ==> slots@[k] is None,
        decreases resolution - j,
    {
        slots.push(None);
        j = j + 1;
    }
    let n: usize = points.len();
    let mut w: usize = 0;
    if n >= 2 {
        while w < n - 1
            invariant
                n == points@.len(),
                n >= 2,
                w <= n - 1,
                resolution <= MAX_RESOLUTION,
                slots@.len() == resolution,
                forall|i: int| 0 <= i < points@.len() ==> control_point(#[trigger] points@[i]),
                forall|k: int|
                    0 <= k < resolution ==> slots@[k] == held(
                        points@,
                        resolution as int,
                        k,
                        w as nat,
                    ),
            decreases n - 1 - w,
        {
            apply_window(&mut slots, points, resolution, w);
            w = w + 1;
        }
    }
    assert(w == window_count(points@));
    let mut curve: Vec<FrequencyVertex> = Vec::with_capacity(resolution);
    let mut j: usize = 0;
    while j < resolution
        invariant
            j <= resolution,
            slots@.len() == resolution,
            curve@.len() == j,
            forall|k: int| 0 <= k < j ==> curve@[k] == settled(slots@[k]),
        decreases resolution - j,
    {
        let v = match slots[j] {
            Some(v) => v,
            None => FrequencyVertex::empty(),
        };
        curve.push(v);
        j = j + 1;
    }
    assert(curve@ =~= resampled(points@, resolution as int));
    assert forall|j: int| 0 <= j < resolution implies is_max_hold(
        points@,
        resolution as int,
        j,
        #[trigger] curve@[j],
    ) by {
        lemma_max_hold(points@, resolution as int, j);
    }
    curve
}

/// A slot holds nothing exactly as long as no window has made a proposal for it.
pub proof fn lemma_held_unreached(points: Seq<FrequencyVertex>, resolution: int, j: int, k: nat)
    ensures
        held(points, resolution, j, k) is None <==> forall|w: int|
            0 <= w < k ==> !#[trigger] proposes(points, resolution, w, j),
    decreases k,
{
    if k > 0 {
        lemma_held_unreached(points, resolution, j, (k - 1) as nat);
        if held(points, resolution, j, k) is None {
            assert(!proposes(points, resolution, k - 1, j));
            assert forall|w: int| 0 <= w < k implies !#[trigger] proposes(
                points,
                resolution,
                w,
                j,
            ) by {
                if w < k - 1 {
                }
            }
        }
    }
}

/// A slot holds at least what any window that has made a proposal for it proposed.
pub proof fn lemma_held_dominates(
    points: Seq<FrequencyVertex>,
    resolution: int,
    j: int,
    k: nat,
    w: int,
)
    requires
        0 <= w < k,
        proposes(points, resolution, w, j),
    ensures
        held(points, resolution, j, k) is Some,
        level(held(points, resolution, j, k)->0) >= level(candidate(points, resolution, w, j)),
    decreases k,
{
    if w < k - 1 {
        lemma_held_dominates(points, resolution, j, (k - 1) as nat, w);
    }
}

/// What a slot holds is exactly what one of the windows proposed for it.
pub proof fn lemma_held_is_candidate(
    points: Seq<FrequencyVertex>,
    resolution: int,
    j: int,
    k: nat,
)
    ensures
        held(points, resolution, j, k) matches Some(v) ==> exists|w: int|
            0 <= w < k && #[trigger] proposes(points, resolution, w, j) && v == candidate(
                points,
                resolution,
                w,
                j,
            ),
    decreases k,
{
    if k > 0 {
        lemma_held_is_candidate(points, resolution, j, (k - 1) as nat);
        let before = held(points, resolution, j, (k - 1) as nat);
        let now = held(points, resolution, j, k);
        if now is Some {
            let v = now->0;
            if proposes(points, resolution, k - 1, j) && v == candidate(
                points,
                resolution,
                k - 1,
                j,
            ) {
            } else {
                assert(before == now);
                let w = choose|w: int|
                    0 <= w < k - 1 && #[trigger] proposes(points, resolution, w, j) && v
                        == candidate(points, resolution, w, j);
                assert(0 <= w < k && proposes(points, resolution, w, j) && v == candidate(
                    points,
                    resolution,
                    w,
                    j,
                ));
            }
        }
    }
}

/// Control points whose volumes are all zero give a curve of zero volumes.
pub proof fn lemma_held_silent(points: Seq<FrequencyVertex>, resolution: int, j: int, k: nat)
    requires
        forall|i: int| 0 <= i < points.len() ==> level(#[trigger] points[i]) == 0,
        k <= window_count(points),
    ensures
        level(settled(held(points, resolution, j, k))) == 0,
    decreases k,
{
    if k > 0 {
        lemma_held_silent(points, resolution, j, (k - 1) as nat);
        let w = k - 1;
        lemma_padded_window(points, w);
        let s = window_start(points, resolution, w);
        let g = window_end(points, resolution, w) - s;
        if covers(points, resolution, w, j) {
            let p = j - s;
            assert(cubic_volume(0, 0, 0, 0, p, g) == 0) by (nonlinear_arith)
                requires
                    g >= 0,
            ;
            assert(level(candidate(points, resolution, w, j)) == 0);
        }
    }
}

/// Max-hold: a slot of the resampled curve for which windows made proposals holds
/// one of them, and none of them has a larger volume; in particular, where two
/// windows map to the same slot, the slot holds the larger of their proposals unless
/// a third exceeds both. A slot for which no proposal was made is empty.
pub proof fn lemma_max_hold(points: Seq<FrequencyVertex>, resolution: int, j: int)
    ensures
        is_max_hold(
            points,
            resolution,
            j,
            settled(held(points, resolution, j, window_count(points))),
        ),
{
    let k = window_count(points);
    let slot = held(points, resolution, j, k);
    lemma_held_unreached(points, resolution, j, k);
    lemma_held_is_candidate(points, resolution, j, k);
    if slot is Some {
        assert forall|w: int| 0 <= w < k && #[trigger] proposes(points, resolution, w, j) implies level(
            slot->0,
        ) >= level(candidate(points, resolution, w, j)) by {
            lemma_held_dominates(points, resolution, j, k, w);
        }
    }
}

} // verus!
