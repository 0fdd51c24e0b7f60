use iced_audio_player::analyzer::{
    bin_size, output_len, snapshot_len, truncate_spectrum, FftSpectrum, WINDOW_SIZE,
};
use iced_audio_player::fixed::{floor_div, isqrt};
use iced_audio_player::renderer::get_indices;
use iced_audio_player::resample::{cubic, lerp_frequency, level_of, resample, slot_of};
use iced_audio_player::spectrometer::{smooth, Spectrometer, SMOOTHING_SPEED};
use iced_audio_player::vertex::{
    apply_logarithmic_scaling, apply_normalised_positioning, build_vertices, FrequencyVertex,
    VOLUME_CEILING,
};

fn vertex(frequency: u64, volume: Option<i64>, position: u64) -> FrequencyVertex {
    FrequencyVertex { frequency, volume, position }
}

fn triples(curve: &[FrequencyVertex]) -> Vec<(u64, Option<i64>, u64)> {
    curve.iter().map(|v| (v.frequency, v.volume, v.position)).collect()
}

#[test]
fn bin_width_and_snapshot_length_at_cd_rate() {
    assert_eq!(WINDOW_SIZE, 4096);
    assert_eq!(bin_size(44100), 21533);
    assert_eq!(output_len(44100), 929);
}

#[test]
fn snapshot_length_at_other_rates() {
    assert_eq!(output_len(48000), 854);
    assert_eq!(output_len(40_960_000), 1);
    assert_eq!(output_len(1), 40_960_000);
    assert_eq!(output_len(u32::MAX), 1);
    assert_eq!(bin_size(0), 0);
    assert_eq!(bin_size(u32::MAX), 2_097_151_999);
}

#[test]
fn snapshot_length_is_the_audible_bins_and_at_most_a_window() {
    assert_eq!(snapshot_len(44100), 929);
    assert_eq!(snapshot_len(48000), 854);
    assert_eq!(snapshot_len(10000), 4096);
    assert_eq!(snapshot_len(8000), 4096);
    assert_eq!(snapshot_len(1), 4096);
    assert_eq!(snapshot_len(u32::MAX), 1);
}

#[test]
fn empty_spectrum_is_a_window_of_zeros() {
    let s = FftSpectrum::empty();
    assert_eq!(s.values.len(), 4096);
    assert!(s.values.iter().all(|v| *v == Some(0)));
    assert_eq!(s.bin_size, 0);
    let t = FftSpectrum::silent(3, 21533);
    assert_eq!(t.values, vec![Some(0), Some(0), Some(0)]);
    assert_eq!(t.bin_size, 21533);
}

#[test]
fn truncation_keeps_the_front() {
    let m = vec![Some(1), None, Some(3), Some(4)];
    assert_eq!(truncate_spectrum(m.clone(), 2), vec![Some(1), None]);
    assert_eq!(truncate_spectrum(m.clone(), 4), m);
    assert_eq!(truncate_spectrum(m.clone(), 9), m);
    assert_eq!(truncate_spectrum(m, 0), Vec::<Option<u32>>::new());
}

#[test]
fn integer_square_roots() {
    assert_eq!(isqrt(0), 0);
    assert_eq!(isqrt(1), 1);
    assert_eq!(isqrt(3), 1);
    assert_eq!(isqrt(4), 2);
    assert_eq!(isqrt(2_000_000_000_000), 1_414_213);
    assert_eq!(isqrt(25_000_000_000_000_000_000), 5_000_000_000);
    assert_eq!(isqrt(u128::MAX), u64::MAX);
}

#[test]
fn division_rounds_towards_negative_infinity() {
    assert_eq!(floor_div(7, 2), 3);
    assert_eq!(floor_div(-7, 2), -4);
    assert_eq!(floor_div(-8, 2), -4);
    assert_eq!(floor_div(-1, 1_000_000), -1);
    assert_eq!(floor_div(0, 5), 0);
}

#[test]
fn smoothing_step_is_the_discrete_update() {
    assert_eq!(SMOOTHING_SPEED, 7);
    assert_eq!(smooth(0, Some(1_000_000), 100_000, 7), 700_000);
    assert_eq!(smooth(1_000_000, Some(0), 100_000, 7), 300_000);
    assert_eq!(smooth(100, Some(1000), 1_000_000, 7), 6400);
}

#[test]
fn smoothing_rounds_the_step_down() {
    assert_eq!(smooth(10, Some(0), 1, 7), 9);
    assert_eq!(smooth(0, Some(10), 1, 7), 0);
}

#[test]
fn smoothing_skips_what_is_not_a_number() {
    assert_eq!(smooth(5, None, 9, 7), 5);
    assert_eq!(smooth(-123, None, u32::MAX, 255), -123);
}

#[test]
fn smoothing_holds_the_state_within_its_limit() {
    assert_eq!(smooth(0, Some(9_000_000_000_000_000_000), 4_000_000_000, 255), 1_000_000_000_000);
    assert_eq!(smooth(0, Some(-9_000_000_000_000_000_000), 4_000_000_000, 255), -1_000_000_000_000);
}

#[test]
fn cubic_passes_through_the_middle_points() {
    assert_eq!(cubic(0, 100, 200, 300, 0, 4), 100);
    assert_eq!(cubic(0, 100, 200, 300, 4, 4), 200);
    assert_eq!(cubic(0, 100, 200, 300, 2, 4), 150);
    assert_eq!(cubic(10, -7, 3, 1, 1, 3), -7);
}

#[test]
fn zero_gap_is_evaluated_at_one_half() {
    assert_eq!(cubic(0, 100, 200, 300, 0, 0), 150);
    assert_eq!(cubic(900_000, 900_000, 100_000, 0, 0, 0), 512_500);
    assert_eq!(lerp_frequency(1000, 2001, 0, 0), 1500);
}

#[test]
fn frequency_is_interpolated_linearly() {
    assert_eq!(lerp_frequency(1000, 2000, 1, 4), 1250);
    assert_eq!(lerp_frequency(1000, 2000, 0, 4), 1000);
    assert_eq!(lerp_frequency(1000, 2000, 4, 4), 2000);
    assert_eq!(lerp_frequency(u64::MAX, u64::MAX, 3, 7), u64::MAX);
}

#[test]
fn positions_map_to_slots() {
    assert_eq!(slot_of(0, 8), 0);
    assert_eq!(slot_of(500_000, 8), 4);
    assert_eq!(slot_of(999_999, 8), 7);
    assert_eq!(slot_of(1_000_000, 8), 8);
    assert_eq!(slot_of(577_350, 2000), 1154);
    assert_eq!(slot_of(1_000_000, 0), 0);
}

#[test]
fn level_of_a_missing_volume_is_zero() {
    assert_eq!(level_of(&vertex(1, None, 2)), 0);
    assert_eq!(level_of(&vertex(1, Some(-4), 2)), -4);
    let e = FrequencyVertex::empty();
    assert_eq!((e.frequency, e.volume, e.position), (0, Some(0), 0));
}

#[test]
fn resampling_fills_the_slots_between_control_points() {
    let points = vec![vertex(100, Some(400_000), 0), vertex(200, Some(800_000), 1_000_000)];
    let curve = resample(&points, 4);
    assert_eq!(
        triples(&curve),
        vec![
            (100, Some(400_000), 0),
            (125, Some(537_500), 0),
            (150, Some(700_000), 0),
            (175, Some(812_500), 0)
        ]
    );
}

#[test]
fn resampling_keeps_the_larger_of_two_proposals() {
    // The first window has zero length at slot 0 and proposes 725000 there; the
    // second starts at slot 0 and proposes 800000.
    let points = vec![
        vertex(100, Some(500_000), 0),
        vertex(200, Some(800_000), 0),
        vertex(300, Some(200_000), 500_000),
        vertex(400, Some(600_000), 1_000_000),
    ];
    let curve = resample(&points, 8);
    let volumes: Vec<i64> = curve.iter().map(level_of).collect();
    assert_eq!(
        volumes,
        vec![800_000, 673_437, 487_500, 307_812, 200_000, 243_750, 400_000, 556_250]
    );
    assert_eq!(curve[0].frequency, 200);
}

#[test]
fn resampling_never_replaces_by_a_smaller_proposal() {
    // The zero-length window proposes 512500 at slot 0; the next one only 100000.
    // Slots 1 to 3 get one proposal each, below zero; slots 4 to 7 get none.
    let points = vec![
        vertex(100, Some(900_000), 0),
        vertex(200, Some(100_000), 0),
        vertex(300, Some(0), 500_000),
    ];
    let curve = resample(&points, 8);
    assert_eq!(
        triples(&curve),
        vec![
            (150, Some(512_500), 0),
            (225, Some(-37_500), 0),
            (250, Some(-50_000), 0),
            (275, Some(-12_500), 0),
            (0, Some(0), 0),
            (0, Some(0), 0),
            (0, Some(0), 0),
            (0, Some(0), 0)
        ]
    );
}

#[test]
fn a_slot_holds_the_largest_proposal_even_where_all_are_negative() {
    // Three points of volume -8 at one half: the two windows propose -8 and -9 for
    // slot 2, and no window reaches the other slots.
    let points = vec![
        vertex(100, Some(-8_000_000), 500_000),
        vertex(200, Some(-8_000_000), 500_000),
        vertex(300, Some(-8_000_000), 500_000),
    ];
    let curve = resample(&points, 4);
    assert_eq!(
        triples(&curve),
        vec![(0, Some(0), 0), (0, Some(0), 0), (150, Some(-8_000_000), 0), (0, Some(0), 0)]
    );
    let wide = resample(&points, 80000);
    assert_eq!(wide.len(), 80000);
    assert_eq!((wide[40000].frequency, wide[40000].volume), (150, Some(-8_000_000)));
    assert!(wide
        .iter()
        .enumerate()
        .all(|(j, v)| j == 40000 || (v.frequency, v.volume) == (0, Some(0))));
}

#[test]
fn the_first_proposal_is_taken_whatever_its_volume() {
    let points = vec![
        vertex(100, Some(-8_000_000), 0),
        vertex(200, Some(-2_000_000), 0),
        vertex(300, Some(-8_000_000), 1_000_000),
    ];
    let curve = resample(&points, 4);
    assert_eq!(
        triples(&curve),
        vec![
            (200, Some(-2_000_000), 0),
            (225, Some(-3_031_250), 0),
            (250, Some(-5_250_000), 0),
            (275, Some(-7_343_750), 0)
        ]
    );
}

#[test]
fn resampling_skips_windows_with_a_missing_volume() {
    let points = vec![
        vertex(100, None, 0),
        vertex(200, Some(800_000), 500_000),
        vertex(300, Some(200_000), 1_000_000),
    ];
    let curve = resample(&points, 4);
    assert!(triples(&curve).iter().all(|t| *t == (0, Some(0), 0)));
}

#[test]
fn resampling_of_fewer_than_two_points_is_empty() {
    assert!(triples(&resample(&vec![], 3)).iter().all(|t| *t == (0, Some(0), 0)));
    let one = vec![vertex(100, Some(400_000), 0)];
    let curve = resample(&one, 4);
    assert_eq!(curve.len(), 4);
    assert!(triples(&curve).iter().all(|t| *t == (0, Some(0), 0)));
    assert_eq!(resample(&one, 0).len(), 0);
}

#[test]
fn resampling_ignores_windows_that_run_backwards() {
    let points = vec![
        vertex(100, Some(400_000), 500_000),
        vertex(200, Some(800_000), 250_000),
        vertex(300, Some(100_000), 1_000_000),
    ];
    let curve = resample(&points, 4);
    assert_eq!(
        triples(&curve),
        vec![(0, Some(0), 0), (200, Some(800_000), 0), (233, Some(633_333), 0), (266, Some(377_777), 0)]
    );
}

#[test]
fn vertices_are_built_scaled_and_normalised() {
    let spectrum = FftSpectrum {
        values: vec![Some(25_000_000), Some(0), Some(6_250_000), None],
        bin_size: 21533,
    };
    // The logarithms of 25000001, 1 and 6250001, and one for the bin without a
    // magnitude, which is not used.
    let logs = vec![Some(7_397_940), Some(0), Some(6_795_880), Some(5_000_000)];
    let mut v = build_vertices(&spectrum);
    assert_eq!(
        triples(&v),
        vec![
            (21533, Some(25_000_000), 0),
            (43066, Some(0), 1),
            (64599, Some(6_250_000), 2),
            (86132, None, 3)
        ]
    );
    apply_logarithmic_scaling(&mut v, &logs);
    assert_eq!(
        triples(&v),
        vec![
            (21533, Some(7_397_940), 0),
            (43066, Some(0), 1_000_000),
            (64599, Some(6_795_880), 1_414_213),
            (86132, None, 1_732_050)
        ]
    );
    apply_normalised_positioning(&mut v);
    assert_eq!(
        triples(&v),
        vec![
            (21533, Some(986_392), 0),
            (43066, Some(0), 577_350),
            (64599, Some(906_117), 816_496),
            (86132, None, 1_000_000)
        ]
    );
}

#[test]
fn scaling_takes_the_logarithm_it_is_given_and_the_root_of_the_position() {
    let mut v = vec![vertex(1, Some(9), 4), vertex(2, Some(9), 9), vertex(3, None, 16)];
    apply_logarithmic_scaling(&mut v, &vec![Some(1_000_000), None, Some(1_000_000)]);
    assert_eq!(
        triples(&v),
        vec![(1, Some(1_000_000), 2_000_000), (2, None, 3_000_000), (3, None, 4_000_000)]
    );
}

#[test]
fn normalising_divides_by_the_ceiling_and_tolerates_volumes_above_full_height() {
    assert_eq!(VOLUME_CEILING, 7_500_000);
    let mut v = vec![vertex(1, Some(7_500_000), 0)];
    apply_normalised_positioning(&mut v);
    assert_eq!(triples(&v), vec![(1, Some(1_000_000), 0)]);
    let mut w = vec![
        vertex(1, Some(15_000_000), 7),
        vertex(2, Some(7_499_999), 7),
        vertex(3, Some(-1), 14),
        vertex(4, Some(i64::MIN), 14),
        vertex(5, Some(i64::MAX), 14),
    ];
    apply_normalised_positioning(&mut w);
    assert_eq!(
        triples(&w),
        vec![
            (1, Some(2_000_000), 500_000),
            (2, Some(999_999), 500_000),
            (3, Some(-1), 1_000_000),
            (4, Some(-1_229_782_938_247_303_442), 1_000_000),
            (5, Some(1_229_782_938_247_303_440), 1_000_000)
        ]
    );
    let mut none: Vec<FrequencyVertex> = vec![];
    apply_normalised_positioning(&mut none);
    assert!(none.is_empty());
}

#[test]
fn generated_spectrum_follows_the_pipeline() {
    let mut s = Spectrometer::new(8);
    let spectrum = FftSpectrum {
        values: vec![Some(25_000_000), Some(0), Some(6_250_000), None],
        bin_size: 21533,
    };
    let logs = vec![Some(7_397_940), Some(0), Some(6_795_880), Some(5_000_000)];
    let curve = s.generate_spectrum(&spectrum, &logs, 100_000);
    assert_eq!(curve, vec![690_474, 488_123, 265_951, 83_422, 0, 310_116, 634_281, 396_425]);
    assert_eq!(s.smoothed(0), 690_474);
    assert_eq!(s.smoothed(1), 0);
    assert_eq!(s.smoothed(2), 634_281);
    assert_eq!(s.smoothed(3), 0);
    assert_eq!(s.smoothed(4), 0);
    assert_eq!(s.resolution(), 8);
}

#[test]
fn generated_spectrum_has_the_configured_length_whatever_the_input() {
    let mut s = Spectrometer::new(2000);
    for n in [0usize, 1, 2, 3, 929, 4096] {
        let spectrum = FftSpectrum { values: vec![Some(1234); n], bin_size: 21533 };
        let logs = vec![Some(3_091_667); n];
        assert_eq!(s.generate_spectrum(&spectrum, &logs, 16_000).len(), 2000);
    }
    let mut z = Spectrometer::new(0);
    let logs = vec![Some(0); 4096];
    assert_eq!(z.generate_spectrum(&FftSpectrum::empty(), &logs, 16_000).len(), 0);
}

#[test]
fn silence_in_gives_silence_out() {
    let mut s = Spectrometer::new(2000);
    let spectrum = FftSpectrum { values: vec![Some(0); 929], bin_size: 21533 };
    let logs = vec![Some(0); 929];
    for _ in 0..3 {
        let curve = s.generate_spectrum(&spectrum, &logs, 16_000);
        assert!(curve.iter().all(|v| *v == 0));
    }
    for i in 0..4096 {
        assert_eq!(s.smoothed(i), 0);
    }
}

#[test]
fn smoothing_state_follows_its_targets_and_keeps_the_rest() {
    let mut s = Spectrometer::new(6);
    let mut pre = vec![
        vertex(1, Some(100), 0),
        vertex(2, None, 500_000),
        vertex(3, Some(-100), 1_000_000),
    ];
    s.apply_smoothing(&mut pre, 1_000_000);
    assert_eq!(
        triples(&pre),
        vec![(1, Some(700), 0), (2, Some(0), 500_000), (3, Some(-700), 1_000_000)]
    );
    s.apply_smoothing(&mut pre, 100_000);
    assert_eq!(s.smoothed(0), 700);
    assert_eq!(s.smoothed(1), 0);
    assert_eq!(s.smoothed(2), -700);
    assert_eq!(s.smoothed(3), 0);
    let curve = s.get_interpolated_vertices(pre);
    assert_eq!(curve.len(), 6);
}

#[test]
fn index_buffer_lists_three_corners_per_column() {
    assert_eq!(get_indices(0), Vec::<u32>::new());
    assert_eq!(get_indices(1), vec![0, 2, 1]);
    assert_eq!(get_indices(3), vec![0, 2, 1, 2, 4, 3, 4, 6, 5]);
}
