use std::io::Cursor;

use apodize::hamming_iter;
use hound::{WavReader, WavSpec, WavWriter};
use iced_audio_player::analyzer::WINDOW_SIZE;
use iced_audio_player::feeder::{Feeder, FeederAction, FeederPlan, ReadOutcome};
use iced_audio_player::player::{ConfigRange, Player, SampleFormat, Session, SourceInfo};
use iced_audio_player::spectrometer::Spectrometer;
use rustfft::num_complex::Complex;
use rustfft::FftPlanner;

type Reader = WavReader<Cursor<Vec<u8>>>;

fn sine_wav(frames: u32, hertz: f64, amplitude: f64) -> Vec<u8> {
    let spec = WavSpec {
        channels: 2,
        sample_rate: 44100,
        bits_per_sample: 16,
        sample_format: hound::SampleFormat::Int,
    };
    let mut cursor = Cursor::new(Vec::new());
    let mut writer = WavWriter::new(&mut cursor, spec).unwrap();
    for n in 0..frames {
        let t = f64::from(n) / 44100.0;
        let value = (amplitude * (2.0 * std::f64::consts::PI * hertz * t).sin()) as i16;
        writer.write_sample(value).unwrap();
        writer.write_sample(value).unwrap();
    }
    writer.finalize().unwrap();
    cursor.into_inner()
}

fn ramp_wav(frames: u32) -> Vec<u8> {
    let spec = WavSpec {
        channels: 2,
        sample_rate: 44100,
        bits_per_sample: 16,
        sample_format: hound::SampleFormat::Int,
    };
    let mut cursor = Cursor::new(Vec::new());
    let mut writer = WavWriter::new(&mut cursor, spec).unwrap();
    for n in 0..frames {
        writer.write_sample((n % 30000) as i16).unwrap();
        writer.write_sample(-((n % 30000) as i16)).unwrap();
    }
    writer.finalize().unwrap();
    cursor.into_inner()
}

fn open(bytes: Vec<u8>) -> (Player, Session, Reader) {
    let reader = WavReader::new(Cursor::new(bytes)).unwrap();
    let spec = reader.spec();
    let source = SourceInfo {
        sample_rate: spec.sample_rate,
        channels: spec.channels,
        total_frames: reader.duration(),
    };
    let configs = vec![ConfigRange {
        format: SampleFormat::Float32,
        min_sample_rate: 8000,
        max_sample_rate: 192_000,
        channels: 2,
    }];
    let mut player = Player::new();
    let session = match player.load_file(Some(source), &configs) {
        Ok(session) => session,
        Err(e) => panic!("load failed: {}", e.describe()),
    };
    (player, session, reader)
}

fn read_samples(reader: &mut Reader, count: usize) -> ReadOutcome {
    let mut samples: Vec<i16> = Vec::with_capacity(count);
    for sample in reader.samples::<i16>().take(count) {
        match sample {
            Ok(value) => samples.push(value),
            Err(_) => return ReadOutcome::Failed,
        }
    }
    if samples.is_empty() {
        ReadOutcome::Exhausted
    } else {
        ReadOutcome::Samples(samples)
    }
}

/// One round of the feeder against the reader; `None` while it waits.
fn feed_once(feeder: &mut Feeder, reader: &mut Reader) -> Option<FeederAction> {
    match feeder.plan() {
        FeederPlan::Stop => Some(FeederAction::Finished),
        FeederPlan::Wait => None,
        FeederPlan::Read { count, .. } => {
            let action = feeder.deliver(read_samples(reader, count));
            if let FeederAction::Reseek(frame) = action {
                reader.seek(frame).unwrap();
            }
            Some(action)
        }
    }
}

fn magnitudes(window: &[i16]) -> Vec<Option<u32>> {
    let fft = FftPlanner::<f32>::new().plan_fft_forward(WINDOW_SIZE);
    let mut buffer: Vec<Complex<f32>> = window
        .iter()
        .zip(hamming_iter(WINDOW_SIZE))
        .map(|(sample, weight)| Complex::new(weight as f32 * f32::from(*sample), 0f32))
        .collect();
    fft.process(&mut buffer);
    buffer
        .iter()
        .map(|c| {
            let norm = c.norm();
            if norm.is_nan() {
                None
            } else {
                Some(norm.round() as u32)
            }
        })
        .collect()
}

fn log_volume(magnitude: Option<u32>) -> Option<i64> {
    let log = (magnitude? as f32 + 1.0).log10();
    if log.is_nan() {
        None
    } else {
        Some((f64::from(log) * 1_000_000.0).round() as i64)
    }
}

#[test]
fn a_tone_shows_up_at_its_bin_and_at_its_place_on_the_curve() {
    let (mut player, session, mut reader) = open(sine_wav(44100, 1000.0, 10000.0));
    let Session { mut feeder, mut callback, .. } = session;
    assert_eq!(player.get_duration(), 1_000_000);

    let mut device = vec![0i16; 1024];
    let mut window = None;
    for _ in 0..16 {
        let _ = feed_once(&mut feeder, &mut reader);
        callback.run(&mut device);
        window = player.take_window();
        if window.is_some() {
            break;
        }
    }
    let window = window.expect("no window after sixteen rounds");
    assert_eq!(window.len(), WINDOW_SIZE);

    player.update_spectrum(magnitudes(&window));
    let spectrum = player.get_fft_spectrum();
    assert_eq!(spectrum.values.len(), 929);
    assert_eq!(spectrum.bin_size, 21533);
    let peak = (0..929).max_by_key(|i| spectrum.values[*i].unwrap()).unwrap();
    assert!((45..=47).contains(&peak), "peak at bin {peak}");
    assert!(spectrum.values[peak].unwrap() > 1_000_000);

    let logs: Vec<Option<i64>> = spectrum.values.iter().map(|m| log_volume(*m)).collect();
    let mut spectrometer = Spectrometer::new(2000);
    let mut curve = Vec::new();
    for _ in 0..40 {
        curve = spectrometer.generate_spectrum(spectrum, &logs, 16_000);
    }
    assert_eq!(curve.len(), 2000);
    let top = (0..2000).max_by_key(|j| curve[*j]).unwrap();
    assert!((420..=470).contains(&top), "curve peaks at slot {top}");
    assert!(curve[top] > 700_000 && curve[top] < 1_300_000);
}

#[test]
fn a_source_is_played_from_start_to_end_and_then_the_feeder_finishes() {
    let (player, session, mut reader) = open(ramp_wav(5000));
    let Session { mut feeder, mut callback, .. } = session;
    let mut played: Vec<i16> = Vec::new();
    let mut device = vec![0i16; 512];
    let mut finished = false;
    for _ in 0..64 {
        if !finished {
            if let Some(FeederAction::Finished) = feed_once(&mut feeder, &mut reader) {
                finished = true;
            }
        }
        callback.run(&mut device);
        played.extend_from_slice(&device);
    }
    assert!(finished);
    assert!(!player.is_stalled());
    for n in 0..5000usize {
        assert_eq!(played[2 * n], n as i16);
        assert_eq!(played[2 * n + 1], -(n as i16));
    }
    assert!(played[10000..].iter().all(|v| *v == 0));
}

#[test]
fn after_a_seek_the_decoder_reads_from_the_new_position() {
    let (mut player, session, mut reader) = open(ramp_wav(20000));
    let Session { mut feeder, mut callback, .. } = session;
    let mut device = vec![0i16; 4096];

    assert!(matches!(feed_once(&mut feeder, &mut reader), Some(FeederAction::Continue)));
    callback.run(&mut device);
    assert_eq!(device[0], 0);
    assert_eq!(device[4094], 2047);

    // 250 ms at 44.1 kHz is frame 11025.
    let _ = feeder.plan();
    player.set_position(250_000);
    let stale = feeder.deliver(read_samples(&mut reader, 4096));
    assert!(matches!(stale, FeederAction::Reseek(11025)));
    reader.seek(11025).unwrap();
    callback.run(&mut device);

    assert!(matches!(feed_once(&mut feeder, &mut reader), Some(FeederAction::Continue)));
    callback.run(&mut device);
    assert_eq!(device[0], 11025);
    assert_eq!(device[1], -11025);
    assert_eq!(device[4094], 11025 + 2047);
}
