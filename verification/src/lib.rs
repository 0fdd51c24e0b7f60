//! The core of an audio player that draws the spectrum of what it plays.
//!
//! Playback: a decoder feeder fills a bounded queue from a background thread, an
//! output callback drains it into the device buffer and taps every sample into a
//! second queue, and both follow one shared position counter through which seeks
//! are made. Analysis: windows of tapped samples become magnitude spectra, which the
//! post-processor scales, normalises, smooths over time and resamples to a curve of
//! fixed length.
//!
//! Everything here computes on integers: time in microseconds, frequencies in
//! millihertz, volumes and positions in millionths. Devices, files and the
//! floating-point transform are the caller's business.

pub mod analyzer;
pub mod callback;
pub mod feeder;
pub mod fixed;
pub mod icon;
pub mod player;
pub mod position;
pub mod renderer;
pub mod resample;
pub mod ring;
pub mod spectrometer;
pub mod timeline;
pub mod vertex;
