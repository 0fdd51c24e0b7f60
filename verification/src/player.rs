//! The playback control surface: loading a source, play and pause, seeking,
//! position and duration, and the cached spectrum snapshot.
//!
//! The player owns no device and no decoder. `load_file` takes what the decoder
//! reported about the source and what the device offers, and hands back the two
//! halves of the session for whoever runs the feeder thread and the device stream.

use vstd::prelude::*;
use rtrb::Consumer;
use crate::analyzer::{
    bin_size, lemma_output_len_is_least, output_len, reaches_audible_range, snapshot_len,
    spec_bin_size, spec_output_len, spec_snapshot_len, truncate_spectrum, truncated, FftSpectrum,
    WINDOW_SIZE,
};
use crate::callback::OutputCallback;
use crate::feeder::Feeder;
use crate::position::{PlaybackPosition, StallFlag};
use crate::ring::{consumer_capacity, consumer_slots, new_ring, pop_window};
use crate::timeline::{
    forward_target, frames_to_micros, micros_to_frames, spec_forward_target,
    spec_frames_to_micros, spec_micros_to_frames,
};

verus! {

/// Capacity of the input queue and of the analysis queue, in samples.
pub const RING_CAPACITY: usize = 12_288;

/// What the decoder reports about a source.
#[derive(Clone, Copy, Debug)]
pub struct SourceInfo {
    pub sample_rate: u32,
    pub channels: u16,
    pub total_frames: u32,
}

/// The sample formats that a device may offer.
#[derive(Clone, Copy, Debug)]
pub enum SampleFormat {
    Int8,
    Int16,
    Int32,
    Int64,
    Uint8,
    Uint16,
    Uint32,
    Uint64,
    Float32,
    Float64,
}

/// One range of stream configurations that a device offers.
#[derive(Clone, Copy, Debug)]
pub struct ConfigRange {
    pub format: SampleFormat,
    pub min_sample_rate: u32,
    pub max_sample_rate: u32,
    pub channels: u16,
}

/// Why a load failed.
#[derive(Clone, Copy, Debug)]
pub enum LoadError {
    /// The source could not be opened or decoded.
    UnreadableSource,
    /// The source reports a sample rate or a channel count of zero.
    InvalidFormat,
    /// The device offers no configuration that fits the source.
    NoCompatibleConfig,
}

/// The two halves of a playback session, and the index of the device configuration
/// that was chosen for it.
pub struct Session {
    pub feeder: Feeder,
    pub callback: OutputCallback,
    pub config_index: usize,
}

/// What can be seen of a player.
pub struct PlayerView {
    pub sample_rate: u32,
    pub channels: u16,
    pub streaming: bool,
    pub playing: bool,
    pub duration: u32,
    pub output_len: usize,
    pub spectrum: Seq<Option<u32>>,
    pub bin_size: u32,
}

/// A source that can be played: it has a sample rate and at least one channel.
pub open spec fn playable(info: SourceInfo) -> bool {
    info.sample_rate > 0 && info.channels > 0
}

/// The range offers 32-bit float samples at the given rate and channel count.
pub open spec fn supports(range: ConfigRange, sample_rate: u32, channels: u16) -> bool {
    &&& range.format is Float32
    &&& range.min_sample_rate <= sample_rate <= range.max_sample_rate
    &&& range.channels == channels
}

/// `i` is the first range that supports the given rate and channel count.
pub open spec fn first_supported(
    configs: Seq<ConfigRange>,
    sample_rate: u32,
    channels: u16,
    i: int,
) -> bool {
    &&& 0 <= i < configs.len()
    &&& supports(configs[i], sample_rate, channels)
    &&& forall|k: int| 0 <= k < i ==> !supports(#[trigger] configs[k], sample_rate, channels)
}

/// No range supports the given rate and channel count.
pub open spec fn none_supported(configs: Seq<ConfigRange>, sample_rate: u32, channels: u16)
    -> bool {
    forall|k: int| 0 <= k < configs.len() ==> !supports(#[trigger] configs[k], sample_rate, channels)
}

/// The error with which a load fails, or `None` where it succeeds.
pub open spec fn load_failure(source: Option<SourceInfo>, configs: Seq<ConfigRange>) -> Option<
    LoadError,
> {
    match source {
        None => Some(LoadError::UnreadableSource),
        Some(info) => if !playable(info) {
            Some(LoadError::InvalidFormat)
        } else if none_supported(configs, info.sample_rate, info.channels) {
            Some(LoadError::NoCompatibleConfig)
        } else {
            None
        },
    }
}

/// What a player shows after loading `info`: the source's format and length, a
/// stream that exists but is paused, and a silent snapshot of the length and bin
/// width that belong to the new rate.
pub open spec fn loaded_view(info: SourceInfo) -> PlayerView {
    PlayerView {
        sample_rate: info.sample_rate,
        channels: info.channels,
        streaming: true,
        playing: false,
        duration: info.total_frames,
        output_len: spec_output_len(info.sample_rate) as usize,
        spectrum: Seq::new(spec_snapshot_len(info.sample_rate) as nat, |i: int| Some(0u32)),
        bin_size: spec_bin_size(info.sample_rate) as u32,
    }
}

/// Whether enough samples are buffered to analyse one window.
pub open spec fn spec_window_ready(slots: usize) -> bool {
    slots >= WINDOW_SIZE
}

/// Whether a range offers 32-bit float samples at the given rate and channel count.
pub fn range_supports(range: &ConfigRange, sample_rate: u32, channels: u16) -> (fits: bool)
    ensures
        fits == supports(*range, sample_rate, channels),
{
    let float32 = match range.format {
        SampleFormat::Float32 => true,
        _ => false,
    };
    float32 && range.min_sample_rate <= sample_rate && sample_rate <= range.max_sample_rate
        && range.channels == channels
}

/// Finds the first range that supports the given rate and channel count.
pub fn select_config(configs: &Vec<ConfigRange>, sample_rate: u32, channels: u16) -> (chosen:
    Option<usize>)
    ensures
        match chosen {
            Some(i) => first_supported(configs@, sample_rate, channels, i as int),
            None => none_supported(configs@, sample_rate, channels),
        },
{
    let mut i: usize = 0;
    while i < configs.len()
        invariant
            i <= configs@.len(),
            forall|k: int| 0 <= k < i ==> !supports(#[trigger] configs@[k], sample_rate, channels),
        decreases configs@.len() - i,
    {
        if range_supports(&configs[i], sample_rate, channels) {
            return Some(i);
        }
        i = i + 1;
    }
    None
}

/// Whether enough samples are buffered to analyse one window.
pub fn window_ready(slots: usize) -> (ready: bool)
    ensures
        ready == spec_window_ready(slots),
{
    slots >= WINDOW_SIZE
}

impl LoadError {
    /// A sentence that says what went wrong.
    pub fn describe(&self) -> (text: &'static str)
        ensures
            text@.len() > 0,
    {
        let text = match self {
            LoadError::UnreadableSource => "the source could not be read",
            LoadError::InvalidFormat => "the source reports no sample rate or no channels",
            LoadError::NoCompatibleConfig => "the device offers no compatible configuration",
        };
        proof {
            reveal_strlit("the source could not be read");
            reveal_strlit("the source reports no sample rate or no channels");
            reveal_strlit("the device offers no compatible configuration");
        }
        text
    }
}

/// The playback control surface.
pub struct Player {
    sample_rate: u32,
    channels: u16,
    streaming: bool,
    is_playing: bool,
    position: PlaybackPosition,
    stall: StallFlag,
    duration: u32,
    output_len: usize,
    fft_output: FftSpectrum,
    buffer_consumer: Option<Consumer<i16>>,
}

impl Player {
    /// What can be seen of the player.
    pub closed spec fn view(&self) -> PlayerView {
        PlayerView {
            sample_rate: self.sample_rate,
            channels: self.channels,
            streaming: self.streaming,
            playing: self.is_playing,
            duration: self.duration,
            output_len: self.output_len,
            spectrum: self.fft_output.values@,
            bin_size: self.fft_output.bin_size,
        }
    }

    /// The player holds an analysis queue exactly while it is streaming.
    pub closed spec fn holds_queue(&self) -> bool {
        self.buffer_consumer is Some
    }

    /// The number of slots of the analysis queue, where the player holds one.
    pub closed spec fn analysis_capacity(&self) -> Option<usize> {
        match self.buffer_consumer {
            Some(consumer) => Some(consumer_capacity(consumer)),
            None => None,
        }
    }

    /// The source has a sample rate and a channel, and the analysis queue exists
    /// exactly while streaming. While streaming, the snapshot has the length and the
    /// bin width that belong to the sample rate; while nothing is loaded, it is the
    /// empty spectrum, a full window of zeros with a zero bin width.
    pub open spec fn wf(&self) -> bool {
        &&& self@.sample_rate > 0
        &&& self@.channels > 0
        &&& self.holds_queue() == self@.streaming
        &&& self@.streaming ==> {
            &&& self.analysis_capacity() == Some(RING_CAPACITY)
            &&& self@.output_len == spec_output_len(self@.sample_rate)
            &&& self@.spectrum.len() == spec_snapshot_len(self@.sample_rate)
            &&& self@.bin_size == spec_bin_size(self@.sample_rate)
        }
        &&& !self@.streaming ==> {
            &&& self@.output_len == WINDOW_SIZE
            &&& self@.spectrum == Seq::new(WINDOW_SIZE as nat, |i: int| Some(0u32))
            &&& self@.bin_size == 0
        }
    }

    /// The player with its playing flag set to `playing` and nothing else changed.
    pub closed spec fn with_playing(self, playing: bool) -> Player {
        Player { is_playing: playing, ..self }
    }

    /// The player after `play`: playing if there is a stream, else unchanged.
    pub open spec fn resumed(self) -> Player {
        if self@.streaming {
            self.with_playing(true)
        } else {
            self
        }
    }

    /// The player after `pause`: not playing if there is a stream, else unchanged.
    pub open spec fn paused(self) -> Player {
        if self@.streaming {
            self.with_playing(false)
        } else {
            self
        }
    }

    /// A player with nothing loaded: 44.1 kHz stereo, no stream, not playing, no
    /// duration, and the empty spectrum, a full window of zeros with a zero bin
    /// width.
    pub fn new() -> (player: Player)
        ensures
            player.wf(),
            player@ == (PlayerView {
                sample_rate: 44100,
                channels: 2,
                streaming: false,
                playing: false,
                duration: 0,
                output_len: WINDOW_SIZE,
                spectrum: Seq::new(WINDOW_SIZE as nat, |i: int| Some(0u32)),
                bin_size: 0,
            }),
    {
        Player {
            sample_rate: 44100,
            channels: 2,
            streaming: false,
            is_playing: false,
            position: PlaybackPosition::new(),
            stall: StallFlag::new(),
            duration: 0,
            output_len: WINDOW_SIZE,
            fft_output: FftSpectrum::empty(),
            buffer_consumer: None,
        }
    }

    /// Loads a source. `source` is what the decoder reported, or `None` where the
    /// file could not be opened; `configs` is what the device offers. On success
    /// the position starts at zero on a fresh counter, both queues are fresh and
    /// have `RING_CAPACITY` slots, the snapshot is silent and has the length that
    /// belongs to the new sample rate, the stream exists and is paused, and the
    /// session's two halves are handed out together with the index of the first
    /// configuration that fits. On failure the player is left exactly as it was.
    pub fn load_file(&mut self, source: Option<SourceInfo>, configs: &Vec<ConfigRange>) -> (result:
        Result<Session, LoadError>)
        requires
            old(self).wf(),
        ensures
            final(self).wf(),
            match result {
                Ok(session) => {
                    &&& load_failure(source, configs@) is None
                    &&& final(self)@ == loaded_view(source->0)
                    &&& final(self)@.spectrum.len() == spec_snapshot_len(source->0.sample_rate)
                    &&& reaches_audible_range(
                        source->0.sample_rate,
                        final(self)@.output_len as int,
                    )
                    &&& first_supported(
                        configs@,
                        source->0.sample_rate,
                        source->0.channels,
                        session.config_index as int,
                    )
                    &&& session.feeder.wf()
                    &&& session.feeder.pending() is None
                    &&& session.feeder.spec_channels() == source->0.channels
                    &&& session.feeder.queue_capacity() == RING_CAPACITY
                    &&& session.callback.wf()
                    &&& session.callback.spec_dropped() == 0
                    &&& session.callback.spec_channels() == source->0.channels
                    &&& session.callback.input_capacity() == RING_CAPACITY
                    &&& session.callback.tap_capacity() == RING_CAPACITY
                    &&& final(self).analysis_capacity() == Some(RING_CAPACITY)
                },
                Err(e) => {
                    &&& load_failure(source, configs@) == Some(e)
                    &&& *final(self) == *old(self)
                },
            },
    {
        let info = match source {
            None => {
                return Err(LoadError::UnreadableSource);
            },
            Some(info) => info,
        };
        if info.sample_rate == 0 || info.channels == 0 {
            return Err(LoadError::InvalidFormat);
        }
        let config_index = match select_config(configs, info.sample_rate, info.channels) {
            None => {
                return Err(LoadError::NoCompatibleConfig);
            },
            Some(i) => i,
        };
        let (input_producer, input_consumer) = new_ring(RING_CAPACITY);
        let (output_producer, output_consumer) = new_ring(RING_CAPACITY);
        let position = PlaybackPosition::new();
        let stall = StallFlag::new();
        let feeder = Feeder::new(position.share(), stall.share(), input_producer, info.channels);
        let callback = OutputCallback::new(
            position.share(),
            input_consumer,
            output_producer,
            info.channels,
        );
        self.sample_rate = info.sample_rate;
        self.channels = info.channels;
        self.duration = info.total_frames;
        self.position = position;
        self.stall = stall;
        self.output_len = output_len(info.sample_rate);
        self.fft_output = FftSpectrum::silent(
            snapshot_len(info.sample_rate),
            bin_size(info.sample_rate),
        );
        self.buffer_consumer = Some(output_consumer);
        self.streaming = true;
        self.is_playing = false;
        Ok(Session { feeder, callback, config_index })
    }

    /// Starts or resumes playback. Returns whether there is a stream to start; the
    /// position and the queues are not touched.
    pub fn play(&mut self) -> (start: bool)
        ensures
            start == old(self)@.streaming,
            *final(self) == old(self).resumed(),
            final(self)@ == (PlayerView {
                playing: old(self)@.playing || old(self)@.streaming,
                ..old(self)@
            }),
            old(self).wf() ==> final(self).wf(),
    {
        if self.streaming {
            self.is_playing = true;
        }
        self.streaming
    }

    /// Pauses playback. Returns whether there is a stream to pause; the position
    /// and the queues are not touched.
    pub fn pause(&mut self) -> (stop: bool)
        ensures
            stop == old(self)@.streaming,
            *final(self) == old(self).paused(),
            final(self)@ == (PlayerView {
                playing: old(self)@.playing && !old(self)@.streaming,
                ..old(self)@
            }),
            old(self).wf() ==> final(self).wf(),
    {
        if self.streaming {
            self.is_playing = false;
        }
        self.streaming
    }

    /// Seeks to `micros` microseconds: stores the frame that plays then into the
    /// shared position and returns it. Neither queue is flushed and the player
    /// itself is unchanged.
    pub fn set_position(&mut self, micros: u64) -> (frame: u32)
        ensures
            frame == spec_micros_to_frames(micros, old(self)@.sample_rate),
            *final(self) == *old(self),
    {
        let frame = micros_to_frames(micros, self.sample_rate);
        self.position.seek(frame);
        frame
    }

    /// Seeks relative to the current position: `micros` microseconds forward, or
    /// backward where it is negative, never before the start. Returns the frame
    /// that the position held and the frame stored in its place, which is
    /// `spec_forward_target` of the former. The player itself is unchanged.
    pub fn forward(&mut self, micros: i64) -> (moved: (u32, u32))
        ensures
            moved.1 == spec_forward_target(moved.0, micros, old(self)@.sample_rate),
            *final(self) == *old(self),
    {
        let current = self.position.frames();
        let frame = forward_target(current, micros, self.sample_rate);
        self.position.seek(frame);
        (current, frame)
    }

    /// The playback position in microseconds: the time of whatever frame the shared
    /// position holds at the moment.
    pub fn get_position(&self) -> (micros: u64)
        requires
            self.wf(),
        ensures
            exists|frame: u32| micros == spec_frames_to_micros(frame, self@.sample_rate),
    {
        let frame = self.position.frames();
        frames_to_micros(frame, self.sample_rate)
    }

    /// The length of the loaded source in microseconds.
    pub fn get_duration(&self) -> (micros: u64)
        requires
            self.wf(),
        ensures
            micros == spec_frames_to_micros(self@.duration, self@.sample_rate),
    {
        frames_to_micros(self.duration, self.sample_rate)
    }

    /// Whether playback is running.
    pub fn is_playing(&self) -> (playing: bool)
        ensures
            playing == self@.playing,
    {
        self.is_playing
    }

    /// Whether a source is loaded and its stream exists.
    pub fn is_streaming(&self) -> (streaming: bool)
        ensures
            streaming == self@.streaming,
    {
        self.streaming
    }

    /// Whether the feeder of the current session has reported a decode failure.
    pub fn is_stalled(&self) -> (stalled: bool) {
        self.stall.is_raised()
    }

    /// The sample rate of the loaded source.
    pub fn sample_rate(&self) -> (rate: u32)
        ensures
            rate == self@.sample_rate,
    {
        self.sample_rate
    }

    /// Takes one analysis window out of the analysis queue: exactly `WINDOW_SIZE`
    /// samples, or `None` where there is no stream or fewer samples are buffered.
    /// What the player shows does not change.
    pub fn take_window(&mut self) -> (window: Option<Vec<i16>>)
        requires
            old(self).wf(),
        ensures
            final(self).wf(),
            final(self)@ == old(self)@,
            window matches Some(w) ==> w@.len() == WINDOW_SIZE && old(self)@.streaming,
    {
        match &mut self.buffer_consumer {
            None => None,
            Some(consumer) => {
                if window_ready(consumer_slots(consumer)) {
                    pop_window(consumer, WINDOW_SIZE)
                } else {
                    None
                }
            },
        }
    }

    /// Replaces the cached spectrum by the magnitudes of one transformed window, cut
    /// to the bins below the highest audible frequency, with the bin width that
    /// belongs to the sample rate. The snapshot keeps its length. While nothing is
    /// loaded there is nothing to analyse, and the player is left as it is.
    pub fn update_spectrum(&mut self, magnitudes: Vec<Option<u32>>)
        requires
            old(self).wf(),
            magnitudes@.len() == WINDOW_SIZE,
        ensures
            final(self).wf(),
            old(self)@.streaming ==> {
                &&& final(self)@ == (PlayerView {
                    spectrum: truncated(magnitudes@, old(self)@.output_len as int),
                    bin_size: spec_bin_size(old(self)@.sample_rate) as u32,
                    ..old(self)@
                })
                &&& final(self)@.spectrum.len() == spec_snapshot_len(old(self)@.sample_rate)
            },
            !old(self)@.streaming ==> *final(self) == *old(self),
    {
        if self.streaming {
            self.fft_output.values = truncate_spectrum(magnitudes, self.output_len);
            self.fft_output.bin_size = bin_size(self.sample_rate);
        }
    }

    /// The cached spectrum: the one of the last window analysed, a silent one where
    /// none has been analysed since the load, and the empty spectrum while nothing
    /// is loaded. After a load its length depends on the sample rate and the window
    /// size alone.
    pub fn get_fft_spectrum(&self) -> (spectrum: &FftSpectrum)
        ensures
            spectrum.values@ == self@.spectrum,
            spectrum.bin_size == self@.bin_size,
            self.wf() && self@.streaming ==> spectrum.values@.len() == spec_snapshot_len(
                self@.sample_rate,
            ),
            self.wf() && !self@.streaming ==> {
                &&& spectrum.values@ == Seq::new(WINDOW_SIZE as nat, |i: int| Some(0u32))
                &&& spectrum.bin_size == 0
            },
    {
        &self.fft_output
    }
}

/// A pause followed at once by a play leaves a playing stream exactly as it was:
/// position handle, queues, format and spectrum included. In between it is paused.
pub proof fn lemma_pause_then_play(player: Player)
    requires
        player@.streaming,
        player@.playing,
    ensures
        player.paused().resumed() == player,
        player.paused()@ == (PlayerView { playing: false, ..player@ }),
{
}

/// Once a source is loaded, the length of a snapshot depends on the sample rate and
/// the window size alone: any two players that stream at the same rate hold
/// snapshots of the same length, whatever they have played or analysed. It is the
/// number of bins below the highest audible frequency, which is the least number of
/// exact bin widths that reach it, and never more than a window.
pub proof fn lemma_snapshot_length_by_rate(first: Player, second: Player)
    requires
        first.wf(),
        second.wf(),
        first@.streaming,
        second@.streaming,
        first@.sample_rate == second@.sample_rate,
    ensures
        first@.spectrum.len() == second@.spectrum.len(),
        first@.spectrum.len() == spec_snapshot_len(first@.sample_rate),
        0 < first@.spectrum.len() <= WINDOW_SIZE,
        first@.spectrum.len() < WINDOW_SIZE ==> reaches_audible_range(
            first@.sample_rate,
            first@.spectrum.len() as int,
        ),
{
    lemma_output_len_is_least(first@.sample_rate);
}

} // verus!
