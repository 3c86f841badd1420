//! The audio sink: how it is opened, what a write and a flush have to do,
//! and its volume.
//!
//! The sink owns the writing end of the sample ring. The sound device and
//! the arithmetic on samples belong to the caller: the sink tells it what
//! to do with each decoded block.

use crate::audio::resampler::{Resampler, ResamplerState};
use crate::audio::ring::{
    advanced,
    pushed_part,
    ring_fits,
    sample_ring,
    RingReader,
    RingWriter,
};
use crate::audio::types::{AudioOutputError, SourceSpec, StreamConfig};
use crate::volume::{in_unit_range, is_full_volume, is_unity, is_valid_volume, UNITY};
use vstd::prelude::*;

verus! {

/// Milliseconds of sound that the sample ring holds.
pub const RING_MILLIS: u64 = 200;

/// What was found of the sound device before the sink is opened.
#[derive(Debug, Clone, Copy, PartialEq, Eq, Structural)]
pub enum DeviceProbe {
    /// There is no default output device.
    Missing,
    /// The device names no default configuration.
    Unconfigured,
    /// The device is there and will run at this many frames per second.
    Ready { sample_rate: u32 },
}

/// How building and starting the output stream went.
#[derive(Debug, Clone, Copy, PartialEq, Eq, Structural)]
pub enum StreamOutcome {
    /// The stream could not be built.
    BuildFailed,
    /// The stream was built and could not be started.
    StartFailed,
    /// The stream plays.
    Started,
}

/// What a write has to do with a decoded block.
#[derive(Debug, Clone, Copy, PartialEq, Eq, Structural)]
pub enum WritePlan {
    /// Nothing: the block is empty.
    Skip,
    /// Hand the block to the converter, which holds it back: nothing goes
    /// to the ring yet.
    Hold,
    /// Turn the block into interleaved samples, scale them and push them
    /// into the ring. With `blocks`, the block first goes to the converter,
    /// which converts that many of its blocks. With `gain`, every sample is
    /// multiplied by that volume; without, the samples pass as they are.
    Play { blocks: Option<u64>, gain: Option<u32> },
}

/// What a flush has to do before it pauses the output stream.
#[derive(Debug, Clone, Copy, PartialEq, Eq, Structural)]
pub struct FlushPlan {
    /// The number of silent frames to pad what the converter holds with,
    /// so that it converts one last block, whose samples go to the ring.
    pub padding: Option<u64>,
    /// The volume to multiply those samples by, unless they pass as they
    /// are.
    pub gain: Option<u32>,
}

/// The number of samples that the ring holds for a stream at `rate` frames
/// per second with `channels` samples per frame: those of 200 milliseconds,
/// the frames rounded down.
pub open spec fn ring_len_of(rate: u32, channels: u16) -> nat {
    (((RING_MILLIS * rate) / 1000) * channels) as nat
}

/// The configuration of the output stream: the channels of the source at
/// the rate of the device.
pub open spec fn config_of(spec: SourceSpec, device_rate: u32) -> StreamConfig {
    StreamConfig { channels: spec.channels, sample_rate: device_rate }
}

/// The multiplier for the samples at a volume: none at full volume.
pub open spec fn gain_of(volume: u32) -> Option<u32> {
    if is_unity(volume) {
        None
    } else {
        Some(volume)
    }
}

/// How the stream's outcome is reported: a stream that could not be built
/// as `OpenStreamError`, one that could not be started as
/// `PlayStreamError`.
pub open spec fn stream_verdict(outcome: StreamOutcome) -> Result<(), AudioOutputError> {
    match outcome {
        StreamOutcome::BuildFailed => Err(AudioOutputError::OpenStreamError),
        StreamOutcome::StartFailed => Err(AudioOutputError::PlayStreamError),
        StreamOutcome::Started => Ok(()),
    }
}

/// The mathematical content of an `AudioOutput`.
pub ghost struct SinkState {
    /// The configuration of the output stream.
    pub config: StreamConfig,
    /// The number of samples that the sink's ring was made to hold.
    pub ring_len: nat,
    /// The converter's accounting, if the device runs at another rate than
    /// the source.
    pub converter: Option<ResamplerState>,
    /// The volume, as a bit pattern.
    pub volume: u32,
    /// The samples that the sink has pushed into the ring, in order.
    pub pushed: Seq<u32>,
}

impl SinkState {
    /// Whether the volume lies between zero and one, the ring holds
    /// something, and the converter's accounting is in order.
    pub open spec fn valid(self) -> bool {
        &&& in_unit_range(self.volume)
        &&& self.ring_len > 0
        &&& self.converter matches Some(c) ==> c.valid()
    }

    /// Whether a sink can be opened for `spec` with first blocks of
    /// `duration` frames on a device as probed: the device is ready, the
    /// ring for it holds something and can be allocated, and a converter,
    /// where one is needed, has blocks of at least one frame.
    pub open spec fn can_open(spec: SourceSpec, duration: u64, device: DeviceProbe) -> bool {
        device matches DeviceProbe::Ready { sample_rate } && ring_fits(
            ring_len_of(sample_rate, spec.channels),
        ) && (spec.rate != sample_rate ==> duration > 0)
    }

    /// The sink as it is opened: at full volume, with a converter if the
    /// device runs at another rate than the source, and with nothing in
    /// the ring.
    pub open spec fn opened(spec: SourceSpec, duration: u64, device_rate: u32) -> SinkState {
        SinkState {
            config: config_of(spec, device_rate),
            ring_len: ring_len_of(device_rate, spec.channels),
            converter: if spec.rate != device_rate {
                Some(
                    ResamplerState {
                        source_rate: spec.rate,
                        target_rate: device_rate,
                        channels: spec.channels,
                        stride: duration as nat,
                        held: 0,
                    },
                )
            } else {
                None
            },
            volume: UNITY,
            pushed: Seq::empty(),
        }
    }

    /// The sink after a push of the samples of `block` from `from` up to
    /// `position`.
    pub open spec fn pushed_to(self, block: Seq<u32>, from: int, position: int) -> SinkState {
        SinkState { pushed: self.pushed + pushed_part(block, from, position), ..self }
    }

    /// What a write of a block of `frames` frames has to do.
    pub open spec fn write_plan(self, frames: u64) -> WritePlan {
        if frames == 0 {
            WritePlan::Skip
        } else {
            match self.converter {
                Some(c) => if c.blocks_after(frames as nat) == 0 {
                    WritePlan::Hold
                } else {
                    WritePlan::Play {
                        blocks: Some(c.blocks_after(frames as nat) as u64),
                        gain: gain_of(self.volume),
                    }
                },
                None => WritePlan::Play { blocks: None, gain: gain_of(self.volume) },
            }
        }
    }

    /// The sink after a write of a block of `frames` frames.
    pub open spec fn written(self, frames: u64) -> SinkState {
        if frames == 0 {
            self
        } else {
            match self.converter {
                Some(c) => SinkState { converter: Some(c.fed(frames as nat)), ..self },
                None => self,
            }
        }
    }

    /// What a flush has to do.
    pub open spec fn flush_plan(self) -> FlushPlan {
        FlushPlan {
            padding: match self.converter {
                Some(c) => if c.held == 0 {
                    None
                } else {
                    Some(c.padding() as u64)
                },
                None => None,
            },
            gain: gain_of(self.volume),
        }
    }

    /// The sink after a flush.
    pub open spec fn flushed(self) -> SinkState {
        match self.converter {
            Some(c) => SinkState { converter: Some(c.drained()), ..self },
            None => self,
        }
    }
}

/// The number of samples that the ring holds for a stream at `rate` frames
/// per second with `channels` samples per frame.
pub fn ring_len(rate: u32, channels: u16) -> (r: u64)
    ensures
        r == ring_len_of(rate, channels),
{
    let frames: u64 = (RING_MILLIS * (rate as u64)) / 1000;
    assert(frames * channels <= u64::MAX) by (nonlinear_arith)
        requires
            frames <= 858_993_459,
            channels <= 65535,
    ;
    frames * (channels as u64)
}

/// The ring holds a fifth of the frames of one second, rounded down, with
/// all their samples: 200 milliseconds of sound, short of less than five
/// frames.
pub proof fn lemma_ring_len_bounds(rate: u32, channels: u16)
    ensures
        ring_len_of(rate, channels) == (rate / 5) * channels,
        5 * ring_len_of(rate, channels) <= rate * channels,
        rate * channels <= 5 * ring_len_of(rate, channels) + 4 * channels,
{
    let frames = (RING_MILLIS * rate) / 1000;
    assert(frames == rate / 5);
    assert(5 * frames <= rate <= 5 * frames + 4);
    assert(5 * (frames * channels) <= rate * channels <= 5 * (frames * channels) + 4 * channels)
        by (nonlinear_arith)
        requires
            5 * frames <= rate <= 5 * frames + 4,
            0 <= channels,
    ;
}

/// Reports how building and starting the output stream went.
pub fn open_verdict(outcome: StreamOutcome) -> (r: Result<(), AudioOutputError>)
    ensures
        r == stream_verdict(outcome),
{
    match outcome {
        StreamOutcome::BuildFailed => Err(AudioOutputError::OpenStreamError),
        StreamOutcome::StartFailed => Err(AudioOutputError::PlayStreamError),
        StreamOutcome::Started => Ok(()),
    }
}

fn gain(volume: u32) -> (r: Option<u32>)
    ensures
        r == gain_of(volume),
{
    if is_full_volume(volume) {
        None
    } else {
        Some(volume)
    }
}

/// The volume of the sink, which lies between zero and one.
struct Level {
    volume: u32,
}

impl Level {
    #[verifier::type_invariant]
    spec fn well_formed(self) -> bool {
        in_unit_range(self.volume)
    }
}

/// The audio sink.
pub struct AudioOutput {
    writer: RingWriter,
    config: StreamConfig,
    resampler: Option<Resampler>,
    level: Level,
}

impl View for AudioOutput {
    type V = SinkState;

    closed spec fn view(&self) -> SinkState {
        SinkState {
            config: self.config,
            ring_len: self.writer.capacity(),
            converter: match self.resampler {
                Some(r) => Some(r@),
                None => None,
            },
            volume: self.level.volume,
            pushed: self.writer.pushed(),
        }
    }
}

impl AudioOutput {
    /// Opens a sink for a source of format `spec` whose first decoded
    /// block has room for `duration` frames, on a device as probed.
    ///
    /// Returns the sink and the reading end of its sample ring, which the
    /// caller gives to the render callback of the stream that it builds
    /// with `config()`. The ring holds 200 milliseconds of sound at the
    /// rate of the device. The sink starts at full volume, and has a
    /// converter if the device runs at another rate than the source.
    ///
    /// Fails with `OpenStreamError` where no sink can be opened: without a
    /// device or its configuration, for a ring that would hold nothing or
    /// more than the machine can allocate at once, and for a converter on
    /// blocks of no frames.
    pub fn new(spec: SourceSpec, duration: u64, device: DeviceProbe) -> (r: Result<
        (AudioOutput, RingReader),
        AudioOutputError,
    >)
        ensures
            r is Ok <==> SinkState::can_open(spec, duration, device),
            r matches Ok(pair) ==> device matches DeviceProbe::Ready { sample_rate } && pair.0@
                == SinkState::opened(spec, duration, sample_rate) && pair.0@.valid(),
            r matches Err(e) ==> e == AudioOutputError::OpenStreamError,
    {
        let device_rate = match device {
            DeviceProbe::Ready { sample_rate } => sample_rate,
            _ => {
                return Err(AudioOutputError::OpenStreamError);
            },
        };
        let len = ring_len(device_rate, spec.channels);
        let resampler = if spec.rate != device_rate {
            match Resampler::new(spec, device_rate, duration) {
                Some(resampler) => Some(resampler),
                None => {
                    return Err(AudioOutputError::OpenStreamError);
                },
            }
        } else {
            None
        };
        match sample_ring(len) {
            None => Err(AudioOutputError::OpenStreamError),
            Some((writer, reader)) => {
                proof {
                    crate::volume::lemma_unit_range_patterns(UNITY);
                }
                let output = AudioOutput {
                    writer,
                    config: StreamConfig { channels: spec.channels, sample_rate: device_rate },
                    resampler,
                    level: Level { volume: UNITY },
                };
                Ok((output, reader))
            },
        }
    }

    /// The configuration to build the output stream with.
    pub fn config(&self) -> (r: StreamConfig)
        ensures
            r == self@.config,
    {
        self.config
    }

    /// The number of samples that the sink's ring was made to hold.
    pub fn ring_len(&self) -> (r: u64)
        ensures
            r == self@.ring_len,
            r > 0,
    {
        self.writer.size() as u64
    }

    /// Whether the sink converts the sample rate.
    pub fn resamples(&self) -> (r: bool)
        ensures
            r == self@.converter is Some,
    {
        self.resampler.is_some()
    }

    /// The volume.
    pub fn volume(&self) -> (r: u32)
        ensures
            r == self@.volume,
            in_unit_range(r),
    {
        proof {
            use_type_invariant(&self.level);
        }
        self.level.volume
    }

    /// Says what to do with a decoded block of `frames` frames, and counts
    /// the frames in where the sink converts. An empty block is skipped.
    /// The volume that the samples are scaled by is the one set last.
    pub fn write(&mut self, frames: u64) -> (r: Result<WritePlan, AudioOutputError>)
        ensures
            r == Ok::<WritePlan, AudioOutputError>(old(self)@.write_plan(frames)),
            final(self)@ == old(self)@.written(frames),
    {
        if frames == 0 {
            return Ok(WritePlan::Skip);
        }
        match self.resampler {
            Some(mut resampler) => {
                let blocks = resampler.resample(frames);
                self.resampler = Some(resampler);
                match blocks {
                    Some(blocks) => Ok(
                        WritePlan::Play { blocks: Some(blocks), gain: gain(self.level.volume) },
                    ),
                    None => Ok(WritePlan::Hold),
                }
            },
            None => Ok(WritePlan::Play { blocks: None, gain: gain(self.level.volume) }),
        }
    }

    /// Pushes the samples of `block` from place `from` on into the ring,
    /// in order, waiting while the ring is full. Returns the place of the
    /// first sample not pushed, which is the end of the block unless a
    /// write took nothing; the caller goes on from there until the block
    /// is through. The samples from `from` up to that place, and no
    /// others, have gone into the ring behind those pushed before; the
    /// rest of the sink stays as it was.
    pub fn push(&mut self, block: &[u32], from: usize) -> (position: usize)
        ensures
            advanced(block@.len(), from as nat, position as nat),
            final(self)@ == old(self)@.pushed_to(block@, from as int, position as int),
    {
        self.writer.push(block, from)
    }

    /// Says what to do at the end of the stream, before the output stream
    /// is paused: what the converter still holds is padded, converted and
    /// pushed.
    pub fn flush(&mut self) -> (r: FlushPlan)
        ensures
            r == old(self)@.flush_plan(),
            final(self)@ == old(self)@.flushed(),
    {
        let padding = match self.resampler {
            Some(mut resampler) => {
                let padding = resampler.flush();
                self.resampler = Some(resampler);
                padding
            },
            None => None,
        };
        FlushPlan { padding, gain: gain(self.level.volume) }
    }

    /// Sets the volume if it lies between zero and one; it holds from the
    /// next write or flush on. Any other volume is refused with
    /// `VolumeError`, and the sink stays as it was.
    pub fn set_volume(&mut self, volume: u32) -> (r: Result<(), AudioOutputError>)
        ensures
            in_unit_range(volume) ==> r is Ok && final(self)@ == (SinkState {
                volume,
                ..old(self)@
            }),
            !in_unit_range(volume) ==> r == Err::<(), AudioOutputError>(
                AudioOutputError::VolumeError,
            ) && final(self)@ == old(self)@,
    {
        if !is_valid_volume(volume) {
            return Err(AudioOutputError::VolumeError);
        }
        self.level.volume = volume;
        Ok(())
    }
}

/// Opens a sink: see `AudioOutput::new`.
pub fn create_audio_output(spec: SourceSpec, duration: u64, device: DeviceProbe) -> (r: Result<
    (AudioOutput, RingReader),
    AudioOutputError,
>)
    ensures
        r is Ok <==> SinkState::can_open(spec, duration, device),
        r matches Ok(pair) ==> device matches DeviceProbe::Ready { sample_rate } && pair.0@
            == SinkState::opened(spec, duration, sample_rate) && pair.0@.valid(),
        r matches Err(e) ==> e == AudioOutputError::OpenStreamError,
{
    AudioOutput::new(spec, duration, device)
}

} // verus!
