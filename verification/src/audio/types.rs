//! Errors of the audio sink.

use crate::error_codes::ErrorCode;
use vstd::prelude::*;

verus! {

/// What can go wrong at the audio sink.
#[derive(Debug, Clone, Copy, PartialEq, Eq, Structural)]
pub enum AudioOutputError {
    /// No output device, or the stream could not be built.
    OpenStreamError,
    /// The stream was built and could not be started.
    PlayStreamError,
    /// A volume outside zero to one.
    VolumeError,
}

/// The text that names an error of the sink.
pub open spec fn audio_error_text(e: AudioOutputError) -> Seq<char> {
    match e {
        AudioOutputError::OpenStreamError => "打开音频流失败"@,
        AudioOutputError::PlayStreamError => "播放音频流失败"@,
        AudioOutputError::VolumeError => "音量设置失败"@,
    }
}

/// The catalog entry under which an error of the sink is reported.
pub open spec fn audio_error_entry(e: AudioOutputError) -> ErrorCode {
    match e {
        AudioOutputError::OpenStreamError => ErrorCode::AudioDeviceError,
        AudioOutputError::PlayStreamError => ErrorCode::AudioOutputError,
        AudioOutputError::VolumeError => ErrorCode::AudioVolumeError,
    }
}

/// The format of the decoded signal.
#[derive(Debug, Clone, Copy, PartialEq, Eq)]
pub struct SourceSpec {
    /// Frames per second.
    pub rate: u32,
    /// Samples per frame.
    pub channels: u16,
}

/// The configuration that the output stream is built with.
#[derive(Debug, Clone, Copy, PartialEq, Eq)]
pub struct StreamConfig {
    /// Samples per frame.
    pub channels: u16,
    /// Frames per second.
    pub sample_rate: u32,
}

impl AudioOutputError {
    /// The text that names this error.
    pub fn message(&self) -> (r: &'static str)
        ensures
            r@ == audio_error_text(*self),
    {
        match self {
            AudioOutputError::OpenStreamError => "打开音频流失败",
            AudioOutputError::PlayStreamError => "播放音频流失败",
            AudioOutputError::VolumeError => "音量设置失败",
        }
    }

    /// The catalog entry under which this error is reported.
    pub fn error_code(&self) -> (r: ErrorCode)
        ensures
            r == audio_error_entry(*self),
    {
        match self {
            AudioOutputError::OpenStreamError => ErrorCode::AudioDeviceError,
            AudioOutputError::PlayStreamError => ErrorCode::AudioOutputError,
            AudioOutputError::VolumeError => ErrorCode::AudioVolumeError,
        }
    }
}

} // verus!
