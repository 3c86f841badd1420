//! The audio sink: its errors, and the rules by which it is opened, fed and
//! drained.

pub mod output;
pub mod resampler;
pub mod ring;
pub mod types;

pub use output::{create_audio_output, AudioOutput};
pub use types::AudioOutputError;
