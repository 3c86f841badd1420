//! Decision core of a network-streaming audio player.
//!
//! The crate holds everything the player decides: the error catalog, the
//! shared player state, the controller's state machine, the decode loop as a
//! step machine, and the rules of the audio sink. Fetching bytes, decoding
//! and driving the sound device are left to the caller, who hands the
//! outcomes in as plain values.

pub mod audio;
pub mod error_codes;
pub mod player;
pub mod text;
pub mod volume;
