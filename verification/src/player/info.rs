//! The state that the controller and the playback session share: status,
//! elapsed time, total duration and volume.

use crate::audio::types::AudioOutputError;
use crate::volume::{in_unit_range, is_valid_volume, UNITY};
use vstd::prelude::*;

verus! {

/// What the player is doing.
#[derive(Debug, Clone, Copy, PartialEq, Eq, Structural)]
pub enum Status {
    /// Nothing plays.
    Stopped,
    /// A session feeds the sink.
    Playing,
    /// A session waits to go on.
    Paused,
    /// A session was asked for and has not produced sound yet.
    Loading,
}

/// The number that stands for a status.
pub open spec fn status_code(s: Status) -> int {
    match s {
        Status::Stopped => 0,
        Status::Playing => 1,
        Status::Paused => 2,
        Status::Loading => 3,
    }
}

impl Status {
    /// The number that stands for this status: `0` stopped, `1` playing,
    /// `2` paused, `3` loading.
    pub fn code(&self) -> (r: i32)
        ensures
            r == status_code(*self),
    {
        match self {
            Status::Stopped => 0,
            Status::Playing => 1,
            Status::Paused => 2,
            Status::Loading => 3,
        }
    }
}

/// The mathematical content of a `PlayerInfo`.
pub ghost struct PlayerState {
    pub status: Status,
    /// Seconds played.
    pub current_time: u64,
    /// Seconds the source lasts, once known.
    pub total_time: Option<u64>,
    /// The volume, as a bit pattern.
    pub volume: u32,
}

impl PlayerState {
    /// The state of a player that has not been used.
    pub open spec fn initial() -> PlayerState {
        PlayerState { status: Status::Stopped, current_time: 0, total_time: None, volume: UNITY }
    }

    /// Whether the volume lies between zero and one.
    pub open spec fn valid(self) -> bool {
        in_unit_range(self.volume)
    }

    /// The state with another status.
    pub open spec fn with_status(self, status: Status) -> PlayerState {
        PlayerState { status, ..self }
    }

    /// The state with another elapsed time.
    pub open spec fn with_current_time(self, current_time: u64) -> PlayerState {
        PlayerState { current_time, ..self }
    }

    /// The state with another total duration.
    pub open spec fn with_total_time(self, total_time: Option<u64>) -> PlayerState {
        PlayerState { total_time, ..self }
    }

    /// The state with another volume.
    pub open spec fn with_volume(self, volume: u32) -> PlayerState {
        PlayerState { volume, ..self }
    }
}

/// The shared state of a player. Its volume always lies between zero and
/// one.
#[derive(Debug, Clone, Copy)]
pub struct PlayerInfo {
    status: Status,
    current_time: u64,
    total_time: Option<u64>,
    volume: u32,
}

impl View for PlayerInfo {
    type V = PlayerState;

    closed spec fn view(&self) -> PlayerState {
        PlayerState {
            status: self.status,
            current_time: self.current_time,
            total_time: self.total_time,
            volume: self.volume,
        }
    }
}

impl PlayerInfo {
    #[verifier::type_invariant]
    spec fn volume_in_range(self) -> bool {
        in_unit_range(self.volume)
    }

    /// A player that has not been used: stopped, at time zero, of unknown
    /// duration, at full volume.
    pub fn new() -> (r: PlayerInfo)
        ensures
            r@ == PlayerState::initial(),
            r@.valid(),
    {
        proof {
            crate::volume::lemma_unit_range_patterns(UNITY);
        }
        PlayerInfo { status: Status::Stopped, current_time: 0, total_time: None, volume: UNITY }
    }

    /// The status.
    pub fn status(&self) -> (r: Status)
        ensures
            r == self@.status,
    {
        self.status
    }

    /// The duration of the source in seconds, once known.
    pub fn total_time(&self) -> (r: Option<u64>)
        ensures
            r == self@.total_time,
    {
        self.total_time
    }

    /// The duration of the source in seconds, and zero while it is not
    /// known.
    pub fn duration(&self) -> (r: u64)
        ensures
            r == (match self@.total_time {
                Some(seconds) => seconds,
                None => 0,
            }),
    {
        match self.total_time {
            Some(seconds) => seconds,
            None => 0,
        }
    }

    /// The seconds played.
    pub fn current_time(&self) -> (r: u64)
        ensures
            r == self@.current_time,
    {
        self.current_time
    }

    /// The volume, which lies between zero and one.
    pub fn volume(&self) -> (r: u32)
        ensures
            r == self@.volume,
            in_unit_range(r),
            self@.valid(),
    {
        proof {
            use_type_invariant(self);
        }
        self.volume
    }

    /// Sets the status and leaves the rest.
    pub fn set_status(&mut self, status: Status)
        ensures
            final(self)@ == old(self)@.with_status(status),
    {
        proof {
            use_type_invariant(&*self);
        }
        self.status = status;
    }

    /// Sets the total duration and leaves the rest.
    pub fn set_total_time(&mut self, total_time: Option<u64>)
        ensures
            final(self)@ == old(self)@.with_total_time(total_time),
    {
        proof {
            use_type_invariant(&*self);
        }
        self.total_time = total_time;
    }

    /// Sets the seconds played and leaves the rest.
    pub fn set_current_time(&mut self, current_time: u64)
        ensures
            final(self)@ == old(self)@.with_current_time(current_time),
    {
        proof {
            use_type_invariant(&*self);
        }
        self.current_time = current_time;
    }

    /// Sets the volume if it lies between zero and one. Any other volume is
    /// refused with `VolumeError`, and the state stays as it was.
    pub fn set_volume(&mut self, volume: u32) -> (r: Result<(), AudioOutputError>)
        ensures
            in_unit_range(volume) ==> r is Ok && final(self)@ == old(self)@.with_volume(volume),
            !in_unit_range(volume) ==> r == Err::<(), AudioOutputError>(
                AudioOutputError::VolumeError,
            ) && final(self)@ == old(self)@,
    {
        if !is_valid_volume(volume) {
            return Err(AudioOutputError::VolumeError);
        }
        self.volume = volume;
        Ok(())
    }

    /// Puts the state back to that of a player that has not been used.
    pub fn reset(&mut self)
        ensures
            final(self)@ == PlayerState::initial(),
    {
        *self = PlayerInfo::new();
    }
}

} // verus!
