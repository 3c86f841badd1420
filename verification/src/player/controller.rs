//! The controller: the state machine behind play, pause, resume, stop,
//! reset and volume.
//!
//! The controller owns the shared state and knows whether a playback
//! session exists. It makes no request and starts no thread: the caller
//! asks whether the address answers and hands the outcome in, and joins or
//! starts the playback thread as the controller says.

use crate::error_codes::ErrorCode;
use crate::player::info::{PlayerInfo, PlayerState, Status};
use crate::text::starts_with;
use crate::volume::in_unit_range;
use vstd::prelude::*;

verus! {

/// How the request that asks whether an address exists was answered.
#[derive(Debug, Clone, Copy, PartialEq, Eq, Structural)]
pub enum ProbeOutcome {
    /// The server answered with this HTTP status.
    Answered(u16),
    /// No answer came: the connection failed or timed out.
    Unreachable,
}

/// Whether a text starts with `http://` or `https://`.
pub open spec fn has_http_scheme(url: Seq<char>) -> bool {
    "http://"@.is_prefix_of(url) || "https://"@.is_prefix_of(url)
}

/// What the answer to the existence request says of the address: nothing
/// against it for a status from 200 to 299, `MediaNotFound` for 404,
/// `HttpError` for any other status, `ConnectionTimeout` without an answer.
pub open spec fn probe_verdict(probe: ProbeOutcome) -> Result<(), ErrorCode> {
    match probe {
        ProbeOutcome::Unreachable => Err(ErrorCode::ConnectionTimeout),
        ProbeOutcome::Answered(status) => if status == 404 {
            Err(ErrorCode::MediaNotFound)
        } else if status < 200 || status >= 300 {
            Err(ErrorCode::HttpError)
        } else {
            Ok(())
        },
    }
}

/// Whether an address may be played: its scheme first, then the answer of
/// its server.
pub open spec fn url_verdict(url: Seq<char>, probe: ProbeOutcome) -> Result<(), ErrorCode> {
    if !has_http_scheme(url) {
        Err(ErrorCode::UrlUnsupportedProtocol)
    } else {
        probe_verdict(probe)
    }
}

/// Tests the scheme of an address: `UrlUnsupportedProtocol` unless it
/// starts with `http://` or `https://`.
pub fn validate_scheme(url: &str) -> (r: Result<(), ErrorCode>)
    ensures
        has_http_scheme(url@) ==> r is Ok,
        !has_http_scheme(url@) ==> r == Err::<(), ErrorCode>(ErrorCode::UrlUnsupportedProtocol),
{
    if !starts_with(url, "http://") && !starts_with(url, "https://") {
        return Err(ErrorCode::UrlUnsupportedProtocol);
    }
    Ok(())
}

/// Judges the answer to the existence request.
pub fn validate_response(probe: ProbeOutcome) -> (r: Result<(), ErrorCode>)
    ensures
        r == probe_verdict(probe),
{
    match probe {
        ProbeOutcome::Unreachable => Err(ErrorCode::ConnectionTimeout),
        ProbeOutcome::Answered(status) => {
            if status == 404 {
                Err(ErrorCode::MediaNotFound)
            } else if status < 200 || status >= 300 {
                Err(ErrorCode::HttpError)
            } else {
                Ok(())
            }
        },
    }
}

/// Judges an address: its scheme first, then the answer of its server. An
/// address with another scheme is refused whatever the answer.
pub fn validate_url(url: &str, probe: ProbeOutcome) -> (r: Result<(), ErrorCode>)
    ensures
        r == url_verdict(url@, probe),
{
    match validate_scheme(url) {
        Err(e) => Err(e),
        Ok(()) => validate_response(probe),
    }
}

/// The mathematical content of a `StreamPlayer`.
pub ghost struct ControllerState {
    /// The shared state.
    pub info: PlayerState,
    /// Whether a playback session exists that has not been joined.
    pub session: bool,
}

impl ControllerState {
    /// The state of a controller that has not been used.
    pub open spec fn initial() -> ControllerState {
        ControllerState { info: PlayerState::initial(), session: false }
    }

    /// The state after `stop`: stopped, at time zero, without a session.
    /// Duration and volume stay.
    pub open spec fn stopped(self) -> ControllerState {
        ControllerState {
            info: self.info.with_status(Status::Stopped).with_current_time(0),
            session: false,
        }
    }

    /// The state after `pause`.
    pub open spec fn paused(self) -> ControllerState {
        ControllerState { info: self.info.with_status(Status::Paused), ..self }
    }

    /// The state after `resume`.
    pub open spec fn resumed(self) -> ControllerState {
        ControllerState { info: self.info.with_status(Status::Playing), ..self }
    }

    /// The state after `reset`.
    pub open spec fn cleared(self) -> ControllerState {
        ControllerState::initial()
    }

    /// The state in which a new session begins: loading, at time zero, of
    /// unknown duration, at the volume that was set.
    pub open spec fn loading(self) -> ControllerState {
        ControllerState {
            info: PlayerState {
                status: Status::Loading,
                current_time: 0,
                total_time: None,
                volume: self.info.volume,
            },
            session: true,
        }
    }

    /// The state after a request to play. An address whose scheme is
    /// refused stops the session that exists, and changes nothing where
    /// none exists. Otherwise the player is stopped first, and stays so if
    /// the server's answer is refused; if the address is accepted a new
    /// session begins.
    pub open spec fn played(self, url: Seq<char>, probe: ProbeOutcome) -> ControllerState {
        if !has_http_scheme(url) {
            if self.session {
                self.stopped()
            } else {
                self
            }
        } else if probe_verdict(probe) is Err {
            self.stopped()
        } else {
            self.loading()
        }
    }

    /// The state after a request for another volume.
    pub open spec fn with_volume(self, volume: u32) -> ControllerState {
        if in_unit_range(volume) {
            ControllerState { info: self.info.with_volume(volume), ..self }
        } else {
            self
        }
    }
}

/// A request to the controller.
pub ghost enum Operation {
    /// Play the source at this address, whose server answered like this.
    Play { url: Seq<char>, probe: ProbeOutcome },
    Pause,
    Resume,
    Stop,
    Reset,
    /// Set this volume.
    SetVolume { volume: u32 },
}

impl ControllerState {
    /// The state after one request.
    pub open spec fn apply(self, op: Operation) -> ControllerState {
        match op {
            Operation::Play { url, probe } => self.played(url, probe),
            Operation::Pause => self.paused(),
            Operation::Resume => self.resumed(),
            Operation::Stop => self.stopped(),
            Operation::Reset => self.cleared(),
            Operation::SetVolume { volume } => self.with_volume(volume),
        }
    }

    /// The state after a sequence of requests, the first one first.
    pub open spec fn after(self, ops: Seq<Operation>) -> ControllerState
        decreases ops.len(),
    {
        if ops.len() == 0 {
            self
        } else {
            self.after(ops.drop_last()).apply(ops.last())
        }
    }
}

/// The controller of a player.
pub struct StreamPlayer {
    player_info: PlayerInfo,
    session: bool,
}

impl View for StreamPlayer {
    type V = ControllerState;

    closed spec fn view(&self) -> ControllerState {
        ControllerState { info: self.player_info@, session: self.session }
    }
}

impl StreamPlayer {
    /// A controller that has not been used.
    pub fn new() -> (r: StreamPlayer)
        ensures
            r@ == ControllerState::initial(),
    {
        StreamPlayer { player_info: PlayerInfo::new(), session: false }
    }

    /// Answers a request to play `url`, given how the server answered the
    /// existence request.
    ///
    /// An address with another scheme than HTTP or HTTPS fails with
    /// `UrlUnsupportedProtocol` whatever the answer, for which the caller
    /// need not ask; a session that exists is stopped, and a player
    /// without one is left exactly as it was. For any other address the
    /// player is stopped first, and the caller joins the thread of the
    /// session before it. Status 404 then fails with `MediaNotFound`,
    /// another status outside 200 to 299 with `HttpError`, no answer with
    /// `ConnectionTimeout`, and the player stays stopped. Otherwise a
    /// session begins: the status is `Loading`, the time zero and the
    /// duration unknown, and the caller starts the playback thread.
    pub fn play_url(&mut self, url: &str, probe: ProbeOutcome) -> (r: Result<i32, ErrorCode>)
        ensures
            final(self)@ == old(self)@.played(url@, probe),
            url_verdict(url@, probe) is Ok ==> r == Ok::<i32, ErrorCode>(0),
            url_verdict(url@, probe) matches Err(e) ==> r == Err::<i32, ErrorCode>(e),
    {
        match validate_scheme(url) {
            Err(e) => {
                if self.session {
                    let _ = self.stop();
                }
                Err(e)
            },
            Ok(()) => {
                let _ = self.stop();
                match validate_response(probe) {
                    Err(e) => Err(e),
                    Ok(()) => {
                        self.player_info.set_status(Status::Loading);
                        self.player_info.set_current_time(0);
                        self.player_info.set_total_time(None);
                        self.session = true;
                        Ok(0)
                    },
                }
            },
        }
    }

    /// Pauses: the status becomes `Paused`, whatever it was.
    pub fn pause(&mut self) -> (r: Result<i32, ErrorCode>)
        ensures
            final(self)@ == old(self)@.paused(),
            r == Ok::<i32, ErrorCode>(0),
    {
        self.player_info.set_status(Status::Paused);
        Ok(0)
    }

    /// Resumes: the status becomes `Playing`, whatever it was.
    pub fn resume(&mut self) -> (r: Result<i32, ErrorCode>)
        ensures
            final(self)@ == old(self)@.resumed(),
            r == Ok::<i32, ErrorCode>(0),
    {
        self.player_info.set_status(Status::Playing);
        Ok(0)
    }

    /// Stops: the status becomes `Stopped` and the time zero, and the
    /// controller lets go of its session. The caller then waits for the
    /// playback thread, if `has_session` said there was one.
    pub fn stop(&mut self) -> (r: Result<i32, ErrorCode>)
        ensures
            final(self)@ == old(self)@.stopped(),
            r == Ok::<i32, ErrorCode>(0),
    {
        self.player_info.set_status(Status::Stopped);
        self.player_info.set_current_time(0);
        self.session = false;
        Ok(0)
    }

    /// Stops, and puts the shared state back to its initial values:
    /// stopped, time zero, duration unknown, full volume.
    pub fn reset(&mut self) -> (r: Result<i32, ErrorCode>)
        ensures
            final(self)@ == old(self)@.cleared(),
            final(self)@ == ControllerState::initial(),
            r == Ok::<i32, ErrorCode>(0),
    {
        let _ = self.stop();
        self.player_info.reset();
        Ok(0)
    }

    /// Sets the volume if it lies between zero and one. Any other volume
    /// fails with `AudioVolumeError` and changes nothing.
    pub fn set_volume(&mut self, volume: u32) -> (r: Result<i32, ErrorCode>)
        ensures
            final(self)@ == old(self)@.with_volume(volume),
            in_unit_range(volume) ==> r == Ok::<i32, ErrorCode>(0),
            !in_unit_range(volume) ==> r == Err::<i32, ErrorCode>(ErrorCode::AudioVolumeError),
    {
        match self.player_info.set_volume(volume) {
            Ok(()) => Ok(0),
            Err(e) => Err(e.error_code()),
        }
    }

    /// A copy of the shared state as it is now.
    pub fn get_player_info(&self) -> (r: PlayerInfo)
        ensures
            r@ == self@.info,
            r@.valid(),
    {
        let info = self.player_info;
        let _ = info.volume();
        info
    }

    /// Whether a playback session exists that has not been joined.
    pub fn has_session(&self) -> (r: bool)
        ensures
            r == self@.session,
    {
        self.session
    }

    /// The shared state, for the playback session to read and to publish
    /// into. The session flag is out of its reach.
    pub fn player_info_mut(&mut self) -> (r: &mut PlayerInfo)
        ensures
            r@ == old(self)@.info,
            final(self)@ == (ControllerState { info: final(r)@, session: old(self)@.session }),
    {
        &mut self.player_info
    }
}

/// A volume between zero and one is set and read back as it was given; any
/// other volume leaves the one that was set before.
pub proof fn lemma_volume_round_trip(s: ControllerState, volume: u32)
    ensures
        in_unit_range(volume) ==> s.with_volume(volume).info.volume == volume,
        !in_unit_range(volume) ==> s.with_volume(volume) == s,
        s.with_volume(volume).info.status == s.info.status,
        s.with_volume(volume).info.current_time == s.info.current_time,
        s.with_volume(volume).info.total_time == s.info.total_time,
        s.with_volume(volume).session == s.session,
{
}

/// Stopping twice is stopping once, and a stopped player is at time zero.
pub proof fn lemma_stop_idempotent(s: ControllerState)
    ensures
        s.stopped().stopped() == s.stopped(),
        s.stopped().info.status == Status::Stopped,
        s.stopped().info.current_time == 0,
        !s.stopped().session,
{
}

/// Pausing and resuming leave the elapsed time, the duration, the volume
/// and the session as they are; the player plays afterwards.
pub proof fn lemma_pause_resume_keeps_time(s: ControllerState)
    ensures
        s.paused().info.current_time == s.info.current_time,
        s.paused().info.status == Status::Paused,
        s.paused().resumed().info.current_time == s.info.current_time,
        s.paused().resumed() == s.resumed(),
        s.paused().resumed().info.status == Status::Playing,
{
}

/// An address that does not start with `http://` or `https://` is refused
/// whatever its server would answer, and no session begins. A player
/// without a session is left exactly as it was: status, time, duration and
/// volume. A session that exists is stopped.
pub proof fn lemma_unsupported_scheme(s: ControllerState, url: Seq<char>, probe: ProbeOutcome)
    requires
        !has_http_scheme(url),
    ensures
        url_verdict(url, probe) == Err::<(), ErrorCode>(ErrorCode::UrlUnsupportedProtocol),
        !s.session ==> s.played(url, probe) == s,
        s.session ==> s.played(url, probe) == s.stopped(),
        !s.played(url, probe).session,
{
}

/// A session begins with an unknown duration: after a request to play that
/// is accepted, the duration that an earlier session published is gone,
/// the status is `Loading`, the time zero, and the volume as it was set.
pub proof fn lemma_play_forgets_duration(s: ControllerState, url: Seq<char>, probe: ProbeOutcome)
    requires
        url_verdict(url, probe) is Ok,
    ensures
        s.played(url, probe).info.total_time == None::<u64>,
        s.played(url, probe).info.status == Status::Loading,
        s.played(url, probe).info.current_time == 0,
        s.played(url, probe).info.volume == s.info.volume,
        s.played(url, probe).session,
{
}

/// A request to play ends the session before it. The player has a session
/// afterwards exactly if the request was accepted, so there is one at
/// most, and it is the new one; and a request that is accepted leaves the
/// player the same whatever was asked to play before it.
pub proof fn lemma_play_replaces_session(
    s: ControllerState,
    first: Seq<char>,
    first_probe: ProbeOutcome,
    second: Seq<char>,
    second_probe: ProbeOutcome,
)
    ensures
        s.played(second, second_probe).session <==> url_verdict(second, second_probe) is Ok,
        s.played(first, first_probe).played(second, second_probe).session <==> url_verdict(
            second,
            second_probe,
        ) is Ok,
        url_verdict(second, second_probe) is Ok ==> s.played(first, first_probe).played(
            second,
            second_probe,
        ) == s.played(second, second_probe),
        has_http_scheme(second) ==> s.played(second, second_probe) == s.stopped().played(
            second,
            second_probe,
        ),
{
}

/// After a reset the player is as new, whatever was asked of it before:
/// stopped, at time zero, of unknown duration, at full volume, without a
/// session.
pub proof fn lemma_reset_restores(s: ControllerState, ops: Seq<Operation>)
    ensures
        s.after(ops).apply(Operation::Reset) == ControllerState::initial(),
        s.after(ops.push(Operation::Reset)) == ControllerState::initial(),
        ControllerState::initial().info.status == Status::Stopped,
        ControllerState::initial().info.current_time == 0,
        ControllerState::initial().info.total_time == None::<u64>,
        ControllerState::initial().info.volume == crate::volume::UNITY,
        !ControllerState::initial().session,
{
    let with_reset = ops.push(Operation::Reset);
    assert(with_reset.drop_last() == ops);
    assert(with_reset.last() == Operation::Reset);
}

/// The volume of a player lies between zero and one after every sequence
/// of requests.
pub proof fn lemma_volume_stays_in_range(s: ControllerState, ops: Seq<Operation>)
    requires
        s.info.valid(),
    ensures
        s.after(ops).info.valid(),
    decreases ops.len(),
{
    crate::volume::lemma_unit_range_patterns(crate::volume::UNITY);
    if ops.len() > 0 {
        lemma_volume_stays_in_range(s, ops.drop_last());
    }
}

} // verus!
