//! The playback session: probing, the decode loop and its end, as a step
//! machine.
//!
//! The session asks for one piece of outside work at a time (probe the
//! source, fetch a packet, decode it, open the sink, write to it, sleep,
//! flush) and is told how it went. Between two pieces of work it reads and
//! publishes the shared player state, which the caller locks for the
//! length of one step and no longer.

use crate::audio::types::AudioOutputError;
use crate::player::controller::{url_verdict, ControllerState, ProbeOutcome};
use crate::player::info::{PlayerInfo, PlayerState, Status};
use crate::text::ends_with;
use vstd::prelude::*;

verus! {

/// Milliseconds between two publications of the elapsed time.
pub const PUBLISH_INTERVAL_MS: u64 = 1000;

/// Milliseconds that a paused session sleeps before it looks at the status
/// again.
pub const PAUSE_POLL_MS: u64 = 10;

/// What the end of an address suggests about the container format.
#[derive(Debug, Clone, Copy, PartialEq, Eq, Structural)]
pub enum FormatHint {
    /// Nothing.
    Unknown,
    /// The address ends in `.mp3`.
    Mp3,
    /// The address ends in `.flac`.
    Flac,
}

/// The hint that an address gives.
pub open spec fn hint_of(url: Seq<char>) -> FormatHint {
    if ".mp3"@.is_suffix_of(url) {
        FormatHint::Mp3
    } else if ".flac"@.is_suffix_of(url) {
        FormatHint::Flac
    } else {
        FormatHint::Unknown
    }
}

/// The hint that an address gives.
pub fn format_hint(url: &str) -> (r: FormatHint)
    ensures
        r == hint_of(url@),
{
    if ends_with(url, ".mp3") {
        FormatHint::Mp3
    } else if ends_with(url, ".flac") {
        FormatHint::Flac
    } else {
        FormatHint::Unknown
    }
}

impl FormatHint {
    /// The file extension to probe with, if the hint names one.
    pub fn extension(&self) -> (r: Option<&'static str>)
        ensures
            *self == FormatHint::Unknown <==> r is None,
            *self == FormatHint::Mp3 ==> r->Some_0@ == "mp3"@,
            *self == FormatHint::Flac ==> r->Some_0@ == "flac"@,
    {
        match self {
            FormatHint::Unknown => None,
            FormatHint::Mp3 => Some("mp3"),
            FormatHint::Flac => Some("flac"),
        }
    }
}

/// What the session reads of a track of the source.
#[derive(Debug, Clone, Copy, PartialEq, Eq)]
pub struct TrackInfo {
    /// The number by which packets name the track.
    pub id: u32,
    /// Whether the track names a codec, so that it can be decoded.
    pub has_codec: bool,
    /// The number of frames of the track, if the container tells.
    pub n_frames: Option<u64>,
    /// The number of frames per second, if the container tells.
    pub sample_rate: Option<u32>,
}

/// Whether `i` is the place of the first track that can be decoded.
pub open spec fn is_first_playable(tracks: Seq<TrackInfo>, i: int) -> bool {
    &&& 0 <= i < tracks.len()
    &&& tracks[i].has_codec
    &&& forall|j: int| 0 <= j < i ==> !(#[trigger] tracks[j]).has_codec
}

/// The place of the first track that can be decoded, if there is one.
pub open spec fn first_playable(tracks: Seq<TrackInfo>) -> Option<int> {
    if exists|i: int| is_first_playable(tracks, i) {
        Some(choose|i: int| is_first_playable(tracks, i))
    } else {
        None
    }
}

/// The duration of a track in whole seconds: its frames divided by its
/// rate, where the container tells both and the rate is not zero.
pub open spec fn duration_of(track: TrackInfo) -> Option<u64> {
    match (track.n_frames, track.sample_rate) {
        (Some(frames), Some(rate)) => if rate > 0 {
            Some((frames / (rate as u64)) as u64)
        } else {
            None
        },
        _ => None,
    }
}

/// At most one place is that of the first track that can be decoded.
pub proof fn lemma_first_playable_unique(tracks: Seq<TrackInfo>, i: int, j: int)
    requires
        is_first_playable(tracks, i),
        is_first_playable(tracks, j),
    ensures
        i == j,
{
    if i < j {
        assert(!tracks[i].has_codec);
    }
    if j < i {
        assert(!tracks[j].has_codec);
    }
}

/// Selects the track to play: the first that names a codec.
pub fn select_track(tracks: &Vec<TrackInfo>) -> (r: Option<usize>)
    ensures
        r matches Some(i) ==> is_first_playable(tracks@, i as int),
        r is None ==> forall|j: int| 0 <= j < tracks@.len() ==> !(#[trigger] tracks@[j]).has_codec,
        r is Some <==> first_playable(tracks@) is Some,
        r matches Some(i) ==> first_playable(tracks@) == Some(i as int),
{
    let mut i: usize = 0;
    while i < tracks.len()
        invariant
            i <= tracks@.len(),
            forall|j: int| 0 <= j < i ==> !(#[trigger] tracks@[j]).has_codec,
        decreases tracks@.len() - i,
    {
        if tracks[i].has_codec {
            proof {
                assert(is_first_playable(tracks@, i as int));
                let k = choose|k: int| is_first_playable(tracks@, k);
                lemma_first_playable_unique(tracks@, i as int, k);
            }
            return Some(i);
        }
        i += 1;
    }
    proof {
        assert forall|k: int| !is_first_playable(tracks@, k) by {
            if 0 <= k < tracks@.len() {
                assert(!tracks@[k].has_codec);
            }
        }
    }
    None
}

/// The duration of a track in whole seconds, if its frames and its rate
/// are known.
pub fn total_time(track: &TrackInfo) -> (r: Option<u64>)
    ensures
        r == duration_of(*track),
{
    match (track.n_frames, track.sample_rate) {
        (Some(frames), Some(rate)) => {
            if rate > 0 {
                Some(frames / (rate as u64))
            } else {
                None
            }
        },
        _ => None,
    }
}

/// Why the demuxer or the decoder failed.
#[derive(Debug, Clone, Copy, PartialEq, Eq, Structural)]
pub enum StreamFault {
    /// An I/O error that says the stream ended where more was expected.
    EndOfStream,
    /// Any other I/O error.
    Io,
    /// The data is malformed.
    Decode,
    /// The stream could not seek.
    Seek,
    /// A feature of the container or the codec is not supported.
    Unsupported,
    /// A limit was reached.
    Limit,
    /// The format changed in mid-stream: the reader must be reset.
    ResetRequired,
}

/// Why a session ended before its stream did.
#[derive(Debug, Clone, Copy, PartialEq, Eq, Structural)]
pub enum SessionError {
    /// The source could not be opened or its format not be told.
    Probe,
    /// No decoder could be made for the selected track.
    Decoder,
    /// The demuxer or the decoder failed.
    Stream(StreamFault),
    /// The sink could not be opened or written to.
    Sink(AudioOutputError),
    /// The session was told of work that it had not asked for.
    UnexpectedEvent,
}

/// How a session ended.
#[derive(Debug, Clone, Copy, PartialEq, Eq, Structural)]
pub enum SessionEnd {
    /// The stream was played to its end, or the player was stopped.
    Completed,
    /// A failure ended the session.
    Aborted(SessionError),
}

/// Where a session stands: the work that it has asked for.
#[derive(Debug, Clone, Copy, PartialEq, Eq, Structural)]
pub enum Phase {
    /// Nothing yet.
    Idle,
    /// The probe of the source.
    Probing,
    /// A decoder for the selected track.
    Preparing,
    /// A short sleep, while paused.
    Sleeping,
    /// The next packet.
    Fetching,
    /// The decoding of the packet.
    Decoding,
    /// The opening of the sink.
    Opening,
    /// The writing of the decoded block.
    Writing,
    /// The flushing of the sink.
    Flushing,
    /// Nothing any more: the session has ended.
    Done,
}

/// The work that a session asks for.
#[derive(Debug, Clone, Copy, PartialEq, Eq, Structural)]
pub enum Action {
    /// Open the source and probe its format with this hint.
    Probe { hint: FormatHint },
    /// Make a decoder for the track at this place.
    MakeDecoder { track: usize },
    /// Sleep this many milliseconds.
    Sleep { millis: u64 },
    /// Fetch the next packet.
    NextPacket,
    /// Decode the packet that was fetched.
    Decode,
    /// Open the sink for the block that was decoded.
    OpenSink,
    /// Set the sink to this volume and write the decoded block to it.
    Write { volume: u32 },
    /// Flush the sink.
    Flush,
    /// End the session.
    Finish(SessionEnd),
}

/// How the work that a session asked for went.
#[derive(Debug)]
pub enum Event {
    /// The session begins.
    Start,
    /// The source was probed and has these tracks.
    Probed { tracks: Vec<TrackInfo> },
    /// The source could not be opened or probed.
    ProbeFailed,
    /// The decoder is made.
    DecoderReady,
    /// No decoder could be made.
    DecoderFailed,
    /// The sleep is over.
    Slept,
    /// A packet of this track was fetched.
    Packet { track_id: u32 },
    /// No packet could be fetched.
    PacketFailed(StreamFault),
    /// The packet was decoded.
    Decoded,
    /// The packet could not be decoded.
    DecodeFailed(StreamFault),
    /// The sink is open.
    SinkOpened,
    /// The sink could not be opened.
    SinkFailed(AudioOutputError),
    /// The block was written.
    Written,
    /// The block could not be written.
    WriteFailed(AudioOutputError),
    /// The sink was flushed.
    Flushed,
}

/// The mathematical content of a `PlaybackSession`.
pub ghost struct SessionState {
    /// The work that was asked for.
    pub phase: Phase,
    /// The hint to probe with.
    pub hint: FormatHint,
    /// The track whose packets are played.
    pub track_id: u32,
    /// Whether the sink is open.
    pub has_sink: bool,
    /// The clock, in milliseconds, when playback began: when the probe
    /// was answered.
    pub started: u64,
    /// The clock, in milliseconds, when the elapsed time was last
    /// published, or when playback began if it never was.
    pub last_publish: u64,
    /// How the session ends, once that is decided.
    pub end: SessionEnd,
}

/// What one step does: the session and the shared state after it, and the
/// work that it asks for.
pub ghost struct Step {
    pub session: SessionState,
    pub info: PlayerState,
    pub action: Action,
}

impl SessionState {
    /// A session that has not begun.
    pub open spec fn initial(hint: FormatHint) -> SessionState {
        SessionState {
            phase: Phase::Idle,
            hint,
            track_id: 0,
            has_sink: false,
            started: 0,
            last_publish: 0,
            end: SessionEnd::Completed,
        }
    }

    /// The session in another phase.
    pub open spec fn at(self, phase: Phase) -> SessionState {
        SessionState { phase, ..self }
    }

    /// The end of the session: a session that completed publishes
    /// `Stopped`; one that was aborted leaves the status as it is.
    pub open spec fn conclude(self, info: PlayerState, end: SessionEnd) -> Step {
        Step {
            session: SessionState { phase: Phase::Done, end, ..self },
            info: if end == SessionEnd::Completed {
                info.with_status(Status::Stopped)
            } else {
                info
            },
            action: Action::Finish(end),
        }
    }

    /// The way out of the loop: an open sink is flushed before the session
    /// ends.
    pub open spec fn wind_down(self, info: PlayerState, end: SessionEnd) -> Step {
        if self.has_sink {
            Step {
                session: SessionState { phase: Phase::Flushing, end, ..self },
                info,
                action: Action::Flush,
            }
        } else {
            self.conclude(info, end)
        }
    }

    /// Whether the elapsed time is due to be published at `now`.
    pub open spec fn publish_due(self, now: u64) -> bool {
        now >= self.last_publish && now - self.last_publish >= PUBLISH_INTERVAL_MS
    }

    /// The whole seconds that have passed at `now` since playback began.
    pub open spec fn elapsed_seconds(self, now: u64) -> u64 {
        if now >= self.started {
            ((now - self.started) / (PUBLISH_INTERVAL_MS as int)) as u64
        } else {
            0
        }
    }

    /// The top of the loop. A stopped player ends the session; a paused
    /// one makes it sleep; otherwise the time elapsed since playback began
    /// is published if a second has passed since it last was, and the next
    /// packet is asked for.
    pub open spec fn checkpoint(self, info: PlayerState, now: u64) -> Step {
        if info.status == Status::Stopped {
            self.wind_down(info, SessionEnd::Completed)
        } else if info.status == Status::Paused {
            Step {
                session: self.at(Phase::Sleeping),
                info,
                action: Action::Sleep { millis: PAUSE_POLL_MS },
            }
        } else if self.publish_due(now) {
            Step {
                session: SessionState { phase: Phase::Fetching, last_publish: now, ..self },
                info: info.with_current_time(self.elapsed_seconds(now)),
                action: Action::NextPacket,
            }
        } else {
            Step { session: self.at(Phase::Fetching), info, action: Action::NextPacket }
        }
    }

    /// The status that the session publishes when playback begins:
    /// `Playing` in place of `Loading`, and the status as it is where the
    /// player was paused or resumed in the meantime.
    pub open spec fn status_at_start(status: Status) -> Status {
        if status == Status::Loading {
            Status::Playing
        } else {
            status
        }
    }

    /// What follows the probe. A player that was stopped in the meantime
    /// ends the session. Otherwise the first track that can be decoded is
    /// selected, its duration is published, the status goes from `Loading`
    /// to `Playing`, playback begins at `now`, and a decoder is asked for.
    /// A source without such a track is played to its end at once.
    pub open spec fn after_probe(
        self,
        info: PlayerState,
        now: u64,
        tracks: Seq<TrackInfo>,
    ) -> Step {
        if info.status == Status::Stopped {
            self.wind_down(info, SessionEnd::Completed)
        } else {
            match first_playable(tracks) {
                Some(i) => Step {
                    session: SessionState {
                        phase: Phase::Preparing,
                        track_id: tracks[i].id,
                        started: now,
                        last_publish: now,
                        ..self
                    },
                    info: info.with_total_time(duration_of(tracks[i])).with_status(
                        Self::status_at_start(info.status),
                    ),
                    action: Action::MakeDecoder { track: i as usize },
                },
                None => self.wind_down(info, SessionEnd::Completed),
            }
        }
    }

    /// What follows a failure to fetch a packet: the end of the stream
    /// ends the session as completed, anything else aborts it.
    pub open spec fn after_packet_fault(self, info: PlayerState, fault: StreamFault) -> Step {
        if fault == StreamFault::EndOfStream {
            self.wind_down(info, SessionEnd::Completed)
        } else {
            self.wind_down(info, SessionEnd::Aborted(SessionError::Stream(fault)))
        }
    }

    /// What follows a failure to decode: malformed data is skipped, an I/O
    /// error ends the session as completed, anything else aborts it.
    pub open spec fn after_decode_fault(
        self,
        info: PlayerState,
        now: u64,
        fault: StreamFault,
    ) -> Step {
        if fault == StreamFault::Decode {
            self.checkpoint(info, now)
        } else if fault == StreamFault::Io || fault == StreamFault::EndOfStream {
            self.wind_down(info, SessionEnd::Completed)
        } else {
            self.wind_down(info, SessionEnd::Aborted(SessionError::Stream(fault)))
        }
    }

    /// What follows an event that does not answer the work asked for.
    pub open spec fn stray(self, info: PlayerState) -> Step {
        self.wind_down(info, SessionEnd::Aborted(SessionError::UnexpectedEvent))
    }

    /// One step of the session: from where it stands, the shared state,
    /// the clock and the event, to where it stands next, the shared state
    /// as published, and the work asked for.
    pub open spec fn step(self, info: PlayerState, now: u64, event: Event) -> Step {
        match self.phase {
            Phase::Idle => match event {
                Event::Start => Step {
                    session: self.at(Phase::Probing),
                    info,
                    action: Action::Probe { hint: self.hint },
                },
                _ => self.stray(info),
            },
            Phase::Probing => match event {
                Event::Probed { tracks } => self.after_probe(info, now, tracks@),
                Event::ProbeFailed => self.wind_down(
                    info,
                    SessionEnd::Aborted(SessionError::Probe),
                ),
                _ => self.stray(info),
            },
            Phase::Preparing => match event {
                Event::DecoderReady => self.checkpoint(info, now),
                Event::DecoderFailed => self.wind_down(
                    info,
                    SessionEnd::Aborted(SessionError::Decoder),
                ),
                _ => self.stray(info),
            },
            Phase::Sleeping => match event {
                Event::Slept => self.checkpoint(info, now),
                _ => self.stray(info),
            },
            Phase::Fetching => match event {
                Event::Packet { track_id } => if track_id == self.track_id {
                    Step { session: self.at(Phase::Decoding), info, action: Action::Decode }
                } else {
                    self.checkpoint(info, now)
                },
                Event::PacketFailed(fault) => self.after_packet_fault(info, fault),
                _ => self.stray(info),
            },
            Phase::Decoding => match event {
                Event::Decoded => if self.has_sink {
                    Step {
                        session: self.at(Phase::Writing),
                        info,
                        action: Action::Write { volume: info.volume },
                    }
                } else {
                    Step { session: self.at(Phase::Opening), info, action: Action::OpenSink }
                },
                Event::DecodeFailed(fault) => self.after_decode_fault(info, now, fault),
                _ => self.stray(info),
            },
            Phase::Opening => match event {
                Event::SinkOpened => Step {
                    session: SessionState { phase: Phase::Writing, has_sink: true, ..self },
                    info,
                    action: Action::Write { volume: info.volume },
                },
                Event::SinkFailed(e) => self.wind_down(
                    info,
                    SessionEnd::Aborted(SessionError::Sink(e)),
                ),
                _ => self.stray(info),
            },
            Phase::Writing => match event {
                Event::Written => self.checkpoint(info, now),
                Event::WriteFailed(e) => self.wind_down(
                    info,
                    SessionEnd::Aborted(SessionError::Sink(e)),
                ),
                _ => self.stray(info),
            },
            Phase::Flushing => self.conclude(info, self.end),
            Phase::Done => Step { session: self, info, action: Action::Finish(self.end) },
        }
    }
}

/// A playback session.
pub struct PlaybackSession {
    phase: Phase,
    hint: FormatHint,
    track_id: u32,
    has_sink: bool,
    started: u64,
    last_publish: u64,
    end: SessionEnd,
}

impl View for PlaybackSession {
    type V = SessionState;

    closed spec fn view(&self) -> SessionState {
        SessionState {
            phase: self.phase,
            hint: self.hint,
            track_id: self.track_id,
            has_sink: self.has_sink,
            started: self.started,
            last_publish: self.last_publish,
            end: self.end,
        }
    }
}

impl PlaybackSession {
    /// A session for the source at `url`, which has not begun.
    pub fn new(url: &str) -> (r: PlaybackSession)
        ensures
            r@ == SessionState::initial(hint_of(url@)),
    {
        PlaybackSession {
            phase: Phase::Idle,
            hint: format_hint(url),
            track_id: 0,
            has_sink: false,
            started: 0,
            last_publish: 0,
            end: SessionEnd::Completed,
        }
    }

    /// The work that the session has asked for.
    pub fn phase(&self) -> (r: Phase)
        ensures
            r == self@.phase,
    {
        self.phase
    }

    /// Whether the session has ended.
    pub fn is_done(&self) -> (r: bool)
        ensures
            r == (self@.phase == Phase::Done),
    {
        matches!(self.phase, Phase::Done)
    }

    /// Whether the sink is open.
    pub fn has_sink(&self) -> (r: bool)
        ensures
            r == self@.has_sink,
    {
        self.has_sink
    }

    /// The track whose packets are played, once one is selected.
    pub fn track_id(&self) -> (r: u32)
        ensures
            r == self@.track_id,
    {
        self.track_id
    }

    fn conclude(&mut self, info: &mut PlayerInfo, end: SessionEnd) -> (action: Action)
        ensures
            (Step { session: final(self)@, info: final(info)@, action }) == old(self)@.conclude(
                old(info)@,
                end,
            ),
    {
        self.phase = Phase::Done;
        self.end = end;
        if matches!(end, SessionEnd::Completed) {
            info.set_status(Status::Stopped);
        }
        Action::Finish(end)
    }

    fn wind_down(&mut self, info: &mut PlayerInfo, end: SessionEnd) -> (action: Action)
        ensures
            (Step { session: final(self)@, info: final(info)@, action }) == old(self)@.wind_down(
                old(info)@,
                end,
            ),
    {
        if self.has_sink {
            self.phase = Phase::Flushing;
            self.end = end;
            Action::Flush
        } else {
            self.conclude(info, end)
        }
    }

    fn checkpoint(&mut self, info: &mut PlayerInfo, now: u64) -> (action: Action)
        ensures
            (Step { session: final(self)@, info: final(info)@, action }) == old(self)@.checkpoint(
                old(info)@,
                now,
            ),
    {
        match info.status() {
            Status::Stopped => self.wind_down(info, SessionEnd::Completed),
            Status::Paused => {
                self.phase = Phase::Sleeping;
                Action::Sleep { millis: PAUSE_POLL_MS }
            },
            _ => {
                if now >= self.last_publish && now - self.last_publish >= PUBLISH_INTERVAL_MS {
                    let elapsed = if now >= self.started {
                        (now - self.started) / PUBLISH_INTERVAL_MS
                    } else {
                        0
                    };
                    info.set_current_time(elapsed);
                    self.last_publish = now;
                }
                self.phase = Phase::Fetching;
                Action::NextPacket
            },
        }
    }

    fn after_probe(
        &mut self,
        info: &mut PlayerInfo,
        now: u64,
        tracks: &Vec<TrackInfo>,
    ) -> (action: Action)
        ensures
            (Step { session: final(self)@, info: final(info)@, action })
                == old(self)@.after_probe(old(info)@, now, tracks@),
    {
        let status = info.status();
        if matches!(status, Status::Stopped) {
            return self.wind_down(info, SessionEnd::Completed);
        }
        match select_track(tracks) {
            Some(i) => {
                let track = tracks[i];
                info.set_total_time(total_time(&track));
                if matches!(status, Status::Loading) {
                    info.set_status(Status::Playing);
                }
                self.track_id = track.id;
                self.started = now;
                self.last_publish = now;
                self.phase = Phase::Preparing;
                Action::MakeDecoder { track: i }
            },
            None => self.wind_down(info, SessionEnd::Completed),
        }
    }

    fn stray(&mut self, info: &mut PlayerInfo) -> (action: Action)
        ensures
            (Step { session: final(self)@, info: final(info)@, action }) == old(self)@.stray(
                old(info)@,
            ),
    {
        self.wind_down(info, SessionEnd::Aborted(SessionError::UnexpectedEvent))
    }

    /// Takes one step: tells the session how the work that it asked for
    /// went, lets it read and publish the shared state, and returns the
    /// work that it asks for next. `now` is a clock in milliseconds that
    /// does not run back; the session counts the time played from the
    /// step that answers the probe.
    ///
    /// The first event is `Start`. After `Finish` the session is done, and
    /// further steps change nothing and return `Finish` again. An event
    /// that does not answer the work asked for aborts the session.
    pub fn step(&mut self, info: &mut PlayerInfo, now: u64, event: Event) -> (action: Action)
        ensures
            (Step { session: final(self)@, info: final(info)@, action }) == old(self)@.step(
                old(info)@,
                now,
                event,
            ),
    {
        match self.phase {
            Phase::Idle => match event {
                Event::Start => {
                    self.phase = Phase::Probing;
                    Action::Probe { hint: self.hint }
                },
                _ => self.stray(info),
            },
            Phase::Probing => match event {
                Event::Probed { tracks } => self.after_probe(info, now, &tracks),
                Event::ProbeFailed => self.wind_down(
                    info,
                    SessionEnd::Aborted(SessionError::Probe),
                ),
                _ => self.stray(info),
            },
            Phase::Preparing => match event {
                Event::DecoderReady => self.checkpoint(info, now),
                Event::DecoderFailed => self.wind_down(
                    info,
                    SessionEnd::Aborted(SessionError::Decoder),
                ),
                _ => self.stray(info),
            },
            Phase::Sleeping => match event {
                Event::Slept => self.checkpoint(info, now),
                _ => self.stray(info),
            },
            Phase::Fetching => match event {
                Event::Packet { track_id } => {
                    if track_id == self.track_id {
                        self.phase = Phase::Decoding;
                        Action::Decode
                    } else {
                        self.checkpoint(info, now)
                    }
                },
                Event::PacketFailed(fault) => {
                    if matches!(fault, StreamFault::EndOfStream) {
                        self.wind_down(info, SessionEnd::Completed)
                    } else {
                        self.wind_down(info, SessionEnd::Aborted(SessionError::Stream(fault)))
                    }
                },
                _ => self.stray(info),
            },
            Phase::Decoding => match event {
                Event::Decoded => {
                    if self.has_sink {
                        self.phase = Phase::Writing;
                        Action::Write { volume: info.volume() }
                    } else {
                        self.phase = Phase::Opening;
                        Action::OpenSink
                    }
                },
                Event::DecodeFailed(fault) => match fault {
                    StreamFault::Decode => self.checkpoint(info, now),
                    StreamFault::Io | StreamFault::EndOfStream => self.wind_down(
                        info,
                        SessionEnd::Completed,
                    ),
                    _ => self.wind_down(info, SessionEnd::Aborted(SessionError::Stream(fault))),
                },
                _ => self.stray(info),
            },
            Phase::Opening => match event {
                Event::SinkOpened => {
                    self.has_sink = true;
                    self.phase = Phase::Writing;
                    Action::Write { volume: info.volume() }
                },
                Event::SinkFailed(e) => self.wind_down(
                    info,
                    SessionEnd::Aborted(SessionError::Sink(e)),
                ),
                _ => self.stray(info),
            },
            Phase::Writing => match event {
                Event::Written => self.checkpoint(info, now),
                Event::WriteFailed(e) => self.wind_down(
                    info,
                    SessionEnd::Aborted(SessionError::Sink(e)),
                ),
                _ => self.stray(info),
            },
            Phase::Flushing => {
                let end = self.end;
                self.conclude(info, end)
            },
            Phase::Done => Action::Finish(self.end),
        }
    }
}

/// Whether an event brings a session back to the top of its loop: the
/// decoder is made, a sleep is over, a block is written, a packet of
/// another track is dropped, or malformed data is skipped.
pub open spec fn returns_to_top(s: SessionState, event: Event) -> bool {
    match s.phase {
        Phase::Preparing => event is DecoderReady,
        Phase::Sleeping => event is Slept,
        Phase::Writing => event is Written,
        Phase::Fetching => event matches Event::Packet { track_id } && track_id != s.track_id,
        Phase::Decoding => event matches Event::DecodeFailed(fault) && fault == StreamFault::Decode,
        _ => false,
    }
}

/// At the top of its loop a session of a stopped player fetches nothing
/// more: it flushes the sink if one is open, and ends as completed.
pub proof fn lemma_stopped_player_ends_session(
    s: SessionState,
    info: PlayerState,
    now: u64,
    event: Event,
)
    requires
        returns_to_top(s, event),
        info.status == Status::Stopped,
    ensures
        s.step(info, now, event).info == info,
        s.has_sink ==> s.step(info, now, event).action == Action::Flush && s.step(
            info,
            now,
            event,
        ).session.end == SessionEnd::Completed,
        !s.has_sink ==> s.step(info, now, event).action == Action::Finish(SessionEnd::Completed),
{
}

/// Once the player is stopped, a session asks for no decoder and no
/// further packet and does not sleep, wherever it stands, and leaves the
/// shared state as it is.
pub proof fn lemma_stopped_player_fetches_no_more(
    s: SessionState,
    info: PlayerState,
    now: u64,
    event: Event,
)
    requires
        info.status == Status::Stopped,
    ensures
        s.step(info, now, event).action != Action::NextPacket,
        !(s.step(info, now, event).action is Sleep),
        !(s.step(info, now, event).action is MakeDecoder),
        s.step(info, now, event).info == info,
{
}

/// A stop or a pause that comes while the source is probed is not lost.
/// When the probe is answered, a stopped player ends the session without
/// a decoder; a paused player stays paused, and the session sleeps once
/// its decoder is made.
pub proof fn lemma_probe_keeps_stop_and_pause(
    s: SessionState,
    info: PlayerState,
    now: u64,
    later: u64,
    tracks: Vec<TrackInfo>,
)
    requires
        s.phase == Phase::Probing,
        !s.has_sink,
    ensures
        ({
            let probed = s.step(info, now, Event::Probed { tracks });
            let prepared = probed.session.step(probed.info, later, Event::DecoderReady);
            &&& info.status == Status::Stopped ==> probed.action == Action::Finish(
                SessionEnd::Completed,
            ) && probed.info == info
            &&& info.status == Status::Paused && first_playable(tracks@) is Some
                ==> probed.action is MakeDecoder && probed.info.status == Status::Paused
                && prepared.action == Action::Sleep { millis: PAUSE_POLL_MS }
            &&& info.status == Status::Loading && first_playable(tracks@) is Some
                ==> probed.action is MakeDecoder && probed.info.status == Status::Playing
                && probed.info.total_time == duration_of(tracks@[first_playable(tracks@)->0])
                && probed.session.started == now
        }),
{
}

/// At the top of its loop a session of a paused player sleeps, and
/// publishes nothing: while the player is paused, no step changes the
/// elapsed time.
pub proof fn lemma_paused_player_keeps_time(
    s: SessionState,
    info: PlayerState,
    now: u64,
    event: Event,
)
    requires
        info.status == Status::Paused,
    ensures
        s.step(info, now, event).info.current_time == info.current_time,
        s.step(info, now, event).info.status == Status::Paused || s.step(
            info,
            now,
            event,
        ).action == Action::Finish(SessionEnd::Completed),
        returns_to_top(s, event) ==> s.step(info, now, event) == (Step {
            session: s.at(Phase::Sleeping),
            info,
            action: Action::Sleep { millis: PAUSE_POLL_MS },
        }),
{
}

/// What a step may do to the shared state. It never touches the volume.
/// It leaves the status, or takes it from `Loading` to `Playing` when the
/// probe has found a track, or publishes `Stopped` when the session ends as
/// completed. It publishes the elapsed time only on the way to the next
/// packet, as the whole seconds since playback began. A session that is
/// aborted leaves the shared state as it is.
pub proof fn lemma_step_publishes(s: SessionState, info: PlayerState, now: u64, event: Event)
    ensures
        s.step(info, now, event).info.volume == info.volume,
        info.valid() ==> s.step(info, now, event).info.valid(),
        s.step(info, now, event).info.status == info.status || (s.step(
            info,
            now,
            event,
        ).info.status == Status::Playing && info.status == Status::Loading && s.phase
            == Phase::Probing && event is Probed && s.step(info, now, event).action is MakeDecoder)
            || (s.step(info, now, event).info.status == Status::Stopped
            && s.step(info, now, event).action == Action::Finish(SessionEnd::Completed)),
        s.step(info, now, event).info.current_time == info.current_time || (s.step(
            info,
            now,
            event,
        ).action == Action::NextPacket && s.step(info, now, event).info.current_time
            == s.elapsed_seconds(now)),
        s.step(info, now, event).action matches Action::Finish(SessionEnd::Aborted(_)) ==> s.step(
            info,
            now,
            event,
        ).info == info,
{
}

/// Whether the status is what a session that nothing interferes with has
/// published where it stands: `Loading` until the probe is answered, when
/// no sink is open yet, then `Playing` until the session ends.
pub open spec fn undisturbed(s: SessionState, info: PlayerState) -> bool {
    match s.phase {
        Phase::Idle | Phase::Probing => info.status == Status::Loading && !s.has_sink,
        Phase::Done => true,
        _ => info.status == Status::Playing,
    }
}

/// Whether a session may take the status from `before` to `after`: it
/// leaves it, or goes from `Loading` to `Playing`, or ends in `Stopped`.
pub open spec fn session_transition(before: Status, after: Status) -> bool {
    ||| after == before
    ||| before == Status::Loading && after == Status::Playing
    ||| (before == Status::Loading || before == Status::Playing) && after == Status::Stopped
}

/// A session that nothing interferes with takes the status from `Loading`
/// to `Playing` when the probe has found a track, and from there to
/// `Stopped` when it ends as completed, and makes no other change to it.
pub proof fn lemma_undisturbed_session_status(
    s: SessionState,
    info: PlayerState,
    now: u64,
    event: Event,
)
    requires
        undisturbed(s, info),
    ensures
        undisturbed(s.step(info, now, event).session, s.step(info, now, event).info),
        s.phase != Phase::Done ==> session_transition(
            info.status,
            s.step(info, now, event).info.status,
        ),
        s.step(info, now, event).info.status == Status::Stopped && s.phase != Phase::Done
            ==> s.step(info, now, event).action == Action::Finish(SessionEnd::Completed),
{
}

/// A request to play that is accepted leaves the player as a new session
/// expects it: loading, at time zero.
pub proof fn lemma_play_starts_undisturbed(
    player: ControllerState,
    url: Seq<char>,
    probe: ProbeOutcome,
)
    requires
        url_verdict(url, probe) is Ok,
    ensures
        undisturbed(SessionState::initial(hint_of(url)), player.played(url, probe).info),
        player.played(url, probe).info.current_time == 0,
{
}

/// When the stream is exhausted the session ends as completed and the
/// player is stopped, after the flush of the sink if one is open.
pub proof fn lemma_end_of_stream_stops(s: SessionState, info: PlayerState, now: u64, later: u64)
    requires
        s.phase == Phase::Fetching,
    ensures
        ({
            let ended = s.step(info, now, Event::PacketFailed(StreamFault::EndOfStream));
            let flushed = ended.session.step(ended.info, later, Event::Flushed);
            &&& !s.has_sink ==> ended.action == Action::Finish(SessionEnd::Completed)
                && ended.info.status == Status::Stopped
            &&& s.has_sink ==> ended.action == Action::Flush && ended.info == info
                && flushed.action == Action::Finish(SessionEnd::Completed) && flushed.info
                == info.with_status(Status::Stopped)
        }),
{
}

/// A sink that is open is flushed before the session ends, and once: with
/// an open sink, no step ends the session but the one that answers the
/// flush; a step that asks for the flush waits for its answer; and the
/// answer ends the session as was decided when the flush was asked for.
pub proof fn lemma_open_sink_is_flushed(s: SessionState, info: PlayerState, now: u64, event: Event)
    requires
        s.has_sink,
        s.phase != Phase::Done,
    ensures
        s.phase != Phase::Flushing ==> !(s.step(info, now, event).action is Finish),
        s.step(info, now, event).action == Action::Flush ==> s.phase != Phase::Flushing && s.step(
            info,
            now,
            event,
        ).session.phase == Phase::Flushing,
        s.phase == Phase::Flushing ==> s.step(info, now, event).action == Action::Finish(s.end)
            && s.step(info, now, event).session.phase == Phase::Done,
{
}

/// A session that has ended stays as it is: further steps change nothing
/// and say again how it ended.
pub proof fn lemma_done_is_final(s: SessionState, info: PlayerState, now: u64, event: Event)
    ensures
        s.phase == Phase::Done ==> s.step(info, now, event) == (Step {
            session: s,
            info,
            action: Action::Finish(s.end),
        }),
        s.step(info, now, event).action is Finish <==> s.step(info, now, event).session.phase
            == Phase::Done,
{
}

/// Malformed data does not end playback. While the player plays, a packet
/// that cannot be decoded is skipped and the next one is asked for; when
/// that one is of the selected track and decodes, its block is written to
/// the sink, at the volume of the player.
pub proof fn lemma_decode_error_is_skipped(
    s: SessionState,
    info: PlayerState,
    now: u64,
    later: u64,
    last: u64,
)
    requires
        s.phase == Phase::Decoding,
        s.has_sink,
        info.status == Status::Playing,
    ensures
        ({
            let skipped = s.step(info, now, Event::DecodeFailed(StreamFault::Decode));
            let fetched = skipped.session.step(
                skipped.info,
                later,
                Event::Packet { track_id: s.track_id },
            );
            let decoded = fetched.session.step(fetched.info, last, Event::Decoded);
            &&& skipped.action == Action::NextPacket
            &&& skipped.session.has_sink
            &&& skipped.info.status == Status::Playing
            &&& fetched.action == Action::Decode
            &&& decoded.action == Action::Write { volume: info.volume }
        }),
{
}

/// The first block that is decoded opens the sink, and is written to it
/// once the sink is open. A sink that cannot be opened aborts the session.
pub proof fn lemma_first_block_opens_sink(
    s: SessionState,
    info: PlayerState,
    now: u64,
    e: AudioOutputError,
)
    requires
        s.phase == Phase::Decoding,
        !s.has_sink,
    ensures
        ({
            let decoded = s.step(info, now, Event::Decoded);
            let opened = decoded.session.step(decoded.info, now, Event::SinkOpened);
            let failed = decoded.session.step(decoded.info, now, Event::SinkFailed(e));
            &&& decoded.action == Action::OpenSink
            &&& opened.action == Action::Write { volume: info.volume }
            &&& opened.session.has_sink
            &&& failed.action == Action::Finish(SessionEnd::Aborted(SessionError::Sink(e)))
            &&& failed.info == info
        }),
{
}

} // verus!
