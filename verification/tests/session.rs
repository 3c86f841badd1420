use stream_player::audio::AudioOutputError;
use stream_player::player::session::{
    format_hint, select_track, total_time, Action, Event, FormatHint, Phase, PlaybackSession,
    SessionEnd, SessionError, StreamFault, TrackInfo,
};
use stream_player::player::{PlayerInfo, Status};

fn track(id: u32, has_codec: bool, n_frames: Option<u64>, sample_rate: Option<u32>) -> TrackInfo {
    TrackInfo { id, has_codec, n_frames, sample_rate }
}

fn loading() -> PlayerInfo {
    let mut info = PlayerInfo::new();
    info.set_status(Status::Loading);
    info
}

/// A session that has probed a source with one track, number 7, of 441000
/// frames at 44100 per second, and has its decoder.
fn at_first_fetch(info: &mut PlayerInfo) -> PlaybackSession {
    let mut s = PlaybackSession::new("http://host/a.mp3");
    assert_eq!(s.step(info, 0, Event::Start), Action::Probe { hint: FormatHint::Mp3 });
    let tracks = vec![track(7, true, Some(441_000), Some(44_100))];
    assert_eq!(s.step(info, 0, Event::Probed { tracks }), Action::MakeDecoder { track: 0 });
    assert_eq!(s.step(info, 0, Event::DecoderReady), Action::NextPacket);
    s
}

/// The same session after its first block was written.
fn playing(info: &mut PlayerInfo) -> PlaybackSession {
    let mut s = at_first_fetch(info);
    assert_eq!(s.step(info, 10, Event::Packet { track_id: 7 }), Action::Decode);
    assert_eq!(s.step(info, 20, Event::Decoded), Action::OpenSink);
    assert!(matches!(s.step(info, 30, Event::SinkOpened), Action::Write { .. }));
    assert_eq!(s.step(info, 40, Event::Written), Action::NextPacket);
    s
}

#[test]
fn hints() {
    assert_eq!(format_hint("http://host/a.mp3"), FormatHint::Mp3);
    assert_eq!(format_hint("http://host/a.flac"), FormatHint::Flac);
    assert_eq!(format_hint("http://host/a.ogg"), FormatHint::Unknown);
    assert_eq!(format_hint("http://host/a.MP3"), FormatHint::Unknown);
    assert_eq!(format_hint("http://host/a.mp3?x=1"), FormatHint::Unknown);
    assert_eq!(format_hint(".mp3"), FormatHint::Mp3);
    assert_eq!(format_hint("mp3"), FormatHint::Unknown);
    assert_eq!(format_hint(""), FormatHint::Unknown);
    assert_eq!(FormatHint::Mp3.extension(), Some("mp3"));
    assert_eq!(FormatHint::Flac.extension(), Some("flac"));
    assert_eq!(FormatHint::Unknown.extension(), None);
}

#[test]
fn the_first_track_with_a_codec_is_selected() {
    assert_eq!(select_track(&vec![]), None);
    assert_eq!(select_track(&vec![track(1, false, None, None)]), None);
    assert_eq!(select_track(&vec![track(1, true, None, None)]), Some(0));
    let tracks = vec![
        track(1, false, None, None),
        track(2, false, None, None),
        track(3, true, None, None),
        track(4, true, None, None),
    ];
    assert_eq!(select_track(&tracks), Some(2));
}

#[test]
fn durations() {
    assert_eq!(total_time(&track(1, true, Some(441_000), Some(44_100))), Some(10));
    assert_eq!(total_time(&track(1, true, Some(441_001), Some(44_100))), Some(10));
    assert_eq!(total_time(&track(1, true, Some(44_099), Some(44_100))), Some(0));
    assert_eq!(total_time(&track(1, true, Some(0), Some(48_000))), Some(0));
    assert_eq!(total_time(&track(1, true, Some(u64::MAX), Some(1))), Some(u64::MAX));
    assert_eq!(total_time(&track(1, true, None, Some(44_100))), None);
    assert_eq!(total_time(&track(1, true, Some(441_000), None)), None);
    assert_eq!(total_time(&track(1, true, None, None)), None);
    assert_eq!(total_time(&track(1, true, Some(441_000), Some(0))), None);
}

#[test]
fn a_whole_session() {
    let mut info = loading();
    let mut s = PlaybackSession::new("http://host/a.flac");
    assert_eq!(s.phase(), Phase::Idle);
    assert_eq!(s.step(&mut info, 0, Event::Start), Action::Probe { hint: FormatHint::Flac });
    assert_eq!(info.status(), Status::Loading);
    let tracks = vec![track(3, false, None, None), track(7, true, Some(96_000), Some(48_000))];
    assert_eq!(s.step(&mut info, 5, Event::Probed { tracks }), Action::MakeDecoder { track: 1 });
    assert_eq!(info.status(), Status::Playing);
    assert_eq!(info.total_time(), Some(2));
    assert_eq!(s.track_id(), 7);
    assert_eq!(s.step(&mut info, 6, Event::DecoderReady), Action::NextPacket);
    assert_eq!(s.step(&mut info, 7, Event::Packet { track_id: 7 }), Action::Decode);
    assert_eq!(s.step(&mut info, 8, Event::Decoded), Action::OpenSink);
    assert!(!s.has_sink());
    assert_eq!(
        s.step(&mut info, 9, Event::SinkOpened),
        Action::Write { volume: 1.0f32.to_bits() }
    );
    assert!(s.has_sink());
    assert_eq!(s.step(&mut info, 500, Event::Written), Action::NextPacket);
    assert_eq!(info.current_time(), 0);
    assert_eq!(s.step(&mut info, 501, Event::Packet { track_id: 7 }), Action::Decode);
    assert_eq!(
        s.step(&mut info, 502, Event::Decoded),
        Action::Write { volume: 1.0f32.to_bits() }
    );
    assert_eq!(s.step(&mut info, 1004, Event::Written), Action::NextPacket);
    assert_eq!(info.current_time(), 0);
    assert_eq!(s.step(&mut info, 1005, Event::Packet { track_id: 3 }), Action::NextPacket);
    assert_eq!(info.current_time(), 1);
    assert_eq!(
        s.step(&mut info, 1006, Event::PacketFailed(StreamFault::EndOfStream)),
        Action::Flush
    );
    assert_eq!(info.status(), Status::Playing);
    assert!(!s.is_done());
    assert_eq!(s.step(&mut info, 1007, Event::Flushed), Action::Finish(SessionEnd::Completed));
    assert_eq!(info.status(), Status::Stopped);
    assert!(s.is_done());
    assert_eq!(s.step(&mut info, 1008, Event::Start), Action::Finish(SessionEnd::Completed));
    assert_eq!(s.phase(), Phase::Done);
}

#[test]
fn time_is_published_once_a_second() {
    let mut info = loading();
    let mut s = playing(&mut info);
    assert_eq!(info.current_time(), 0);
    for (now, expected) in [(999u64, 0u64), (1000, 1), (1999, 1), (2000, 2), (2500, 2), (7345, 7), (8344, 7), (8345, 8)] {
        assert_eq!(s.step(&mut info, now, Event::Packet { track_id: 7 }), Action::Decode);
        assert!(matches!(s.step(&mut info, now, Event::Decoded), Action::Write { .. }));
        assert_eq!(s.step(&mut info, now, Event::Written), Action::NextPacket);
        assert_eq!(info.current_time(), expected, "at {now}");
    }
}

#[test]
fn the_time_played_counts_from_the_probe() {
    let mut info = loading();
    let mut s = PlaybackSession::new("http://host/a.mp3");
    s.step(&mut info, 0, Event::Start);
    let tracks = vec![track(7, true, None, None)];
    assert_eq!(s.step(&mut info, 3000, Event::Probed { tracks }), Action::MakeDecoder { track: 0 });
    assert_eq!(s.step(&mut info, 3999, Event::DecoderReady), Action::NextPacket);
    assert_eq!(info.current_time(), 0);
    assert_eq!(s.step(&mut info, 4000, Event::Packet { track_id: 9 }), Action::NextPacket);
    assert_eq!(info.current_time(), 1);
    assert_eq!(s.step(&mut info, 8500, Event::Packet { track_id: 9 }), Action::NextPacket);
    assert_eq!(info.current_time(), 5);
}

#[test]
fn a_stop_during_the_probe_ends_the_session() {
    let mut info = loading();
    let mut s = PlaybackSession::new("http://host/a.mp3");
    s.step(&mut info, 0, Event::Start);
    info.set_status(Status::Stopped);
    info.set_total_time(Some(99));
    let tracks = vec![track(7, true, Some(441_000), Some(44_100))];
    assert_eq!(
        s.step(&mut info, 10, Event::Probed { tracks }),
        Action::Finish(SessionEnd::Completed)
    );
    assert_eq!(info.status(), Status::Stopped);
    assert_eq!(info.total_time(), Some(99));
    assert_eq!(info.current_time(), 0);
    assert!(s.is_done());
}

#[test]
fn a_pause_during_the_probe_is_kept() {
    let mut info = loading();
    let mut s = PlaybackSession::new("http://host/a.mp3");
    s.step(&mut info, 0, Event::Start);
    info.set_status(Status::Paused);
    let tracks = vec![track(7, true, Some(441_000), Some(44_100))];
    assert_eq!(s.step(&mut info, 10, Event::Probed { tracks }), Action::MakeDecoder { track: 0 });
    assert_eq!(info.status(), Status::Paused);
    assert_eq!(info.total_time(), Some(10));
    assert_eq!(s.step(&mut info, 20, Event::DecoderReady), Action::Sleep { millis: 10 });
    assert_eq!(info.status(), Status::Paused);
    info.set_status(Status::Playing);
    assert_eq!(s.step(&mut info, 30, Event::Slept), Action::NextPacket);
}

#[test]
fn a_resume_during_the_probe_is_kept() {
    let mut info = loading();
    let mut s = PlaybackSession::new("http://host/a.mp3");
    s.step(&mut info, 0, Event::Start);
    info.set_status(Status::Playing);
    let tracks = vec![track(7, true, None, None)];
    assert_eq!(s.step(&mut info, 10, Event::Probed { tracks }), Action::MakeDecoder { track: 0 });
    assert_eq!(info.status(), Status::Playing);
}

#[test]
fn a_clock_that_runs_back_publishes_nothing() {
    let mut info = loading();
    let mut s = playing(&mut info);
    assert_eq!(s.step(&mut info, 5000, Event::Packet { track_id: 9 }), Action::NextPacket);
    assert_eq!(info.current_time(), 5);
    assert_eq!(s.step(&mut info, 100, Event::Packet { track_id: 9 }), Action::NextPacket);
    assert_eq!(info.current_time(), 5);
}

#[test]
fn packets_of_other_tracks_are_dropped() {
    let mut info = loading();
    let mut s = at_first_fetch(&mut info);
    assert_eq!(s.step(&mut info, 1, Event::Packet { track_id: 8 }), Action::NextPacket);
    assert_eq!(s.step(&mut info, 2, Event::Packet { track_id: 0 }), Action::NextPacket);
    assert_eq!(s.step(&mut info, 3, Event::Packet { track_id: 7 }), Action::Decode);
}

#[test]
fn a_source_without_a_playable_track_is_played_at_once() {
    let mut info = loading();
    let mut s = PlaybackSession::new("http://host/a");
    assert_eq!(s.step(&mut info, 0, Event::Start), Action::Probe { hint: FormatHint::Unknown });
    let tracks = vec![track(1, false, Some(10), Some(10))];
    assert_eq!(s.step(&mut info, 0, Event::Probed { tracks }), Action::Finish(SessionEnd::Completed));
    assert_eq!(info.status(), Status::Stopped);
    assert_eq!(info.total_time(), None);
}

#[test]
fn a_failed_probe_aborts_and_leaves_the_status() {
    let mut info = loading();
    let mut s = PlaybackSession::new("http://host/a.mp3");
    s.step(&mut info, 0, Event::Start);
    assert_eq!(
        s.step(&mut info, 0, Event::ProbeFailed),
        Action::Finish(SessionEnd::Aborted(SessionError::Probe))
    );
    assert_eq!(info.status(), Status::Loading);
    assert!(s.is_done());
}

#[test]
fn a_failed_decoder_aborts_and_leaves_the_status() {
    let mut info = loading();
    let mut s = PlaybackSession::new("http://host/a.mp3");
    s.step(&mut info, 0, Event::Start);
    s.step(&mut info, 0, Event::Probed { tracks: vec![track(1, true, None, None)] });
    assert_eq!(
        s.step(&mut info, 0, Event::DecoderFailed),
        Action::Finish(SessionEnd::Aborted(SessionError::Decoder))
    );
    assert_eq!(info.status(), Status::Playing);
}

#[test]
fn a_stopped_player_ends_the_session_after_a_flush() {
    let mut info = loading();
    let mut s = playing(&mut info);
    assert_eq!(s.step(&mut info, 50, Event::Packet { track_id: 7 }), Action::Decode);
    assert!(matches!(s.step(&mut info, 60, Event::Decoded), Action::Write { .. }));
    info.set_status(Status::Stopped);
    info.set_current_time(0);
    assert_eq!(s.step(&mut info, 5000, Event::Written), Action::Flush);
    assert_eq!(info.current_time(), 0);
    assert_eq!(s.step(&mut info, 5001, Event::Flushed), Action::Finish(SessionEnd::Completed));
    assert_eq!(info.status(), Status::Stopped);
    assert_eq!(info.current_time(), 0);
}

#[test]
fn a_stopped_player_ends_a_session_without_sink_at_once() {
    let mut info = loading();
    let mut s = PlaybackSession::new("http://host/a.mp3");
    s.step(&mut info, 0, Event::Start);
    s.step(&mut info, 0, Event::Probed { tracks: vec![track(1, true, None, None)] });
    info.set_status(Status::Stopped);
    assert_eq!(s.step(&mut info, 0, Event::DecoderReady), Action::Finish(SessionEnd::Completed));
}

#[test]
fn a_paused_player_makes_the_session_sleep() {
    let mut info = loading();
    let mut s = playing(&mut info);
    assert_eq!(s.step(&mut info, 1500, Event::Packet { track_id: 9 }), Action::NextPacket);
    assert_eq!(info.current_time(), 1);
    assert_eq!(s.step(&mut info, 1600, Event::Packet { track_id: 7 }), Action::Decode);
    info.set_status(Status::Paused);
    assert!(matches!(s.step(&mut info, 1700, Event::Decoded), Action::Write { .. }));
    assert_eq!(s.step(&mut info, 1800, Event::Written), Action::Sleep { millis: 10 });
    for now in [1810u64, 2820, 9830, 60_000] {
        assert_eq!(s.step(&mut info, now, Event::Slept), Action::Sleep { millis: 10 });
        assert_eq!(info.current_time(), 1);
        assert_eq!(info.status(), Status::Paused);
    }
    info.set_status(Status::Playing);
    assert_eq!(s.step(&mut info, 60_010, Event::Slept), Action::NextPacket);
    assert_eq!(info.current_time(), 60);
}

#[test]
fn a_stop_while_paused_ends_the_session() {
    let mut info = loading();
    let mut s = playing(&mut info);
    info.set_status(Status::Paused);
    assert_eq!(s.step(&mut info, 100, Event::Packet { track_id: 9 }), Action::Sleep { millis: 10 });
    info.set_status(Status::Stopped);
    assert_eq!(s.step(&mut info, 110, Event::Slept), Action::Flush);
    assert_eq!(s.step(&mut info, 120, Event::Flushed), Action::Finish(SessionEnd::Completed));
}

#[test]
fn a_decode_error_does_not_end_playback() {
    let mut info = loading();
    let mut s = playing(&mut info);
    assert_eq!(s.step(&mut info, 50, Event::Packet { track_id: 7 }), Action::Decode);
    assert_eq!(s.step(&mut info, 60, Event::DecodeFailed(StreamFault::Decode)), Action::NextPacket);
    assert!(!s.is_done());
    assert!(s.has_sink());
    assert_eq!(info.status(), Status::Playing);
    assert_eq!(s.step(&mut info, 70, Event::Packet { track_id: 7 }), Action::Decode);
    assert_eq!(
        s.step(&mut info, 80, Event::Decoded),
        Action::Write { volume: 1.0f32.to_bits() }
    );
}

#[test]
fn a_decode_error_before_the_first_block() {
    let mut info = loading();
    let mut s = at_first_fetch(&mut info);
    assert_eq!(s.step(&mut info, 1, Event::Packet { track_id: 7 }), Action::Decode);
    assert_eq!(s.step(&mut info, 2, Event::DecodeFailed(StreamFault::Decode)), Action::NextPacket);
    assert_eq!(s.step(&mut info, 3, Event::Packet { track_id: 7 }), Action::Decode);
    assert_eq!(s.step(&mut info, 4, Event::Decoded), Action::OpenSink);
}

#[test]
fn faults_of_the_demuxer() {
    let fatal = [
        StreamFault::Io,
        StreamFault::Decode,
        StreamFault::Seek,
        StreamFault::Unsupported,
        StreamFault::Limit,
        StreamFault::ResetRequired,
    ];
    for fault in fatal {
        let mut info = loading();
        let mut s = playing(&mut info);
        assert_eq!(s.step(&mut info, 50, Event::PacketFailed(fault)), Action::Flush);
        assert_eq!(
            s.step(&mut info, 60, Event::Flushed),
            Action::Finish(SessionEnd::Aborted(SessionError::Stream(fault)))
        );
        assert_eq!(info.status(), Status::Playing);
    }
    let mut info = loading();
    let mut s = at_first_fetch(&mut info);
    assert_eq!(
        s.step(&mut info, 50, Event::PacketFailed(StreamFault::ResetRequired)),
        Action::Finish(SessionEnd::Aborted(SessionError::Stream(StreamFault::ResetRequired)))
    );
    let mut info = loading();
    let mut s = at_first_fetch(&mut info);
    assert_eq!(
        s.step(&mut info, 50, Event::PacketFailed(StreamFault::EndOfStream)),
        Action::Finish(SessionEnd::Completed)
    );
    assert_eq!(info.status(), Status::Stopped);
}

#[test]
fn faults_of_the_decoder() {
    for fault in [StreamFault::Io, StreamFault::EndOfStream] {
        let mut info = loading();
        let mut s = playing(&mut info);
        s.step(&mut info, 50, Event::Packet { track_id: 7 });
        assert_eq!(s.step(&mut info, 60, Event::DecodeFailed(fault)), Action::Flush);
        assert_eq!(s.step(&mut info, 70, Event::Flushed), Action::Finish(SessionEnd::Completed));
        assert_eq!(info.status(), Status::Stopped);
    }
    for fault in
        [StreamFault::Seek, StreamFault::Unsupported, StreamFault::Limit, StreamFault::ResetRequired]
    {
        let mut info = loading();
        let mut s = playing(&mut info);
        s.step(&mut info, 50, Event::Packet { track_id: 7 });
        assert_eq!(s.step(&mut info, 60, Event::DecodeFailed(fault)), Action::Flush);
        assert_eq!(
            s.step(&mut info, 70, Event::Flushed),
            Action::Finish(SessionEnd::Aborted(SessionError::Stream(fault)))
        );
        assert_eq!(info.status(), Status::Playing);
    }
}

#[test]
fn a_sink_that_cannot_be_opened_aborts() {
    for e in [AudioOutputError::OpenStreamError, AudioOutputError::PlayStreamError] {
        let mut info = loading();
        let mut s = at_first_fetch(&mut info);
        s.step(&mut info, 1, Event::Packet { track_id: 7 });
        assert_eq!(s.step(&mut info, 2, Event::Decoded), Action::OpenSink);
        assert_eq!(
            s.step(&mut info, 3, Event::SinkFailed(e)),
            Action::Finish(SessionEnd::Aborted(SessionError::Sink(e)))
        );
        assert_eq!(info.status(), Status::Playing);
        assert!(!s.has_sink());
    }
}

#[test]
fn a_write_that_fails_aborts_after_a_flush() {
    let mut info = loading();
    let mut s = playing(&mut info);
    s.step(&mut info, 50, Event::Packet { track_id: 7 });
    s.step(&mut info, 60, Event::Decoded);
    let e = AudioOutputError::PlayStreamError;
    assert_eq!(s.step(&mut info, 70, Event::WriteFailed(e)), Action::Flush);
    assert_eq!(
        s.step(&mut info, 80, Event::Flushed),
        Action::Finish(SessionEnd::Aborted(SessionError::Sink(e)))
    );
}

#[test]
fn the_write_uses_the_volume_of_the_moment() {
    let mut info = loading();
    let mut s = playing(&mut info);
    s.step(&mut info, 50, Event::Packet { track_id: 7 });
    assert_eq!(info.set_volume(0.25f32.to_bits()), Ok(()));
    assert_eq!(
        s.step(&mut info, 60, Event::Decoded),
        Action::Write { volume: 0.25f32.to_bits() }
    );
    s.step(&mut info, 70, Event::Written);
    s.step(&mut info, 80, Event::Packet { track_id: 7 });
    assert_eq!(info.set_volume(0.0f32.to_bits()), Ok(()));
    assert_eq!(s.step(&mut info, 90, Event::Decoded), Action::Write { volume: 0 });
}

#[test]
fn an_event_that_was_not_asked_for_aborts() {
    let mut info = loading();
    let mut s = PlaybackSession::new("http://host/a.mp3");
    assert_eq!(
        s.step(&mut info, 0, Event::Decoded),
        Action::Finish(SessionEnd::Aborted(SessionError::UnexpectedEvent))
    );
    assert_eq!(info.status(), Status::Loading);
    let mut info = loading();
    let mut s = playing(&mut info);
    assert_eq!(s.step(&mut info, 50, Event::Written), Action::Flush);
    assert_eq!(
        s.step(&mut info, 60, Event::Flushed),
        Action::Finish(SessionEnd::Aborted(SessionError::UnexpectedEvent))
    );
}
