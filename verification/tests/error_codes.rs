use stream_player::audio::AudioOutputError;
use stream_player::error_codes::ErrorCode;

const ALL: [(ErrorCode, i32, &str); 32] = [
    (ErrorCode::Success, 0, "operation successful"),
    (ErrorCode::UnknownError, 1000, "unknown error"),
    (ErrorCode::InvalidParameter, 1001, "invalid parameter"),
    (ErrorCode::NullPointer, 1002, "null pointer error"),
    (ErrorCode::MemoryError, 1003, "memory error"),
    (ErrorCode::JniEnvError, 2000, "jni environment error"),
    (ErrorCode::JniClassNotFound, 2001, "jni class not found"),
    (ErrorCode::JniMethodNotFound, 2002, "jni method not found"),
    (ErrorCode::JniFieldNotFound, 2003, "jni field not found"),
    (ErrorCode::JniObjectCreationFailed, 2004, "jni object creation failed"),
    (ErrorCode::JniStringConversionFailed, 2005, "jni string conversion failed"),
    (ErrorCode::PlayerNotInitialized, 3000, "player not initialized"),
    (ErrorCode::PlayerAlreadyInitialized, 3001, "player already initialized"),
    (ErrorCode::PlayerLockFailed, 3002, "player lock failed"),
    (ErrorCode::PlayerOperationFailed, 3003, "player operation failed"),
    (ErrorCode::PlayerThreadError, 3004, "player thread error"),
    (ErrorCode::NetworkError, 4000, "network error"),
    (ErrorCode::UrlInvalid, 4001, "url invalid"),
    (ErrorCode::UrlUnsupportedProtocol, 4002, "unsupported protocol"),
    (ErrorCode::HttpError, 4003, "http error"),
    (ErrorCode::ConnectionTimeout, 4004, "connection timeout"),
    (ErrorCode::ConnectionRefused, 4005, "connection refused"),
    (ErrorCode::AudioDeviceError, 5000, "audio device error"),
    (ErrorCode::AudioFormatError, 5001, "audio format error"),
    (ErrorCode::AudioDecodeError, 5002, "audio decode error"),
    (ErrorCode::AudioOutputError, 5003, "audio output error"),
    (ErrorCode::AudioVolumeError, 5004, "audio volume error"),
    (ErrorCode::MediaNotFound, 6000, "media not found"),
    (ErrorCode::MediaFormatUnsupported, 6001, "unsupported media format"),
    (ErrorCode::MediaCorrupted, 6002, "media corrupted"),
    (ErrorCode::MediaReadError, 6003, "media read error"),
    (ErrorCode::MediaDurationError, 6004, "media duration error"),
];

#[test]
fn every_entry_has_its_code_and_description() {
    for (entry, code, description) in ALL {
        assert_eq!(entry.code(), code);
        assert_eq!(entry.description(), description);
    }
}

#[test]
fn codes_read_back_to_their_entries() {
    for (entry, code, _) in ALL {
        assert_eq!(ErrorCode::from_code(code), entry);
        assert_eq!(ErrorCode::from_code(entry.code()), entry);
    }
}

#[test]
fn codes_are_distinct() {
    for (i, (_, a, _)) in ALL.iter().enumerate() {
        for (_, b, _) in ALL.iter().skip(i + 1) {
            assert_ne!(a, b);
        }
    }
}

#[test]
fn numbers_outside_the_catalog_are_unknown_errors() {
    for code in [-1, 1, 999, 1004, 1999, 2006, 3005, 4006, 5005, 6005, 7000, i32::MAX, i32::MIN] {
        assert_eq!(ErrorCode::from_code(code), ErrorCode::UnknownError);
    }
}

#[test]
fn only_success_is_success() {
    for (entry, code, _) in ALL {
        assert_eq!(entry.is_success(), code == 0);
        assert_eq!(entry.is_error(), code != 0);
    }
    assert!(ErrorCode::Success.is_success());
    assert!(!ErrorCode::Success.is_error());
    assert!(ErrorCode::HttpError.is_error());
}

#[test]
fn messages_hold_description_and_code() {
    assert_eq!(ErrorCode::Success.format_message(), "operation successful (ErrorCode: 0)");
    assert_eq!(ErrorCode::UnknownError.format_message(), "unknown error (ErrorCode: 1000)");
    assert_eq!(ErrorCode::PlayerLockFailed.format_message(), "player lock failed (ErrorCode: 3002)");
    assert_eq!(ErrorCode::MediaNotFound.format_message(), "media not found (ErrorCode: 6000)");
    assert_eq!(
        ErrorCode::MediaDurationError.format_message(),
        "media duration error (ErrorCode: 6004)"
    );
    for (entry, code, description) in ALL {
        assert_eq!(entry.format_message(), format!("{} (ErrorCode: {})", description, code));
    }
}

#[test]
fn conversions_follow_the_catalog() {
    let entry: ErrorCode = 4003.into();
    assert_eq!(entry, ErrorCode::HttpError);
    let entry: ErrorCode = ErrorCode::from(12345);
    assert_eq!(entry, ErrorCode::UnknownError);
    let code: i32 = ErrorCode::AudioVolumeError.into();
    assert_eq!(code, 5004);
    assert_eq!(i32::from(ErrorCode::Success), 0);
}

#[test]
fn codes_lie_in_the_range_of_their_domain() {
    for (entry, code, _) in ALL {
        if entry == ErrorCode::Success {
            assert_eq!(code, 0);
        } else {
            assert!((1000..=6004).contains(&code));
        }
    }
}

#[test]
fn sink_errors_have_texts_and_entries() {
    assert_eq!(AudioOutputError::OpenStreamError.message(), "打开音频流失败");
    assert_eq!(AudioOutputError::PlayStreamError.message(), "播放音频流失败");
    assert_eq!(AudioOutputError::VolumeError.message(), "音量设置失败");
    assert_eq!(AudioOutputError::OpenStreamError.error_code(), ErrorCode::AudioDeviceError);
    assert_eq!(AudioOutputError::PlayStreamError.error_code(), ErrorCode::AudioOutputError);
    assert_eq!(AudioOutputError::VolumeError.error_code(), ErrorCode::AudioVolumeError);
}
