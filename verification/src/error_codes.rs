//! The numeric error catalog that the player reports failures with.
//!
//! Codes are grouped by domain: generic errors in the 1000s, bridge errors in
//! the 2000s, player errors in the 3000s, network errors in the 4000s, audio
//! errors in the 5000s and media errors in the 6000s. `0` means success.

use vstd::prelude::*;
use vstd::string::StringExecFns;

verus! {

/// One entry of the catalog.
#[derive(Copy, Clone, Debug, PartialEq, Eq, Structural)]
pub enum ErrorCode {
    Success,
    UnknownError,
    InvalidParameter,
    NullPointer,
    MemoryError,
    JniEnvError,
    JniClassNotFound,
    JniMethodNotFound,
    JniFieldNotFound,
    JniObjectCreationFailed,
    JniStringConversionFailed,
    PlayerNotInitialized,
    PlayerAlreadyInitialized,
    PlayerLockFailed,
    PlayerOperationFailed,
    PlayerThreadError,
    NetworkError,
    UrlInvalid,
    UrlUnsupportedProtocol,
    HttpError,
    ConnectionTimeout,
    ConnectionRefused,
    AudioDeviceError,
    AudioFormatError,
    AudioDecodeError,
    AudioOutputError,
    AudioVolumeError,
    MediaNotFound,
    MediaFormatUnsupported,
    MediaCorrupted,
    MediaReadError,
    MediaDurationError,
}

/// The number that stands for an entry.
pub open spec fn code_of(e: ErrorCode) -> int {
    match e {
        ErrorCode::Success => 0,
        ErrorCode::UnknownError => 1000,
        ErrorCode::InvalidParameter => 1001,
        ErrorCode::NullPointer => 1002,
        ErrorCode::MemoryError => 1003,
        ErrorCode::JniEnvError => 2000,
        ErrorCode::JniClassNotFound => 2001,
        ErrorCode::JniMethodNotFound => 2002,
        ErrorCode::JniFieldNotFound => 2003,
        ErrorCode::JniObjectCreationFailed => 2004,
        ErrorCode::JniStringConversionFailed => 2005,
        ErrorCode::PlayerNotInitialized => 3000,
        ErrorCode::PlayerAlreadyInitialized => 3001,
        ErrorCode::PlayerLockFailed => 3002,
        ErrorCode::PlayerOperationFailed => 3003,
        ErrorCode::PlayerThreadError => 3004,
        ErrorCode::NetworkError => 4000,
        ErrorCode::UrlInvalid => 4001,
        ErrorCode::UrlUnsupportedProtocol => 4002,
        ErrorCode::HttpError => 4003,
        ErrorCode::ConnectionTimeout => 4004,
        ErrorCode::ConnectionRefused => 4005,
        ErrorCode::AudioDeviceError => 5000,
        ErrorCode::AudioFormatError => 5001,
        ErrorCode::AudioDecodeError => 5002,
        ErrorCode::AudioOutputError => 5003,
        ErrorCode::AudioVolumeError => 5004,
        ErrorCode::MediaNotFound => 6000,
        ErrorCode::MediaFormatUnsupported => 6001,
        ErrorCode::MediaCorrupted => 6002,
        ErrorCode::MediaReadError => 6003,
        ErrorCode::MediaDurationError => 6004,
    }
}

/// Whether some entry of the catalog carries the number `code`.
pub open spec fn is_catalog_code(code: int) -> bool {
    exists|e: ErrorCode| code_of(e) == code
}

/// The entry that a number stands for. A number outside the catalog stands
/// for `UnknownError`.
pub open spec fn entry_of(code: int) -> ErrorCode {
    if is_catalog_code(code) {
        choose|e: ErrorCode| code_of(e) == code
    } else {
        ErrorCode::UnknownError
    }
}

/// The text that describes an entry.
pub open spec fn description_of(e: ErrorCode) -> Seq<char> {
    match e {
        ErrorCode::Success => "operation successful"@,
        ErrorCode::UnknownError => "unknown error"@,
        ErrorCode::InvalidParameter => "invalid parameter"@,
        ErrorCode::NullPointer => "null pointer error"@,
        ErrorCode::MemoryError => "memory error"@,
        ErrorCode::JniEnvError => "jni environment error"@,
        ErrorCode::JniClassNotFound => "jni class not found"@,
        ErrorCode::JniMethodNotFound => "jni method not found"@,
        ErrorCode::JniFieldNotFound => "jni field not found"@,
        ErrorCode::JniObjectCreationFailed => "jni object creation failed"@,
        ErrorCode::JniStringConversionFailed => "jni string conversion failed"@,
        ErrorCode::PlayerNotInitialized => "player not initialized"@,
        ErrorCode::PlayerAlreadyInitialized => "player already initialized"@,
        ErrorCode::PlayerLockFailed => "player lock failed"@,
        ErrorCode::PlayerOperationFailed => "player operation failed"@,
        ErrorCode::PlayerThreadError => "player thread error"@,
        ErrorCode::NetworkError => "network error"@,
        ErrorCode::UrlInvalid => "url invalid"@,
        ErrorCode::UrlUnsupportedProtocol => "unsupported protocol"@,
        ErrorCode::HttpError => "http error"@,
        ErrorCode::ConnectionTimeout => "connection timeout"@,
        ErrorCode::ConnectionRefused => "connection refused"@,
        ErrorCode::AudioDeviceError => "audio device error"@,
        ErrorCode::AudioFormatError => "audio format error"@,
        ErrorCode::AudioDecodeError => "audio decode error"@,
        ErrorCode::AudioOutputError => "audio output error"@,
        ErrorCode::AudioVolumeError => "audio volume error"@,
        ErrorCode::MediaNotFound => "media not found"@,
        ErrorCode::MediaFormatUnsupported => "unsupported media format"@,
        ErrorCode::MediaCorrupted => "media corrupted"@,
        ErrorCode::MediaReadError => "media read error"@,
        ErrorCode::MediaDurationError => "media duration error"@,
    }
}

impl ErrorCode {
    /// The number of this entry.
    pub fn code(&self) -> (r: i32)
        ensures
            r == code_of(*self),
    {
        match self {
            ErrorCode::Success => 0,
            ErrorCode::UnknownError => 1000,
            ErrorCode::InvalidParameter => 1001,
            ErrorCode::NullPointer => 1002,
            ErrorCode::MemoryError => 1003,
            ErrorCode::JniEnvError => 2000,
            ErrorCode::JniClassNotFound => 2001,
            ErrorCode::JniMethodNotFound => 2002,
            ErrorCode::JniFieldNotFound => 2003,
            ErrorCode::JniObjectCreationFailed => 2004,
            ErrorCode::JniStringConversionFailed => 2005,
            ErrorCode::PlayerNotInitialized => 3000,
            ErrorCode::PlayerAlreadyInitialized => 3001,
            ErrorCode::PlayerLockFailed => 3002,
            ErrorCode::PlayerOperationFailed => 3003,
            ErrorCode::PlayerThreadError => 3004,
            ErrorCode::NetworkError => 4000,
            ErrorCode::UrlInvalid => 4001,
            ErrorCode::UrlUnsupportedProtocol => 4002,
            ErrorCode::HttpError => 4003,
            ErrorCode::ConnectionTimeout => 4004,
            ErrorCode::ConnectionRefused => 4005,
            ErrorCode::AudioDeviceError => 5000,
            ErrorCode::AudioFormatError => 5001,
            ErrorCode::AudioDecodeError => 5002,
            ErrorCode::AudioOutputError => 5003,
            ErrorCode::AudioVolumeError => 5004,
            ErrorCode::MediaNotFound => 6000,
            ErrorCode::MediaFormatUnsupported => 6001,
            ErrorCode::MediaCorrupted => 6002,
            ErrorCode::MediaReadError => 6003,
            ErrorCode::MediaDurationError => 6004,
        }
    }

    /// The text that describes this entry.
    pub fn description(&self) -> (r: &'static str)
        ensures
            r@ == description_of(*self),
    {
        match self {
            ErrorCode::Success => "operation successful",
            ErrorCode::UnknownError => "unknown error",
            ErrorCode::InvalidParameter => "invalid parameter",
            ErrorCode::NullPointer => "null pointer error",
            ErrorCode::MemoryError => "memory error",
            ErrorCode::JniEnvError => "jni environment error",
            ErrorCode::JniClassNotFound => "jni class not found",
            ErrorCode::JniMethodNotFound => "jni method not found",
            ErrorCode::JniFieldNotFound => "jni field not found",
            ErrorCode::JniObjectCreationFailed => "jni object creation failed",
            ErrorCode::JniStringConversionFailed => "jni string conversion failed",
            ErrorCode::PlayerNotInitialized => "player not initialized",
            ErrorCode::PlayerAlreadyInitialized => "player already initialized",
            ErrorCode::PlayerLockFailed => "player lock failed",
            ErrorCode::PlayerOperationFailed => "player operation failed",
            ErrorCode::PlayerThreadError => "player thread error",
            ErrorCode::NetworkError => "network error",
            ErrorCode::UrlInvalid => "url invalid",
            ErrorCode::UrlUnsupportedProtocol => "unsupported protocol",
            ErrorCode::HttpError => "http error",
            ErrorCode::ConnectionTimeout => "connection timeout",
            ErrorCode::ConnectionRefused => "connection refused",
            ErrorCode::AudioDeviceError => "audio device error",
            ErrorCode::AudioFormatError => "audio format error",
            ErrorCode::AudioDecodeError => "audio decode error",
            ErrorCode::AudioOutputError => "audio output error",
            ErrorCode::AudioVolumeError => "audio volume error",
            ErrorCode::MediaNotFound => "media not found",
            ErrorCode::MediaFormatUnsupported => "unsupported media format",
            ErrorCode::MediaCorrupted => "media corrupted",
            ErrorCode::MediaReadError => "media read error",
            ErrorCode::MediaDurationError => "media duration error",
        }
    }

    /// Whether this entry is `Success`.
    pub fn is_success(&self) -> (r: bool)
        ensures
            r == (*self == ErrorCode::Success),
            r == (code_of(*self) == 0),
    {
        matches!(self, ErrorCode::Success)
    }

    /// Whether this entry is anything but `Success`.
    pub fn is_error(&self) -> (r: bool)
        ensures
            r == (*self != ErrorCode::Success),
            r == (code_of(*self) != 0),
    {
        !self.is_success()
    }

    /// The entry that carries the number `code`, and `UnknownError` for a
    /// number that no entry carries.
    pub fn from_code(code: i32) -> (r: ErrorCode)
        ensures
            r == entry_of(code as int),
            is_catalog_code(code as int) ==> code_of(r) == code,
            !is_catalog_code(code as int) ==> r == ErrorCode::UnknownError,
    {
        let r = match code {
            0 => ErrorCode::Success,
            1000 => ErrorCode::UnknownError,
            1001 => ErrorCode::InvalidParameter,
            1002 => ErrorCode::NullPointer,
            1003 => ErrorCode::MemoryError,
            2000 => ErrorCode::JniEnvError,
            2001 => ErrorCode::JniClassNotFound,
            2002 => ErrorCode::JniMethodNotFound,
            2003 => ErrorCode::JniFieldNotFound,
            2004 => ErrorCode::JniObjectCreationFailed,
            2005 => ErrorCode::JniStringConversionFailed,
            3000 => ErrorCode::PlayerNotInitialized,
            3001 => ErrorCode::PlayerAlreadyInitialized,
            3002 => ErrorCode::PlayerLockFailed,
            3003 => ErrorCode::PlayerOperationFailed,
            3004 => ErrorCode::PlayerThreadError,
            4000 => ErrorCode::NetworkError,
            4001 => ErrorCode::UrlInvalid,
            4002 => ErrorCode::UrlUnsupportedProtocol,
            4003 => ErrorCode::HttpError,
            4004 => ErrorCode::ConnectionTimeout,
            4005 => ErrorCode::ConnectionRefused,
            5000 => ErrorCode::AudioDeviceError,
            5001 => ErrorCode::AudioFormatError,
            5002 => ErrorCode::AudioDecodeError,
            5003 => ErrorCode::AudioOutputError,
            5004 => ErrorCode::AudioVolumeError,
            6000 => ErrorCode::MediaNotFound,
            6001 => ErrorCode::MediaFormatUnsupported,
            6002 => ErrorCode::MediaCorrupted,
            6003 => ErrorCode::MediaReadError,
            6004 => ErrorCode::MediaDurationError,
            _ => ErrorCode::UnknownError,
        };
        proof {
            lemma_codes_distinct();
            if code_of(r) == code {
                assert(is_catalog_code(code as int));
            }
        }
        r
    }
}

/// The character that writes the digit `d`.
pub open spec fn digit_char(d: nat) -> char {
    if d == 0 {
        '0'
    } else if d == 1 {
        '1'
    } else if d == 2 {
        '2'
    } else if d == 3 {
        '3'
    } else if d == 4 {
        '4'
    } else if d == 5 {
        '5'
    } else if d == 6 {
        '6'
    } else if d == 7 {
        '7'
    } else if d == 8 {
        '8'
    } else {
        '9'
    }
}

/// The decimal writing of `n`, most significant digit first, without
/// leading zeros.
pub open spec fn decimal_digits(n: nat) -> Seq<char>
    decreases n,
{
    if n < 10 {
        seq![digit_char(n)]
    } else {
        decimal_digits(n / 10).push(digit_char(n % 10))
    }
}

/// The message that reports an entry: its description, then its number in
/// decimal inside `" (ErrorCode: "` and `")"`.
pub open spec fn message_of(e: ErrorCode) -> Seq<char> {
    description_of(e) + " (ErrorCode: "@ + decimal_digits(code_of(e) as nat) + ")"@
}

/// The text that writes the digit `d`.
fn digit(d: u32) -> (text: &'static str)
    requires
        d < 10,
    ensures
        text@ == seq![digit_char(d as nat)],
{
    proof {
        reveal_strlit("0");
        reveal_strlit("1");
        reveal_strlit("2");
        reveal_strlit("3");
        reveal_strlit("4");
        reveal_strlit("5");
        reveal_strlit("6");
        reveal_strlit("7");
        reveal_strlit("8");
        reveal_strlit("9");
    }
    match d {
        0 => "0",
        1 => "1",
        2 => "2",
        3 => "3",
        4 => "4",
        5 => "5",
        6 => "6",
        7 => "7",
        8 => "8",
        _ => "9",
    }
}

/// Appends the decimal writing of `n` to `s`.
fn push_decimal(s: &mut String, n: u32)
    ensures
        final(s)@ == old(s)@ + decimal_digits(n as nat),
    decreases n,
{
    if n >= 10 {
        push_decimal(s, n / 10);
    }
    let ghost front = s@;
    s.append(digit(n % 10));
    proof {
        let last = digit_char((n % 10) as nat);
        assert(front + seq![last] =~= front.push(last));
        if n >= 10 {
            assert(old(s)@ + decimal_digits((n / 10) as nat).push(last) =~= (old(s)@
                + decimal_digits((n / 10) as nat)).push(last));
        } else {
            assert(old(s)@ + seq![last] =~= old(s)@.push(last));
        }
    }
}

impl ErrorCode {
    /// The message that reports this entry, such as
    /// `unknown error (ErrorCode: 1000)`.
    pub fn format_message(&self) -> (r: String)
        ensures
            r@ == message_of(*self),
    {
        let mut message = String::from_str(self.description());
        message.append(" (ErrorCode: ");
        let code: i32 = self.code();
        push_decimal(&mut message, code as u32);
        message.append(")");
        message
    }
}

impl From<i32> for ErrorCode {
    fn from(code: i32) -> (r: ErrorCode) {
        ErrorCode::from_code(code)
    }
}

impl vstd::std_specs::convert::FromSpecImpl<i32> for ErrorCode {
    open spec fn obeys_from_spec() -> bool {
        true
    }

    open spec fn from_spec(code: i32) -> ErrorCode {
        entry_of(code as int)
    }
}

impl From<ErrorCode> for i32 {
    fn from(error_code: ErrorCode) -> (r: i32) {
        error_code.code()
    }
}

impl vstd::std_specs::convert::FromSpecImpl<ErrorCode> for i32 {
    open spec fn obeys_from_spec() -> bool {
        true
    }

    open spec fn from_spec(error_code: ErrorCode) -> i32 {
        code_of(error_code) as i32
    }
}

/// No two entries of the catalog carry the same number.
pub proof fn lemma_codes_distinct()
    ensures
        forall|a: ErrorCode, b: ErrorCode| code_of(a) == code_of(b) ==> a == b,
{
}

/// Reading an entry's number back gives the entry: the catalog loses
/// nothing on the way to a number and back.
pub proof fn lemma_code_round_trip(e: ErrorCode)
    ensures
        is_catalog_code(code_of(e)),
        entry_of(code_of(e)) == e,
{
    lemma_codes_distinct();
}

/// The domain that an entry belongs to.
pub ghost enum ErrorDomain {
    /// No error.
    Success,
    /// Errors of no particular part.
    Generic,
    /// Errors of the bridge to the host application.
    Bridge,
    /// Errors of the player.
    Player,
    /// Errors of the network.
    Network,
    /// Errors of the audio sink.
    Audio,
    /// Errors of the media.
    Media,
}

/// The domain of an entry.
pub open spec fn domain_of(e: ErrorCode) -> ErrorDomain {
    match e {
        ErrorCode::Success => ErrorDomain::Success,
        ErrorCode::UnknownError
        | ErrorCode::InvalidParameter
        | ErrorCode::NullPointer
        | ErrorCode::MemoryError => ErrorDomain::Generic,
        ErrorCode::JniEnvError
        | ErrorCode::JniClassNotFound
        | ErrorCode::JniMethodNotFound
        | ErrorCode::JniFieldNotFound
        | ErrorCode::JniObjectCreationFailed
        | ErrorCode::JniStringConversionFailed => ErrorDomain::Bridge,
        ErrorCode::PlayerNotInitialized
        | ErrorCode::PlayerAlreadyInitialized
        | ErrorCode::PlayerLockFailed
        | ErrorCode::PlayerOperationFailed
        | ErrorCode::PlayerThreadError => ErrorDomain::Player,
        ErrorCode::NetworkError
        | ErrorCode::UrlInvalid
        | ErrorCode::UrlUnsupportedProtocol
        | ErrorCode::HttpError
        | ErrorCode::ConnectionTimeout
        | ErrorCode::ConnectionRefused => ErrorDomain::Network,
        ErrorCode::AudioDeviceError
        | ErrorCode::AudioFormatError
        | ErrorCode::AudioDecodeError
        | ErrorCode::AudioOutputError
        | ErrorCode::AudioVolumeError => ErrorDomain::Audio,
        ErrorCode::MediaNotFound
        | ErrorCode::MediaFormatUnsupported
        | ErrorCode::MediaCorrupted
        | ErrorCode::MediaReadError
        | ErrorCode::MediaDurationError => ErrorDomain::Media,
    }
}

/// The thousand in which the numbers of a domain lie.
pub open spec fn domain_base(d: ErrorDomain) -> int {
    match d {
        ErrorDomain::Success => 0,
        ErrorDomain::Generic => 1000,
        ErrorDomain::Bridge => 2000,
        ErrorDomain::Player => 3000,
        ErrorDomain::Network => 4000,
        ErrorDomain::Audio => 5000,
        ErrorDomain::Media => 6000,
    }
}

/// Every number of the catalog lies in the thousand of its domain, and only
/// `Success` has the number zero.
pub proof fn lemma_code_range(e: ErrorCode)
    ensures
        domain_base(domain_of(e)) <= code_of(e) < domain_base(domain_of(e)) + 1000,
        code_of(e) == 0 <==> e == ErrorCode::Success,
        e != ErrorCode::Success ==> 1000 <= code_of(e) <= 6004,
{
}

} // verus!
