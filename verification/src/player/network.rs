//! The network byte source: a stream over HTTP that connects on its first
//! read, cannot seek and does not know its length.
//!
//! The source decides here what a read has to do; the caller holds the
//! connection and moves the bytes.

use crate::error_codes::ErrorCode;
use vstd::prelude::*;

verus! {

/// The mathematical content of a `NetworkMediaSource`.
pub ghost struct SourceState {
    /// The address that the bytes come from.
    pub url: Seq<char>,
    /// Whether the request has been made and the response is open.
    pub connected: bool,
}

/// What a read has to do next.
#[derive(Debug, Clone, Copy, PartialEq, Eq, Structural)]
pub enum ReadStep {
    /// Make the request, and then read from its response.
    Connect,
    /// Read from the response that is open.
    Pull,
}

/// Why the source refuses or fails an operation.
#[derive(Debug, Clone, Copy, PartialEq, Eq, Structural)]
pub enum SourceError {
    /// The source cannot seek.
    Unsupported,
    /// The request could not be made, or was answered with a failure.
    Other,
}

/// A byte source over HTTP.
pub struct NetworkMediaSource {
    url: String,
    connected: bool,
}

impl View for NetworkMediaSource {
    type V = SourceState;

    closed spec fn view(&self) -> SourceState {
        SourceState { url: self.url@, connected: self.connected }
    }
}

impl NetworkMediaSource {
    /// A source for `url`. No request is made yet, so this never fails.
    pub fn new(url: String) -> (r: Result<NetworkMediaSource, ErrorCode>)
        ensures
            r is Ok,
            r->Ok_0@ == (SourceState { url: url@, connected: false }),
    {
        Ok(NetworkMediaSource { url, connected: false })
    }

    /// The address that the bytes come from.
    pub fn url(&self) -> (r: &str)
        ensures
            r@ == self@.url,
    {
        self.url.as_str()
    }

    /// Whether the response is open.
    pub fn is_connected(&self) -> (r: bool)
        ensures
            r == self@.connected,
    {
        self.connected
    }

    /// Whether the source can seek. It cannot.
    pub fn is_seekable(&self) -> (r: bool)
        ensures
            !r,
    {
        false
    }

    /// The length of the source in bytes. It is never known.
    pub fn byte_len(&self) -> (r: Option<u64>)
        ensures
            r is None,
    {
        None
    }

    /// What a read has to do: make the request if none was made, and pull
    /// from the open response otherwise.
    pub fn ensure_reader(&self) -> (r: ReadStep)
        ensures
            r == (if self@.connected {
                ReadStep::Pull
            } else {
                ReadStep::Connect
            }),
    {
        if self.connected {
            ReadStep::Pull
        } else {
            ReadStep::Connect
        }
    }

    /// Records how the request went. Once it has succeeded the source stays
    /// connected; a failure leaves the source as it was and is reported as
    /// `Other`, and the next read makes the request again.
    pub fn connection_result(&mut self, opened: bool) -> (r: Result<(), SourceError>)
        ensures
            final(self)@.url == old(self)@.url,
            final(self)@.connected == (old(self)@.connected || opened),
            r is Ok <==> (old(self)@.connected || opened),
            r is Err ==> r == Err::<(), SourceError>(SourceError::Other),
    {
        if opened {
            self.connected = true;
        }
        if self.connected {
            Ok(())
        } else {
            Err(SourceError::Other)
        }
    }

    /// Refuses to seek, wherever to: a network stream has no positions to
    /// go back to.
    pub fn seek(&self, _position: u64) -> (r: Result<u64, SourceError>)
        ensures
            r == Err::<u64, SourceError>(SourceError::Unsupported),
    {
        Err(SourceError::Unsupported)
    }
}

} // verus!
