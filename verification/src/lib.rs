//! Client-side implementation of a lightweight binary message protocol for an
//! IoT cloud relay: a device opens one connection, authenticates with a token,
//! negotiates a keep-alive contract, and then exchanges small framed messages
//! (virtual pin reads/writes, internal metadata, notifications).
//!
//! The crate is organised around a verified message codec (`codec`, `message`),
//! a connection abstraction with a monotone message-id counter (`client`), and
//! a session state machine with an event dispatcher (`session`). All I/O is
//! reached only through the [`transport::Transport`] capability, which callers
//! implement for their socket (or test double) of choice.

use vstd::prelude::*;

pub mod client;
pub mod codec;
pub mod conf;
pub mod config;
pub mod message;
pub mod session;
pub mod text;
pub mod transport;

pub use crate::client::Client;
pub use crate::config::Config;
pub use crate::session::{Blynk, Event};

verus! {

/// Current state of the session with the server.
#[derive(Clone, Copy, Debug, PartialEq, Eq, Structural)]
pub enum ConnectionState {
    Disconnected,
    Connecting,
    Authenticating,
    Authenticated,
}

impl Default for ConnectionState {
    /// A fresh session starts disconnected.
    fn default() -> (r: Self)
        ensures
            r == ConnectionState::Disconnected,
    {
        ConnectionState::Disconnected
    }
}

/// Everything that can go wrong while framing messages or talking to the
/// server.
#[derive(Clone, Copy, Debug, PartialEq, Eq, Structural)]
pub enum BlynkError {
    /// The transport reported an I/O failure.
    Io,
    /// The server name did not resolve to any address.
    Dns,
    /// The bounded send-retry budget was exhausted.
    MessageSend,
    /// No bytes are currently available to read; a recoverable poll miss.
    EmptyBuffer,
    /// The login reply redirected the client elsewhere.
    Redirection,
    /// The heartbeat-configuration message was not acknowledged with an Ok
    /// status; carries the status the server answered with.
    HeartbeatSet(crate::message::ProtocolStatus),
    /// The server rejected the authentication token.
    InvalidAuthToken,
    /// A frame arrived with the reserved message id 0.
    InvalidMessageId,
    /// Fewer bytes than a full header were available.
    InvalidMessageHeader,
    /// The message body was not valid UTF-8, was shorter than the header
    /// promised, or held an unparseable pin number.
    InvalidMessageBody,
    /// No transport is attached to the connection.
    StreamIsNone,
    /// No transport is attached, so nothing can be read.
    ReaderNotAvailable,
    /// A response-shaped frame carried an unrecognised status code.
    InvalidStatus,
    /// The header named a type code outside the protocol's enumeration.
    UnknownMessageType,
    /// A frame of a type that is never valid inbound arrived.
    UnsupportedInboundType,
    /// A handshake reply had a shape the protocol does not allow at that
    /// point (no status where one is required, or an unexpected status on
    /// a non-redirect frame).
    ProtocolViolation,
}

impl BlynkError {
    /// A short human-readable description of the error.
    pub fn message(&self) -> &'static str {
        match self {
            BlynkError::Io => "I/O problem on the transport",
            BlynkError::Dns => "Problem resolving host",
            BlynkError::MessageSend => "Problem sending message",
            BlynkError::EmptyBuffer => "No message to process",
            BlynkError::Redirection => "Redirection problem",
            BlynkError::HeartbeatSet(_) => "Problem setting heartbeat",
            BlynkError::InvalidAuthToken => "Invalid auth token",
            BlynkError::InvalidMessageId => "Message id is zero",
            BlynkError::InvalidMessageHeader => "Problem parsing message header",
            BlynkError::InvalidMessageBody => "Malformed message body",
            BlynkError::StreamIsNone => "Stream not available",
            BlynkError::ReaderNotAvailable => "Unable to access reader",
            BlynkError::InvalidStatus => "Unrecognised response status",
            BlynkError::UnknownMessageType => "Unknown message type",
            BlynkError::UnsupportedInboundType => "Message type not valid inbound",
            BlynkError::ProtocolViolation => "Reply violates the protocol",
        }
    }
}

/// Default events handler: every hook is a no-op.
pub struct DefaultHandler {}

} // verus!
