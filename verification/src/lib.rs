//! Signaling core of a voice-call client: the handshake that joins two
//! independently arriving gateway events, the control-channel protocol of one
//! voice connection, external-address discovery over UDP and the policy that
//! decides from a close code whether a session is resumed.
//!
//! Nothing in this crate touches a socket or a clock. Every operation is a
//! step from a state and an event to the next state and a command for the
//! caller, and each step carries a contract that Verus proves.

use vstd::prelude::*;
use vstd::string::*;
use crate::text::{decimal_text, push_decimal};

pub mod client;
pub mod close_code;
pub mod gateway;
pub mod id;
pub mod manager;
pub mod packet;
pub mod payload;
pub mod signal;
pub mod text;
pub mod voice;

verus! {

/// Why an operation was refused or a connection ended.
///
/// Failures of a transport reach the sessions as one of these kinds, never
/// as the error value of the library that drives the transport.
#[derive(Clone, Copy, Debug, PartialEq, Eq, Hash, Structural)]
pub enum Error {
    /// The control channel failed.
    WebSocket,
    /// A control-channel message could not be decoded.
    SerdeJson,
    /// The client is not ready to join a voice channel.
    NotReady,
    /// The client is already connected or connecting to a voice server.
    AlreadyJoined,
    /// The UDP socket failed.
    Io,
    /// The system clock gave no usable time.
    SystemTime,
    /// A control-channel message arrived that the state of the handshake
    /// does not allow.
    UnexpectedEvent,
    /// The server offered no encryption mode that the client prefers.
    NoSupportedMode,
    /// IP discovery got no response within its attempts.
    DiscoveryTimeout,
    /// The control channel was closed with a code that allows no resume.
    Closed(u16),
}

impl Error {
    /// The error in words.
    pub open spec fn text(self) -> Seq<char> {
        match self {
            Error::WebSocket => "WebSocket error"@,
            Error::SerdeJson => "Serde_json error"@,
            Error::NotReady => "VoiceClient is not ready to join voice channel."@,
            Error::AlreadyJoined => "VoiceClient is already connected or connecting to voice server."@,
            Error::Io => "IO error"@,
            Error::SystemTime => "SystemTime error"@,
            Error::UnexpectedEvent => "Voice server sent a message out of order."@,
            Error::NoSupportedMode => "Voice server offers no supported encryption mode."@,
            Error::DiscoveryTimeout => "IP discovery timed out."@,
            Error::Closed(code) => "Voice server closed the connection with code "@ + decimal_text(
                code as nat,
            ),
        }
    }

    /// The error in words.
    pub fn message(&self) -> (text: String)
        ensures
            text@ == self.text(),
    {
        match self {
            Error::WebSocket => String::from_str("WebSocket error"),
            Error::SerdeJson => String::from_str("Serde_json error"),
            Error::NotReady => String::from_str("VoiceClient is not ready to join voice channel."),
            Error::AlreadyJoined => String::from_str(
                "VoiceClient is already connected or connecting to voice server.",
            ),
            Error::Io => String::from_str("IO error"),
            Error::SystemTime => String::from_str("SystemTime error"),
            Error::UnexpectedEvent => String::from_str("Voice server sent a message out of order."),
            Error::NoSupportedMode => String::from_str(
                "Voice server offers no supported encryption mode.",
            ),
            Error::DiscoveryTimeout => String::from_str("IP discovery timed out."),
            Error::Closed(code) => {
                let mut text = String::from_str("Voice server closed the connection with code ");
                push_decimal(&mut text, *code as u64);
                text
            },
        }
    }
}

} // verus!
