//! Voice close codes and the rule that says which of them allow a resume.

use vstd::prelude::*;
use vstd::std_specs::convert::TryFromSpecImpl;
use vstd::string::*;
use crate::text::{decimal_text, push_decimal};

verus! {

/// Reason the voice server gave for closing the control channel.
#[derive(Clone, Copy, Debug, Hash, PartialEq, Eq, Structural)]
pub enum CloseCode {
    /// Invalid voice opcode.
    UnknownOpcode,
    /// Invalid identification payload sent.
    FailedToDecodePayload,
    /// A payload was sent prior to identifying.
    NotAuthenticated,
    /// The token sent with the identify payload was incorrect.
    AuthenticationFailed,
    /// More than one identify payload was sent.
    AlreadyAuthenticated,
    /// The session is no longer valid.
    SessionNoLongerValid,
    /// A session timed out.
    SessionTimeout,
    /// The server for the last connection attempt could not be found.
    ServerNotFound,
    /// The server did not recognise the voice protocol chosen.
    UnknownProtocol,
    /// Disconnected, either due to channel closure or removal, or kicking.
    Disconnected,
    /// The connected voice server crashed.
    VoiceServerCrash,
    /// The server did not recognise the encryption scheme.
    UnknownEncryptionMode,
}

/// The close code that stands for `value` on the wire, if there is one.
pub open spec fn close_code_of(value: u16) -> Option<CloseCode> {
    if value == 4001 {
        Some(CloseCode::UnknownOpcode)
    } else if value == 4002 {
        Some(CloseCode::FailedToDecodePayload)
    } else if value == 4003 {
        Some(CloseCode::NotAuthenticated)
    } else if value == 4004 {
        Some(CloseCode::AuthenticationFailed)
    } else if value == 4005 {
        Some(CloseCode::AlreadyAuthenticated)
    } else if value == 4006 {
        Some(CloseCode::SessionNoLongerValid)
    } else if value == 4009 {
        Some(CloseCode::SessionTimeout)
    } else if value == 4011 {
        Some(CloseCode::ServerNotFound)
    } else if value == 4012 {
        Some(CloseCode::UnknownProtocol)
    } else if value == 4014 {
        Some(CloseCode::Disconnected)
    } else if value == 4015 {
        Some(CloseCode::VoiceServerCrash)
    } else if value == 4016 {
        Some(CloseCode::UnknownEncryptionMode)
    } else {
        None
    }
}

/// Whether a connection closed with `value` may be resumed: the code must be
/// listed, and be one of the two that allow it. An unlisted code never does.
pub open spec fn resumable_code(value: u16) -> bool {
    match close_code_of(value) {
        Some(code) => code.resumable(),
        None => false,
    }
}

impl CloseCode {
    /// The number that stands for this code on the wire.
    pub open spec fn number(self) -> u16 {
        match self {
            CloseCode::UnknownOpcode => 4001,
            CloseCode::FailedToDecodePayload => 4002,
            CloseCode::NotAuthenticated => 4003,
            CloseCode::AuthenticationFailed => 4004,
            CloseCode::AlreadyAuthenticated => 4005,
            CloseCode::SessionNoLongerValid => 4006,
            CloseCode::SessionTimeout => 4009,
            CloseCode::ServerNotFound => 4011,
            CloseCode::UnknownProtocol => 4012,
            CloseCode::Disconnected => 4014,
            CloseCode::VoiceServerCrash => 4015,
            CloseCode::UnknownEncryptionMode => 4016,
        }
    }

    /// Whether a client should try to resume after this code.
    pub open spec fn resumable(self) -> bool {
        self == CloseCode::VoiceServerCrash || self == CloseCode::SessionTimeout
    }

    /// The number that stands for this code on the wire.
    pub fn code(self) -> (n: u16)
        ensures
            n == self.number(),
    {
        match self {
            CloseCode::UnknownOpcode => 4001,
            CloseCode::FailedToDecodePayload => 4002,
            CloseCode::NotAuthenticated => 4003,
            CloseCode::AuthenticationFailed => 4004,
            CloseCode::AlreadyAuthenticated => 4005,
            CloseCode::SessionNoLongerValid => 4006,
            CloseCode::SessionTimeout => 4009,
            CloseCode::ServerNotFound => 4011,
            CloseCode::UnknownProtocol => 4012,
            CloseCode::Disconnected => 4014,
            CloseCode::VoiceServerCrash => 4015,
            CloseCode::UnknownEncryptionMode => 4016,
        }
    }

    /// Indicates whether a voice client should attempt to resume voice in
    /// response to this close code. Otherwise, the connection should be closed.
    pub fn can_resume(&self) -> (yes: bool)
        ensures
            yes == self.resumable(),
    {
        matches!(self, CloseCode::VoiceServerCrash | CloseCode::SessionTimeout)
    }
}

/// A number that stands for no close code.
#[derive(Debug, PartialEq, Eq, Structural)]
pub struct CloseCodeConversionError {
    /// The number that was refused.
    pub code: u16,
}

impl CloseCodeConversionError {
    /// The refusal of `code`.
    pub fn new(code: u16) -> (e: Self)
        ensures
            e.code == code,
    {
        Self { code }
    }

    /// The number that was refused.
    pub fn code(&self) -> (c: u16)
        ensures
            c == self.code,
    {
        self.code
    }

    /// The refusal in words: the number, and that it is no valid close code.
    pub fn message(&self) -> (text: String)
        ensures
            text@ == decimal_text(self.code as nat) + " isn't a valid close code"@,
    {
        let mut text = String::new();
        push_decimal(&mut text, self.code as u64);
        text.append(" isn't a valid close code");
        assert(text@ =~= decimal_text(self.code as nat) + " isn't a valid close code"@);
        text
    }
}

impl TryFrom<u16> for CloseCode {
    type Error = CloseCodeConversionError;

    fn try_from(value: u16) -> (r: Result<Self, CloseCodeConversionError>) {
        Ok(
            match value {
                4001 => CloseCode::UnknownOpcode,
                4002 => CloseCode::FailedToDecodePayload,
                4003 => CloseCode::NotAuthenticated,
                4004 => CloseCode::AuthenticationFailed,
                4005 => CloseCode::AlreadyAuthenticated,
                4006 => CloseCode::SessionNoLongerValid,
                4009 => CloseCode::SessionTimeout,
                4011 => CloseCode::ServerNotFound,
                4012 => CloseCode::UnknownProtocol,
                4014 => CloseCode::Disconnected,
                4015 => CloseCode::VoiceServerCrash,
                4016 => CloseCode::UnknownEncryptionMode,
                _ => return Err(CloseCodeConversionError::new(value)),
            },
        )
    }
}

impl TryFromSpecImpl<u16> for CloseCode {
    open spec fn obeys_try_from_spec() -> bool {
        true
    }

    open spec fn try_from_spec(value: u16) -> Result<Self, CloseCodeConversionError> {
        match close_code_of(value) {
            Some(code) => Ok(code),
            None => Err(CloseCodeConversionError { code: value }),
        }
    }
}

/// The end of a control channel: the number it was closed with.
///
/// Whether the session may be resumed is computed from the number each time
/// it is asked for, and is not kept.
#[derive(Clone, Copy, Debug, PartialEq, Eq, Structural)]
pub struct CloseEvent {
    /// The number the channel was closed with.
    pub code: u16,
}

impl CloseEvent {
    /// The listed reason behind the number, if it has one.
    pub fn reason(&self) -> (reason: Option<CloseCode>)
        ensures
            reason == close_code_of(self.code),
    {
        match CloseCode::try_from(self.code) {
            Ok(code) => Some(code),
            Err(_) => None,
        }
    }

    /// Whether the session may be resumed after this close.
    pub fn resumable(&self) -> (yes: bool)
        ensures
            yes == resumable_code(self.code),
    {
        match self.reason() {
            Some(code) => code.can_resume(),
            None => false,
        }
    }
}

/// Classifies a close code. Every number is accepted; one that the table does
/// not list has no reason and is not resumable.
pub fn classify(code: u16) -> (event: CloseEvent)
    ensures
        event.code == code,
{
    CloseEvent { code }
}

/// Every listed code converts to its number and back.
pub proof fn number_round_trip(code: CloseCode)
    ensures
        close_code_of(code.number()) == Some(code),
        4001 <= code.number() <= 4016,
{
}

/// A number stands for at most one code: whatever `close_code_of` finds has
/// that number.
pub proof fn listed_code_has_its_number(value: u16)
    ensures
        close_code_of(value) matches Some(code) ==> code.number() == value,
{
}

/// Exactly two numbers are resumable, 4009 and 4015; every other listed code
/// and every unlisted number is not.
pub proof fn only_timeout_and_crash_resume(value: u16)
    ensures
        resumable_code(value) <==> (value == 4009 || value == 4015),
        close_code_of(value) is None ==> !resumable_code(value),
{
}

} // verus!
