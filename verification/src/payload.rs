//! Message bodies of the control channel, and the event that wraps them.
//!
//! Each body that owns text or bytes has a view in which the text is a
//! sequence of characters and the bytes a sequence of bytes; the contracts of
//! the sessions speak of these views.

use vstd::prelude::*;
use crate::id::{GuildId, UserId};

verus! {

/// Message indicating that another user has connected to the voice channel.
#[derive(Clone, Copy, Debug, PartialEq, Eq, Hash, Structural)]
pub struct ClientConnect {
    /// SSRC of any audio packets sent by this newly joined user.
    pub audio_ssrc: u32,
    /// ID of the connecting user.
    pub user_id: UserId,
    /// SSRC of any video packets sent by this newly joined user.
    pub video_ssrc: u32,
}

/// Message indicating that another user has disconnected from the voice channel.
#[derive(Clone, Copy, Debug, PartialEq, Eq, Hash, Structural)]
pub struct ClientDisconnect {
    /// ID of the disconnected user.
    pub user_id: UserId,
}

/// Used to keep the control channel alive.
#[derive(Clone, Copy, Debug, PartialEq, Eq, Hash, Structural)]
pub struct Heartbeat {
    /// Number chosen by the client, to be mirrored by the server. It grows
    /// from one heartbeat to the next.
    pub t: u64,
    /// Last sequence number received from the server, -1 before the first.
    pub seq_ack: i64,
}

/// Heartbeat ACK, received by the client to show the server's receipt of a heartbeat.
#[derive(Clone, Copy, Debug, PartialEq, Eq, Hash, Structural)]
pub struct HeartbeatAck {
    /// Number of the heartbeat that is acknowledged.
    pub nonce: u64,
}

/// Used to determine how often the client must send a heartbeat.
#[derive(Clone, Copy, Debug, PartialEq, Eq, Hash, Structural)]
pub struct Hello {
    /// Number of milliseconds to wait between sending heartbeat messages.
    pub heartbeat_interval: u64,
}

/// Used to begin a voice connection.
#[derive(Clone, Debug, PartialEq, Eq, Hash)]
pub struct Identify {
    /// Guild which the target voice channel belongs to.
    pub server_id: GuildId,
    /// Session received from the main gateway with the voice state update.
    pub session_id: String,
    /// Token received from the main gateway with the voice server update.
    pub token: String,
    /// User who is connecting.
    pub user_id: UserId,
}

/// View of [`Identify`].
pub struct IdentifyView {
    pub server_id: GuildId,
    pub session_id: Seq<char>,
    pub token: Seq<char>,
    pub user_id: UserId,
}

impl View for Identify {
    type V = IdentifyView;

    open spec fn view(&self) -> IdentifyView {
        IdentifyView {
            server_id: self.server_id,
            session_id: self.session_id@,
            token: self.token@,
            user_id: self.user_id,
        }
    }
}

/// The RTP server's connection offer and supported encryption modes.
#[derive(Clone, Debug, PartialEq, Eq, Hash)]
pub struct Ready {
    /// Address of the call's allocated RTP server.
    pub ip: String,
    /// Voice encryption modes offered by the server.
    pub modes: Vec<String>,
    /// Destination port on the call's allocated RTP server.
    pub port: u16,
    /// RTP synchronisation source assigned by the server to the client.
    pub ssrc: u32,
}

/// View of [`Ready`].
pub struct ReadyView {
    pub ip: Seq<char>,
    pub modes: Seq<Seq<char>>,
    pub port: u16,
    pub ssrc: u32,
}

/// The texts of a list of strings.
pub open spec fn texts(list: Seq<String>) -> Seq<Seq<char>> {
    Seq::new(list.len(), |i: int| list[i]@)
}

impl View for Ready {
    type V = ReadyView;

    open spec fn view(&self) -> ReadyView {
        ReadyView { ip: self.ip@, modes: texts(self.modes@), port: self.port, ssrc: self.ssrc }
    }
}

/// Sent by the client after a disconnect to attempt to resume a session.
#[derive(Clone, Debug, PartialEq, Eq, Hash)]
pub struct Resume {
    /// Guild which the target voice channel belongs to.
    pub server_id: GuildId,
    /// Session received from the main gateway with the voice state update.
    pub session_id: String,
    /// Token received from the main gateway with the voice server update.
    pub token: String,
}

/// View of [`Resume`].
pub struct ResumeView {
    pub server_id: GuildId,
    pub session_id: Seq<char>,
    pub token: Seq<char>,
}

impl View for Resume {
    type V = ResumeView;

    open spec fn view(&self) -> ResumeView {
        ResumeView { server_id: self.server_id, session_id: self.session_id@, token: self.token@ }
    }
}

/// The client's answer to the connection offer.
#[derive(Clone, Debug, PartialEq, Eq, Hash)]
pub struct ProtocolData {
    /// Address of the client as found by IP discovery.
    pub address: String,
    /// Encryption mode chosen among those the server offered.
    pub mode: String,
    /// Port of the client as found by IP discovery.
    pub port: u16,
}

/// View of [`ProtocolData`].
pub struct ProtocolDataView {
    pub address: Seq<char>,
    pub mode: Seq<char>,
    pub port: u16,
}

impl View for ProtocolData {
    type V = ProtocolDataView;

    open spec fn view(&self) -> ProtocolDataView {
        ProtocolDataView { address: self.address@, mode: self.mode@, port: self.port }
    }
}

/// Used to select the voice protocol and encryption mechanism.
#[derive(Clone, Debug, PartialEq, Eq, Hash)]
pub struct SelectProtocol {
    /// Client's response to encryption and connection negotiation.
    pub data: ProtocolData,
    /// Transport protocol. `"udp"` is the only known accepted value.
    pub protocol: String,
}

/// View of [`SelectProtocol`].
pub struct SelectProtocolView {
    pub data: ProtocolDataView,
    pub protocol: Seq<char>,
}

impl View for SelectProtocol {
    type V = SelectProtocolView;

    open spec fn view(&self) -> SelectProtocolView {
        SelectProtocolView { data: self.data@, protocol: self.protocol@ }
    }
}

/// Server's confirmation of a negotiated encryption scheme.
#[derive(Clone, Debug, PartialEq, Eq, Hash)]
pub struct SessionDescription {
    /// The negotiated encryption mode.
    pub mode: String,
    /// Key used for encryption of RTP payloads using the chosen mode.
    pub secret_key: Vec<u8>,
}

/// View of [`SessionDescription`].
pub struct SessionDescriptionView {
    pub mode: Seq<char>,
    pub secret_key: Seq<u8>,
}

impl View for SessionDescription {
    type V = SessionDescriptionView;

    open spec fn view(&self) -> SessionDescriptionView {
        SessionDescriptionView { mode: self.mode@, secret_key: self.secret_key@ }
    }
}

/// How a user is speaking, as a set of flags.
#[derive(Clone, Copy, Debug, PartialEq, Eq, Hash, Structural)]
pub struct SpeakingState(pub u8);

/// Normal transmission of voice audio.
pub const MICROPHONE: u8 = 1;

/// Transmission of context audio for video, no speaking indicator.
pub const SOUNDSHARE: u8 = 2;

/// Priority speaker, lowering audio of other speakers.
pub const PRIORITY: u8 = 4;

/// Used to indicate which users are speaking, or to inform the server that
/// the client is now speaking.
#[derive(Clone, Copy, Debug, PartialEq, Eq, Hash, Structural)]
pub struct Speaking {
    /// Function currently unknown; `Some(0)` when sent by a client.
    pub delay: Option<u32>,
    /// How, and whether, a user has started or stopped speaking.
    pub speaking: SpeakingState,
    /// RTP synchronisation source of the speaker.
    pub ssrc: u32,
    /// User ID of the speaker, included in messages received from the server.
    pub user_id: Option<UserId>,
}

/// Kinds of control-channel message, one per opcode.
#[derive(Clone, Copy, Debug, PartialEq, Eq, Hash, Structural)]
pub enum OpCode {
    /// Start a voice connection.
    Identify,
    /// Select the protocol to use.
    SelectProtocol,
    /// Received to indicate completion of identification.
    Ready,
    /// Fired periodically to keep the connection alive.
    Heartbeat,
    /// Received to indicate the session description.
    SessionDescription,
    /// Sent and received to indicate speaking status.
    Speaking,
    /// Received in response to a heartbeat.
    HeartbeatAck,
    /// Resume a previously disconnected session.
    Resume,
    /// Received after connecting, contains the heartbeat interval.
    Hello,
    /// Received to indicate a successful resume.
    Resumed,
    /// Received to indicate someone connected.
    ClientConnect,
    /// Received to indicate someone was disconnected.
    ClientDisconnect,
}

/// The opcode that `number` stands for, if any.
pub open spec fn opcode_of(number: u8) -> Option<OpCode> {
    if number == 0 {
        Some(OpCode::Identify)
    } else if number == 1 {
        Some(OpCode::SelectProtocol)
    } else if number == 2 {
        Some(OpCode::Ready)
    } else if number == 3 {
        Some(OpCode::Heartbeat)
    } else if number == 4 {
        Some(OpCode::SessionDescription)
    } else if number == 5 {
        Some(OpCode::Speaking)
    } else if number == 6 {
        Some(OpCode::HeartbeatAck)
    } else if number == 7 {
        Some(OpCode::Resume)
    } else if number == 8 {
        Some(OpCode::Hello)
    } else if number == 9 {
        Some(OpCode::Resumed)
    } else if number == 12 {
        Some(OpCode::ClientConnect)
    } else if number == 13 {
        Some(OpCode::ClientDisconnect)
    } else {
        None
    }
}

impl OpCode {
    /// The number of this opcode on the wire.
    pub open spec fn number(self) -> u8 {
        match self {
            OpCode::Identify => 0,
            OpCode::SelectProtocol => 1,
            OpCode::Ready => 2,
            OpCode::Heartbeat => 3,
            OpCode::SessionDescription => 4,
            OpCode::Speaking => 5,
            OpCode::HeartbeatAck => 6,
            OpCode::Resume => 7,
            OpCode::Hello => 8,
            OpCode::Resumed => 9,
            OpCode::ClientConnect => 12,
            OpCode::ClientDisconnect => 13,
        }
    }

    /// Whether a message of this kind travels from the server to the client.
    pub open spec fn inbound(self) -> bool {
        !(self == OpCode::Identify || self == OpCode::SelectProtocol || self == OpCode::Heartbeat
            || self == OpCode::Resume)
    }

    /// The number of this opcode on the wire.
    pub fn code(self) -> (n: u8)
        ensures
            n == self.number(),
    {
        match self {
            OpCode::Identify => 0,
            OpCode::SelectProtocol => 1,
            OpCode::Ready => 2,
            OpCode::Heartbeat => 3,
            OpCode::SessionDescription => 4,
            OpCode::Speaking => 5,
            OpCode::HeartbeatAck => 6,
            OpCode::Resume => 7,
            OpCode::Hello => 8,
            OpCode::Resumed => 9,
            OpCode::ClientConnect => 12,
            OpCode::ClientDisconnect => 13,
        }
    }

    /// The opcode that `number` stands for, if any.
    pub fn from_code(number: u8) -> (op: Option<OpCode>)
        ensures
            op == opcode_of(number),
    {
        match number {
            0 => Some(OpCode::Identify),
            1 => Some(OpCode::SelectProtocol),
            2 => Some(OpCode::Ready),
            3 => Some(OpCode::Heartbeat),
            4 => Some(OpCode::SessionDescription),
            5 => Some(OpCode::Speaking),
            6 => Some(OpCode::HeartbeatAck),
            7 => Some(OpCode::Resume),
            8 => Some(OpCode::Hello),
            9 => Some(OpCode::Resumed),
            12 => Some(OpCode::ClientConnect),
            13 => Some(OpCode::ClientDisconnect),
            _ => None,
        }
    }
}

/// A control-channel message: its kind and the body that goes with it.
#[derive(Clone, Debug, PartialEq, Eq, Hash)]
pub enum Event {
    Identify(Identify),
    SelectProtocol(SelectProtocol),
    Ready(Ready),
    Heartbeat(Heartbeat),
    SessionDescription(SessionDescription),
    Speaking(Speaking),
    HeartbeatAck(HeartbeatAck),
    Resume(Resume),
    Hello(Hello),
    Resumed,
    ClientConnect(ClientConnect),
    ClientDisconnect(ClientDisconnect),
}

/// View of [`Event`].
pub enum EventView {
    Identify(IdentifyView),
    SelectProtocol(SelectProtocolView),
    Ready(ReadyView),
    Heartbeat(Heartbeat),
    SessionDescription(SessionDescriptionView),
    Speaking(Speaking),
    HeartbeatAck(HeartbeatAck),
    Resume(ResumeView),
    Hello(Hello),
    Resumed,
    ClientConnect(ClientConnect),
    ClientDisconnect(ClientDisconnect),
}

impl EventView {
    /// The opcode under which this event travels.
    pub open spec fn opcode(self) -> OpCode {
        match self {
            EventView::Identify(_) => OpCode::Identify,
            EventView::SelectProtocol(_) => OpCode::SelectProtocol,
            EventView::Ready(_) => OpCode::Ready,
            EventView::Heartbeat(_) => OpCode::Heartbeat,
            EventView::SessionDescription(_) => OpCode::SessionDescription,
            EventView::Speaking(_) => OpCode::Speaking,
            EventView::HeartbeatAck(_) => OpCode::HeartbeatAck,
            EventView::Resume(_) => OpCode::Resume,
            EventView::Hello(_) => OpCode::Hello,
            EventView::Resumed => OpCode::Resumed,
            EventView::ClientConnect(_) => OpCode::ClientConnect,
            EventView::ClientDisconnect(_) => OpCode::ClientDisconnect,
        }
    }
}

impl View for Event {
    type V = EventView;

    open spec fn view(&self) -> EventView {
        match self {
            Event::Identify(body) => EventView::Identify(body@),
            Event::SelectProtocol(body) => EventView::SelectProtocol(body@),
            Event::Ready(body) => EventView::Ready(body@),
            Event::Heartbeat(body) => EventView::Heartbeat(*body),
            Event::SessionDescription(body) => EventView::SessionDescription(body@),
            Event::Speaking(body) => EventView::Speaking(*body),
            Event::HeartbeatAck(body) => EventView::HeartbeatAck(*body),
            Event::Resume(body) => EventView::Resume(body@),
            Event::Hello(body) => EventView::Hello(*body),
            Event::Resumed => EventView::Resumed,
            Event::ClientConnect(body) => EventView::ClientConnect(*body),
            Event::ClientDisconnect(body) => EventView::ClientDisconnect(*body),
        }
    }
}

impl Event {
    /// The opcode under which this event travels.
    pub fn opcode(&self) -> (op: OpCode)
        ensures
            op == self@.opcode(),
    {
        match self {
            Event::Identify(_) => OpCode::Identify,
            Event::SelectProtocol(_) => OpCode::SelectProtocol,
            Event::Ready(_) => OpCode::Ready,
            Event::Heartbeat(_) => OpCode::Heartbeat,
            Event::SessionDescription(_) => OpCode::SessionDescription,
            Event::Speaking(_) => OpCode::Speaking,
            Event::HeartbeatAck(_) => OpCode::HeartbeatAck,
            Event::Resume(_) => OpCode::Resume,
            Event::Hello(_) => OpCode::Hello,
            Event::Resumed => OpCode::Resumed,
            Event::ClientConnect(_) => OpCode::ClientConnect,
            Event::ClientDisconnect(_) => OpCode::ClientDisconnect,
        }
    }
}

/// Every opcode converts to its number and back, and a number stands for at
/// most one opcode.
pub proof fn opcode_round_trip(op: OpCode, number: u8)
    ensures
        opcode_of(op.number()) == Some(op),
        opcode_of(number) matches Some(found) ==> found.number() == number,
{
}

} // verus!
