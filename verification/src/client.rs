//! The voice client of one guild and channel: the handshake with the main
//! gateway, and the life of the connection that follows it.
//!
//! A client is `Disconnected` until it is asked to join. It then waits for
//! two updates from the main gateway, in whatever order they come, and with
//! both in hand opens the control channel. Everything that completes later
//! (a message, a datagram, a timer, a close) is reported together with the
//! generation it belongs to; what belongs to an earlier generation is
//! dropped.

use vstd::prelude::*;
use crate::Error;
use crate::close_code::{classify, resumable_code};
use crate::gateway::{
    first_supported, gateway_url, steps_keep_the_phase, steps_keep_the_session_well_formed, Action,
    ActionView, DiscordVoiceClient, DiscordVoiceClientBuilder, EncryptionSession,
    EncryptionSessionView, GatewaySession,
};
use crate::id::{ChannelId, GuildId};
use crate::packet::{decoded, request_bytes};
use crate::payload::{
    texts, Event, EventView, Hello, IdentifyView, ProtocolDataView, ReadyView, Resume, ResumeView,
    SelectProtocolView, SessionDescriptionView,
};
use crate::signal::{
    PartialVoiceStateUpdate, PartialVoiceStateUpdateView, VoiceServerUpdate, VoiceServerUpdateView,
    VoiceStateRequest,
};
use crate::voice::backoff_values;

verus! {

/// The generation after `generation`.
pub open spec fn next_generation(generation: u64) -> u64 {
    if generation == u64::MAX {
        0
    } else {
        (generation + 1) as u64
    }
}

/// The reason that stands for the end of a control channel: the code it was
/// closed with, or the failure of the channel where it gave none.
pub open spec fn close_reason(code: Option<u16>) -> Error {
    match code {
        Some(number) => Error::Closed(number),
        None => Error::WebSocket,
    }
}

/// The close code that a control channel is taken to have ended with where
/// it gave none, because it failed or went silent: that of a session that
/// timed out.
pub const SILENT_CLOSE: u16 = 4009;

/// The close code that decides what follows the end of a control channel.
pub open spec fn deciding_code(code: Option<u16>) -> u16 {
    match code {
        Some(number) => number,
        None => SILENT_CLOSE,
    }
}

/// Whether a session may be resumed after its control channel ended with
/// `code`: whether the deciding code allows it.
pub open spec fn resumable_close(code: Option<u16>) -> bool {
    resumable_code(deciding_code(code))
}

/// Whether the error is the failure of a transport, which a connected
/// client gets over by resuming.
pub open spec fn is_transport_failure(error: Error) -> bool {
    error == Error::WebSocket || error == Error::Io
}

/// Where a voice client stands.
pub enum ConnectionView {
    /// A join was asked for; the two updates are awaited.
    Handshaking { server: Option<VoiceServerUpdateView>, state: Option<PartialVoiceStateUpdateView> },
    /// Both updates are in; the control channel runs its handshake.
    Establishing(GatewaySession),
    /// The connection is ready for audio.
    Connected(GatewaySession),
    /// The control channel was lost; a fresh one asks to resume.
    Resuming(GatewaySession),
    /// No connection, and none asked for.
    Disconnected,
}

impl ConnectionView {
    /// Whether both updates of the handshake are in.
    pub open spec fn ready(self) -> bool {
        self matches ConnectionView::Handshaking { server: Some(_), state: Some(_) }
    }

    /// The session of the control channel, where there is one.
    pub open spec fn gateway(self) -> Option<GatewaySession> {
        match self {
            ConnectionView::Establishing(session) => Some(session),
            ConnectionView::Connected(session) => Some(session),
            ConnectionView::Resuming(session) => Some(session),
            _ => None,
        }
    }

    /// Whether the session of the control channel is well-formed and in the
    /// phase that the state of the client stands for, and the handshake
    /// does not hold both updates without going on.
    pub open spec fn wf(self) -> bool {
        match self {
            ConnectionView::Handshaking { server, state } => !(server is Some && state is Some),
            ConnectionView::Establishing(session) => session.wf() && session.in_handshake(),
            ConnectionView::Connected(session) => session.wf() && session.phase is Established,
            ConnectionView::Resuming(session) => session.wf() && session.phase is Resuming,
            ConnectionView::Disconnected => true,
        }
    }
}

/// What the owner of the transports does next.
pub enum CommandView {
    /// Nothing.
    Nothing,
    /// Pass the request on to the main gateway.
    UpdateVoiceState(VoiceStateRequest),
    /// Close the control channel and stop the timers of an earlier
    /// generation, and open the control channel at `url` for `generation`.
    /// Where `resume` is there, keep the UDP socket, send the resume as
    /// soon as the channel is open and, where `heartbeat_interval` is
    /// there, go on with the heartbeat at that period. Where `resume` is
    /// not there, drop the UDP socket too.
    Open {
        generation: u64,
        url: Seq<char>,
        resume: Option<ResumeView>,
        heartbeat_interval: Option<u64>,
    },
    /// Do for the transports of `generation` what the action says.
    Gateway { generation: u64, action: ActionView },
    /// Drop every transport and timer: the connection has ended.
    Close,
    /// Drop every transport and timer, and pass the request on to the main
    /// gateway.
    Leave(VoiceStateRequest),
    /// Drop every transport and timer: the session could not be resumed.
    /// Ask to join again, with these flags, so that the connection is made
    /// from its beginning.
    Rejoin { self_deaf: bool, self_mute: bool },
}

/// The command that carries an action of the control channel.
pub open spec fn command_of(generation: u64, action: ActionView) -> CommandView {
    if action is Idle {
        CommandView::Nothing
    } else {
        CommandView::Gateway { generation, action }
    }
}

/// State of a voice client.
pub struct VoiceSession {
    pub guild_id: GuildId,
    pub channel_id: ChannelId,
    /// Encryption modes the client accepts, the most wanted first.
    pub preferred: Seq<Seq<char>>,
    /// Token of the current attempt to connect.
    pub generation: u64,
    /// Why the last connection ended, unless it was left.
    pub failure: Option<Error>,
    /// Whether the last join asked to be deafened.
    pub self_deaf: bool,
    /// Whether the last join asked to be muted.
    pub self_mute: bool,
    pub connection: ConnectionView,
}

impl VoiceSession {
    /// A client that has not joined.
    pub open spec fn fresh(guild_id: GuildId, channel_id: ChannelId, preferred: Seq<Seq<char>>) -> VoiceSession {
        VoiceSession {
            guild_id,
            channel_id,
            preferred,
            generation: 0,
            failure: None,
            self_deaf: false,
            self_mute: false,
            connection: ConnectionView::Disconnected,
        }
    }

    /// Whether `generation` is not the current one.
    pub open spec fn stale(self, generation: u64) -> bool {
        generation != self.generation
    }

    /// The request that joins the channel.
    pub open spec fn join_request(self, self_deaf: bool, self_mute: bool) -> VoiceStateRequest {
        VoiceStateRequest {
            guild_id: self.guild_id,
            channel_id: Some(self.channel_id),
            self_deaf,
            self_mute,
        }
    }

    /// The request that leaves the channel.
    pub open spec fn leave_request(self) -> VoiceStateRequest {
        VoiceStateRequest {
            guild_id: self.guild_id,
            channel_id: None,
            self_deaf: false,
            self_mute: false,
        }
    }

    /// The step on a request to join: refused unless disconnected.
    pub open spec fn join(self, self_deaf: bool, self_mute: bool) -> Result<
        (VoiceSession, CommandView),
        Error,
    > {
        if self.connection is Disconnected {
            Ok(
                (
                    VoiceSession {
                        failure: None,
                        self_deaf,
                        self_mute,
                        connection: ConnectionView::Handshaking { server: None, state: None },
                        ..self
                    },
                    CommandView::UpdateVoiceState(self.join_request(self_deaf, self_mute)),
                ),
            )
        } else {
            Err(Error::AlreadyJoined)
        }
    }

    /// The step that opens a control channel with both updates in hand: a
    /// new generation begins.
    pub open spec fn establish(
        self,
        server: VoiceServerUpdateView,
        state: PartialVoiceStateUpdateView,
    ) -> (VoiceSession, CommandView) {
        let generation = next_generation(self.generation);
        (
            VoiceSession {
                generation,
                failure: None,
                connection: ConnectionView::Establishing(
                    GatewaySession::connect(server, state, self.preferred),
                ),
                ..self
            },
            CommandView::Open {
                generation,
                url: gateway_url(server.endpoint),
                resume: None,
                heartbeat_interval: None,
            },
        )
    }

    /// The step on a voice server update. The newest update stands. During
    /// the handshake the control channel is opened once the client's state
    /// is in too; past the handshake the connection is made anew with the
    /// new server. A client that has not joined drops the update.
    pub open spec fn server_update(self, server: VoiceServerUpdateView) -> (
        VoiceSession,
        CommandView,
    ) {
        match self.connection {
            ConnectionView::Handshaking { server: _, state: Some(state) } => self.establish(
                server,
                state,
            ),
            ConnectionView::Handshaking { server: _, state: None } => (
                VoiceSession {
                    connection: ConnectionView::Handshaking { server: Some(server), state: None },
                    ..self
                },
                CommandView::Nothing,
            ),
            ConnectionView::Establishing(session) | ConnectionView::Connected(session)
            | ConnectionView::Resuming(session) => self.establish(server, session.state),
            ConnectionView::Disconnected => (self, CommandView::Nothing),
        }
    }

    /// The step on an update of the client's voice state: as for a voice
    /// server update, with the parts exchanged.
    pub open spec fn state_update(self, state: PartialVoiceStateUpdateView) -> (
        VoiceSession,
        CommandView,
    ) {
        match self.connection {
            ConnectionView::Handshaking { server: Some(server), state: _ } => self.establish(
                server,
                state,
            ),
            ConnectionView::Handshaking { server: None, state: _ } => (
                VoiceSession {
                    connection: ConnectionView::Handshaking { server: None, state: Some(state) },
                    ..self
                },
                CommandView::Nothing,
            ),
            ConnectionView::Establishing(session) | ConnectionView::Connected(session)
            | ConnectionView::Resuming(session) => self.establish(session.server, state),
            ConnectionView::Disconnected => (self, CommandView::Nothing),
        }
    }

    /// The step on a request to leave: nothing where the client is
    /// disconnected already.
    pub open spec fn leave(self) -> (VoiceSession, CommandView) {
        if self.connection is Disconnected {
            (self, CommandView::Nothing)
        } else {
            (
                VoiceSession {
                    generation: next_generation(self.generation),
                    failure: None,
                    connection: ConnectionView::Disconnected,
                    ..self
                },
                CommandView::Leave(self.leave_request()),
            )
        }
    }

    /// The end of a connection for the given reason. Where it was a resume
    /// that failed, the connection is to be made again from its beginning:
    /// the command asks for the join that starts it.
    pub open spec fn disconnect(self, reason: Error) -> (VoiceSession, CommandView) {
        (
            VoiceSession {
                generation: next_generation(self.generation),
                failure: Some(reason),
                connection: ConnectionView::Disconnected,
                ..self
            },
            if self.connection is Resuming {
                CommandView::Rejoin { self_deaf: self.self_deaf, self_mute: self.self_mute }
            } else {
                CommandView::Close
            },
        )
    }

    /// The client after a step of its control channel that left the channel
    /// in `session` and asked for `action`.
    pub open spec fn after(self, session: GatewaySession, action: ActionView) -> (
        VoiceSession,
        CommandView,
    ) {
        match action {
            ActionView::Fail(reason) => self.disconnect(reason),
            _ => (
                VoiceSession {
                    connection: match self.connection {
                        ConnectionView::Establishing(_) => if action is Established {
                            ConnectionView::Connected(session)
                        } else {
                            ConnectionView::Establishing(session)
                        },
                        ConnectionView::Resuming(_) => if action is Resumed {
                            ConnectionView::Connected(session)
                        } else {
                            ConnectionView::Resuming(session)
                        },
                        ConnectionView::Connected(_) => ConnectionView::Connected(session),
                        other => other,
                    },
                    ..self
                },
                command_of(self.generation, action),
            ),
        }
    }

    /// The step on a message of the control channel of `generation`.
    pub open spec fn message(self, generation: u64, seq: Option<i64>, event: EventView) -> (
        VoiceSession,
        CommandView,
    ) {
        if self.stale(generation) {
            (self, CommandView::Nothing)
        } else {
            match self.connection.gateway() {
                Some(session) => self.after(session.poll(seq, event).0, session.poll(seq, event).1),
                None => (self, CommandView::Nothing),
            }
        }
    }

    /// The step on a datagram of the UDP socket of `generation`.
    pub open spec fn datagram(self, generation: u64, bytes: Seq<u8>) -> (VoiceSession, CommandView) {
        if self.stale(generation) {
            (self, CommandView::Nothing)
        } else {
            match self.connection {
                ConnectionView::Establishing(session) => self.after(
                    session.datagram(bytes).0,
                    session.datagram(bytes).1,
                ),
                _ => (self, CommandView::Nothing),
            }
        }
    }

    /// The step on the expiry of a discovery wait of `generation`.
    pub open spec fn discovery_timeout(self, generation: u64) -> (VoiceSession, CommandView) {
        if self.stale(generation) {
            (self, CommandView::Nothing)
        } else {
            match self.connection {
                ConnectionView::Establishing(session) => self.after(
                    session.discovery_timeout().0,
                    session.discovery_timeout().1,
                ),
                _ => (self, CommandView::Nothing),
            }
        }
    }

    /// The step on the loss of the control channel in a way that allows a
    /// resume. A connected client resumes, on a fresh channel and in a new
    /// generation; in every other state there is no session to resume, and
    /// the connection ends for the given reason.
    pub open spec fn lost(self, reason: Error) -> (VoiceSession, CommandView) {
        match self.connection {
            ConnectionView::Connected(session) => {
                let generation = next_generation(self.generation);
                (
                    VoiceSession {
                        generation,
                        connection: ConnectionView::Resuming(session.resume()),
                        ..self
                    },
                    CommandView::Open {
                        generation,
                        url: session.url(),
                        resume: Some(session.resume_payload()),
                        heartbeat_interval: session.heartbeat_interval,
                    },
                )
            },
            ConnectionView::Establishing(_) | ConnectionView::Resuming(_) => self.disconnect(reason),
            _ => (self, CommandView::Nothing),
        }
    }

    /// The step on the end of the control channel of `generation`, with the
    /// close code if the server gave one. Where the deciding code allows a
    /// resume the channel is lost, and no more; with any other code the
    /// connection ends.
    pub open spec fn close(self, generation: u64, code: Option<u16>) -> (VoiceSession, CommandView) {
        if self.stale(generation) {
            (self, CommandView::Nothing)
        } else if resumable_close(code) {
            self.lost(close_reason(code))
        } else if self.connection.gateway() is Some {
            self.disconnect(close_reason(code))
        } else {
            (self, CommandView::Nothing)
        }
    }

    /// The step on a tick of the heartbeat timer of `generation` at time
    /// `now`. A dead connection is treated as a channel that ended without
    /// a code.
    pub open spec fn heartbeat(self, generation: u64, now: u64) -> (VoiceSession, CommandView) {
        if self.stale(generation) {
            (self, CommandView::Nothing)
        } else {
            match self.connection.gateway() {
                Some(session) => if session.heartbeat(now).1 is Dead {
                    self.close(generation, None)
                } else {
                    self.after(session.heartbeat(now).0, session.heartbeat(now).1)
                },
                None => (self, CommandView::Nothing),
            }
        }
    }

    /// The step on a failure in the work for `generation`. With the
    /// failure of a transport the channel is lost, and no more; any other
    /// failure ends the connection.
    pub open spec fn failure(self, generation: u64, error: Error) -> (VoiceSession, CommandView) {
        if self.stale(generation) {
            (self, CommandView::Nothing)
        } else if is_transport_failure(error) {
            self.lost(error)
        } else if self.connection.gateway() is Some {
            self.disconnect(error)
        } else {
            (self, CommandView::Nothing)
        }
    }
}

/// Where a voice client stands.
#[derive(Clone, Debug, PartialEq, Eq)]
pub enum Connection {
    /// A join was asked for; the two updates are awaited.
    Handshaking { server: Option<VoiceServerUpdate>, state: Option<PartialVoiceStateUpdate> },
    /// Both updates are in; the control channel runs its handshake.
    Establishing(DiscordVoiceClient),
    /// The connection is ready for audio.
    Connected(DiscordVoiceClient),
    /// The control channel was lost; a fresh one asks to resume.
    Resuming(DiscordVoiceClient),
    /// No connection, and none asked for.
    Disconnected,
}

impl View for Connection {
    type V = ConnectionView;

    open spec fn view(&self) -> ConnectionView {
        match self {
            Connection::Handshaking { server, state } => ConnectionView::Handshaking {
                server: match server {
                    Some(update) => Some(update@),
                    None => None,
                },
                state: match state {
                    Some(update) => Some(update@),
                    None => None,
                },
            },
            Connection::Establishing(client) => ConnectionView::Establishing(client@),
            Connection::Connected(client) => ConnectionView::Connected(client@),
            Connection::Resuming(client) => ConnectionView::Resuming(client@),
            Connection::Disconnected => ConnectionView::Disconnected,
        }
    }
}

impl Connection {
    /// Whether both updates of the handshake are in.
    pub fn is_ready(&self) -> (yes: bool)
        ensures
            yes == self@.ready(),
    {
        matches!(self, Connection::Handshaking { server: Some(_), state: Some(_) })
    }

    /// Whether the connection is ready for audio.
    pub fn is_connected(&self) -> (yes: bool)
        ensures
            yes == (self@ is Connected),
    {
        matches!(self, Connection::Connected(_))
    }

    /// Whether there is no connection and none was asked for.
    pub fn is_disconnected(&self) -> (yes: bool)
        ensures
            yes == (self@ is Disconnected),
    {
        matches!(self, Connection::Disconnected)
    }
}

/// What the owner of the transports does next.
#[derive(Clone, Debug, PartialEq, Eq)]
pub enum Command {
    /// Nothing.
    Nothing,
    /// Pass the request on to the main gateway.
    UpdateVoiceState(VoiceStateRequest),
    /// Close the control channel and stop the timers of an earlier
    /// generation, and open the control channel at `url` for `generation`.
    /// Where `resume` is there, keep the UDP socket, send the resume as
    /// soon as the channel is open and, where `heartbeat_interval` is
    /// there, go on with the heartbeat at that period. Where `resume` is
    /// not there, drop the UDP socket too.
    Open { generation: u64, url: String, resume: Option<Resume>, heartbeat_interval: Option<u64> },
    /// Do for the transports of `generation` what the action says.
    Gateway { generation: u64, action: Action },
    /// Drop every transport and timer: the connection has ended.
    Close,
    /// Drop every transport and timer, and pass the request on to the main
    /// gateway.
    Leave(VoiceStateRequest),
    /// Drop every transport and timer: the session could not be resumed.
    /// Ask to join again, with these flags, so that the connection is made
    /// from its beginning.
    Rejoin { self_deaf: bool, self_mute: bool },
}

impl View for Command {
    type V = CommandView;

    open spec fn view(&self) -> CommandView {
        match self {
            Command::Nothing => CommandView::Nothing,
            Command::UpdateVoiceState(request) => CommandView::UpdateVoiceState(*request),
            Command::Open { generation, url, resume, heartbeat_interval } => CommandView::Open {
                generation: *generation,
                url: url@,
                resume: match resume {
                    Some(payload) => Some(payload@),
                    None => None,
                },
                heartbeat_interval: *heartbeat_interval,
            },
            Command::Gateway { generation, action } => CommandView::Gateway {
                generation: *generation,
                action: action@,
            },
            Command::Close => CommandView::Close,
            Command::Leave(request) => CommandView::Leave(*request),
            Command::Rejoin { self_deaf, self_mute } => CommandView::Rejoin {
                self_deaf: *self_deaf,
                self_mute: *self_mute,
            },
        }
    }
}

/// The voice client of one guild and channel.
#[derive(Clone, Debug, PartialEq, Eq)]
pub struct VoiceClient {
    guild_id: GuildId,
    channel_id: ChannelId,
    modes: Vec<String>,
    generation: u64,
    failure: Option<Error>,
    self_deaf: bool,
    self_mute: bool,
    connection: Connection,
}

impl View for VoiceClient {
    type V = VoiceSession;

    closed spec fn view(&self) -> VoiceSession {
        VoiceSession {
            guild_id: self.guild_id,
            channel_id: self.channel_id,
            preferred: texts(self.modes@),
            generation: self.generation,
            failure: self.failure,
            self_deaf: self.self_deaf,
            self_mute: self.self_mute,
            connection: self.connection@,
        }
    }
}

/// The three states in which a client has a control channel.
enum Stage {
    Establishing,
    Connected,
    Resuming,
}

/// A connection with the given control channel, in the given state.
spec fn with_gateway(stage: Stage, session: GatewaySession) -> ConnectionView {
    match stage {
        Stage::Establishing => ConnectionView::Establishing(session),
        Stage::Connected => ConnectionView::Connected(session),
        Stage::Resuming => ConnectionView::Resuming(session),
    }
}

/// Parts a connection into its state and its control channel, where it has
/// one.
fn part(connection: Connection) -> (parts: Result<(Stage, DiscordVoiceClient), Connection>)
    ensures
        match parts {
            Ok((stage, client)) => connection@ == with_gateway(stage, client@),
            Err(other) => other == connection && connection@.gateway() is None,
        },
{
    match connection {
        Connection::Establishing(client) => Ok((Stage::Establishing, client)),
        Connection::Connected(client) => Ok((Stage::Connected, client)),
        Connection::Resuming(client) => Ok((Stage::Resuming, client)),
        other => Err(other),
    }
}

fn copy_of(list: &Vec<String>) -> (copy: Vec<String>)
    ensures
        texts(copy@) == texts(list@),
{
    let mut copy: Vec<String> = Vec::with_capacity(list.len());
    let mut i: usize = 0;
    while i < list.len()
        invariant
            i <= list@.len(),
            copy@.len() == i,
            forall|j: int| 0 <= j < i ==> copy@[j]@ == list@[j]@,
        decreases list@.len() - i,
    {
        copy.push(list[i].clone());
        i += 1;
    }
    assert(texts(copy@) =~= texts(list@));
    copy
}

impl VoiceClient {
    /// A client for the given channel of the given guild, which accepts the
    /// given encryption modes, the most wanted first. It has not joined.
    pub fn new(guild_id: GuildId, channel_id: ChannelId, modes: Vec<String>) -> (client: Self)
        ensures
            client@ == VoiceSession::fresh(guild_id, channel_id, texts(modes@)),
            client@.connection.wf(),
    {
        VoiceClient {
            guild_id,
            channel_id,
            modes,
            generation: 0,
            failure: None,
            self_deaf: false,
            self_mute: false,
            connection: Connection::Disconnected,
        }
    }

    /// Where the client stands.
    pub fn connection(&self) -> (connection: &Connection)
        ensures
            connection@ == self@.connection,
    {
        &self.connection
    }

    /// Token of the current attempt to connect.
    pub fn generation(&self) -> (generation: u64)
        ensures
            generation == self@.generation,
    {
        self.generation
    }

    /// Why the last connection ended, unless it was left.
    pub fn failure(&self) -> (failure: Option<Error>)
        ensures
            failure == self@.failure,
    {
        self.failure
    }

    /// The encryption session of the connection, once its handshake is
    /// complete.
    pub fn encryption_session(&self) -> (session: Option<&EncryptionSession>)
        ensures
            match session {
                Some(found) => self@.connection.gateway() is Some
                    && self@.connection.gateway()->0.encryption() == Some(found@),
                None => self@.connection.gateway() is Some
                    ==> self@.connection.gateway()->0.encryption() is None,
            },
            self@.connection.wf() && self@.connection is Connected ==> session is Some,
    {
        match &self.connection {
            Connection::Establishing(client) => client.encryption_session(),
            Connection::Connected(client) => client.encryption_session(),
            Connection::Resuming(client) => client.encryption_session(),
            _ => None,
        }
    }

    fn take_connection(&mut self) -> (connection: Connection)
        ensures
            connection@ == old(self)@.connection,
            final(self)@ == (VoiceSession {
                connection: ConnectionView::Disconnected,
                ..old(self)@
            }),
    {
        let mut connection = Connection::Disconnected;
        core::mem::swap(&mut self.connection, &mut connection);
        connection
    }

    fn advance(&mut self) -> (generation: u64)
        ensures
            generation == next_generation(old(self)@.generation),
            final(self)@ == (VoiceSession { generation, ..old(self)@ }),
    {
        self.generation = if self.generation == u64::MAX {
            0
        } else {
            self.generation + 1
        };
        self.generation
    }

    /// Ends the connection; `resuming` says whether it was being resumed.
    fn disconnect(&mut self, reason: Error, resuming: bool) -> (command: Command)
        ensures
            final(self)@ == old(self)@.disconnect(reason).0,
            command@ == if resuming {
                CommandView::Rejoin {
                    self_deaf: old(self)@.self_deaf,
                    self_mute: old(self)@.self_mute,
                }
            } else {
                CommandView::Close
            },
    {
        self.advance();
        self.failure = Some(reason);
        self.connection = Connection::Disconnected;
        if resuming {
            Command::Rejoin { self_deaf: self.self_deaf, self_mute: self.self_mute }
        } else {
            Command::Close
        }
    }

    /// Opens a control channel with both updates in hand.
    fn establish_connection(
        &mut self,
        server: VoiceServerUpdate,
        state: PartialVoiceStateUpdate,
    ) -> (command: Command)
        ensures
            (final(self)@, command@) == old(self)@.establish(server@, state@),
    {
        let generation = self.advance();
        let client = DiscordVoiceClient::connect(
            DiscordVoiceClientBuilder {
                voice_server_update: server,
                voice_state: state,
                modes: copy_of(&self.modes),
            },
        );
        let url = client.url();
        self.failure = None;
        self.connection = Connection::Establishing(client);
        Command::Open { generation, url, resume: None, heartbeat_interval: None }
    }

    /// Settles a step of the control channel.
    fn settle(&mut self, stage: Stage, client: DiscordVoiceClient, action: Action) -> (command:
        Command)
        ensures
            (final(self)@, command@) == (VoiceSession {
                connection: with_gateway(stage, client@),
                ..old(self)@
            }).after(client@, action@),
    {
        match action {
            Action::Fail(reason) => self.disconnect(reason, matches!(stage, Stage::Resuming)),
            Action::Idle => {
                self.connection = match stage {
                    Stage::Establishing => Connection::Establishing(client),
                    Stage::Connected => Connection::Connected(client),
                    Stage::Resuming => Connection::Resuming(client),
                };
                Command::Nothing
            },
            other => {
                self.connection = match stage {
                    Stage::Establishing => if matches!(other, Action::Established) {
                        Connection::Connected(client)
                    } else {
                        Connection::Establishing(client)
                    },
                    Stage::Connected => Connection::Connected(client),
                    Stage::Resuming => if matches!(other, Action::Resumed) {
                        Connection::Connected(client)
                    } else {
                        Connection::Resuming(client)
                    },
                };
                Command::Gateway { generation: self.generation, action: other }
            },
        }
    }

    /// Asks to join the channel.
    ///
    /// A client that is not disconnected refuses with
    /// [`Error::AlreadyJoined`] and stays as it is. Otherwise the client
    /// awaits the two updates, and the command holds the request to pass on
    /// to the main gateway.
    pub fn join(&mut self, self_deaf: bool, self_mute: bool) -> (r: Result<Command, Error>)
        ensures
            match r {
                Ok(command) => old(self)@.join(self_deaf, self_mute) == Ok::<
                    (VoiceSession, CommandView),
                    Error,
                >((final(self)@, command@)),
                Err(e) => old(self)@.join(self_deaf, self_mute) == Err::<
                    (VoiceSession, CommandView),
                    Error,
                >(e) && final(self)@ == old(self)@,
            },
            !(old(self)@.connection is Disconnected) ==> r == Err::<Command, Error>(
                Error::AlreadyJoined,
            ) && final(self)@ == old(self)@,
            old(self)@.connection.wf() ==> final(self)@.connection.wf(),
    {
        proof {
            well_formed_stays(self@);
        }
        if !self.connection.is_disconnected() {
            return Err(Error::AlreadyJoined);
        }
        self.failure = None;
        self.self_deaf = self_deaf;
        self.self_mute = self_mute;
        self.connection = Connection::Handshaking { server: None, state: None };
        Ok(
            Command::UpdateVoiceState(
                VoiceStateRequest {
                    guild_id: self.guild_id,
                    channel_id: Some(self.channel_id),
                    self_deaf,
                    self_mute,
                },
            ),
        )
    }

    /// Takes a voice server update from the main gateway.
    pub fn on_voice_server_update(&mut self, data: VoiceServerUpdate) -> (command: Command)
        ensures
            (final(self)@, command@) == old(self)@.server_update(data@),
            old(self)@.connection.wf() ==> final(self)@.connection.wf(),
    {
        proof {
            well_formed_stays(self@);
        }
        match self.take_connection() {
            Connection::Handshaking { server: _, state: Some(state) } => self.establish_connection(
                data,
                state,
            ),
            Connection::Handshaking { server: _, state: None } => {
                self.connection = Connection::Handshaking { server: Some(data), state: None };
                Command::Nothing
            },
            Connection::Establishing(client) | Connection::Connected(client) | Connection::Resuming(
                client,
            ) => {
                let (_, state) = client.into_updates();
                self.establish_connection(data, state)
            },
            Connection::Disconnected => Command::Nothing,
        }
    }

    /// Takes an update of the client's own voice state from the main
    /// gateway.
    pub fn on_voice_state_update(&mut self, data: PartialVoiceStateUpdate) -> (command: Command)
        ensures
            (final(self)@, command@) == old(self)@.state_update(data@),
            old(self)@.connection.wf() ==> final(self)@.connection.wf(),
    {
        proof {
            well_formed_stays(self@);
        }
        match self.take_connection() {
            Connection::Handshaking { server: Some(server), state: _ } => self.establish_connection(
                server,
                data,
            ),
            Connection::Handshaking { server: None, state: _ } => {
                self.connection = Connection::Handshaking { server: None, state: Some(data) };
                Command::Nothing
            },
            Connection::Establishing(client) | Connection::Connected(client) | Connection::Resuming(
                client,
            ) => {
                let (server, _) = client.into_updates();
                self.establish_connection(server, data)
            },
            Connection::Disconnected => Command::Nothing,
        }
    }

    /// Leaves the channel: whatever the client was doing ends, and the
    /// command holds the request to pass on to the main gateway. A client
    /// that is disconnected already has nothing to do.
    pub fn leave(&mut self) -> (command: Command)
        ensures
            (final(self)@, command@) == old(self)@.leave(),
            final(self)@.connection is Disconnected,
            old(self)@.connection.wf() ==> final(self)@.connection.wf(),
    {
        proof {
            well_formed_stays(self@);
        }
        if self.connection.is_disconnected() {
            return Command::Nothing;
        }
        self.advance();
        self.failure = None;
        self.connection = Connection::Disconnected;
        Command::Leave(
            VoiceStateRequest {
                guild_id: self.guild_id,
                channel_id: None,
                self_deaf: false,
                self_mute: false,
            },
        )
    }

    /// Takes a message that arrived on the control channel of `generation`,
    /// with the sequence number of its envelope.
    pub fn on_message(&mut self, generation: u64, seq: Option<i64>, event: Event) -> (command:
        Command)
        ensures
            (final(self)@, command@) == old(self)@.message(generation, seq, event@),
            old(self)@.stale(generation) ==> final(self)@ == old(self)@ && command@
                == CommandView::Nothing,
            old(self)@.connection.wf() ==> final(self)@.connection.wf(),
    {
        proof {
            well_formed_stays(self@);
        }
        if generation != self.generation {
            return Command::Nothing;
        }
        match part(self.take_connection()) {
            Ok((stage, client)) => {
                let mut client = client;
                let action = client.poll(seq, event);
                self.settle(stage, client, action)
            },
            Err(other) => {
                self.connection = other;
                Command::Nothing
            },
        }
    }

    /// Takes a datagram that arrived on the UDP socket of `generation`.
    pub fn on_datagram(&mut self, generation: u64, datagram: &[u8]) -> (command: Command)
        ensures
            (final(self)@, command@) == old(self)@.datagram(generation, datagram@),
            old(self)@.stale(generation) ==> final(self)@ == old(self)@ && command@
                == CommandView::Nothing,
            old(self)@.connection.wf() ==> final(self)@.connection.wf(),
    {
        proof {
            well_formed_stays(self@);
        }
        if generation != self.generation {
            return Command::Nothing;
        }
        match self.take_connection() {
            Connection::Establishing(client) => {
                let mut client = client;
                let action = client.on_datagram(datagram);
                self.settle(Stage::Establishing, client, action)
            },
            other => {
                self.connection = other;
                Command::Nothing
            },
        }
    }

    /// Takes the expiry of a discovery wait of `generation`.
    pub fn on_discovery_timeout(&mut self, generation: u64) -> (command: Command)
        ensures
            (final(self)@, command@) == old(self)@.discovery_timeout(generation),
            old(self)@.stale(generation) ==> final(self)@ == old(self)@ && command@
                == CommandView::Nothing,
            old(self)@.connection.wf() ==> final(self)@.connection.wf(),
    {
        proof {
            well_formed_stays(self@);
        }
        if generation != self.generation {
            return Command::Nothing;
        }
        match self.take_connection() {
            Connection::Establishing(client) => {
                let mut client = client;
                let action = client.on_discovery_timeout();
                self.settle(Stage::Establishing, client, action)
            },
            other => {
                self.connection = other;
                Command::Nothing
            },
        }
    }

    /// Takes the loss of the control channel in a way that allows a resume.
    fn lose(&mut self, reason: Error) -> (command: Command)
        ensures
            (final(self)@, command@) == old(self)@.lost(reason),
    {
        match self.take_connection() {
            Connection::Connected(client) => {
                let mut client = client;
                let url = client.url();
                let heartbeat_interval = client.heartbeat_interval();
                let resume = client.resume();
                let generation = self.advance();
                self.connection = Connection::Resuming(client);
                Command::Open { generation, url, resume: Some(resume), heartbeat_interval }
            },
            Connection::Establishing(_) => self.disconnect(reason, false),
            Connection::Resuming(_) => self.disconnect(reason, true),
            other => {
                self.connection = other;
                Command::Nothing
            },
        }
    }

    /// Takes the end of the control channel of `generation`: `code` is the
    /// close code, or `None` where the channel failed without one.
    pub fn on_close(&mut self, generation: u64, code: Option<u16>) -> (command: Command)
        ensures
            (final(self)@, command@) == old(self)@.close(generation, code),
            old(self)@.stale(generation) ==> final(self)@ == old(self)@ && command@
                == CommandView::Nothing,
            old(self)@.connection.wf() ==> final(self)@.connection.wf(),
    {
        proof {
            well_formed_stays(self@);
        }
        if generation != self.generation {
            return Command::Nothing;
        }
        let reason = match code {
            Some(number) => Error::Closed(number),
            None => Error::WebSocket,
        };
        let deciding = match code {
            Some(number) => number,
            None => SILENT_CLOSE,
        };
        if classify(deciding).resumable() {
            return self.lose(reason);
        }
        match self.connection {
            Connection::Establishing(_) | Connection::Connected(_) => self.disconnect(reason, false),
            Connection::Resuming(_) => self.disconnect(reason, true),
            _ => Command::Nothing,
        }
    }

    /// Takes a tick of the heartbeat timer of `generation` at time `now`,
    /// in milliseconds.
    pub fn on_heartbeat(&mut self, generation: u64, now: u64) -> (command: Command)
        ensures
            (final(self)@, command@) == old(self)@.heartbeat(generation, now),
            old(self)@.stale(generation) ==> final(self)@ == old(self)@ && command@
                == CommandView::Nothing,
            old(self)@.connection.wf() ==> final(self)@.connection.wf(),
    {
        proof {
            well_formed_stays(self@);
        }
        if generation != self.generation {
            return Command::Nothing;
        }
        match part(self.take_connection()) {
            Ok((stage, client)) => {
                let mut client = client;
                let action = client.send_heartbeat(now);
                if matches!(action, Action::Dead) {
                    self.connection = match stage {
                        Stage::Establishing => Connection::Establishing(client),
                        Stage::Connected => Connection::Connected(client),
                        Stage::Resuming => Connection::Resuming(client),
                    };
                    self.on_close(generation, None)
                } else {
                    self.settle(stage, client, action)
                }
            },
            Err(other) => {
                self.connection = other;
                Command::Nothing
            },
        }
    }

    /// Takes a failure in the work for `generation`. After the failure of
    /// a transport ([`Error::WebSocket`], [`Error::Io`]) a connected client
    /// resumes; in every other case the connection ends with `error` as
    /// its reason.
    pub fn on_failure(&mut self, generation: u64, error: Error) -> (command: Command)
        ensures
            (final(self)@, command@) == old(self)@.failure(generation, error),
            old(self)@.stale(generation) ==> final(self)@ == old(self)@ && command@
                == CommandView::Nothing,
            old(self)@.connection.wf() ==> final(self)@.connection.wf(),
    {
        proof {
            well_formed_stays(self@);
        }
        if generation != self.generation {
            return Command::Nothing;
        }
        if matches!(error, Error::WebSocket | Error::Io) {
            return self.lose(error);
        }
        match self.connection {
            Connection::Establishing(_) | Connection::Connected(_) => self.disconnect(error, false),
            Connection::Resuming(_) => self.disconnect(error, true),
            _ => Command::Nothing,
        }
    }
}

/// The two updates of the handshake may come in either order: after both,
/// the client is establishing the same connection, in the same generation,
/// and the second update of either order gives the same command, which
/// opens the control channel.
pub proof fn handshake_is_order_independent(
    session: VoiceSession,
    server: VoiceServerUpdateView,
    state: PartialVoiceStateUpdateView,
)
    requires
        session.connection == (ConnectionView::Handshaking { server: None, state: None }),
    ensures
        session.server_update(server).0.state_update(state) == session.state_update(
            state,
        ).0.server_update(server),
        session.server_update(server).0.state_update(state).0.connection
            == ConnectionView::Establishing(
            GatewaySession::connect(server, state, session.preferred),
        ),
        session.server_update(server).0.state_update(state).1 == (CommandView::Open {
            generation: next_generation(session.generation),
            url: gateway_url(server.endpoint),
            resume: None,
            heartbeat_interval: None,
        }),
        session.server_update(server).1 == CommandView::Nothing,
        session.state_update(state).1 == CommandView::Nothing,
{
}

/// During the handshake the control channel is opened exactly when both
/// updates are in: one update alone leaves the client waiting.
pub proof fn handshake_completes_with_both_updates(
    session: VoiceSession,
    server: VoiceServerUpdateView,
    state: PartialVoiceStateUpdateView,
)
    requires
        session.connection is Handshaking,
        session.connection.wf(),
    ensures
        session.server_update(server).0.connection is Establishing
            <==> session.connection->Handshaking_state is Some,
        session.state_update(state).0.connection is Establishing
            <==> session.connection->Handshaking_server is Some,
        !(session.server_update(server).0.connection is Establishing) ==> session.server_update(
            server,
        ).0.connection == (ConnectionView::Handshaking { server: Some(server), state: None }),
        !(session.state_update(state).0.connection is Establishing) ==> session.state_update(
            state,
        ).0.connection == (ConnectionView::Handshaking { server: None, state: Some(state) }),
{
}

/// From the join to the connection. A disconnected client that joins, gets
/// both updates, and whose control channel then runs its handshake in order
/// (hello, ready, the response to discovery, the description of the chosen
/// mode) is connected, with an encryption session made of the SSRC that the
/// server assigned, the address that discovery found, the first mutual mode
/// and the key that the server described. On the way the identify carries
/// the identifiers of the two updates, and the protocol is selected with
/// the discovered address.
pub proof fn joined_client_connects(
    session: VoiceSession,
    server: VoiceServerUpdateView,
    state: PartialVoiceStateUpdateView,
    interval: u64,
    ready: ReadyView,
    response: Seq<u8>,
    key: Seq<u8>,
    self_deaf: bool,
    self_mute: bool,
)
    requires
        session.connection is Disconnected,
        interval > 0,
        first_supported(session.preferred, ready.modes) is Some,
        decoded(response) is Ok,
    ensures
        ({
            let mode = first_supported(session.preferred, ready.modes)->0;
            let (ip, port) = decoded(response)->Ok_0;
            let generation = next_generation(session.generation);
            let (s0, c0) = session.join(self_deaf, self_mute)->Ok_0;
            let (s1, c1) = s0.server_update(server);
            let (s2, c2) = s1.state_update(state);
            let (s3, c3) = s2.message(
                generation,
                None,
                EventView::Hello(Hello { heartbeat_interval: interval }),
            );
            let (s4, c4) = s3.message(generation, None, EventView::Ready(ready));
            let (s5, c5) = s4.datagram(generation, response);
            let (s6, c6) = s5.message(
                generation,
                None,
                EventView::SessionDescription(
                    SessionDescriptionView { mode, secret_key: key },
                ),
            );
            &&& session.join(self_deaf, self_mute) is Ok
            &&& c2 == (CommandView::Open {
                generation,
                url: gateway_url(server.endpoint),
                resume: None,
                heartbeat_interval: None,
            })
            &&& c3 == (CommandView::Gateway {
                generation,
                action: ActionView::Identify {
                    heartbeat_interval: interval,
                    identify: IdentifyView {
                        server_id: server.guild_id,
                        session_id: state.session_id,
                        token: server.token,
                        user_id: state.user_id,
                    },
                },
            })
            &&& c4 == (CommandView::Gateway {
                generation,
                action: ActionView::Discover {
                    ip: ready.ip,
                    port: ready.port,
                    packet: request_bytes(ready.ssrc),
                    wait_ms: 500,
                },
            })
            &&& c5 == (CommandView::Gateway {
                generation,
                action: ActionView::Select(
                    SelectProtocolView {
                        data: ProtocolDataView { address: ip, mode, port },
                        protocol: "udp"@,
                    },
                ),
            })
            &&& c6 == (CommandView::Gateway { generation, action: ActionView::Established })
            &&& s6.connection is Connected
            &&& s6.connection.wf()
            &&& s6.generation == generation
            &&& s6.failure is None
            &&& s6.connection->Connected_0.encryption() == Some(
                EncryptionSessionView {
                    ssrc: ready.ssrc,
                    external_ip: ip,
                    external_port: port,
                    mode,
                    secret_key: key,
                },
            )
        }),
{
    backoff_values();
}

/// From a close to the connection again. A connected client whose control
/// channel is closed with a code that allows a resume, and whose resume the
/// server then acknowledges on the fresh channel, is connected again with
/// the encryption session it had; on the way only the resume is to be sent,
/// and neither an identify nor discovery is asked for.
pub proof fn resumed_client_is_connected_again(session: VoiceSession, code: u16, seq: Option<i64>)
    requires
        session.connection is Connected,
        session.connection.wf(),
        code == 4009 || code == 4015,
    ensures
        ({
            let gateway = session.connection->Connected_0;
            let (s1, c1) = session.close(session.generation, Some(code));
            let (s2, c2) = s1.message(s1.generation, seq, EventView::Resumed);
            &&& s1.connection is Resuming
            &&& c1 is Open
            &&& c1->Open_resume == Some(gateway.resume_payload())
            &&& c1->Open_generation == s1.generation
            &&& s1.stale(session.generation)
            &&& c2 == (CommandView::Gateway {
                generation: s1.generation,
                action: ActionView::Resumed,
            })
            &&& s2.connection is Connected
            &&& s2.connection.wf()
            &&& s2.connection->Connected_0.encryption() == gateway.encryption()
        }),
{
}

/// A join while the client is not disconnected is refused as already
/// joined, whatever the state; as the refusal holds no new state, the
/// client stays as it was. A join of a disconnected client is accepted.
pub proof fn join_is_refused_unless_disconnected(
    session: VoiceSession,
    self_deaf: bool,
    self_mute: bool,
)
    ensures
        !(session.connection is Disconnected) ==> session.join(self_deaf, self_mute) == Err::<
            (VoiceSession, CommandView),
            Error,
        >(Error::AlreadyJoined),
        session.connection is Disconnected ==> session.join(self_deaf, self_mute) is Ok
            && session.join(self_deaf, self_mute)->Ok_0.0.connection
            == (ConnectionView::Handshaking { server: None, state: None })
            && session.join(self_deaf, self_mute)->Ok_0.1 == CommandView::UpdateVoiceState(
            VoiceStateRequest {
                guild_id: session.guild_id,
                channel_id: Some(session.channel_id),
                self_deaf,
                self_mute,
            },
        ),
{
}

/// An update of a connection that is past its handshake supersedes it: the
/// connection is made anew in a new generation, from the new update and the
/// other one as the connection held it.
pub proof fn newest_update_supersedes(
    session: VoiceSession,
    server: VoiceServerUpdateView,
    state: PartialVoiceStateUpdateView,
)
    requires
        session.connection.gateway() is Some,
    ensures
        session.server_update(server) == session.establish(
            server,
            session.connection.gateway()->0.state,
        ),
        session.state_update(state) == session.establish(
            session.connection.gateway()->0.server,
            state,
        ),
        session.server_update(server).0.stale(session.generation),
        session.state_update(state).0.stale(session.generation),
{
}

/// What completes for a generation that is not the current one is dropped:
/// the client stays as it is and nothing is to be done.
pub proof fn stale_completions_are_dropped(
    session: VoiceSession,
    generation: u64,
    seq: Option<i64>,
    event: EventView,
    bytes: Seq<u8>,
    code: Option<u16>,
    now: u64,
    error: Error,
)
    requires
        session.stale(generation),
    ensures
        session.message(generation, seq, event) == (session, CommandView::Nothing),
        session.datagram(generation, bytes) == (session, CommandView::Nothing),
        session.discovery_timeout(generation) == (session, CommandView::Nothing),
        session.close(generation, code) == (session, CommandView::Nothing),
        session.heartbeat(generation, now) == (session, CommandView::Nothing),
        session.failure(generation, error) == (session, CommandView::Nothing),
{
}

/// Whenever transports are opened or dropped, a new generation begins, so
/// that whatever the old ones still complete is stale.
pub proof fn new_attempts_outdate_old_ones(
    session: VoiceSession,
    server: VoiceServerUpdateView,
    state: PartialVoiceStateUpdateView,
    code: Option<u16>,
    reason: Error,
)
    ensures
        next_generation(session.generation) != session.generation,
        session.establish(server, state).0.stale(session.generation),
        session.disconnect(reason).0.stale(session.generation),
        !(session.connection is Disconnected) ==> session.leave().0.stale(session.generation),
        !(session.close(session.generation, code).1 is Nothing) ==> session.close(
            session.generation,
            code,
        ).0.stale(session.generation),
{
}

/// Leaving always ends disconnected, and leaving again changes nothing.
pub proof fn leave_is_idempotent(session: VoiceSession)
    ensures
        session.leave().0.connection is Disconnected,
        session.leave().0.leave() == (session.leave().0, CommandView::Nothing),
        !(session.connection is Disconnected) ==> session.leave().1 == CommandView::Leave(
            VoiceStateRequest {
                guild_id: session.guild_id,
                channel_id: None,
                self_deaf: false,
                self_mute: false,
            },
        ),
{
}

/// The end of the control channel of a connected client. With a code that
/// allows it (4009 or 4015), and where the channel failed without a code,
/// the client resumes: a fresh channel is to be opened at the same address,
/// and the resume, not an identify, is to be sent on it. With any other
/// code the client is disconnected, and a join is accepted again.
pub proof fn close_code_decides_resume(session: VoiceSession, code: Option<u16>)
    requires
        session.connection is Connected,
        session.connection.wf(),
    ensures
        ({
            let gateway = session.connection->Connected_0;
            let (next, command) = session.close(session.generation, code);
            if code is None || code == Some(4009u16) || code == Some(4015u16) {
                &&& next.connection is Resuming
                &&& next.connection.wf()
                &&& next.connection->Resuming_0.encryption() == gateway.encryption()
                &&& next.connection->Resuming_0.seq == gateway.seq
                &&& command == (CommandView::Open {
                    generation: next.generation,
                    url: gateway_url(gateway.server.endpoint),
                    resume: Some(
                        ResumeView {
                            server_id: gateway.server.guild_id,
                            session_id: gateway.state.session_id,
                            token: gateway.server.token,
                        },
                    ),
                    heartbeat_interval: gateway.heartbeat_interval,
                })
                &&& gateway.heartbeat_interval is Some
            } else {
                &&& next.connection is Disconnected
                &&& next.failure == Some(Error::Closed(code->0))
                &&& command == CommandView::Close
                &&& next.join(false, false) is Ok
            }
        }),
{
}

/// A resume that the server acknowledges brings the client back to
/// connected, with the encryption session it had: neither identify nor
/// discovery runs again, and a hello on the way only starts the heartbeat.
pub proof fn resume_returns_to_connected(session: VoiceSession, seq: Option<i64>, interval: u64)
    requires
        session.connection is Resuming,
        session.connection.wf(),
        interval > 0,
    ensures
        ({
            let gateway = session.connection->Resuming_0;
            let (next, command) = session.message(session.generation, seq, EventView::Resumed);
            &&& next.connection is Connected
            &&& next.connection.wf()
            &&& next.connection->Connected_0.encryption() == gateway.encryption()
            &&& next.generation == session.generation
            &&& command == (CommandView::Gateway {
                generation: session.generation,
                action: ActionView::Resumed,
            })
        }),
        ({
            let hello = EventView::Hello(Hello { heartbeat_interval: interval });
            let (next, command) = session.message(session.generation, seq, hello);
            &&& next.connection is Resuming
            &&& command == (CommandView::Gateway {
                generation: session.generation,
                action: ActionView::StartHeartbeat { heartbeat_interval: interval },
            })
        }),
{
}

/// A resume that fails, because the fresh channel ends, a transport fails
/// or a message comes out of order, leaves the client disconnected, and
/// the command asks for the join that makes the connection anew, with the
/// flags of the join before.
pub proof fn failed_resume_asks_to_join_again(
    session: VoiceSession,
    code: Option<u16>,
    error: Error,
    seq: Option<i64>,
    event: EventView,
)
    requires
        session.connection is Resuming,
    ensures
        ({
            let again = CommandView::Rejoin {
                self_deaf: session.self_deaf,
                self_mute: session.self_mute,
            };
            let (closed, on_close) = session.close(session.generation, code);
            let (failed, on_failure) = session.failure(session.generation, error);
            let (next, on_message) = session.message(session.generation, seq, event);
            &&& closed.connection is Disconnected
            &&& closed.failure == Some(close_reason(code))
            &&& on_close == again
            &&& failed.connection is Disconnected
            &&& failed.failure == Some(error)
            &&& on_failure == again
            &&& next.connection is Disconnected ==> on_message == again
            &&& closed.join(session.self_deaf, session.self_mute) is Ok
        }),
{
}

/// After the failure of a transport a connected client resumes, as after
/// a close that allows it; any other failure ends the connection.
pub proof fn transport_failure_is_resumed(session: VoiceSession, error: Error)
    requires
        session.connection is Connected,
    ensures
        is_transport_failure(error) ==> session.failure(session.generation, error)
            == session.close(session.generation, None),
        is_transport_failure(error) ==> session.failure(
            session.generation,
            error,
        ).0.connection is Resuming,
        !is_transport_failure(error) ==> session.failure(session.generation, error)
            == session.disconnect(error),
{
}

/// A connection whose handshake fails or whose channel ends before the
/// handshake is complete leaves the client disconnected: there is no
/// session yet that could be resumed.
pub proof fn failed_handshake_disconnects(session: VoiceSession, code: Option<u16>, error: Error)
    requires
        session.connection is Establishing,
    ensures
        session.close(session.generation, code).0.connection is Disconnected,
        session.close(session.generation, code).0.failure == Some(close_reason(code)),
        session.failure(session.generation, error).0.connection is Disconnected,
        session.failure(session.generation, error).0.failure == Some(error),
        session.discovery_timeout(session.generation).1 is Close ==> session.discovery_timeout(
            session.generation,
        ).0.connection is Disconnected,
{
}

/// Every step of a well-formed client gives a well-formed client, for all
/// that may be handed in.
proof fn well_formed_stays(session: VoiceSession)
    ensures
        session.connection.wf() ==> {
            &&& forall|deaf: bool, mute: bool| #[trigger]
                session.join(deaf, mute) is Ok ==> session.join(deaf, mute)->Ok_0.0.connection.wf()
            &&& forall|server: VoiceServerUpdateView| (#[trigger] session.server_update(
                    server,
                )).0.connection.wf()
            &&& forall|state: PartialVoiceStateUpdateView| (#[trigger] session.state_update(
                    state,
                )).0.connection.wf()
            &&& session.leave().0.connection.wf()
            &&& forall|generation: u64, seq: Option<i64>, event: EventView| (#[trigger] session.message(
                    generation,
                    seq,
                    event,
                )).0.connection.wf()
            &&& forall|generation: u64, bytes: Seq<u8>| (#[trigger] session.datagram(
                    generation,
                    bytes,
                )).0.connection.wf()
            &&& forall|generation: u64| (#[trigger] session.discovery_timeout(
                    generation,
                )).0.connection.wf()
            &&& forall|generation: u64, code: Option<u16>| (#[trigger] session.close(
                    generation,
                    code,
                )).0.connection.wf()
            &&& forall|generation: u64, now: u64| (#[trigger] session.heartbeat(
                    generation,
                    now,
                )).0.connection.wf()
            &&& forall|generation: u64, error: Error| (#[trigger] session.failure(
                    generation,
                    error,
                )).0.connection.wf()
        },
{
    if session.connection.wf() {
        assert forall|generation: u64, seq: Option<i64>, event: EventView| (#[trigger] session.message(
                generation,
                seq,
                event,
            )).0.connection.wf() by {
            steps_keep_the_client_well_formed(
                session,
                arbitrary(),
                arbitrary(),
                generation,
                seq,
                event,
                arbitrary(),
                arbitrary(),
                arbitrary(),
                arbitrary(),
                arbitrary(),
                arbitrary(),
            );
        }
        assert forall|generation: u64, bytes: Seq<u8>| (#[trigger] session.datagram(
                generation,
                bytes,
            )).0.connection.wf() by {
            steps_keep_the_client_well_formed(
                session,
                arbitrary(),
                arbitrary(),
                generation,
                arbitrary(),
                arbitrary(),
                bytes,
                arbitrary(),
                arbitrary(),
                arbitrary(),
                arbitrary(),
                arbitrary(),
            );
        }
        assert forall|generation: u64| (#[trigger] session.discovery_timeout(
                generation,
            )).0.connection.wf() by {
            steps_keep_the_client_well_formed(
                session,
                arbitrary(),
                arbitrary(),
                generation,
                arbitrary(),
                arbitrary(),
                arbitrary(),
                arbitrary(),
                arbitrary(),
                arbitrary(),
                arbitrary(),
                arbitrary(),
            );
        }
        assert forall|generation: u64, now: u64| (#[trigger] session.heartbeat(
                generation,
                now,
            )).0.connection.wf() by {
            steps_keep_the_client_well_formed(
                session,
                arbitrary(),
                arbitrary(),
                generation,
                arbitrary(),
                arbitrary(),
                arbitrary(),
                arbitrary(),
                now,
                arbitrary(),
                arbitrary(),
                arbitrary(),
            );
        }
    }
}

/// The state of the client and the phase of its control channel go
/// together, whatever happens: a fresh client is well-formed, and every
/// step keeps a well-formed client well-formed.
pub proof fn steps_keep_the_client_well_formed(
    session: VoiceSession,
    server: VoiceServerUpdateView,
    state: PartialVoiceStateUpdateView,
    generation: u64,
    seq: Option<i64>,
    event: EventView,
    bytes: Seq<u8>,
    code: Option<u16>,
    now: u64,
    error: Error,
    self_deaf: bool,
    self_mute: bool,
)
    requires
        session.connection.wf(),
    ensures
        VoiceSession::fresh(session.guild_id, session.channel_id, session.preferred).connection.wf(),
        session.join(self_deaf, self_mute) is Ok ==> session.join(
            self_deaf,
            self_mute,
        )->Ok_0.0.connection.wf(),
        session.server_update(server).0.connection.wf(),
        session.state_update(state).0.connection.wf(),
        session.leave().0.connection.wf(),
        session.message(generation, seq, event).0.connection.wf(),
        session.datagram(generation, bytes).0.connection.wf(),
        session.discovery_timeout(generation).0.connection.wf(),
        session.close(generation, code).0.connection.wf(),
        session.heartbeat(generation, now).0.connection.wf(),
        session.failure(generation, error).0.connection.wf(),
{
    match session.connection.gateway() {
        Some(gateway) => {
            steps_keep_the_phase(gateway, seq, event, bytes, now);
            steps_keep_the_session_well_formed(gateway, seq, event, bytes, now);
        },
        None => {},
    }
}

/// A client is connected only with an encryption session in hand, and has
/// none before its control channel was described.
pub proof fn connected_means_ready_for_audio(session: VoiceSession)
    requires
        session.connection.wf(),
    ensures
        session.connection is Connected ==> session.connection.gateway()->0.encryption() is Some,
        session.connection is Resuming ==> session.connection.gateway()->0.encryption() is Some,
        session.connection is Establishing ==> session.connection.gateway()->0.encryption()
            is None,
{
}

} // verus!
