//! One connection of the control channel, as a machine of steps.
//!
//! The caller owns the websocket, the UDP socket and the timers. It hands in
//! what arrives and what expires, and each step answers with the one thing
//! to do next. The order of the handshake is fixed: hello, identify, ready,
//! IP discovery, select protocol, session description.

use vstd::prelude::*;
use vstd::string::*;
use crate::Error;
use crate::packet::{decoded, request_bytes};
use crate::payload::{
    texts, Event, EventView, Heartbeat, HeartbeatAck, Hello, Identify, IdentifyView, ProtocolData,
    ProtocolDataView, Ready, ReadyView, Resume, ResumeView, SelectProtocol, SelectProtocolView,
    SessionDescription, SessionDescriptionView, Speaking, SpeakingState,
};
use crate::signal::{
    PartialVoiceStateUpdate, PartialVoiceStateUpdateView, VoiceServerUpdate, VoiceServerUpdateView,
};
use crate::voice::{
    backoff, backoff_values, Discovery, DiscoverySession, DiscoveryStep, DiscordVoiceConnection,
};

verus! {

/// Heartbeats that may stay unanswered; at the next one the connection is
/// taken for dead.
pub const MISSED_HEARTBEATS: u8 = 3;

/// Sequence number before any was received.
pub const NO_SEQUENCE: i64 = -1;

/// The address of the control channel on the given host.
pub open spec fn gateway_url(endpoint: Seq<char>) -> Seq<char> {
    "wss://"@ + endpoint + "/?v=8"@
}

/// The first of `preferred` that is among `offered`.
pub open spec fn first_supported(preferred: Seq<Seq<char>>, offered: Seq<Seq<char>>) -> Option<
    Seq<char>,
>
    decreases preferred.len(),
{
    if preferred.len() == 0 {
        None
    } else if offered.contains(preferred[0]) {
        Some(preferred[0])
    } else {
        first_supported(preferred.drop_first(), offered)
    }
}

/// The number of the heartbeat that follows one numbered `last`, at time
/// `now`: the time, unless the clock has not moved past `last`.
pub open spec fn next_beat(last: u64, now: u64) -> u64 {
    if now > last {
        now
    } else if last < u64::MAX {
        (last + 1) as u64
    } else {
        last
    }
}

/// View of [`EncryptionSession`].
pub struct EncryptionSessionView {
    pub ssrc: u32,
    pub external_ip: Seq<char>,
    pub external_port: u16,
    pub mode: Seq<char>,
    pub secret_key: Seq<u8>,
}

/// Where a connection stands in its handshake.
pub enum PhaseView {
    /// The channel is open; the server has not said hello.
    AwaitingHello,
    /// Identify was sent.
    AwaitingReady,
    /// The server is ready; IP discovery runs.
    Discovering { ssrc: u32, mode: Seq<char>, udp: DiscoverySession },
    /// Select protocol was sent.
    AwaitingDescription { ssrc: u32, mode: Seq<char>, address: Seq<char>, port: u16 },
    /// The handshake is complete.
    Established(EncryptionSessionView),
    /// Resume was sent on a fresh channel.
    Resuming(EncryptionSessionView),
    /// The connection is over.
    Closed,
}

/// What the owner of the transports does next.
pub enum ActionView {
    /// Nothing.
    Idle,
    /// Start the heartbeat timer with this period, and send the identify.
    Identify { heartbeat_interval: u64, identify: IdentifyView },
    /// Start the heartbeat timer with this period.
    StartHeartbeat { heartbeat_interval: u64 },
    /// Connect a UDP socket to `ip:port`, send `packet` and wait `wait_ms`.
    Discover { ip: Seq<char>, port: u16, packet: Seq<u8>, wait_ms: u64 },
    /// Send `packet` over the UDP socket again and wait `wait_ms`.
    Retry { packet: Seq<u8>, wait_ms: u64 },
    /// Stop waiting on the UDP socket and send the select protocol.
    Select(SelectProtocolView),
    /// The handshake is complete; the encryption session is there.
    Established,
    /// The session was resumed.
    Resumed,
    /// Send the heartbeat.
    Beat(Heartbeat),
    /// Heartbeats went unanswered: the connection is dead.
    Dead,
    /// Pass the event on to whoever observes the call.
    Inform(EventView),
    /// The connection has failed and is over.
    Fail(Error),
}

/// State of one connection of the control channel.
pub struct GatewaySession {
    pub server: VoiceServerUpdateView,
    pub state: PartialVoiceStateUpdateView,
    /// Encryption modes the client accepts, the most wanted first.
    pub preferred: Seq<Seq<char>>,
    /// Last sequence number received, -1 before the first.
    pub seq: i64,
    /// Period of the heartbeat, once the server has said hello.
    pub heartbeat_interval: Option<u64>,
    /// Number of the last heartbeat sent.
    pub last_beat: u64,
    /// Heartbeats sent since the last one that was acknowledged.
    pub unacked: nat,
    pub phase: PhaseView,
}

impl GatewaySession {
    /// The session of a channel that was just opened.
    pub open spec fn connect(
        server: VoiceServerUpdateView,
        state: PartialVoiceStateUpdateView,
        preferred: Seq<Seq<char>>,
    ) -> GatewaySession {
        GatewaySession {
            server,
            state,
            preferred,
            seq: NO_SEQUENCE,
            heartbeat_interval: None,
            last_beat: 0,
            unacked: 0,
            phase: PhaseView::AwaitingHello,
        }
    }

    /// The address to open the channel at.
    pub open spec fn url(self) -> Seq<char> {
        gateway_url(self.server.endpoint)
    }

    /// The identify of this session.
    pub open spec fn identify(self) -> IdentifyView {
        IdentifyView {
            server_id: self.server.guild_id,
            session_id: self.state.session_id,
            token: self.server.token,
            user_id: self.state.user_id,
        }
    }

    /// The resume of this session.
    pub open spec fn resume_payload(self) -> ResumeView {
        ResumeView {
            server_id: self.server.guild_id,
            session_id: self.state.session_id,
            token: self.server.token,
        }
    }

    /// What announces to the server how the client speaks, once the
    /// handshake is complete: the client's own SSRC, and no delay.
    pub open spec fn speaking(self, speaking: SpeakingState) -> Option<Speaking> {
        match self.phase {
            PhaseView::Established(session) => Some(
                Speaking { delay: Some(0), speaking, ssrc: session.ssrc, user_id: None },
            ),
            _ => None,
        }
    }

    /// Whether the parts of the session go together: the heartbeat has its
    /// period from the hello on and none before, no more heartbeats are
    /// unanswered than may be, and while discovery runs its exchange is
    /// under way for the SSRC that the server assigned.
    pub open spec fn wf(self) -> bool {
        &&& self.unacked <= MISSED_HEARTBEATS
        &&& self.phase is AwaitingHello ==> self.heartbeat_interval is None && self.unacked == 0
        &&& self.live() && !(self.phase is AwaitingHello) ==> self.heartbeat_interval is Some
            && self.heartbeat_interval->0 > 0
        &&& self.phase matches PhaseView::Discovering { ssrc, mode, udp } ==> udp.wf()
            && udp.running() && udp.ssrc == ssrc
    }

    /// Whether the connection is not over.
    pub open spec fn live(self) -> bool {
        !(self.phase is Closed)
    }

    /// Whether the handshake has not come to its end yet.
    pub open spec fn in_handshake(self) -> bool {
        self.phase is AwaitingHello || self.phase is AwaitingReady || self.phase is Discovering
            || self.phase is AwaitingDescription
    }

    /// The encryption session, once the handshake is complete.
    pub open spec fn encryption(self) -> Option<EncryptionSessionView> {
        match self.phase {
            PhaseView::Established(session) => Some(session),
            PhaseView::Resuming(session) => Some(session),
            _ => None,
        }
    }

    /// The session after a message that carried `seq`.
    pub open spec fn track(self, seq: Option<i64>) -> GatewaySession {
        match seq {
            Some(n) => GatewaySession { seq: n, ..self },
            None => self,
        }
    }

    /// The session after it has failed.
    pub open spec fn fail(self, error: Error) -> (GatewaySession, ActionView) {
        (GatewaySession { phase: PhaseView::Closed, ..self }, ActionView::Fail(error))
    }

    /// The step on a message from the server, whose envelope carried `seq`.
    ///
    /// The sequence number is taken from every message that carries one.
    /// A session that is over drops the message. Otherwise what others do
    /// in the call is passed on, an acknowledgement clears the count of
    /// unanswered heartbeats, the messages of the handshake move it on, and
    /// anything else ends the session.
    pub open spec fn poll(self, seq: Option<i64>, event: EventView) -> (GatewaySession, ActionView) {
        let s = self.track(seq);
        if !s.live() {
            (s, ActionView::Idle)
        } else {
            match event {
                EventView::Speaking(_) | EventView::ClientConnect(_) | EventView::ClientDisconnect(
                    _,
                ) => (s, ActionView::Inform(event)),
                EventView::HeartbeatAck(ack) => (s.acknowledged(ack.nonce), ActionView::Idle),
                EventView::Hello(hello) => s.hello(hello.heartbeat_interval),
                EventView::Ready(ready) => s.ready(ready),
                EventView::SessionDescription(description) => s.described(description),
                EventView::Resumed => s.resumed(),
                _ => s.fail(Error::UnexpectedEvent),
            }
        }
    }

    /// The session after the heartbeat numbered `nonce` was acknowledged.
    /// Only the last heartbeat sent counts.
    pub open spec fn acknowledged(self, nonce: u64) -> GatewaySession {
        if nonce == self.last_beat {
            GatewaySession { unacked: 0, ..self }
        } else {
            self
        }
    }

    /// The step on a ready, in a live session: IP discovery starts against
    /// the server's address, with the first preferred mode that it offers.
    pub open spec fn ready(self, ready: ReadyView) -> (GatewaySession, ActionView) {
        match self.phase {
            PhaseView::AwaitingReady => match first_supported(self.preferred, ready.modes) {
                Some(mode) => (
                    GatewaySession {
                        phase: PhaseView::Discovering {
                            ssrc: ready.ssrc,
                            mode,
                            udp: DiscoverySession::fresh(ready.ip, ready.port).start(ready.ssrc).0,
                        },
                        ..self
                    },
                    ActionView::Discover {
                        ip: ready.ip,
                        port: ready.port,
                        packet: request_bytes(ready.ssrc),
                        wait_ms: backoff(1) as u64,
                    },
                ),
                None => self.fail(Error::NoSupportedMode),
            },
            _ => self.fail(Error::UnexpectedEvent),
        }
    }

    /// The step on a session description, in a live session: the handshake
    /// is complete if the mode is the one that was selected.
    pub open spec fn described(self, description: SessionDescriptionView) -> (
        GatewaySession,
        ActionView,
    ) {
        match self.phase {
            PhaseView::AwaitingDescription { ssrc, mode, address, port } => if description.mode
                == mode {
                (
                    GatewaySession {
                        phase: PhaseView::Established(
                            EncryptionSessionView {
                                ssrc,
                                external_ip: address,
                                external_port: port,
                                mode,
                                secret_key: description.secret_key,
                            },
                        ),
                        ..self
                    },
                    ActionView::Established,
                )
            } else {
                self.fail(Error::UnexpectedEvent)
            },
            _ => self.fail(Error::UnexpectedEvent),
        }
    }

    /// The step on the acknowledgement of a resume, in a live session.
    pub open spec fn resumed(self) -> (GatewaySession, ActionView) {
        match self.phase {
            PhaseView::Resuming(session) => (
                GatewaySession { phase: PhaseView::Established(session), ..self },
                ActionView::Resumed,
            ),
            _ => self.fail(Error::UnexpectedEvent),
        }
    }

    /// The step on a hello, in a live session.
    pub open spec fn hello(self, interval: u64) -> (GatewaySession, ActionView) {
        if interval == 0 {
            self.fail(Error::UnexpectedEvent)
        } else {
            match self.phase {
                PhaseView::AwaitingHello => (
                    GatewaySession {
                        heartbeat_interval: Some(interval),
                        phase: PhaseView::AwaitingReady,
                        ..self
                    },
                    ActionView::Identify { heartbeat_interval: interval, identify: self.identify() },
                ),
                PhaseView::Resuming(_) => (
                    GatewaySession { heartbeat_interval: Some(interval), ..self },
                    ActionView::StartHeartbeat { heartbeat_interval: interval },
                ),
                _ => self.fail(Error::UnexpectedEvent),
            }
        }
    }

    /// The step on a datagram that arrived on the UDP socket.
    pub open spec fn datagram(self, bytes: Seq<u8>) -> (GatewaySession, ActionView) {
        match self.phase {
            PhaseView::Discovering { ssrc, mode, udp } => match udp.datagram(bytes).1 {
                DiscoveryStep::Found { ip, port } => (
                    GatewaySession {
                        phase: PhaseView::AwaitingDescription { ssrc, mode, address: ip, port },
                        ..self
                    },
                    ActionView::Select(
                        SelectProtocolView {
                            data: ProtocolDataView { address: ip, mode, port },
                            protocol: "udp"@,
                        },
                    ),
                ),
                _ => (
                    GatewaySession {
                        phase: PhaseView::Discovering { ssrc, mode, udp: udp.datagram(bytes).0 },
                        ..self
                    },
                    ActionView::Idle,
                ),
            },
            _ => (self, ActionView::Idle),
        }
    }

    /// The step on the expiry of a discovery wait.
    pub open spec fn discovery_timeout(self) -> (GatewaySession, ActionView) {
        match self.phase {
            PhaseView::Discovering { ssrc, mode, udp } => match udp.timeout().1 {
                DiscoveryStep::Send { packet, wait_ms } => (
                    GatewaySession {
                        phase: PhaseView::Discovering { ssrc, mode, udp: udp.timeout().0 },
                        ..self
                    },
                    ActionView::Retry { packet, wait_ms },
                ),
                DiscoveryStep::TimedOut => self.fail(Error::DiscoveryTimeout),
                _ => (
                    GatewaySession {
                        phase: PhaseView::Discovering { ssrc, mode, udp: udp.timeout().0 },
                        ..self
                    },
                    ActionView::Idle,
                ),
            },
            _ => (self, ActionView::Idle),
        }
    }

    /// The step on a tick of the heartbeat timer at time `now`.
    pub open spec fn heartbeat(self, now: u64) -> (GatewaySession, ActionView) {
        if !self.live() || self.heartbeat_interval is None {
            (self, ActionView::Idle)
        } else if self.unacked >= MISSED_HEARTBEATS {
            (self, ActionView::Dead)
        } else {
            let t = next_beat(self.last_beat, now);
            (
                GatewaySession { last_beat: t, unacked: self.unacked + 1, ..self },
                ActionView::Beat(Heartbeat { t, seq_ack: self.seq }),
            )
        }
    }

    /// The session on a fresh channel on which it asks to be resumed. The
    /// sequence number and the period of the heartbeat are kept, so that
    /// the heartbeat goes on; no heartbeat of the fresh channel is
    /// unanswered yet.
    pub open spec fn resume(self) -> GatewaySession
        recommends
            self.phase is Established,
    {
        match self.phase {
            PhaseView::Established(session) => GatewaySession {
                unacked: 0,
                phase: PhaseView::Resuming(session),
                ..self
            },
            _ => self,
        }
    }
}

/// What the negotiation of a connection gives to the audio transport.
///
/// A value exists only once the server has described the session, and is
/// not changed after; a new negotiation makes a new one.
#[derive(Clone, Debug, PartialEq, Eq)]
pub struct EncryptionSession {
    ssrc: u32,
    external_ip: String,
    external_port: u16,
    mode: String,
    secret_key: Vec<u8>,
}

impl View for EncryptionSession {
    type V = EncryptionSessionView;

    closed spec fn view(&self) -> EncryptionSessionView {
        EncryptionSessionView {
            ssrc: self.ssrc,
            external_ip: self.external_ip@,
            external_port: self.external_port,
            mode: self.mode@,
            secret_key: self.secret_key@,
        }
    }
}

impl EncryptionSession {
    /// Synchronisation source that the server assigned to the client.
    pub fn ssrc(&self) -> (ssrc: u32)
        ensures
            ssrc == self@.ssrc,
    {
        self.ssrc
    }

    /// Address of the client as the voice server sees it.
    pub fn external_ip(&self) -> (ip: &str)
        ensures
            ip@ == self@.external_ip,
    {
        self.external_ip.as_str()
    }

    /// Port of the client as the voice server sees it.
    pub fn external_port(&self) -> (port: u16)
        ensures
            port == self@.external_port,
    {
        self.external_port
    }

    /// Name of the negotiated encryption mode.
    pub fn mode(&self) -> (mode: &str)
        ensures
            mode@ == self@.mode,
    {
        self.mode.as_str()
    }

    /// Key for the negotiated mode.
    pub fn secret_key(&self) -> (key: &[u8])
        ensures
            key@ == self@.secret_key,
    {
        self.secret_key.as_slice()
    }
}

#[derive(Clone, Debug, PartialEq, Eq)]
enum Phase {
    AwaitingHello,
    AwaitingReady,
    Discovering { ssrc: u32, mode: String, udp: DiscordVoiceConnection },
    AwaitingDescription { ssrc: u32, mode: String, address: String, port: u16 },
    Established(EncryptionSession),
    Resuming(EncryptionSession),
    Closed,
}

impl View for Phase {
    type V = PhaseView;

    closed spec fn view(&self) -> PhaseView {
        match self {
            Phase::AwaitingHello => PhaseView::AwaitingHello,
            Phase::AwaitingReady => PhaseView::AwaitingReady,
            Phase::Discovering { ssrc, mode, udp } => PhaseView::Discovering {
                ssrc: *ssrc,
                mode: mode@,
                udp: udp@,
            },
            Phase::AwaitingDescription { ssrc, mode, address, port } => PhaseView::AwaitingDescription {
                ssrc: *ssrc,
                mode: mode@,
                address: address@,
                port: *port,
            },
            Phase::Established(session) => PhaseView::Established(session@),
            Phase::Resuming(session) => PhaseView::Resuming(session@),
            Phase::Closed => PhaseView::Closed,
        }
    }
}

/// What the owner of the transports does next.
#[derive(Clone, Debug, PartialEq, Eq)]
pub enum Action {
    /// Nothing.
    Idle,
    /// Start the heartbeat timer with this period, and send the identify.
    Identify { heartbeat_interval: u64, identify: Identify },
    /// Start the heartbeat timer with this period.
    StartHeartbeat { heartbeat_interval: u64 },
    /// Connect a UDP socket to `ip:port`, send `packet` and wait `wait_ms`.
    Discover { ip: String, port: u16, packet: Vec<u8>, wait_ms: u64 },
    /// Send `packet` over the UDP socket again and wait `wait_ms`.
    Retry { packet: Vec<u8>, wait_ms: u64 },
    /// Stop waiting on the UDP socket and send the select protocol.
    Select(SelectProtocol),
    /// The handshake is complete; the encryption session is there.
    Established,
    /// The session was resumed.
    Resumed,
    /// Send the heartbeat.
    Beat(Heartbeat),
    /// Heartbeats went unanswered: the connection is dead.
    Dead,
    /// Pass the event on to whoever observes the call.
    Inform(Event),
    /// The connection has failed and is over.
    Fail(Error),
}

impl View for Action {
    type V = ActionView;

    open spec fn view(&self) -> ActionView {
        match self {
            Action::Idle => ActionView::Idle,
            Action::Identify { heartbeat_interval, identify } => ActionView::Identify {
                heartbeat_interval: *heartbeat_interval,
                identify: identify@,
            },
            Action::StartHeartbeat { heartbeat_interval } => ActionView::StartHeartbeat {
                heartbeat_interval: *heartbeat_interval,
            },
            Action::Discover { ip, port, packet, wait_ms } => ActionView::Discover {
                ip: ip@,
                port: *port,
                packet: packet@,
                wait_ms: *wait_ms,
            },
            Action::Retry { packet, wait_ms } => ActionView::Retry {
                packet: packet@,
                wait_ms: *wait_ms,
            },
            Action::Select(select) => ActionView::Select(select@),
            Action::Established => ActionView::Established,
            Action::Resumed => ActionView::Resumed,
            Action::Beat(heartbeat) => ActionView::Beat(*heartbeat),
            Action::Dead => ActionView::Dead,
            Action::Inform(event) => ActionView::Inform(event@),
            Action::Fail(error) => ActionView::Fail(*error),
        }
    }
}

/// What a voice connection is made from.
#[derive(Clone, Debug, PartialEq, Eq)]
pub struct DiscordVoiceClientBuilder {
    /// The voice server to connect to.
    pub voice_server_update: VoiceServerUpdate,
    /// The client's own voice state.
    pub voice_state: PartialVoiceStateUpdate,
    /// Encryption modes the client accepts, the most wanted first.
    pub modes: Vec<String>,
}

impl DiscordVoiceClientBuilder {
    /// Replaces the voice server.
    pub fn voice_server_update(self, voice_server_update: VoiceServerUpdate) -> (builder: Self)
        ensures
            builder.voice_server_update == voice_server_update,
            builder.voice_state == self.voice_state,
            builder.modes == self.modes,
    {
        let mut builder = self;
        builder.voice_server_update = voice_server_update;
        builder
    }

    /// Replaces the client's voice state.
    pub fn voice_state(self, voice_state: PartialVoiceStateUpdate) -> (builder: Self)
        ensures
            builder.voice_server_update == self.voice_server_update,
            builder.voice_state == voice_state,
            builder.modes == self.modes,
    {
        let mut builder = self;
        builder.voice_state = voice_state;
        builder
    }
}

/// One connection of the control channel.
#[derive(Clone, Debug, PartialEq, Eq)]
pub struct DiscordVoiceClient {
    seq: i64,
    heartbeat_interval: Option<u64>,
    voice_server: VoiceServerUpdate,
    voice_state: PartialVoiceStateUpdate,
    modes: Vec<String>,
    last_beat: u64,
    unacked: u8,
    phase: Phase,
}

impl View for DiscordVoiceClient {
    type V = GatewaySession;

    closed spec fn view(&self) -> GatewaySession {
        GatewaySession {
            server: self.voice_server@,
            state: self.voice_state@,
            preferred: texts(self.modes@),
            seq: self.seq,
            heartbeat_interval: self.heartbeat_interval,
            last_beat: self.last_beat,
            unacked: self.unacked as nat,
            phase: self.phase@,
        }
    }
}

/// Whether `mode` is among `offered`.
fn offers(offered: &Vec<String>, mode: &String) -> (found: bool)
    ensures
        found == texts(offered@).contains(mode@),
{
    let mut i: usize = 0;
    while i < offered.len()
        invariant
            i <= offered@.len(),
            forall|j: int| 0 <= j < i ==> texts(offered@)[j] != mode@,
        decreases offered@.len() - i,
    {
        if offered[i] == *mode {
            assert(texts(offered@)[i as int] == mode@);
            return true;
        }
        i += 1;
    }
    false
}

/// The first of `preferred` that is among `offered`.
pub fn choose_mode(preferred: &Vec<String>, offered: &Vec<String>) -> (mode: Option<String>)
    ensures
        match mode {
            Some(m) => first_supported(texts(preferred@), texts(offered@)) == Some(m@),
            None => first_supported(texts(preferred@), texts(offered@)) is None,
        },
{
    let ghost wanted = texts(preferred@);
    let ghost given = texts(offered@);
    let mut i: usize = 0;
    assert(wanted.skip(0) =~= wanted);
    while i < preferred.len()
        invariant
            i <= preferred@.len(),
            wanted == texts(preferred@),
            given == texts(offered@),
            first_supported(wanted, given) == first_supported(wanted.skip(i as int), given),
        decreases preferred@.len() - i,
    {
        assert(wanted.skip(i as int)[0] == preferred@[i as int]@);
        if offers(offered, &preferred[i]) {
            return Some(preferred[i].clone());
        }
        assert(wanted.skip(i as int).drop_first() =~= wanted.skip(i + 1));
        i += 1;
    }
    None
}

impl DiscordVoiceClient {
    /// The session of a control channel that is about to be opened at
    /// [`url`](Self::url): nothing was received yet, and the server's hello
    /// is awaited.
    pub fn connect(builder: DiscordVoiceClientBuilder) -> (client: Self)
        ensures
            client@ == GatewaySession::connect(
                builder.voice_server_update@,
                builder.voice_state@,
                texts(builder.modes@),
            ),
            client@.wf(),
    {
        DiscordVoiceClient {
            seq: NO_SEQUENCE,
            heartbeat_interval: None,
            voice_server: builder.voice_server_update,
            voice_state: builder.voice_state,
            modes: builder.modes,
            last_beat: 0,
            unacked: 0,
            phase: Phase::AwaitingHello,
        }
    }

    /// The address to open the control channel at.
    pub fn url(&self) -> (url: String)
        ensures
            url@ == self@.url(),
    {
        let url = String::from_str("wss://").concat(self.voice_server.endpoint.as_str()).concat(
            "/?v=8",
        );
        assert(url@ =~= self@.url());
        url
    }

    /// Last sequence number received from the server, -1 before the first.
    pub fn sequence(&self) -> (seq: i64)
        ensures
            seq == self@.seq,
    {
        self.seq
    }

    /// Period of the heartbeat in milliseconds, once the server has said hello.
    pub fn heartbeat_interval(&self) -> (interval: Option<u64>)
        ensures
            interval == self@.heartbeat_interval,
    {
        self.heartbeat_interval
    }

    /// The encryption session, once the handshake is complete.
    pub fn encryption_session(&self) -> (session: Option<&EncryptionSession>)
        ensures
            match session {
                Some(found) => self@.encryption() == Some(found@),
                None => self@.encryption() is None,
            },
    {
        match &self.phase {
            Phase::Established(session) => Some(session),
            Phase::Resuming(session) => Some(session),
            _ => None,
        }
    }

    /// Whether the handshake is complete and the session in its steady state.
    pub fn is_established(&self) -> (yes: bool)
        ensures
            yes == (self@.phase is Established),
    {
        matches!(self.phase, Phase::Established(_))
    }

    /// Whether the connection is over.
    pub fn is_closed(&self) -> (yes: bool)
        ensures
            yes == !self@.live(),
    {
        matches!(self.phase, Phase::Closed)
    }

    /// The identify that opens this session: the guild and token of the
    /// voice server, the session and user of the client.
    pub fn send_identify(&self) -> (identify: Identify)
        ensures
            identify@ == self@.identify(),
    {
        Identify {
            server_id: self.voice_server.guild_id,
            session_id: self.voice_state.session_id.clone(),
            token: self.voice_server.token.clone(),
            user_id: self.voice_state.user_id,
        }
    }

    /// The speaking message that announces how the client transmits. There
    /// is none before the handshake is complete.
    pub fn send_speaking(&self, speaking: SpeakingState) -> (message: Option<Speaking>)
        ensures
            message == self@.speaking(speaking),
    {
        match &self.phase {
            Phase::Established(session) => Some(
                Speaking { delay: Some(0), speaking, ssrc: session.ssrc, user_id: None },
            ),
            _ => None,
        }
    }

    fn fail(&mut self, error: Error) -> (action: Action)
        ensures
            (final(self)@, action@) == old(self)@.fail(error),
    {
        self.phase = Phase::Closed;
        Action::Fail(error)
    }

    fn take_phase(&mut self) -> (phase: Phase)
        ensures
            phase@ == old(self)@.phase,
            final(self)@ == (GatewaySession { phase: PhaseView::Closed, ..old(self)@ }),
    {
        let mut phase = Phase::Closed;
        core::mem::swap(&mut self.phase, &mut phase);
        phase
    }

    fn on_hello(&mut self, interval: u64) -> (action: Action)
        requires
            old(self)@.live(),
        ensures
            (final(self)@, action@) == old(self)@.hello(interval),
    {
        if interval == 0 {
            return self.fail(Error::UnexpectedEvent);
        }
        match self.take_phase() {
            Phase::AwaitingHello => {
                self.heartbeat_interval = Some(interval);
                self.phase = Phase::AwaitingReady;
                Action::Identify { heartbeat_interval: interval, identify: self.send_identify() }
            },
            Phase::Resuming(session) => {
                self.heartbeat_interval = Some(interval);
                self.phase = Phase::Resuming(session);
                Action::StartHeartbeat { heartbeat_interval: interval }
            },
            _ => Action::Fail(Error::UnexpectedEvent),
        }
    }

    fn on_ready(&mut self, ready: Ready) -> (action: Action)
        requires
            old(self)@.live(),
        ensures
            (final(self)@, action@) == old(self)@.ready(ready@),
    {
        match self.take_phase() {
            Phase::AwaitingReady => match choose_mode(&self.modes, &ready.modes) {
                Some(mode) => {
                    let mut udp = DiscordVoiceConnection::connect(ready.ip.clone(), ready.port);
                    match udp.ip_discovery(ready.ssrc) {
                        Discovery::Send { packet, wait_ms } => {
                            self.phase = Phase::Discovering { ssrc: ready.ssrc, mode, udp };
                            Action::Discover { ip: ready.ip, port: ready.port, packet, wait_ms }
                        },
                        _ => Action::Fail(Error::UnexpectedEvent),
                    }
                },
                None => Action::Fail(Error::NoSupportedMode),
            },
            _ => Action::Fail(Error::UnexpectedEvent),
        }
    }

    fn on_description(&mut self, description: SessionDescription) -> (action: Action)
        requires
            old(self)@.live(),
        ensures
            (final(self)@, action@) == old(self)@.described(description@),
    {
        match self.take_phase() {
            Phase::AwaitingDescription { ssrc, mode, address, port } => {
                if description.mode == mode {
                    self.phase = Phase::Established(
                        EncryptionSession {
                            ssrc,
                            external_ip: address,
                            external_port: port,
                            mode,
                            secret_key: description.secret_key,
                        },
                    );
                    Action::Established
                } else {
                    Action::Fail(Error::UnexpectedEvent)
                }
            },
            _ => Action::Fail(Error::UnexpectedEvent),
        }
    }

    fn on_resumed(&mut self) -> (action: Action)
        requires
            old(self)@.live(),
        ensures
            (final(self)@, action@) == old(self)@.resumed(),
    {
        match self.take_phase() {
            Phase::Resuming(session) => {
                self.phase = Phase::Established(session);
                Action::Resumed
            },
            _ => Action::Fail(Error::UnexpectedEvent),
        }
    }

    /// Takes a message that arrived on the control channel, with the
    /// sequence number of its envelope, and says what to do next.
    pub fn poll(&mut self, seq: Option<i64>, event: Event) -> (action: Action)
        ensures
            (final(self)@, action@) == old(self)@.poll(seq, event@),
            seq matches Some(n) ==> final(self)@.seq == n,
            seq is None ==> final(self)@.seq == old(self)@.seq,
            old(self)@.wf() ==> final(self)@.wf(),
    {
        if let Some(n) = seq {
            self.seq = n;
        }
        if self.is_closed() {
            return Action::Idle;
        }
        match event {
            Event::Speaking(_) | Event::ClientConnect(_) | Event::ClientDisconnect(_) => {
                Action::Inform(event)
            },
            Event::HeartbeatAck(ack) => {
                if ack.nonce == self.last_beat {
                    self.unacked = 0;
                }
                Action::Idle
            },
            Event::Hello(hello) => self.on_hello(hello.heartbeat_interval),
            Event::Ready(ready) => self.on_ready(ready),
            Event::SessionDescription(description) => self.on_description(description),
            Event::Resumed => self.on_resumed(),
            _ => self.fail(Error::UnexpectedEvent),
        }
    }

    /// Takes a datagram that arrived on the UDP socket. While IP discovery
    /// runs, a response ends it and the protocol is selected with the
    /// address it reports; any other datagram is dropped.
    pub fn on_datagram(&mut self, datagram: &[u8]) -> (action: Action)
        ensures
            (final(self)@, action@) == old(self)@.datagram(datagram@),
            old(self)@.wf() ==> final(self)@.wf(),
    {
        match self.take_phase() {
            Phase::Discovering { ssrc, mode, udp } => {
                let mut udp = udp;
                match udp.on_datagram(datagram) {
                    Discovery::Found { ip, port } => {
                        let select = SelectProtocol {
                            data: ProtocolData { address: ip.clone(), mode: mode.clone(), port },
                            protocol: String::from_str("udp"),
                        };
                        self.phase = Phase::AwaitingDescription { ssrc, mode, address: ip, port };
                        Action::Select(select)
                    },
                    _ => {
                        self.phase = Phase::Discovering { ssrc, mode, udp };
                        Action::Idle
                    },
                }
            },
            other => {
                self.phase = other;
                Action::Idle
            },
        }
    }

    /// Takes the expiry of a discovery wait: the request goes out again, or
    /// the session fails with [`Error::DiscoveryTimeout`].
    pub fn on_discovery_timeout(&mut self) -> (action: Action)
        ensures
            (final(self)@, action@) == old(self)@.discovery_timeout(),
            old(self)@.wf() ==> final(self)@.wf(),
    {
        match self.take_phase() {
            Phase::Discovering { ssrc, mode, udp } => {
                let mut udp = udp;
                match udp.on_timeout() {
                    Discovery::Send { packet, wait_ms } => {
                        self.phase = Phase::Discovering { ssrc, mode, udp };
                        Action::Retry { packet, wait_ms }
                    },
                    Discovery::TimedOut => Action::Fail(Error::DiscoveryTimeout),
                    _ => {
                        self.phase = Phase::Discovering { ssrc, mode, udp };
                        Action::Idle
                    },
                }
            },
            other => {
                self.phase = other;
                Action::Idle
            },
        }
    }

    /// Takes a tick of the heartbeat timer at time `now`, in milliseconds.
    ///
    /// While the heartbeat runs, each tick gives exactly one heartbeat, with
    /// a number above the one before and the last sequence number received;
    /// once three have gone unanswered the tick reports the connection dead.
    pub fn send_heartbeat(&mut self, now: u64) -> (action: Action)
        ensures
            (final(self)@, action@) == old(self)@.heartbeat(now),
            old(self)@.wf() ==> final(self)@.wf(),
    {
        if self.is_closed() || self.heartbeat_interval.is_none() {
            return Action::Idle;
        }
        if self.unacked >= MISSED_HEARTBEATS {
            return Action::Dead;
        }
        let t = if now > self.last_beat {
            now
        } else if self.last_beat < u64::MAX {
            self.last_beat + 1
        } else {
            self.last_beat
        };
        self.last_beat = t;
        self.unacked = self.unacked + 1;
        Action::Beat(Heartbeat { t, seq_ack: self.seq })
    }

    /// Ends the session and gives back the two updates it was made from.
    pub fn into_updates(self) -> (updates: (VoiceServerUpdate, PartialVoiceStateUpdate))
        ensures
            updates.0@ == self@.server,
            updates.1@ == self@.state,
    {
        (self.voice_server, self.voice_state)
    }

    /// Moves an established session to a fresh control channel, to be opened
    /// at [`url`](Self::url), and gives the resume to send there.
    pub fn resume(&mut self) -> (resume: Resume)
        ensures
            final(self)@ == old(self)@.resume(),
            resume@ == old(self)@.resume_payload(),
            old(self)@.wf() ==> final(self)@.wf(),
    {
        let resume = Resume {
            server_id: self.voice_server.guild_id,
            session_id: self.voice_state.session_id.clone(),
            token: self.voice_server.token.clone(),
        };
        match self.take_phase() {
            Phase::Established(session) => {
                self.unacked = 0;
                self.phase = Phase::Resuming(session);
            },
            other => {
                self.phase = other;
            },
        }
        resume
    }
}

/// The mode that is chosen is one the client prefers and the server
/// offers, and none that the client prefers more is offered; no mode is
/// chosen exactly when none of the preferred modes is offered.
pub proof fn chosen_mode_is_first_mutual(preferred: Seq<Seq<char>>, offered: Seq<Seq<char>>)
    ensures
        match first_supported(preferred, offered) {
            Some(mode) => exists|i: int|
                0 <= i < preferred.len() && #[trigger] preferred[i] == mode && offered.contains(
                    mode,
                ) && forall|j: int| 0 <= j < i ==> !offered.contains(#[trigger] preferred[j]),
            None => forall|j: int|
                0 <= j < preferred.len() ==> !offered.contains(#[trigger] preferred[j]),
        },
    decreases preferred.len(),
{
    if preferred.len() == 0 {
    } else if offered.contains(preferred[0]) {
    } else {
        let rest = preferred.drop_first();
        chosen_mode_is_first_mutual(rest, offered);
        assert forall|j: int| 0 <= j < rest.len() implies rest[j] == preferred[j + 1] by {}
        match first_supported(rest, offered) {
            Some(mode) => {
                let i = choose|i: int|
                    0 <= i < rest.len() && #[trigger] rest[i] == mode && offered.contains(mode)
                        && forall|j: int| 0 <= j < i ==> !offered.contains(#[trigger] rest[j]);
                assert(preferred[i + 1] == mode);
                assert forall|j: int| 0 <= j < i + 1 implies !offered.contains(
                    #[trigger] preferred[j],
                ) by {
                    if j > 0 {
                        assert(rest[j - 1] == preferred[j]);
                    }
                }
            },
            None => {
                assert forall|j: int| 0 <= j < preferred.len() implies !offered.contains(
                    #[trigger] preferred[j],
                ) by {
                    if j > 0 {
                        assert(rest[j - 1] == preferred[j]);
                    }
                }
            },
        }
    }
}

/// Every message that carries a sequence number sets the tracked number to
/// it, whatever the message and the phase; a message without one leaves
/// the tracked number as it is.
pub proof fn sequence_follows_every_message(
    session: GatewaySession,
    seq: Option<i64>,
    event: EventView,
)
    ensures
        seq matches Some(n) ==> session.poll(seq, event).0.seq == n,
        seq is None ==> session.poll(seq, event).0.seq == session.seq,
        seq matches Some(n) ==> (n >= session.seq ==> session.poll(seq, event).0.seq
            >= session.seq),
{
}

/// While the heartbeat runs and the connection is not taken for dead, a
/// tick gives exactly one heartbeat. It acknowledges the last sequence
/// number received, and its number is the time of the tick or, where the
/// clock stood still, one above the number before.
pub proof fn one_heartbeat_per_tick(session: GatewaySession, now: u64)
    requires
        session.live(),
        session.heartbeat_interval is Some,
        session.unacked < MISSED_HEARTBEATS,
    ensures
        session.heartbeat(now).1 == ActionView::Beat(
            Heartbeat { t: next_beat(session.last_beat, now), seq_ack: session.seq },
        ),
        session.heartbeat(now).0.unacked == session.unacked + 1,
        session.heartbeat(now).0.last_beat == next_beat(session.last_beat, now),
        session.last_beat < u64::MAX ==> next_beat(session.last_beat, now) > session.last_beat,
        next_beat(session.last_beat, now) >= now,
        session.heartbeat(now).0.phase == session.phase,
        session.heartbeat(now).0.seq == session.seq,
{
}

/// Three heartbeats in a row that get no acknowledgement are sent; the
/// fourth tick reports the connection dead and sends nothing.
pub proof fn silence_kills_the_connection(
    session: GatewaySession,
    t1: u64,
    t2: u64,
    t3: u64,
    t4: u64,
)
    requires
        session.live(),
        session.heartbeat_interval is Some,
        session.unacked == 0,
    ensures
        ({
            let (s1, first) = session.heartbeat(t1);
            let (s2, second) = s1.heartbeat(t2);
            let (s3, third) = s2.heartbeat(t3);
            let (s4, fourth) = s3.heartbeat(t4);
            &&& first is Beat
            &&& second is Beat
            &&& third is Beat
            &&& fourth is Dead
            &&& s4 == s3
        }),
{
}

/// The acknowledgement of the last heartbeat sent clears the count of
/// unanswered heartbeats, so that the next tick sends one again.
pub proof fn acknowledgement_keeps_the_connection(session: GatewaySession, seq: Option<i64>, now: u64)
    requires
        session.live(),
        session.heartbeat_interval is Some,
    ensures
        ({
            let ack = EventView::HeartbeatAck(
                HeartbeatAck { nonce: session.last_beat },
            );
            let (next, action) = session.poll(seq, ack);
            &&& action is Idle
            &&& next.unacked == 0
            &&& next.phase == session.phase
            &&& next.heartbeat(now).1 is Beat
        }),
{
}

/// An encryption session comes to be only on a session description: a
/// fresh connection has none, and of all steps only the one on a session
/// description gives one to a connection that had none.
pub proof fn encryption_needs_a_description(
    session: GatewaySession,
    seq: Option<i64>,
    event: EventView,
    bytes: Seq<u8>,
    now: u64,
)
    requires
        session.encryption() is None,
    ensures
        GatewaySession::connect(session.server, session.state, session.preferred).encryption()
            is None,
        session.poll(seq, event).0.encryption() is Some ==> event is SessionDescription,
        session.poll(seq, event).0.encryption() is Some <==> session.poll(seq, event).1
            is Established,
        session.datagram(bytes).0.encryption() is None,
        session.discovery_timeout().0.encryption() is None,
        session.heartbeat(now).0.encryption() is None,
        session.resume().encryption() is None,
{
}

/// Once an encryption session is there, no step changes it: it stays as it
/// is until the connection ends.
pub proof fn encryption_session_is_not_changed(
    session: GatewaySession,
    seq: Option<i64>,
    event: EventView,
    bytes: Seq<u8>,
    now: u64,
)
    requires
        session.encryption() is Some,
    ensures
        session.poll(seq, event).0.live() ==> session.poll(seq, event).0.encryption()
            == session.encryption(),
        session.datagram(bytes).0.encryption() == session.encryption(),
        session.discovery_timeout().0.encryption() == session.encryption(),
        session.heartbeat(now).0.encryption() == session.encryption(),
        session.resume().encryption() == session.encryption(),
{
}

/// The handshake in its order. After the hello the identify goes out with
/// the identifiers of the two updates; after the ready, discovery runs
/// against the server's address; after the response, the protocol is
/// selected with the discovered address and the first mutual mode; and the
/// description of that mode completes the handshake with an encryption
/// session made of the assigned SSRC, the discovered address, the mode and
/// the key.
pub proof fn handshake_runs_in_order(
    server: VoiceServerUpdateView,
    state: PartialVoiceStateUpdateView,
    preferred: Seq<Seq<char>>,
    interval: u64,
    ready: ReadyView,
    response: Seq<u8>,
    key: Seq<u8>,
)
    requires
        interval > 0,
        first_supported(preferred, ready.modes) is Some,
        decoded(response) is Ok,
    ensures
        ({
            let mode = first_supported(preferred, ready.modes)->0;
            let (ip, port) = decoded(response)->Ok_0;
            let s0 = GatewaySession::connect(server, state, preferred);
            let (s1, a1) = s0.poll(None, EventView::Hello(Hello { heartbeat_interval: interval }));
            let (s2, a2) = s1.poll(None, EventView::Ready(ready));
            let (s3, a3) = s2.datagram(response);
            let (s4, a4) = s3.poll(
                None,
                EventView::SessionDescription(SessionDescriptionView { mode, secret_key: key }),
            );
            &&& a1 == ActionView::Identify {
                heartbeat_interval: interval,
                identify: IdentifyView {
                    server_id: server.guild_id,
                    session_id: state.session_id,
                    token: server.token,
                    user_id: state.user_id,
                },
            }
            &&& s1.heartbeat_interval == Some(interval)
            &&& a2 == ActionView::Discover {
                ip: ready.ip,
                port: ready.port,
                packet: request_bytes(ready.ssrc),
                wait_ms: 500,
            }
            &&& a3 == ActionView::Select(
                SelectProtocolView {
                    data: ProtocolDataView { address: ip, mode, port },
                    protocol: "udp"@,
                },
            )
            &&& a4 == ActionView::Established
            &&& s4.encryption() == Some(
                EncryptionSessionView {
                    ssrc: ready.ssrc,
                    external_ip: ip,
                    external_port: port,
                    mode,
                    secret_key: key,
                },
            )
        }),
{
    backoff_values();
}

/// A message that the phase of the handshake does not allow ends the
/// connection: out of its order, no message of the handshake is taken.
pub proof fn handshake_admits_no_other_order(session: GatewaySession, seq: Option<i64>, event: EventView)
    requires
        session.live(),
    ensures
        event is Hello && !(session.phase is AwaitingHello || session.phase is Resuming)
            ==> session.poll(seq, event).1 == ActionView::Fail(Error::UnexpectedEvent),
        event is Ready && !(session.phase is AwaitingReady) ==> session.poll(seq, event).1
            == ActionView::Fail(Error::UnexpectedEvent),
        event is SessionDescription && !(session.phase is AwaitingDescription) ==> session.poll(
            seq,
            event,
        ).1 == ActionView::Fail(Error::UnexpectedEvent),
        event is Resumed && !(session.phase is Resuming) ==> session.poll(seq, event).1
            == ActionView::Fail(Error::UnexpectedEvent),
        !event.opcode().inbound() ==> session.poll(seq, event).1 == ActionView::Fail(
            Error::UnexpectedEvent,
        ),
        session.poll(seq, event).1 is Fail ==> !session.poll(seq, event).0.live(),
{
}

/// Where a step of a connection leaves it, by where it found it. During
/// the handshake a step stays in the handshake, unless it completes it or
/// fails; an established session stays established unless it fails; and a
/// resuming one goes on resuming, unless it is resumed or fails.
pub proof fn steps_keep_the_phase(
    session: GatewaySession,
    seq: Option<i64>,
    event: EventView,
    bytes: Seq<u8>,
    now: u64,
)
    ensures
        session.in_handshake() ==> {
            let (next, action) = session.poll(seq, event);
            if action is Established {
                next.phase is Established
            } else if action is Fail {
                next.phase is Closed
            } else {
                next.in_handshake() && !(action is Resumed)
            }
        },
        session.in_handshake() ==> {
            let (next, action) = session.datagram(bytes);
            next.in_handshake() && (action is Idle || action is Select)
        },
        session.in_handshake() ==> {
            let (next, action) = session.discovery_timeout();
            if action is Fail {
                next.phase is Closed
            } else {
                next.in_handshake() && (action is Idle || action is Retry)
            }
        },
        session.phase is Established ==> {
            let (next, action) = session.poll(seq, event);
            if action is Fail {
                next.phase is Closed
            } else {
                next.phase is Established && !(action is Established) && !(action is Resumed)
            }
        },
        session.phase is Resuming ==> {
            let (next, action) = session.poll(seq, event);
            if action is Resumed {
                next.phase is Established
            } else if action is Fail {
                next.phase is Closed
            } else {
                next.phase is Resuming && !(action is Established)
            }
        },
        session.heartbeat(now).0.phase == session.phase,
        session.heartbeat(now).1 is Idle || session.heartbeat(now).1 is Beat || session.heartbeat(
            now,
        ).1 is Dead,
        session.phase is Established ==> session.resume().phase is Resuming,
        session.resume().seq == session.seq,
        session.resume().heartbeat_interval == session.heartbeat_interval,
{
}

/// A fresh session is well-formed, and every step keeps a well-formed
/// session well-formed.
pub proof fn steps_keep_the_session_well_formed(
    session: GatewaySession,
    seq: Option<i64>,
    event: EventView,
    bytes: Seq<u8>,
    now: u64,
)
    requires
        session.wf(),
    ensures
        GatewaySession::connect(session.server, session.state, session.preferred).wf(),
        session.poll(seq, event).0.wf(),
        session.datagram(bytes).0.wf(),
        session.discovery_timeout().0.wf(),
        session.heartbeat(now).0.wf(),
        session.resume().wf(),
{
}

/// In a well-formed session the heartbeat runs from the hello until the
/// connection is over, through a resume too, and while discovery runs
/// every expiry of a wait sends the request again or gives the exchange
/// up.
pub proof fn heartbeat_runs_after_hello(session: GatewaySession, now: u64)
    requires
        session.wf(),
        session.live(),
        !(session.phase is AwaitingHello),
    ensures
        session.heartbeat(now).1 is Beat || session.heartbeat(now).1 is Dead,
        session.heartbeat(now).1 is Dead <==> session.unacked == MISSED_HEARTBEATS,
        session.phase is Discovering ==> session.discovery_timeout().1 is Retry
            || session.discovery_timeout().1 == ActionView::Fail(Error::DiscoveryTimeout),
{
}

} // verus!
