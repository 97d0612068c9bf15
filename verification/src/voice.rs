//! External-address discovery over UDP, as a sequence of steps.
//!
//! The caller owns the socket. It sends what a step tells it to send, and
//! reports each datagram and each expired wait; the exchange ends with the
//! address the server saw, or with a timeout once the attempts are used up.

use vstd::prelude::*;
use vstd::string::*;
use crate::packet::{decode_response, decoded, encode_request, request_bytes};
use crate::text::{decimal_text, push_decimal};

verus! {

/// Requests sent before the exchange is given up.
pub const DISCOVERY_ATTEMPTS: u8 = 3;

/// Wait after the first request, in milliseconds. Each further wait is twice
/// the one before.
pub const DISCOVERY_FIRST_WAIT_MS: u64 = 500;

/// Wait after the request of the given attempt, counted from 1.
pub open spec fn backoff(attempt: nat) -> nat
    decreases attempt,
{
    if attempt <= 1 {
        DISCOVERY_FIRST_WAIT_MS as nat
    } else {
        2 * backoff((attempt - 1) as nat)
    }
}

/// State of a discovery exchange.
pub struct DiscoverySession {
    /// Address of the peer the socket is connected to.
    pub peer_ip: Seq<char>,
    /// Port of the peer.
    pub peer_port: u16,
    /// SSRC announced by the running exchange.
    pub ssrc: u32,
    /// Requests sent by the running exchange; 0 while none is running.
    pub attempt: nat,
}

/// What the caller of a discovery exchange does next.
pub enum DiscoveryStep {
    /// Send `packet` and wait for a datagram for up to `wait_ms`.
    Send { packet: Seq<u8>, wait_ms: u64 },
    /// The datagram was dropped; go on waiting.
    Wait,
    /// The exchange is over: the server saw the client at this address.
    Found { ip: Seq<char>, port: u16 },
    /// The exchange is over: no response came within the attempts.
    TimedOut,
    /// No exchange is running; the event was dropped.
    Idle,
}

impl DiscoverySession {
    /// A session on a socket connected to the given peer, with no exchange.
    pub open spec fn fresh(peer_ip: Seq<char>, peer_port: u16) -> DiscoverySession {
        DiscoverySession { peer_ip, peer_port, ssrc: 0, attempt: 0 }
    }

    /// The peer in the notation of a socket address: address, colon, port.
    pub open spec fn peer(self) -> Seq<char> {
        self.peer_ip + ":"@ + decimal_text(self.peer_port as nat)
    }

    /// Whether an exchange is running.
    pub open spec fn running(self) -> bool {
        self.attempt != 0
    }

    /// Whether no more requests were sent than the exchange may send.
    pub open spec fn wf(self) -> bool {
        self.attempt <= DISCOVERY_ATTEMPTS
    }

    /// Starts an exchange for `ssrc`, dropping one that may be running.
    pub open spec fn start(self, ssrc: u32) -> (DiscoverySession, DiscoveryStep) {
        (
            DiscoverySession { ssrc, attempt: 1, ..self },
            DiscoveryStep::Send { packet: request_bytes(ssrc), wait_ms: backoff(1) as u64 },
        )
    }

    /// A datagram arrived. A response ends the exchange; anything else is
    /// dropped and changes nothing.
    pub open spec fn datagram(self, bytes: Seq<u8>) -> (DiscoverySession, DiscoveryStep) {
        if !self.running() {
            (self, DiscoveryStep::Idle)
        } else {
            match decoded(bytes) {
                Ok((ip, port)) => (
                    DiscoverySession { attempt: 0, ..self },
                    DiscoveryStep::Found { ip, port },
                ),
                Err(_) => (self, DiscoveryStep::Wait),
            }
        }
    }

    /// The wait of the current attempt expired. The request is sent again
    /// with twice the wait, unless the attempts are used up.
    pub open spec fn timeout(self) -> (DiscoverySession, DiscoveryStep) {
        if !self.running() {
            (self, DiscoveryStep::Idle)
        } else if self.attempt < DISCOVERY_ATTEMPTS {
            (
                DiscoverySession { attempt: self.attempt + 1, ..self },
                DiscoveryStep::Send {
                    packet: request_bytes(self.ssrc),
                    wait_ms: backoff(self.attempt + 1) as u64,
                },
            )
        } else {
            (DiscoverySession { attempt: 0, ..self }, DiscoveryStep::TimedOut)
        }
    }
}

/// What the caller of a discovery exchange does next.
#[derive(Clone, Debug, PartialEq, Eq)]
pub enum Discovery {
    /// Send `packet` and wait for a datagram for up to `wait_ms`.
    Send { packet: Vec<u8>, wait_ms: u64 },
    /// The datagram was dropped; go on waiting.
    Wait,
    /// The exchange is over: the server saw the client at this address.
    Found { ip: String, port: u16 },
    /// The exchange is over: no response came within the attempts.
    TimedOut,
    /// No exchange is running; the event was dropped.
    Idle,
}

impl View for Discovery {
    type V = DiscoveryStep;

    open spec fn view(&self) -> DiscoveryStep {
        match self {
            Discovery::Send { packet, wait_ms } => DiscoveryStep::Send {
                packet: packet@,
                wait_ms: *wait_ms,
            },
            Discovery::Wait => DiscoveryStep::Wait,
            Discovery::Found { ip, port } => DiscoveryStep::Found { ip: ip@, port: *port },
            Discovery::TimedOut => DiscoveryStep::TimedOut,
            Discovery::Idle => DiscoveryStep::Idle,
        }
    }
}

/// The UDP side of a voice connection: the socket's peer and the discovery
/// exchange that runs over it.
#[derive(Clone, Debug, PartialEq, Eq)]
pub struct DiscordVoiceConnection {
    ip: String,
    port: u16,
    ssrc: u32,
    attempt: u8,
}

impl View for DiscordVoiceConnection {
    type V = DiscoverySession;

    closed spec fn view(&self) -> DiscoverySession {
        DiscoverySession {
            peer_ip: self.ip@,
            peer_port: self.port,
            ssrc: self.ssrc,
            attempt: self.attempt as nat,
        }
    }
}

fn wait_of(attempt: u8) -> (wait_ms: u64)
    requires
        1 <= attempt <= DISCOVERY_ATTEMPTS,
    ensures
        wait_ms == backoff(attempt as nat),
{
    let mut wait_ms: u64 = DISCOVERY_FIRST_WAIT_MS;
    let mut k: u8 = 1;
    while k < attempt
        invariant
            1 <= k <= attempt <= DISCOVERY_ATTEMPTS,
            wait_ms == backoff(k as nat),
            wait_ms <= DISCOVERY_FIRST_WAIT_MS * 4,
        decreases attempt - k,
    {
        proof {
            backoff_values();
        }
        wait_ms = wait_ms * 2;
        k += 1;
    }
    wait_ms
}

impl DiscordVoiceConnection {
    /// The UDP side of a connection whose socket is connected to `ip:port`.
    /// No exchange is running.
    pub fn connect(ip: String, port: u16) -> (connection: Self)
        ensures
            connection@ == DiscoverySession::fresh(ip@, port),
            connection@.wf(),
    {
        DiscordVoiceConnection { ip, port, ssrc: 0, attempt: 0 }
    }

    /// The address to connect the socket to: address, colon, port.
    pub fn peer(&self) -> (address: String)
        ensures
            address@ == self@.peer(),
    {
        let mut address = self.ip.clone();
        address.append(":");
        push_decimal(&mut address, self.port as u64);
        assert(address@ =~= self@.peer());
        address
    }

    /// Starts the exchange that asks the peer for the address it sees the
    /// client at: the step holds the request to send and the first wait.
    pub fn ip_discovery(&mut self, ssrc: u32) -> (step: Discovery)
        ensures
            (final(self)@, step@) == old(self)@.start(ssrc),
            final(self)@.wf(),
    {
        self.ssrc = ssrc;
        self.attempt = 1;
        Discovery::Send { packet: encode_request(ssrc), wait_ms: wait_of(1) }
    }

    /// Takes a datagram that arrived on the socket. A discovery response ends
    /// the exchange with the address it reports; any other datagram is
    /// dropped and the wait goes on.
    pub fn on_datagram(&mut self, datagram: &[u8]) -> (step: Discovery)
        ensures
            (final(self)@, step@) == old(self)@.datagram(datagram@),
            old(self)@.wf() ==> final(self)@.wf(),
    {
        if self.attempt == 0 {
            return Discovery::Idle;
        }
        match decode_response(datagram) {
            Ok((ip, port)) => {
                self.attempt = 0;
                Discovery::Found { ip, port }
            },
            Err(_) => Discovery::Wait,
        }
    }

    /// Takes the expiry of the current wait: the request is to be sent again
    /// with twice the wait, or, after the last attempt, the exchange has
    /// timed out.
    pub fn on_timeout(&mut self) -> (step: Discovery)
        ensures
            (final(self)@, step@) == old(self)@.timeout(),
            old(self)@.wf() ==> final(self)@.wf(),
    {
        if self.attempt == 0 {
            Discovery::Idle
        } else if self.attempt < DISCOVERY_ATTEMPTS {
            self.attempt = self.attempt + 1;
            Discovery::Send { packet: encode_request(self.ssrc), wait_ms: wait_of(self.attempt) }
        } else {
            self.attempt = 0;
            Discovery::TimedOut
        }
    }
}

/// The waits are 500, 1000 and 2000 milliseconds.
pub proof fn backoff_values()
    ensures
        backoff(1) == 500,
        backoff(2) == 1000,
        backoff(3) == 2000,
{
    reveal_with_fuel(backoff, 4);
}

/// An exchange that gets no response sends exactly three requests, waits
/// 3500 milliseconds in all, and then times out; nothing is running after.
pub proof fn silent_exchange_times_out(session: DiscoverySession, ssrc: u32)
    ensures
        ({
            let (s1, first) = session.start(ssrc);
            let (s2, second) = s1.timeout();
            let (s3, third) = s2.timeout();
            let (s4, last) = s3.timeout();
            &&& first == DiscoveryStep::Send { packet: request_bytes(ssrc), wait_ms: 500 }
            &&& second == DiscoveryStep::Send { packet: request_bytes(ssrc), wait_ms: 1000 }
            &&& third == DiscoveryStep::Send { packet: request_bytes(ssrc), wait_ms: 2000 }
            &&& last == DiscoveryStep::TimedOut
            &&& !s4.running()
        }),
{
    backoff_values();
}

/// A datagram that is no discovery response changes nothing, however many
/// arrive, and a response ends the exchange with what it reports.
pub proof fn only_a_response_ends_the_exchange(session: DiscoverySession, bytes: Seq<u8>)
    requires
        session.running(),
    ensures
        decoded(bytes) is Err ==> session.datagram(bytes) == (session, DiscoveryStep::Wait),
        decoded(bytes) matches Ok((ip, port)) ==> session.datagram(bytes).1
            == (DiscoveryStep::Found { ip, port }) && !session.datagram(bytes).0.running(),
{
}

} // verus!
