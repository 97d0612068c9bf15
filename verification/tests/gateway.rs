use twilight_voice::gateway::{
    choose_mode, Action, DiscordVoiceClient, DiscordVoiceClientBuilder, MISSED_HEARTBEATS,
    NO_SEQUENCE,
};
use twilight_voice::id::{ChannelId, GuildId, UserId};
use twilight_voice::packet::{build_response, encode_request};
use twilight_voice::payload::{
    ClientConnect, ClientDisconnect, Event, Heartbeat, HeartbeatAck, Hello, Identify, OpCode,
    ProtocolData, Ready, Resume, SelectProtocol, SessionDescription, Speaking, SpeakingState,
    MICROPHONE,
};
use twilight_voice::signal::{PartialVoiceStateUpdate, VoiceServerUpdate};
use twilight_voice::Error;

fn server() -> VoiceServerUpdate {
    VoiceServerUpdate {
        endpoint: "rotterdam42.discord.media".to_string(),
        guild_id: GuildId(961916734137315358),
        token: "token-abc".to_string(),
    }
}

fn state() -> PartialVoiceStateUpdate {
    PartialVoiceStateUpdate {
        session_id: "session-xyz".to_string(),
        channel_id: Some(ChannelId(961916734523179051)),
        user_id: UserId(42),
    }
}

fn modes(names: &[&str]) -> Vec<String> {
    names.iter().map(|name| name.to_string()).collect()
}

fn builder() -> DiscordVoiceClientBuilder {
    DiscordVoiceClientBuilder {
        voice_server_update: server(),
        voice_state: state(),
        modes: modes(&["xsalsa20_poly1305"]),
    }
}

fn ready() -> Ready {
    Ready {
        ip: "203.0.113.5".to_string(),
        modes: modes(&["xsalsa20_poly1305"]),
        port: 5000,
        ssrc: 1234,
    }
}

fn hello() -> Event {
    Event::Hello(Hello { heartbeat_interval: 41250 })
}

fn description() -> Event {
    Event::SessionDescription(SessionDescription {
        mode: "xsalsa20_poly1305".to_string(),
        secret_key: vec![7u8; 32],
    })
}

fn established() -> DiscordVoiceClient {
    let mut client = DiscordVoiceClient::connect(builder());
    client.poll(None, hello());
    client.poll(None, Event::Ready(ready()));
    client.on_datagram(&build_response("198.51.100.23", 61234, 1234).unwrap());
    assert_eq!(client.poll(None, description()), Action::Established);
    client
}

#[test]
fn builder_replaces_its_parts() {
    let other_server = VoiceServerUpdate {
        endpoint: "other.discord.media".to_string(),
        guild_id: GuildId(1),
        token: "t".to_string(),
    };
    let other_state =
        PartialVoiceStateUpdate { session_id: "s".to_string(), channel_id: None, user_id: UserId(2) };
    let built = builder().voice_server_update(other_server.clone());
    assert_eq!(built.voice_server_update, other_server);
    assert_eq!(built.voice_state, state());
    assert_eq!(built.modes, modes(&["xsalsa20_poly1305"]));
    let built = built.voice_state(other_state.clone());
    assert_eq!(built.voice_server_update, other_server);
    assert_eq!(built.voice_state, other_state);
    assert_eq!(built.modes, modes(&["xsalsa20_poly1305"]));
}

#[test]
fn fresh_session_awaits_hello() {
    let client = DiscordVoiceClient::connect(builder());
    assert_eq!(NO_SEQUENCE, -1);
    assert_eq!(client.sequence(), -1);
    assert_eq!(client.heartbeat_interval(), None);
    assert_eq!(client.encryption_session(), None);
    assert!(!client.is_established());
    assert!(!client.is_closed());
}

#[test]
fn url_names_the_endpoint_and_the_version() {
    let client = DiscordVoiceClient::connect(builder());
    assert_eq!(client.url(), "wss://rotterdam42.discord.media/?v=8");
}

#[test]
fn identify_holds_the_ids_of_both_updates() {
    let client = DiscordVoiceClient::connect(builder());
    assert_eq!(
        client.send_identify(),
        Identify {
            server_id: GuildId(961916734137315358),
            session_id: "session-xyz".to_string(),
            token: "token-abc".to_string(),
            user_id: UserId(42),
        }
    );
}

#[test]
fn full_handshake_gives_the_encryption_session() {
    let mut client = DiscordVoiceClient::connect(builder());

    assert_eq!(
        client.poll(None, hello()),
        Action::Identify {
            heartbeat_interval: 41250,
            identify: Identify {
                server_id: GuildId(961916734137315358),
                session_id: "session-xyz".to_string(),
                token: "token-abc".to_string(),
                user_id: UserId(42),
            },
        }
    );
    assert_eq!(client.heartbeat_interval(), Some(41250));

    assert_eq!(
        client.poll(None, Event::Ready(ready())),
        Action::Discover {
            ip: "203.0.113.5".to_string(),
            port: 5000,
            packet: encode_request(1234),
            wait_ms: 500,
        }
    );
    assert_eq!(client.encryption_session(), None);

    let response = build_response("198.51.100.23", 61234, 1234).unwrap();
    assert_eq!(
        client.on_datagram(&response),
        Action::Select(SelectProtocol {
            data: ProtocolData {
                address: "198.51.100.23".to_string(),
                mode: "xsalsa20_poly1305".to_string(),
                port: 61234,
            },
            protocol: "udp".to_string(),
        })
    );
    assert_eq!(client.encryption_session(), None);
    assert!(!client.is_established());

    assert_eq!(client.poll(None, description()), Action::Established);
    assert!(client.is_established());
    let session = client.encryption_session().unwrap();
    assert_eq!(session.ssrc(), 1234);
    assert_eq!(session.mode(), "xsalsa20_poly1305");
    assert_eq!(session.secret_key(), &[7u8; 32]);
    assert_eq!(session.external_ip(), "198.51.100.23");
    assert_eq!(session.external_port(), 61234);
}

#[test]
fn messages_out_of_order_end_the_session() {
    let mut client = DiscordVoiceClient::connect(builder());
    assert_eq!(client.poll(None, Event::Ready(ready())), Action::Fail(Error::UnexpectedEvent));
    assert!(client.is_closed());
    assert_eq!(client.poll(None, hello()), Action::Idle);

    let mut client = DiscordVoiceClient::connect(builder());
    client.poll(None, hello());
    assert_eq!(client.poll(None, hello()), Action::Fail(Error::UnexpectedEvent));

    let mut client = DiscordVoiceClient::connect(builder());
    client.poll(None, hello());
    assert_eq!(client.poll(None, description()), Action::Fail(Error::UnexpectedEvent));

    let mut client = DiscordVoiceClient::connect(builder());
    assert_eq!(client.poll(None, Event::Resumed), Action::Fail(Error::UnexpectedEvent));

    let mut client = established();
    assert_eq!(client.poll(None, Event::Ready(ready())), Action::Fail(Error::UnexpectedEvent));
    assert!(client.is_closed());
    assert_eq!(client.encryption_session(), None);
}

#[test]
fn messages_of_the_client_are_not_taken_from_the_server() {
    for event in [
        Event::Identify(DiscordVoiceClient::connect(builder()).send_identify()),
        Event::Heartbeat(Heartbeat { t: 1, seq_ack: 1 }),
        Event::Resume(Resume {
            server_id: GuildId(1),
            session_id: "s".to_string(),
            token: "t".to_string(),
        }),
        Event::SelectProtocol(SelectProtocol {
            data: ProtocolData { address: "a".to_string(), mode: "m".to_string(), port: 1 },
            protocol: "udp".to_string(),
        }),
    ] {
        let mut client = established();
        assert_eq!(client.poll(None, event), Action::Fail(Error::UnexpectedEvent));
        assert!(client.is_closed());
    }
}

#[test]
fn hello_without_an_interval_is_refused() {
    let mut client = DiscordVoiceClient::connect(builder());
    assert_eq!(
        client.poll(None, Event::Hello(Hello { heartbeat_interval: 0 })),
        Action::Fail(Error::UnexpectedEvent)
    );
    assert!(client.is_closed());
}

#[test]
fn first_preferred_mode_that_is_offered_is_chosen() {
    let preferred = modes(&["aead_aes256_gcm", "xsalsa20_poly1305_lite", "xsalsa20_poly1305"]);
    assert_eq!(
        choose_mode(&preferred, &modes(&["xsalsa20_poly1305", "xsalsa20_poly1305_lite"])),
        Some("xsalsa20_poly1305_lite".to_string())
    );
    assert_eq!(
        choose_mode(&preferred, &modes(&["xsalsa20_poly1305"])),
        Some("xsalsa20_poly1305".to_string())
    );
    assert_eq!(choose_mode(&preferred, &modes(&["plain"])), None);
    assert_eq!(choose_mode(&preferred, &modes(&[])), None);
    assert_eq!(choose_mode(&modes(&[]), &modes(&["xsalsa20_poly1305"])), None);
}

#[test]
fn select_protocol_names_the_chosen_mode() {
    let mut client = DiscordVoiceClient::connect(DiscordVoiceClientBuilder {
        modes: modes(&["aead_aes256_gcm", "xsalsa20_poly1305_lite", "xsalsa20_poly1305"]),
        ..builder()
    });
    client.poll(None, hello());
    client.poll(
        None,
        Event::Ready(Ready {
            modes: modes(&["xsalsa20_poly1305", "xsalsa20_poly1305_lite"]),
            ..ready()
        }),
    );
    let response = build_response("198.51.100.23", 61234, 1234).unwrap();
    assert_eq!(
        client.on_datagram(&response),
        Action::Select(SelectProtocol {
            data: ProtocolData {
                address: "198.51.100.23".to_string(),
                mode: "xsalsa20_poly1305_lite".to_string(),
                port: 61234,
            },
            protocol: "udp".to_string(),
        })
    );
    assert_eq!(client.poll(None, description()), Action::Fail(Error::UnexpectedEvent));
}

#[test]
fn no_mutual_mode_ends_the_session() {
    let mut client = DiscordVoiceClient::connect(builder());
    client.poll(None, hello());
    assert_eq!(
        client.poll(None, Event::Ready(Ready { modes: modes(&["plain"]), ..ready() })),
        Action::Fail(Error::NoSupportedMode)
    );
    assert!(client.is_closed());
}

#[test]
fn stray_datagrams_do_not_move_the_handshake() {
    let mut client = DiscordVoiceClient::connect(builder());
    assert_eq!(client.on_datagram(&[0; 74]), Action::Idle);
    client.poll(None, hello());
    client.poll(None, Event::Ready(ready()));
    let before = client.clone();
    assert_eq!(client.on_datagram(&[]), Action::Idle);
    assert_eq!(client.on_datagram(&encode_request(1234)), Action::Idle);
    assert_eq!(client.on_datagram(&[0xff; 100]), Action::Idle);
    assert_eq!(client, before);
}

#[test]
fn discovery_retries_and_then_fails() {
    let mut client = DiscordVoiceClient::connect(builder());
    assert_eq!(client.on_discovery_timeout(), Action::Idle);
    client.poll(None, hello());
    client.poll(None, Event::Ready(ready()));
    assert_eq!(
        client.on_discovery_timeout(),
        Action::Retry { packet: encode_request(1234), wait_ms: 1000 }
    );
    assert_eq!(
        client.on_discovery_timeout(),
        Action::Retry { packet: encode_request(1234), wait_ms: 2000 }
    );
    assert_eq!(client.on_discovery_timeout(), Action::Fail(Error::DiscoveryTimeout));
    assert!(client.is_closed());
    assert_eq!(client.on_discovery_timeout(), Action::Idle);
}

#[test]
fn late_datagrams_are_dropped_after_discovery() {
    let mut client = established();
    let before = client.clone();
    let response = build_response("192.0.2.1", 1, 1234).unwrap();
    assert_eq!(client.on_datagram(&response), Action::Idle);
    assert_eq!(client.on_discovery_timeout(), Action::Idle);
    assert_eq!(client, before);
}

#[test]
fn sequence_follows_every_sequenced_message() {
    let mut client = DiscordVoiceClient::connect(builder());
    client.poll(Some(1), hello());
    assert_eq!(client.sequence(), 1);
    client.poll(None, Event::Ready(ready()));
    assert_eq!(client.sequence(), 1);
    client.poll(
        Some(5),
        Event::Speaking(Speaking {
            delay: None,
            speaking: SpeakingState(MICROPHONE),
            ssrc: 9,
            user_id: Some(UserId(3)),
        }),
    );
    assert_eq!(client.sequence(), 5);
    client.poll(Some(6), Event::HeartbeatAck(HeartbeatAck { nonce: 0 }));
    assert_eq!(client.sequence(), 6);
    client.poll(Some(9), Event::Resumed);
    assert!(client.is_closed());
    assert_eq!(client.sequence(), 9);
    client.poll(Some(10), hello());
    assert_eq!(client.sequence(), 10);
}

#[test]
fn no_heartbeat_before_hello() {
    let mut client = DiscordVoiceClient::connect(builder());
    assert_eq!(client.send_heartbeat(1000), Action::Idle);
}

#[test]
fn each_tick_sends_one_heartbeat_with_the_last_sequence() {
    let mut client = established();
    assert_eq!(
        client.send_heartbeat(1_700_000_000_000),
        Action::Beat(Heartbeat { t: 1_700_000_000_000, seq_ack: -1 })
    );
    client.poll(Some(17), Event::HeartbeatAck(HeartbeatAck { nonce: 1_700_000_000_000 }));
    assert_eq!(
        client.send_heartbeat(1_700_000_041_250),
        Action::Beat(Heartbeat { t: 1_700_000_041_250, seq_ack: 17 })
    );
}

#[test]
fn heartbeat_numbers_grow_when_the_clock_does_not() {
    let mut client = established();
    assert_eq!(client.send_heartbeat(500), Action::Beat(Heartbeat { t: 500, seq_ack: -1 }));
    client.poll(None, Event::HeartbeatAck(HeartbeatAck { nonce: 500 }));
    assert_eq!(client.send_heartbeat(500), Action::Beat(Heartbeat { t: 501, seq_ack: -1 }));
    client.poll(None, Event::HeartbeatAck(HeartbeatAck { nonce: 501 }));
    assert_eq!(client.send_heartbeat(100), Action::Beat(Heartbeat { t: 502, seq_ack: -1 }));
    client.poll(None, Event::HeartbeatAck(HeartbeatAck { nonce: 502 }));
    assert_eq!(client.send_heartbeat(0), Action::Beat(Heartbeat { t: 503, seq_ack: -1 }));
}

#[test]
fn heartbeat_number_stops_at_the_largest() {
    let mut client = established();
    assert_eq!(
        client.send_heartbeat(u64::MAX),
        Action::Beat(Heartbeat { t: u64::MAX, seq_ack: -1 })
    );
    client.poll(None, Event::HeartbeatAck(HeartbeatAck { nonce: u64::MAX }));
    assert_eq!(client.send_heartbeat(3), Action::Beat(Heartbeat { t: u64::MAX, seq_ack: -1 }));
}

#[test]
fn three_unanswered_heartbeats_kill_the_connection() {
    assert_eq!(MISSED_HEARTBEATS, 3);
    let mut client = established();
    assert_eq!(client.send_heartbeat(10), Action::Beat(Heartbeat { t: 10, seq_ack: -1 }));
    assert_eq!(client.send_heartbeat(20), Action::Beat(Heartbeat { t: 20, seq_ack: -1 }));
    assert_eq!(client.send_heartbeat(30), Action::Beat(Heartbeat { t: 30, seq_ack: -1 }));
    assert_eq!(client.send_heartbeat(40), Action::Dead);
    assert_eq!(client.send_heartbeat(50), Action::Dead);
    assert!(client.is_established());
}

#[test]
fn acknowledgement_of_the_last_heartbeat_keeps_the_connection() {
    let mut client = established();
    client.send_heartbeat(10);
    client.send_heartbeat(20);
    client.send_heartbeat(30);
    assert_eq!(client.poll(None, Event::HeartbeatAck(HeartbeatAck { nonce: 10 })), Action::Idle);
    assert_eq!(client.send_heartbeat(40), Action::Dead);
    assert_eq!(client.poll(None, Event::HeartbeatAck(HeartbeatAck { nonce: 30 })), Action::Idle);
    assert_eq!(client.send_heartbeat(40), Action::Beat(Heartbeat { t: 40, seq_ack: -1 }));
}

#[test]
fn what_others_do_is_passed_on() {
    let mut client = established();
    let before = client.clone();
    for event in [
        Event::Speaking(Speaking {
            delay: None,
            speaking: SpeakingState(MICROPHONE),
            ssrc: 9,
            user_id: Some(UserId(3)),
        }),
        Event::ClientConnect(ClientConnect { audio_ssrc: 9, user_id: UserId(3), video_ssrc: 0 }),
        Event::ClientDisconnect(ClientDisconnect { user_id: UserId(3) }),
    ] {
        assert_eq!(client.poll(None, event.clone()), Action::Inform(event));
    }
    assert_eq!(client, before);
}

#[test]
fn speaking_is_announced_with_the_own_ssrc() {
    let fresh = DiscordVoiceClient::connect(builder());
    assert_eq!(fresh.send_speaking(SpeakingState(MICROPHONE)), None);
    let client = established();
    assert_eq!(
        client.send_speaking(SpeakingState(MICROPHONE)),
        Some(Speaking {
            delay: Some(0),
            speaking: SpeakingState(MICROPHONE),
            ssrc: 1234,
            user_id: None,
        })
    );
}

#[test]
fn resume_keeps_sequence_and_session() {
    let mut client = established();
    client.poll(Some(33), Event::HeartbeatAck(HeartbeatAck { nonce: 0 }));
    client.send_heartbeat(10);
    let session = client.encryption_session().cloned();
    assert_eq!(
        client.resume(),
        Resume {
            server_id: GuildId(961916734137315358),
            session_id: "session-xyz".to_string(),
            token: "token-abc".to_string(),
        }
    );
    assert!(!client.is_established());
    assert_eq!(client.sequence(), 33);
    assert_eq!(client.heartbeat_interval(), Some(41250));
    assert_eq!(client.encryption_session().cloned(), session);
    assert_eq!(client.send_heartbeat(20), Action::Beat(Heartbeat { t: 20, seq_ack: 33 }));

    assert_eq!(
        client.poll(None, Event::Hello(Hello { heartbeat_interval: 13750 })),
        Action::StartHeartbeat { heartbeat_interval: 13750 }
    );
    assert_eq!(client.heartbeat_interval(), Some(13750));
    assert_eq!(client.poll(None, Event::Resumed), Action::Resumed);
    assert!(client.is_established());
    assert_eq!(client.encryption_session().cloned(), session);
    assert_eq!(client.send_heartbeat(61), Action::Beat(Heartbeat { t: 61, seq_ack: 33 }));
}

#[test]
fn resume_forgets_unanswered_heartbeats() {
    let mut client = established();
    client.send_heartbeat(10);
    client.send_heartbeat(20);
    client.send_heartbeat(30);
    assert_eq!(client.send_heartbeat(40), Action::Dead);
    client.resume();
    assert_eq!(client.send_heartbeat(40), Action::Beat(Heartbeat { t: 40, seq_ack: -1 }));
    assert_eq!(client.poll(None, Event::Resumed), Action::Resumed);
    assert_eq!(client.send_heartbeat(50), Action::Beat(Heartbeat { t: 50, seq_ack: -1 }));
}

#[test]
fn resume_is_for_established_sessions_only() {
    let mut client = DiscordVoiceClient::connect(builder());
    client.poll(None, hello());
    let before = client.clone();
    client.resume();
    assert_eq!(client, before);
}

#[test]
fn session_ends_into_its_updates() {
    assert_eq!(established().into_updates(), (server(), state()));
}

#[test]
fn opcodes_have_their_numbers() {
    let table = [
        (OpCode::Identify, 0u8),
        (OpCode::SelectProtocol, 1),
        (OpCode::Ready, 2),
        (OpCode::Heartbeat, 3),
        (OpCode::SessionDescription, 4),
        (OpCode::Speaking, 5),
        (OpCode::HeartbeatAck, 6),
        (OpCode::Resume, 7),
        (OpCode::Hello, 8),
        (OpCode::Resumed, 9),
        (OpCode::ClientConnect, 12),
        (OpCode::ClientDisconnect, 13),
    ];
    for (op, number) in table {
        assert_eq!(op.code(), number);
        assert_eq!(OpCode::from_code(number), Some(op));
    }
    for number in 0..=u8::MAX {
        if table.iter().all(|(_, listed)| *listed != number) {
            assert_eq!(OpCode::from_code(number), None);
        }
    }
}

#[test]
fn events_travel_under_their_opcode() {
    assert_eq!(hello().opcode(), OpCode::Hello);
    assert_eq!(Event::Ready(ready()).opcode(), OpCode::Ready);
    assert_eq!(description().opcode(), OpCode::SessionDescription);
    assert_eq!(Event::Resumed.opcode(), OpCode::Resumed);
    assert_eq!(Event::Heartbeat(Heartbeat { t: 1, seq_ack: 1 }).opcode(), OpCode::Heartbeat);
    assert_eq!(Event::HeartbeatAck(HeartbeatAck { nonce: 1 }).opcode(), OpCode::HeartbeatAck);
    assert_eq!(
        Event::ClientDisconnect(ClientDisconnect { user_id: UserId(3) }).opcode(),
        OpCode::ClientDisconnect
    );
    assert_eq!(
        Event::ClientConnect(ClientConnect { audio_ssrc: 1, user_id: UserId(3), video_ssrc: 2 })
            .opcode(),
        OpCode::ClientConnect
    );
    assert_eq!(
        Event::Identify(DiscordVoiceClient::connect(builder()).send_identify()).opcode(),
        OpCode::Identify
    );
}
