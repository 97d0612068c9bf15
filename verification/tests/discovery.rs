use twilight_voice::packet::{build_response, encode_request};
use twilight_voice::voice::{
    Discovery, DiscordVoiceConnection, DISCOVERY_ATTEMPTS, DISCOVERY_FIRST_WAIT_MS,
};

fn connection() -> DiscordVoiceConnection {
    DiscordVoiceConnection::connect("203.0.113.5".to_string(), 5000)
}

#[test]
fn budget_of_the_exchange() {
    assert_eq!(DISCOVERY_ATTEMPTS, 3);
    assert_eq!(DISCOVERY_FIRST_WAIT_MS, 500);
}

#[test]
fn peer_is_address_colon_port() {
    assert_eq!(connection().peer(), "203.0.113.5:5000");
    assert_eq!(DiscordVoiceConnection::connect("10.0.0.1".to_string(), 0).peer(), "10.0.0.1:0");
    assert_eq!(
        DiscordVoiceConnection::connect("10.0.0.1".to_string(), 65535).peer(),
        "10.0.0.1:65535"
    );
}

#[test]
fn discovery_sends_one_request_first() {
    let mut udp = connection();
    assert_eq!(
        udp.ip_discovery(1234),
        Discovery::Send { packet: encode_request(1234), wait_ms: 500 }
    );
}

#[test]
fn nothing_runs_before_discovery_starts() {
    let mut udp = connection();
    let response = build_response("198.51.100.23", 61234, 1234).unwrap();
    assert_eq!(udp.on_datagram(&response), Discovery::Idle);
    assert_eq!(udp.on_timeout(), Discovery::Idle);
    assert_eq!(udp, connection());
}

#[test]
fn response_ends_the_exchange() {
    let mut udp = connection();
    udp.ip_discovery(1234);
    let response = build_response("198.51.100.23", 61234, 1234).unwrap();
    assert_eq!(
        udp.on_datagram(&response),
        Discovery::Found { ip: "198.51.100.23".to_string(), port: 61234 }
    );
    assert_eq!(udp.on_datagram(&response), Discovery::Idle);
    assert_eq!(udp.on_timeout(), Discovery::Idle);
}

#[test]
fn stray_datagrams_are_dropped() {
    let mut udp = connection();
    udp.ip_discovery(1234);
    let before = udp.clone();
    assert_eq!(udp.on_datagram(&[]), Discovery::Wait);
    assert_eq!(udp.on_datagram(&[1, 2, 3]), Discovery::Wait);
    assert_eq!(udp.on_datagram(&encode_request(1234)), Discovery::Wait);
    assert_eq!(udp.on_datagram(&[0xff; 74]), Discovery::Wait);
    assert_eq!(udp, before);
    let response = build_response("198.51.100.23", 61234, 1234).unwrap();
    assert_eq!(
        udp.on_datagram(&response),
        Discovery::Found { ip: "198.51.100.23".to_string(), port: 61234 }
    );
}

#[test]
fn silence_times_out_after_three_requests() {
    let mut udp = connection();
    let request = encode_request(42);
    assert_eq!(udp.ip_discovery(42), Discovery::Send { packet: request.clone(), wait_ms: 500 });
    assert_eq!(udp.on_timeout(), Discovery::Send { packet: request.clone(), wait_ms: 1000 });
    assert_eq!(udp.on_timeout(), Discovery::Send { packet: request.clone(), wait_ms: 2000 });
    assert_eq!(udp.on_timeout(), Discovery::TimedOut);
    assert_eq!(udp.on_timeout(), Discovery::Idle);
    let response = build_response("198.51.100.23", 61234, 42).unwrap();
    assert_eq!(udp.on_datagram(&response), Discovery::Idle);
}

#[test]
fn response_after_a_retry_is_taken() {
    let mut udp = connection();
    udp.ip_discovery(42);
    udp.on_timeout();
    assert_eq!(udp.on_datagram(&[0; 10]), Discovery::Wait);
    udp.on_timeout();
    let response = build_response("198.51.100.23", 61234, 42).unwrap();
    assert_eq!(
        udp.on_datagram(&response),
        Discovery::Found { ip: "198.51.100.23".to_string(), port: 61234 }
    );
}

#[test]
fn discovery_can_start_again() {
    let mut udp = connection();
    udp.ip_discovery(1);
    udp.on_timeout();
    udp.on_timeout();
    assert_eq!(udp.ip_discovery(2), Discovery::Send { packet: encode_request(2), wait_ms: 500 });
    assert_eq!(udp.on_timeout(), Discovery::Send { packet: encode_request(2), wait_ms: 1000 });
}
