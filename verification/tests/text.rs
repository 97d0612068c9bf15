use twilight_voice::text::{decimal, push_decimal};
use twilight_voice::Error;

#[test]
fn decimal_writes_numbers_without_leading_zeros() {
    assert_eq!(decimal(0), "0");
    assert_eq!(decimal(7), "7");
    assert_eq!(decimal(10), "10");
    assert_eq!(decimal(41250), "41250");
    assert_eq!(decimal(1_000_000), "1000000");
    assert_eq!(decimal(u64::MAX), "18446744073709551615");
}

#[test]
fn decimal_agrees_with_the_standard_formatting() {
    for n in (0..5000u64).chain([65535, 65536, 99_999, 100_000, u64::MAX - 1]) {
        assert_eq!(decimal(n), n.to_string());
    }
}

#[test]
fn push_decimal_appends() {
    let mut text = String::from("port ");
    push_decimal(&mut text, 5000);
    assert_eq!(text, "port 5000");
    push_decimal(&mut text, 0);
    assert_eq!(text, "port 50000");
}

#[test]
fn errors_in_words() {
    assert_eq!(
        Error::NotReady.message(),
        "VoiceClient is not ready to join voice channel."
    );
    assert_eq!(
        Error::AlreadyJoined.message(),
        "VoiceClient is already connected or connecting to voice server."
    );
    assert_eq!(Error::WebSocket.message(), "WebSocket error");
    assert_eq!(Error::SerdeJson.message(), "Serde_json error");
    assert_eq!(Error::Io.message(), "IO error");
    assert_eq!(Error::SystemTime.message(), "SystemTime error");
    assert_eq!(Error::UnexpectedEvent.message(), "Voice server sent a message out of order.");
    assert_eq!(
        Error::NoSupportedMode.message(),
        "Voice server offers no supported encryption mode."
    );
    assert_eq!(Error::DiscoveryTimeout.message(), "IP discovery timed out.");
    assert_eq!(
        Error::Closed(4006).message(),
        "Voice server closed the connection with code 4006"
    );
}
