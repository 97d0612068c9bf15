use twilight_voice::close_code::{classify, CloseCode, CloseCodeConversionError, CloseEvent};

const CLOSE_CODES: [(CloseCode, u16, bool); 12] = [
    (CloseCode::UnknownOpcode, 4001, false),
    (CloseCode::FailedToDecodePayload, 4002, false),
    (CloseCode::NotAuthenticated, 4003, false),
    (CloseCode::AuthenticationFailed, 4004, false),
    (CloseCode::AlreadyAuthenticated, 4005, false),
    (CloseCode::SessionNoLongerValid, 4006, false),
    (CloseCode::SessionTimeout, 4009, true),
    (CloseCode::ServerNotFound, 4011, false),
    (CloseCode::UnknownProtocol, 4012, false),
    (CloseCode::Disconnected, 4014, false),
    (CloseCode::VoiceServerCrash, 4015, true),
    (CloseCode::UnknownEncryptionMode, 4016, false),
];

#[test]
fn variants() {
    for (kind, num, can_resume) in CLOSE_CODES {
        assert_eq!(kind, CloseCode::try_from(num).unwrap());
        assert_eq!(num, kind.code());
        assert!(kind.can_resume() == can_resume)
    }
}

#[test]
fn try_from_error() {
    assert!(
        matches!(CloseCode::try_from(5000), Err(CloseCodeConversionError { code }) if code == 5000)
    );
}

#[test]
fn conversion_error_keeps_the_number() {
    let error = CloseCodeConversionError::new(4000);
    assert_eq!(error.code(), 4000);
    assert_eq!(error, CloseCode::try_from(4000).unwrap_err());
}

#[test]
fn conversion_error_in_words() {
    let error = CloseCode::try_from(5000).unwrap_err();
    assert_eq!(error.message(), "5000 isn't a valid close code");
    assert_eq!(CloseCodeConversionError::new(0).message(), "0 isn't a valid close code");
    assert_eq!(CloseCodeConversionError::new(65535).message(), "65535 isn't a valid close code");
}

#[test]
fn gaps_in_the_table_are_no_codes() {
    for number in [0u16, 1000, 1006, 4000, 4007, 4008, 4010, 4013, 4017, 65535] {
        assert_eq!(CloseCode::try_from(number), Err(CloseCodeConversionError { code: number }));
    }
}

#[test]
fn classify_marks_timeout_and_crash_resumable() {
    assert!(classify(4009).resumable());
    assert!(classify(4015).resumable());
    assert_eq!(classify(4009).reason(), Some(CloseCode::SessionTimeout));
    assert_eq!(classify(4015).reason(), Some(CloseCode::VoiceServerCrash));
}

#[test]
fn classify_marks_every_other_listed_code_fatal() {
    for (kind, num, can_resume) in CLOSE_CODES {
        let event = classify(num);
        assert_eq!(event, CloseEvent { code: num });
        assert_eq!(event.reason(), Some(kind));
        assert_eq!(event.resumable(), can_resume);
    }
}

#[test]
fn classify_fails_closed_on_unlisted_codes() {
    for number in 0..=u16::MAX {
        let event = classify(number);
        assert_eq!(event.code, number);
        assert_eq!(event.resumable(), number == 4009 || number == 4015);
        if CLOSE_CODES.iter().all(|(_, listed, _)| *listed != number) {
            assert_eq!(event.reason(), None);
            assert!(!event.resumable());
        }
    }
}
