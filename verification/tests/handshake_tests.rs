use freemouse::handshake::{
    after_handshake_failure, client_check_reply, describe, first_connect_attempt, is_fatal,
    next_connect_attempt, server_check_challenge, server_reply, tokens_equal, AuthMessage,
    ConnectAttempt, HandshakeError,
};

#[test]
fn server_accepts_only_the_expected_token() {
    let expected = [7u8; 32];
    assert!(server_check_challenge(&AuthMessage::Challenge([7u8; 32]), &expected).is_ok());
    let mut other = [7u8; 32];
    other[31] = 8;
    let bad = server_check_challenge(&AuthMessage::Challenge(other), &expected);
    assert!(matches!(bad, Err(HandshakeError::InvalidPin)));
    let unexpected = server_check_challenge(&AuthMessage::Accepted, &expected);
    assert!(matches!(unexpected, Err(HandshakeError::ExpectedChallenge)));
    assert!(tokens_equal(&expected, &[7u8; 32]));
    assert!(!tokens_equal(&expected, &other));
}

#[test]
fn server_replies() {
    assert!(matches!(server_reply(&Ok(())), Some(AuthMessage::Accepted)));
    match server_reply(&Err(HandshakeError::InvalidPin)) {
        Some(AuthMessage::Failed(m)) => assert_eq!(m, "Invalid PIN"),
        _ => panic!("expected a refusal"),
    }
    assert!(server_reply(&Err(HandshakeError::ExpectedChallenge)).is_none());
}

#[test]
fn client_interprets_replies() {
    assert!(client_check_reply(&AuthMessage::Accepted).is_ok());
    match client_check_reply(&AuthMessage::Failed("Invalid PIN".to_string())) {
        Err(HandshakeError::AuthenticationFailed(m)) => assert_eq!(m, "Invalid PIN"),
        _ => panic!("expected a refusal"),
    }
    assert!(matches!(
        client_check_reply(&AuthMessage::Other),
        Err(HandshakeError::UnexpectedResponse)
    ));
    assert!(matches!(
        client_check_reply(&AuthMessage::Challenge([0u8; 32])),
        Err(HandshakeError::UnexpectedResponse)
    ));
}

#[test]
fn error_descriptions() {
    assert_eq!(
        describe(&HandshakeError::AuthenticationFailed("Invalid PIN".to_string())),
        "Authentication failed: Invalid PIN"
    );
    assert_eq!(describe(&HandshakeError::InvalidPin), "Invalid PIN");
    assert_eq!(describe(&HandshakeError::ExpectedChallenge), "Expected AuthChallenge");
    assert_eq!(describe(&HandshakeError::UnexpectedResponse), "Unexpected auth response");
    assert_eq!(describe(&HandshakeError::ChallengeTimedOut), "Auth handshake timed out");
    assert_eq!(describe(&HandshakeError::ResponseTimedOut), "Auth response timed out");
    assert_eq!(describe(&HandshakeError::KeyDerivation), "Argon2 error: password is too long");
}

#[test]
fn connect_schedule_has_six_attempts() {
    let mut a = first_connect_attempt();
    let mut seen = vec![a];
    while let Some(n) = next_connect_attempt(a) {
        seen.push(n);
        a = n;
    }
    assert_eq!(
        seen,
        vec![
            ConnectAttempt { address: 0, retry: 1 },
            ConnectAttempt { address: 0, retry: 2 },
            ConnectAttempt { address: 0, retry: 3 },
            ConnectAttempt { address: 1, retry: 1 },
            ConnectAttempt { address: 1, retry: 2 },
            ConnectAttempt { address: 1, retry: 3 },
        ]
    );
}

#[test]
fn refused_pin_stops_retrying() {
    let a = first_connect_attempt();
    assert!(is_fatal(&HandshakeError::InvalidPin));
    assert!(is_fatal(&HandshakeError::AuthenticationFailed("x".to_string())));
    assert!(!is_fatal(&HandshakeError::ResponseTimedOut));
    assert_eq!(
        after_handshake_failure(a, &HandshakeError::AuthenticationFailed("Invalid PIN".to_string())),
        None
    );
    assert_eq!(
        after_handshake_failure(a, &HandshakeError::UnexpectedResponse),
        Some(ConnectAttempt { address: 0, retry: 2 })
    );
}
