//! Decisions of the authentication handshake and of the client's connection
//! attempts. The server sends a random salt; both sides derive the session key
//! from the PIN; the client proves the PIN with its authentication token and
//! the server answers `AuthOk` or `AuthFail`.

use vstd::prelude::*;
use vstd::string::StringExecFns;

verus! {

/// The handshake's view of a message received during authentication.
#[derive(Clone, Debug)]
pub enum AuthMessage {
    /// The client's token.
    Challenge([u8; 32]),
    /// The server accepted the token.
    Accepted,
    /// The server refused the token, with its reason.
    Failed(String),
    /// Any other protocol message.
    Other,
}

/// Why a handshake failed.
#[derive(Clone, Debug)]
pub enum HandshakeError {
    /// The PIN could not be turned into a key.
    KeyDerivation,
    /// The server's first message from the client was not a challenge.
    ExpectedChallenge,
    /// The client's token does not match the server's PIN.
    InvalidPin,
    /// The server refused the client, with the server's reason.
    AuthenticationFailed(String),
    /// The client received something other than an acceptance or a refusal.
    UnexpectedResponse,
    /// The server waited too long for the client's challenge.
    ChallengeTimedOut,
    /// The client waited too long for the server's answer.
    ResponseTimedOut,
}

/// Compares two authentication tokens byte by byte.
pub fn tokens_equal(a: &[u8; 32], b: &[u8; 32]) -> (r: bool)
    ensures
        r == (a@ == b@),
{
    let mut i: usize = 0;
    while i < 32
        invariant
            0 <= i <= 32,
            a@.len() == 32,
            b@.len() == 32,
            forall|j: int| 0 <= j < i ==> a@[j] == b@[j],
        decreases 32 - i,
    {
        if a[i] != b[i] {
            return false;
        }
        i = i + 1;
    }
    assert(a@ =~= b@);
    true
}

/// What the server concludes from the first message of a client: `Ok` for a
/// challenge that carries the expected token, `InvalidPin` for a challenge
/// with any other token, `ExpectedChallenge` for anything else.
pub fn server_check_challenge(received: &AuthMessage, expected: &[u8; 32]) -> (r: Result<
    (),
    HandshakeError,
>)
    ensures
        match received {
            AuthMessage::Challenge(token) => if token@ == expected@ {
                r is Ok
            } else {
                r matches Err(HandshakeError::InvalidPin)
            },
            _ => r matches Err(HandshakeError::ExpectedChallenge),
        },
{
    match received {
        AuthMessage::Challenge(token) => {
            if tokens_equal(token, expected) {
                Ok(())
            } else {
                Err(HandshakeError::InvalidPin)
            }
        },
        _ => Err(HandshakeError::ExpectedChallenge),
    }
}

/// What the server answers after checking a challenge: `Accepted` when it
/// passed, `Failed("Invalid PIN")` when the token was wrong, nothing otherwise.
pub fn server_reply(verdict: &Result<(), HandshakeError>) -> (reply: Option<AuthMessage>)
    ensures
        match verdict {
            Ok(()) => reply matches Some(AuthMessage::Accepted),
            Err(HandshakeError::InvalidPin) => reply matches Some(AuthMessage::Failed(m))
                && m@ == "Invalid PIN"@,
            Err(_) => reply is None,
        },
{
    match verdict {
        Ok(()) => Some(AuthMessage::Accepted),
        Err(HandshakeError::InvalidPin) => Some(AuthMessage::Failed(String::from_str("Invalid PIN"))),
        Err(_) => None,
    }
}

/// What the client concludes from the server's answer: `Ok` for an
/// acceptance, the server's reason for a refusal, `UnexpectedResponse` for
/// anything else.
pub fn client_check_reply(received: &AuthMessage) -> (r: Result<(), HandshakeError>)
    ensures
        match received {
            AuthMessage::Accepted => r is Ok,
            AuthMessage::Failed(m) => r matches Err(HandshakeError::AuthenticationFailed(n))
                && n@ == m@,
            _ => r matches Err(HandshakeError::UnexpectedResponse),
        },
{
    match received {
        AuthMessage::Accepted => Ok(()),
        AuthMessage::Failed(m) => Err(HandshakeError::AuthenticationFailed(m.clone())),
        _ => Err(HandshakeError::UnexpectedResponse),
    }
}

/// Whether a failed handshake ends the client's attempts: a refused PIN is
/// not retried.
pub open spec fn spec_is_fatal(err: HandshakeError) -> bool {
    err is InvalidPin || err is AuthenticationFailed
}

/// Whether the client stops retrying after this handshake error.
pub fn is_fatal(err: &HandshakeError) -> (r: bool)
    ensures
        r == spec_is_fatal(*err),
{
    match err {
        HandshakeError::InvalidPin | HandshakeError::AuthenticationFailed(_) => true,
        _ => false,
    }
}

/// A human-readable account of a handshake failure.
pub fn describe(err: &HandshakeError) -> (text: String)
    ensures
        match err {
            HandshakeError::KeyDerivation => text@ == "Argon2 error: password is too long"@,
            HandshakeError::ExpectedChallenge => text@ == "Expected AuthChallenge"@,
            HandshakeError::InvalidPin => text@ == "Invalid PIN"@,
            HandshakeError::AuthenticationFailed(m) => text@ == "Authentication failed: "@ + m@,
            HandshakeError::UnexpectedResponse => text@ == "Unexpected auth response"@,
            HandshakeError::ChallengeTimedOut => text@ == "Auth handshake timed out"@,
            HandshakeError::ResponseTimedOut => text@ == "Auth response timed out"@,
        },
{
    match err {
        HandshakeError::KeyDerivation => String::from_str("Argon2 error: password is too long"),
        HandshakeError::ExpectedChallenge => String::from_str("Expected AuthChallenge"),
        HandshakeError::InvalidPin => String::from_str("Invalid PIN"),
        HandshakeError::AuthenticationFailed(m) => String::from_str("Authentication failed: ").concat(
            m.as_str(),
        ),
        HandshakeError::UnexpectedResponse => String::from_str("Unexpected auth response"),
        HandshakeError::ChallengeTimedOut => String::from_str("Auth handshake timed out"),
        HandshakeError::ResponseTimedOut => String::from_str("Auth response timed out"),
    }
}

/// How many times the client tries each address before moving on.
pub const MAX_ATTEMPTS: usize = 3;

/// One connection attempt of the client: which address form (0 for `ip:port`,
/// 1 for `[ip]:port`) and which try of it (1 to `MAX_ATTEMPTS`).
#[derive(Clone, Copy, Debug, PartialEq, Eq, Structural)]
pub struct ConnectAttempt {
    pub address: usize,
    pub retry: usize,
}

impl ConnectAttempt {
    /// The attempt names one of the two address forms and one of the tries.
    pub open spec fn is_valid(self) -> bool {
        self.address < 2 && 1 <= self.retry <= MAX_ATTEMPTS
    }

    /// The position of the attempt in the client's schedule, from 0.
    pub open spec fn index(self) -> int {
        self.address * MAX_ATTEMPTS + self.retry - 1
    }
}

/// The client's first attempt: the plain address form, first try.
pub fn first_connect_attempt() -> (a: ConnectAttempt)
    ensures
        a.is_valid(),
        a.index() == 0,
{
    ConnectAttempt { address: 0, retry: 1 }
}

/// The attempt after a failed one: the next try of the same address form,
/// then the first try of the next form; `None` when every attempt was used.
pub fn next_connect_attempt(a: ConnectAttempt) -> (next: Option<ConnectAttempt>)
    requires
        a.is_valid(),
    ensures
        a.index() + 1 < 2 * MAX_ATTEMPTS ==> (next matches Some(n) && n.is_valid() && n.index()
            == a.index() + 1),
        a.index() + 1 >= 2 * MAX_ATTEMPTS ==> next is None,
{
    if a.retry < MAX_ATTEMPTS {
        Some(ConnectAttempt { address: a.address, retry: a.retry + 1 })
    } else if a.address < 1 {
        Some(ConnectAttempt { address: a.address + 1, retry: 1 })
    } else {
        None
    }
}

/// What the client does after an attempt whose handshake failed: give up on a
/// fatal error, otherwise go on with the next attempt if any is left.
pub fn after_handshake_failure(a: ConnectAttempt, err: &HandshakeError) -> (next: Option<
    ConnectAttempt,
>)
    requires
        a.is_valid(),
    ensures
        spec_is_fatal(*err) ==> next is None,
        !spec_is_fatal(*err) && a.index() + 1 < 2 * MAX_ATTEMPTS ==> (next matches Some(n)
            && n.is_valid() && n.index() == a.index() + 1),
        !spec_is_fatal(*err) && a.index() + 1 >= 2 * MAX_ATTEMPTS ==> next is None,
{
    if is_fatal(err) {
        None
    } else {
        next_connect_attempt(a)
    }
}

} // verus!
