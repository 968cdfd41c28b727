use wow_net::auth::{
    auth_session, check_logon_challenge, finish_logon, normalize_credentials, start_logon,
    AuthError, CredentialError, LogonChallengeReply, LogonProofReply,
};
use wow_net::NetError;

const PRIME_LE: [u8; 32] = [
    0xb7, 0x9b, 0x3e, 0x2a, 0x87, 0x82, 0x3c, 0xab, 0x8f, 0x5e, 0xbf, 0xbf, 0x8e, 0xb1, 0x01, 0x08,
    0x53, 0x50, 0x06, 0x29, 0x8b, 0x5b, 0xad, 0xbd, 0x5b, 0x53, 0xe1, 0x89, 0x5e, 0x64, 0x4b, 0x89,
];

#[test]
fn credentials_accepted() {
    assert!(normalize_credentials("test", "test123").is_ok());
    assert!(normalize_credentials("a", "0123456789abcdef").is_ok());
    assert!(normalize_credentials("with space", "~!@#").is_ok());
}

#[test]
fn credentials_are_upper_cased() {
    let (u, p) = normalize_credentials("test", "Test123").ok().unwrap();
    assert_eq!(u.to_string(), "TEST");
    assert_eq!(p.to_string(), "TEST123");
}

#[test]
fn credentials_refused() {
    let too_long = NetError::StringError(CredentialError::StringTooLong);
    assert_eq!(normalize_credentials("", "pw").unwrap_err(), too_long);
    assert_eq!(normalize_credentials("user", "").unwrap_err(), too_long);
    assert_eq!(normalize_credentials("0123456789abcdefg", "pw").unwrap_err(), too_long);
    assert_eq!(
        normalize_credentials("us\u{e9}r", "pw").unwrap_err(),
        NetError::StringError(CredentialError::CharacterNotAllowed('\u{e9}'))
    );
    assert_eq!(
        normalize_credentials("user", "p\tw\u{7f}").unwrap_err(),
        NetError::StringError(CredentialError::CharacterNotAllowed('\t'))
    );
    assert_eq!(
        normalize_credentials("user", "p\u{7f}").unwrap_err(),
        NetError::StringError(CredentialError::CharacterNotAllowed('\u{7f}'))
    );
    // The username is checked first.
    assert_eq!(normalize_credentials("", "\t").unwrap_err(), too_long);
}

#[test]
fn logon_challenge_accepted() {
    let mut key = [0u8; 32];
    key[5] = 0x42;
    let c = check_logon_challenge(&[7, 9], &PRIME_LE, key).ok().unwrap();
    assert_eq!(c.generator, 7);
    assert_eq!(c.large_safe_prime, PRIME_LE);
}

#[test]
fn logon_challenge_wrong_prime_length() {
    let mut key = [0u8; 32];
    key[0] = 1;
    assert!(matches!(
        check_logon_challenge(&[7], &PRIME_LE[..31], key),
        Err(AuthError::ServerCryptoInformation)
    ));
    let mut long = PRIME_LE.to_vec();
    long.push(0);
    assert!(matches!(
        check_logon_challenge(&[7], &long, key),
        Err(AuthError::ServerCryptoInformation)
    ));
}

#[test]
fn logon_challenge_bad_public_key() {
    assert!(matches!(
        check_logon_challenge(&[7], &PRIME_LE, [0u8; 32]),
        Err(AuthError::ServerCryptoInformation)
    ));
    assert!(matches!(
        check_logon_challenge(&[7], &PRIME_LE, PRIME_LE),
        Err(AuthError::ServerCryptoInformation)
    ));
    let mut mixed = PRIME_LE;
    mixed[3] = 0;
    assert!(matches!(
        check_logon_challenge(&[7], &PRIME_LE, mixed),
        Err(AuthError::ServerCryptoInformation)
    ));
}

fn good_reply() -> LogonChallengeReply {
    let mut key = [0u8; 32];
    key[5] = 0x42;
    LogonChallengeReply::Success {
        generator: vec![7],
        large_safe_prime: PRIME_LE.to_vec(),
        salt: [3u8; 32],
        server_public_key: key,
    }
}

#[test]
fn logon_challenge_failure_is_refused() {
    let (u, p) = normalize_credentials("test", "test123").ok().unwrap();
    assert!(matches!(
        start_logon(u, p, LogonChallengeReply::Failure),
        Err(AuthError::ServerCryptoInformation)
    ));
}

#[test]
fn logon_challenge_bad_parameters_are_refused() {
    let (u, p) = normalize_credentials("test", "test123").ok().unwrap();
    let reply = LogonChallengeReply::Success {
        generator: vec![7],
        large_safe_prime: PRIME_LE.to_vec(),
        salt: [3u8; 32],
        server_public_key: [0u8; 32],
    };
    assert!(matches!(start_logon(u, p, reply), Err(AuthError::ServerCryptoInformation)));
}

#[test]
fn logon_proof_is_sent_and_checked() {
    let (u, p) = normalize_credentials("test", "test123").ok().unwrap();
    let proof = start_logon(u, p, good_reply()).ok().unwrap();
    assert_ne!(proof.client_public_key, [0u8; 32]);
    assert_ne!(proof.client_proof, [0u8; 20]);
    assert!(matches!(
        finish_logon(proof.challenge, LogonProofReply::Success { server_proof: [0u8; 20] }),
        Err(AuthError::ServerVerificationFailed)
    ));
}

#[test]
fn logon_proof_refusal_fails() {
    let (u, p) = normalize_credentials("test", "test123").ok().unwrap();
    let proof = start_logon(u, p, good_reply()).ok().unwrap();
    assert!(matches!(
        finish_logon(proof.challenge, LogonProofReply::Failure),
        Err(AuthError::ServerVerificationFailed)
    ));
}

#[test]
fn auth_session_fields() {
    let (u, _) = normalize_credentials("test", "test123").ok().unwrap();
    let s = auth_session([9u8; 40], vec![], u);
    assert_eq!(s.session_key, [9u8; 40]);
    assert_eq!(s.realm_id, None);
    assert!(s.realms.is_empty());
    assert_eq!(s.username.to_string(), "TEST");
}

#[test]
fn logon_challenge_unsafe_parameters_are_refused() {
    let (u, p) = normalize_credentials("test", "test123").ok().unwrap();
    let mut key = [0u8; 32];
    key[5] = 0x42;
    let zero_generator = LogonChallengeReply::Success {
        generator: vec![0],
        large_safe_prime: PRIME_LE.to_vec(),
        salt: [3u8; 32],
        server_public_key: key,
    };
    assert!(matches!(start_logon(u, p, zero_generator), Err(AuthError::ServerCryptoInformation)));

    let (u, p) = normalize_credentials("test", "test123").ok().unwrap();
    let zero_prime = LogonChallengeReply::Success {
        generator: vec![7],
        large_safe_prime: vec![0u8; 32],
        salt: [3u8; 32],
        server_public_key: key,
    };
    assert!(matches!(start_logon(u, p, zero_prime), Err(AuthError::ServerCryptoInformation)));

    let (u, p) = normalize_credentials("test", "test123").ok().unwrap();
    let mut other = PRIME_LE;
    other[31] ^= 1;
    let other_prime = LogonChallengeReply::Success {
        generator: vec![7],
        large_safe_prime: other.to_vec(),
        salt: [3u8; 32],
        server_public_key: key,
    };
    assert!(matches!(start_logon(u, p, other_prime), Err(AuthError::ServerCryptoInformation)));
}
