use vstd::prelude::*;

use wow_login_messages::version_3::Realm;
use wow_srp::client::{SrpClient, SrpClientChallenge};
use wow_srp::error::{InvalidPublicKeyError, MatchProofsError, NormalizedStringError};
use wow_srp::normalized_string::NormalizedString;
use wow_srp::PublicKey;

use crate::auth::error::{AuthError, CredentialError};
use crate::auth::session::AuthSession;
use crate::error::NetError;

verus! {

#[verifier::external_type_specification]
#[verifier::external_body]
pub struct ExNormalizedString(NormalizedString);

#[verifier::external_type_specification]
#[verifier::external_body]
pub struct ExNormalizedStringError(NormalizedStringError);

#[verifier::external_type_specification]
#[verifier::external_body]
pub struct ExPublicKey(PublicKey);

#[verifier::external_type_specification]
#[verifier::external_body]
pub struct ExInvalidPublicKeyError(InvalidPublicKeyError);

#[verifier::external_type_specification]
#[verifier::external_body]
pub struct ExSrpClientChallenge(SrpClientChallenge);

#[verifier::external_type_specification]
#[verifier::external_body]
pub struct ExSrpClient(SrpClient);

#[verifier::external_type_specification]
#[verifier::external_body]
pub struct ExMatchProofsError(MatchProofsError);

/// The length of the large safe prime and of a public key, in bytes.
pub const KEY_LENGTH: usize = 32;

/// The most characters that a username or password may have.
pub const MAX_CREDENTIAL_LENGTH: usize = 16;

/// A printable ASCII character: neither a control character nor outside ASCII.
pub open spec fn printable_ascii(c: char) -> bool {
    0x20 <= (c as int) <= 0x7e
}

/// A username or password that the login protocol accepts: one to sixteen printable
/// ASCII characters.
pub open spec fn credential_is_valid(s: Seq<char>) -> bool {
    &&& 1 <= s.len() <= MAX_CREDENTIAL_LENGTH
    &&& forall|k: int| 0 <= k < s.len() ==> #[trigger] printable_ascii(s[k])
}

/// `s` with every ASCII lower-case letter made upper-case.
pub open spec fn ascii_upper(s: Seq<char>) -> Seq<char> {
    Seq::new(
        s.len(),
        |k: int|
            if 0x61 <= (s[k] as int) <= 0x7a {
                ((s[k] as int) - 32) as char
            } else {
                s[k]
            },
    )
}

/// What a refusal of `s` says of it. A refused character is the first character of `s`
/// that is not printable ASCII. A string of printable ASCII is only ever refused as too
/// long, and a string of one to sixteen ASCII characters never is.
pub open spec fn credential_error_fits(s: Seq<char>, e: CredentialError) -> bool {
    match e {
        CredentialError::CharacterNotAllowed(c) => exists|k: int|
            0 <= k < s.len() && #[trigger] s[k] == c && !printable_ascii(c) && forall|m: int|
                0 <= m < k ==> #[trigger] printable_ascii(s[m]),
        CredentialError::StringTooLong => !(1 <= s.len() <= MAX_CREDENTIAL_LENGTH && forall|k: int|
            0 <= k < s.len() ==> (#[trigger] s[k] as int) < 0x80),
    }
}

/// The text that a normalized string holds.
pub uninterp spec fn normalized_text(n: NormalizedString) -> Seq<char>;

/// The 32 little-endian bytes that a public key holds.
pub uninterp spec fn public_key_bytes(k: PublicKey) -> Seq<u8>;

/// The client's public key that an SRP challenge holds.
pub uninterp spec fn challenge_public_key(c: SrpClientChallenge) -> Seq<u8>;

/// The client's proof that an SRP challenge holds.
pub uninterp spec fn challenge_client_proof(c: SrpClientChallenge) -> Seq<u8>;

/// The server proof that an SRP challenge expects: the one that a server knowing the
/// same password computes.
pub uninterp spec fn challenge_server_proof(c: SrpClientChallenge) -> Seq<u8>;

/// The session key that an SRP challenge computed.
pub uninterp spec fn challenge_session_key(c: SrpClientChallenge) -> Seq<u8>;

/// The session key that an authenticated SRP client holds.
pub uninterp spec fn client_session_key(c: SrpClient) -> Seq<u8>;

/// The large safe prime that `wow_srp` holds, little endian.
pub open spec fn large_safe_prime_le() -> Seq<u8> {
    seq![
        0xb7u8, 0x9b, 0x3e, 0x2a, 0x87, 0x82, 0x3c, 0xab, 0x8f, 0x5e, 0xbf, 0xbf, 0x8e, 0xb1, 0x01, 0x08,
        0x53, 0x50, 0x06, 0x29, 0x8b, 0x5b, 0xad, 0xbd, 0x5b, 0x53, 0xe1, 0x89, 0x5e, 0x64, 0x4b, 0x89,
    ]
}

/// A server public key that `wow_srp` accepts: some byte is neither zero nor the
/// matching byte of the large safe prime.
pub open spec fn public_key_accepted(key: Seq<u8>) -> bool {
    exists|i: int| 0 <= i < KEY_LENGTH && #[trigger] key[i] != 0 && key[i] != large_safe_prime_le()[i]
}

/// Calls `wow_srp::normalized_string::NormalizedString::new` and tells its error
/// variants apart. Claims that it succeeds exactly on one to sixteen printable ASCII
/// characters, that the result holds them upper-cased, and what `credential_error_fits`
/// says of a refusal. Which of the two refusals a string with non-ASCII characters
/// gets is left unsaid: it depends on its length in bytes.
#[verifier::external_body]
fn normalized_string(s: &str) -> (res: Result<NormalizedString, CredentialError>)
    ensures
        res is Ok <==> credential_is_valid(s@),
        res matches Ok(n) ==> normalized_text(n) == ascii_upper(s@),
        res matches Err(e) ==> credential_error_fits(s@, e),
{
    match NormalizedString::new(s) {
        Ok(n) => Ok(n),
        Err(NormalizedStringError::CharacterNotAllowed(c)) => Err(CredentialError::CharacterNotAllowed(c)),
        Err(NormalizedStringError::StringTooLong) => Err(CredentialError::StringTooLong),
    }
}

/// Calls `wow_srp::PublicKey::from_le_bytes`. Claims that it succeeds exactly on the
/// keys that `public_key_accepted` describes, and that the key it returns holds `key`.
#[verifier::external_body]
fn public_key_from_le_bytes(key: [u8; 32]) -> (res: Result<PublicKey, InvalidPublicKeyError>)
    ensures
        res is Ok <==> public_key_accepted(key@),
        res matches Ok(k) ==> public_key_bytes(k) == key@,
{
    PublicKey::from_le_bytes(key)
}

/// The SRP challenge that `wow_srp` computes for an account name and password (as
/// normalized texts), the server's generator, large safe prime, public key and salt,
/// and the client's private key.
pub uninterp spec fn srp_challenge_of(
    username: Seq<char>,
    password: Seq<char>,
    generator: u8,
    large_safe_prime: Seq<u8>,
    server_public_key: Seq<u8>,
    salt: Seq<u8>,
    private_key: Seq<u8>,
) -> SrpClientChallenge;

/// The client's private key that an SRP challenge was computed with.
pub uninterp spec fn challenge_private_key(c: SrpClientChallenge) -> Seq<u8>;

/// Server parameters on which `wow_srp` computes a challenge without panicking, whatever
/// private key it draws: its own large safe prime, a prime larger than any generator, and
/// a non-zero generator, so that the client's public key `g^a mod N` is never zero.
pub open spec fn srp_parameters_safe(generator: u8, large_safe_prime: Seq<u8>) -> bool {
    generator != 0 && large_safe_prime == large_safe_prime_le()
}

/// Reads `wow_srp::LARGE_SAFE_PRIME_LITTLE_ENDIAN`, the large safe prime that `wow_srp`
/// holds.
#[verifier::external_body]
fn wow_srp_large_safe_prime() -> (res: [u8; 32])
    ensures
        res@ == large_safe_prime_le(),
{
    wow_srp::LARGE_SAFE_PRIME_LITTLE_ENDIAN
}

/// Calls `wow_srp::client::SrpClientChallenge::new`, which draws a random 32-byte private
/// key. Claims that the challenge is the one for the given account, password and server
/// parameters under the 32-byte private key it drew; which key that is, is chance. `wow_srp` panics when the client's public
/// key comes out zero (always when the prime is zero or one or the generator is zero);
/// `requires` keeps to parameters on which that cannot happen.
#[verifier::external_body]
fn srp_client_challenge(
    username: NormalizedString,
    password: NormalizedString,
    generator: u8,
    large_safe_prime: [u8; 32],
    server_public_key: PublicKey,
    salt: [u8; 32],
) -> (res: SrpClientChallenge)
    requires
        srp_parameters_safe(generator, large_safe_prime@),
    ensures
        challenge_private_key(res).len() == 32,
        res == srp_challenge_of(
            normalized_text(username),
            normalized_text(password),
            generator,
            large_safe_prime@,
            public_key_bytes(server_public_key),
            salt@,
            challenge_private_key(res),
        ),
{
    SrpClientChallenge::new(username, password, generator, large_safe_prime, server_public_key, salt)
}

/// Whether `prime` is the large safe prime that `wow_srp` holds.
fn is_wow_srp_prime(prime: &[u8; 32]) -> (res: bool)
    ensures
        res == (prime@ == large_safe_prime_le()),
{
    let known = wow_srp_large_safe_prime();
    let mut k: usize = 0;
    while k < KEY_LENGTH
        invariant
            k <= KEY_LENGTH,
            known@ == large_safe_prime_le(),
            forall|m: int| 0 <= m < k ==> prime@[m] == known@[m],
        decreases KEY_LENGTH - k,
    {
        if prime[k] != known[k] {
            return false;
        }
        k = k + 1;
    }
    assert(prime@ =~= known@);
    true
}

/// Calls `SrpClientChallenge::client_public_key`: the public key that the challenge holds.
#[verifier::external_body]
fn srp_client_public_key(c: &SrpClientChallenge) -> (res: [u8; 32])
    ensures
        res@ == challenge_public_key(*c),
{
    *c.client_public_key()
}

/// Calls `SrpClientChallenge::client_proof`: the client proof that the challenge holds.
#[verifier::external_body]
fn srp_client_proof(c: &SrpClientChallenge) -> (res: [u8; 20])
    ensures
        res@ == challenge_client_proof(*c),
{
    *c.client_proof()
}

/// Calls `SrpClientChallenge::verify_server_proof`. Claims that it succeeds exactly when
/// `server_proof` is the proof that the challenge expects, and that the client it returns
/// keeps the challenge's session key.
#[verifier::external_body]
fn srp_verify_server_proof(c: SrpClientChallenge, server_proof: [u8; 20]) -> (res: Result<
    SrpClient,
    MatchProofsError,
>)
    ensures
        res is Ok <==> server_proof@ == challenge_server_proof(c),
        res matches Ok(client) ==> client_session_key(client) == challenge_session_key(c),
{
    c.verify_server_proof(server_proof)
}

/// Calls `SrpClient::session_key`: the session key that the client holds.
#[verifier::external_body]
fn srp_session_key(c: &SrpClient) -> (res: [u8; 40])
    ensures
        res@ == client_session_key(*c),
{
    *c.session_key()
}

/// The crypto parameters of a successful logon challenge, checked and ready for the
/// client's SRP computation.
pub struct ServerCrypto {
    pub generator: u8,
    pub large_safe_prime: [u8; 32],
    pub server_public_key: PublicKey,
}

/// The login server's answer to the logon challenge.
pub enum LogonChallengeReply {
    /// The server's SRP parameters.
    Success {
        generator: Vec<u8>,
        large_safe_prime: Vec<u8>,
        salt: [u8; 32],
        server_public_key: [u8; 32],
    },
    /// Any refusal.
    Failure,
}

/// The login server's answer to the client's proof.
pub enum LogonProofReply {
    /// The server's proof that it knows the password.
    Success { server_proof: [u8; 20] },
    /// Any refusal.
    Failure,
}

/// The client's side of the SRP exchange after the challenge: the challenge itself,
/// and the public key and proof that the client sends.
pub struct LogonProof {
    pub challenge: SrpClientChallenge,
    pub client_public_key: [u8; 32],
    pub client_proof: [u8; 20],
}

/// Normalizes the username and the password of an account.
pub fn normalize_credentials(user: &str, pass: &str) -> (res: Result<
    (NormalizedString, NormalizedString),
    NetError,
>)
    ensures
        res is Ok <==> credential_is_valid(user@) && credential_is_valid(pass@),
        res matches Ok((u, p)) ==> normalized_text(u) == ascii_upper(user@) && normalized_text(p)
            == ascii_upper(pass@),
        !credential_is_valid(user@) ==> (res matches Err(NetError::StringError(e))
            && credential_error_fits(user@, e)),
        credential_is_valid(user@) && !credential_is_valid(pass@) ==> (res matches Err(
            NetError::StringError(e),
        ) && credential_error_fits(pass@, e)),
        res is Err ==> res matches Err(NetError::StringError(_)),
{
    let username = match normalized_string(user) {
        Ok(u) => u,
        Err(e) => {
            return Err(NetError::StringError(e));
        },
    };
    let password = match normalized_string(pass) {
        Ok(p) => p,
        Err(e) => {
            return Err(NetError::StringError(e));
        },
    };
    Ok((username, password))
}

/// Checks the crypto parameters of a successful logon challenge: the generator is its
/// first byte, the large safe prime must be 32 bytes long and the server's public key
/// must be one that `wow_srp` accepts.
pub fn check_logon_challenge(generator: &[u8], large_safe_prime: &[u8], server_public_key: [u8; 32]) -> (res:
    Result<ServerCrypto, AuthError>)
    requires
        generator@.len() > 0,
    ensures
        res is Ok <==> large_safe_prime@.len() == KEY_LENGTH && public_key_accepted(server_public_key@),
        res matches Ok(c) ==> c.generator == generator@[0] && c.large_safe_prime@ == large_safe_prime@
            && public_key_bytes(c.server_public_key) == server_public_key@,
        res is Err ==> res == Err::<ServerCrypto, AuthError>(AuthError::ServerCryptoInformation),
{
    let generator = generator[0];
    if large_safe_prime.len() != KEY_LENGTH {
        return Err(AuthError::ServerCryptoInformation);
    }
    let mut prime = [0u8; 32];
    let mut k: usize = 0;
    while k < KEY_LENGTH
        invariant
            k <= KEY_LENGTH,
            large_safe_prime@.len() == KEY_LENGTH,
            forall|m: int| 0 <= m < k ==> prime@[m] == large_safe_prime@[m],
        decreases KEY_LENGTH - k,
    {
        prime[k] = large_safe_prime[k];
        k = k + 1;
    }
    assert(prime@ =~= large_safe_prime@);
    let server_public_key = match public_key_from_le_bytes(server_public_key) {
        Ok(key) => key,
        Err(_) => {
            return Err(AuthError::ServerCryptoInformation);
        },
    };
    Ok(ServerCrypto { generator, large_safe_prime: prime, server_public_key })
}

/// Answers the logon challenge: a successful reply whose parameters pass
/// `check_logon_challenge` and on which `wow_srp` can compute safely starts the SRP
/// computation for the account; anything else is refused as invalid crypto information.
pub fn start_logon(username: NormalizedString, password: NormalizedString, reply: LogonChallengeReply) -> (res:
    Result<LogonProof, AuthError>)
    requires
        reply matches LogonChallengeReply::Success { generator, .. } ==> generator@.len() > 0,
    ensures
        reply is Failure ==> res is Err,
        reply matches LogonChallengeReply::Success { generator, large_safe_prime, server_public_key, .. }
            ==> (res is Ok <==> large_safe_prime@.len() == KEY_LENGTH && public_key_accepted(
            server_public_key@,
        ) && srp_parameters_safe(generator@[0], large_safe_prime@)),
        reply matches LogonChallengeReply::Success {
            generator,
            large_safe_prime,
            salt,
            server_public_key,
        } ==> (res matches Ok(p) ==> p.challenge == srp_challenge_of(
            normalized_text(username),
            normalized_text(password),
            generator@[0],
            large_safe_prime@,
            server_public_key@,
            salt@,
            challenge_private_key(p.challenge),
        ) && challenge_private_key(p.challenge).len() == 32),
        res matches Err(e) ==> e == AuthError::ServerCryptoInformation,
        res matches Ok(p) ==> p.client_public_key@ == challenge_public_key(p.challenge)
            && p.client_proof@ == challenge_client_proof(p.challenge),
{
    match reply {
        LogonChallengeReply::Success { generator, large_safe_prime, salt, server_public_key } => {
            let crypto = check_logon_challenge(
                generator.as_slice(),
                large_safe_prime.as_slice(),
                server_public_key,
            )?;
            if crypto.generator == 0 || !is_wow_srp_prime(&crypto.large_safe_prime) {
                return Err(AuthError::ServerCryptoInformation);
            }
            let challenge = srp_client_challenge(
                username,
                password,
                crypto.generator,
                crypto.large_safe_prime,
                crypto.server_public_key,
                salt,
            );
            let client_public_key = srp_client_public_key(&challenge);
            let client_proof = srp_client_proof(&challenge);
            Ok(LogonProof { challenge, client_public_key, client_proof })
        },
        LogonChallengeReply::Failure => Err(AuthError::ServerCryptoInformation),
    }
}

/// Checks the server's proof: the logon succeeds with the session key that the SRP
/// challenge computed exactly when the server sent the proof that the challenge
/// expects; any refusal or wrong proof fails verification.
pub fn finish_logon(challenge: SrpClientChallenge, reply: LogonProofReply) -> (res: Result<
    [u8; 40],
    AuthError,
>)
    ensures
        reply is Failure ==> res is Err,
        reply matches LogonProofReply::Success { server_proof } ==> (res is Ok <==> server_proof@
            == challenge_server_proof(challenge)),
        res matches Ok(key) ==> key@ == challenge_session_key(challenge),
        res matches Err(e) ==> e == AuthError::ServerVerificationFailed,
{
    match reply {
        LogonProofReply::Success { server_proof } => {
            match srp_verify_server_proof(challenge, server_proof) {
                Ok(client) => Ok(srp_session_key(&client)),
                Err(_) => Err(AuthError::ServerVerificationFailed),
            }
        },
        LogonProofReply::Failure => Err(AuthError::ServerVerificationFailed),
    }
}

/// The session that a successful login leaves: the session key, no realm chosen yet,
/// the listed realms and the account's name.
pub fn auth_session(session_key: [u8; 40], realms: Vec<Realm>, username: NormalizedString) -> (s:
    AuthSession)
    ensures
        s.session_key == session_key,
        s.realm_id is None,
        s.realms@ == realms@,
        s.username == username,
{
    AuthSession { session_key, realm_id: None, realms, username }
}

} // verus!
