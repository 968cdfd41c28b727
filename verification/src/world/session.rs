use vstd::prelude::*;

use wow_srp::normalized_string::NormalizedString;
use wow_srp::vanilla_header::{HeaderCrypto, ProofSeed};

use crate::auth::server::normalized_text;
use crate::auth::AuthSession;
use crate::crypto::sha1randx::sha1_hash;
use crate::warden::packet::u32_le_bytes;
use crate::warden::{initial_warden, Warden};
use crate::world::auth::handshake_body_size;

verus! {

#[verifier::external_type_specification]
#[verifier::external_body]
pub struct ExProofSeed(ProofSeed);

#[verifier::external_type_specification]
#[verifier::external_body]
pub struct ExHeaderCrypto(HeaderCrypto);

/// The value of a proof seed.
pub uninterp spec fn proof_seed_u32(seed: ProofSeed) -> u32;

/// The header cipher that `wow_srp` sets up for a session key, before any header went
/// through it.
pub uninterp spec fn fresh_header_crypto(session_key: Seq<u8>) -> HeaderCrypto;

/// The bytes of an ASCII text.
pub open spec fn ascii_bytes(s: Seq<char>) -> Seq<u8> {
    s.map_values(|c: char| c as u8)
}

/// The client's world proof: the SHA-1 digest of the account name, four zero bytes, the
/// client seed, the server seed (both little endian) and the session key.
pub open spec fn world_proof(username: Seq<char>, session_key: Seq<u8>, server_seed: u32, client_seed: u32) -> Seq<u8> {
    sha1_hash(
        ascii_bytes(username) + u32_le_bytes(0) + u32_le_bytes(client_seed) + u32_le_bytes(server_seed)
            + session_key,
    )
}

/// Calls `wow_srp::vanilla_header::ProofSeed::new`, which draws a random seed. Nothing
/// is claimed of it.
#[verifier::external_body]
fn new_proof_seed() -> ProofSeed {
    ProofSeed::new()
}

/// Calls `ProofSeed::seed`: the value that the seed holds.
#[verifier::external_body]
fn proof_seed_value(seed: &ProofSeed) -> (res: u32)
    ensures
        res == proof_seed_u32(*seed),
{
    seed.seed()
}

/// Calls `ProofSeed::into_client_header_crypto`. Claims that the proof is `world_proof`
/// of the account name, the session key, the server seed and the seed's value (SHA-1 as
/// `sha1_hash` names it), and that the header cipher is the fresh one for the session key.
#[verifier::external_body]
fn into_client_header_crypto(
    seed: ProofSeed,
    username: &NormalizedString,
    session_key: [u8; 40],
    server_seed: u32,
) -> (res: ([u8; 20], HeaderCrypto))
    ensures
        res.0@ == world_proof(normalized_text(*username), session_key@, server_seed, proof_seed_u32(seed)),
        res.1 == fresh_header_crypto(session_key@),
{
    seed.into_client_header_crypto(username, session_key, server_seed)
}

/// The size and opcode fields of an encrypted server header that the header cipher `c`
/// decrypts.
pub uninterp spec fn server_header_fields(c: HeaderCrypto, header: Seq<u8>) -> (u16, u16);

/// The header cipher `c` after it decrypted a server header.
pub uninterp spec fn header_crypto_after(c: HeaderCrypto, header: Seq<u8>) -> HeaderCrypto;

/// Calls `HeaderCrypto::decrypt_server_header` and hands out the header's size and
/// opcode fields. Claims that the fields and the cipher's next state are functions of
/// the cipher's state and the header alone.
#[verifier::external_body]
fn decrypt_server_header(crypto: &mut HeaderCrypto, header: [u8; 4]) -> (res: (u16, u16))
    ensures
        res == server_header_fields(*old(crypto), header@),
        *final(crypto) == header_crypto_after(*old(crypto), header@),
{
    let h = crypto.decrypt_server_header(header);
    (h.size, h.opcode)
}

/// A client's world session: its Warden, the header cipher (which is not valid until the
/// world server accepted the session), the client seed and the client's proof.
pub struct WorldSession {
    pub warden: Warden,
    pub crypto: HeaderCrypto,
    pub seed: u32,
    pub proof: [u8; 20],
}

impl WorldSession {
    /// Opens a world session for `auth_session` with a fresh random client seed: the
    /// proof is derived from the account name, the session key, `server_seed` and that
    /// seed; the header cipher and Warden are set up from the session key.
    pub fn new(auth_session: &AuthSession, server_seed: u32) -> (res: Self)
        ensures
            res.warden@ == initial_warden(auth_session.session_key@),
            res.proof@ == world_proof(
                normalized_text(auth_session.username),
                auth_session.session_key@,
                server_seed,
                res.seed,
            ),
            res.crypto == fresh_header_crypto(auth_session.session_key@),
    {
        let seed = new_proof_seed();
        let seed_value = proof_seed_value(&seed);
        let (client_proof, crypto) = into_client_header_crypto(
            seed,
            &auth_session.username,
            auth_session.session_key,
            server_seed,
        );

        let warden = Warden::new(&auth_session.session_key);

        WorldSession { warden, crypto, seed: seed_value, proof: client_proof }
    }
}

/// A decrypted world server header: its opcode, its size field and the size of the body
/// that follows.
pub struct ServerHeaderInfo {
    pub opcode: u16,
    pub size: u16,
    pub body_size: u32,
}

/// Decrypts the next server header with the session's header cipher and works out the
/// size of the body that follows it.
pub fn decode_server_header(crypto: &mut HeaderCrypto, header: [u8; 4]) -> (res: ServerHeaderInfo)
    ensures
        (res.size, res.opcode) == server_header_fields(*old(crypto), header@),
        *final(crypto) == header_crypto_after(*old(crypto), header@),
        res.body_size == (if res.size >= 2 { res.size - 2 } else { 0 }),
{
    let (size, opcode) = decrypt_server_header(crypto, header);
    let body_size = handshake_body_size(size);
    ServerHeaderInfo { opcode, size, body_size }
}

} // verus!
