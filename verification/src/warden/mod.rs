//! Warden: the client-side anti-cheat handshake.

use vstd::prelude::*;

pub mod crypt;
pub mod error;
pub mod packet;

pub use crypt::WardenCrypt;
pub use error::WardenError;
pub use packet::WardenPacket;

use crate::crypto::sarc4::{
    advance, initial_state, keystream, lemma_process_twice_restores, xor_seq, Sarc4State,
};
use crate::error::NetError;
use crate::crypto::sha1randx::sha1_hash;
use crate::warden::crypt::{lemma_session_cipher_keys, session_cipher_keys};
use crate::warden::packet::{
    lemma_module_use_roundtrip, module_use_bytes, parse_result_matches, parse_spec, serialize_spec,
    MODULE_USE_OPCODE,
};

verus! {

/// The client's side of the Warden exchange.
pub struct Warden {
    crypt: WardenCrypt,
}

impl View for Warden {
    /// The state of the input cipher and the state of the output cipher.
    type V = (Sarc4State, Sarc4State);

    closed spec fn view(&self) -> (Sarc4State, Sarc4State) {
        self.crypt@
    }
}

/// The plain bytes of an encrypted packet that the input cipher in state `st` receives.
pub open spec fn decrypted_bytes(st: Sarc4State, encrypted: Seq<u8>) -> Seq<u8> {
    xor_seq(encrypted, keystream(st, encrypted.len()))
}

/// The bytes on the wire for a packet that the output cipher in state `st` sends.
pub open spec fn encrypted_packet(st: Sarc4State, packet: WardenPacket) -> Seq<u8> {
    xor_seq(serialize_spec(packet), keystream(st, serialize_spec(packet).len()))
}

/// The state of Warden right after it was set up with `session_key`: the input cipher
/// is keyed with the second generated key, the output cipher with the first.
pub open spec fn initial_warden(session_key: Seq<u8>) -> (Sarc4State, Sarc4State) {
    (initial_state(session_cipher_keys(session_key).1), initial_state(session_cipher_keys(session_key).0))
}

impl Warden {
    /// Sets up Warden for a session.
    pub fn new(session_key: &[u8; 40]) -> (res: Self)
        ensures
            res@ == initial_warden(session_key@),
    {
        Warden { crypt: WardenCrypt::new(session_key) }
    }

    /// Decrypts and reads an encrypted packet from the server. The whole packet passes
    /// through the input cipher, whatever part of it is read.
    pub fn decrypt_packet(&mut self, encrypted_data: Vec<u8>) -> (res: Result<WardenPacket, NetError>)
        ensures
            parse_result_matches(res, parse_spec(decrypted_bytes(old(self)@.0, encrypted_data@))),
            final(self)@.0 == advance(old(self)@.0, encrypted_data@.len()),
            final(self)@.1 == old(self)@.1,
    {
        let decrypted = self.raw_decrypt_packet(encrypted_data);
        WardenPacket::parse(decrypted.as_slice())
    }

    /// Serializes `packet` and encrypts it for the server.
    pub fn encrypt_packet(&mut self, packet: WardenPacket) -> (data: Vec<u8>)
        ensures
            data@ == encrypted_packet(old(self)@.1, packet),
            final(self)@.1 == advance(old(self)@.1, serialize_spec(packet).len()),
            final(self)@.0 == old(self)@.0,
    {
        let mut data = packet.serialize();
        self.crypt.encrypt(data.as_mut_slice());
        data
    }

    /// Decrypts an encrypted packet from the server without reading it.
    pub fn raw_decrypt_packet(&mut self, data: Vec<u8>) -> (res: Vec<u8>)
        ensures
            res@ == decrypted_bytes(old(self)@.0, data@),
            final(self)@.0 == advance(old(self)@.0, data@.len()),
            final(self)@.1 == old(self)@.1,
    {
        let mut data = data;
        self.crypt.decrypt(data.as_mut_slice());
        data
    }
}

/// A packet that the output cipher in state `st` encrypts is decrypted by an input
/// cipher in the same state back to its serialized bytes.
pub proof fn lemma_decrypt_inverts_encrypt(st: Sarc4State, packet: WardenPacket)
    ensures
        decrypted_bytes(st, encrypted_packet(st, packet)) == serialize_spec(packet),
{
    lemma_process_twice_restores(st, serialize_spec(packet));
}

/// A module-use packet that a peer encrypts with a cipher in the same state as the
/// client's input cipher is read back by the client as the fields it was written from.
pub proof fn lemma_module_use_received(st: Sarc4State, module_id: Seq<u8>, module_key: Seq<u8>, size: u32)
    requires
        module_id.len() == 16,
        module_key.len() == 16,
    ensures
        ({
            let plain = module_use_bytes(MODULE_USE_OPCODE, module_id, module_key, size);
            parse_spec(decrypted_bytes(st, xor_seq(plain, keystream(st, plain.len()))))
                == Ok::<(Seq<u8>, Seq<u8>, u32), NetError>((module_id, module_key, size))
        }),
{
    let plain = module_use_bytes(MODULE_USE_OPCODE, module_id, module_key, size);
    lemma_process_twice_restores(st, plain);
    assert(xor_seq(plain, keystream(st, plain.len())).len() == plain.len());
    lemma_module_use_roundtrip(module_id, module_key, size);
}

/// Which key each of Warden's ciphers gets: with `b1` and `b2` the first two blocks of
/// the generator seeded with the session key (see `lemma_session_cipher_keys`), the
/// output cipher is keyed with the first sixteen bytes of `b1`, and the input cipher with
/// the last four bytes of `b1` followed by the first twelve bytes of `b2`.
pub proof fn lemma_warden_cipher_keys(session_key: Seq<u8>)
    ensures
        ({
            let h = session_key.len() / 2;
            let d1 = sha1_hash(session_key.subrange(0, h as int));
            let d2 = sha1_hash(session_key.subrange(h as int, session_key.len() as int));
            let b1 = sha1_hash(d1 + Seq::new(20, |k: int| 0u8) + d2);
            let b2 = sha1_hash(d1 + b1 + d2);
            &&& initial_warden(session_key).1 == initial_state(Seq::new(16, |k: int| b1[k]))
            &&& initial_warden(session_key).0 == initial_state(
                Seq::new(16, |k: int| if k < 4 { b1[16 + k] } else { b2[k - 4] }),
            )
        }),
{
    lemma_session_cipher_keys(session_key);
}

} // verus!
