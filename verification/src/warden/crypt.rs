use vstd::prelude::*;

use crate::crypto::sarc4::{Sarc4State, initial_state, keystream, advance, xor_seq, SARC4};
use crate::crypto::sha1randx::{
    lemma_seeded_first_blocks, randx_stream, seeded_state, lemma_randx_stream_concat, lemma_randx_stream_len,
    sha1_hash, Sha1Randx,
};

verus! {

/// The two 16-byte cipher keys that a session key yields: the first and the second
/// sixteen bytes that a generator seeded with the session key hands out.
pub open spec fn session_cipher_keys(session_key: Seq<u8>) -> (Seq<u8>, Seq<u8>) {
    let bytes = randx_stream(seeded_state(session_key), 32);
    (bytes.subrange(0, 16), bytes.subrange(16, 32))
}

/// The pair of stream ciphers that protects Warden traffic: `input` decrypts what the
/// server sends, `output` encrypts what the client sends.
pub struct WardenCrypt {
    input: SARC4,
    output: SARC4,
}

impl View for WardenCrypt {
    /// The state of the input cipher and the state of the output cipher.
    type V = (Sarc4State, Sarc4State);

    closed spec fn view(&self) -> (Sarc4State, Sarc4State) {
        (self.input@, self.output@)
    }
}

impl WardenCrypt {
    /// Derives both ciphers from `session_key`: the output cipher is keyed with the
    /// first generated key, the input cipher with the second.
    pub fn new(session_key: &[u8]) -> (res: Self)
        ensures
            res@.0 == initial_state(session_cipher_keys(session_key@).1),
            res@.1 == initial_state(session_cipher_keys(session_key@).0),
    {
        let mut rng = Sha1Randx::new(session_key);
        let ghost seed = rng@;

        let mut key_a = [0u8; 16];
        let mut key_b = [0u8; 16];
        rng.generate(&mut key_a);
        rng.generate(&mut key_b);
        proof {
            lemma_randx_stream_concat(seed, 16, 16);
            lemma_randx_stream_len(seed, 16);
            let bytes = randx_stream(seed, 32);
            assert(bytes.subrange(0, 16) =~= key_a@);
            assert(bytes.subrange(16, 32) =~= key_b@);
        }

        let input_key = key_b;
        let output_key = key_a;

        WardenCrypt { input: SARC4::new(&input_key), output: SARC4::new(&output_key) }
    }

    /// Decrypts `data` in place with the input cipher.
    pub fn decrypt(&mut self, data: &mut [u8])
        ensures
            final(data)@ == xor_seq(old(data)@, keystream(old(self)@.0, old(data)@.len())),
            final(self)@.0 == advance(old(self)@.0, old(data)@.len()),
            final(self)@.1 == old(self)@.1,
    {
        self.input.process(data);
    }

    /// Encrypts `data` in place with the output cipher.
    pub fn encrypt(&mut self, data: &mut [u8])
        ensures
            final(data)@ == xor_seq(old(data)@, keystream(old(self)@.1, old(data)@.len())),
            final(self)@.1 == advance(old(self)@.1, old(data)@.len()),
            final(self)@.0 == old(self)@.0,
    {
        self.output.process(data);
    }
}

/// The two cipher keys of a session, spelled out: with `d1` and `d2` the SHA-1 digests of
/// the two halves of the session key and `b1`, `b2` the generator's first two blocks,
/// the first key is the first sixteen bytes of `b1`, and the second key is the last four
/// bytes of `b1` followed by the first twelve bytes of `b2`.
pub proof fn lemma_session_cipher_keys(session_key: Seq<u8>)
    ensures
        ({
            let h = session_key.len() / 2;
            let d1 = sha1_hash(session_key.subrange(0, h as int));
            let d2 = sha1_hash(session_key.subrange(h as int, session_key.len() as int));
            let b1 = sha1_hash(d1 + Seq::new(20, |k: int| 0u8) + d2);
            let b2 = sha1_hash(d1 + b1 + d2);
            &&& session_cipher_keys(session_key).0 == Seq::new(16, |k: int| b1[k])
            &&& session_cipher_keys(session_key).1 == Seq::new(
                16,
                |k: int|
                    if k < 4 {
                        b1[16 + k]
                    } else {
                        b2[k - 4]
                    },
            )
        }),
{
    let h = session_key.len() / 2;
    let d1 = sha1_hash(session_key.subrange(0, h as int));
    let d2 = sha1_hash(session_key.subrange(h as int, session_key.len() as int));
    let b1 = sha1_hash(d1 + Seq::new(20, |k: int| 0u8) + d2);
    let b2 = sha1_hash(d1 + b1 + d2);
    lemma_seeded_first_blocks(session_key);
    let st = seeded_state(session_key);
    lemma_randx_stream_concat(st, 32, 8);
    lemma_randx_stream_len(st, 32);
    let out = randx_stream(st, 40);
    let bytes = randx_stream(st, 32);
    assert forall|k: int| 0 <= k < 32 implies #[trigger] bytes[k] == out[k] by {}
    let keys = session_cipher_keys(session_key);
    assert forall|k: int| 0 <= k < 16 implies #[trigger] keys.1[k] == (if k < 4 {
        b1[16 + k]
    } else {
        b2[k - 4]
    }) by {
        assert(keys.1[k] == bytes[16 + k]);
        if k >= 4 {
            assert(out[20 + (k - 4)] == b2[k - 4]);
        }
    }
    assert(keys.0 =~= Seq::new(16, |k: int| b1[k]));
    assert(keys.1 =~= Seq::new(16, |k: int| if k < 4 { b1[16 + k] } else { b2[k - 4] }));
}

} // verus!
