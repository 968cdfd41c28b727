use vstd::arithmetic::div_mod::{lemma_mod_mod, lemma_mod_sub_multiples_vanish, lemma_small_mod};
use vstd::prelude::*;

verus! {

/// The abstract state of the cipher: the S-box and the two indices `i` and `j`.
pub type Sarc4State = (Seq<u8>, u8, u8);

/// `s` with the entries at `a` and `b` exchanged.
pub open spec fn seq_swap(s: Seq<u8>, a: int, b: int) -> Seq<u8> {
    s.update(a, s[b]).update(b, s[a])
}

/// The S-box before key scheduling: entry `k` holds `k`.
pub open spec fn identity_sbox() -> Seq<u8> {
    Seq::new(256, |k: int| k as u8)
}

/// Every byte value occurs in the 256-entry S-box, so it is a permutation of `0..=255`.
#[verifier::opaque]
pub open spec fn is_permutation(s: Seq<u8>) -> bool {
    &&& s.len() == 256
    &&& forall|v: u8| #[trigger] s.contains(v)
}

/// The S-box and the index `j` after the first `n` rounds of key scheduling.
pub open spec fn ksa_rounds(key: Seq<u8>, n: nat) -> (Seq<u8>, int)
    decreases n,
{
    if n == 0 {
        (identity_sbox(), 0)
    } else {
        let (s, j) = ksa_rounds(key, (n - 1) as nat);
        let i = n - 1;
        let j2 = (j + key[i % (key.len() as int)] + s[i]) % 256;
        (seq_swap(s, i, j2), j2)
    }
}

/// The cipher's state right after it was keyed with `key`.
pub open spec fn initial_state(key: Seq<u8>) -> Sarc4State {
    (ksa_rounds(key, 256).0, 0u8, 0u8)
}

/// One step of the keystream generator: the next state and the key byte it yields.
pub open spec fn prga_step(st: Sarc4State) -> (Sarc4State, u8) {
    let (s, i, j) = st;
    let i2 = ((i + 1) % 256) as u8;
    let j2 = ((j + s[i2 as int]) % 256) as u8;
    let s2 = seq_swap(s, i2 as int, j2 as int);
    let t = (s2[i2 as int] + s2[j2 as int]) % 256;
    ((s2, i2, j2), s2[t])
}

/// The state after `n` keystream bytes were drawn from `st`.
pub open spec fn advance(st: Sarc4State, n: nat) -> Sarc4State
    decreases n,
{
    if n == 0 {
        st
    } else {
        prga_step(advance(st, (n - 1) as nat)).0
    }
}

/// The first `n` keystream bytes that `st` yields.
pub open spec fn keystream(st: Sarc4State, n: nat) -> Seq<u8>
    decreases n,
{
    if n == 0 {
        Seq::empty()
    } else {
        keystream(st, (n - 1) as nat).push(prga_step(advance(st, (n - 1) as nat)).1)
    }
}

/// Byte-wise exclusive or of `a` with the matching prefix of `b`.
pub open spec fn xor_seq(a: Seq<u8>, b: Seq<u8>) -> Seq<u8> {
    Seq::new(a.len(), |k: int| a[k] ^ b[k])
}

/// An RC4 stream cipher as Warden uses it.
pub struct SARC4 {
    s: [u8; 256],
    i: u8,
    j: u8,
}

impl View for SARC4 {
    type V = Sarc4State;

    closed spec fn view(&self) -> Sarc4State {
        (self.s@, self.i, self.j)
    }
}

impl SARC4 {
    #[verifier::type_invariant]
    spec fn sbox_is_permutation(self) -> bool {
        is_permutation(self.s@)
    }

    /// Keys a new cipher with `key`.
    pub fn new(key: &[u8]) -> (res: Self)
        requires
            key@.len() > 0,
        ensures
            res@ == initial_state(key@),
            is_permutation(res@.0),
    {
        let mut s = [0u8; 256];
        let mut k: usize = 0;
        while k < 256
            invariant
                k <= 256,
                s@.len() == 256,
                forall|m: int| 0 <= m < k ==> s@[m] == m as u8,
            decreases 256 - k,
        {
            s[k] = k as u8;
            k = k + 1;
        }
        assert(s@ =~= identity_sbox());
        proof {
            lemma_identity_is_permutation();
        }

        let key_len = key.len();
        let mut j: usize = 0;
        let mut i: usize = 0;
        while i < 256
            invariant
                i <= 256,
                key_len == key@.len(),
                key_len > 0,
                j < 256,
                s@ == ksa_rounds(key@, i as nat).0,
                j == ksa_rounds(key@, i as nat).1,
                is_permutation(s@),
            decreases 256 - i,
        {
            let key_val = key[i % key_len] as usize;
            let sum: usize = j + key_val + s[i] as usize;
            assert(sum & 0xFF == sum % 256) by (bit_vector)
                requires
                    sum < 1024usize,
            ;
            j = sum & 0xFF;
            let ghost before = s@;
            let tmp = s[i];
            s[i] = s[j];
            s[j] = tmp;
            proof {
                assert(s@ =~= seq_swap(before, i as int, j as int));
                lemma_swap_keeps_permutation(before, i as int, j as int);
            }
            i = i + 1;
        }

        SARC4 { s, i: 0, j: 0 }
    }

    /// Encrypts or decrypts `data` in place: each byte is combined by exclusive or
    /// with the next byte of the keystream.
    pub fn process(&mut self, data: &mut [u8])
        ensures
            final(data)@ == xor_seq(old(data)@, keystream(old(self)@, old(data)@.len())),
            final(self)@ == advance(old(self)@, old(data)@.len()),
            is_permutation(final(self)@.0),
    {
        proof {
            use_type_invariant(&*self);
        }
        let ghost st0 = self@;
        let ghost d0 = data@;
        let mut s = self.s;
        let mut i = self.i;
        let mut j = self.j;
        let n = data.len();
        let mut k: usize = 0;
        while k < n
            invariant
                k <= n,
                n == data@.len(),
                d0.len() == n,
                (s@, i, j) == advance(st0, k as nat),
                is_permutation(s@),
                keystream(st0, k as nat).len() == k,
                forall|m: int| 0 <= m < k ==> data@[m] == d0[m] ^ keystream(st0, k as nat)[m],
                forall|m: int| k <= m < n ==> data@[m] == d0[m],
            decreases n - k,
        {
            let ghost ks = keystream(st0, k as nat);
            let key_byte = next_key_byte(&mut s, &mut i, &mut j);
            let b = data[k] ^ key_byte;
            data[k] = b;
            k = k + 1;
            assert(keystream(st0, k as nat) == ks.push(key_byte));
        }
        assert(data@ =~= xor_seq(d0, keystream(st0, n as nat)));
        self.s = s;
        self.i = i;
        self.j = j;
    }
}

/// Draws one keystream byte, updating the S-box and both indices.
fn next_key_byte(s: &mut [u8; 256], i: &mut u8, j: &mut u8) -> (key_byte: u8)
    requires
        is_permutation(old(s)@),
    ensures
        prga_step((old(s)@, *old(i), *old(j))) == ((final(s)@, *final(i), *final(j)), key_byte),
        is_permutation(final(s)@),
{
    let ghost before = s@;
    *i = (*i).wrapping_add(1);
    let i_idx = *i as usize;
    let s_i = s[i_idx];
    *j = (*j).wrapping_add(s_i);
    let j_idx = *j as usize;
    let tmp = s[i_idx];
    s[i_idx] = s[j_idx];
    s[j_idx] = tmp;
    proof {
        assert(s@ =~= seq_swap(before, i_idx as int, j_idx as int));
        lemma_swap_keeps_permutation(before, i_idx as int, j_idx as int);
    }
    let t = s[i_idx].wrapping_add(s[j_idx]) as usize;
    assert(i_idx == (*old(i) + 1) % 256);
    assert(j_idx == (*old(j) + before[i_idx as int]) % 256);
    assert(t == (s@[i_idx as int] + s@[j_idx as int]) % 256);
    s[t]
}

/// The identity S-box is a permutation.
proof fn lemma_identity_is_permutation()
    ensures
        is_permutation(identity_sbox()),
{
    reveal(is_permutation);
    let s = identity_sbox();
    assert forall|v: u8| #[trigger] s.contains(v) by {
        assert(s[v as int] == v);
    }
}

/// Exchanging two entries of a permutation gives a permutation.
pub proof fn lemma_swap_keeps_permutation(s: Seq<u8>, a: int, b: int)
    requires
        is_permutation(s),
        0 <= a < 256,
        0 <= b < 256,
    ensures
        is_permutation(seq_swap(s, a, b)),
{
    reveal(is_permutation);
    let t = seq_swap(s, a, b);
    assert forall|v: u8| #[trigger] t.contains(v) by {
        assert(s.contains(v));
        let k = choose|k: int| 0 <= k < s.len() && s[k] == v;
        if k == a {
            assert(t[b] == v);
        } else if k == b {
            assert(t[a] == v);
        } else {
            assert(t[k] == v);
        }
    }
}

/// The keystream drawn from a state has as many bytes as were asked for.
pub proof fn lemma_keystream_len(st: Sarc4State, n: nat)
    ensures
        keystream(st, n).len() == n,
    decreases n,
{
    if n > 0 {
        lemma_keystream_len(st, (n - 1) as nat);
    }
}

/// Drawing `m` keystream bytes and then `n` more is the same as drawing `m + n` bytes:
/// the bytes come out in one stream and the cipher ends in the same state.
pub proof fn lemma_keystream_concat(st: Sarc4State, m: nat, n: nat)
    ensures
        advance(st, m + n) == advance(advance(st, m), n),
        keystream(st, m + n) == keystream(st, m) + keystream(advance(st, m), n),
    decreases n,
{
    if n == 0 {
        assert(keystream(st, m) + keystream(advance(st, m), 0) =~= keystream(st, m));
    } else {
        lemma_keystream_concat(st, m, (n - 1) as nat);
        assert((m + n - 1) as nat == m + (n - 1) as nat);
        assert(keystream(st, m + n) =~= keystream(st, m) + keystream(advance(st, m), n));
    }
}

/// Running the cipher over `a` and then over `b` gives the same bytes and the same
/// final state as running it over `a + b` at once.
pub proof fn lemma_process_in_pieces(st: Sarc4State, a: Seq<u8>, b: Seq<u8>)
    ensures
        xor_seq(a + b, keystream(st, (a.len() + b.len()) as nat)) == xor_seq(a, keystream(st, a.len()))
            + xor_seq(b, keystream(advance(st, a.len()), b.len())),
        advance(st, (a.len() + b.len()) as nat) == advance(advance(st, a.len()), b.len()),
{
    let m = a.len();
    let n = b.len();
    let ks = keystream(st, (m + n) as nat);
    let k1 = keystream(st, m);
    let k2 = keystream(advance(st, m), n);
    lemma_keystream_concat(st, m, n);
    lemma_keystream_len(st, m);
    lemma_keystream_len(advance(st, m), n);
    assert(ks == k1 + k2);
    let lhs = xor_seq(a + b, ks);
    let rhs = xor_seq(a, k1) + xor_seq(b, k2);
    assert forall|k: int| 0 <= k < m + n implies #[trigger] lhs[k] == rhs[k] by {
        if k < m {
            assert(ks[k] == k1[k]);
        } else {
            assert(ks[k] == k2[k - m]);
        }
    }
    assert(lhs =~= rhs);
}

/// Two ciphers in the same state undo each other: what one encrypts, the other decrypts.
pub proof fn lemma_process_twice_restores(st: Sarc4State, data: Seq<u8>)
    ensures
        xor_seq(xor_seq(data, keystream(st, data.len())), keystream(st, data.len())) == data,
{
    let ks = keystream(st, data.len());
    lemma_keystream_len(st, data.len());
    assert forall|k: int| 0 <= k < data.len() implies #[trigger] xor_seq(xor_seq(data, ks), ks)[k] == data[k] by {
        let x = data[k];
        let y = ks[k];
        assert((x ^ y) ^ y == x) by (bit_vector);
    }
    assert(xor_seq(xor_seq(data, ks), ks) =~= data);
}

/// Each keystream byte moves the index `i` on by one, wrapping after 255: after `n`
/// bytes, `i` has advanced by `n` modulo 256.
pub proof fn lemma_index_counts_bytes(st: Sarc4State, n: nat)
    ensures
        advance(st, n).1 == (st.1 + n) % 256,
    decreases n,
{
    if n > 0 {
        lemma_index_counts_bytes(st, (n - 1) as nat);
        let x = st.1 + n - 1;
        assert(((x % 256) + 1) % 256 == (x + 1) % 256) by {
            assert(x % 256 + 1 <= 256);
            if x % 256 == 255 {
                assert((x + 1) % 256 == 0);
            } else {
                assert((x + 1) % 256 == x % 256 + 1);
            }
        }
    }
}

/// A freshly keyed cipher has drawn `n` keystream bytes when its index `i` is `n`
/// modulo 256.
pub proof fn lemma_fresh_index_counts_bytes(key: Seq<u8>, n: nat)
    ensures
        advance(initial_state(key), n).1 == n % 256,
{
    lemma_index_counts_bytes(initial_state(key), n);
}

/// The key schedule cycles through the whole key: a key and the same key written twice
/// run through the same rounds.
pub proof fn lemma_ksa_rounds_repeated_key(key: Seq<u8>, n: nat)
    requires
        key.len() > 0,
    ensures
        ksa_rounds(key, n) == ksa_rounds(key + key, n),
    decreases n,
{
    if n > 0 {
        lemma_ksa_rounds_repeated_key(key, (n - 1) as nat);
        let l = key.len() as int;
        let i = n - 1;
        let kk = key + key;
        assert(kk.len() == 2 * l);
        lemma_mod_mod(i, l, 2);
        let r = i % (2 * l);
        assert(0 <= r < 2 * l);
        assert(r % l == i % l);
        if r < l {
            lemma_small_mod(r as nat, l as nat);
            assert(kk[r] == key[r]);
        } else {
            lemma_mod_sub_multiples_vanish(r, l);
            lemma_small_mod((r - l) as nat, l as nat);
            assert(kk[r] == key[r - l]);
        }
        assert(kk[i % (kk.len() as int)] == key[i % l]);
    }
}

/// Keying the cipher with a key or with that key written twice gives the same cipher:
/// every key byte takes part in the key schedule, in turn.
pub proof fn lemma_repeated_key_same_cipher(key: Seq<u8>)
    requires
        key.len() > 0,
    ensures
        initial_state(key) == initial_state(key + key),
{
    lemma_ksa_rounds_repeated_key(key, 256);
}

} // verus!
