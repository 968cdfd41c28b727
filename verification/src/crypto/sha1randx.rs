use sha1::{Digest, Sha1};
use vstd::prelude::*;

verus! {

/// The SHA-1 digest of `data`, as the `sha1` crate computes it.
pub uninterp spec fn sha1_hash(data: Seq<u8>) -> Seq<u8>;

/// Calls `Digest::digest` of `sha1::Sha1`. Claims that the 20 bytes it returns are
/// `sha1_hash(data@)`, a function of `data` alone.
#[verifier::external_body]
fn sha1_digest(data: &[u8]) -> (res: [u8; 20])
    ensures
        res@ == sha1_hash(data@),
{
    Sha1::digest(data).into()
}

/// The abstract state of the generator: how many bytes of the current block were
/// handed out, the current block `o0`, and the two seed digests `o1` and `o2`.
pub type RandxState = (int, Seq<u8>, Seq<u8>, Seq<u8>);

/// Twenty zero bytes.
pub open spec fn zero_block() -> Seq<u8> {
    Seq::new(20, |k: int| 0u8)
}

/// The block that follows `o0`: the digest of `o1`, `o0` and `o2` in that order.
pub open spec fn next_block(o0: Seq<u8>, o1: Seq<u8>, o2: Seq<u8>) -> Seq<u8> {
    sha1_hash(o1 + o0 + o2)
}

/// The state of a generator seeded with `buff`: its two halves are hashed into `o1`
/// and `o2`, and the first block follows a block of zeros.
pub open spec fn seeded_state(buff: Seq<u8>) -> RandxState {
    let half = buff.len() / 2;
    let o1 = sha1_hash(buff.subrange(0, half as int));
    let o2 = sha1_hash(buff.subrange(half as int, buff.len() as int));
    (0, next_block(zero_block(), o1, o2), o1, o2)
}

/// One output byte: the next byte of the current block, after moving on to the next
/// block once all twenty bytes were taken.
pub open spec fn randx_step(st: RandxState) -> (RandxState, u8) {
    let (taken, o0, o1, o2) = st;
    if taken >= 20 {
        let block = next_block(o0, o1, o2);
        ((1, block, o1, o2), block[0])
    } else {
        ((taken + 1, o0, o1, o2), o0[taken])
    }
}

/// The state after `n` bytes were generated from `st`.
pub open spec fn randx_advance(st: RandxState, n: nat) -> RandxState
    decreases n,
{
    if n == 0 {
        st
    } else {
        randx_step(randx_advance(st, (n - 1) as nat)).0
    }
}

/// The first `n` bytes that `st` generates.
pub open spec fn randx_stream(st: RandxState, n: nat) -> Seq<u8>
    decreases n,
{
    if n == 0 {
        Seq::empty()
    } else {
        randx_stream(st, (n - 1) as nat).push(randx_step(randx_advance(st, (n - 1) as nat)).1)
    }
}

/// A deterministic byte generator built on SHA-1, seeded with a session key.
pub struct Sha1Randx {
    taken: usize,
    o0: [u8; 20],
    o1: [u8; 20],
    o2: [u8; 20],
}

impl View for Sha1Randx {
    type V = RandxState;

    closed spec fn view(&self) -> RandxState {
        (self.taken as int, self.o0@, self.o1@, self.o2@)
    }
}

impl Sha1Randx {
    #[verifier::type_invariant]
    spec fn taken_in_block(self) -> bool {
        self.taken <= 20
    }

    /// Seeds a generator with `buff`.
    pub fn new(buff: &[u8]) -> (res: Self)
        ensures
            res@ == seeded_state(buff@),
    {
        let half_size = buff.len() / 2;
        let first_half = &buff[0..half_size];
        let second_half = &buff[half_size..buff.len()];

        let o1 = sha1_digest(first_half);
        let o2 = sha1_digest(second_half);
        let o0 = [0u8; 20];
        assert(o0@ =~= zero_block());

        let mut rng = Sha1Randx { taken: 0, o0, o1, o2 };
        rng.fill_up();
        rng
    }

    /// Fills `buf` with the next bytes of the stream.
    pub fn generate(&mut self, buf: &mut [u8])
        ensures
            final(buf)@ == randx_stream(old(self)@, old(buf)@.len()),
            final(self)@ == randx_advance(old(self)@, old(buf)@.len()),
            0 <= final(self)@.0 <= 20,
    {
        let ghost st0 = self@;
        let n = buf.len();
        let mut k: usize = 0;
        while k < n
            invariant
                k <= n,
                n == buf@.len(),
                self@ == randx_advance(st0, k as nat),
                randx_stream(st0, k as nat).len() == k,
                forall|m: int| 0 <= m < k ==> buf@[m] == randx_stream(st0, k as nat)[m],
            decreases n - k,
        {
            proof {
                use_type_invariant(&*self);
            }
            let ghost before = self@;
            let ghost out = randx_stream(st0, k as nat);
            if self.taken == 20 {
                self.fill_up();
            }
            buf[k] = self.o0[self.taken];
            self.taken = self.taken + 1;
            assert(randx_step(before) == (self@, buf@[k as int]));
            k = k + 1;
            assert(randx_stream(st0, k as nat) == out.push(buf@[k - 1]));
        }
        assert(buf@ =~= randx_stream(st0, n as nat));
        proof {
            use_type_invariant(&*self);
        }
    }

    /// Moves on to the next block.
    fn fill_up(&mut self)
        ensures
            final(self)@ == (0int, next_block(old(self)@.1, old(self)@.2, old(self)@.3), old(self)@.2, old(self)@.3),
    {
        proof {
            use_type_invariant(&*self);
        }
        let mut input: Vec<u8> = Vec::new();
        input.extend_from_slice(&self.o1);
        input.extend_from_slice(&self.o0);
        input.extend_from_slice(&self.o2);
        assert(input@ =~= self.o1@ + self.o0@ + self.o2@);
        self.o0 = sha1_digest(input.as_slice());
        self.taken = 0;
    }
}

/// The generator hands out exactly as many bytes as were asked for.
pub proof fn lemma_randx_stream_len(st: RandxState, n: nat)
    ensures
        randx_stream(st, n).len() == n,
    decreases n,
{
    if n > 0 {
        lemma_randx_stream_len(st, (n - 1) as nat);
    }
}

/// Generating `m` bytes and then `n` more gives the same bytes, in the same order, and
/// leaves the generator in the same state as generating `m + n` bytes at once.
pub proof fn lemma_randx_stream_concat(st: RandxState, m: nat, n: nat)
    ensures
        randx_advance(st, m + n) == randx_advance(randx_advance(st, m), n),
        randx_stream(st, m + n) == randx_stream(st, m) + randx_stream(randx_advance(st, m), n),
    decreases n,
{
    if n == 0 {
        assert(randx_stream(st, m) + randx_stream(randx_advance(st, m), 0) =~= randx_stream(st, m));
    } else {
        lemma_randx_stream_concat(st, m, (n - 1) as nat);
        assert((m + n - 1) as nat == m + (n - 1) as nat);
        assert(randx_stream(st, m + n) =~= randx_stream(st, m) + randx_stream(randx_advance(st, m), n));
    }
}

/// Inside a block, the generator hands out the block's bytes in order.
pub proof fn lemma_randx_within_block(st: RandxState, n: nat)
    requires
        0 <= st.0,
        st.0 + n <= 20,
    ensures
        randx_advance(st, n) == (st.0 + n, st.1, st.2, st.3),
        randx_stream(st, n).len() == n,
        forall|k: int| 0 <= k < n ==> #[trigger] randx_stream(st, n)[k] == st.1[st.0 + k],
    decreases n,
{
    if n > 0 {
        lemma_randx_within_block(st, (n - 1) as nat);
    }
}

/// What a generator seeded with `buff` hands out first: with `d1` and `d2` the SHA-1
/// digests of the first and the second half of the whole seed (the first half has
/// `buff.len() / 2` bytes), bytes 0 to 19 are the digest of `d1`, twenty zero bytes and
/// `d2`, and bytes 20 to 39 are the digest of `d1`, that first block and `d2`.
pub proof fn lemma_seeded_first_blocks(buff: Seq<u8>)
    ensures
        ({
            let h = buff.len() / 2;
            let d1 = sha1_hash(buff.subrange(0, h as int));
            let d2 = sha1_hash(buff.subrange(h as int, buff.len() as int));
            let b1 = sha1_hash(d1 + Seq::new(20, |k: int| 0u8) + d2);
            let b2 = sha1_hash(d1 + b1 + d2);
            let out = randx_stream(seeded_state(buff), 40);
            &&& out.len() == 40
            &&& forall|k: int| 0 <= k < 20 ==> #[trigger] out[k] == b1[k]
            &&& forall|k: int| 0 <= k < 20 ==> #[trigger] out[20 + k] == b2[k]
        }),
{
    let h = buff.len() / 2;
    let d1 = sha1_hash(buff.subrange(0, h as int));
    let d2 = sha1_hash(buff.subrange(h as int, buff.len() as int));
    let b1 = sha1_hash(d1 + Seq::new(20, |k: int| 0u8) + d2);
    let b2 = sha1_hash(d1 + b1 + d2);
    assert(zero_block() =~= Seq::new(20, |k: int| 0u8));
    let st0 = seeded_state(buff);
    assert(st0 == (0int, b1, d1, d2));

    lemma_randx_within_block(st0, 20);
    let st20 = randx_advance(st0, 20);
    assert(st20 == (20int, b1, d1, d2));
    assert(randx_advance(st20, 0) == st20);
    assert(randx_step(st20) == ((1int, b2, d1, d2), b2[0]));
    let st21 = randx_advance(st20, 1);
    assert(st21 == (1int, b2, d1, d2));
    assert(randx_stream(st20, 0) =~= Seq::<u8>::empty());
    assert(randx_stream(st20, 1) =~= seq![b2[0]]);
    lemma_randx_within_block(st21, 19);
    lemma_randx_stream_concat(st20, 1, 19);
    lemma_randx_stream_concat(st0, 20, 20);
    let first = randx_stream(st0, 20);
    let second = randx_stream(st20, 20);
    assert(second == seq![b2[0]] + randx_stream(st21, 19));
    let out = randx_stream(st0, 40);
    assert(out == first + second);
    assert forall|k: int| 0 <= k < 20 implies #[trigger] out[20 + k] == b2[k] by {
        if k == 0 {
            assert(second[0] == b2[0]);
        } else {
            assert(second[k] == randx_stream(st21, 19)[k - 1]);
        }
    }
}

} // verus!
