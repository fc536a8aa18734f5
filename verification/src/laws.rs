//! General laws of the sponge model, stated and proved once and used both by
//! the implementation proofs and by callers.

use vstd::prelude::*;
use crate::model::{
    absorb_byte, absorb_bytes, get_byte, keccak_f, pad_permute, sponge_digest, squeeze_bytes,
    xor_byte, zero_lanes,
};

verus! {

/// Streaming equivalence: absorbing `a` and then `b` leaves the sponge in
/// exactly the state reached by absorbing the concatenation `a + b` in one
/// call, whatever the chunking.
pub proof fn lemma_absorb_append(lanes: Seq<u64>, off: int, rate: int, a: Seq<u8>, b: Seq<u8>)
    ensures
        absorb_bytes(lanes, off, rate, a + b) == absorb_bytes(
            absorb_bytes(lanes, off, rate, a).0,
            absorb_bytes(lanes, off, rate, a).1,
            rate,
            b,
        ),
    decreases a.len(),
{
    if a.len() == 0 {
        assert(a + b =~= b);
    } else {
        let stepped = absorb_byte(lanes, off, rate, a[0]);
        assert((a + b)[0] == a[0]);
        assert((a + b).drop_first() =~= a.drop_first() + b);
        lemma_absorb_append(stepped.0, stepped.1, rate, a.drop_first(), b);
    }
}

/// Absorbing one more byte after a sequence is one step of the byte-wise
/// absorption; the form of [`lemma_absorb_append`] that the absorb loop uses.
pub proof fn lemma_absorb_snoc(lanes: Seq<u64>, off: int, rate: int, a: Seq<u8>, b: u8)
    ensures
        absorb_bytes(lanes, off, rate, a.push(b)) == absorb_byte(
            absorb_bytes(lanes, off, rate, a).0,
            absorb_bytes(lanes, off, rate, a).1,
            rate,
            b,
        ),
{
    assert(a.push(b) =~= a + seq![b]);
    lemma_absorb_append(lanes, off, rate, a, seq![b]);
    let first = absorb_bytes(lanes, off, rate, a);
    let stepped = absorb_byte(first.0, first.1, rate, b);
    let tail = seq![b].drop_first();
    assert(tail =~= Seq::<u8>::empty());
    assert(seq![b][0] == b);
    assert(absorb_bytes(stepped.0, stepped.1, rate, tail) == (stepped.0, stepped.1));
    assert(absorb_bytes(first.0, first.1, rate, seq![b]) == absorb_bytes(
        stepped.0,
        stepped.1,
        rate,
        tail,
    ));
    assert((stepped.0, stepped.1) == stepped);
}

/// Squeezing produces exactly the requested number of bytes.
pub proof fn lemma_squeeze_len(lanes: Seq<u64>, pos: int, rate: int, n: nat)
    ensures
        squeeze_bytes(lanes, pos, rate, n).len() == n,
    decreases n,
{
    if n != 0 {
        if pos == rate {
            lemma_squeeze_len(keccak_f(lanes), 1, rate, (n - 1) as nat);
        } else {
            lemma_squeeze_len(lanes, pos + 1, rate, (n - 1) as nat);
        }
    }
}

/// Length independence of the prefix: squeezing `n1` bytes yields exactly
/// the first `n1` bytes of what squeezing any `n2 >= n1` bytes yields.
pub proof fn lemma_squeeze_prefix(lanes: Seq<u64>, pos: int, rate: int, n1: nat, n2: nat)
    requires
        n1 <= n2,
    ensures
        squeeze_bytes(lanes, pos, rate, n1) == squeeze_bytes(lanes, pos, rate, n2).take(n1 as int),
    decreases n1,
{
    lemma_squeeze_len(lanes, pos, rate, n2);
    if n1 == 0 {
        assert(squeeze_bytes(lanes, pos, rate, n2).take(0) =~= Seq::<u8>::empty());
    } else {
        let cur = if pos == rate {
            (keccak_f(lanes), 0int)
        } else {
            (lanes, pos)
        };
        let head = seq![get_byte(cur.0, cur.1)];
        let tail1 = squeeze_bytes(cur.0, cur.1 + 1, rate, (n1 - 1) as nat);
        let tail2 = squeeze_bytes(cur.0, cur.1 + 1, rate, (n2 - 1) as nat);
        lemma_squeeze_prefix(cur.0, cur.1 + 1, rate, (n1 - 1) as nat, (n2 - 1) as nat);
        lemma_squeeze_len(cur.0, cur.1 + 1, rate, (n2 - 1) as nat);
        assert((head + tail2).take(n1 as int) =~= head + tail2.take(n1 - 1));
        assert(squeeze_bytes(lanes, pos, rate, n1) == head + tail1);
        assert(squeeze_bytes(lanes, pos, rate, n2) == head + tail2);
    }
}

/// Length independence of the prefix, lifted to whole digests: for a fixed
/// configuration and input, the digest of length `n1` is a byte-for-byte
/// prefix of the digest of any length `n2 >= n1`.
pub proof fn lemma_digest_prefix(rate: int, delim: u8, msg: Seq<u8>, n1: nat, n2: nat)
    requires
        n1 <= n2,
    ensures
        sponge_digest(rate, delim, msg, n1) == sponge_digest(rate, delim, msg, n2).take(n1 as int),
{
    let absorbed = absorb_bytes(zero_lanes(), 0, rate, msg);
    lemma_squeeze_prefix(pad_permute(absorbed.0, absorbed.1, rate, delim), 0, rate, n1, n2);
}

/// Determinism: the digest is a function of the configuration, the absorbed
/// bytes and the requested length alone.
pub proof fn lemma_determinism(rate: int, delim: u8, m1: Seq<u8>, m2: Seq<u8>, n1: nat, n2: nat)
    requires
        m1 == m2,
        n1 == n2,
    ensures
        sponge_digest(rate, delim, m1, n1) == sponge_digest(rate, delim, m2, n2),
{
}

/// The padding-boundary overlap: when the cursor stands on the last byte of
/// the rate window, the delimiter and the closing padding bit land on the
/// same byte, and finalization acts as a single XOR of `delim ^ 0x80` into
/// that byte.
pub proof fn lemma_padding_overlap(lanes: Seq<u64>, rate: int, delim: u8)
    requires
        lanes.len() == 25,
        0 < rate < 200,
    ensures
        pad_permute(lanes, rate - 1, rate, delim) == keccak_f(
            xor_byte(lanes, rate - 1, delim ^ 0x80),
        ),
{
    let i = rate - 1;
    let li = i / 8;
    let sh = (8 * (i % 8)) as u64;
    let l0 = lanes[li];
    assert((l0 ^ ((delim as u64) << sh)) ^ ((0x80u8 as u64) << sh) == l0 ^ (((delim
        ^ 0x80u8) as u64) << sh)) by (bit_vector);
    assert(xor_byte(xor_byte(lanes, i, delim), i, 0x80) =~= xor_byte(lanes, i, delim ^ 0x80));
}

} // verus!
