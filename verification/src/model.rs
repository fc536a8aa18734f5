//! The mathematical model of the Keccak sponge.
//!
//! Everything in this module is specification code: the five round steps of
//! the Keccak-f[1600] permutation over a sequence of 25 lanes, the
//! little-endian byte view of the lane array, and the absorb / pad / squeeze
//! protocol of the sponge construction.  The executable code elsewhere in the
//! crate is proved to compute exactly these functions.

use vstd::prelude::*;

verus! {

/// Left-rotation of a 64-bit lane by `n` bit positions.
pub open spec fn rotl64(x: u64, n: u64) -> u64
    recommends
        n < 64,
{
    if n == 0 {
        x
    } else {
        (x << n) | (x >> ((64 - n) as u64))
    }
}

/// The XOR of the five lanes of column `x` (theta's column parity).
pub open spec fn column_parity(s: Seq<u64>, x: int) -> u64
    recommends
        s.len() == 25,
        0 <= x < 5,
{
    s[x] ^ s[x + 5] ^ s[x + 10] ^ s[x + 15] ^ s[x + 20]
}

/// Theta: each lane is XORed with the parities of the two neighbouring
/// columns, one of them rotated left by one bit.
pub open spec fn theta(s: Seq<u64>) -> Seq<u64>
    recommends
        s.len() == 25,
{
    Seq::new(
        25,
        |i: int|
            s[i] ^ column_parity(s, (i % 5 + 4) % 5) ^ rotl64(column_parity(s, (i % 5 + 1) % 5), 1),
    )
}

/// The fixed per-lane rotation distance of the rho step, for the lane at
/// flattened index `i == x + 5 * y`.
pub open spec fn rho_offset(i: int) -> u64 {
    if i == 0 {
        0
    } else if i == 1 {
        1
    } else if i == 2 {
        62
    } else if i == 3 {
        28
    } else if i == 4 {
        27
    } else if i == 5 {
        36
    } else if i == 6 {
        44
    } else if i == 7 {
        6
    } else if i == 8 {
        55
    } else if i == 9 {
        20
    } else if i == 10 {
        3
    } else if i == 11 {
        10
    } else if i == 12 {
        43
    } else if i == 13 {
        25
    } else if i == 14 {
        39
    } else if i == 15 {
        41
    } else if i == 16 {
        45
    } else if i == 17 {
        15
    } else if i == 18 {
        21
    } else if i == 19 {
        8
    } else if i == 20 {
        18
    } else if i == 21 {
        2
    } else if i == 22 {
        61
    } else if i == 23 {
        56
    } else {
        14
    }
}

/// Rho: every lane is rotated left by its fixed offset.
pub open spec fn rho(s: Seq<u64>) -> Seq<u64>
    recommends
        s.len() == 25,
{
    Seq::new(25, |i: int| rotl64(s[i], rho_offset(i)))
}

/// The source index of the pi relocation: the lane that ends up at
/// flattened index `i` after pi.
pub open spec fn pi_source(i: int) -> int {
    (i % 5 + 3 * (i / 5)) % 5 + 5 * (i % 5)
}

/// Pi: pure lane relocation, no bit movement.
pub open spec fn pi(s: Seq<u64>) -> Seq<u64>
    recommends
        s.len() == 25,
{
    Seq::new(25, |i: int| s[pi_source(i)])
}

/// Chi: the only non-linear step; each lane is XORed with the AND of the
/// complement of the next lane in its row and the lane after that.
pub open spec fn chi(s: Seq<u64>) -> Seq<u64>
    recommends
        s.len() == 25,
{
    Seq::new(
        25,
        |i: int| s[i] ^ (!s[5 * (i / 5) + (i % 5 + 1) % 5] & s[5 * (i / 5) + (i % 5 + 2) % 5]),
    )
}

/// The round constant XORed into lane 0 by the iota step of round `r`.
pub open spec fn round_constant(r: int) -> u64 {
    if r == 0 {
        0x0000000000000001
    } else if r == 1 {
        0x0000000000008082
    } else if r == 2 {
        0x800000000000808a
    } else if r == 3 {
        0x8000000080008000
    } else if r == 4 {
        0x000000000000808b
    } else if r == 5 {
        0x0000000080000001
    } else if r == 6 {
        0x8000000080008081
    } else if r == 7 {
        0x8000000000008009
    } else if r == 8 {
        0x000000000000008a
    } else if r == 9 {
        0x0000000000000088
    } else if r == 10 {
        0x0000000080008009
    } else if r == 11 {
        0x000000008000000a
    } else if r == 12 {
        0x000000008000808b
    } else if r == 13 {
        0x800000000000008b
    } else if r == 14 {
        0x8000000000008089
    } else if r == 15 {
        0x8000000000008003
    } else if r == 16 {
        0x8000000000008002
    } else if r == 17 {
        0x8000000000000080
    } else if r == 18 {
        0x000000000000800a
    } else if r == 19 {
        0x800000008000000a
    } else if r == 20 {
        0x8000000080008081
    } else if r == 21 {
        0x8000000000008080
    } else if r == 22 {
        0x0000000080000001
    } else {
        0x8000000080008008
    }
}

/// Iota: lane 0 is XORed with the round constant of round `r`.
pub open spec fn iota(s: Seq<u64>, r: int) -> Seq<u64>
    recommends
        s.len() == 25,
{
    s.update(0, s[0] ^ round_constant(r))
}

/// One full round: theta, rho, pi, chi, iota, in that order.
pub open spec fn keccak_round(s: Seq<u64>, r: int) -> Seq<u64>
    recommends
        s.len() == 25,
{
    iota(chi(pi(rho(theta(s)))), r)
}

/// Rounds `r`, `r + 1`, ..., 23 applied in order.
pub open spec fn keccak_rounds_from(s: Seq<u64>, r: int) -> Seq<u64>
    recommends
        s.len() == 25,
    decreases 24 - r,
{
    if r < 0 || r >= 24 {
        s
    } else {
        keccak_rounds_from(keccak_round(s, r), r + 1)
    }
}

/// The Keccak-f[1600] permutation: 24 rounds.
pub open spec fn keccak_f(s: Seq<u64>) -> Seq<u64>
    recommends
        s.len() == 25,
{
    keccak_rounds_from(s, 0)
}

/// Byte `i` of the 200-byte little-endian view of the lane array.
pub open spec fn get_byte(lanes: Seq<u64>, i: int) -> u8
    recommends
        lanes.len() == 25,
        0 <= i < 200,
{
    (lanes[i / 8] >> ((8 * (i % 8)) as u64)) as u8
}

/// The lane array with byte `b` XORed into byte position `i` of its
/// little-endian byte view.
pub open spec fn xor_byte(lanes: Seq<u64>, i: int, b: u8) -> Seq<u64>
    recommends
        lanes.len() == 25,
        0 <= i < 200,
{
    lanes.update(i / 8, lanes[i / 8] ^ ((b as u64) << ((8 * (i % 8)) as u64)))
}

/// The all-zero initial state.
pub open spec fn zero_lanes() -> Seq<u64> {
    Seq::new(25, |i: int| 0u64)
}

/// Absorbing a single byte at cursor `off`: XOR it into the rate window and
/// advance; on reaching the rate, permute and reset the cursor.
pub open spec fn absorb_byte(lanes: Seq<u64>, off: int, rate: int, b: u8) -> (Seq<u64>, int)
    recommends
        lanes.len() == 25,
        0 < rate < 200,
        0 <= off < rate,
{
    let mixed = xor_byte(lanes, off, b);
    if off + 1 == rate {
        (keccak_f(mixed), 0)
    } else {
        (mixed, off + 1)
    }
}

/// Absorbing a byte sequence, front to back.
pub open spec fn absorb_bytes(lanes: Seq<u64>, off: int, rate: int, data: Seq<u8>) -> (
    Seq<u64>,
    int,
)
    recommends
        lanes.len() == 25,
        0 < rate < 200,
        0 <= off < rate,
    decreases data.len(),
{
    if data.len() == 0 {
        (lanes, off)
    } else {
        let stepped = absorb_byte(lanes, off, rate, data[0]);
        absorb_bytes(stepped.0, stepped.1, rate, data.drop_first())
    }
}

/// Finalization up to the first permutation of the output phase: the
/// delimiter is XORed at the cursor, the closing bit of the multi-rate
/// padding is XORed into the last byte of the rate window, and the state is
/// permuted.  When the cursor stands on the last rate byte the two XORs land
/// on the same byte and combine.
pub open spec fn pad_permute(lanes: Seq<u64>, off: int, rate: int, delim: u8) -> Seq<u64>
    recommends
        lanes.len() == 25,
        0 < rate < 200,
        0 <= off < rate,
{
    keccak_f(xor_byte(xor_byte(lanes, off, delim), rate - 1, 0x80))
}

/// Squeezing `n` bytes, starting at read position `pos` of the rate window,
/// permuting whenever the window is exhausted.
pub open spec fn squeeze_bytes(lanes: Seq<u64>, pos: int, rate: int, n: nat) -> Seq<u8>
    recommends
        lanes.len() == 25,
        0 < rate < 200,
        0 <= pos <= rate,
    decreases n,
{
    if n == 0 {
        Seq::empty()
    } else {
        let cur = if pos == rate {
            (keccak_f(lanes), 0int)
        } else {
            (lanes, pos)
        };
        seq![get_byte(cur.0, cur.1)] + squeeze_bytes(cur.0, cur.1 + 1, rate, (n - 1) as nat)
    }
}

/// The digest of the whole sponge computation: absorb `msg` into the zero
/// state, pad and permute, then squeeze `n` bytes.  This is the function the
/// public contracts of the crate are stated against.
pub open spec fn sponge_digest(rate: int, delim: u8, msg: Seq<u8>, n: nat) -> Seq<u8>
    recommends
        0 < rate < 200,
{
    let absorbed = absorb_bytes(zero_lanes(), 0, rate, msg);
    squeeze_bytes(pad_permute(absorbed.0, absorbed.1, rate, delim), 0, rate, n)
}

} // verus!
