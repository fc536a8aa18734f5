//! The executable Keccak-f[1600] permutation, proved to compute the model of
//! [`crate::model`] step by step.

use vstd::prelude::*;
use crate::model::{
    chi, column_parity, iota, keccak_f, keccak_round, keccak_rounds_from, pi, pi_source, rho,
    rho_offset, rotl64, round_constant, theta,
};

verus! {

/// Left-rotation of a lane.
fn rotl(x: u64, n: u64) -> (r: u64)
    requires
        n < 64,
    ensures
        r == rotl64(x, n),
{
    if n == 0 {
        x
    } else {
        (x << n) | (x >> ((64 - n) as u64))
    }
}

/// The rho rotation distance for the lane at flattened index `i`.
fn rho_offset_of(i: usize) -> (r: u64)
    requires
        i < 25,
    ensures
        r == rho_offset(i as int),
        r < 64,
{
    if i == 0 {
        0
    } else if i == 1 {
        1
    } else if i == 2 {
        62
    } else if i == 3 {
        28
    } else if i == 4 {
        27
    } else if i == 5 {
        36
    } else if i == 6 {
        44
    } else if i == 7 {
        6
    } else if i == 8 {
        55
    } else if i == 9 {
        20
    } else if i == 10 {
        3
    } else if i == 11 {
        10
    } else if i == 12 {
        43
    } else if i == 13 {
        25
    } else if i == 14 {
        39
    } else if i == 15 {
        41
    } else if i == 16 {
        45
    } else if i == 17 {
        15
    } else if i == 18 {
        21
    } else if i == 19 {
        8
    } else if i == 20 {
        18
    } else if i == 21 {
        2
    } else if i == 22 {
        61
    } else if i == 23 {
        56
    } else {
        14
    }
}

/// The round constant of round `r`.
fn round_constant_of(r: usize) -> (c: u64)
    requires
        r < 24,
    ensures
        c == round_constant(r as int),
{
    if r == 0 {
        0x0000000000000001
    } else if r == 1 {
        0x0000000000008082
    } else if r == 2 {
        0x800000000000808a
    } else if r == 3 {
        0x8000000080008000
    } else if r == 4 {
        0x000000000000808b
    } else if r == 5 {
        0x0000000080000001
    } else if r == 6 {
        0x8000000080008081
    } else if r == 7 {
        0x8000000000008009
    } else if r == 8 {
        0x000000000000008a
    } else if r == 9 {
        0x0000000000000088
    } else if r == 10 {
        0x0000000080008009
    } else if r == 11 {
        0x000000008000000a
    } else if r == 12 {
        0x000000008000808b
    } else if r == 13 {
        0x800000000000008b
    } else if r == 14 {
        0x8000000000008089
    } else if r == 15 {
        0x8000000000008003
    } else if r == 16 {
        0x8000000000008002
    } else if r == 17 {
        0x8000000000000080
    } else if r == 18 {
        0x000000000000800a
    } else if r == 19 {
        0x800000008000000a
    } else if r == 20 {
        0x8000000080008081
    } else if r == 21 {
        0x8000000000008080
    } else if r == 22 {
        0x0000000080000001
    } else {
        0x8000000080008008
    }
}

/// The theta step.
fn theta_step(a: &Vec<u64>) -> (r: Vec<u64>)
    requires
        a@.len() == 25,
    ensures
        r@ == theta(a@),
{
    let mut c: Vec<u64> = Vec::new();
    let mut x: usize = 0;
    while x < 5
        invariant
            x <= 5,
            a@.len() == 25,
            c@.len() == x,
            forall|j: int| 0 <= j < x ==> c@[j] == column_parity(a@, j),
        decreases 5 - x,
    {
        c.push(a[x] ^ a[x + 5] ^ a[x + 10] ^ a[x + 15] ^ a[x + 20]);
        x = x + 1;
    }
    let mut r: Vec<u64> = Vec::new();
    let mut i: usize = 0;
    while i < 25
        invariant
            i <= 25,
            a@.len() == 25,
            c@.len() == 5,
            forall|j: int| 0 <= j < 5 ==> c@[j] == column_parity(a@, j),
            r@.len() == i,
            forall|j: int| 0 <= j < i ==> r@[j] == theta(a@)[j],
        decreases 25 - i,
    {
        let x = i % 5;
        r.push(a[i] ^ c[(x + 4) % 5] ^ rotl(c[(x + 1) % 5], 1));
        i = i + 1;
    }
    proof {
        assert(r@ =~= theta(a@));
    }
    r
}

/// The rho step.
fn rho_step(a: &Vec<u64>) -> (r: Vec<u64>)
    requires
        a@.len() == 25,
    ensures
        r@ == rho(a@),
{
    let mut r: Vec<u64> = Vec::new();
    let mut i: usize = 0;
    while i < 25
        invariant
            i <= 25,
            a@.len() == 25,
            r@.len() == i,
            forall|j: int| 0 <= j < i ==> r@[j] == rho(a@)[j],
        decreases 25 - i,
    {
        r.push(rotl(a[i], rho_offset_of(i)));
        i = i + 1;
    }
    proof {
        assert(r@ =~= rho(a@));
    }
    r
}

/// The pi step.
fn pi_step(a: &Vec<u64>) -> (r: Vec<u64>)
    requires
        a@.len() == 25,
    ensures
        r@ == pi(a@),
{
    let mut r: Vec<u64> = Vec::new();
    let mut i: usize = 0;
    while i < 25
        invariant
            i <= 25,
            a@.len() == 25,
            r@.len() == i,
            forall|j: int| 0 <= j < i ==> r@[j] == pi(a@)[j],
        decreases 25 - i,
    {
        let src = (i % 5 + 3 * (i / 5)) % 5 + 5 * (i % 5);
        assert(src == pi_source(i as int));
        r.push(a[src]);
        i = i + 1;
    }
    proof {
        assert(r@ =~= pi(a@));
    }
    r
}

/// The chi step.
fn chi_step(a: &Vec<u64>) -> (r: Vec<u64>)
    requires
        a@.len() == 25,
    ensures
        r@ == chi(a@),
{
    let mut r: Vec<u64> = Vec::new();
    let mut i: usize = 0;
    while i < 25
        invariant
            i <= 25,
            a@.len() == 25,
            r@.len() == i,
            forall|j: int| 0 <= j < i ==> r@[j] == chi(a@)[j],
        decreases 25 - i,
    {
        let row = 5 * (i / 5);
        r.push(a[i] ^ (!a[row + (i % 5 + 1) % 5] & a[row + (i % 5 + 2) % 5]));
        i = i + 1;
    }
    proof {
        assert(r@ =~= chi(a@));
    }
    r
}

/// The full permutation: 24 rounds of theta, rho, pi, chi, iota applied in
/// place.
pub fn keccak_p(lanes: &mut Vec<u64>)
    requires
        old(lanes)@.len() == 25,
    ensures
        final(lanes)@.len() == 25,
        final(lanes)@ == keccak_f(old(lanes)@),
{
    let mut r: usize = 0;
    while r < 24
        invariant
            r <= 24,
            lanes@.len() == 25,
            keccak_rounds_from(lanes@, r as int) == keccak_f(old(lanes)@),
        decreases 24 - r,
    {
        let mut s = theta_step(lanes);
        s = rho_step(&s);
        s = pi_step(&s);
        s = chi_step(&s);
        let c = round_constant_of(r);
        s[0] = s[0] ^ c;
        proof {
            assert(s@ =~= iota(chi(pi(rho(theta(lanes@)))), r as int));
            assert(s@ == keccak_round(lanes@, r as int));
        }
        *lanes = s;
        r = r + 1;
    }
}

} // verus!
