use keccak_sponge::keccak::Keccak;
use keccak_sponge::sponge::SpongeState;

// ---------------------------------------------------------------------------
// A small reference implementation, written directly from the standard's
// round description, used as an independent oracle for inputs that have no
// published test vector (in particular the rate-boundary lengths).
// ---------------------------------------------------------------------------

fn ref_keccakf(a: &mut [u64; 25]) {
    let rc_table: [u64; 24] = [
        0x0000000000000001,
        0x0000000000008082,
        0x800000000000808a,
        0x8000000080008000,
        0x000000000000808b,
        0x0000000080000001,
        0x8000000080008081,
        0x8000000000008009,
        0x000000000000008a,
        0x0000000000000088,
        0x0000000080008009,
        0x000000008000000a,
        0x000000008000808b,
        0x800000000000008b,
        0x8000000000008089,
        0x8000000000008003,
        0x8000000000008002,
        0x8000000000000080,
        0x000000000000800a,
        0x800000008000000a,
        0x8000000080008081,
        0x8000000000008080,
        0x0000000080000001,
        0x8000000080008008,
    ];
    let rho_table: [u32; 25] = [
        0, 1, 62, 28, 27, 36, 44, 6, 55, 20, 3, 10, 43, 25, 39, 41, 45, 15, 21, 8, 18, 2, 61, 56,
        14,
    ];
    for round in 0..24 {
        let mut c = [0u64; 5];
        for x in 0..5 {
            c[x] = a[x] ^ a[x + 5] ^ a[x + 10] ^ a[x + 15] ^ a[x + 20];
        }
        let mut d = [0u64; 5];
        for x in 0..5 {
            d[x] = c[(x + 4) % 5] ^ c[(x + 1) % 5].rotate_left(1);
        }
        for x in 0..5 {
            for y in 0..5 {
                a[x + 5 * y] ^= d[x];
            }
        }
        let mut b = [0u64; 25];
        for x in 0..5 {
            for y in 0..5 {
                b[y + 5 * ((2 * x + 3 * y) % 5)] = a[x + 5 * y].rotate_left(rho_table[x + 5 * y]);
            }
        }
        for y in 0..5 {
            for x in 0..5 {
                a[x + 5 * y] = b[x + 5 * y] ^ (!b[(x + 1) % 5 + 5 * y] & b[(x + 2) % 5 + 5 * y]);
            }
        }
        a[0] ^= rc_table[round];
    }
}

fn ref_digest(rate: usize, delim: u8, msg: &[u8], outlen: usize) -> Vec<u8> {
    let mut lanes = [0u64; 25];
    let mut off: usize = 0;
    for &byte in msg {
        lanes[off / 8] ^= (byte as u64) << (8 * (off % 8));
        off += 1;
        if off == rate {
            ref_keccakf(&mut lanes);
            off = 0;
        }
    }
    lanes[off / 8] ^= (delim as u64) << (8 * (off % 8));
    lanes[(rate - 1) / 8] ^= 0x80u64 << (8 * ((rate - 1) % 8));
    ref_keccakf(&mut lanes);
    let mut out = Vec::new();
    let mut pos: usize = 0;
    while out.len() < outlen {
        if pos == rate {
            ref_keccakf(&mut lanes);
            pos = 0;
        }
        out.push((lanes[pos / 8] >> (8 * (pos % 8))) as u8);
        pos += 1;
    }
    out
}

fn hex(bytes: &[u8]) -> String {
    let digits = b"0123456789abcdef";
    let mut s = String::new();
    for &b in bytes {
        s.push(digits[(b >> 4) as usize] as char);
        s.push(digits[(b & 0x0f) as usize] as char);
    }
    s
}

fn sponge_digest_of(rate: usize, delim: u8, msg: &[u8], outlen: usize) -> Vec<u8> {
    let mut s = SpongeState::new(rate, delim);
    s.absorb(msg);
    s.finalize(outlen)
}

// ---------------------------------------------------------------------------
// Known-answer tests: published digests of the empty input and of "abc".
// ---------------------------------------------------------------------------

#[test]
fn keccak_256_empty() {
    let k = Keccak::v256();
    let out = k.finalize(32);
    assert_eq!(
        hex(&out),
        "c5d2460186f7233c927e7db2dcc703c0e500b653ca82273b7bfad8045d85a470"
    );
}

#[test]
fn keccak_224_empty() {
    let k = Keccak::v224();
    let out = k.finalize(28);
    assert_eq!(hex(&out), "f71837502ba8e10837bdd8d365adb85591895602fc552b48b7390abd");
}

#[test]
fn keccak_384_empty() {
    let k = Keccak::v384();
    let out = k.finalize(48);
    assert_eq!(
        hex(&out),
        "2c23146a63a29acf99e73b88f8c24eaa7dc60aa771780ccc006afbfa8fe2479b2dd2b21362337441ac12b515911957ff"
    );
}

#[test]
fn keccak_512_empty() {
    let k = Keccak::v512();
    let out = k.finalize(64);
    assert_eq!(
        hex(&out),
        "0eab42de4c3ceb9235fc91acffe746b29c29a8c366b7c60e4e67c466f36a4304c00fa9caf9d87976ba469bcbe06713b435f091ef2769fb160cdab33d3670680e"
    );
}

#[test]
fn keccak_256_abc() {
    let mut k = Keccak::v256();
    k.update(b"abc");
    let out = k.finalize(32);
    assert_eq!(
        hex(&out),
        "4e03657aea45a94fc7d47ba826c8d667c0d1e6e33a64a036ec44f58fa12d6c45"
    );
}

#[test]
fn sha3_256_empty() {
    let out = sponge_digest_of(136, 0x06, b"", 32);
    assert_eq!(
        hex(&out),
        "a7ffc6f8bf1ed76651c14756a061d662f580ff4de43b49fa82d80a4b80f8434a"
    );
}

#[test]
fn sha3_256_abc() {
    let out = sponge_digest_of(136, 0x06, b"abc", 32);
    assert_eq!(
        hex(&out),
        "3a985da74fe225b2045c172d6bd390bd855f086e3e9d525b46bfe24511431532"
    );
}

#[test]
fn sha3_224_empty() {
    let out = sponge_digest_of(144, 0x06, b"", 28);
    assert_eq!(hex(&out), "6b4e03423667dbb73b6e15454f0eb1abd4597f9a1b078e3f5b5a6bc7");
}

#[test]
fn sha3_384_empty() {
    let out = sponge_digest_of(104, 0x06, b"", 48);
    assert_eq!(
        hex(&out),
        "0c63a75b845e4f7d01107d852e4c2485c51a50aaaa94fc61995e71bbee983a2ac3713831264adb47fb6bd1e058d5f004"
    );
}

#[test]
fn sha3_512_empty() {
    let out = sponge_digest_of(72, 0x06, b"", 64);
    assert_eq!(
        hex(&out),
        "a69f73cca23a9ac5c8b567dc185a756e97c982164fe25859e0d1dcc1475c80a615b2123af1f5f94c11e3e9402c3ac558f500199d95b6d3e301758586281dcd26"
    );
}

#[test]
fn shake_128_empty() {
    let out = sponge_digest_of(168, 0x1f, b"", 32);
    assert_eq!(
        hex(&out),
        "7f9c2ba4e88f827d616045507605853ed73b8093f6efbc88eb1a6eacfa66ef26"
    );
}

#[test]
fn shake_256_empty() {
    let out = sponge_digest_of(136, 0x1f, b"", 32);
    assert_eq!(
        hex(&out),
        "46b9dd2b0ba88d13233b3feb743eeb243fcd52ea62b81b82b50c27646ed5762f"
    );
}

// ---------------------------------------------------------------------------
// Streaming equivalence: every chunking of the same input gives the digest
// of the one-shot absorption.
// ---------------------------------------------------------------------------

#[test]
fn streaming_equivalence_all_splits() {
    let msg: Vec<u8> = (0u8..=199).collect();
    let mut k = Keccak::v256();
    k.update(&msg);
    let oneshot = k.finalize(32);
    for split in 0..msg.len() {
        let mut k2 = Keccak::v256();
        k2.update(&msg[..split]);
        k2.update(&msg[split..]);
        assert_eq!(k2.finalize(32), oneshot);
    }
}

#[test]
fn streaming_equivalence_many_small_updates() {
    let msg: Vec<u8> = (0u8..=149).map(|b| b.wrapping_mul(7)).collect();
    let mut k = Keccak::v512();
    k.update(&msg);
    let oneshot = k.finalize(64);
    let mut k2 = Keccak::v512();
    for chunk in msg.chunks(1) {
        k2.update(chunk);
    }
    assert_eq!(k2.finalize(64), oneshot);
    let mut k3 = Keccak::v512();
    for chunk in msg.chunks(7) {
        k3.update(chunk);
    }
    assert_eq!(k3.finalize(64), oneshot);
    let mut k4 = Keccak::v512();
    k4.update(&[]);
    k4.update(&msg);
    k4.update(&[]);
    assert_eq!(k4.finalize(64), oneshot);
}

// ---------------------------------------------------------------------------
// Determinism: the same configuration, input and length give the same
// digest on every run.
// ---------------------------------------------------------------------------

#[test]
fn determinism_repeated_runs() {
    let msg = b"the same transcript, twice";
    let first = sponge_digest_of(168, 0x1f, msg, 100);
    let second = sponge_digest_of(168, 0x1f, msg, 100);
    assert_eq!(first, second);
    let mut k1 = Keccak::v256();
    k1.update(msg);
    let mut k2 = Keccak::v256();
    k2.update(msg);
    assert_eq!(k1.finalize(32), k2.finalize(32));
}

// ---------------------------------------------------------------------------
// Length independence of the prefix: a shorter output is a byte-for-byte
// prefix of a longer one.
// ---------------------------------------------------------------------------

#[test]
fn output_prefix_independence() {
    let msg = b"extendable output";
    let long = sponge_digest_of(168, 0x1f, msg, 500);
    for &short_len in &[0usize, 1, 16, 32, 167, 168, 169, 336, 499] {
        let short = sponge_digest_of(168, 0x1f, msg, short_len);
        assert_eq!(short.len(), short_len);
        assert_eq!(short[..], long[..short_len]);
    }
}

// ---------------------------------------------------------------------------
// Avalanche sanity: flipping one input bit changes roughly half the output
// bits on average.
// ---------------------------------------------------------------------------

#[test]
fn avalanche_single_bit_flips() {
    let base: Vec<u8> = (0u8..32).collect();
    let mut k = Keccak::v256();
    k.update(&base);
    let base_digest = k.finalize(32);
    let mut total_flipped: u32 = 0;
    let trials = 128;
    for bit in 0..trials {
        let mut flipped = base.clone();
        flipped[bit / 8] ^= 1u8 << (bit % 8);
        let mut kf = Keccak::v256();
        kf.update(&flipped);
        let digest = kf.finalize(32);
        for i in 0..32 {
            total_flipped += (digest[i] ^ base_digest[i]).count_ones();
        }
    }
    // 256 output bits per trial; the mean distance must be near 128.
    let average_times_trials = total_flipped as usize;
    assert!(average_times_trials > trials * 96, "average flip count too low");
    assert!(average_times_trials < trials * 160, "average flip count too high");
}

// ---------------------------------------------------------------------------
// Padding boundary: absorbing exactly rate - 1 bytes puts the delimiter and
// the closing padding bit into the same byte; checked against the
// independent reference implementation.
// ---------------------------------------------------------------------------

#[test]
fn padding_boundary_rate_minus_one() {
    for &(rate, delim) in &[(136usize, 0x01u8), (136, 0x06), (168, 0x1f), (72, 0x06), (144, 0x01)]
    {
        let msg: Vec<u8> = (0..rate - 1).map(|i| (i as u8).wrapping_mul(31).wrapping_add(5)).collect();
        let got = sponge_digest_of(rate, delim, &msg, 32);
        let want = ref_digest(rate, delim, &msg, 32);
        assert_eq!(hex(&got), hex(&want), "rate {} delim {:#x}", rate, delim);
    }
}

#[test]
fn padding_boundary_neighbouring_lengths() {
    let rate = 136usize;
    for len in [134usize, 135, 136, 137, 271, 272, 273] {
        let msg: Vec<u8> = (0..len).map(|i| i as u8).collect();
        let got = sponge_digest_of(rate, 0x01, &msg, 32);
        let want = ref_digest(rate, 0x01, &msg, 32);
        assert_eq!(hex(&got), hex(&want), "length {}", len);
    }
}

// ---------------------------------------------------------------------------
// Squeezing across several permutations, and the zero-length output edge
// case.
// ---------------------------------------------------------------------------

#[test]
fn long_squeeze_matches_reference() {
    let msg = b"squeeze me well past one block";
    let got = sponge_digest_of(168, 0x1f, msg, 1000);
    let want = ref_digest(168, 0x1f, msg, 1000);
    assert_eq!(hex(&got), hex(&want));
}

#[test]
fn zero_length_output() {
    let out = sponge_digest_of(136, 0x01, b"anything", 0);
    assert_eq!(out.len(), 0);
}

#[test]
fn reference_agrees_on_known_answer() {
    // Anchors the in-test oracle itself to a published vector.
    let want = ref_digest(136, 0x01, b"", 32);
    assert_eq!(
        hex(&want),
        "c5d2460186f7233c927e7db2dcc703c0e500b653ca82273b7bfad8045d85a470"
    );
}
