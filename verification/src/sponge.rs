//! The sponge state machine: absorption, multi-rate padding and squeezing,
//! driven by the verified permutation.

use vstd::prelude::*;
use crate::model::{
    absorb_byte, absorb_bytes, get_byte, sponge_digest, squeeze_bytes, xor_byte, zero_lanes,
};
use crate::permutation::keccak_p;
use crate::laws::lemma_absorb_snoc;

verus! {

/// A Keccak sponge with a fixed rate and domain-separation delimiter.
///
/// The state is created zero-initialized, mutated by [`SpongeState::absorb`]
/// while input is being consumed, and consumed by [`SpongeState::finalize`],
/// which pads, permutes and squeezes the digest.  Because `finalize` takes
/// the sponge by value and the type has no clone operation, use after
/// finalization is impossible to write, not merely checked at run time.
pub struct SpongeState {
    lanes: Vec<u64>,
    rate: usize,
    delim: u8,
    offset: usize,
    transcript: Ghost<Seq<u8>>,
}

impl SpongeState {
    /// The configured rate in bytes.
    pub closed spec fn rate_bytes(self) -> int {
        self.rate as int
    }

    /// The configured domain-separation byte.
    pub closed spec fn delimiter(self) -> u8 {
        self.delim
    }

    /// All bytes absorbed so far, in order.
    pub closed spec fn absorbed(self) -> Seq<u8> {
        self.transcript@
    }

    /// Well-formedness: the state buffer is exactly 25 lanes, the rate is a
    /// valid one, the cursor lies inside the rate window, and the buffer and
    /// cursor are exactly what absorbing the transcript into the zero state
    /// produces.
    pub closed spec fn wf(self) -> bool {
        &&& self.lanes@.len() == 25
        &&& 0 < self.rate < 200
        &&& self.offset < self.rate
        &&& (self.lanes@, self.offset as int) == absorb_bytes(
            zero_lanes(),
            0,
            self.rate as int,
            self.transcript@,
        )
    }

    /// Creates a zero-initialized sponge with the given rate and delimiter.
    pub fn new(rate: usize, delim: u8) -> (s: SpongeState)
        requires
            0 < rate < 200,
        ensures
            s.wf(),
            s.rate_bytes() == rate,
            s.delimiter() == delim,
            s.absorbed() == Seq::<u8>::empty(),
    {
        let mut lanes: Vec<u64> = Vec::new();
        let mut i: usize = 0;
        while i < 25
            invariant
                i <= 25,
                lanes@.len() == i,
                forall|j: int| 0 <= j < i ==> lanes@[j] == 0u64,
            decreases 25 - i,
        {
            lanes.push(0);
            i = i + 1;
        }
        proof {
            assert(lanes@ =~= zero_lanes());
        }
        SpongeState { lanes, rate, delim, offset: 0, transcript: Ghost(Seq::empty()) }
    }

    /// Absorbs `input` byte by byte: each byte is XORed into the rate window
    /// at the cursor, and the state is permuted whenever the window fills.
    pub fn absorb(&mut self, input: &[u8])
        requires
            old(self).wf(),
        ensures
            final(self).wf(),
            final(self).rate_bytes() == old(self).rate_bytes(),
            final(self).delimiter() == old(self).delimiter(),
            final(self).absorbed() == old(self).absorbed() + input@,
    {
        let ghost m0 = self.transcript@;
        let ghost r0 = self.rate as int;
        let ghost d0 = self.delim;
        let mut i: usize = 0;
        while i < input.len()
            invariant
                i <= input@.len(),
                self.wf(),
                self.rate as int == r0,
                self.delim == d0,
                self.transcript@ == m0 + input@.take(i as int),
            decreases input@.len() - i,
        {
            let b = input[i];
            let ghost prev = self.transcript@;
            let ghost lanes0 = self.lanes@;
            let ghost off0 = self.offset as int;
            let li = self.offset / 8;
            let sh = 8 * (self.offset % 8);
            let cur = self.lanes[li];
            self.lanes[li] = cur ^ ((b as u64) << (sh as u64));
            proof {
                assert(self.lanes@ =~= xor_byte(lanes0, off0, b));
            }
            self.offset = self.offset + 1;
            if self.offset == self.rate {
                keccak_p(&mut self.lanes);
                self.offset = 0;
            }
            self.transcript = Ghost(self.transcript@.push(b));
            proof {
                lemma_absorb_snoc(zero_lanes(), 0, r0, prev, b);
                assert(absorb_byte(lanes0, off0, r0, b) == (self.lanes@, self.offset as int));
                assert(prev.push(b) =~= m0 + input@.take(i as int + 1));
            }
            i = i + 1;
        }
        proof {
            assert(input@.take(input@.len() as int) =~= input@);
        }
    }

    /// Pads, permutes, and squeezes exactly `outlen` bytes.  Consumes the
    /// sponge: no further absorption or finalization is possible afterwards.
    pub fn finalize(self, outlen: usize) -> (out: Vec<u8>)
        requires
            self.wf(),
        ensures
            out@.len() == outlen,
            out@ == sponge_digest(self.rate_bytes(), self.delimiter(), self.absorbed(), outlen as nat),
    {
        let mut lanes = self.lanes;
        let rate = self.rate;
        let delim = self.delim;
        let offset = self.offset;

        // Delimiter at the cursor.
        let li = offset / 8;
        let sh = 8 * (offset % 8);
        let cur = lanes[li];
        lanes[li] = cur ^ ((delim as u64) << (sh as u64));
        let ghost after_delim = lanes@;
        proof {
            assert(after_delim =~= xor_byte(self.lanes@, offset as int, delim));
        }

        // Closing bit of the multi-rate padding in the last rate byte.
        let lj = (rate - 1) / 8;
        let shj = 8 * ((rate - 1) % 8);
        let curj = lanes[lj];
        lanes[lj] = curj ^ (0x80u64 << (shj as u64));
        proof {
            assert((0x80u8 as u64) == 0x80u64);
            assert(lanes@ =~= xor_byte(after_delim, rate - 1 as int, 0x80u8));
        }

        // The mandatory first permutation of the output phase.
        keccak_p(&mut lanes);
        let ghost start = lanes@;

        // Squeeze.
        let ghost target = squeeze_bytes(start, 0, rate as int, outlen as nat);
        let mut out: Vec<u8> = Vec::new();
        let mut pos: usize = 0;
        while out.len() < outlen
            invariant
                lanes@.len() == 25,
                0 < rate < 200,
                pos <= rate,
                out@.len() <= outlen,
                out@ + squeeze_bytes(
                    lanes@,
                    pos as int,
                    rate as int,
                    (outlen - out@.len()) as nat,
                ) == target,
            decreases outlen - out@.len(),
        {
            let ghost sl = lanes@;
            let ghost sp = pos as int;
            let ghost pre = out@;
            let ghost n_left = (outlen - out@.len()) as nat;
            if pos == rate {
                keccak_p(&mut lanes);
                pos = 0;
            }
            let lk = pos / 8;
            let shk = 8 * (pos % 8);
            let b = #[verifier::truncate] ((lanes[lk] >> (shk as u64)) as u8);
            proof {
                assert(b == get_byte(lanes@, pos as int));
            }
            out.push(b);
            pos = pos + 1;
            proof {
                assert(squeeze_bytes(sl, sp, rate as int, n_left) == seq![b] + squeeze_bytes(
                    lanes@,
                    pos as int,
                    rate as int,
                    (n_left - 1) as nat,
                ));
                assert((pre + seq![b]) + squeeze_bytes(
                    lanes@,
                    pos as int,
                    rate as int,
                    (n_left - 1) as nat,
                ) =~= pre + (seq![b] + squeeze_bytes(
                    lanes@,
                    pos as int,
                    rate as int,
                    (n_left - 1) as nat,
                )));
            }
        }
        proof {
            assert(squeeze_bytes(lanes@, pos as int, rate as int, 0) == Seq::<u8>::empty());
            assert(out@ + Seq::<u8>::empty() =~= out@);
        }
        out
    }
}

} // verus!
