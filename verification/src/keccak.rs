//! The `Keccak` hash family: the sponge configured with the Keccak
//! domain-separation byte `0x01` and the rate that matches the requested
//! security level.

use vstd::prelude::*;
use crate::model::sponge_digest;
use crate::sponge::SpongeState;

verus! {

/// The Keccak delimiter byte.
pub const KECCAK_DELIM: u8 = 0x01;

/// The rate, in bytes, of a sponge with a security level of `bits` bits:
/// the 200-byte state less twice the digest size.
pub open spec fn bits_to_rate(bits: int) -> int {
    200 - bits / 4
}

/// A `Keccak` hasher: a sponge with delimiter `0x01`.
///
/// Finalization consumes the hasher, and the type has no clone operation,
/// so neither reuse after finalization nor implicit duplication of the
/// transcript can be written at all.
pub struct Keccak {
    state: SpongeState,
}

impl Keccak {
    /// The rate in bytes of this hasher's sponge.
    pub closed spec fn rate_bytes(self) -> int {
        self.state.rate_bytes()
    }

    /// All bytes absorbed so far, in order.
    pub closed spec fn absorbed(self) -> Seq<u8> {
        self.state.absorbed()
    }

    /// Well-formedness: a well-formed sponge carrying the Keccak delimiter.
    pub closed spec fn wf(self) -> bool {
        &&& self.state.wf()
        &&& self.state.delimiter() == KECCAK_DELIM
    }

    fn new(bits: usize) -> (k: Keccak)
        requires
            bits == 224 || bits == 256 || bits == 384 || bits == 512,
        ensures
            k.wf(),
            k.rate_bytes() == bits_to_rate(bits as int),
            k.absorbed() == Seq::<u8>::empty(),
    {
        Keccak { state: SpongeState::new(200 - bits / 4, KECCAK_DELIM) }
    }

    /// Creates a new `Keccak` hasher with a security level of 224 bits.
    pub fn v224() -> (k: Keccak)
        ensures
            k.wf(),
            k.rate_bytes() == 144,
            k.absorbed() == Seq::<u8>::empty(),
    {
        Keccak::new(224)
    }

    /// Creates a new `Keccak` hasher with a security level of 256 bits.
    pub fn v256() -> (k: Keccak)
        ensures
            k.wf(),
            k.rate_bytes() == 136,
            k.absorbed() == Seq::<u8>::empty(),
    {
        Keccak::new(256)
    }

    /// Creates a new `Keccak` hasher with a security level of 384 bits.
    pub fn v384() -> (k: Keccak)
        ensures
            k.wf(),
            k.rate_bytes() == 104,
            k.absorbed() == Seq::<u8>::empty(),
    {
        Keccak::new(384)
    }

    /// Creates a new `Keccak` hasher with a security level of 512 bits.
    pub fn v512() -> (k: Keccak)
        ensures
            k.wf(),
            k.rate_bytes() == 72,
            k.absorbed() == Seq::<u8>::empty(),
    {
        Keccak::new(512)
    }

    /// Absorbs additional input.  Can be called any number of times; feeding
    /// the input in pieces absorbs exactly the concatenation of the pieces.
    pub fn update(&mut self, input: &[u8])
        requires
            old(self).wf(),
        ensures
            final(self).wf(),
            final(self).rate_bytes() == old(self).rate_bytes(),
            final(self).absorbed() == old(self).absorbed() + input@,
    {
        self.state.absorb(input);
    }

    /// Pads and squeezes the state into a digest of `outlen` bytes,
    /// consuming the hasher.
    pub fn finalize(self, outlen: usize) -> (out: Vec<u8>)
        requires
            self.wf(),
        ensures
            out@.len() == outlen,
            out@ == sponge_digest(self.rate_bytes(), KECCAK_DELIM, self.absorbed(), outlen as nat),
    {
        self.state.finalize(outlen)
    }
}

} // verus!

