//! Gas quantities as the host runtime sees them.
//!
//! Gas values produced by the engine fit in a machine word, but they share a
//! representation with protocol-level 256-bit unsigned integers, so the
//! host-facing numeric type must carry any value up to `2^256 - 1` without
//! loss. It is stored as four 64-bit words, least significant first.

use vstd::prelude::*;

verus! {

/// An unsigned 256-bit integer, stored as four 64-bit words with `w0` least
/// significant. This is the numeric type of every gas field that crosses the
/// host boundary.
#[derive(Clone, Copy, Debug, PartialEq, Eq, Structural)]
pub struct BigInt {
    pub w0: u64,
    pub w1: u64,
    pub w2: u64,
    pub w3: u64,
}

impl BigInt {
    /// The number this value denotes.
    pub open spec fn value(self) -> nat {
        self.w0 as nat + 0x1_0000_0000_0000_0000 * (self.w1 as nat
            + 0x1_0000_0000_0000_0000 * (self.w2 as nat
            + 0x1_0000_0000_0000_0000 * (self.w3 as nat)))
    }

    /// Embeds a machine-word gas quantity exactly.
    pub fn from_u64(v: u64) -> (r: BigInt)
        ensures
            r.value() == v as nat,
    {
        BigInt { w0: v, w1: 0, w2: 0, w3: 0 }
    }

    /// Builds a value from its four words; every number up to `2^256 - 1`
    /// is reachable this way.
    pub fn from_words(w0: u64, w1: u64, w2: u64, w3: u64) -> (r: BigInt)
        ensures
            r == (BigInt { w0, w1, w2, w3 }),
            r.value() == w0 as nat + 0x1_0000_0000_0000_0000 * (w1 as nat
                + 0x1_0000_0000_0000_0000 * (w2 as nat
                + 0x1_0000_0000_0000_0000 * (w3 as nat))),
    {
        BigInt { w0, w1, w2, w3 }
    }
}

/// The word representation loses nothing: two values that denote the same
/// number are word-for-word the same, for every number up to `2^256 - 1`.
/// Together with `from_words`, which reaches every such number, this says a
/// gas quantity round-trips through its stored form exactly.
pub proof fn lemma_value_injective(a: BigInt, b: BigInt)
    requires
        a.value() == b.value(),
    ensures
        a == b,
{
    let ra: nat = a.w1 as nat + 0x1_0000_0000_0000_0000 * (a.w2 as nat
        + 0x1_0000_0000_0000_0000 * (a.w3 as nat));
    let rb: nat = b.w1 as nat + 0x1_0000_0000_0000_0000 * (b.w2 as nat
        + 0x1_0000_0000_0000_0000 * (b.w3 as nat));
    assert(a.w0 as nat + 0x1_0000_0000_0000_0000 * ra
        == b.w0 as nat + 0x1_0000_0000_0000_0000 * rb);
    assert(a.w0 == b.w0 && ra == rb);
    let sa: nat = a.w2 as nat + 0x1_0000_0000_0000_0000 * (a.w3 as nat);
    let sb: nat = b.w2 as nat + 0x1_0000_0000_0000_0000 * (b.w3 as nat);
    assert(a.w1 == b.w1 && sa == sb);
    assert(a.w2 == b.w2 && a.w3 == b.w3);
}

} // verus!
