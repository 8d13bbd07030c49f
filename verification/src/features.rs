//! Feature bits that a message handler advertises to peers.

use vstd::prelude::*;

verus! {

/// A set of feature bits, held as little-endian flag bytes: feature bit `b` is
/// bit `b % 8` of byte `b / 8`.
#[derive(Debug, PartialEq, Eq)]
pub struct FeatureFlags {
    /// The flag bytes, least significant byte first.
    pub le_flags: Vec<u8>,
}

impl FeatureFlags {
    /// Whether feature bit `bit` is set.
    pub open spec fn advertises(&self, bit: nat) -> bool {
        &&& bit / 8 < self.le_flags@.len()
        &&& ((self.le_flags@[(bit / 8) as int] >> ((bit % 8) as u8)) & 1u8) == 1u8
    }

    /// The set with no feature bit: no flag bytes at all.
    pub fn empty() -> (flags: Self)
        ensures
            flags.le_flags@ == Seq::<u8>::empty(),
            forall|bit: nat| !flags.advertises(bit),
    {
        FeatureFlags { le_flags: Vec::new() }
    }
}

} // verus!
