//! Account identities.

use vstd::prelude::*;

verus! {

/// A 32-byte account identity, stored as two 16-byte little-endian words.
///
/// Only equality of identities carries meaning in the registry; the all-zero
/// identity doubles as the "absent" sentinel for `pending_admin`.
#[derive(Clone, Copy, Debug, PartialEq, Eq, Structural)]
pub struct Pubkey {
    pub lo: u128,
    pub hi: u128,
}

impl Pubkey {
    /// True of the all-zero identity.
    pub open spec fn is_zero(self) -> bool {
        self.lo == 0 && self.hi == 0
    }

    /// The all-zero identity.
    pub fn zero() -> (r: Pubkey)
        ensures
            r.is_zero(),
            r == (Pubkey { lo: 0, hi: 0 }),
    {
        Pubkey { lo: 0, hi: 0 }
    }
}

impl Default for Pubkey {
    /// The default identity is the all-zero sentinel.
    fn default() -> (r: Pubkey)
        ensures
            r == (Pubkey { lo: 0, hi: 0 }),
    {
        Pubkey { lo: 0, hi: 0 }
    }
}

} // verus!
