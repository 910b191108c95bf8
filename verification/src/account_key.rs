//! Account identity.

use vstd::prelude::*;

verus! {

/// A 32-byte account address, stored as four 64-bit little-endian words.
///
/// The hosting platform identifies every persistent record by such a key.
/// The core never interprets a key: it only stores keys and compares them
/// for equality, so the four-word representation carries everything the
/// logic reads.
#[derive(Clone, Copy, Debug, PartialEq, Eq, Structural)]
pub struct AccountKey {
    /// Bytes 0..8 of the address, little-endian.
    pub w0: u64,
    /// Bytes 8..16 of the address, little-endian.
    pub w1: u64,
    /// Bytes 16..24 of the address, little-endian.
    pub w2: u64,
    /// Bytes 24..32 of the address, little-endian.
    pub w3: u64,
}

impl AccountKey {
    /// The all-zero key: the platform's default value, used as the
    /// "no account recorded" marker.
    pub open spec fn spec_zero() -> AccountKey {
        AccountKey { w0: 0, w1: 0, w2: 0, w3: 0 }
    }

    /// Builds a key from its four little-endian words.
    pub fn new(w0: u64, w1: u64, w2: u64, w3: u64) -> (r: AccountKey)
        ensures
            r == (AccountKey { w0, w1, w2, w3 }),
    {
        AccountKey { w0, w1, w2, w3 }
    }

    /// The all-zero key.
    pub fn zero() -> (r: AccountKey)
        ensures
            r == AccountKey::spec_zero(),
    {
        AccountKey { w0: 0, w1: 0, w2: 0, w3: 0 }
    }
}

impl Default for AccountKey {
    /// The default key is the all-zero key.
    fn default() -> (r: AccountKey)
        ensures
            r == AccountKey::spec_zero(),
    {
        AccountKey { w0: 0, w1: 0, w2: 0, w3: 0 }
    }
}

} // verus!
