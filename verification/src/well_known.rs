//! Known program identities which can bypass the locker whitelist.
//!
//! Currently only the core protocol's vote-aggregation program is listed;
//! the list exists so sibling programs can lock on users' behalf without
//! a per-locker whitelist entry.

use vstd::prelude::*;

use crate::account_key::AccountKey;

verus! {

/// The address of the vote-aggregation program allowed to bypass locker
/// whitelists, as four little-endian words of its 32-byte key.
pub open spec fn spec_save_program_id() -> AccountKey {
    AccountKey {
        w0: 0x44bf31153b3f7206,
        w1: 0x4086ade1706cd47a,
        w2: 0xf894a6a03a0d582d,
        w3: 0x442aa3571f888426,
    }
}

/// The address of the vote-aggregation program allowed to bypass locker
/// whitelists.
pub fn save_program_id() -> (r: AccountKey)
    ensures
        r == spec_save_program_id(),
{
    AccountKey {
        w0: 0x44bf31153b3f7206,
        w1: 0x4086ade1706cd47a,
        w2: 0xf894a6a03a0d582d,
        w3: 0x442aa3571f888426,
    }
}

/// Checks to see if the given key is in the well-known whitelist.
pub fn is_well_known(key: &AccountKey) -> (r: bool)
    ensures
        r == (*key == spec_save_program_id()),
{
    let save = save_program_id();
    *key == save
}

} // verus!
