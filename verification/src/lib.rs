//! A token-vesting claim engine.
//!
//! Eligible accounts withdraw tokens according to a pre-committed schedule
//! (immediate unlock + cliff + linear drip). Eligibility and terms are
//! authenticated by a Merkle inclusion proof against a root published when a
//! vesting round is registered, so no per-user allowlist is stored.

pub mod admin;
pub mod bytes;
pub mod claims;
pub mod digest;
pub mod error;
pub mod hexenc;
pub mod laws;
pub mod merkle;
pub mod schedule;
pub mod state;
pub mod utils;

use vstd::prelude::*;

verus! {

/// Number of seconds in one day bucket of the vesting schedule.
pub const ONE_DAY_IN_SECONDS: u64 = 86400;

/// Denominator of the immediate-unlock (TGE) fraction: a record with
/// `tge == TGE_PRECISION / 2` unlocks half of the grant at once.
pub const TGE_PRECISION: u128 = 1_000_000_000_000;

/// Day bucket that a timestamp in seconds falls into.
pub open spec fn day_index(timestamp: u64) -> int {
    timestamp as int / ONE_DAY_IN_SECONDS as int
}

/// Executable counterpart of [`day_index`].
pub fn epoch_index_of(timestamp: u64) -> (r: u64)
    ensures
        r == day_index(timestamp),
{
    timestamp / ONE_DAY_IN_SECONDS
}

} // verus!
