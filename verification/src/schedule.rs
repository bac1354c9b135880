//! The vesting schedule engine.
//!
//! A pure decision over a ledger record and the current time: whether a
//! claim is allowed right now and, if so, how much is payable and what the
//! record's next eligible day bucket becomes. The caller commits the result;
//! nothing here touches state.

use vstd::prelude::*;

use crate::ONE_DAY_IN_SECONDS;
use crate::day_index;
use crate::epoch_index_of;
use crate::error::VestError;
use crate::state::UserClaimRecord;

verus! {

/// What the linear calculator returns: with a duration under one day the
/// entire residual principal is payable at once and the day index is left
/// alone; otherwise each elapsed day since the last settled bucket pays a
/// proportional slice, rounded down, and the next bucket moves past today.
pub open spec fn vesting_amount_outcome(
    current_epoch_index: u64,
    next_claim_epoch_index: u64,
    duration: u64,
    total_amount: u128,
) -> Result<(u128, u64), VestError>
    recommends
        next_claim_epoch_index <= current_epoch_index < u64::MAX,
{
    let duration_in_days = duration as int / ONE_DAY_IN_SECONDS as int;
    if duration_in_days == 0 {
        Ok((total_amount, next_claim_epoch_index))
    } else {
        let passed_days = current_epoch_index - next_claim_epoch_index + 1;
        if total_amount * passed_days > u128::MAX {
            Err(VestError::ArithmeticOverflow)
        } else {
            Ok(
                (
                    (total_amount * passed_days / duration_in_days) as u128,
                    (current_epoch_index + 1) as u64,
                ),
            )
        }
    }
}

/// Computes the amount claimable for the elapsed day buckets and the updated
/// next bucket, as [`vesting_amount_outcome`] states.
///
/// Integer truncation in the proportional slice is deliberate: repeated
/// small claims may leave dust that is never forced out.
pub fn calc_current_vesting_amount(
    current_epoch_index: u64,
    next_claim_epoch_index: u64,
    duration: u64,
    total_amount: u128,
) -> (r: Result<(u128, u64), VestError>)
    requires
        next_claim_epoch_index <= current_epoch_index,
        current_epoch_index < u64::MAX,
    ensures
        r == vesting_amount_outcome(
            current_epoch_index,
            next_claim_epoch_index,
            duration,
            total_amount,
        ),
{
    let duration_in_days = duration / ONE_DAY_IN_SECONDS;
    if duration_in_days == 0 {
        Ok((total_amount, next_claim_epoch_index))
    } else {
        let passed_days = current_epoch_index - next_claim_epoch_index + 1;
        match total_amount.checked_mul(passed_days as u128) {
            None => Err(VestError::ArithmeticOverflow),
            Some(product) => Ok((product / (duration_in_days as u128), current_epoch_index + 1)),
        }
    }
}

/// Whether the record's cliff period lies strictly behind the current time.
pub open spec fn cliff_passed(rec: UserClaimRecord, now: u64) -> bool {
    now > rec.start_vesting_epoch + rec.cliff
}

/// The schedule decision, in rule order: a start time still in the future
/// rejects; a record whose claims already cover its principal rejects; before
/// the cliff, a record with an immediate-unlock entitlement gets a successful
/// no-op and one without gets rejected; after the cliff, a day bucket that
/// was already settled rejects, and otherwise the linear calculator decides.
pub open spec fn engine_outcome(rec: UserClaimRecord, now: u64) -> Result<(u128, u64), VestError> {
    if now < rec.start_vesting_epoch {
        Err(VestError::NotStarted)
    } else if rec.total_claimed >= rec.total_amount {
        Err(VestError::FullyClaimed)
    } else if !cliff_passed(rec, now) {
        if rec.tge > 0 {
            Ok((0, rec.next_claim_epoch_index))
        } else {
            Err(VestError::CliffNotPassed)
        }
    } else if day_index(now) < rec.next_claim_epoch_index {
        Err(VestError::AlreadyVestedForPeriod)
    } else {
        vesting_amount_outcome(
            day_index(now) as u64,
            rec.next_claim_epoch_index,
            rec.vesting_duration,
            rec.total_amount,
        )
    }
}

/// Decides a claim against a record snapshot at the given time, as
/// [`engine_outcome`] states. Returns the payable amount and the record's
/// updated next day bucket; the caller applies both.
pub fn evaluate_claim(rec: &UserClaimRecord, now: u64) -> (r: Result<(u128, u64), VestError>)
    ensures
        r == engine_outcome(*rec, now),
{
    if now < rec.start_vesting_epoch {
        return Err(VestError::NotStarted);
    }
    if rec.total_claimed >= rec.total_amount {
        return Err(VestError::FullyClaimed);
    }
    let is_cliff_passed = now > rec.start_vesting_epoch && now - rec.start_vesting_epoch
        > rec.cliff;
    if !is_cliff_passed {
        if rec.tge > 0 {
            Ok((0, rec.next_claim_epoch_index))
        } else {
            Err(VestError::CliffNotPassed)
        }
    } else {
        let current_epoch_index = epoch_index_of(now);
        if current_epoch_index < rec.next_claim_epoch_index {
            Err(VestError::AlreadyVestedForPeriod)
        } else {
            calc_current_vesting_amount(
                current_epoch_index,
                rec.next_claim_epoch_index,
                rec.vesting_duration,
                rec.total_amount,
            )
        }
    }
}

} // verus!
