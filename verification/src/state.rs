//! Durable state of the claim engine: per-round records and the per-user
//! claim ledger.
//!
//! A round is created once at registration and, apart from its cumulative
//! claimed total, never changes. A user claim record is created lazily by the
//! first successful claim for its `(account, stage)` key and is never
//! deleted, so a fully claimed schedule stays fully claimed.

use vstd::prelude::*;

verus! {

/// One vesting campaign: the published Merkle root, the token being
/// distributed, the account funding payouts, and the running claimed total.
pub struct Round {
    /// Account that funds payouts for this round.
    pub distribution: Vec<u8>,
    /// Interface fingerprint of the token contract.
    pub token_code_hash: Vec<u8>,
    /// Identifier of the token contract.
    pub token_address: Vec<u8>,
    /// Sum of every amount ever paid out for this round.
    pub total_claimed: u128,
    /// Hex encoding of the round's 32-byte Merkle root.
    pub merkle_root: Vec<u8>,
    /// Registration time in unix seconds.
    pub created_at: u64,
    /// Whether the round is paused; while set, every claim against the
    /// round is rejected.
    pub is_paused: bool,
}

/// Vesting terms and progress of one account in one round.
///
/// `total_amount` is the residual post-unlock principal: the authenticated
/// grant minus the immediate-unlock portion paid at creation.
/// `total_claimed` counts everything paid to the account for this round,
/// immediate unlock included.
pub struct UserClaimRecord {
    /// Display-form identifier of the account.
    pub user: Vec<u8>,
    /// Stage this record belongs to.
    pub stage: u128,
    /// Residual principal vested linearly after the immediate unlock.
    pub total_amount: u128,
    /// Cumulative amount paid to this account for this round.
    pub total_claimed: u128,
    /// Length of the linear vesting period in seconds.
    pub vesting_duration: u64,
    /// Seconds after the start before linear claims open.
    pub cliff: u64,
    /// Immediate-unlock numerator over [`crate::TGE_PRECISION`].
    pub tge: u128,
    /// Vesting start time in unix seconds.
    pub start_vesting_epoch: u64,
    /// Earliest day bucket for which a future linear claim may be paid.
    pub next_claim_epoch_index: u64,
}

/// The record is keyed by this account and stage.
pub open spec fn record_key_is(rec: UserClaimRecord, user: Seq<u8>, stage: u128) -> bool {
    rec.user@ == user && rec.stage == stage
}

/// Some record in the ledger carries this key.
pub open spec fn has_record(recs: Seq<UserClaimRecord>, user: Seq<u8>, stage: u128) -> bool {
    exists|i: int| 0 <= i < recs.len() && record_key_is(recs[i], user, stage)
}

/// Index of the record with this key; meaningful only when the key is
/// present and the ledger is well formed.
pub open spec fn record_index(recs: Seq<UserClaimRecord>, user: Seq<u8>, stage: u128) -> int {
    choose|i: int| 0 <= i < recs.len() && record_key_is(recs[i], user, stage)
}

/// No two ledger entries share an `(account, stage)` key.
pub open spec fn ledger_wf(recs: Seq<UserClaimRecord>) -> bool {
    forall|i: int, j: int| #![trigger recs[i], recs[j]]
        0 <= i < j < recs.len() ==> !(recs[i].user@ == recs[j].user@ && recs[i].stage
            == recs[j].stage)
}

/// What one ledger entry contributes to a stage's cumulative total.
pub open spec fn stage_contrib(rec: UserClaimRecord, stage: u128) -> int {
    if rec.stage == stage {
        rec.total_claimed as int
    } else {
        0
    }
}

/// Everything the ledger records as paid out for one stage.
pub open spec fn stage_claim_sum(recs: Seq<UserClaimRecord>, stage: u128) -> int
    decreases recs.len(),
{
    if recs.len() == 0 {
        0
    } else {
        stage_claim_sum(recs.drop_last(), stage) + stage_contrib(recs.last(), stage)
    }
}

/// Appending an entry adds exactly its contribution to each stage's sum.
pub proof fn lemma_stage_sum_push(recs: Seq<UserClaimRecord>, rec: UserClaimRecord, stage: u128)
    ensures
        stage_claim_sum(recs.push(rec), stage) == stage_claim_sum(recs, stage) + stage_contrib(
            rec,
            stage,
        ),
{
    assert(recs.push(rec).drop_last() =~= recs);
    assert(recs.push(rec).last() == rec);
}

/// Replacing an entry swaps its contribution for the new one in each
/// stage's sum.
pub proof fn lemma_stage_sum_update(
    recs: Seq<UserClaimRecord>,
    i: int,
    rec: UserClaimRecord,
    stage: u128,
)
    requires
        0 <= i < recs.len(),
    ensures
        stage_claim_sum(recs.update(i, rec), stage) == stage_claim_sum(recs, stage)
            - stage_contrib(recs[i], stage) + stage_contrib(rec, stage),
    decreases recs.len(),
{
    let upd = recs.update(i, rec);
    if i == recs.len() - 1 {
        assert(upd.drop_last() =~= recs.drop_last());
        assert(upd.last() == rec);
    } else {
        assert(upd.drop_last() =~= recs.drop_last().update(i, rec));
        assert(upd.last() == recs.last());
        lemma_stage_sum_update(recs.drop_last(), i, rec, stage);
    }
}

/// A stage no entry belongs to has a sum of zero.
pub proof fn lemma_stage_sum_absent(recs: Seq<UserClaimRecord>, stage: u128)
    requires
        forall|i: int| 0 <= i < recs.len() ==> (#[trigger] recs[i]).stage != stage,
    ensures
        stage_claim_sum(recs, stage) == 0,
    decreases recs.len(),
{
    if recs.len() > 0 {
        lemma_stage_sum_absent(recs.drop_last(), stage);
    }
}

/// In a well-formed ledger, any entry that carries a key is the entry that
/// [`record_index`] picks.
pub proof fn lemma_record_index_unique(
    recs: Seq<UserClaimRecord>,
    user: Seq<u8>,
    stage: u128,
    i: int,
)
    requires
        ledger_wf(recs),
        0 <= i < recs.len(),
        record_key_is(recs[i], user, stage),
    ensures
        has_record(recs, user, stage),
        record_index(recs, user, stage) == i,
{
    assert(has_record(recs, user, stage));
    let j = record_index(recs, user, stage);
    if j < i {
        assert(!(recs[j].user@ == recs[i].user@ && recs[j].stage == recs[i].stage));
    } else if i < j {
        assert(!(recs[i].user@ == recs[j].user@ && recs[i].stage == recs[j].stage));
    }
}

} // verus!
