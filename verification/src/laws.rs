//! Laws of the claim engine, proved once and for all inputs.
//!
//! Each proof function here states a guarantee that spans several functions
//! or several calls; the per-function guarantees live in the functions' own
//! contracts.

use vstd::prelude::*;

use crate::ONE_DAY_IN_SECONDS;
use crate::TGE_PRECISION;
use crate::day_index;
use crate::claims::{ClaimPayout, applied_record, capped_payout, claim_transition, tge_amount_of};
use crate::digest::sha256_of;
use crate::error::VestError;
use crate::hexenc::{hex_decoded, is_hex32};
use crate::merkle::{
    decoded_nodes, fold_proof, leaf_bytes, proof_encoding_ok, verify_outcome,
};
use crate::schedule::{cliff_passed, engine_outcome};
use crate::state::{
    UserClaimRecord, Round, has_record, ledger_wf, lemma_record_index_unique,
    lemma_stage_sum_absent, lemma_stage_sum_push, lemma_stage_sum_update, record_index,
    record_key_is, stage_claim_sum,
};

verus! {

/// Proof completeness: a leaf built from authentic parameters whose proof
/// path folds to the round's decoded root is always accepted.
pub proof fn lemma_verify_complete(
    proof_nodes: Seq<Seq<u8>>,
    account: Seq<u8>,
    stage: u128,
    total_amount: u128,
    tge: u128,
    start_at: u64,
    cliff: u64,
    duration: u64,
    merkle_root: Seq<u8>,
)
    requires
        proof_encoding_ok(proof_nodes),
        is_hex32(merkle_root),
        fold_proof(
            sha256_of(leaf_bytes(account, stage, total_amount, tge, start_at, cliff, duration)),
            decoded_nodes(proof_nodes),
        ) == hex_decoded(merkle_root),
    ensures
        verify_outcome(
            proof_nodes,
            account,
            stage,
            total_amount,
            tge,
            start_at,
            cliff,
            duration,
            merkle_root,
        ) == Ok::<bool, VestError>(true),
{
}

/// Proof soundness at the digest level: whenever the folded digest differs
/// from the decoded root, verification rejects. (That flipping a parameter
/// or a proof byte changes the folded digest is a property of SHA-256
/// itself, outside what can be proved here; the tests exercise it.)
pub proof fn lemma_verify_rejects_mismatch(
    proof_nodes: Seq<Seq<u8>>,
    account: Seq<u8>,
    stage: u128,
    total_amount: u128,
    tge: u128,
    start_at: u64,
    cliff: u64,
    duration: u64,
    merkle_root: Seq<u8>,
)
    requires
        proof_encoding_ok(proof_nodes),
        is_hex32(merkle_root),
        fold_proof(
            sha256_of(leaf_bytes(account, stage, total_amount, tge, start_at, cliff, duration)),
            decoded_nodes(proof_nodes),
        ) != hex_decoded(merkle_root),
    ensures
        verify_outcome(
            proof_nodes,
            account,
            stage,
            total_amount,
            tge,
            start_at,
            cliff,
            duration,
            merkle_root,
        ) == Err::<bool, VestError>(VestError::ProofVerificationFailed),
{
}

/// Monotonic claims: a committed claim against an existing record adds its
/// linear payout to the record's cumulative total and to the round's, so
/// neither ever decreases, and a record's terms stay fixed.
pub proof fn lemma_claim_monotonic(
    rounds: Seq<Round>,
    records: Seq<UserClaimRecord>,
    proof_nodes: Seq<Seq<u8>>,
    account: Vec<u8>,
    stage: u128,
    total_amount: u128,
    tge: u128,
    start_at: u64,
    cliff: u64,
    duration: u64,
    now: u64,
    payout: ClaimPayout,
    rounds2: Seq<Round>,
    records2: Seq<UserClaimRecord>,
)
    requires
        ledger_wf(records),
        has_record(records, account@, stage),
        claim_transition(
            rounds,
            records,
            proof_nodes,
            account,
            stage,
            total_amount,
            tge,
            start_at,
            cliff,
            duration,
            now,
        ) == Ok::<(ClaimPayout, Seq<Round>, Seq<UserClaimRecord>), VestError>(
            (payout, rounds2, records2),
        ),
    ensures
        ({
            let i = record_index(records, account@, stage);
            &&& payout.tge_amount == 0
            &&& records2.len() == records.len()
            &&& records2[i].total_claimed == records[i].total_claimed + payout.claim_amount
            &&& records2[i].total_claimed >= records[i].total_claimed
            &&& records2[i].total_amount == records[i].total_amount
            &&& records2[i].user@ == account@
            &&& records2[i].stage == stage
            &&& rounds2[stage as int - 1].total_claimed == rounds[stage as int
                - 1].total_claimed + payout.claim_amount
        }),
{
}

/// Claims stay within the principal: the linear payout is capped at what
/// the record still has unclaimed, so a committed claim against an existing
/// record always leaves `total_claimed <= total_amount`.
pub proof fn lemma_claim_bounded(
    rounds: Seq<Round>,
    records: Seq<UserClaimRecord>,
    proof_nodes: Seq<Seq<u8>>,
    account: Vec<u8>,
    stage: u128,
    total_amount: u128,
    tge: u128,
    start_at: u64,
    cliff: u64,
    duration: u64,
    now: u64,
    payout: ClaimPayout,
    rounds2: Seq<Round>,
    records2: Seq<UserClaimRecord>,
)
    requires
        ledger_wf(records),
        has_record(records, account@, stage),
        claim_transition(
            rounds,
            records,
            proof_nodes,
            account,
            stage,
            total_amount,
            tge,
            start_at,
            cliff,
            duration,
            now,
        ) == Ok::<(ClaimPayout, Seq<Round>, Seq<UserClaimRecord>), VestError>(
            (payout, rounds2, records2),
        ),
    ensures
        ({
            let i = record_index(records, account@, stage);
            records2[i].total_claimed <= records2[i].total_amount
        }),
{
}

/// A first claim with an immediate-unlock fraction of at most half leaves
/// the created record within its principal: the unlock paid is exactly
/// `floor(total_amount * tge / TGE_PRECISION)` and does not exceed the
/// residual. (A fraction above half pays more at once than what remains,
/// and the record is born fully claimed.)
pub proof fn lemma_creation_bounded(total_amount: u128, tge: u128)
    requires
        2 * tge <= TGE_PRECISION,
        total_amount * tge <= u128::MAX,
    ensures
        tge_amount_of(total_amount, tge) <= total_amount - tge_amount_of(total_amount, tge),
{
    let p = TGE_PRECISION as int;
    let amount = total_amount as int;
    let product = amount * (tge as int);
    let t = tge_amount_of(total_amount, tge);
    assert(2 * t <= amount) by (nonlinear_arith)
        requires
            t == product / p,
            product == amount * tge,
            2 * tge <= p,
            0 <= amount,
            0 <= tge,
            p == TGE_PRECISION,
    ;
}

/// No double claim in one day bucket: after a committed post-cliff linear
/// claim, a second claim in the same bucket - the cliff still passed and
/// the record not yet fully claimed - is rejected as already vested.
pub proof fn lemma_no_double_claim_same_day(
    rec: UserClaimRecord,
    now: u64,
    now2: u64,
    payable: u128,
    next: u64,
)
    requires
        engine_outcome(rec, now) == Ok::<(u128, u64), VestError>((payable, next)),
        cliff_passed(rec, now),
        rec.vesting_duration >= ONE_DAY_IN_SECONDS,
        day_index(now2) == day_index(now),
        now2 >= rec.start_vesting_epoch,
        cliff_passed(rec, now2),
        rec.total_claimed + payable < rec.total_amount,
    ensures
        capped_payout(rec, payable) == payable,
        engine_outcome(applied_record(rec, payable, next), now2) == Err::<(u128, u64), VestError>(
            VestError::AlreadyVestedForPeriod,
        ),
{
    assert(rec.vesting_duration as int / ONE_DAY_IN_SECONDS as int >= 1);
}

/// Duration-zero full payout: against a schedule shorter than one day the
/// engine releases the entire principal, the committed payout is everything
/// the record still had unclaimed, and every later claim against the
/// committed record fails as fully claimed.
pub proof fn lemma_duration_zero_full_payout(
    rec: UserClaimRecord,
    now: u64,
    now2: u64,
    payable: u128,
    next: u64,
)
    requires
        engine_outcome(rec, now) == Ok::<(u128, u64), VestError>((payable, next)),
        cliff_passed(rec, now),
        rec.vesting_duration < ONE_DAY_IN_SECONDS,
        now2 >= rec.start_vesting_epoch,
    ensures
        payable == rec.total_amount,
        capped_payout(rec, payable) == rec.total_amount - rec.total_claimed,
        engine_outcome(applied_record(rec, capped_payout(rec, payable), next), now2) == Err::<
            (u128, u64),
            VestError,
        >(VestError::FullyClaimed),
{
}

/// Round isolation: a committed claim against one stage leaves every other
/// round and every record keyed to another account or stage exactly as it
/// was.
pub proof fn lemma_round_isolation(
    rounds: Seq<Round>,
    records: Seq<UserClaimRecord>,
    proof_nodes: Seq<Seq<u8>>,
    account: Vec<u8>,
    stage: u128,
    total_amount: u128,
    tge: u128,
    start_at: u64,
    cliff: u64,
    duration: u64,
    now: u64,
    payout: ClaimPayout,
    rounds2: Seq<Round>,
    records2: Seq<UserClaimRecord>,
)
    requires
        claim_transition(
            rounds,
            records,
            proof_nodes,
            account,
            stage,
            total_amount,
            tge,
            start_at,
            cliff,
            duration,
            now,
        ) == Ok::<(ClaimPayout, Seq<Round>, Seq<UserClaimRecord>), VestError>(
            (payout, rounds2, records2),
        ),
    ensures
        rounds2.len() == rounds.len(),
        forall|m: int| 0 <= m < rounds.len() && m != stage - 1 ==> rounds2[m] == rounds[m],
        forall|i: int|
            0 <= i < records.len() && !record_key_is(#[trigger] records[i], account@, stage)
                ==> records2[i] == records[i],
{
}

/// Every ledger entry belongs to a registered stage.
pub open spec fn stages_registered(rounds: Seq<Round>, records: Seq<UserClaimRecord>) -> bool {
    forall|i: int| 0 <= i < records.len() ==> 1 <= (#[trigger] records[i]).stage <= rounds.len()
}

/// Each round's cumulative total equals what the ledger records as paid out
/// for its stage.
pub open spec fn rounds_ledger_consistent(
    rounds: Seq<Round>,
    records: Seq<UserClaimRecord>,
) -> bool {
    forall|m: int|
        0 <= m < rounds.len() ==> (#[trigger] rounds[m]).total_claimed == stage_claim_sum(
            records,
            (m + 1) as u128,
        )
}

/// Registry-ledger accounting, claim step: a committed claim keeps every
/// round's cumulative total equal to the sum of its stage's ledger entries,
/// and every entry keyed to a registered stage.
pub proof fn lemma_claim_preserves_accounting(
    rounds: Seq<Round>,
    records: Seq<UserClaimRecord>,
    proof_nodes: Seq<Seq<u8>>,
    account: Vec<u8>,
    stage: u128,
    total_amount: u128,
    tge: u128,
    start_at: u64,
    cliff: u64,
    duration: u64,
    now: u64,
    payout: ClaimPayout,
    rounds2: Seq<Round>,
    records2: Seq<UserClaimRecord>,
)
    requires
        ledger_wf(records),
        rounds.len() <= u128::MAX,
        stages_registered(rounds, records),
        rounds_ledger_consistent(rounds, records),
        claim_transition(
            rounds,
            records,
            proof_nodes,
            account,
            stage,
            total_amount,
            tge,
            start_at,
            cliff,
            duration,
            now,
        ) == Ok::<(ClaimPayout, Seq<Round>, Seq<UserClaimRecord>), VestError>(
            (payout, rounds2, records2),
        ),
    ensures
        stages_registered(rounds2, records2),
        rounds_ledger_consistent(rounds2, records2),
{
    let sidx = stage as int - 1;
    let paid = payout.tge_amount + payout.claim_amount;
    if !has_record(records, account@, stage) {
        let rec = records2.last();
        assert(rec.stage == stage);
        assert(rec.total_claimed == paid);
        assert forall|m: int| 0 <= m < rounds2.len() implies (#[trigger] rounds2[m]).total_claimed
            == stage_claim_sum(records2, (m + 1) as u128) by {
            let s = (m + 1) as u128;
            assert(m + 1 == s);
            lemma_stage_sum_push(records, rec, s);
            if m == sidx {
                assert(rounds2[m].total_claimed == rounds[m].total_claimed + paid);
                assert(rec.stage == s);
            } else {
                assert(rounds2[m] == rounds[m]);
                assert(rec.stage != s);
            }
        }
    } else {
        let ridx = record_index(records, account@, stage);
        let rec = records[ridx];
        assert(record_key_is(rec, account@, stage));
        assert(records2[ridx].stage == stage);
        assert(records2[ridx].total_claimed == rec.total_claimed + paid);
        assert forall|m: int| 0 <= m < rounds2.len() implies (#[trigger] rounds2[m]).total_claimed
            == stage_claim_sum(records2, (m + 1) as u128) by {
            let s = (m + 1) as u128;
            assert(m + 1 == s);
            lemma_stage_sum_update(records, ridx, records2[ridx], s);
            if m == sidx {
                assert(rounds2[m].total_claimed == rounds[m].total_claimed + paid);
                assert(rec.stage == s);
            } else {
                assert(rounds2[m] == rounds[m]);
                assert(rec.stage != s);
            }
        }
    }
}

/// Registry-ledger accounting, registration step: a new round opens with a
/// zero total, which is exactly what the ledger records for a stage no
/// entry belongs to yet.
pub proof fn lemma_register_preserves_accounting(
    rounds: Seq<Round>,
    records: Seq<UserClaimRecord>,
    round: Round,
)
    requires
        round.total_claimed == 0,
        rounds.len() < u128::MAX,
        stages_registered(rounds, records),
        rounds_ledger_consistent(rounds, records),
    ensures
        stages_registered(rounds.push(round), records),
        rounds_ledger_consistent(rounds.push(round), records),
{
    let fresh = (rounds.len() + 1) as u128;
    assert(fresh == rounds.len() + 1);
    assert forall|i: int| 0 <= i < records.len() implies (#[trigger] records[i]).stage
        != fresh by {
        assert(records[i].stage <= rounds.len());
    }
    lemma_stage_sum_absent(records, fresh);
    let rounds2 = rounds.push(round);
    assert forall|m: int| 0 <= m < rounds2.len() implies (#[trigger] rounds2[m]).total_claimed
        == stage_claim_sum(records, (m + 1) as u128) by {
        if m < rounds.len() {
            assert(rounds2[m] == rounds[m]);
        } else {
            assert(rounds2[m] == round);
            assert((m + 1) as u128 == fresh);
        }
    }
}

/// Pause gate: a claim against a paused round is rejected and commits
/// nothing, before its proof is even compared.
pub proof fn lemma_paused_round_rejects(
    rounds: Seq<Round>,
    records: Seq<UserClaimRecord>,
    proof_nodes: Seq<Seq<u8>>,
    account: Vec<u8>,
    stage: u128,
    total_amount: u128,
    tge: u128,
    start_at: u64,
    cliff: u64,
    duration: u64,
    now: u64,
)
    requires
        proof_encoding_ok(proof_nodes),
        1 <= stage <= rounds.len(),
        rounds[stage as int - 1].is_paused,
    ensures
        claim_transition(
            rounds,
            records,
            proof_nodes,
            account,
            stage,
            total_amount,
            tge,
            start_at,
            cliff,
            duration,
            now,
        ) == Err::<(ClaimPayout, Seq<Round>, Seq<UserClaimRecord>), VestError>(
            VestError::RoundPaused,
        ),
{
}

/// Pre-start rejection, exact form: with a valid proof against a registered
/// round, a claim before the vesting start is rejected as not started.
pub proof fn lemma_pre_start_rejection(
    rounds: Seq<Round>,
    records: Seq<UserClaimRecord>,
    proof_nodes: Seq<Seq<u8>>,
    account: Vec<u8>,
    stage: u128,
    total_amount: u128,
    tge: u128,
    start_at: u64,
    cliff: u64,
    duration: u64,
    now: u64,
)
    requires
        now < start_at,
        proof_encoding_ok(proof_nodes),
        1 <= stage <= rounds.len(),
        !rounds[stage as int - 1].is_paused,
        verify_outcome(
            proof_nodes,
            account@,
            stage,
            total_amount,
            tge,
            start_at,
            cliff,
            duration,
            rounds[stage as int - 1].merkle_root@,
        ) is Ok,
    ensures
        claim_transition(
            rounds,
            records,
            proof_nodes,
            account,
            stage,
            total_amount,
            tge,
            start_at,
            cliff,
            duration,
            now,
        ) == Err::<(ClaimPayout, Seq<Round>, Seq<UserClaimRecord>), VestError>(
            VestError::NotStarted,
        ),
{
}

/// Pre-start rejection, blanket form: before the vesting start no claim
/// ever commits anything, whatever the proof looks like.
pub proof fn lemma_pre_start_never_pays(
    rounds: Seq<Round>,
    records: Seq<UserClaimRecord>,
    proof_nodes: Seq<Seq<u8>>,
    account: Vec<u8>,
    stage: u128,
    total_amount: u128,
    tge: u128,
    start_at: u64,
    cliff: u64,
    duration: u64,
    now: u64,
)
    requires
        now < start_at,
    ensures
        claim_transition(
            rounds,
            records,
            proof_nodes,
            account,
            stage,
            total_amount,
            tge,
            start_at,
            cliff,
            duration,
            now,
        ) is Err,
{
}

} // verus!
