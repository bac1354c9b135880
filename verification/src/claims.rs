//! The claim orchestrator.
//!
//! One in-memory value holds everything a deployment owns: the registered
//! rounds and the per-user claim ledger. Every claim request runs the same
//! state machine: authenticate the parameters against the round's Merkle
//! root, create the ledger record on first contact (paying the immediate
//! unlock), otherwise ask the schedule engine what is payable, and commit
//! ledger and round together. A failing step commits nothing.

use vstd::prelude::*;

use crate::ONE_DAY_IN_SECONDS;
use crate::TGE_PRECISION;
use crate::bytes::copy_bytes;
use crate::error::VestError;
use crate::hexenc::{decode_hex32, is_hex32};
use crate::merkle::{proof_encoding_ok, verify_outcome, verify_user_vesting_stats};
use crate::schedule::{engine_outcome, evaluate_claim};
use crate::state::{
    Round, UserClaimRecord, has_record, ledger_wf, lemma_record_index_unique, record_index,
    record_key_is,
};

verus! {

/// All durable state of one deployment of the engine.
pub struct VestingCore {
    /// Registered rounds; the round at index `i` is stage `i + 1`.
    pub rounds: Vec<Round>,
    /// The per-(account, stage) claim ledger.
    pub records: Vec<UserClaimRecord>,
}

/// Round contents after a payout of `amount` was committed to it.
pub open spec fn round_after_payout(round: Round, amount: u128) -> Round
    recommends
        round.total_claimed + amount <= u128::MAX,
{
    Round { total_claimed: (round.total_claimed + amount) as u128, ..round }
}

/// Record contents after the engine's decision was committed to it.
pub open spec fn applied_record(rec: UserClaimRecord, payable: u128, next: u64) -> UserClaimRecord
    recommends
        rec.total_claimed + payable <= u128::MAX,
{
    UserClaimRecord {
        total_claimed: (rec.total_claimed + payable) as u128,
        next_claim_epoch_index: next,
        ..rec
    }
}

/// The immediate-unlock amount owed for a grant, rounded down.
pub open spec fn tge_amount_of(total_amount: u128, tge: u128) -> int {
    total_amount * tge / (TGE_PRECISION as int)
}

/// Day bucket seeded into a fresh record: one past the bucket in which the
/// cliff ends.
pub open spec fn initial_epoch_index(start_at: u64, cliff: u64) -> int {
    (start_at + cliff) / (ONE_DAY_IN_SECONDS as int) + 1
}

/// The record a first successful claim creates: terms fixed from the
/// authenticated parameters, principal reduced by the immediate unlock, and
/// the unlock already counted as claimed.
pub open spec fn created_record(
    account: Vec<u8>,
    stage: u128,
    total_amount: u128,
    tge: u128,
    start_at: u64,
    cliff: u64,
    duration: u64,
) -> UserClaimRecord
    recommends
        total_amount * tge <= u128::MAX,
        tge_amount_of(total_amount, tge) <= total_amount,
{
    UserClaimRecord {
        user: account,
        stage: stage,
        total_amount: (total_amount - tge_amount_of(total_amount, tge)) as u128,
        total_claimed: tge_amount_of(total_amount, tge) as u128,
        vesting_duration: duration,
        cliff: cliff,
        tge: tge,
        start_vesting_epoch: start_at,
        next_claim_epoch_index: initial_epoch_index(start_at, cliff) as u64,
    }
}

/// Arithmetic conditions under which a record can be created: the unlock
/// product fits its accumulator and the unlock does not exceed the grant.
pub open spec fn creation_fits(total_amount: u128, tge: u128) -> bool {
    &&& total_amount * tge <= u128::MAX
    &&& tge_amount_of(total_amount, tge) <= total_amount
}

/// What one claim pays, split as the payout instructions are: the immediate
/// unlock of a first claim, and the linear slice the schedule released.
#[derive(Clone, Copy, Debug, PartialEq, Eq, Structural)]
pub struct ClaimPayout {
    /// Immediate-unlock portion, non-zero only on the record-creating call.
    pub tge_amount: u128,
    /// Linear portion released by the schedule engine.
    pub claim_amount: u128,
}

/// The engine's payable amount, capped at what the record still has
/// unclaimed: committing this keeps `total_claimed <= total_amount`.
pub open spec fn capped_payout(rec: UserClaimRecord, payable: u128) -> u128
    recommends
        rec.total_claimed <= rec.total_amount,
{
    if payable > rec.total_amount - rec.total_claimed {
        (rec.total_amount - rec.total_claimed) as u128
    } else {
        payable
    }
}

/// What one claim request does to the whole state, as a value: the payouts
/// and the new rounds and ledger on success, or the error that aborts the
/// request. Encoding failures come first, then the unknown stage, then the
/// round's pause gate, then the proof comparison, then the start gate, then
/// the ledger step.
///
/// A first claim creates the record, pays the immediate unlock, and then
/// runs the schedule engine on the fresh record in the same call; an engine
/// rejection leaves the creation itself a success that pays the unlock
/// alone. Every linear payout is capped at what the record still has
/// unclaimed, so a committed record never claims past its principal.
pub open spec fn claim_transition(
    rounds: Seq<Round>,
    records: Seq<UserClaimRecord>,
    proof_nodes: Seq<Seq<u8>>,
    account: Vec<u8>,
    stage: u128,
    total_amount: u128,
    tge: u128,
    start_at: u64,
    cliff: u64,
    duration: u64,
    now: u64,
) -> Result<(ClaimPayout, Seq<Round>, Seq<UserClaimRecord>), VestError> {
    if !proof_encoding_ok(proof_nodes) {
        Err(VestError::InvalidProofEncoding)
    } else if stage < 1 || stage > rounds.len() {
        Err(VestError::NoSuchRound)
    } else if rounds[stage as int - 1].is_paused {
        Err(VestError::RoundPaused)
    } else {
        let sidx = stage as int - 1;
        let round = rounds[sidx];
        match verify_outcome(
            proof_nodes,
            account@,
            stage,
            total_amount,
            tge,
            start_at,
            cliff,
            duration,
            round.merkle_root@,
        ) {
            Err(e) => Err(e),
            Ok(_) => {
                if now < start_at {
                    Err(VestError::NotStarted)
                } else if !has_record(records, account@, stage) {
                    if !creation_fits(total_amount, tge) {
                        Err(VestError::ArithmeticOverflow)
                    } else {
                        let unlock = tge_amount_of(total_amount, tge) as u128;
                        let rec0 = created_record(
                            account,
                            stage,
                            total_amount,
                            tge,
                            start_at,
                            cliff,
                            duration,
                        );
                        match engine_outcome(rec0, now) {
                            Err(_) => {
                                if round.total_claimed + unlock > u128::MAX {
                                    Err(VestError::ArithmeticOverflow)
                                } else {
                                    Ok(
                                        (
                                            ClaimPayout { tge_amount: unlock, claim_amount: 0 },
                                            rounds.update(sidx, round_after_payout(round, unlock)),
                                            records.push(rec0),
                                        ),
                                    )
                                }
                            },
                            Ok((payable, next)) => {
                                let committed = capped_payout(rec0, payable);
                                if round.total_claimed + unlock + committed > u128::MAX {
                                    Err(VestError::ArithmeticOverflow)
                                } else {
                                    Ok(
                                        (
                                            ClaimPayout {
                                                tge_amount: unlock,
                                                claim_amount: committed,
                                            },
                                            rounds.update(
                                                sidx,
                                                round_after_payout(
                                                    round,
                                                    (unlock + committed) as u128,
                                                ),
                                            ),
                                            records.push(applied_record(rec0, committed, next)),
                                        ),
                                    )
                                }
                            },
                        }
                    }
                } else {
                    let ridx = record_index(records, account@, stage);
                    let rec = records[ridx];
                    match engine_outcome(rec, now) {
                        Err(e) => Err(e),
                        Ok((payable, next)) => {
                            let committed = capped_payout(rec, payable);
                            if round.total_claimed + committed > u128::MAX {
                                Err(VestError::ArithmeticOverflow)
                            } else {
                                Ok(
                                    (
                                        ClaimPayout { tge_amount: 0, claim_amount: committed },
                                        rounds.update(sidx, round_after_payout(round, committed)),
                                        records.update(ridx, applied_record(rec, committed, next)),
                                    ),
                                )
                            }
                        },
                    }
                }
            },
        }
    }
}

/// Display data of one round, as read-only queries report it.
pub struct VestingRoundResponse {
    /// The stage queried.
    pub stage: u128,
    /// Sum of every amount ever paid out for the round.
    pub total_claimed: u128,
    /// Identifier of the token contract.
    pub token_address: Vec<u8>,
    /// Hex encoding of the round's Merkle root.
    pub merkle_root: Vec<u8>,
    /// Registration time in unix seconds.
    pub created_at: u64,
}

/// Display data of one round under the older query interface: the
/// deployment's owner beside the round's token and root.
pub struct ConfigResponse {
    /// Identifier of the deployment's owner.
    pub owner: Vec<u8>,
    /// Identifier of the token contract.
    pub token_address: Vec<u8>,
    /// Hex encoding of the round's Merkle root.
    pub merkle_root: Vec<u8>,
}

impl ConfigResponse {
    /// Builds the response from the owner's identifier and a stored round.
    pub fn from_round(owner: &Vec<u8>, round: &Round) -> (r: ConfigResponse)
        ensures
            r.owner@ == owner@,
            r.token_address@ == round.token_address@,
            r.merkle_root@ == round.merkle_root@,
    {
        ConfigResponse {
            owner: copy_bytes(owner),
            token_address: copy_bytes(&round.token_address),
            merkle_root: copy_bytes(&round.merkle_root),
        }
    }
}

/// The value of an optional argument, or its default.
pub open spec fn or_default(opt: Option<Vec<u8>>, dflt: Vec<u8>) -> Vec<u8> {
    match opt {
        Some(v) => v,
        None => dflt,
    }
}

/// The pause flag a registration stores: unspecified means not paused.
pub open spec fn paused_flag(opt: Option<bool>) -> bool {
    match opt {
        Some(b) => b,
        None => false,
    }
}

/// Why a registration is rejected, if it is: a root that does not encode 32
/// bytes first, then an incomplete token address / interface tag pair.
pub open spec fn register_error(
    merkle_root: Seq<u8>,
    has_token_address: bool,
    has_token_code_hash: bool,
) -> Option<VestError> {
    if !is_hex32(merkle_root) {
        Some(VestError::InvalidRootEncoding)
    } else if has_token_address && !has_token_code_hash {
        Some(VestError::MissingTokenCodeHash)
    } else if !has_token_address && has_token_code_hash {
        Some(VestError::MissingTokenAddress)
    } else if !has_token_address && !has_token_code_hash {
        Some(VestError::MissingTokenConfig)
    } else {
        None
    }
}

/// The round a successful registration stores.
pub open spec fn registered_round(
    merkle_root: Vec<u8>,
    token_address: Vec<u8>,
    token_code_hash: Vec<u8>,
    distribution: Vec<u8>,
    paused: bool,
    now: u64,
) -> Round {
    Round {
        distribution: distribution,
        token_code_hash: token_code_hash,
        token_address: token_address,
        total_claimed: 0,
        merkle_root: merkle_root,
        created_at: now,
        is_paused: paused,
    }
}

impl VestingCore {
    /// The ledger never holds two entries for one `(account, stage)` key.
    pub open spec fn wf(self) -> bool {
        ledger_wf(self.records@)
    }

    /// Registers a new vesting round under the next stage number.
    ///
    /// The root must hex-encode exactly 32 bytes, and the token address and
    /// interface tag must both be present; the distribution account defaults
    /// to the registrant. The stage counter never reuses or decrements a
    /// number, and the ledger is untouched.
    pub fn register_round(
        &mut self,
        merkle_root: Vec<u8>,
        token_address: Option<Vec<u8>>,
        token_code_hash: Option<Vec<u8>>,
        distribution: Option<Vec<u8>>,
        is_paused: Option<bool>,
        sender: Vec<u8>,
        now: u64,
    ) -> (r: Result<u128, VestError>)
        ensures
            final(self).records@ == old(self).records@,
            old(self).wf() ==> final(self).wf(),
            match r {
                Ok(stage) => {
                    &&& register_error(
                        merkle_root@,
                        token_address is Some,
                        token_code_hash is Some,
                    ) is None
                    &&& stage == old(self).rounds@.len() + 1
                    &&& final(self).rounds@ == old(self).rounds@.push(
                        registered_round(
                            merkle_root,
                            token_address.unwrap(),
                            token_code_hash.unwrap(),
                            or_default(distribution, sender),
                            paused_flag(is_paused),
                            now,
                        ),
                    )
                },
                Err(e) => {
                    &&& Some(e) == register_error(
                        merkle_root@,
                        token_address is Some,
                        token_code_hash is Some,
                    )
                    &&& final(self).rounds@ == old(self).rounds@
                },
            },
    {
        let decoded = decode_hex32(&merkle_root);
        if decoded.is_none() {
            return Err(VestError::InvalidRootEncoding);
        }
        let (token_address, token_code_hash) = match (token_address, token_code_hash) {
            (Some(a), Some(h)) => (a, h),
            (Some(_), None) => {
                return Err(VestError::MissingTokenCodeHash);
            },
            (None, Some(_)) => {
                return Err(VestError::MissingTokenAddress);
            },
            (None, None) => {
                return Err(VestError::MissingTokenConfig);
            },
        };
        let distribution = match distribution {
            Some(d) => d,
            None => sender,
        };
        let paused = match is_paused {
            Some(b) => b,
            None => false,
        };
        let round = Round {
            distribution: distribution,
            token_code_hash: token_code_hash,
            token_address: token_address,
            total_claimed: 0,
            merkle_root: merkle_root,
            created_at: now,
            is_paused: paused,
        };
        self.rounds.push(round);
        Ok(self.rounds.len() as u128)
    }

    /// A deployment with no rounds and an empty ledger.
    pub fn new() -> (r: VestingCore)
        ensures
            r.wf(),
            r.rounds@.len() == 0,
            r.records@.len() == 0,
    {
        VestingCore { rounds: Vec::new(), records: Vec::new() }
    }

    /// Number of the most recently registered stage; 0 before any
    /// registration. Stages count up from 1 and are never reused.
    pub fn current_stage(&self) -> (r: u128)
        ensures
            r == self.rounds@.len(),
    {
        self.rounds.len() as u128
    }

    /// The round registered under `stage`, or `NoSuchRound`.
    pub fn config_by_stage(&self, stage: u128) -> (r: Result<&Round, VestError>)
        ensures
            match r {
                Ok(round) => 1 <= stage <= self.rounds@.len() && *round == self.rounds@[stage as int
                    - 1],
                Err(e) => e == VestError::NoSuchRound && !(1 <= stage <= self.rounds@.len()),
            },
    {
        if stage < 1 || stage > self.rounds.len() as u128 {
            Err(VestError::NoSuchRound)
        } else {
            Ok(&self.rounds[(stage - 1) as usize])
        }
    }

    /// Runs one claim request to completion, as [`claim_transition`] states.
    ///
    /// On success the returned amounts are what the caller must pay out,
    /// and the ledger record and the round's cumulative total were
    /// committed together. On any error nothing was committed.
    #[verifier::loop_isolation(false)]
    pub fn claim(
        &mut self,
        proof_nodes: &Vec<Vec<u8>>,
        account: Vec<u8>,
        stage: u128,
        total_amount: u128,
        tge: u128,
        start_at: u64,
        cliff: u64,
        duration: u64,
        now: u64,
    ) -> (r: Result<ClaimPayout, VestError>)
        requires
            old(self).wf(),
        ensures
            final(self).wf(),
            ({
                let t = claim_transition(
                    old(self).rounds@,
                    old(self).records@,
                    proof_nodes@.map_values(|v: Vec<u8>| v@),
                    account,
                    stage,
                    total_amount,
                    tge,
                    start_at,
                    cliff,
                    duration,
                    now,
                );
                match (r, t) {
                    (Ok(p), Ok(tr)) => p == tr.0 && final(self).rounds@ == tr.1
                        && final(self).records@ == tr.2,
                    (Err(e), Err(te)) => e == te && final(self).rounds@ == old(self).rounds@
                        && final(self).records@ == old(self).records@,
                    _ => false,
                }
            }),
    {
        let ghost nodes_view = proof_nodes@.map_values(|v: Vec<u8>| v@);

        // Authentication gate: every proof element must decode before
        // anything else is even looked at.
        let mut k: usize = 0;
        while k < proof_nodes.len()
            invariant
                k <= nodes_view.len(),
                forall|j: int| 0 <= j < k ==> is_hex32(nodes_view[j]),
            decreases nodes_view.len() - k,
        {
            let decoded = decode_hex32(&proof_nodes[k]);
            if decoded.is_none() {
                proof {
                    assert(nodes_view[k as int] == proof_nodes@[k as int]@);
                    assert(!proof_encoding_ok(nodes_view));
                }
                return Err(VestError::InvalidProofEncoding);
            }
            k = k + 1;
        }
        assert(proof_encoding_ok(nodes_view));

        // The round whose root and pause gate govern this claim.
        if stage < 1 || stage > self.rounds.len() as u128 {
            return Err(VestError::NoSuchRound);
        }
        let sidx: usize = (stage as usize) - 1;
        if self.rounds[sidx].is_paused {
            return Err(VestError::RoundPaused);
        }

        let verified = verify_user_vesting_stats(
            proof_nodes,
            &account,
            stage,
            total_amount,
            tge,
            start_at,
            cliff,
            duration,
            &self.rounds[sidx].merkle_root,
        );
        match verified {
            Err(e) => {
                return Err(e);
            },
            Ok(_) => {},
        }

        // The vesting start gate precedes any ledger work.
        if now < start_at {
            return Err(VestError::NotStarted);
        }

        let found = self.find_record(&account, stage);
        match found {
            None => {
                // First contact: create the record, pay the immediate
                // unlock, and let the schedule engine release whatever the
                // fresh record is already owed; an engine rejection leaves
                // the creation a success that pays the unlock alone.
                let product = match total_amount.checked_mul(tge) {
                    None => {
                        return Err(VestError::ArithmeticOverflow);
                    },
                    Some(p) => p,
                };
                let tge_amount = product / TGE_PRECISION;
                if tge_amount > total_amount {
                    return Err(VestError::ArithmeticOverflow);
                }
                let sum_start_cliff: u128 = start_at as u128 + cliff as u128;
                let next_index: u64 = (sum_start_cliff / (ONE_DAY_IN_SECONDS as u128)) as u64 + 1;
                let ghost old_records = self.records@;
                let mut rec = UserClaimRecord {
                    user: account,
                    stage: stage,
                    total_amount: total_amount - tge_amount,
                    total_claimed: tge_amount,
                    vesting_duration: duration,
                    cliff: cliff,
                    tge: tge,
                    start_vesting_epoch: start_at,
                    next_claim_epoch_index: next_index,
                };
                let ghost rec0 = rec;
                let decision = evaluate_claim(&rec, now);
                let committed: u128 = match decision {
                    Err(_) => 0,
                    Ok((payable, next)) => {
                        let available = rec.total_amount - rec.total_claimed;
                        let linear = if payable > available {
                            available
                        } else {
                            payable
                        };
                        rec.total_claimed = rec.total_claimed + linear;
                        rec.next_claim_epoch_index = next;
                        linear
                    },
                };
                let new_round_total = match self.rounds[sidx].total_claimed.checked_add(
                    tge_amount + committed,
                ) {
                    None => {
                        return Err(VestError::ArithmeticOverflow);
                    },
                    Some(t) => t,
                };
                self.rounds[sidx].total_claimed = new_round_total;
                self.records.push(rec);
                proof {
                    assert forall|i: int, j: int| #![trigger self.records@[i], self.records@[j]]
                        0 <= i < j < self.records@.len() implies !(self.records@[i].user@
                        == self.records@[j].user@ && self.records@[i].stage
                        == self.records@[j].stage) by {
                        if j == old_records.len() {
                            assert(!record_key_is(old_records[i], rec0.user@, stage));
                        }
                    }
                }
                Ok(ClaimPayout { tge_amount: tge_amount, claim_amount: committed })
            },
            Some(ridx) => {
                // The stored terms govern every later claim.
                proof {
                    lemma_record_index_unique(self.records@, account@, stage, ridx as int);
                }
                let decision = evaluate_claim(&self.records[ridx], now);
                let (payable, next) = match decision {
                    Err(e) => {
                        return Err(e);
                    },
                    Ok(pn) => pn,
                };
                let available = self.records[ridx].total_amount - self.records[
                    ridx
                ].total_claimed;
                let committed = if payable > available {
                    available
                } else {
                    payable
                };
                let new_claimed = self.records[ridx].total_claimed + committed;
                let new_round_total = match self.rounds[sidx].total_claimed.checked_add(
                    committed,
                ) {
                    None => {
                        return Err(VestError::ArithmeticOverflow);
                    },
                    Some(t) => t,
                };
                let ghost old_records = self.records@;
                let ghost rec0 = self.records@[ridx as int];
                self.records[ridx].total_claimed = new_claimed;
                self.records[ridx].next_claim_epoch_index = next;
                self.rounds[sidx].total_claimed = new_round_total;
                proof {
                    assert(self.records@ =~= old_records.update(
                        ridx as int,
                        applied_record(rec0, committed, next),
                    ));
                    assert forall|i: int, j: int| #![trigger self.records@[i], self.records@[j]]
                        0 <= i < j < self.records@.len() implies !(self.records@[i].user@
                        == self.records@[j].user@ && self.records@[i].stage
                        == self.records@[j].stage) by {
                        assert(old_records[i].user@ == self.records@[i].user@);
                        assert(old_records[j].user@ == self.records@[j].user@);
                    }
                }
                Ok(ClaimPayout { tge_amount: 0, claim_amount: committed })
            },
        }
    }

    /// Reports the stored configuration of a round.
    pub fn get_config_by_stage(&self, stage: u128) -> (r: Result<VestingRoundResponse, VestError>)
        ensures
            match r {
                Ok(resp) => {
                    &&& 1 <= stage <= self.rounds@.len()
                    &&& resp.stage == stage
                    &&& resp.total_claimed == self.rounds@[stage as int - 1].total_claimed
                    &&& resp.token_address@ == self.rounds@[stage as int - 1].token_address@
                    &&& resp.merkle_root@ == self.rounds@[stage as int - 1].merkle_root@
                    &&& resp.created_at == self.rounds@[stage as int - 1].created_at
                },
                Err(e) => e == VestError::NoSuchRound && !(1 <= stage <= self.rounds@.len()),
            },
    {
        if stage < 1 || stage > self.rounds.len() as u128 {
            return Err(VestError::NoSuchRound);
        }
        let sidx: usize = (stage as usize) - 1;
        let round = &self.rounds[sidx];
        Ok(
            VestingRoundResponse {
                stage: stage,
                total_claimed: round.total_claimed,
                token_address: copy_bytes(&round.token_address),
                merkle_root: copy_bytes(&round.merkle_root),
                created_at: round.created_at,
            },
        )
    }

    /// Adds a committed payout to a round's cumulative total. The total
    /// only ever grows; an addition that would overflow is rejected and
    /// changes nothing.
    pub fn add_claimed(&mut self, stage: u128, amount: u128) -> (r: Result<(), VestError>)
        ensures
            final(self).records@ == old(self).records@,
            old(self).wf() ==> final(self).wf(),
            match r {
                Ok(()) => {
                    &&& 1 <= stage <= old(self).rounds@.len()
                    &&& old(self).rounds@[stage as int - 1].total_claimed + amount <= u128::MAX
                    &&& final(self).rounds@ == old(self).rounds@.update(
                        stage as int - 1,
                        round_after_payout(old(self).rounds@[stage as int - 1], amount),
                    )
                },
                Err(e) => {
                    &&& final(self).rounds@ == old(self).rounds@
                    &&& ((e == VestError::NoSuchRound && !(1 <= stage <= old(
                        self,
                    ).rounds@.len())) || (e == VestError::ArithmeticOverflow && 1 <= stage <= old(
                        self,
                    ).rounds@.len() && old(self).rounds@[stage as int - 1].total_claimed + amount
                        > u128::MAX))
                },
            },
    {
        if stage < 1 || stage > self.rounds.len() as u128 {
            return Err(VestError::NoSuchRound);
        }
        let sidx: usize = (stage as usize) - 1;
        let new_total = match self.rounds[sidx].total_claimed.checked_add(amount) {
            None => {
                return Err(VestError::ArithmeticOverflow);
            },
            Some(t) => t,
        };
        self.rounds[sidx].total_claimed = new_total;
        Ok(())
    }

    /// The stored ledger entry for `(account, stage)`, if the pair ever
    /// claimed successfully.
    pub fn read_user_vesting_stats(&self, user: &Vec<u8>, stage: u128) -> (r: Option<
        &UserClaimRecord,
    >)
        requires
            self.wf(),
        ensures
            match r {
                Some(rec) => has_record(self.records@, user@, stage) && *rec == self.records@[
                    record_index(self.records@, user@, stage)
                ],
                None => !has_record(self.records@, user@, stage),
            },
    {
        let found = self.find_record(user, stage);
        match found {
            None => None,
            Some(i) => {
                proof {
                    lemma_record_index_unique(self.records@, user@, stage, i as int);
                }
                Some(&self.records[i])
            },
        }
    }

    /// Stores a ledger entry under its `(account, stage)` key, replacing
    /// any entry already there. There is no way to delete an entry, so a
    /// fully claimed record stays enforceable forever.
    pub fn write_user_vesting_stats(&mut self, rec: UserClaimRecord)
        requires
            old(self).wf(),
        ensures
            final(self).wf(),
            final(self).rounds@ == old(self).rounds@,
            has_record(final(self).records@, rec.user@, rec.stage),
            (if has_record(old(self).records@, rec.user@, rec.stage) {
                final(self).records@ == old(self).records@.update(
                    record_index(old(self).records@, rec.user@, rec.stage),
                    rec,
                )
            } else {
                final(self).records@ == old(self).records@.push(rec)
            }),
    {
        let ghost old_records = self.records@;
        let ghost key_user = rec.user@;
        let ghost key_stage = rec.stage;
        let found = self.find_record(&rec.user, rec.stage);
        match found {
            None => {
                self.records.push(rec);
                proof {
                    assert(record_key_is(self.records@[old_records.len() as int], key_user,
                        key_stage));
                    assert forall|i: int, j: int| #![trigger self.records@[i], self.records@[j]]
                        0 <= i < j < self.records@.len() implies !(self.records@[i].user@
                        == self.records@[j].user@ && self.records@[i].stage
                        == self.records@[j].stage) by {
                        if j == old_records.len() {
                            assert(!record_key_is(old_records[i], key_user, key_stage));
                        }
                    }
                }
            },
            Some(i) => {
                proof {
                    lemma_record_index_unique(self.records@, key_user, key_stage, i as int);
                }
                self.records[i] = rec;
                proof {
                    assert forall|a: int, b: int| #![trigger self.records@[a], self.records@[b]]
                        0 <= a < b < self.records@.len() implies !(self.records@[a].user@
                        == self.records@[b].user@ && self.records@[a].stage
                        == self.records@[b].stage) by {
                        if a == i as int {
                            assert(!(old_records[a].user@ == old_records[b].user@
                                && old_records[a].stage == old_records[b].stage));
                        } else if b == i as int {
                            assert(!(old_records[a].user@ == old_records[b].user@
                                && old_records[a].stage == old_records[b].stage));
                        }
                    }
                }
            },
        }
    }

    /// Looks up the ledger entry for `(account, stage)`.
    fn find_record(&self, account: &Vec<u8>, stage: u128) -> (r: Option<usize>)
        ensures
            match r {
                Some(i) => i < self.records@.len() && record_key_is(
                    self.records@[i as int],
                    account@,
                    stage,
                ),
                None => !has_record(self.records@, account@, stage),
            },
    {
        let mut i: usize = 0;
        while i < self.records.len()
            invariant
                i <= self.records@.len(),
                forall|j: int|
                    0 <= j < i ==> !record_key_is(self.records@[j], account@, stage),
            decreases self.records@.len() - i,
        {
            if self.records[i].stage == stage && crate::bytes::bytes_eq(
                &self.records[i].user,
                account,
            ) {
                return Some(i);
            }
            i = i + 1;
        }
        None
    }
}

} // verus!
