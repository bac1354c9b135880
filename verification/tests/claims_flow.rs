//! End-to-end claim scenarios through the orchestrator.

use sha2::Digest;

use snip20_vesting::TGE_PRECISION;
use snip20_vesting::claims::{ClaimPayout, VestingCore};
use snip20_vesting::error::VestError;

const DAY: u64 = 86400;

fn sha(data: &[u8]) -> [u8; 32] {
    let out = sha2::Sha256::digest(data);
    let mut buf = [0u8; 32];
    buf.copy_from_slice(out.as_slice());
    buf
}

fn leaf(
    account: &str,
    stage: u128,
    total_amount: u128,
    tge: u128,
    start_at: u64,
    cliff: u64,
    duration: u64,
) -> [u8; 32] {
    let rendered = format!(
        "{}{}{}{}{}{}{}",
        account, stage, total_amount, tge, start_at, duration, cliff
    );
    sha(rendered.as_bytes())
}

fn hex_bytes(digest: &[u8; 32]) -> Vec<u8> {
    hex::encode(digest).into_bytes()
}

fn pay(tge_amount: u128, claim_amount: u128) -> ClaimPayout {
    ClaimPayout {
        tge_amount,
        claim_amount,
    }
}

/// Registers a round whose tree holds the single given leaf and returns the
/// stage number.
fn register_single_leaf_round(core: &mut VestingCore, digest: [u8; 32]) -> u128 {
    core.register_round(
        hex_bytes(&digest),
        Some(b"token".to_vec()),
        Some(b"codehash".to_vec()),
        Some(b"distributor".to_vec()),
        None,
        b"admin".to_vec(),
        7,
    )
    .unwrap()
}

#[test]
fn register_round_assigns_sequential_stages() {
    let mut core = VestingCore::new();
    assert_eq!(core.current_stage(), 0);
    let s1 = register_single_leaf_round(&mut core, leaf("alice", 1, 10, 0, 0, 0, 0));
    let s2 = register_single_leaf_round(&mut core, leaf("alice", 2, 10, 0, 0, 0, 0));
    assert_eq!(s1, 1);
    assert_eq!(s2, 2);
    assert_eq!(core.current_stage(), 2);

    let round = core.config_by_stage(1).unwrap();
    assert_eq!(round.total_claimed, 0);
    assert_eq!(round.created_at, 7);
    assert_eq!(round.token_address, b"token".to_vec());
    assert_eq!(round.token_code_hash, b"codehash".to_vec());
    assert_eq!(round.distribution, b"distributor".to_vec());
    assert!(!round.is_paused);
    assert!(core.config_by_stage(3).is_err());
    assert!(core.config_by_stage(0).is_err());
}

#[test]
fn register_round_validates_inputs() {
    let mut core = VestingCore::new();
    let r = core.register_round(
        b"nothex".to_vec(),
        Some(b"token".to_vec()),
        Some(b"codehash".to_vec()),
        None,
        None,
        b"admin".to_vec(),
        0,
    );
    assert_eq!(r, Err(VestError::InvalidRootEncoding));

    let root = hex_bytes(&leaf("alice", 1, 10, 0, 0, 0, 0));
    let r = core.register_round(
        root.clone(),
        Some(b"token".to_vec()),
        None,
        None,
        None,
        b"admin".to_vec(),
        0,
    );
    assert_eq!(r, Err(VestError::MissingTokenCodeHash));

    let r = core.register_round(
        root.clone(),
        None,
        Some(b"codehash".to_vec()),
        None,
        None,
        b"admin".to_vec(),
        0,
    );
    assert_eq!(r, Err(VestError::MissingTokenAddress));

    let r = core.register_round(root.clone(), None, None, None, None, b"admin".to_vec(), 0);
    assert_eq!(r, Err(VestError::MissingTokenConfig));

    // Nothing was registered by the rejected attempts.
    assert_eq!(core.current_stage(), 0);

    // The distribution account defaults to the registrant.
    let stage = core
        .register_round(
            root,
            Some(b"token".to_vec()),
            Some(b"codehash".to_vec()),
            None,
            Some(true),
            b"admin".to_vec(),
            0,
        )
        .unwrap();
    let round = core.config_by_stage(stage).unwrap();
    assert_eq!(round.distribution, b"admin".to_vec());
    assert!(round.is_paused);
}

#[test]
fn tge_exactness_fifty_percent() {
    // An immediate-unlock fraction of one half on a grant of 1000: the
    // first claim pays 500, the residual principal becomes 500, and the
    // cumulative total is 500.
    let tge = TGE_PRECISION / 2;
    let mut core = VestingCore::new();
    let stage = register_single_leaf_round(
        &mut core,
        leaf("alice", 1, 1000, tge, 0, 100 * DAY, 300 * DAY),
    );
    let r = core.claim(
        &vec![],
        b"alice".to_vec(),
        stage,
        1000,
        tge,
        0,
        100 * DAY,
        300 * DAY,
        50,
    );
    assert_eq!(r, Ok(pay(500, 0)));

    let rec = core
        .read_user_vesting_stats(&b"alice".to_vec(), stage)
        .unwrap();
    assert_eq!(rec.total_amount, 500);
    assert_eq!(rec.total_claimed, 500);
    assert_eq!(rec.tge, tge);
    assert_eq!(rec.next_claim_epoch_index, 101);
    assert_eq!(core.config_by_stage(stage).unwrap().total_claimed, 500);
}

#[test]
fn creation_pays_unlock_and_first_slice() {
    // A first claim made after the cliff pays the immediate unlock and the
    // already-vested linear slice in the same call.
    let tge = TGE_PRECISION / 10;
    let mut core = VestingCore::new();
    let stage =
        register_single_leaf_round(&mut core, leaf("alice", 1, 1000, tge, 0, 0, 300 * DAY));
    let r = core.claim(
        &vec![],
        b"alice".to_vec(),
        stage,
        1000,
        tge,
        0,
        0,
        300 * DAY,
        10 * DAY,
    );
    // Unlock 100; residual 900; ten elapsed days release 900*10/300 = 30.
    assert_eq!(r, Ok(pay(100, 30)));
    let rec = core
        .read_user_vesting_stats(&b"alice".to_vec(), stage)
        .unwrap();
    assert_eq!(rec.total_amount, 900);
    assert_eq!(rec.total_claimed, 130);
    assert_eq!(rec.next_claim_epoch_index, 11);
    assert_eq!(core.config_by_stage(stage).unwrap().total_claimed, 130);
}

#[test]
fn pre_start_rejection_commits_nothing() {
    let mut core = VestingCore::new();
    let stage = register_single_leaf_round(&mut core, leaf("alice", 1, 1000, 0, 1000, 0, 0));
    let r = core.claim(&vec![], b"alice".to_vec(), stage, 1000, 0, 1000, 0, 0, 999);
    assert_eq!(r, Err(VestError::NotStarted));
    assert!(core
        .read_user_vesting_stats(&b"alice".to_vec(), stage)
        .is_none());
    assert_eq!(core.config_by_stage(stage).unwrap().total_claimed, 0);

    // With an invalid proof the claim still fails and commits nothing.
    let r = core.claim(
        &vec![b"zz".to_vec()],
        b"alice".to_vec(),
        stage,
        1000,
        0,
        1000,
        0,
        0,
        999,
    );
    assert_eq!(r, Err(VestError::InvalidProofEncoding));
    assert_eq!(core.config_by_stage(stage).unwrap().total_claimed, 0);
}

#[test]
fn paused_round_rejects_claims() {
    let mut core = VestingCore::new();
    let stage = core
        .register_round(
            hex_bytes(&leaf("alice", 1, 1000, 0, 0, 0, 0)),
            Some(b"token".to_vec()),
            Some(b"codehash".to_vec()),
            None,
            Some(true),
            b"admin".to_vec(),
            0,
        )
        .unwrap();
    let r = core.claim(&vec![], b"alice".to_vec(), stage, 1000, 0, 0, 0, 0, DAY);
    assert_eq!(r, Err(VestError::RoundPaused));
    assert!(core
        .read_user_vesting_stats(&b"alice".to_vec(), stage)
        .is_none());
    assert_eq!(core.config_by_stage(stage).unwrap().total_claimed, 0);

    // An unpaused round with the same tree pays.
    let stage2 = register_single_leaf_round(&mut core, leaf("alice", 2, 1000, 0, 0, 0, 0));
    let r = core.claim(&vec![], b"alice".to_vec(), stage2, 1000, 0, 0, 0, 0, DAY);
    assert_eq!(r, Ok(pay(0, 1000)));
}

#[test]
fn claim_unknown_stage() {
    let mut core = VestingCore::new();
    let stage = register_single_leaf_round(&mut core, leaf("alice", 1, 1000, 0, 0, 0, 0));
    assert_eq!(stage, 1);
    let r = core.claim(&vec![], b"alice".to_vec(), 2, 1000, 0, 0, 0, 0, 10);
    assert_eq!(r, Err(VestError::NoSuchRound));
    let r = core.claim(&vec![], b"alice".to_vec(), 0, 1000, 0, 0, 0, 0, 10);
    assert_eq!(r, Err(VestError::NoSuchRound));
}

#[test]
fn claim_wrong_parameters_rejected() {
    let mut core = VestingCore::new();
    let stage = register_single_leaf_round(&mut core, leaf("alice", 1, 1000, 0, 0, 0, 0));
    // A grant amount the tree never authenticated.
    let r = core.claim(&vec![], b"alice".to_vec(), stage, 9999, 0, 0, 0, 0, 10);
    assert_eq!(r, Err(VestError::ProofVerificationFailed));
    // Another account.
    let r = core.claim(&vec![], b"mallory".to_vec(), stage, 1000, 0, 0, 0, 0, 10);
    assert_eq!(r, Err(VestError::ProofVerificationFailed));
}

#[test]
fn cliff_gates_linear_claims() {
    // Before the cliff, an account without an immediate unlock is rejected;
    // one with an immediate unlock gets a successful no-op.
    let tge = TGE_PRECISION / 10;
    let mut core = VestingCore::new();
    let stage_plain =
        register_single_leaf_round(&mut core, leaf("alice", 1, 1000, 0, 0, 10 * DAY, 300 * DAY));
    let stage_tge = register_single_leaf_round(
        &mut core,
        leaf("bob", 2, 1000, tge, 0, 10 * DAY, 300 * DAY),
    );

    // Create both records early on day 0; inside the cliff nothing linear
    // is released yet.
    let r = core.claim(
        &vec![],
        b"alice".to_vec(),
        stage_plain,
        1000,
        0,
        0,
        10 * DAY,
        300 * DAY,
        5,
    );
    assert_eq!(r, Ok(pay(0, 0)));
    let r = core.claim(
        &vec![],
        b"bob".to_vec(),
        stage_tge,
        1000,
        tge,
        0,
        10 * DAY,
        300 * DAY,
        5,
    );
    assert_eq!(r, Ok(pay(100, 0)));

    // Day 3: still inside the cliff.
    let r = core.claim(
        &vec![],
        b"alice".to_vec(),
        stage_plain,
        1000,
        0,
        0,
        10 * DAY,
        300 * DAY,
        3 * DAY,
    );
    assert_eq!(r, Err(VestError::CliffNotPassed));
    let r = core.claim(
        &vec![],
        b"bob".to_vec(),
        stage_tge,
        1000,
        tge,
        0,
        10 * DAY,
        300 * DAY,
        3 * DAY,
    );
    assert_eq!(r, Ok(pay(0, 0)));
    assert_eq!(core.config_by_stage(stage_tge).unwrap().total_claimed, 100);
}

#[test]
fn no_double_claim_same_day() {
    let mut core = VestingCore::new();
    let stage =
        register_single_leaf_round(&mut core, leaf("alice", 1, 3000, 0, 0, 0, 300 * DAY));
    let r = core.claim(
        &vec![],
        b"alice".to_vec(),
        stage,
        3000,
        0,
        0,
        0,
        300 * DAY,
        0,
    );
    assert_eq!(r, Ok(pay(0, 0)));

    // Day 5: one payout.
    let r = core.claim(
        &vec![],
        b"alice".to_vec(),
        stage,
        3000,
        0,
        0,
        0,
        300 * DAY,
        5 * DAY + 17,
    );
    assert_eq!(r, Ok(pay(0, 50)));

    // Later the same day: rejected, and nothing further was paid.
    let r = core.claim(
        &vec![],
        b"alice".to_vec(),
        stage,
        3000,
        0,
        0,
        0,
        300 * DAY,
        5 * DAY + 23456,
    );
    assert_eq!(r, Err(VestError::AlreadyVestedForPeriod));
    assert_eq!(core.config_by_stage(stage).unwrap().total_claimed, 50);
    let rec = core
        .read_user_vesting_stats(&b"alice".to_vec(), stage)
        .unwrap();
    assert_eq!(rec.total_claimed, 50);
    assert_eq!(rec.next_claim_epoch_index, 6);
}

#[test]
fn duration_zero_pays_everything_once() {
    let mut core = VestingCore::new();
    let stage = register_single_leaf_round(&mut core, leaf("alice", 1, 1000, 0, 0, 0, 0));
    let r = core.claim(&vec![], b"alice".to_vec(), stage, 1000, 0, 0, 0, 0, 0);
    assert_eq!(r, Ok(pay(0, 0)));

    // Still inside the seeded day bucket: nothing further today.
    let r = core.claim(&vec![], b"alice".to_vec(), stage, 1000, 0, 0, 0, 0, 1);
    assert_eq!(r, Err(VestError::AlreadyVestedForPeriod));

    let r = core.claim(&vec![], b"alice".to_vec(), stage, 1000, 0, 0, 0, 0, DAY);
    assert_eq!(r, Ok(pay(0, 1000)));
    let rec = core
        .read_user_vesting_stats(&b"alice".to_vec(), stage)
        .unwrap();
    assert_eq!(rec.total_claimed, 1000);
    assert_eq!(rec.total_amount, 1000);

    let r = core.claim(&vec![], b"alice".to_vec(), stage, 1000, 0, 0, 0, 0, DAY + 2);
    assert_eq!(r, Err(VestError::FullyClaimed));
    let r = core.claim(&vec![], b"alice".to_vec(), stage, 1000, 0, 0, 0, 0, 400 * DAY);
    assert_eq!(r, Err(VestError::FullyClaimed));
    assert_eq!(core.config_by_stage(stage).unwrap().total_claimed, 1000);
}

#[test]
fn linear_accumulation_end_to_end() {
    // 3000 over 300 days, claimed once every 100 days: three payouts of
    // 1000 each, then the schedule is exhausted. The first call both
    // creates the record and releases its hundred elapsed days.
    let mut core = VestingCore::new();
    let stage =
        register_single_leaf_round(&mut core, leaf("alice", 1, 3000, 0, 0, 0, 300 * DAY));

    let mut claimed_so_far: u128 = 0;
    for step in 1..=3u64 {
        let now = step * 100 * DAY;
        let r = core.claim(
            &vec![],
            b"alice".to_vec(),
            stage,
            3000,
            0,
            0,
            0,
            300 * DAY,
            now,
        );
        assert_eq!(r, Ok(pay(0, 1000)));
        let rec = core
            .read_user_vesting_stats(&b"alice".to_vec(), stage)
            .unwrap();
        // Monotonic: the cumulative total only grows, and never beyond the
        // principal.
        assert!(rec.total_claimed > claimed_so_far);
        assert!(rec.total_claimed <= rec.total_amount);
        claimed_so_far = rec.total_claimed;
    }
    assert_eq!(claimed_so_far, 3000);
    assert_eq!(core.config_by_stage(stage).unwrap().total_claimed, 3000);

    let r = core.claim(
        &vec![],
        b"alice".to_vec(),
        stage,
        3000,
        0,
        0,
        0,
        300 * DAY,
        400 * DAY,
    );
    assert_eq!(r, Err(VestError::FullyClaimed));
}

#[test]
fn late_claim_is_capped_at_the_principal() {
    // Claiming long after the schedule ended releases exactly what is left,
    // never more: 3000 over 300 days claimed once at day 600 pays 3000.
    let mut core = VestingCore::new();
    let stage =
        register_single_leaf_round(&mut core, leaf("alice", 1, 3000, 0, 0, 0, 300 * DAY));
    let r = core.claim(
        &vec![],
        b"alice".to_vec(),
        stage,
        3000,
        0,
        0,
        0,
        300 * DAY,
        600 * DAY,
    );
    assert_eq!(r, Ok(pay(0, 3000)));
    let rec = core
        .read_user_vesting_stats(&b"alice".to_vec(), stage)
        .unwrap();
    assert_eq!(rec.total_claimed, 3000);
    assert_eq!(rec.total_amount, 3000);
    assert_eq!(core.config_by_stage(stage).unwrap().total_claimed, 3000);

    let r = core.claim(
        &vec![],
        b"alice".to_vec(),
        stage,
        3000,
        0,
        0,
        0,
        300 * DAY,
        601 * DAY,
    );
    assert_eq!(r, Err(VestError::FullyClaimed));
}

#[test]
fn round_isolation_between_stages() {
    let mut core = VestingCore::new();
    let stage1 = register_single_leaf_round(&mut core, leaf("alice", 1, 1000, 0, 0, 0, 0));
    let stage2 = register_single_leaf_round(&mut core, leaf("alice", 2, 7000, 0, 0, 0, 0));

    // Claim everything on stage 1.
    let r = core.claim(&vec![], b"alice".to_vec(), stage1, 1000, 0, 0, 0, 0, DAY);
    assert_eq!(r, Ok(pay(0, 1000)));

    // Stage 2 is untouched: no record, no round total.
    assert_eq!(core.config_by_stage(stage2).unwrap().total_claimed, 0);
    assert!(core
        .read_user_vesting_stats(&b"alice".to_vec(), stage2)
        .is_none());

    // Claims on stage 2 leave stage 1 as it was.
    let r = core.claim(&vec![], b"alice".to_vec(), stage2, 7000, 0, 0, 0, 0, DAY);
    assert_eq!(r, Ok(pay(0, 7000)));
    assert_eq!(core.config_by_stage(stage1).unwrap().total_claimed, 1000);
    assert_eq!(
        core.read_user_vesting_stats(&b"alice".to_vec(), stage1)
            .unwrap()
            .total_claimed,
        1000
    );
}

#[test]
fn tge_above_precision_overflows() {
    // An unlock fraction above one pays more than the grant holds; the
    // subtraction is rejected as an arithmetic fault.
    let tge = 2 * TGE_PRECISION;
    let mut core = VestingCore::new();
    let stage = register_single_leaf_round(&mut core, leaf("alice", 1, 1000, tge, 0, 0, 0));
    let r = core.claim(&vec![], b"alice".to_vec(), stage, 1000, tge, 0, 0, 0, 5);
    assert_eq!(r, Err(VestError::ArithmeticOverflow));
    assert!(core
        .read_user_vesting_stats(&b"alice".to_vec(), stage)
        .is_none());
}

#[test]
fn tge_product_overflow_is_rejected() {
    let tge = TGE_PRECISION / 2;
    let amount = u128::MAX / 4;
    let mut core = VestingCore::new();
    let stage = register_single_leaf_round(&mut core, leaf("whale", 1, amount, tge, 0, 0, 0));
    let r = core.claim(&vec![], b"whale".to_vec(), stage, amount, tge, 0, 0, 0, 5);
    assert_eq!(r, Err(VestError::ArithmeticOverflow));
}

#[test]
fn stored_terms_govern_repeat_claims() {
    // Two different leaves for the same (account, stage) key: the record
    // created first keeps its terms; the second leaf's parameters
    // authenticate but are applied to the stored record.
    let l1 = leaf("alice", 1, 1000, 0, 0, 0, 0);
    let l2 = leaf("alice", 1, 500000, 0, 0, 0, 300 * DAY);
    let mut core = VestingCore::new();
    let mut pair = [l1, l2];
    pair.sort_unstable();
    let mut cat = Vec::new();
    cat.extend_from_slice(&pair[0]);
    cat.extend_from_slice(&pair[1]);
    let root = hex::encode(sha(&cat)).into_bytes();
    let stage = core
        .register_round(
            root,
            Some(b"token".to_vec()),
            Some(b"codehash".to_vec()),
            None,
            None,
            b"admin".to_vec(),
            0,
        )
        .unwrap();

    let proof1 = vec![hex::encode(l2).into_bytes()];
    let proof2 = vec![hex::encode(l1).into_bytes()];
    let r = core.claim(&proof1, b"alice".to_vec(), stage, 1000, 0, 0, 0, 0, 0);
    assert_eq!(r, Ok(pay(0, 0)));

    // The second leaf's far larger grant does not replace the record: the
    // duration-zero schedule stored at creation pays out the stored 1000.
    let r = core.claim(
        &proof2,
        b"alice".to_vec(),
        stage,
        500000,
        0,
        0,
        0,
        300 * DAY,
        DAY,
    );
    assert_eq!(r, Ok(pay(0, 1000)));
    let rec = core
        .read_user_vesting_stats(&b"alice".to_vec(), stage)
        .unwrap();
    assert_eq!(rec.total_amount, 1000);
    assert_eq!(rec.total_claimed, 1000);
}
