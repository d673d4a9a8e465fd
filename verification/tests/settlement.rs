use rig_it::deposit::{claim_anti_sniped_deposit, deposit_to_rig, DepositToRigArgs};
use rig_it::errors::RigItError;
use rig_it::lifecycle::{commit_randomness, init_block, init_protocol, start_exploration};
use rig_it::randomness::generate_commit_hash;
use rig_it::settlement::{
    allocate_buyback_budget, claim_winnings, refund_loser, reveal_randomness,
    reveal_timeout_fallback,
};
use rig_it::state::{
    BlockState, DepositReceipt, ExplorationState, ExplorationStatus, ProtocolConfig, RigState,
};

const ADMIN: u64 = 1;
const OPERATOR: u64 = 2;
const EMERGENCY: u64 = 3;
const MINT: u64 = 4;
const ALICE: u64 = 10;
const BOB: u64 = 11;

fn fresh_rig() -> RigState {
    RigState {
        initialized: false,
        block_id: 0,
        exploration_index: 0,
        rig_index: 0,
        total_deposits: 0,
        total_tickets: 0,
        deposit_count: 0,
    }
}

fn slot_hashes_bytes(entries: &[(u64, [u8; 32])]) -> Vec<u8> {
    let mut data = Vec::new();
    data.extend_from_slice(&(entries.len() as u64).to_le_bytes());
    for (slot, hash) in entries {
        data.extend_from_slice(&slot.to_le_bytes());
        data.extend_from_slice(hash);
    }
    data
}

/// Start a round and fill it with Alice's 4_000_000 on rig 0 (2_000_000
/// tickets) and Bob's 1_000_000 on rig 1 (1_000_000 tickets).
fn funded_round(
    config: &ProtocolConfig,
    block: &mut BlockState,
) -> (ExplorationState, RigState, RigState, DepositReceipt, DepositReceipt) {
    let mut e = start_exploration(config, block, None, OPERATOR, 1000, 50).unwrap();
    let mut rig0 = fresh_rig();
    let mut rig1 = fresh_rig();
    let r_alice = deposit_to_rig(
        config,
        block,
        &mut e,
        &mut rig0,
        DepositToRigArgs { rig_index: 0, amount: 4_000_000, deposit_nonce: 1 },
        0,
        ALICE,
        2000,
    )
    .unwrap();
    let r_bob = deposit_to_rig(
        config,
        block,
        &mut e,
        &mut rig1,
        DepositToRigArgs { rig_index: 1, amount: 1_000_000, deposit_nonce: 1 },
        0,
        BOB,
        2500,
    )
    .unwrap();
    assert_eq!(e.total_deposits, 5_000_000);
    assert_eq!(e.rig_tickets[0], 2_000_000);
    assert_eq!(e.rig_tickets[1], 1_000_000);
    (e, rig0, rig1, r_alice, r_bob)
}

#[test]
fn test_reveal_settles_round() {
    let config = init_protocol(ADMIN, OPERATOR, MINT, EMERGENCY);
    let mut block = init_block(&config, ADMIN, 0, 1_000_000, MINT, 9).unwrap();
    let (mut e, _rig0, _rig1, _ra, _rb) = funded_round(&config, &mut block);

    let secret = [9u8; 32];
    let commit = generate_commit_hash(&secret, 120);
    commit_randomness(&config, &block, &mut e, commit, 120, OPERATOR, 8200, 100).unwrap();
    assert_eq!(e.status, ExplorationStatus::Finalizing);

    let slot_hashes = slot_hashes_bytes(&[(120, [7u8; 32])]);

    // Too early: the target slot has not been reached.
    assert_eq!(
        reveal_randomness(&config, &mut block, &mut e, &secret, &slot_hashes, OPERATOR, 110),
        Err(RigItError::RevealTooEarly)
    );
    // A wrong secret does not match the commitment.
    assert_eq!(
        reveal_randomness(&config, &mut block, &mut e, &[8u8; 32], &slot_hashes, OPERATOR, 130),
        Err(RigItError::InvalidRevealSecret)
    );
    // Entropy for the committed slot must be available.
    let other_slot = slot_hashes_bytes(&[(119, [7u8; 32])]);
    assert_eq!(
        reveal_randomness(&config, &mut block, &mut e, &secret, &other_slot, OPERATOR, 130),
        Err(RigItError::SlotHashNotAvailable)
    );

    reveal_randomness(&config, &mut block, &mut e, &secret, &slot_hashes, OPERATOR, 130).unwrap();

    // sha256(secret, slot-120 entropy) drawn over 3_000_000 tickets picks
    // rig 0 (draw 1_020_483 < 2_000_000).
    assert_eq!(e.status, ExplorationStatus::Settled);
    assert_eq!(e.winning_rig, Some(0));
    assert_eq!(e.total_winner_deposits, 4_000_000);
    assert_eq!(e.total_loser_deposits, 1_000_000);
    // Settlement identity: W + L equals the round's deposits, and
    // R = W + floor(L/2).
    assert_eq!(
        e.total_winner_deposits + e.total_loser_deposits,
        e.total_deposits + e.rollover_amount
    );
    assert_eq!(
        e.remaining_pool,
        e.total_winner_deposits + e.total_loser_deposits / 2
    );
    assert_eq!(e.remaining_pool, 4_500_000);
    assert_eq!(block.total_volume, 5_000_000);
    assert_eq!(block.total_explorations_completed, 1);
}

#[test]
fn test_claims_pay_once() {
    let config = init_protocol(ADMIN, OPERATOR, MINT, EMERGENCY);
    let mut block = init_block(&config, ADMIN, 0, 1_000_000, MINT, 9).unwrap();
    let (mut e, rig0, rig1, mut r_alice, mut r_bob) = funded_round(&config, &mut block);

    let secret = [9u8; 32];
    let commit = generate_commit_hash(&secret, 120);
    commit_randomness(&config, &block, &mut e, commit, 120, OPERATOR, 8200, 100).unwrap();
    let slot_hashes = slot_hashes_bytes(&[(120, [7u8; 32])]);
    reveal_randomness(&config, &mut block, &mut e, &secret, &slot_hashes, OPERATOR, 130).unwrap();
    assert_eq!(e.winning_rig, Some(0));

    // Alice holds all 2_000_000 tickets of the winning rig: she gets the
    // whole winner pool, floor(4_500_000 * 5000 / 10000) = 2_250_000.
    let payout = claim_winnings(&config, &e, &rig0, &mut r_alice, ALICE).unwrap();
    assert_eq!(payout, 2_250_000);
    assert!(r_alice.winnings_claimed);

    // Claiming twice fails, and only with the already-claimed error.
    assert_eq!(
        claim_winnings(&config, &e, &rig0, &mut r_alice, ALICE),
        Err(RigItError::WinningsAlreadyClaimed)
    );

    // Bob lost: a flat half of his 1_000_000 deposit.
    let refund = refund_loser(&e, &rig1, &mut r_bob, BOB).unwrap();
    assert_eq!(refund, 500_000);
    assert!(r_bob.refund_claimed);
    assert_eq!(
        refund_loser(&e, &rig1, &mut r_bob, BOB),
        Err(RigItError::RefundAlreadyClaimed)
    );

    // Wrong side of the draw.
    assert_eq!(
        claim_winnings(&config, &e, &rig1, &mut r_bob, BOB),
        Err(RigItError::NotAWinner)
    );
    assert_eq!(
        refund_loser(&e, &rig0, &mut r_alice, ALICE),
        Err(RigItError::NotALoser)
    );

    // Only the receipt's owner can claim.
    let mut foreign = r_bob;
    foreign.refund_claimed = false;
    assert_eq!(
        refund_loser(&e, &rig1, &mut foreign, ALICE),
        Err(RigItError::Unauthorized)
    );
}

#[test]
fn test_buyback_allocation() {
    let config = init_protocol(ADMIN, OPERATOR, MINT, EMERGENCY);
    let mut block = init_block(&config, ADMIN, 0, 1_000_000, MINT, 9).unwrap();
    let (mut e, _rig0, _rig1, _ra, _rb) = funded_round(&config, &mut block);

    let secret = [9u8; 32];
    let commit = generate_commit_hash(&secret, 120);
    commit_randomness(&config, &block, &mut e, commit, 120, OPERATOR, 8200, 100).unwrap();
    let slot_hashes = slot_hashes_bytes(&[(120, [7u8; 32])]);

    // Not yet settled.
    assert_eq!(
        allocate_buyback_budget(&config, &mut e, OPERATOR).map(|_| ()),
        Err(RigItError::ExplorationNotSettled)
    );
    reveal_randomness(&config, &mut block, &mut e, &secret, &slot_hashes, OPERATOR, 130).unwrap();
    assert_eq!(e.remaining_pool, 4_500_000);

    assert_eq!(
        allocate_buyback_budget(&config, &mut e, ADMIN).map(|_| ()),
        Err(RigItError::Unauthorized)
    );

    let alloc = allocate_buyback_budget(&config, &mut e, OPERATOR).unwrap();
    assert_eq!(alloc.burn_amount, 675_000); // 15% of R
    assert_eq!(alloc.lp_amount, 675_000); // 15% of R
    assert_eq!(alloc.team_amount, 450_000); // 10% of R
    assert_eq!(alloc.ecosystem_amount, 450_000); // 10% of R
    assert!(e.buyback_allocated);

    assert_eq!(
        allocate_buyback_budget(&config, &mut e, OPERATOR).map(|_| ()),
        Err(RigItError::BuybackAlreadyAllocated)
    );
}

#[test]
fn test_timeout_fallback_settles() {
    let config = init_protocol(ADMIN, OPERATOR, MINT, EMERGENCY);
    let mut block = init_block(&config, ADMIN, 0, 1_000_000, MINT, 9).unwrap();
    let (mut e, _rig0, _rig1, _ra, _rb) = funded_round(&config, &mut block);

    let secret = [9u8; 32];
    let commit = generate_commit_hash(&secret, 120);
    commit_randomness(&config, &block, &mut e, commit, 120, OPERATOR, 8200, 100).unwrap();
    assert_eq!(e.reveal_deadline_slot, 270);

    let deadline_hashes = slot_hashes_bytes(&[(270, [7u8; 32])]);

    // The fallback is locked until the deadline passes.
    assert_eq!(
        reveal_timeout_fallback(&mut block, &mut e, &deadline_hashes, 270),
        Err(RigItError::RevealDeadlineNotPassed)
    );
    // The authenticated reveal is over once the deadline passed.
    assert_eq!(
        reveal_randomness(&config, &mut block, &mut e, &secret, &deadline_hashes, OPERATOR, 271),
        Err(RigItError::RevealDeadlinePassed)
    );

    reveal_timeout_fallback(&mut block, &mut e, &deadline_hashes, 271).unwrap();

    // The deadline slot's entropy drawn over 3_000_000 tickets picks rig 1
    // (draw 2_911_687 >= 2_000_000).
    assert_eq!(e.status, ExplorationStatus::Settled);
    assert_eq!(e.winning_rig, Some(1));
    assert_eq!(e.total_winner_deposits, 1_000_000);
    assert_eq!(e.total_loser_deposits, 4_000_000);
    assert_eq!(e.remaining_pool, 3_000_000);
    assert_eq!(
        e.total_winner_deposits + e.total_loser_deposits,
        e.total_deposits + e.rollover_amount
    );
}

#[test]
fn test_deposit_validation() {
    let config = init_protocol(ADMIN, OPERATOR, MINT, EMERGENCY);
    let mut block = init_block(&config, ADMIN, 0, 1_000_000, MINT, 9).unwrap();
    let mut e = start_exploration(&config, &mut block, None, OPERATOR, 1000, 50).unwrap();
    let mut rig = fresh_rig();

    assert_eq!(
        deposit_to_rig(
            &config,
            &block,
            &mut e,
            &mut rig,
            DepositToRigArgs { rig_index: 36, amount: 2_000_000, deposit_nonce: 1 },
            0,
            ALICE,
            2000,
        )
        .map(|_| ()),
        Err(RigItError::InvalidRigIndex)
    );
    assert_eq!(
        deposit_to_rig(
            &config,
            &block,
            &mut e,
            &mut rig,
            DepositToRigArgs { rig_index: 0, amount: 999_999, deposit_nonce: 1 },
            0,
            ALICE,
            2000,
        )
        .map(|_| ()),
        Err(RigItError::DepositTooSmall)
    );
    assert_eq!(e.total_deposits, 0);
}

#[test]
fn test_deposit_pause_and_phase_errors() {
    let mut config = init_protocol(ADMIN, OPERATOR, MINT, EMERGENCY);
    let mut block = init_block(&config, ADMIN, 0, 1_000_000, MINT, 9).unwrap();
    let mut e = start_exploration(&config, &mut block, None, OPERATOR, 1000, 50).unwrap();
    let mut rig = fresh_rig();
    let args = || DepositToRigArgs { rig_index: 0, amount: 2_000_000, deposit_nonce: 1 };

    // Block-level pause.
    block.paused = true;
    assert_eq!(
        deposit_to_rig(&config, &block, &mut e, &mut rig, args(), 0, ALICE, 2000).map(|_| ()),
        Err(RigItError::BlockPaused)
    );
    block.paused = false;

    // Protocol-level pause.
    config.paused = true;
    assert_eq!(
        deposit_to_rig(&config, &block, &mut e, &mut rig, args(), 0, ALICE, 2000).map(|_| ()),
        Err(RigItError::ProtocolPaused)
    );
    config.paused = false;

    // The reveal needs a round in the finalizing phase.
    let slot_hashes = slot_hashes_bytes(&[(120, [7u8; 32])]);
    assert_eq!(
        reveal_randomness(&config, &mut block, &mut e, &[9u8; 32], &slot_hashes, OPERATOR, 130),
        Err(RigItError::ExplorationNotFinalizing)
    );

    // Once committed, the round no longer accepts deposits.
    deposit_to_rig(&config, &block, &mut e, &mut rig, args(), 0, ALICE, 2000).unwrap();
    let commit = generate_commit_hash(&[9u8; 32], 120);
    commit_randomness(&config, &block, &mut e, commit, 120, OPERATOR, 8200, 100).unwrap();
    assert_eq!(
        deposit_to_rig(&config, &block, &mut e, &mut rig, args(), 0, ALICE, 8300).map(|_| ()),
        Err(RigItError::ExplorationNotActive)
    );
}

#[test]
fn test_deposit_counter_overflow_is_rejected() {
    let config = init_protocol(ADMIN, OPERATOR, MINT, EMERGENCY);
    let mut block = init_block(&config, ADMIN, 0, 1_000_000, MINT, 9).unwrap();
    let mut e = start_exploration(&config, &mut block, None, OPERATOR, 1000, 50).unwrap();
    e.total_deposits = u64::MAX;
    e.rig_deposits[0] = u64::MAX;
    let mut rig = fresh_rig();
    let before = e.rig_deposits[0];

    assert_eq!(
        deposit_to_rig(
            &config,
            &block,
            &mut e,
            &mut rig,
            DepositToRigArgs { rig_index: 0, amount: 2_000_000, deposit_nonce: 1 },
            0,
            ALICE,
            2000,
        )
        .map(|_| ()),
        Err(RigItError::ArithmeticOverflow)
    );
    // Nothing moved.
    assert_eq!(e.rig_deposits[0], before);
    assert_eq!(rig.deposit_count, 0);
}

#[test]
fn test_rollover_only_round_has_no_tickets() {
    // A round funded purely by rollover passes the threshold but holds no
    // tickets: the draw has no winner and settlement reports it.
    let config = init_protocol(ADMIN, OPERATOR, MINT, EMERGENCY);
    let mut block = init_block(&config, ADMIN, 0, 1_000_000, MINT, 9).unwrap();
    let mut e = start_exploration(&config, &mut block, None, OPERATOR, 1000, 50).unwrap();
    e.rollover_amount = 2_000_000;

    let secret = [9u8; 32];
    let commit = generate_commit_hash(&secret, 120);
    commit_randomness(&config, &block, &mut e, commit, 120, OPERATOR, 8200, 100).unwrap();
    assert_eq!(e.status, ExplorationStatus::Finalizing);

    let slot_hashes = slot_hashes_bytes(&[(120, [7u8; 32])]);
    assert_eq!(
        reveal_randomness(&config, &mut block, &mut e, &secret, &slot_hashes, OPERATOR, 130),
        Err(RigItError::ThresholdNotMet)
    );
    assert_eq!(e.status, ExplorationStatus::Finalizing);
    assert_eq!(e.winning_rig, None);
}

#[test]
fn test_round_accessors() {
    let config = init_protocol(ADMIN, OPERATOR, MINT, EMERGENCY);
    let mut block = init_block(&config, ADMIN, 0, 1_000_000, MINT, 9).unwrap();
    let mut e = start_exploration(&config, &mut block, None, OPERATOR, 1000, 50).unwrap();

    assert!(e.is_active(5000));
    assert!(!e.is_active(8200)); // at the end of the window
    assert!(e.is_anti_snipe_window(8100, 300));
    assert!(!e.is_anti_snipe_window(7899, 300));
    assert!(!e.is_anti_snipe_window(8200, 300));

    e.total_deposits = 3_000_000;
    e.rollover_amount = 500_000;
    assert_eq!(e.total_pool(), 3_500_000);
    e.rollover_amount = u64::MAX;
    assert_eq!(e.total_pool(), u64::MAX); // saturates

    e.total_winner_deposits = 4_000_000;
    e.total_loser_deposits = 1_000_001;
    assert_eq!(e.calculate_remaining_pool(), 4_500_000);
}

#[test]
fn test_anti_snipe_deferral() {
    // Window is [active_end - 300, active_end) = [7900, 8200). A deposit
    // at 8100 is flagged, excluded from the totals, and migratable into
    // the next round exactly once with identical amount and tickets.
    let config = init_protocol(ADMIN, OPERATOR, MINT, EMERGENCY);
    let mut block = init_block(&config, ADMIN, 0, 1_000_000_000, MINT, 9).unwrap();
    let mut e = start_exploration(&config, &mut block, None, OPERATOR, 1000, 50).unwrap();
    let mut rig = fresh_rig();

    let mut sniped = deposit_to_rig(
        &config,
        &block,
        &mut e,
        &mut rig,
        DepositToRigArgs { rig_index: 5, amount: 2_000_000, deposit_nonce: 7 },
        0,
        ALICE,
        8100,
    )
    .unwrap();
    assert!(sniped.is_anti_sniped);
    assert_eq!(sniped.amount, 2_000_000);
    assert_eq!(e.total_deposits, 0);
    assert_eq!(e.rig_deposits[5], 0);
    assert_eq!(e.rig_tickets[5], 0);
    assert_eq!(rig.total_deposits, 0);

    // An on-time deposit at the same instant outside the window would
    // count; one second before the window opens is ordinary.
    let mut rig2 = fresh_rig();
    let normal = deposit_to_rig(
        &config,
        &block,
        &mut e,
        &mut rig2,
        DepositToRigArgs { rig_index: 6, amount: 2_000_000, deposit_nonce: 8 },
        0,
        BOB,
        7899,
    )
    .unwrap();
    assert!(!normal.is_anti_sniped);
    assert_eq!(e.total_deposits, 2_000_000);

    // Resolve the round (pool below the huge threshold rolls it over) and
    // open the next one.
    let commit = generate_commit_hash(&[0u8; 32], 500);
    commit_randomness(&config, &block, &mut e, commit, 500, OPERATOR, 8200, 60).unwrap();
    assert_eq!(e.status, ExplorationStatus::RolledOver);
    let mut next = start_exploration(&config, &mut block, Some(&e), OPERATOR, 11000, 80).unwrap();
    let mut next_rig = fresh_rig();

    let migrated = claim_anti_sniped_deposit(&mut sniped, &mut next, &mut next_rig, ALICE, 11050)
        .unwrap();
    assert_eq!(migrated.amount, 2_000_000);
    assert_eq!(migrated.effective_tickets, sniped.effective_tickets);
    assert_eq!(migrated.rig_index, 5);
    assert_eq!(migrated.exploration_index, 1);
    assert!(!migrated.is_anti_sniped);
    assert_eq!(sniped.rolled_to_exploration, Some(1));
    assert_eq!(next.total_deposits, 2_000_000);
    assert_eq!(next.rig_deposits[5], 2_000_000);
    assert_eq!(next.rig_tickets[5], migrated.effective_tickets);

    // A second migration of the same receipt fails.
    assert_eq!(
        claim_anti_sniped_deposit(&mut sniped, &mut next, &mut next_rig, ALICE, 11060)
            .map(|_| ()),
        Err(RigItError::DepositAlreadyRolledOver)
    );
    // An ordinary receipt cannot take this path.
    let mut ordinary = normal;
    assert_eq!(
        claim_anti_sniped_deposit(&mut ordinary, &mut next, &mut next_rig, BOB, 11060)
            .map(|_| ()),
        Err(RigItError::DepositNotAntiSniped)
    );
}

#[test]
fn test_rollover_feeds_winner_pool() {
    // Funds carried from a rolled-over round join W whatever rig wins.
    let config = init_protocol(ADMIN, OPERATOR, MINT, EMERGENCY);
    let mut block = init_block(&config, ADMIN, 0, 1_000_000, MINT, 9).unwrap();
    let (mut e, _r0, _r1, _ra, _rb) = funded_round(&config, &mut block);
    e.rollover_amount = 700_000;

    let secret = [9u8; 32];
    let commit = generate_commit_hash(&secret, 120);
    commit_randomness(&config, &block, &mut e, commit, 120, OPERATOR, 8200, 100).unwrap();
    let slot_hashes = slot_hashes_bytes(&[(120, [7u8; 32])]);
    reveal_randomness(&config, &mut block, &mut e, &secret, &slot_hashes, OPERATOR, 130).unwrap();

    assert_eq!(e.winning_rig, Some(0));
    assert_eq!(e.total_winner_deposits, 4_000_000 + 700_000);
    assert_eq!(e.total_loser_deposits, 1_000_000);
    assert_eq!(
        e.total_winner_deposits + e.total_loser_deposits,
        e.total_deposits + e.rollover_amount
    );
}
