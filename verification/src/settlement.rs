//! Settlement: the authenticated reveal, the permissionless timeout
//! fallback, the shared settlement routine both feed into, and the
//! post-settlement claims and treasury split.
//!
//! Both settlement entry points run the identical routine, parameterized
//! only by the final random value, so the two paths cannot diverge.

use vstd::prelude::*;
use vstd::arithmetic::div_mod::{
    lemma_div_is_ordered, lemma_div_multiples_vanish, lemma_fundamental_div_mod, lemma_mod_bound,
};
use crate::errors::RigItError;
use crate::randomness::{
    generate_random_value, get_slot_hash, lemma_ticket_sum_prefix_monotone,
    lemma_ticket_sum_take_step, select_winning_rig, spec_random_value,
    spec_reveal_ok, spec_slot_hash, spec_winner, ticket_sum, verify_reveal,
};
use crate::state::{
    AccountId, BlockState, DepositReceipt, ExplorationState, ExplorationStatus, ProtocolConfig,
    RigState, RIGS_PER_EXPLORATION, lemma_deposit_sum_element_le,
};

verus! {

/// The error, if any, that the shared settlement routine must report for a
/// finalizing exploration and a given random value.
pub open spec fn settle_error(
    block: BlockState,
    e: ExplorationState,
    random_value: Seq<u8>,
) -> Option<RigItError> {
    let total = ticket_sum(e.rig_tickets@);
    if total > u128::MAX {
        Some(RigItError::ArithmeticOverflow)
    } else if total == 0 {
        Some(RigItError::ThresholdNotMet)
    } else {
        let w = spec_winner(random_value, e.rig_tickets@);
        let wd = e.rig_deposits@[w];
        if wd + e.rollover_amount > u64::MAX {
            Some(RigItError::ArithmeticOverflow)
        } else if wd + e.rollover_amount + (e.total_deposits - wd) / 2 > u64::MAX {
            Some(RigItError::ArithmeticOverflow)
        } else if block.total_volume + e.total_deposits > u128::MAX {
            Some(RigItError::ArithmeticOverflow)
        } else if block.total_explorations_completed + 1 > u64::MAX {
            Some(RigItError::ArithmeticOverflow)
        } else {
            None
        }
    }
}

/// Settle a finalizing exploration with a final random value: draw the
/// winner, record the accounting split `W`, `L = total - deposits[w]` and
/// `R = W + L/2`, mark the round settled and update the block statistics.
///
/// Both the authenticated reveal and the timeout fallback call this same
/// routine.
pub fn settle_exploration(
    block: &mut BlockState,
    e: &mut ExplorationState,
    random_value: [u8; 32],
) -> (result: Result<u8, RigItError>)
    requires
        old(e).wf(),
        old(e).status == ExplorationStatus::Finalizing,
    ensures
        match result {
            Ok(w) => {
                &&& settle_error(*old(block), *old(e), random_value@) is None
                &&& w < 36
                &&& w as int == spec_winner(random_value@, old(e).rig_tickets@)
                &&& ticket_sum(old(e).rig_tickets@) > 0
                &&& *final(e) == (ExplorationState {
                    status: ExplorationStatus::Settled,
                    revealed_random: Some(random_value),
                    winning_rig: Some(w),
                    total_winner_deposits: (old(e).rig_deposits@[w as int] + old(e).rollover_amount) as u64,
                    total_loser_deposits: (old(e).total_deposits
                        - old(e).rig_deposits@[w as int]) as u64,
                    remaining_pool: (old(e).rig_deposits@[w as int] + old(e).rollover_amount + (
                    old(e).total_deposits - old(e).rig_deposits@[w as int]) / 2) as u64,
                    ..*old(e)
                })
                &&& final(e).total_winner_deposits + final(e).total_loser_deposits == old(e).total_deposits + old(e).rollover_amount
                &&& final(e).remaining_pool == final(e).total_winner_deposits + final(e).total_loser_deposits / 2
                &&& *final(block) == (BlockState {
                    total_volume: (old(block).total_volume + old(e).total_deposits) as u128,
                    total_explorations_completed: (old(block).total_explorations_completed
                        + 1) as u64,
                    ..*old(block)
                })
                &&& final(e).wf()
            },
            Err(err) => {
                &&& Some(err) == settle_error(*old(block), *old(e), random_value@)
                &&& *final(e) == *old(e)
                &&& *final(block) == *old(block)
            },
        },
{
    let ghost s = e.rig_tickets@;

    // Total tickets, with every addition checked.
    let mut total: u128 = 0;
    let mut i: usize = 0;
    while i < RIGS_PER_EXPLORATION
        invariant
            i <= 36,
            *e == *old(e),
            *block == *old(block),
            s == e.rig_tickets@,
            s.len() == 36,
            total == ticket_sum(s.take(i as int)),
        decreases 36 - i,
    {
        proof {
            lemma_ticket_sum_take_step(s, i as int);
        }
        let t = e.rig_tickets[i];
        if total > u128::MAX - t {
            proof {
                lemma_ticket_sum_prefix_monotone(s, i as int + 1, 36);
                assert(s.take(36) =~= s);
            }
            return Err(RigItError::ArithmeticOverflow);
        }
        total = total + t;
        i += 1;
    }
    proof {
        assert(s.take(36) =~= s);
    }

    let winning_rig = match select_winning_rig(&random_value, &e.rig_tickets) {
        Some(w) => w,
        None => {
            return Err(RigItError::ThresholdNotMet);
        },
    };

    let widx = winning_rig as usize;
    let wd = e.rig_deposits[widx];
    proof {
        lemma_deposit_sum_element_le(e.rig_deposits@, widx as int);
    }
    if wd > u64::MAX - e.rollover_amount {
        return Err(RigItError::ArithmeticOverflow);
    }
    let w_total = wd + e.rollover_amount;
    let l_total = e.total_deposits - wd;
    if w_total > u64::MAX - l_total / 2 {
        return Err(RigItError::ArithmeticOverflow);
    }
    let r_total = w_total + l_total / 2;
    if block.total_volume > u128::MAX - e.total_deposits as u128 {
        return Err(RigItError::ArithmeticOverflow);
    }
    if block.total_explorations_completed == u64::MAX {
        return Err(RigItError::ArithmeticOverflow);
    }

    e.revealed_random = Some(random_value);
    e.winning_rig = Some(winning_rig);
    e.total_winner_deposits = w_total;
    e.total_loser_deposits = l_total;
    e.remaining_pool = r_total;
    e.status = ExplorationStatus::Settled;

    block.total_volume = block.total_volume + e.total_deposits as u128;
    block.total_explorations_completed = block.total_explorations_completed + 1;

    Ok(winning_rig)
}

/// The error, if any, that an authenticated reveal must report.
pub open spec fn reveal_error(
    config: ProtocolConfig,
    block: BlockState,
    e: ExplorationState,
    secret: Seq<u8>,
    slot_hashes: Seq<u8>,
    caller: AccountId,
    now_slot: u64,
) -> Option<RigItError> {
    if e.status != ExplorationStatus::Finalizing {
        Some(RigItError::ExplorationNotFinalizing)
    } else if caller != config.operator {
        Some(RigItError::Unauthorized)
    } else if now_slot < e.commit_slot {
        Some(RigItError::RevealTooEarly)
    } else if now_slot > e.reveal_deadline_slot {
        Some(RigItError::RevealDeadlinePassed)
    } else if !spec_reveal_ok(secret, e.commit_slot, e.commit_hash@) {
        Some(RigItError::InvalidRevealSecret)
    } else if spec_slot_hash(slot_hashes, e.commit_slot) is None {
        Some(RigItError::SlotHashNotAvailable)
    } else {
        settle_error(
            block,
            e,
            spec_random_value(secret, spec_slot_hash(slot_hashes, e.commit_slot)->0),
        )
    }
}

/// Reveal the committed secret within the reveal window and settle the
/// exploration: the final random value is the digest of the secret and the
/// entropy the ledger recorded for the committed target slot.
pub fn reveal_randomness(
    config: &ProtocolConfig,
    block: &mut BlockState,
    e: &mut ExplorationState,
    secret: &[u8; 32],
    slot_hashes_data: &[u8],
    caller: AccountId,
    now_slot: u64,
) -> (result: Result<(), RigItError>)
    requires
        old(e).wf(),
    ensures
        result == (match reveal_error(
            *config, *old(block), *old(e), secret@, slot_hashes_data@, caller, now_slot,
        ) {
            Some(err) => Err::<(), RigItError>(err),
            None => Ok::<(), RigItError>(()),
        }),
        result is Err ==> *final(e) == *old(e) && *final(block) == *old(block),
        result is Ok ==> ({
            let rv = spec_random_value(
                secret@,
                spec_slot_hash(slot_hashes_data@, old(e).commit_slot)->0,
            );
            let w = spec_winner(rv, old(e).rig_tickets@);
            let wd = old(e).rig_deposits@[w];
            &&& final(e).revealed_random is Some
            &&& final(e).revealed_random->0@ == rv
            &&& final(e).winning_rig is Some
            &&& final(e).winning_rig->0 == w
            &&& final(e).total_winner_deposits == wd + old(e).rollover_amount
            &&& final(e).total_loser_deposits == old(e).total_deposits - wd
            &&& final(e).remaining_pool == final(e).total_winner_deposits + final(e).total_loser_deposits / 2
            &&& *final(e) == (ExplorationState {
                status: ExplorationStatus::Settled,
                revealed_random: final(e).revealed_random,
                winning_rig: final(e).winning_rig,
                total_winner_deposits: final(e).total_winner_deposits,
                total_loser_deposits: final(e).total_loser_deposits,
                remaining_pool: final(e).remaining_pool,
                ..*old(e)
            })
            &&& *final(block) == (BlockState {
                total_volume: (old(block).total_volume + old(e).total_deposits) as u128,
                total_explorations_completed: (old(block).total_explorations_completed
                    + 1) as u64,
                ..*old(block)
            })
            &&& final(e).wf()
        }),
{
    let status_finalizing = match e.status {
        ExplorationStatus::Finalizing => true,
        _ => false,
    };
    if !status_finalizing {
        return Err(RigItError::ExplorationNotFinalizing);
    }
    if caller != config.operator {
        return Err(RigItError::Unauthorized);
    }
    if now_slot < e.commit_slot {
        return Err(RigItError::RevealTooEarly);
    }
    if now_slot > e.reveal_deadline_slot {
        return Err(RigItError::RevealDeadlinePassed);
    }
    if !verify_reveal(secret, e.commit_slot, &e.commit_hash) {
        return Err(RigItError::InvalidRevealSecret);
    }
    let slot_hash = match get_slot_hash(slot_hashes_data, e.commit_slot) {
        Some(h) => h,
        None => {
            return Err(RigItError::SlotHashNotAvailable);
        },
    };
    let random_value = generate_random_value(secret, &slot_hash);
    match settle_exploration(block, e, random_value) {
        Ok(_) => Ok(()),
        Err(err) => Err(err),
    }
}

/// The error, if any, that the timeout fallback must report.
pub open spec fn timeout_fallback_error(
    block: BlockState,
    e: ExplorationState,
    slot_hashes: Seq<u8>,
    now_slot: u64,
) -> Option<RigItError> {
    if e.status != ExplorationStatus::Finalizing {
        Some(RigItError::ExplorationNotFinalizing)
    } else if now_slot <= e.reveal_deadline_slot {
        Some(RigItError::RevealDeadlineNotPassed)
    } else if spec_slot_hash(slot_hashes, e.reveal_deadline_slot) is None {
        Some(RigItError::SlotHashNotAvailable)
    } else {
        settle_error(block, e, spec_slot_hash(slot_hashes, e.reveal_deadline_slot)->0)
    }
}

/// Permissionless fallback once the reveal deadline has passed without a
/// valid reveal: the deadline slot's ledger entropy is used directly as the
/// random value, and settlement runs through the identical routine.
pub fn reveal_timeout_fallback(
    block: &mut BlockState,
    e: &mut ExplorationState,
    slot_hashes_data: &[u8],
    now_slot: u64,
) -> (result: Result<(), RigItError>)
    requires
        old(e).wf(),
    ensures
        result == (match timeout_fallback_error(
            *old(block), *old(e), slot_hashes_data@, now_slot,
        ) {
            Some(err) => Err::<(), RigItError>(err),
            None => Ok::<(), RigItError>(()),
        }),
        result is Err ==> *final(e) == *old(e) && *final(block) == *old(block),
        result is Ok ==> ({
            let rv = spec_slot_hash(slot_hashes_data@, old(e).reveal_deadline_slot)->0;
            let w = spec_winner(rv, old(e).rig_tickets@);
            let wd = old(e).rig_deposits@[w];
            &&& final(e).revealed_random is Some
            &&& final(e).revealed_random->0@ == rv
            &&& final(e).winning_rig is Some
            &&& final(e).winning_rig->0 == w
            &&& final(e).total_winner_deposits == wd + old(e).rollover_amount
            &&& final(e).total_loser_deposits == old(e).total_deposits - wd
            &&& final(e).remaining_pool == final(e).total_winner_deposits + final(e).total_loser_deposits / 2
            &&& *final(e) == (ExplorationState {
                status: ExplorationStatus::Settled,
                revealed_random: final(e).revealed_random,
                winning_rig: final(e).winning_rig,
                total_winner_deposits: final(e).total_winner_deposits,
                total_loser_deposits: final(e).total_loser_deposits,
                remaining_pool: final(e).remaining_pool,
                ..*old(e)
            })
            &&& *final(block) == (BlockState {
                total_volume: (old(block).total_volume + old(e).total_deposits) as u128,
                total_explorations_completed: (old(block).total_explorations_completed
                    + 1) as u64,
                ..*old(block)
            })
            &&& final(e).wf()
        }),
{
    let status_finalizing = match e.status {
        ExplorationStatus::Finalizing => true,
        _ => false,
    };
    if !status_finalizing {
        return Err(RigItError::ExplorationNotFinalizing);
    }
    if now_slot <= e.reveal_deadline_slot {
        return Err(RigItError::RevealDeadlineNotPassed);
    }
    let fallback_slot = e.reveal_deadline_slot;
    let slot_hash = match get_slot_hash(slot_hashes_data, fallback_slot) {
        Some(h) => h,
        None => {
            return Err(RigItError::SlotHashNotAvailable);
        },
    };
    match settle_exploration(block, e, slot_hash) {
        Ok(_) => Ok(()),
        Err(err) => Err(err),
    }
}

/// Multiplying by a factor no larger than the divisor cannot increase a
/// non-negative value: `a * b / c <= a` for `0 <= b <= c`.
proof fn lemma_mul_div_le(a: int, b: int, c: int)
    requires
        a >= 0,
        0 <= b <= c,
        0 < c,
    ensures
        a * b / c <= a,
{
    assert(a * b <= c * a) by (nonlinear_arith)
        requires
            a >= 0,
            0 <= b <= c,
    ;
    lemma_div_is_ordered(a * b, c * a, c);
    lemma_div_multiples_vanish(a, c);
}

/// A product exceeds a bound exactly when one factor exceeds the bound
/// divided by the other.
proof fn lemma_mul_overflow_check(a: int, b: int, m: int)
    requires
        a > 0,
        b >= 0,
        m >= 0,
    ensures
        (b > m / a) <==> (a * b > m),
{
    lemma_fundamental_div_mod(m, a);
    lemma_mod_bound(m, a);
    let q = m / a;
    let r = m % a;
    assert((b > q) <==> (a * b > m)) by (nonlinear_arith)
        requires
            a > 0,
            b >= 0,
            q >= 0,
            m == a * q + r,
            0 <= r < a,
    ;
}

/// The receipt handed to a claim belongs to the given rig record, which in
/// turn belongs to the given exploration; its tickets are part of the
/// rig's total.
pub open spec fn receipt_matches(
    receipt: DepositReceipt,
    rig: RigState,
    e: ExplorationState,
) -> bool {
    &&& rig.block_id == e.block_id
    &&& rig.exploration_index == e.exploration_index
    &&& receipt.block_id == e.block_id
    &&& receipt.exploration_index == e.exploration_index
    &&& receipt.rig_index == rig.rig_index
    &&& receipt.rig_index < RIGS_PER_EXPLORATION
    &&& receipt.effective_tickets <= e.rig_tickets@[receipt.rig_index as int]
}

/// The error, if any, that a winnings claim must report.
pub open spec fn claim_winnings_error(
    config: ProtocolConfig,
    e: ExplorationState,
    rig: RigState,
    receipt: DepositReceipt,
    caller: AccountId,
) -> Option<RigItError> {
    if e.status != ExplorationStatus::Settled {
        Some(RigItError::ExplorationNotSettled)
    } else if receipt.user != caller {
        Some(RigItError::Unauthorized)
    } else if receipt.winnings_claimed {
        Some(RigItError::WinningsAlreadyClaimed)
    } else if e.winning_rig is None {
        Some(RigItError::ExplorationNotSettled)
    } else if rig.rig_index != e.winning_rig->0 {
        Some(RigItError::NotAWinner)
    } else if e.rig_tickets@[e.winning_rig->0 as int] == 0 {
        Some(RigItError::ArithmeticOverflow)
    } else if (e.remaining_pool * config.winner_share_bps / 10000) * receipt.effective_tickets
        > u128::MAX {
        Some(RigItError::ArithmeticOverflow)
    } else {
        None
    }
}

/// The payout owed to a winning receipt: its pro-rata share, by effective
/// tickets, of the winner pool `floor(R * winner_share_bps / 10000)`.
pub open spec fn spec_winner_payout(
    config: ProtocolConfig,
    e: ExplorationState,
    receipt: DepositReceipt,
) -> int {
    (e.remaining_pool * config.winner_share_bps / 10000) * receipt.effective_tickets
        / (e.rig_tickets@[e.winning_rig->0 as int] as int)
}

/// Pay out a winning deposit: the winner pool share proportional to the
/// receipt's tickets within the winning rig. One-shot per receipt.
pub fn claim_winnings(
    config: &ProtocolConfig,
    e: &ExplorationState,
    rig: &RigState,
    receipt: &mut DepositReceipt,
    caller: AccountId,
) -> (result: Result<u64, RigItError>)
    requires
        e.wf(),
        config.spec_fee_splits_valid(),
        receipt_matches(*old(receipt), *rig, *e),
        !old(receipt).is_anti_sniped,
    ensures
        match result {
            Ok(amount) => {
                &&& claim_winnings_error(*config, *e, *rig, *old(receipt), caller) is None
                &&& amount == spec_winner_payout(*config, *e, *old(receipt))
                &&& *final(receipt) == (DepositReceipt { winnings_claimed: true, ..*old(receipt) })
            },
            Err(err) => {
                &&& Some(err) == claim_winnings_error(*config, *e, *rig, *old(receipt), caller)
                &&& *final(receipt) == *old(receipt)
            },
        },
{
    let status_settled = match e.status {
        ExplorationStatus::Settled => true,
        _ => false,
    };
    if !status_settled {
        return Err(RigItError::ExplorationNotSettled);
    }
    if receipt.user != caller {
        return Err(RigItError::Unauthorized);
    }
    if receipt.winnings_claimed {
        return Err(RigItError::WinningsAlreadyClaimed);
    }
    let winning_rig = match e.winning_rig {
        Some(w) => w,
        None => {
            return Err(RigItError::ExplorationNotSettled);
        },
    };
    if rig.rig_index != winning_rig {
        return Err(RigItError::NotAWinner);
    }

    let r = e.remaining_pool;
    proof {
        assert((r as int) * (config.winner_share_bps as int) <= 0xffff_ffff_ffff_ffff
            * 0x10000) by (nonlinear_arith)
            requires
                0 <= r as int <= 0xffff_ffff_ffff_ffff,
                0 <= config.winner_share_bps as int <= 0xffff,
        ;
    }
    let winner_pool = (r as u128) * (config.winner_share_bps as u128) / 10000;

    let winning_rig_tickets = e.rig_tickets[winning_rig as usize];
    if winning_rig_tickets == 0 {
        return Err(RigItError::ArithmeticOverflow);
    }
    let eff = receipt.effective_tickets;

    if winner_pool > 0 && eff > u128::MAX / winner_pool {
        proof {
            lemma_mul_overflow_check(
                winner_pool as int,
                eff as int,
                u128::MAX as int,
            );
        }
        return Err(RigItError::ArithmeticOverflow);
    }
    proof {
        if winner_pool > 0 {
            lemma_mul_overflow_check(
                winner_pool as int,
                eff as int,
                u128::MAX as int,
            );
        } else {
            assert(winner_pool as int * eff as int == 0)
                by (nonlinear_arith)
                requires winner_pool as int == 0,
            ;
        }
    }
    let user_share = winner_pool * eff / winning_rig_tickets;

    proof {
        // The payout fits in a u64: the pool share is at most R, and the
        // pro-rata share of it at most the pool share.
        lemma_mul_div_le(r as int, config.winner_share_bps as int, 10000);
        lemma_mul_div_le(
            winner_pool as int,
            eff as int,
            winning_rig_tickets as int,
        );
    }
    let payout_amount = user_share as u64;

    receipt.winnings_claimed = true;
    Ok(payout_amount)
}

/// A receipt that has just been paid out cannot be paid out again: on the
/// updated receipt the claim reports the already-claimed error and, by the
/// claim's contract, leaves every record unchanged.
pub proof fn lemma_claim_winnings_once(
    config: ProtocolConfig,
    e: ExplorationState,
    rig: RigState,
    receipt: DepositReceipt,
    caller: AccountId,
)
    requires
        claim_winnings_error(config, e, rig, receipt, caller) is None,
    ensures
        claim_winnings_error(
            config,
            e,
            rig,
            DepositReceipt { winnings_claimed: true, ..receipt },
            caller,
        ) == Some(RigItError::WinningsAlreadyClaimed),
{
}

/// The error, if any, that a loser refund must report.
pub open spec fn refund_loser_error(
    e: ExplorationState,
    rig: RigState,
    receipt: DepositReceipt,
    caller: AccountId,
) -> Option<RigItError> {
    if e.status != ExplorationStatus::Settled {
        Some(RigItError::ExplorationNotSettled)
    } else if receipt.user != caller {
        Some(RigItError::Unauthorized)
    } else if receipt.refund_claimed {
        Some(RigItError::RefundAlreadyClaimed)
    } else if e.winning_rig is None {
        Some(RigItError::ExplorationNotSettled)
    } else if rig.rig_index == e.winning_rig->0 {
        Some(RigItError::NotALoser)
    } else {
        None
    }
}

/// Refund a losing deposit: a flat half of the original amount,
/// independent of the pool composition. One-shot per receipt.
pub fn refund_loser(
    e: &ExplorationState,
    rig: &RigState,
    receipt: &mut DepositReceipt,
    caller: AccountId,
) -> (result: Result<u64, RigItError>)
    requires
        e.wf(),
        receipt_matches(*old(receipt), *rig, *e),
        !old(receipt).is_anti_sniped,
    ensures
        match result {
            Ok(amount) => {
                &&& refund_loser_error(*e, *rig, *old(receipt), caller) is None
                &&& amount == old(receipt).amount / 2
                &&& *final(receipt) == (DepositReceipt { refund_claimed: true, ..*old(receipt) })
            },
            Err(err) => {
                &&& Some(err) == refund_loser_error(*e, *rig, *old(receipt), caller)
                &&& *final(receipt) == *old(receipt)
            },
        },
{
    let status_settled = match e.status {
        ExplorationStatus::Settled => true,
        _ => false,
    };
    if !status_settled {
        return Err(RigItError::ExplorationNotSettled);
    }
    if receipt.user != caller {
        return Err(RigItError::Unauthorized);
    }
    if receipt.refund_claimed {
        return Err(RigItError::RefundAlreadyClaimed);
    }
    let winning_rig = match e.winning_rig {
        Some(w) => w,
        None => {
            return Err(RigItError::ExplorationNotSettled);
        },
    };
    if rig.rig_index == winning_rig {
        return Err(RigItError::NotALoser);
    }

    let refund_amount = receipt.amount / 2;
    receipt.refund_claimed = true;
    Ok(refund_amount)
}

/// A receipt that has just been refunded cannot be refunded again: on the
/// updated receipt the refund reports the already-claimed error and, by
/// the refund's contract, leaves every record unchanged.
pub proof fn lemma_refund_loser_once(
    e: ExplorationState,
    rig: RigState,
    receipt: DepositReceipt,
    caller: AccountId,
)
    requires
        refund_loser_error(e, rig, receipt, caller) is None,
    ensures
        refund_loser_error(
            e,
            rig,
            DepositReceipt { refund_claimed: true, ..receipt },
            caller,
        ) == Some(RigItError::RefundAlreadyClaimed),
{
}

/// With a valid fee split, the five floor shares of the remaining pool —
/// the winner pool and the four treasury amounts — never exceed the pool
/// itself: paying all of them cannot overdraw the vault.
pub proof fn lemma_fee_shares_conserve_pool(config: ProtocolConfig, r: int)
    requires
        config.spec_fee_splits_valid(),
        r >= 0,
    ensures
        r * config.winner_share_bps / 10000 + r * config.buyback_burn_bps / 10000
            + r * config.buyback_lp_bps / 10000 + r * config.team_ops_bps / 10000
            + r * config.ecosystem_bps / 10000 <= r,
{
    let a1 = r * config.winner_share_bps;
    let a2 = r * config.buyback_burn_bps;
    let a3 = r * config.buyback_lp_bps;
    let a4 = r * config.team_ops_bps;
    let a5 = r * config.ecosystem_bps;
    lemma_fundamental_div_mod(a1, 10000);
    lemma_mod_bound(a1, 10000);
    lemma_fundamental_div_mod(a2, 10000);
    lemma_mod_bound(a2, 10000);
    lemma_fundamental_div_mod(a3, 10000);
    lemma_mod_bound(a3, 10000);
    lemma_fundamental_div_mod(a4, 10000);
    lemma_mod_bound(a4, 10000);
    lemma_fundamental_div_mod(a5, 10000);
    lemma_mod_bound(a5, 10000);
    // The five products sum to exactly 10000 * r, and each quotient loses
    // its remainder, so the quotients sum to at most r.
    assert(a1 + a2 + a3 + a4 + a5 == 10000 * r) by (nonlinear_arith)
        requires
            a1 == r * config.winner_share_bps,
            a2 == r * config.buyback_burn_bps,
            a3 == r * config.buyback_lp_bps,
            a4 == r * config.team_ops_bps,
            a5 == r * config.ecosystem_bps,
            config.winner_share_bps + config.buyback_burn_bps + config.buyback_lp_bps
                + config.team_ops_bps + config.ecosystem_bps == 10000,
    ;
    let q = a1 / 10000 + a2 / 10000 + a3 / 10000 + a4 / 10000 + a5 / 10000;
    assert(q <= r) by (nonlinear_arith)
        requires
            a1 == 10000 * (a1 / 10000) + a1 % 10000 && a1 % 10000 >= 0,
            a2 == 10000 * (a2 / 10000) + a2 % 10000 && a2 % 10000 >= 0,
            a3 == 10000 * (a3 / 10000) + a3 % 10000 && a3 % 10000 >= 0,
            a4 == 10000 * (a4 / 10000) + a4 % 10000 && a4 % 10000 >= 0,
            a5 == 10000 * (a5 / 10000) + a5 % 10000 && a5 % 10000 >= 0,
            a1 + a2 + a3 + a4 + a5 == 10000 * r,
            q == a1 / 10000 + a2 / 10000 + a3 / 10000 + a4 / 10000 + a5 / 10000,
    ;
}

/// The four treasury amounts carved out of a settled round's remaining
/// pool.
pub struct BuybackAllocation {
    /// To the buyback-and-burn treasury.
    pub burn_amount: u64,
    /// To the buyback-and-LP treasury.
    pub lp_amount: u64,
    /// To the team operations treasury.
    pub team_amount: u64,
    /// To the ecosystem treasury.
    pub ecosystem_amount: u64,
}

/// The error, if any, that a treasury allocation must report.
pub open spec fn allocate_buyback_error(
    config: ProtocolConfig,
    e: ExplorationState,
    caller: AccountId,
) -> Option<RigItError> {
    if e.status != ExplorationStatus::Settled {
        Some(RigItError::ExplorationNotSettled)
    } else if e.buyback_allocated {
        Some(RigItError::BuybackAlreadyAllocated)
    } else if caller != config.operator {
        Some(RigItError::Unauthorized)
    } else {
        None
    }
}

/// Split the remaining pool across the four treasury destinations by their
/// configured basis points, each amount `floor(R * bps / 10000)`. The
/// winner share is not disbursed here; winners claim it individually.
/// One-shot and operator-gated.
pub fn allocate_buyback_budget(
    config: &ProtocolConfig,
    e: &mut ExplorationState,
    caller: AccountId,
) -> (result: Result<BuybackAllocation, RigItError>)
    requires
        config.spec_fee_splits_valid(),
    ensures
        match result {
            Ok(alloc) => {
                &&& allocate_buyback_error(*config, *old(e), caller) is None
                &&& alloc.burn_amount == old(e).remaining_pool * config.buyback_burn_bps / 10000
                &&& alloc.lp_amount == old(e).remaining_pool * config.buyback_lp_bps / 10000
                &&& alloc.team_amount == old(e).remaining_pool * config.team_ops_bps / 10000
                &&& alloc.ecosystem_amount == old(e).remaining_pool * config.ecosystem_bps / 10000
                &&& *final(e) == (ExplorationState { buyback_allocated: true, ..*old(e) })
            },
            Err(err) => {
                &&& Some(err) == allocate_buyback_error(*config, *old(e), caller)
                &&& *final(e) == *old(e)
            },
        },
{
    let status_settled = match e.status {
        ExplorationStatus::Settled => true,
        _ => false,
    };
    if !status_settled {
        return Err(RigItError::ExplorationNotSettled);
    }
    if e.buyback_allocated {
        return Err(RigItError::BuybackAlreadyAllocated);
    }
    if caller != config.operator {
        return Err(RigItError::Unauthorized);
    }

    let r = e.remaining_pool as u128;
    proof {
        let ri = old(e).remaining_pool as int;
        assert(ri * (config.buyback_burn_bps as int) <= 0xffff_ffff_ffff_ffff * 0x10000
            && ri * (config.buyback_lp_bps as int) <= 0xffff_ffff_ffff_ffff * 0x10000
            && ri * (config.team_ops_bps as int) <= 0xffff_ffff_ffff_ffff * 0x10000
            && ri * (config.ecosystem_bps as int) <= 0xffff_ffff_ffff_ffff * 0x10000)
            by (nonlinear_arith)
            requires
                0 <= ri <= 0xffff_ffff_ffff_ffff,
                0 <= config.buyback_burn_bps as int <= 0xffff,
                0 <= config.buyback_lp_bps as int <= 0xffff,
                0 <= config.team_ops_bps as int <= 0xffff,
                0 <= config.ecosystem_bps as int <= 0xffff,
        ;
        lemma_mul_div_le(ri, config.buyback_burn_bps as int, 10000);
        lemma_mul_div_le(ri, config.buyback_lp_bps as int, 10000);
        lemma_mul_div_le(ri, config.team_ops_bps as int, 10000);
        lemma_mul_div_le(ri, config.ecosystem_bps as int, 10000);
    }
    let burn_amount = r * (config.buyback_burn_bps as u128) / 10000;
    let lp_amount = r * (config.buyback_lp_bps as u128) / 10000;
    let team_amount = r * (config.team_ops_bps as u128) / 10000;
    let ecosystem_amount = r * (config.ecosystem_bps as u128) / 10000;

    e.buyback_allocated = true;

    Ok(BuybackAllocation {
        burn_amount: burn_amount as u64,
        lp_amount: lp_amount as u64,
        team_amount: team_amount as u64,
        ecosystem_amount: ecosystem_amount as u64,
    })
}

} // verus!
