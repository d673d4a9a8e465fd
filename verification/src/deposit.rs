//! Deposits into a rig, and the one-shot migration of an anti-sniped
//! deposit into the following exploration.
//!
//! A deposit made in the trailing anti-snipe window is recorded (and its
//! funds custodied) but excluded from every aggregate of the current round,
//! so it cannot influence the draw; its owner may later migrate it into the
//! next round on identical terms, exactly once.

use vstd::prelude::*;
use crate::errors::RigItError;
use crate::state::{
    AccountId, BlockState, DepositReceipt, ExplorationState, ExplorationStatus, ProtocolConfig,
    RigState, RIGS_PER_EXPLORATION, lemma_deposit_sum_update,
};
use crate::tickets::{MIN_DEPOSIT_AMOUNT, calculate_effective_tickets, spec_effective_tickets};

verus! {

/// Caller-supplied arguments of a deposit.
pub struct DepositToRigArgs {
    /// Rig to deposit into (0-35).
    pub rig_index: u8,
    /// Amount in token base units.
    pub amount: u64,
    /// Caller-chosen nonce distinguishing multiple deposits.
    pub deposit_nonce: u64,
}

/// The rig record handed to a deposit is either fresh or the one of this
/// exploration and rig index, with totals no larger than the round's.
pub open spec fn rig_matches(rig: RigState, e: ExplorationState, rig_index: u8) -> bool {
    if rig.initialized {
        &&& rig.block_id == e.block_id
        &&& rig.exploration_index == e.exploration_index
        &&& rig.rig_index == rig_index
    } else {
        &&& rig.total_deposits == 0
        &&& rig.total_tickets == 0
        &&& rig.deposit_count == 0
    }
}

/// The error, if any, that a deposit must report.
pub open spec fn deposit_error(
    config: ProtocolConfig,
    block: BlockState,
    e: ExplorationState,
    rig: RigState,
    args: DepositToRigArgs,
    rig_balance: u64,
    now_ts: i64,
) -> Option<RigItError> {
    let sniped = e.spec_in_anti_snipe_window(now_ts, config.anti_snipe_window_secs);
    let tickets = spec_effective_tickets(args.amount, rig_balance);
    if config.paused {
        Some(RigItError::ProtocolPaused)
    } else if block.paused {
        Some(RigItError::BlockPaused)
    } else if e.status != ExplorationStatus::Active {
        Some(RigItError::ExplorationNotActive)
    } else if args.rig_index >= RIGS_PER_EXPLORATION {
        Some(RigItError::InvalidRigIndex)
    } else if args.amount < MIN_DEPOSIT_AMOUNT {
        Some(RigItError::DepositTooSmall)
    } else if !sniped && (rig.total_deposits + args.amount > u64::MAX
        || rig.total_tickets + tickets > u128::MAX
        || rig.deposit_count + 1 > u32::MAX
        || e.total_deposits + args.amount > u64::MAX
        || e.rig_deposits@[args.rig_index as int] + args.amount > u64::MAX
        || e.rig_tickets@[args.rig_index as int] + tickets > u128::MAX) {
        Some(RigItError::ArithmeticOverflow)
    } else {
        None
    }
}

/// Record a deposit into a rig: create its receipt and, unless the deposit
/// falls into the anti-snipe window, add its amount and tickets to the
/// rig's and the round's aggregates.
pub fn deposit_to_rig(
    config: &ProtocolConfig,
    block: &BlockState,
    e: &mut ExplorationState,
    rig: &mut RigState,
    args: DepositToRigArgs,
    rig_balance: u64,
    caller: AccountId,
    now_ts: i64,
) -> (result: Result<DepositReceipt, RigItError>)
    requires
        old(e).wf(),
        rig_matches(*old(rig), *old(e), args.rig_index),
    ensures
        ({
            let sniped = old(e).spec_in_anti_snipe_window(now_ts, config.anti_snipe_window_secs);
            let tickets = spec_effective_tickets(args.amount, rig_balance);
            let err = deposit_error(*config, *block, *old(e), *old(rig), args, rig_balance, now_ts);
            match result {
                Err(actual) => {
                    &&& Some(actual) == err
                    &&& *final(e) == *old(e)
                    &&& *final(rig) == *old(rig)
                },
                Ok(receipt) => {
                    &&& err is None
                    &&& receipt.user == caller
                    &&& receipt.block_id == old(e).block_id
                    &&& receipt.exploration_index == old(e).exploration_index
                    &&& receipt.rig_index == args.rig_index
                    &&& receipt.amount == args.amount
                    &&& receipt.effective_tickets == tickets
                    &&& receipt.deposited_at == now_ts
                    &&& receipt.deposit_nonce == args.deposit_nonce
                    &&& receipt.is_anti_sniped == sniped
                    &&& receipt.rolled_to_exploration is None
                    &&& !receipt.refund_claimed
                    &&& !receipt.winnings_claimed
                    &&& *final(rig) == (RigState {
                        initialized: true,
                        block_id: old(e).block_id,
                        exploration_index: old(e).exploration_index,
                        rig_index: args.rig_index,
                        total_deposits: if sniped {
                            old(rig).total_deposits
                        } else {
                            (old(rig).total_deposits + args.amount) as u64
                        },
                        total_tickets: if sniped {
                            old(rig).total_tickets
                        } else {
                            (old(rig).total_tickets + tickets) as u128
                        },
                        deposit_count: if sniped {
                            old(rig).deposit_count
                        } else {
                            (old(rig).deposit_count + 1) as u32
                        },
                    })
                    &&& (sniped ==> *final(e) == *old(e))
                    &&& (!sniped ==> {
                        &&& final(e).total_deposits == old(e).total_deposits + args.amount
                        &&& final(e).rig_deposits@ == old(e).rig_deposits@.update(
                            args.rig_index as int,
                            (old(e).rig_deposits@[args.rig_index as int] + args.amount) as u64,
                        )
                        &&& final(e).rig_tickets@ == old(e).rig_tickets@.update(
                            args.rig_index as int,
                            (old(e).rig_tickets@[args.rig_index as int] + tickets) as u128,
                        )
                        &&& *final(e) == (ExplorationState {
                            total_deposits: final(e).total_deposits,
                            rig_deposits: final(e).rig_deposits,
                            rig_tickets: final(e).rig_tickets,
                            ..*old(e)
                        })
                    })
                    &&& final(e).wf()
                },
            }
        }),
{
    if config.paused {
        return Err(RigItError::ProtocolPaused);
    }
    if block.paused {
        return Err(RigItError::BlockPaused);
    }
    let status_active = match e.status {
        ExplorationStatus::Active => true,
        _ => false,
    };
    if !status_active {
        return Err(RigItError::ExplorationNotActive);
    }
    if args.rig_index >= RIGS_PER_EXPLORATION as u8 {
        return Err(RigItError::InvalidRigIndex);
    }
    if args.amount < MIN_DEPOSIT_AMOUNT {
        return Err(RigItError::DepositTooSmall);
    }

    let is_anti_sniped = e.is_anti_snipe_window(now_ts, config.anti_snipe_window_secs);
    let effective_tickets = calculate_effective_tickets(args.amount, rig_balance);
    let idx = args.rig_index as usize;

    if !is_anti_sniped {
        // Check every counter before touching any, so an overflow leaves
        // all records untouched.
        if rig.total_deposits > u64::MAX - args.amount {
            return Err(RigItError::ArithmeticOverflow);
        }
        if rig.total_tickets > u128::MAX - effective_tickets {
            return Err(RigItError::ArithmeticOverflow);
        }
        if rig.deposit_count == u32::MAX {
            return Err(RigItError::ArithmeticOverflow);
        }
        if e.total_deposits > u64::MAX - args.amount {
            return Err(RigItError::ArithmeticOverflow);
        }
        if e.rig_deposits[idx] > u64::MAX - args.amount {
            return Err(RigItError::ArithmeticOverflow);
        }
        if e.rig_tickets[idx] > u128::MAX - effective_tickets {
            return Err(RigItError::ArithmeticOverflow);
        }
    }

    rig.initialized = true;
    rig.block_id = e.block_id;
    rig.exploration_index = e.exploration_index;
    rig.rig_index = args.rig_index;

    let receipt = DepositReceipt {
        user: caller,
        block_id: e.block_id,
        exploration_index: e.exploration_index,
        rig_index: args.rig_index,
        amount: args.amount,
        effective_tickets,
        deposited_at: now_ts,
        deposit_nonce: args.deposit_nonce,
        is_anti_sniped,
        rolled_to_exploration: None,
        refund_claimed: false,
        winnings_claimed: false,
    };

    if !is_anti_sniped {
        rig.total_deposits = rig.total_deposits + args.amount;
        rig.total_tickets = rig.total_tickets + effective_tickets;
        rig.deposit_count = rig.deposit_count + 1;

        proof {
            lemma_deposit_sum_update(
                e.rig_deposits@,
                idx as int,
                (e.rig_deposits@[idx as int] + args.amount) as u64,
            );
        }
        e.total_deposits = e.total_deposits + args.amount;
        let new_rig_deposit = e.rig_deposits[idx] + args.amount;
        e.rig_deposits[idx] = new_rig_deposit;
        let new_rig_tickets = e.rig_tickets[idx] + effective_tickets;
        e.rig_tickets[idx] = new_rig_tickets;
    }

    Ok(receipt)
}

/// The error, if any, that migrating an anti-sniped deposit must report.
pub open spec fn claim_anti_sniped_error(
    original: DepositReceipt,
    next_exploration: ExplorationState,
    next_rig: RigState,
    caller: AccountId,
) -> Option<RigItError> {
    if !original.is_anti_sniped {
        Some(RigItError::DepositNotAntiSniped)
    } else if original.rolled_to_exploration is Some {
        Some(RigItError::DepositAlreadyRolledOver)
    } else if original.user != caller {
        Some(RigItError::Unauthorized)
    } else if next_exploration.status != ExplorationStatus::Active {
        Some(RigItError::ExplorationNotActive)
    } else if next_rig.total_deposits + original.amount > u64::MAX
        || next_rig.total_tickets + original.effective_tickets > u128::MAX
        || next_rig.deposit_count + 1 > u32::MAX
        || next_exploration.total_deposits + original.amount > u64::MAX
        || next_exploration.rig_deposits@[original.rig_index as int] + original.amount > u64::MAX
        || next_exploration.rig_tickets@[original.rig_index as int] + original.effective_tickets
            > u128::MAX {
        Some(RigItError::ArithmeticOverflow)
    } else {
        None
    }
}

/// Migrate an anti-sniped deposit into the immediately following
/// exploration, at the same rig index and on identical terms: a new
/// ordinary receipt is created and the source receipt is consumed. A
/// second migration of the same receipt fails.
pub fn claim_anti_sniped_deposit(
    original: &mut DepositReceipt,
    next_exploration: &mut ExplorationState,
    next_rig: &mut RigState,
    caller: AccountId,
    now_ts: i64,
) -> (result: Result<DepositReceipt, RigItError>)
    requires
        old(next_exploration).wf(),
        old(next_exploration).block_id == old(original).block_id,
        old(next_exploration).exploration_index == old(original).exploration_index + 1,
        old(original).rig_index < RIGS_PER_EXPLORATION,
        rig_matches(*old(next_rig), *old(next_exploration), old(original).rig_index),
    ensures
        ({
            let err = claim_anti_sniped_error(
                *old(original), *old(next_exploration), *old(next_rig), caller,
            );
            let idx = old(original).rig_index as int;
            match result {
                Err(actual) => {
                    &&& Some(actual) == err
                    &&& *final(original) == *old(original)
                    &&& *final(next_exploration) == *old(next_exploration)
                    &&& *final(next_rig) == *old(next_rig)
                },
                Ok(receipt) => {
                    &&& err is None
                    &&& receipt == (DepositReceipt {
                        user: old(original).user,
                        block_id: old(next_exploration).block_id,
                        exploration_index: old(next_exploration).exploration_index,
                        rig_index: old(original).rig_index,
                        amount: old(original).amount,
                        effective_tickets: old(original).effective_tickets,
                        deposited_at: now_ts,
                        deposit_nonce: old(original).deposit_nonce,
                        is_anti_sniped: false,
                        rolled_to_exploration: None,
                        refund_claimed: false,
                        winnings_claimed: false,
                    })
                    &&& *final(original) == (DepositReceipt {
                        rolled_to_exploration: Some(old(next_exploration).exploration_index),
                        ..*old(original)
                    })
                    &&& *final(next_rig) == (RigState {
                        initialized: true,
                        block_id: old(next_exploration).block_id,
                        exploration_index: old(next_exploration).exploration_index,
                        rig_index: old(original).rig_index,
                        total_deposits: (old(next_rig).total_deposits + old(original).amount) as u64,
                        total_tickets: (old(next_rig).total_tickets + old(original).effective_tickets) as u128,
                        deposit_count: (old(next_rig).deposit_count + 1) as u32,
                    })
                    &&& final(next_exploration).total_deposits == old(next_exploration).total_deposits + old(original).amount
                    &&& final(next_exploration).rig_deposits@ == old(next_exploration).rig_deposits@.update(
                        idx,
                        (old(next_exploration).rig_deposits@[idx] + old(original).amount) as u64,
                    )
                    &&& final(next_exploration).rig_tickets@ == old(next_exploration).rig_tickets@.update(
                        idx,
                        (old(next_exploration).rig_tickets@[idx] + old(original).effective_tickets) as u128,
                    )
                    &&& *final(next_exploration) == (ExplorationState {
                        total_deposits: final(next_exploration).total_deposits,
                        rig_deposits: final(next_exploration).rig_deposits,
                        rig_tickets: final(next_exploration).rig_tickets,
                        ..*old(next_exploration)
                    })
                    &&& final(next_exploration).wf()
                },
            }
        }),
{
    if !original.is_anti_sniped {
        return Err(RigItError::DepositNotAntiSniped);
    }
    let already_rolled = match original.rolled_to_exploration {
        Some(_) => true,
        None => false,
    };
    if already_rolled {
        return Err(RigItError::DepositAlreadyRolledOver);
    }
    if original.user != caller {
        return Err(RigItError::Unauthorized);
    }
    let next_active = match next_exploration.status {
        ExplorationStatus::Active => true,
        _ => false,
    };
    if !next_active {
        return Err(RigItError::ExplorationNotActive);
    }

    let idx = original.rig_index as usize;

    // Check every counter before touching any, so an overflow leaves all
    // records untouched.
    if next_rig.total_deposits > u64::MAX - original.amount {
        return Err(RigItError::ArithmeticOverflow);
    }
    if next_rig.total_tickets > u128::MAX - original.effective_tickets {
        return Err(RigItError::ArithmeticOverflow);
    }
    if next_rig.deposit_count == u32::MAX {
        return Err(RigItError::ArithmeticOverflow);
    }
    if next_exploration.total_deposits > u64::MAX - original.amount {
        return Err(RigItError::ArithmeticOverflow);
    }
    if next_exploration.rig_deposits[idx] > u64::MAX - original.amount {
        return Err(RigItError::ArithmeticOverflow);
    }
    if next_exploration.rig_tickets[idx] > u128::MAX - original.effective_tickets {
        return Err(RigItError::ArithmeticOverflow);
    }

    next_rig.initialized = true;
    next_rig.block_id = next_exploration.block_id;
    next_rig.exploration_index = next_exploration.exploration_index;
    next_rig.rig_index = original.rig_index;

    let receipt = DepositReceipt {
        user: original.user,
        block_id: next_exploration.block_id,
        exploration_index: next_exploration.exploration_index,
        rig_index: original.rig_index,
        amount: original.amount,
        effective_tickets: original.effective_tickets,
        deposited_at: now_ts,
        deposit_nonce: original.deposit_nonce,
        is_anti_sniped: false,
        rolled_to_exploration: None,
        refund_claimed: false,
        winnings_claimed: false,
    };

    next_rig.total_deposits = next_rig.total_deposits + original.amount;
    next_rig.total_tickets = next_rig.total_tickets + original.effective_tickets;
    next_rig.deposit_count = next_rig.deposit_count + 1;

    proof {
        lemma_deposit_sum_update(
            next_exploration.rig_deposits@,
            idx as int,
            (next_exploration.rig_deposits@[idx as int] + original.amount) as u64,
        );
    }
    next_exploration.total_deposits = next_exploration.total_deposits + original.amount;
    let new_rig_deposit = next_exploration.rig_deposits[idx] + original.amount;
    next_exploration.rig_deposits[idx] = new_rig_deposit;
    let new_rig_tickets = next_exploration.rig_tickets[idx] + original.effective_tickets;
    next_exploration.rig_tickets[idx] = new_rig_tickets;

    original.rolled_to_exploration = Some(next_exploration.exploration_index);

    Ok(receipt)
}

} // verus!
