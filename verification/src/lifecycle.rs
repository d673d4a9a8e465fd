//! Round lifecycle operations: protocol and block initialization, starting
//! an exploration, the randomness commitment (with its threshold-rollover
//! branch), carrying rolled-over funds forward, and administration.
//!
//! Every operation is transactional: on any error the mutable records are
//! left exactly as they were.

use vstd::prelude::*;
use crate::errors::RigItError;
use crate::state::{
    AccountId, BlockState, ExplorationState, ExplorationStatus, ProtocolConfig,
    RIGS_PER_EXPLORATION, lemma_deposit_sum_zero,
};

verus! {

/// Create the protocol configuration with default fee and timing values.
pub fn init_protocol(
    admin: AccountId,
    operator: AccountId,
    rig_token_mint: AccountId,
    emergency_admin: AccountId,
) -> (config: ProtocolConfig)
    ensures
        config == (ProtocolConfig {
            admin,
            operator,
            rig_token_mint,
            emergency_admin,
            paused: false,
            winner_share_bps: 5000,
            buyback_burn_bps: 1500,
            buyback_lp_bps: 1500,
            team_ops_bps: 1000,
            ecosystem_bps: 1000,
            active_duration_secs: 7200,
            cooldown_duration_secs: 2400,
            anti_snipe_window_secs: 300,
            commit_reveal_timeout_slots: 150,
        }),
        config.spec_fee_splits_valid(),
{
    let mut config = ProtocolConfig {
        admin,
        operator,
        rig_token_mint,
        emergency_admin,
        paused: false,
        winner_share_bps: 0,
        buyback_burn_bps: 0,
        buyback_lp_bps: 0,
        team_ops_bps: 0,
        ecosystem_bps: 0,
        active_duration_secs: 0,
        cooldown_duration_secs: 0,
        anti_snipe_window_secs: 0,
        commit_reveal_timeout_slots: 0,
    };
    config.init_defaults();
    config
}

/// Create a block (arena) for one asset. Admin only; at most three blocks.
pub fn init_block(
    config: &ProtocolConfig,
    caller: AccountId,
    block_id: u8,
    min_threshold: u64,
    asset_mint: AccountId,
    asset_decimals: u8,
) -> (result: Result<BlockState, RigItError>)
    ensures
        result == (if caller != config.admin {
            Err::<BlockState, RigItError>(RigItError::Unauthorized)
        } else if block_id > 2 {
            Err::<BlockState, RigItError>(RigItError::InvalidBlockId)
        } else {
            Ok::<BlockState, RigItError>(BlockState {
                block_id,
                asset_mint,
                asset_decimals,
                min_threshold,
                current_exploration_index: 0,
                paused: false,
                total_volume: 0,
                total_explorations_completed: 0,
            })
        }),
{
    if caller != config.admin {
        return Err(RigItError::Unauthorized);
    }
    if block_id > 2 {
        return Err(RigItError::InvalidBlockId);
    }
    Ok(BlockState {
        block_id,
        asset_mint,
        asset_decimals,
        min_threshold,
        current_exploration_index: 0,
        paused: false,
        total_volume: 0,
        total_explorations_completed: 0,
    })
}

/// The error, if any, that starting an exploration must report.
pub open spec fn start_exploration_error(
    config: ProtocolConfig,
    block: BlockState,
    previous: Option<ExplorationState>,
    caller: AccountId,
    now_ts: i64,
) -> Option<RigItError> {
    if config.paused {
        Some(RigItError::ProtocolPaused)
    } else if block.paused {
        Some(RigItError::BlockPaused)
    } else if caller != config.operator {
        Some(RigItError::Unauthorized)
    } else if block.current_exploration_index > 0 && previous is Some
        && !(previous->0.status == ExplorationStatus::Settled
            || previous->0.status == ExplorationStatus::RolledOver) {
        Some(RigItError::PreviousNotFinalized)
    } else if block.current_exploration_index > 0 && previous is Some
        && now_ts < previous->0.cooldown_end_ts {
        Some(RigItError::CooldownNotEnded)
    } else if block.current_exploration_index == u64::MAX {
        Some(RigItError::ArithmeticOverflow)
    } else {
        None
    }
}

/// Open a new exploration in the block, in the `Active` phase, with its
/// timing window derived from the configuration. Increments the block's
/// exploration counter.
pub fn start_exploration(
    config: &ProtocolConfig,
    block: &mut BlockState,
    previous: Option<&ExplorationState>,
    caller: AccountId,
    now_ts: i64,
    now_slot: u64,
) -> (result: Result<ExplorationState, RigItError>)
    requires
        0 <= now_ts,
        now_ts + config.active_duration_secs + config.cooldown_duration_secs <= i64::MAX,
    ensures
        match result {
            Ok(e) => {
                &&& start_exploration_error(
                    *config,
                    *old(block),
                    match previous { Some(p) => Some(*p), None => None },
                    caller,
                    now_ts,
                ) is None
                &&& *final(block) == (BlockState {
                    current_exploration_index: (old(block).current_exploration_index + 1) as u64,
                    ..*old(block)
                })
                &&& e.block_id == old(block).block_id
                &&& e.exploration_index == old(block).current_exploration_index
                &&& e.status == ExplorationStatus::Active
                &&& e.start_slot == now_slot
                &&& e.start_ts == now_ts
                &&& e.active_end_ts == now_ts + config.active_duration_secs
                &&& e.cooldown_end_ts == now_ts + config.active_duration_secs
                    + config.cooldown_duration_secs
                &&& e.total_deposits == 0
                &&& (forall|i: int| 0 <= i < RIGS_PER_EXPLORATION ==> e.rig_deposits@[i] == 0)
                &&& (forall|i: int| 0 <= i < RIGS_PER_EXPLORATION ==> e.rig_tickets@[i] == 0)
                &&& e.rollover_amount == 0
                &&& e.revealed_random is None
                &&& e.winning_rig is None
                &&& !e.buyback_allocated
                &&& !e.carry_forward_done
                &&& e.wf()
            },
            Err(err) => {
                &&& Some(err) == start_exploration_error(
                    *config,
                    *old(block),
                    match previous { Some(p) => Some(*p), None => None },
                    caller,
                    now_ts,
                )
                &&& *final(block) == *old(block)
            },
        },
{
    if config.paused {
        return Err(RigItError::ProtocolPaused);
    }
    if block.paused {
        return Err(RigItError::BlockPaused);
    }
    if caller != config.operator {
        return Err(RigItError::Unauthorized);
    }
    if block.current_exploration_index > 0 {
        match previous {
            Some(prev) => {
                let terminal = match prev.status {
                    ExplorationStatus::Settled => true,
                    ExplorationStatus::RolledOver => true,
                    _ => false,
                };
                if !terminal {
                    return Err(RigItError::PreviousNotFinalized);
                }
                if now_ts < prev.cooldown_end_ts {
                    return Err(RigItError::CooldownNotEnded);
                }
            },
            None => {},
        }
    }
    if block.current_exploration_index == u64::MAX {
        return Err(RigItError::ArithmeticOverflow);
    }

    let start_ts = now_ts;
    let active_end_ts = start_ts + config.active_duration_secs as i64;
    let cooldown_end_ts = active_end_ts + config.cooldown_duration_secs as i64;

    let mut e = ExplorationState::default();
    e.block_id = block.block_id;
    e.exploration_index = block.current_exploration_index;
    e.status = ExplorationStatus::Active;
    e.start_slot = now_slot;
    e.start_ts = start_ts;
    e.active_end_ts = active_end_ts;
    e.cooldown_end_ts = cooldown_end_ts;

    block.current_exploration_index = block.current_exploration_index + 1;

    proof {
        lemma_deposit_sum_zero(e.rig_deposits@);
    }
    Ok(e)
}

/// The error, if any, that a randomness commitment must report.
pub open spec fn commit_randomness_error(
    config: ProtocolConfig,
    block: BlockState,
    e: ExplorationState,
    target_slot: u64,
    caller: AccountId,
    now_ts: i64,
    now_slot: u64,
) -> Option<RigItError> {
    if e.status != ExplorationStatus::Active {
        Some(RigItError::InvalidExplorationStatus)
    } else if caller != config.operator {
        Some(RigItError::Unauthorized)
    } else if now_ts < e.active_end_ts {
        Some(RigItError::ActivePhaseNotEnded)
    } else if e.spec_total_pool() < block.min_threshold {
        None  // rollover, not an error
    } else if target_slot < now_slot + 10 {
        Some(RigItError::CommitSlotNotFuture)
    } else {
        None
    }
}

/// Record the operator's randomness commitment once the active phase has
/// elapsed. If the pool (deposits plus rollover) is below the block's
/// threshold, the exploration instead becomes `RolledOver` — terminal, and
/// no randomness is ever drawn for it.
pub fn commit_randomness(
    config: &ProtocolConfig,
    block: &BlockState,
    e: &mut ExplorationState,
    commit_hash: [u8; 32],
    target_slot: u64,
    caller: AccountId,
    now_ts: i64,
    now_slot: u64,
) -> (result: Result<(), RigItError>)
    requires
        old(e).wf(),
        now_slot + 10 <= u64::MAX,
        target_slot + config.commit_reveal_timeout_slots <= u64::MAX,
    ensures
        result == (match commit_randomness_error(
            *config, *block, *old(e), target_slot, caller, now_ts, now_slot,
        ) {
            Some(err) => Err::<(), RigItError>(err),
            None => Ok::<(), RigItError>(()),
        }),
        result is Err ==> *final(e) == *old(e),
        result is Ok && old(e).spec_total_pool() < block.min_threshold ==> *final(e)
            == (ExplorationState { status: ExplorationStatus::RolledOver, ..*old(e) }),
        result is Ok && old(e).spec_total_pool() >= block.min_threshold ==> *final(e)
            == (ExplorationState {
                status: ExplorationStatus::Finalizing,
                commit_slot: target_slot,
                commit_hash: commit_hash,
                reveal_deadline_slot: (target_slot + config.commit_reveal_timeout_slots) as u64,
                ..*old(e)
            }),
        final(e).wf(),
        final(e).winning_rig == old(e).winning_rig,
{
    let status_active = match e.status {
        ExplorationStatus::Active => true,
        _ => false,
    };
    if !status_active {
        return Err(RigItError::InvalidExplorationStatus);
    }
    if caller != config.operator {
        return Err(RigItError::Unauthorized);
    }
    if now_ts < e.active_end_ts {
        return Err(RigItError::ActivePhaseNotEnded);
    }

    let total_pool = e.total_pool();
    if total_pool < block.min_threshold {
        e.status = ExplorationStatus::RolledOver;
        return Ok(());
    }

    let min_future_slot = now_slot + 10;
    if target_slot < min_future_slot {
        return Err(RigItError::CommitSlotNotFuture);
    }

    e.commit_slot = target_slot;
    e.commit_hash = commit_hash;
    e.reveal_deadline_slot = target_slot + config.commit_reveal_timeout_slots;
    e.status = ExplorationStatus::Finalizing;
    Ok(())
}

/// A rolled-over exploration never has a winner, and never acquires one:
/// it holds none, and the commitment operation — the only entry into the
/// randomness protocol — refuses it whatever the other inputs are. The
/// one operation that applies to such a round, the carry-forward, leaves
/// every field but its one-shot flag unchanged by its contract.
pub proof fn lemma_rolled_over_has_no_winner(e: ExplorationState)
    requires
        e.wf(),
        e.status == ExplorationStatus::RolledOver,
    ensures
        e.winning_rig is None,
        forall|config: ProtocolConfig, block: BlockState, target_slot: u64, caller: AccountId,
            now_ts: i64, now_slot: u64|
            commit_randomness_error(config, block, e, target_slot, caller, now_ts, now_slot)
                == Some(RigItError::InvalidExplorationStatus),
{
}

/// The error, if any, that a carry-forward must report.
pub open spec fn carry_forward_error(
    config: ProtocolConfig,
    rolled: ExplorationState,
    next: ExplorationState,
    caller: AccountId,
) -> Option<RigItError> {
    if rolled.status != ExplorationStatus::RolledOver {
        Some(RigItError::InvalidExplorationStatus)
    } else if rolled.carry_forward_done {
        Some(RigItError::CarryForwardAlreadyDone)
    } else if next.status != ExplorationStatus::Active {
        Some(RigItError::ExplorationNotActive)
    } else if caller != config.operator {
        Some(RigItError::Unauthorized)
    } else if next.rollover_amount + rolled.total_deposits > u64::MAX {
        Some(RigItError::ArithmeticOverflow)
    } else {
        None
    }
}

/// Move the whole deposit total of a rolled-over exploration into the
/// following exploration's rollover amount. One-shot and operator-gated.
pub fn carry_forward(
    config: &ProtocolConfig,
    rolled: &mut ExplorationState,
    next: &mut ExplorationState,
    caller: AccountId,
) -> (result: Result<(), RigItError>)
    requires
        next.block_id == old(rolled).block_id,
        next.exploration_index == old(rolled).exploration_index + 1,
    ensures
        result == (match carry_forward_error(*config, *old(rolled), *old(next), caller) {
            Some(err) => Err::<(), RigItError>(err),
            None => Ok::<(), RigItError>(()),
        }),
        result is Err ==> *final(rolled) == *old(rolled) && *final(next) == *old(next),
        result is Ok ==> *final(rolled) == (ExplorationState {
            carry_forward_done: true,
            ..*old(rolled)
        }),
        result is Ok ==> *final(next) == (ExplorationState {
            rollover_amount: (old(next).rollover_amount + old(rolled).total_deposits) as u64,
            ..*old(next)
        }),
{
    let rolled_status_ok = match rolled.status {
        ExplorationStatus::RolledOver => true,
        _ => false,
    };
    if !rolled_status_ok {
        return Err(RigItError::InvalidExplorationStatus);
    }
    if rolled.carry_forward_done {
        return Err(RigItError::CarryForwardAlreadyDone);
    }
    let next_active = match next.status {
        ExplorationStatus::Active => true,
        _ => false,
    };
    if !next_active {
        return Err(RigItError::ExplorationNotActive);
    }
    if caller != config.operator {
        return Err(RigItError::Unauthorized);
    }
    let carry_amount = rolled.total_deposits;
    if next.rollover_amount > u64::MAX - carry_amount {
        return Err(RigItError::ArithmeticOverflow);
    }
    next.rollover_amount = next.rollover_amount + carry_amount;
    rolled.carry_forward_done = true;
    Ok(())
}

/// Optional parameter updates, applied together by the admin.
pub struct SetParamsArgs {
    /// New active phase duration, if set.
    pub active_duration_secs: Option<u32>,
    /// New cooldown duration, if set.
    pub cooldown_duration_secs: Option<u32>,
    /// New anti-snipe window, if set.
    pub anti_snipe_window_secs: Option<u32>,
    /// New commit-reveal timeout, if set.
    pub commit_reveal_timeout_slots: Option<u64>,
    /// New operator, if set.
    pub new_operator: Option<AccountId>,
    /// New emergency admin, if set.
    pub new_emergency_admin: Option<AccountId>,
}

/// Update the timing and role parameters. Admin only.
pub fn set_params(
    config: &mut ProtocolConfig,
    args: SetParamsArgs,
    caller: AccountId,
) -> (result: Result<(), RigItError>)
    ensures
        caller != old(config).admin ==> result == Err::<(), RigItError>(RigItError::Unauthorized)
            && *final(config) == *old(config),
        caller == old(config).admin ==> {
            &&& result is Ok
            &&& *final(config) == (ProtocolConfig {
                active_duration_secs: match args.active_duration_secs {
                    Some(v) => v,
                    None => old(config).active_duration_secs,
                },
                cooldown_duration_secs: match args.cooldown_duration_secs {
                    Some(v) => v,
                    None => old(config).cooldown_duration_secs,
                },
                anti_snipe_window_secs: match args.anti_snipe_window_secs {
                    Some(v) => v,
                    None => old(config).anti_snipe_window_secs,
                },
                commit_reveal_timeout_slots: match args.commit_reveal_timeout_slots {
                    Some(v) => v,
                    None => old(config).commit_reveal_timeout_slots,
                },
                operator: match args.new_operator {
                    Some(v) => v,
                    None => old(config).operator,
                },
                emergency_admin: match args.new_emergency_admin {
                    Some(v) => v,
                    None => old(config).emergency_admin,
                },
                ..*old(config)
            })
        },
{
    if caller != config.admin {
        return Err(RigItError::Unauthorized);
    }
    match args.active_duration_secs {
        Some(v) => { config.active_duration_secs = v; },
        None => {},
    }
    match args.cooldown_duration_secs {
        Some(v) => { config.cooldown_duration_secs = v; },
        None => {},
    }
    match args.anti_snipe_window_secs {
        Some(v) => { config.anti_snipe_window_secs = v; },
        None => {},
    }
    match args.commit_reveal_timeout_slots {
        Some(v) => { config.commit_reveal_timeout_slots = v; },
        None => {},
    }
    match args.new_operator {
        Some(v) => { config.operator = v; },
        None => {},
    }
    match args.new_emergency_admin {
        Some(v) => { config.emergency_admin = v; },
        None => {},
    }
    Ok(())
}

/// Pause or unpause the protocol. Admin or emergency admin.
pub fn emergency_pause(
    config: &mut ProtocolConfig,
    pause: bool,
    caller: AccountId,
) -> (result: Result<(), RigItError>)
    ensures
        caller != old(config).admin && caller != old(config).emergency_admin ==> result
            == Err::<(), RigItError>(RigItError::Unauthorized) && *final(config) == *old(config),
        caller == old(config).admin || caller == old(config).emergency_admin ==> result is Ok
            && *final(config) == (ProtocolConfig { paused: pause, ..*old(config) }),
{
    if caller != config.admin && caller != config.emergency_admin {
        return Err(RigItError::Unauthorized);
    }
    config.paused = pause;
    Ok(())
}

} // verus!
