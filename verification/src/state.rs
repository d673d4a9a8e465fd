//! Persistent record types of the protocol: the global configuration, one
//! block (arena) per asset, one exploration (round) per betting cycle, the
//! per-option aggregates and the per-deposit receipts.
//!
//! External accounts are identified here by opaque numeric identifiers; the
//! hosting environment owns the actual keying scheme.

use vstd::prelude::*;

verus! {

/// Number of rigs (options) per exploration.
pub const RIGS_PER_EXPLORATION: usize = 36;

/// Identity of an external account, as an opaque number.
pub type AccountId = u64;

/// Global protocol configuration. Singleton; mutated only by the admin.
#[derive(Clone, Copy)]
pub struct ProtocolConfig {
    /// Admin with full control.
    pub admin: AccountId,
    /// Operator that commits and reveals randomness and runs settlement.
    pub operator: AccountId,
    /// Loyalty token mint used for the ticket multiplier.
    pub rig_token_mint: AccountId,
    /// Emergency admin, allowed to pause only.
    pub emergency_admin: AccountId,
    /// Whole-protocol pause switch.
    pub paused: bool,
    /// Winner share of the remaining pool, in basis points.
    pub winner_share_bps: u16,
    /// Buyback-and-burn share, in basis points.
    pub buyback_burn_bps: u16,
    /// Buyback-and-LP share, in basis points.
    pub buyback_lp_bps: u16,
    /// Team operations share, in basis points.
    pub team_ops_bps: u16,
    /// Ecosystem share, in basis points.
    pub ecosystem_bps: u16,
    /// Length of the active deposit phase, in seconds.
    pub active_duration_secs: u32,
    /// Length of the cooldown after the active phase, in seconds.
    pub cooldown_duration_secs: u32,
    /// Length of the trailing anti-snipe window, in seconds.
    pub anti_snipe_window_secs: u32,
    /// Slots allowed between the commit target and the reveal deadline.
    pub commit_reveal_timeout_slots: u64,
}

impl ProtocolConfig {
    /// The five shares cover the whole pool: they sum to 10000 bps.
    pub open spec fn spec_fee_splits_valid(self) -> bool {
        self.winner_share_bps + self.buyback_burn_bps + self.buyback_lp_bps
            + self.team_ops_bps + self.ecosystem_bps == 10000
    }

    /// Check that the configured fee splits sum to 10000 bps (100%).
    pub fn validate_fee_splits(&self) -> (ok: bool)
        ensures
            ok == self.spec_fee_splits_valid(),
    {
        let total = self.winner_share_bps as u32 + self.buyback_burn_bps as u32
            + self.buyback_lp_bps as u32 + self.team_ops_bps as u32 + self.ecosystem_bps as u32;
        total == 10000
    }

    /// Reset fee splits and timing to their default values.
    pub fn init_defaults(&mut self)
        ensures
            *final(self) == (ProtocolConfig {
                winner_share_bps: 5000,
                buyback_burn_bps: 1500,
                buyback_lp_bps: 1500,
                team_ops_bps: 1000,
                ecosystem_bps: 1000,
                active_duration_secs: 7200,
                cooldown_duration_secs: 2400,
                anti_snipe_window_secs: 300,
                commit_reveal_timeout_slots: 150,
                ..*old(self)
            }),
            final(self).spec_fee_splits_valid(),
    {
        self.winner_share_bps = 5000;
        self.buyback_burn_bps = 1500;
        self.buyback_lp_bps = 1500;
        self.team_ops_bps = 1000;
        self.ecosystem_bps = 1000;
        self.active_duration_secs = 7200;
        self.cooldown_duration_secs = 2400;
        self.anti_snipe_window_secs = 300;
        self.commit_reveal_timeout_slots = 150;
    }
}

/// One betting arena tied to one asset. Stats are mutated at settlement.
#[derive(Clone, Copy)]
pub struct BlockState {
    /// Block identifier (0, 1 or 2).
    pub block_id: u8,
    /// Asset mint backing this block.
    pub asset_mint: AccountId,
    /// Asset decimals, kept for display.
    pub asset_decimals: u8,
    /// Minimum pool required for a draw to happen.
    pub min_threshold: u64,
    /// Index the next exploration will get.
    pub current_exploration_index: u64,
    /// Block-specific pause switch.
    pub paused: bool,
    /// Cumulative volume deposited through this block.
    pub total_volume: u128,
    /// Number of explorations that reached settlement.
    pub total_explorations_completed: u64,
}

/// Phase of an exploration's lifecycle.
#[derive(Clone, Copy, Debug, PartialEq, Eq, Structural)]
pub enum ExplorationStatus {
    /// Created but not yet open for deposits.
    Pending,
    /// Open for deposits.
    Active,
    /// Deposit phase over, randomness committed, awaiting reveal.
    Finalizing,
    /// Winner drawn and accounting recorded. Terminal.
    Settled,
    /// Pool below threshold; funds carry to the next round. Terminal.
    RolledOver,
}

impl Default for ExplorationStatus {
    fn default() -> (s: Self)
        ensures
            s == ExplorationStatus::Pending,
    {
        ExplorationStatus::Pending
    }
}

/// Sum of the per-rig deposit amounts.
pub open spec fn deposit_sum(s: Seq<u64>) -> int
    decreases s.len(),
{
    if s.len() == 0 {
        0
    } else {
        deposit_sum(s.drop_last()) + s.last()
    }
}

/// Deposit sums are non-negative.
pub proof fn lemma_deposit_sum_nonneg(s: Seq<u64>)
    ensures
        deposit_sum(s) >= 0,
    decreases s.len(),
{
    if s.len() > 0 {
        lemma_deposit_sum_nonneg(s.drop_last());
    }
}

/// No single element exceeds the sum.
pub proof fn lemma_deposit_sum_element_le(s: Seq<u64>, i: int)
    requires
        0 <= i < s.len(),
    ensures
        s[i] <= deposit_sum(s),
    decreases s.len(),
{
    if i == s.len() - 1 {
        lemma_deposit_sum_nonneg(s.drop_last());
    } else {
        lemma_deposit_sum_element_le(s.drop_last(), i);
    }
}

/// Updating one element changes the sum by the difference at that spot.
pub proof fn lemma_deposit_sum_update(s: Seq<u64>, i: int, v: u64)
    requires
        0 <= i < s.len(),
    ensures
        deposit_sum(s.update(i, v)) == deposit_sum(s) - s[i] + v,
    decreases s.len(),
{
    let t = s.update(i, v);
    if i == s.len() - 1 {
        assert(t.drop_last() =~= s.drop_last());
    } else {
        assert(t.drop_last() =~= s.drop_last().update(i, v));
        lemma_deposit_sum_update(s.drop_last(), i, v);
        assert(t.last() == s.last());
    }
}

/// A sequence of zeros sums to zero.
pub proof fn lemma_deposit_sum_zero(s: Seq<u64>)
    requires
        forall|i: int| 0 <= i < s.len() ==> s[i] == 0,
    ensures
        deposit_sum(s) == 0,
    decreases s.len(),
{
    if s.len() > 0 {
        lemma_deposit_sum_zero(s.drop_last());
    }
}

/// One betting round within a block.
#[derive(Clone, Copy)]
pub struct ExplorationState {
    /// Parent block.
    pub block_id: u8,
    /// Sequential index within the block.
    pub exploration_index: u64,
    /// Current lifecycle phase.
    pub status: ExplorationStatus,
    /// Slot at which the exploration started.
    pub start_slot: u64,
    /// Timestamp at which the exploration started.
    pub start_ts: i64,
    /// Timestamp at which the active phase ends.
    pub active_end_ts: i64,
    /// Timestamp at which the cooldown ends.
    pub cooldown_end_ts: i64,
    /// Total deposits over all rigs, excluding rollover and anti-sniped.
    pub total_deposits: u64,
    /// Deposits per rig.
    pub rig_deposits: [u64; RIGS_PER_EXPLORATION],
    /// Weighted ticket count per rig.
    pub rig_tickets: [u128; RIGS_PER_EXPLORATION],
    /// Amount carried in from the previous exploration.
    pub rollover_amount: u64,
    /// Target slot for the randomness reveal.
    pub commit_slot: u64,
    /// Hash of (secret, target slot).
    pub commit_hash: [u8; 32],
    /// Slot after which the timeout fallback may settle the round.
    pub reveal_deadline_slot: u64,
    /// Random value fixed at settlement.
    pub revealed_random: Option<[u8; 32]>,
    /// Winning rig index; set exactly once, at settlement.
    pub winning_rig: Option<u8>,
    /// One-shot flag: loser refunds processed.
    pub loser_refunds_processed: bool,
    /// One-shot flag: winner distribution processed.
    pub winner_distribution_processed: bool,
    /// One-shot flag: treasury split allocated.
    pub buyback_allocated: bool,
    /// One-shot flag: rolled-over funds carried forward.
    pub carry_forward_done: bool,
    /// Deposits in the winning rig plus rollover (W).
    pub total_winner_deposits: u64,
    /// Deposits in the losing rigs (L).
    pub total_loser_deposits: u64,
    /// Pool remaining after loser refunds: R = W + L/2.
    pub remaining_pool: u64,
}

impl ExplorationState {
    /// Internal consistency of a round record: per-rig deposits add up to
    /// the round total, a winner exists exactly on settled rounds and is a
    /// valid index, and the timing window is ordered.
    pub open spec fn wf(self) -> bool {
        &&& deposit_sum(self.rig_deposits@) == self.total_deposits
        &&& (self.winning_rig is Some ==> self.winning_rig->0 < 36
            && self.status == ExplorationStatus::Settled)
        &&& (self.status == ExplorationStatus::Settled ==> self.winning_rig is Some)
        &&& 0 <= self.start_ts <= self.active_end_ts <= self.cooldown_end_ts
    }

    /// Currently accepting deposits.
    pub fn is_active(&self, current_ts: i64) -> (r: bool)
        ensures
            r == (self.status == ExplorationStatus::Active && current_ts < self.active_end_ts),
    {
        let status_active = match self.status {
            ExplorationStatus::Active => true,
            _ => false,
        };
        status_active && current_ts < self.active_end_ts
    }

    /// The trailing part of the active phase whose deposits are deferred.
    pub open spec fn spec_in_anti_snipe_window(self, current_ts: i64, window_secs: u32) -> bool {
        &&& current_ts >= self.active_end_ts - window_secs
        &&& current_ts < self.active_end_ts
    }

    /// Whether `current_ts` falls into the anti-snipe window.
    pub fn is_anti_snipe_window(&self, current_ts: i64, window_secs: u32) -> (r: bool)
        requires
            self.active_end_ts >= 0,
        ensures
            r == self.spec_in_anti_snipe_window(current_ts, window_secs),
    {
        let snipe_start = self.active_end_ts - window_secs as i64;
        current_ts >= snipe_start && current_ts < self.active_end_ts
    }

    /// Total pool including rollover, saturating at `u64::MAX`.
    pub open spec fn spec_total_pool(self) -> int {
        if self.total_deposits + self.rollover_amount > u64::MAX {
            u64::MAX as int
        } else {
            self.total_deposits + self.rollover_amount
        }
    }

    /// Total pool including the rollover carried in.
    pub fn total_pool(&self) -> (r: u64)
        ensures
            r == self.spec_total_pool(),
    {
        if self.total_deposits > u64::MAX - self.rollover_amount {
            u64::MAX
        } else {
            self.total_deposits + self.rollover_amount
        }
    }

    /// Remaining pool from the recorded accounting: `W + L/2`, saturating.
    pub open spec fn spec_remaining_pool(self) -> int {
        if self.total_winner_deposits + self.total_loser_deposits / 2 > u64::MAX {
            u64::MAX as int
        } else {
            self.total_winner_deposits + self.total_loser_deposits / 2
        }
    }

    /// Compute `R = W + L/2` from the recorded winner and loser deposits.
    pub fn calculate_remaining_pool(&self) -> (r: u64)
        ensures
            r == self.spec_remaining_pool(),
    {
        let w = self.total_winner_deposits;
        let l = self.total_loser_deposits;
        if w > u64::MAX - l / 2 {
            u64::MAX
        } else {
            w + l / 2
        }
    }
}

impl Default for ExplorationState {
    fn default() -> (d: Self)
        ensures
            d.block_id == 0,
            d.exploration_index == 0,
            d.status == ExplorationStatus::Pending,
            d.start_slot == 0,
            d.start_ts == 0,
            d.active_end_ts == 0,
            d.cooldown_end_ts == 0,
            d.total_deposits == 0,
            forall|i: int| 0 <= i < RIGS_PER_EXPLORATION ==> d.rig_deposits@[i] == 0,
            forall|i: int| 0 <= i < RIGS_PER_EXPLORATION ==> d.rig_tickets@[i] == 0,
            d.rollover_amount == 0,
            d.commit_slot == 0,
            forall|i: int| 0 <= i < 32 ==> d.commit_hash@[i] == 0,
            d.reveal_deadline_slot == 0,
            d.revealed_random is None,
            d.winning_rig is None,
            !d.loser_refunds_processed,
            !d.winner_distribution_processed,
            !d.buyback_allocated,
            !d.carry_forward_done,
            d.total_winner_deposits == 0,
            d.total_loser_deposits == 0,
            d.remaining_pool == 0,
            d.wf(),
    {
        let d = ExplorationState {
            block_id: 0,
            exploration_index: 0,
            status: ExplorationStatus::Pending,
            start_slot: 0,
            start_ts: 0,
            active_end_ts: 0,
            cooldown_end_ts: 0,
            total_deposits: 0,
            rig_deposits: [0u64; RIGS_PER_EXPLORATION],
            rig_tickets: [0u128; RIGS_PER_EXPLORATION],
            rollover_amount: 0,
            commit_slot: 0,
            commit_hash: [0u8; 32],
            reveal_deadline_slot: 0,
            revealed_random: None,
            winning_rig: None,
            loser_refunds_processed: false,
            winner_distribution_processed: false,
            buyback_allocated: false,
            carry_forward_done: false,
            total_winner_deposits: 0,
            total_loser_deposits: 0,
            remaining_pool: 0,
        };
        proof {
            lemma_deposit_sum_zero(d.rig_deposits@);
        }
        d
    }
}

/// Per-round, per-rig aggregate, created lazily on first deposit.
#[derive(Clone, Copy)]
pub struct RigState {
    /// Whether this record has been stamped with its identity yet.
    pub initialized: bool,
    /// Parent block.
    pub block_id: u8,
    /// Parent exploration index.
    pub exploration_index: u64,
    /// Rig index (0-35).
    pub rig_index: u8,
    /// Total deposits into this rig.
    pub total_deposits: u64,
    /// Total weighted tickets in this rig.
    pub total_tickets: u128,
    /// Number of individual deposits.
    pub deposit_count: u32,
}

/// One record per deposit action. Amount and tickets are immutable after
/// creation; only the claim and migration flags ever change.
#[derive(Clone, Copy)]
pub struct DepositReceipt {
    /// Depositor.
    pub user: AccountId,
    /// Parent block.
    pub block_id: u8,
    /// Exploration this deposit belongs to.
    pub exploration_index: u64,
    /// Rig the deposit went to.
    pub rig_index: u8,
    /// Deposit amount in token units.
    pub amount: u64,
    /// Effective ticket weight after sqrt and multiplier.
    pub effective_tickets: u128,
    /// Timestamp of the deposit.
    pub deposited_at: i64,
    /// Caller-chosen nonce distinguishing multiple deposits.
    pub deposit_nonce: u64,
    /// Made inside the anti-snipe window: excluded from the round's totals.
    pub is_anti_sniped: bool,
    /// If anti-sniped and migrated, the exploration it was migrated into.
    pub rolled_to_exploration: Option<u64>,
    /// One-shot flag: loser refund claimed.
    pub refund_claimed: bool,
    /// One-shot flag: winner payout claimed.
    pub winnings_claimed: bool,
}

} // verus!
