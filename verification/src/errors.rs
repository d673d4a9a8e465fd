//! Error taxonomy shared by every operation of the protocol.

use vstd::prelude::*;

verus! {

/// Reason an operation was rejected. Every operation is transactional:
/// any error leaves all state untouched.
#[derive(Clone, Copy, Debug, PartialEq, Eq, Structural)]
pub enum RigItError {
    /// The whole protocol is paused.
    ProtocolPaused,
    /// The targeted block (arena) is paused.
    BlockPaused,
    /// The exploration is not in its active deposit phase.
    ExplorationNotActive,
    /// The exploration has not been settled yet.
    ExplorationNotSettled,
    /// The exploration is not in the finalizing (commit made) phase.
    ExplorationNotFinalizing,
    /// The exploration was already finalized.
    ExplorationAlreadyFinalized,
    /// Option index outside the 36 available rigs.
    InvalidRigIndex,
    /// Deposit below the minimum amount.
    DepositTooSmall,
    /// A commitment was already recorded for this exploration.
    RandomnessAlreadyCommitted,
    /// The committed target slot is not far enough in the future.
    CommitSlotNotFuture,
    /// The reveal window has closed.
    RevealDeadlinePassed,
    /// The reveal deadline has not passed yet (fallback not available).
    RevealDeadlineNotPassed,
    /// The target slot has not been reached yet.
    RevealTooEarly,
    /// The revealed secret does not match the stored commitment.
    InvalidRevealSecret,
    /// The loser refund was already claimed on this receipt.
    RefundAlreadyClaimed,
    /// The winnings were already claimed on this receipt.
    WinningsAlreadyClaimed,
    /// The receipt's rig won; it cannot take the loser path.
    NotAWinner,
    /// The receipt's rig lost; it cannot take the winner path.
    NotALoser,
    /// The pool did not meet the draw threshold.
    ThresholdNotMet,
    /// A checked counter would overflow.
    ArithmeticOverflow,
    /// The caller does not hold the required role.
    Unauthorized,
    /// The previous exploration has not reached a terminal status.
    PreviousNotFinalized,
    /// The treasury split was already allocated for this exploration.
    BuybackAlreadyAllocated,
    /// The configured fee split does not sum to 10000 basis points.
    InvalidFeeSplit,
    /// A block with this identifier already exists.
    BlockIdExists,
    /// Block identifier outside the supported range.
    InvalidBlockId,
    /// The receipt is not flagged anti-sniped.
    DepositNotAntiSniped,
    /// The anti-sniped receipt was already migrated.
    DepositAlreadyRolledOver,
    /// The active deposit phase has not ended yet.
    ActivePhaseNotEnded,
    /// The cooldown of the previous exploration has not ended.
    CooldownNotEnded,
    /// The carry-forward was already performed for this exploration.
    CarryForwardAlreadyDone,
    /// The exploration's status does not admit this operation.
    InvalidExplorationStatus,
    /// No random value has been revealed.
    NoRandomnessRevealed,
    /// The requested slot's entropy is outside the retained history.
    SlotHashNotAvailable,
}

} // verus!
