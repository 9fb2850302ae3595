use vstd::prelude::*;

verus! {

/// Every way an operation of the engine can be refused. A failed operation
/// has no effect on any record: the engine's transitions are all-or-nothing.
#[derive(Clone, Copy, Debug, PartialEq, Eq, Structural)]
pub enum CrowdfundingError {
    /// The campaign's liquidation vault holds too little of the reward token.
    NotEnoughCHRTInVault,
    /// The platform's limit of active campaigns is reached.
    ActiveCampaignsLimit,
    /// Referring yourself is not allowed.
    CannotReferYourself,
    /// The reward cooldown time has not passed yet.
    RewardCooldown,
    /// A donor can be recorded only once per reward cycle.
    CannotRecordTwice,
    /// The referenced campaign is not in the active set.
    CampaignInactive,
    /// All donors must be recorded before the reward drop.
    NotAllDonorsRecorded,
    /// The donors passed for the reward drop must match the seasonal top.
    IncorrectSeasonalTop,
    /// Donations are refused while the reward procedure is in process.
    RewardProcedureInProcess,
    /// The incentive cooldown time has not passed yet.
    IncentiveCooldown,
    /// The donor has not donated since the last incentive payout.
    NotEligibleForIncentive,
    /// The same donor appears twice in one incentive batch.
    DuplicateInTop,
    /// A balance is too small for the requested movement of funds.
    InsufficientFunds,
}

} // verus!
