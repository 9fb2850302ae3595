use vstd::prelude::*;
use crate::config::FEE_BASIS_POINTS_DENOM;
use crate::state::{platform_wf, DonorRecord, CampaignRecord, Platform};

verus! {

/// Creates the platform singleton with the given configuration; every
/// counter starts at zero and every list starts empty.
pub fn initialize(
    authority: u64,
    reward_cooldown: u32,
    reward_amount: u64,
    fee_basis_points: u16,
    fee_exemption_limit: u64,
    liquidation_limit: u64,
) -> (p: Platform)
    requires
        fee_basis_points as u64 <= FEE_BASIS_POINTS_DENOM,
    ensures
        platform_wf(p),
        p.authority == authority,
        p.reward_cooldown == reward_cooldown,
        p.reward_amount == reward_amount,
        p.fee_basis_points == fee_basis_points,
        p.fee_exemption_limit == fee_exemption_limit,
        p.liquidation_limit == liquidation_limit,
        p.campaigns_count == 0,
        !p.reward_procedure_is_in_process,
        p.last_reward_procedure_ts == 0,
        p.last_incentive_ts == 0,
        p.donors_recorded == 0,
        p.donors_count == 0,
        p.sum_of_all_donations == 0,
        p.sum_of_active_campaign_donations == 0,
        p.avoided_fees_sum == 0,
        p.liquidations_sum == 0,
        p.top@ == Seq::<DonorRecord>::empty(),
        p.seasonal_top@ == Seq::<DonorRecord>::empty(),
        p.active_campaigns@ == Seq::<CampaignRecord>::empty(),
{
    Platform {
        authority,
        reward_amount,
        reward_cooldown,
        campaigns_count: 0,
        fee_basis_points,
        fee_exemption_limit,
        liquidation_limit,
        reward_procedure_is_in_process: false,
        last_reward_procedure_ts: 0,
        last_incentive_ts: 0,
        donors_recorded: 0,
        donors_count: 0,
        sum_of_all_donations: 0,
        sum_of_active_campaign_donations: 0,
        avoided_fees_sum: 0,
        liquidations_sum: 0,
        top: Vec::new(),
        seasonal_top: Vec::new(),
        active_campaigns: Vec::new(),
    }
}

} // verus!
