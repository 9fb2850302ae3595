use vstd::prelude::*;
use vstd::arithmetic::div_mod::{
    lemma_div_is_ordered, lemma_div_multiples_vanish, lemma_div_pos_is_pos,
};
use vstd::arithmetic::mul::{
    lemma_mul_inequality, lemma_mul_is_commutative, lemma_mul_nonnegative,
};
use crate::config::{
    CAMPAIGN_TOP_CAPACITY, CHRT_PER_NATIVE_DIVISOR, FEE_BASIS_POINTS_DENOM,
    PLATFORM_TOP_CAPACITY, REFERER_REWARD_NUM,
};
use crate::error::CrowdfundingError;
use crate::state::{
    campaign_index, campaign_wf, donor_entries_at_most, donor_wf, has_campaign,
    lemma_campaign_index_unique, lemma_elem_le_sum, lemma_sum_update, platform_wf, Campaign,
    CampaignRecord, Donations, Donor, DonorRecord, Platform,
};
use crate::utils::{add_to_top, find_campaign, is_upsert};

verus! {

/// What the host must move after a successful donation: the net amount into
/// the campaigns' vault and the fee into the platform's fee vault.
#[derive(Clone, Copy, Debug, PartialEq, Eq, Structural)]
pub struct DonationTransfers {
    pub to_sol_vault: u64,
    pub to_fee_vault: u64,
}

/// The platform fee on a gross amount: basis points with truncating division.
pub open spec fn fee_of(amount: u64, fee_basis_points: u16) -> int {
    (amount * fee_basis_points) / (FEE_BASIS_POINTS_DENOM as int)
}

/// The fee never exceeds the gross amount while the rate is at most one.
pub proof fn lemma_fee_bounds(amount: u64, fee_basis_points: u16)
    requires
        fee_basis_points as u64 <= FEE_BASIS_POINTS_DENOM,
    ensures
        0 <= fee_of(amount, fee_basis_points) <= amount,
{
    let a = amount as int;
    let f = fee_basis_points as int;
    let d = FEE_BASIS_POINTS_DENOM as int;
    lemma_mul_nonnegative(a, f);
    lemma_div_pos_is_pos(a * f, d);
    lemma_mul_inequality(f, d, a);
    lemma_mul_is_commutative(f, a);
    lemma_mul_is_commutative(d, a);
    lemma_div_is_ordered(a * f, d * a, d);
    lemma_div_multiples_vanish(a, d);
}

/// Donation conservation: when the fee is charged, what the campaign
/// receives and what the fee pool receives add up to the gross amount
/// exactly — truncation loses nothing.
pub proof fn lemma_donation_conservation(amount: u64, fee_basis_points: u16)
    requires
        fee_basis_points as u64 <= FEE_BASIS_POINTS_DENOM,
    ensures
        (amount - fee_of(amount, fee_basis_points)) + fee_of(amount, fee_basis_points)
            == amount,
        0 <= amount - fee_of(amount, fee_basis_points) <= amount,
{
    lemma_fee_bounds(amount, fee_basis_points);
}

/// Applies a donation of `lamports` gross by `donor` to `campaign`.
///
/// The fee is charged unless the campaign's fee-exemption vault holds at
/// least the exemption limit; an avoided fee is only counted, never moved.
/// All six running sums (platform total, platform active sum, the active
/// record's total, the donor's lifetime total, and the two fine-grained
/// ledgers) grow by the same net amount, and the donor is re-seated in both
/// top-lists. Refused while the reward procedure is in process, and when the
/// campaign is not in the active set.
pub fn donate(
    platform: &mut Platform,
    campaign: &mut Campaign,
    donor: &mut Donor,
    donor_donations_to_campaign: &mut Donations,
    total_donations_to_campaign: &mut Donations,
    fee_exemption_vault_amount: u64,
    lamports: u64,
) -> (r: Result<DonationTransfers, CrowdfundingError>)
    requires
        platform_wf(*old(platform)),
        campaign_wf(*old(campaign)),
        donor_wf(*old(donor)),
        donor_entries_at_most(
            old(platform).top@,
            old(donor).authority,
            old(donor).donations_sum,
        ),
        donor_entries_at_most(
            old(campaign).top@,
            old(donor).authority,
            old(donor_donations_to_campaign).donations_sum,
        ),
        lamports * old(platform).fee_basis_points <= u64::MAX,
        old(platform).sum_of_all_donations + lamports <= u64::MAX,
        old(donor).donations_sum + lamports <= u64::MAX,
        old(donor_donations_to_campaign).donations_sum + lamports <= u64::MAX,
        old(total_donations_to_campaign).donations_sum + lamports <= u64::MAX,
        old(platform).avoided_fees_sum + fee_of(lamports, old(platform).fee_basis_points)
            <= u64::MAX,
    ensures
        platform_wf(*final(platform)),
        campaign_wf(*final(campaign)),
        donor_wf(*final(donor)),
        r is Err <==> old(platform).reward_procedure_is_in_process || !has_campaign(
            old(platform).active_campaigns@,
            old(campaign).id,
        ),
        r is Err ==> {
            &&& r == Err::<DonationTransfers, _>(
                if old(platform).reward_procedure_is_in_process {
                    CrowdfundingError::RewardProcedureInProcess
                } else {
                    CrowdfundingError::CampaignInactive
                },
            )
            &&& *final(platform) == *old(platform)
            &&& *final(campaign) == *old(campaign)
            &&& *final(donor) == *old(donor)
            &&& *final(donor_donations_to_campaign) == *old(donor_donations_to_campaign)
            &&& *final(total_donations_to_campaign) == *old(total_donations_to_campaign)
        },
        r is Ok ==> {
            let fee = fee_of(lamports, old(platform).fee_basis_points);
            let charged = fee_exemption_vault_amount < old(platform).fee_exemption_limit;
            let inc = if charged { lamports - fee } else { lamports as int };
            let i = campaign_index(old(platform).active_campaigns@, old(campaign).id);
            let c = old(platform).active_campaigns@[i];
            &&& r->Ok_0.to_sol_vault == inc
            &&& r->Ok_0.to_fee_vault == if charged { fee } else { 0 }
            &&& r->Ok_0.to_sol_vault + r->Ok_0.to_fee_vault == lamports
            &&& *final(donor) == (Donor {
                donations_sum: (old(donor).donations_sum + inc) as u64,
                ..*old(donor)
            })
            &&& final(donor_donations_to_campaign).donations_sum
                == old(donor_donations_to_campaign).donations_sum + inc
            &&& final(total_donations_to_campaign).donations_sum
                == old(total_donations_to_campaign).donations_sum + inc
            &&& final(platform).sum_of_all_donations == old(platform).sum_of_all_donations
                + inc
            &&& final(platform).sum_of_active_campaign_donations == old(
                platform,
            ).sum_of_active_campaign_donations + inc
            &&& final(platform).avoided_fees_sum == old(platform).avoided_fees_sum + if charged
                 { 0 } else { fee }
            &&& final(platform).active_campaigns@ == old(platform).active_campaigns@.update(
                i,
                CampaignRecord {
                    id: c.id,
                    donations_sum: (c.donations_sum + inc) as u64,
                    withdrawn_sum: c.withdrawn_sum,
                },
            )
            &&& is_upsert(
                old(platform).top@,
                PLATFORM_TOP_CAPACITY as int,
                DonorRecord {
                    donor: old(donor).authority,
                    donations_sum: (old(donor).donations_sum + inc) as u64,
                },
                final(platform).top@,
            )
            &&& is_upsert(
                old(campaign).top@,
                CAMPAIGN_TOP_CAPACITY as int,
                DonorRecord {
                    donor: old(donor).authority,
                    donations_sum: (old(donor_donations_to_campaign).donations_sum
                        + inc) as u64,
                },
                final(campaign).top@,
            )
            &&& *final(campaign) == (Campaign { top: final(campaign).top, ..*old(campaign) })
            &&& *final(platform) == (Platform {
                sum_of_all_donations: final(platform).sum_of_all_donations,
                sum_of_active_campaign_donations:
                    final(platform).sum_of_active_campaign_donations,
                avoided_fees_sum: final(platform).avoided_fees_sum,
                active_campaigns: final(platform).active_campaigns,
                top: final(platform).top,
                ..*old(platform)
            })
        },
{
    if platform.reward_procedure_is_in_process {
        return Err(CrowdfundingError::RewardProcedureInProcess);
    }

    proof {
        lemma_fee_bounds(lamports, platform.fee_basis_points);
    }
    let fee = lamports * (platform.fee_basis_points as u64) / FEE_BASIS_POINTS_DENOM;
    let charged = fee_exemption_vault_amount < platform.fee_exemption_limit;
    let inc = if charged {
        lamports - fee
    } else {
        lamports
    };
    let transfers = if charged {
        DonationTransfers { to_sol_vault: inc, to_fee_vault: fee }
    } else {
        DonationTransfers { to_sol_vault: inc, to_fee_vault: 0 }
    };

    // The six running sums, in the original's order.
    let i = match find_campaign(&platform.active_campaigns, campaign.id) {
        Some(i) => i,
        None => {
            return Err(CrowdfundingError::CampaignInactive);
        },
    };
    let ghost s = platform.active_campaigns@;
    let c = platform.active_campaigns[i];
    proof {
        lemma_campaign_index_unique(s, campaign.id, i as int);
        lemma_elem_le_sum(s, i as int);
    }
    let updated = CampaignRecord {
        id: c.id,
        donations_sum: c.donations_sum + inc,
        withdrawn_sum: c.withdrawn_sum,
    };
    proof {
        lemma_sum_update(s, i as int, updated);
    }
    platform.active_campaigns[i] = updated;
    platform.sum_of_all_donations = platform.sum_of_all_donations + inc;
    platform.sum_of_active_campaign_donations = platform.sum_of_active_campaign_donations
        + inc;
    donor.donations_sum = donor.donations_sum + inc;
    total_donations_to_campaign.donations_sum = total_donations_to_campaign.donations_sum
        + inc;
    donor_donations_to_campaign.donations_sum = donor_donations_to_campaign.donations_sum
        + inc;
    if !charged {
        platform.avoided_fees_sum = platform.avoided_fees_sum + fee;
    }

    // Re-seat the donor on both leaderboards with the grown sums.
    add_to_top(
        &mut platform.top,
        PLATFORM_TOP_CAPACITY,
        DonorRecord { donor: donor.authority, donations_sum: donor.donations_sum },
    );
    add_to_top(
        &mut campaign.top,
        CAMPAIGN_TOP_CAPACITY,
        DonorRecord {
            donor: donor.authority,
            donations_sum: donor_donations_to_campaign.donations_sum,
        },
    );

    Ok(transfers)
}

/// A donation with a referral: the same transition as `donate`, except that
/// referring yourself is refused, and on success the host additionally mints
/// the referer a fixed-ratio reward in the platform's reward token. Returns
/// the transfers together with the amount to mint.
pub fn donate_with_referer(
    platform: &mut Platform,
    campaign: &mut Campaign,
    donor: &mut Donor,
    donor_donations_to_campaign: &mut Donations,
    total_donations_to_campaign: &mut Donations,
    fee_exemption_vault_amount: u64,
    referer_authority: u64,
    lamports: u64,
) -> (r: Result<(DonationTransfers, u64), CrowdfundingError>)
    requires
        platform_wf(*old(platform)),
        campaign_wf(*old(campaign)),
        donor_wf(*old(donor)),
        donor_entries_at_most(
            old(platform).top@,
            old(donor).authority,
            old(donor).donations_sum,
        ),
        donor_entries_at_most(
            old(campaign).top@,
            old(donor).authority,
            old(donor_donations_to_campaign).donations_sum,
        ),
        lamports * old(platform).fee_basis_points <= u64::MAX,
        REFERER_REWARD_NUM * lamports <= u64::MAX,
        old(platform).sum_of_all_donations + lamports <= u64::MAX,
        old(donor).donations_sum + lamports <= u64::MAX,
        old(donor_donations_to_campaign).donations_sum + lamports <= u64::MAX,
        old(total_donations_to_campaign).donations_sum + lamports <= u64::MAX,
        old(platform).avoided_fees_sum + fee_of(lamports, old(platform).fee_basis_points)
            <= u64::MAX,
    ensures
        platform_wf(*final(platform)),
        campaign_wf(*final(campaign)),
        donor_wf(*final(donor)),
        r is Err <==> referer_authority == old(donor).authority || old(
            platform,
        ).reward_procedure_is_in_process || !has_campaign(
            old(platform).active_campaigns@,
            old(campaign).id,
        ),
        r is Err ==> {
            &&& r == Err::<(DonationTransfers, u64), _>(
                if referer_authority == old(donor).authority {
                    CrowdfundingError::CannotReferYourself
                } else if old(platform).reward_procedure_is_in_process {
                    CrowdfundingError::RewardProcedureInProcess
                } else {
                    CrowdfundingError::CampaignInactive
                },
            )
            &&& *final(platform) == *old(platform)
            &&& *final(campaign) == *old(campaign)
            &&& *final(donor) == *old(donor)
            &&& *final(donor_donations_to_campaign) == *old(donor_donations_to_campaign)
            &&& *final(total_donations_to_campaign) == *old(total_donations_to_campaign)
        },
        r is Ok ==> {
            let fee = fee_of(lamports, old(platform).fee_basis_points);
            let charged = fee_exemption_vault_amount < old(platform).fee_exemption_limit;
            let inc = if charged { lamports - fee } else { lamports as int };
            let i = campaign_index(old(platform).active_campaigns@, old(campaign).id);
            let c = old(platform).active_campaigns@[i];
            &&& r->Ok_0.0.to_sol_vault == inc
            &&& r->Ok_0.0.to_fee_vault == if charged { fee } else { 0 }
            &&& r->Ok_0.0.to_sol_vault + r->Ok_0.0.to_fee_vault == lamports
            &&& r->Ok_0.1 == REFERER_REWARD_NUM * lamports / (CHRT_PER_NATIVE_DIVISOR as int)
            &&& *final(donor) == (Donor {
                donations_sum: (old(donor).donations_sum + inc) as u64,
                ..*old(donor)
            })
            &&& final(donor_donations_to_campaign).donations_sum
                == old(donor_donations_to_campaign).donations_sum + inc
            &&& final(total_donations_to_campaign).donations_sum
                == old(total_donations_to_campaign).donations_sum + inc
            &&& final(platform).sum_of_all_donations == old(platform).sum_of_all_donations
                + inc
            &&& final(platform).sum_of_active_campaign_donations == old(
                platform,
            ).sum_of_active_campaign_donations + inc
            &&& final(platform).avoided_fees_sum == old(platform).avoided_fees_sum + if charged
                 { 0 } else { fee }
            &&& final(platform).active_campaigns@ == old(platform).active_campaigns@.update(
                i,
                CampaignRecord {
                    id: c.id,
                    donations_sum: (c.donations_sum + inc) as u64,
                    withdrawn_sum: c.withdrawn_sum,
                },
            )
            &&& is_upsert(
                old(platform).top@,
                PLATFORM_TOP_CAPACITY as int,
                DonorRecord {
                    donor: old(donor).authority,
                    donations_sum: (old(donor).donations_sum + inc) as u64,
                },
                final(platform).top@,
            )
            &&& is_upsert(
                old(campaign).top@,
                CAMPAIGN_TOP_CAPACITY as int,
                DonorRecord {
                    donor: old(donor).authority,
                    donations_sum: (old(donor_donations_to_campaign).donations_sum
                        + inc) as u64,
                },
                final(campaign).top@,
            )
            &&& *final(campaign) == (Campaign { top: final(campaign).top, ..*old(campaign) })
            &&& *final(platform) == (Platform {
                sum_of_all_donations: final(platform).sum_of_all_donations,
                sum_of_active_campaign_donations:
                    final(platform).sum_of_active_campaign_donations,
                avoided_fees_sum: final(platform).avoided_fees_sum,
                active_campaigns: final(platform).active_campaigns,
                top: final(platform).top,
                ..*old(platform)
            })
        },
{
    if referer_authority == donor.authority {
        return Err(CrowdfundingError::CannotReferYourself);
    }
    let transfers = match donate(
        platform,
        campaign,
        donor,
        donor_donations_to_campaign,
        total_donations_to_campaign,
        fee_exemption_vault_amount,
        lamports,
    ) {
        Ok(t) => t,
        Err(e) => {
            return Err(e);
        },
    };
    let mint_to_referer = REFERER_REWARD_NUM * lamports / CHRT_PER_NATIVE_DIVISOR;
    Ok((transfers, mint_to_referer))
}

} // verus!
