use vstd::prelude::*;
use crate::config::ACTIVE_CAMPAIGNS_CAPACITY;
use crate::error::CrowdfundingError;
use crate::state::{
    lemma_sum_push, platform_wf, Campaign, CampaignRecord, DonorRecord, Platform,
};

verus! {

/// Opens a new campaign: refuses when the active set is full, otherwise
/// assigns the next sequential id, appends a zeroed record to the active set,
/// and returns the new campaign with an empty top-list.
pub fn start_campaign(platform: &mut Platform, campaign_authority: u64) -> (r: Result<
    Campaign,
    CrowdfundingError,
>)
    requires
        platform_wf(*old(platform)),
        old(platform).campaigns_count < u16::MAX,
    ensures
        platform_wf(*final(platform)),
        old(platform).active_campaigns@.len() >= ACTIVE_CAMPAIGNS_CAPACITY ==> {
            &&& r == Err::<Campaign, _>(CrowdfundingError::ActiveCampaignsLimit)
            &&& *final(platform) == *old(platform)
        },
        old(platform).active_campaigns@.len() < ACTIVE_CAMPAIGNS_CAPACITY ==> {
            &&& r is Ok
            &&& r->Ok_0.authority == campaign_authority
            &&& r->Ok_0.id == old(platform).campaigns_count
            &&& r->Ok_0.top@ == Seq::<DonorRecord>::empty()
            &&& final(platform).campaigns_count == old(platform).campaigns_count + 1
            &&& final(platform).active_campaigns@ == old(platform).active_campaigns@.push(
                CampaignRecord {
                    id: old(platform).campaigns_count,
                    donations_sum: 0,
                    withdrawn_sum: 0,
                },
            )
            &&& *final(platform) == (Platform {
                campaigns_count: final(platform).campaigns_count,
                active_campaigns: final(platform).active_campaigns,
                ..*old(platform)
            })
        },
{
    if platform.active_campaigns.len() >= ACTIVE_CAMPAIGNS_CAPACITY {
        return Err(CrowdfundingError::ActiveCampaignsLimit);
    }
    let id = platform.campaigns_count;
    let record = CampaignRecord { id, donations_sum: 0, withdrawn_sum: 0 };
    proof {
        lemma_sum_push(platform.active_campaigns@, record);
    }
    platform.active_campaigns.push(record);
    platform.campaigns_count = platform.campaigns_count + 1;

    Ok(Campaign { authority: campaign_authority, id, top: Vec::new() })
}

} // verus!
