use vstd::prelude::*;
use crate::error::CrowdfundingError;
use crate::state::{
    campaign_index, has_campaign, lemma_campaign_index_unique, lemma_sum_update, platform_wf,
    CampaignRecord, Platform,
};
use crate::utils::find_campaign;

verus! {

/// Pays a campaign's authority everything the campaign has received and not
/// yet withdrawn, and marks the whole donation total as withdrawn. The
/// platform's active sum is untouched: it tracks donations, not payouts.
/// Fails when the id is not in the active set.
pub fn withdraw_donations(platform: &mut Platform, id: u16) -> (r: Result<
    u64,
    CrowdfundingError,
>)
    requires
        platform_wf(*old(platform)),
    ensures
        platform_wf(*final(platform)),
        r is Err <==> !has_campaign(old(platform).active_campaigns@, id),
        r is Err ==> r == Err::<u64, _>(CrowdfundingError::CampaignInactive) && *final(platform)
            == *old(platform),
        r is Ok ==> {
            let i = campaign_index(old(platform).active_campaigns@, id);
            let c = old(platform).active_campaigns@[i];
            &&& r->Ok_0 == c.donations_sum - c.withdrawn_sum
            &&& final(platform).active_campaigns@ == old(platform).active_campaigns@.update(
                i,
                CampaignRecord {
                    id: c.id,
                    donations_sum: c.donations_sum,
                    withdrawn_sum: c.donations_sum,
                },
            )
            &&& *final(platform) == (Platform {
                active_campaigns: final(platform).active_campaigns,
                ..*old(platform)
            })
        },
{
    let i = match find_campaign(&platform.active_campaigns, id) {
        Some(i) => i,
        None => {
            return Err(CrowdfundingError::CampaignInactive);
        },
    };
    let ghost s = platform.active_campaigns@;
    let c = platform.active_campaigns[i];
    let updated = CampaignRecord {
        id: c.id,
        donations_sum: c.donations_sum,
        withdrawn_sum: c.donations_sum,
    };
    proof {
        lemma_campaign_index_unique(s, id, i as int);
        lemma_sum_update(s, i as int, updated);
    }
    platform.active_campaigns[i] = updated;
    Ok(c.donations_sum - c.withdrawn_sum)
}

} // verus!
