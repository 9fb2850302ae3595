use vstd::prelude::*;
use crate::error::CrowdfundingError;
use crate::state::{
    campaign_index, has_campaign, lemma_campaign_index_unique, lemma_elem_le_sum,
    lemma_sum_remove, platform_wf, Platform,
};
use crate::utils::find_campaign;

verus! {

/// Closes a campaign at its authority's request: removes its record from the
/// active set, takes its full donation total out of the platform's active
/// sum, and returns the payout owed to the authority — everything received
/// and not yet withdrawn. Fails when the id is not in the active set.
pub fn stop_campaign(platform: &mut Platform, id: u16) -> (r: Result<u64, CrowdfundingError>)
    requires
        platform_wf(*old(platform)),
    ensures
        platform_wf(*final(platform)),
        r is Err <==> !has_campaign(old(platform).active_campaigns@, id),
        r is Err ==> r == Err::<u64, _>(CrowdfundingError::CampaignInactive) && *final(platform)
            == *old(platform),
        r is Ok ==> {
            let i = campaign_index(old(platform).active_campaigns@, id);
            let c = old(platform).active_campaigns@[i];
            &&& r->Ok_0 == c.donations_sum - c.withdrawn_sum
            &&& final(platform).active_campaigns@ == old(platform).active_campaigns@.remove(i)
            &&& final(platform).sum_of_active_campaign_donations
                == old(platform).sum_of_active_campaign_donations - c.donations_sum
            &&& *final(platform) == (Platform {
                sum_of_active_campaign_donations:
                    final(platform).sum_of_active_campaign_donations,
                active_campaigns: final(platform).active_campaigns,
                ..*old(platform)
            })
        },
{
    let i = match find_campaign(&platform.active_campaigns, id) {
        Some(i) => i,
        None => {
            return Err(CrowdfundingError::CampaignInactive);
        },
    };
    let ghost s = platform.active_campaigns@;
    let c = platform.active_campaigns[i];
    proof {
        lemma_campaign_index_unique(s, id, i as int);
        lemma_sum_remove(s, i as int);
        lemma_elem_le_sum(s, i as int);
        s.remove_ensures(i as int);
    }
    platform.active_campaigns.remove(i);
    platform.sum_of_active_campaign_donations = platform.sum_of_active_campaign_donations
        - c.donations_sum;
    Ok(c.donations_sum - c.withdrawn_sum)
}

} // verus!
