use vstd::prelude::*;
use crate::state::{platform_wf, Donor, Platform};

verus! {

/// Registers a new donor identity: bumps the platform's donor count and
/// returns the donor's fresh, zeroed record.
pub fn register_donor(platform: &mut Platform, donor_authority: u64) -> (d: Donor)
    requires
        platform_wf(*old(platform)),
        old(platform).donors_count < u32::MAX,
    ensures
        platform_wf(*final(platform)),
        *final(platform) == (Platform {
            donors_count: (old(platform).donors_count + 1) as u32,
            ..*old(platform)
        }),
        d == (Donor {
            authority: donor_authority,
            donations_sum: 0,
            rewarded_donations_sum: 0,
            incentivized_donations_sum: 0,
            last_record_ts: 0,
        }),
{
    platform.donors_count = platform.donors_count + 1;
    Donor {
        authority: donor_authority,
        donations_sum: 0,
        rewarded_donations_sum: 0,
        incentivized_donations_sum: 0,
        last_record_ts: 0,
    }
}

} // verus!
