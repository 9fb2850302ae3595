use vstd::prelude::*;
use crate::error::CrowdfundingError;
use crate::state::{donor_wf, platform_wf, Donor, DonorRecord, Platform};

verus! {

/// Whether the donors passed for the drop match the snapshotted seasonal
/// top pairwise, in order.
pub open spec fn matches_seasonal_top(donors: Seq<Donor>, top: Seq<DonorRecord>) -> bool {
    donors.len() == top.len() && forall|k: int|
        0 <= k < donors.len() ==> (#[trigger] donors[k]).authority == top[k].donor
}

/// Phase two of the reward procedure. Only runs once every known donor has
/// been recorded in the open cycle; the caller must pass the donors of the
/// seasonal top, in seasonal-top order. Each of them is owed a mint of the
/// platform's reward amount — returned as `(authority, amount)` pairs for
/// the host to perform — and has their rewarded checkpoint closed up to
/// their lifetime sum. The cycle then ends: the flag, the recorded count
/// and the seasonal top are all cleared.
#[verifier::loop_isolation(false)]
pub fn drop_rewards(platform: &mut Platform, donors: &mut Vec<Donor>) -> (r: Result<
    Vec<(u64, u64)>,
    CrowdfundingError,
>)
    requires
        platform_wf(*old(platform)),
        forall|k: int| 0 <= k < old(donors)@.len() ==> donor_wf(#[trigger] old(donors)@[k]),
    ensures
        platform_wf(*final(platform)),
        forall|k: int| 0 <= k < final(donors)@.len() ==> donor_wf(#[trigger] final(donors)@[k]),
        ({
            let p = *old(platform);
            let ds = old(donors)@;
            let not_ready = !p.reward_procedure_is_in_process || p.donors_recorded
                != p.donors_count;
            &&& (r is Err <==> not_ready || !matches_seasonal_top(ds, p.seasonal_top@))
            &&& r is Err ==> {
                &&& r == Err::<Vec<(u64, u64)>, _>(
                    if not_ready {
                        CrowdfundingError::NotAllDonorsRecorded
                    } else {
                        CrowdfundingError::IncorrectSeasonalTop
                    },
                )
                &&& *final(platform) == p
                &&& final(donors)@ == ds
            }
            &&& r is Ok ==> {
                &&& final(donors)@.len() == ds.len()
                &&& forall|k: int|
                    0 <= k < ds.len() ==> #[trigger] final(donors)@[k] == (Donor {
                        rewarded_donations_sum: ds[k].donations_sum,
                        ..ds[k]
                    })
                &&& r->Ok_0@.len() == ds.len()
                &&& forall|k: int|
                    0 <= k < ds.len() ==> #[trigger] r->Ok_0@[k] == (
                    ds[k].authority,
                    p.reward_amount,
                )
                &&& !final(platform).reward_procedure_is_in_process
                &&& final(platform).donors_recorded == 0
                &&& final(platform).seasonal_top@ == Seq::<DonorRecord>::empty()
                &&& *final(platform) == (Platform {
                    reward_procedure_is_in_process: false,
                    donors_recorded: 0,
                    seasonal_top: final(platform).seasonal_top,
                    ..p
                })
            }
        }),
{
    let ghost ds = donors@;
    if !platform.reward_procedure_is_in_process || platform.donors_recorded
        != platform.donors_count {
        return Err(CrowdfundingError::NotAllDonorsRecorded);
    }
    let n = donors.len();
    if n != platform.seasonal_top.len() {
        return Err(CrowdfundingError::IncorrectSeasonalTop);
    }

    // Refuse a mismatched snapshot before touching anything.
    let mut k: usize = 0;
    while k < n
        invariant
            k <= n,
            forall|t: int|
                0 <= t < k ==> (#[trigger] ds[t]).authority == platform.seasonal_top@[t].donor,
        decreases n - k,
    {
        if donors[k].authority != platform.seasonal_top[k].donor {
            return Err(CrowdfundingError::IncorrectSeasonalTop);
        }
        k += 1;
    }

    let reward_amount = platform.reward_amount;
    let mut mints: Vec<(u64, u64)> = Vec::new();
    let mut k: usize = 0;
    while k < n
        invariant
            k <= n,
            donors@.len() == n,
            mints@.len() == k,
            forall|t: int| k <= t < n ==> #[trigger] donors@[t] == ds[t],
            forall|t: int|
                0 <= t < k ==> #[trigger] donors@[t] == (Donor {
                    rewarded_donations_sum: ds[t].donations_sum,
                    ..ds[t]
                }),
            forall|t: int|
                0 <= t < k ==> #[trigger] mints@[t] == (ds[t].authority, reward_amount),
        decreases n - k,
    {
        let d = donors[k];
        donors[k] = Donor { rewarded_donations_sum: d.donations_sum, ..d };
        mints.push((d.authority, reward_amount));
        k += 1;
    }

    platform.reward_procedure_is_in_process = false;
    platform.donors_recorded = 0;
    platform.seasonal_top = Vec::new();

    Ok(mints)
}

} // verus!
