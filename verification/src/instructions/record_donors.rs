use vstd::prelude::*;
use crate::config::SEASONAL_TOP_CAPACITY;
use crate::error::CrowdfundingError;
use crate::state::{
    donor_entries_at_most, platform_wf, top_wf, Donor, DonorRecord, Platform,
};
use crate::utils::{add_to_top, is_upsert, lemma_upsert_members};

verus! {

/// The leaderboard entry a donor is recorded under: lifetime sum.
pub open spec fn seasonal_record(d: Donor) -> DonorRecord {
    DonorRecord { donor: d.authority, donations_sum: d.donations_sum }
}

/// One donor's effect on the seasonal top: a donor with nothing donated
/// since the last reward is skipped, the rest are upserted by lifetime sum.
pub open spec fn is_seasonal_step(s: Seq<DonorRecord>, d: Donor, t: Seq<DonorRecord>) -> bool {
    if d.donations_sum != d.rewarded_donations_sum {
        is_upsert(s, SEASONAL_TOP_CAPACITY as int, seasonal_record(d), t)
    } else {
        t == s
    }
}

/// The whole batch applied to the seasonal top, donor by donor, in order.
pub open spec fn is_seasonal_fold(
    s: Seq<DonorRecord>,
    donors: Seq<Donor>,
    t: Seq<DonorRecord>,
) -> bool
    decreases donors.len(),
{
    if donors.len() == 0 {
        t == s
    } else {
        exists|mid: Seq<DonorRecord>|
            #[trigger] is_seasonal_step(s, donors[0], mid) && is_seasonal_fold(
                mid,
                donors.drop_first(),
                t,
            )
    }
}

/// Extending a fold by one more donor at the back.
proof fn lemma_seasonal_fold_snoc(
    s: Seq<DonorRecord>,
    donors: Seq<Donor>,
    mid: Seq<DonorRecord>,
    d: Donor,
    t: Seq<DonorRecord>,
)
    requires
        is_seasonal_fold(s, donors, mid),
        is_seasonal_step(mid, d, t),
    ensures
        is_seasonal_fold(s, donors.push(d), t),
    decreases donors.len(),
{
    if donors.len() == 0 {
        assert(donors.push(d).drop_first() =~= Seq::<Donor>::empty());
        assert(donors.push(d)[0] == d);
        assert(is_seasonal_step(s, d, t));
        assert(is_seasonal_fold(t, donors.push(d).drop_first(), t));
    } else {
        let m0 = choose|m: Seq<DonorRecord>|
            #[trigger] is_seasonal_step(s, donors[0], m) && is_seasonal_fold(
                m,
                donors.drop_first(),
                mid,
            );
        lemma_seasonal_fold_snoc(m0, donors.drop_first(), mid, d, t);
        assert(donors.push(d).drop_first() =~= donors.drop_first().push(d));
        assert(donors.push(d)[0] == donors[0]);
        assert(is_seasonal_step(s, donors.push(d)[0], m0) && is_seasonal_fold(
            m0,
            donors.push(d).drop_first(),
            t,
        ));
    }
}

/// Whether a donor identity appears twice in one batch.
pub open spec fn batch_has_duplicate(donors: Seq<Donor>) -> bool {
    exists|i: int, j: int|
        0 <= i < j < donors.len() && (#[trigger] donors[i]).authority == (#[trigger] donors[j]).authority
}

/// Whether some donor of the batch was already recorded in the cycle that
/// began at `cycle_start`.
pub open spec fn batch_has_recorded(donors: Seq<Donor>, cycle_start: u32) -> bool {
    exists|i: int| 0 <= i < donors.len() && (#[trigger] donors[i]).last_record_ts >= cycle_start
}

/// Phase one of the reward procedure. The first call after the cooldown
/// opens a cycle: the in-process flag goes up and the cycle is stamped with
/// `now`. Each call records a batch of donors: every donor is stamped, and
/// every donor who has donated since their last reward is upserted into the
/// seasonal top by lifetime sum. A donor already recorded in this cycle —
/// in an earlier batch or twice in this one — aborts the whole batch.
#[verifier::loop_isolation(false)]
#[verifier::rlimit(100)]
pub fn record_donors(platform: &mut Platform, donors: &mut Vec<Donor>, now: u32) -> (r: Result<
    (),
    CrowdfundingError,
>)
    requires
        platform_wf(*old(platform)),
        now >= old(platform).last_reward_procedure_ts,
        old(platform).donors_recorded + old(donors)@.len() <= u32::MAX,
        forall|k: int|
            0 <= k < old(donors)@.len() ==> donor_entries_at_most(
                old(platform).seasonal_top@,
                (#[trigger] old(donors)@[k]).authority,
                old(donors)@[k].donations_sum,
            ),
    ensures
        platform_wf(*final(platform)),
        ({
            let p = *old(platform);
            let ds = old(donors)@;
            let cooldown_blocked = !p.reward_procedure_is_in_process && now
                - p.last_reward_procedure_ts < p.reward_cooldown;
            let cycle_start = if p.reward_procedure_is_in_process {
                p.last_reward_procedure_ts
            } else {
                now
            };
            &&& (r is Err <==> cooldown_blocked || batch_has_duplicate(ds)
                || batch_has_recorded(ds, cycle_start))
            &&& r is Err ==> {
                &&& r == Err::<(), _>(
                    if cooldown_blocked {
                        CrowdfundingError::RewardCooldown
                    } else {
                        CrowdfundingError::CannotRecordTwice
                    },
                )
                &&& *final(platform) == p
                &&& final(donors)@ == ds
            }
            &&& r is Ok ==> {
                &&& final(platform).reward_procedure_is_in_process
                &&& final(platform).last_reward_procedure_ts == cycle_start
                &&& final(platform).donors_recorded == p.donors_recorded + ds.len()
                &&& final(donors)@.len() == ds.len()
                &&& forall|k: int|
                    0 <= k < ds.len() ==> #[trigger] final(donors)@[k] == (Donor {
                        last_record_ts: now,
                        ..ds[k]
                    })
                &&& is_seasonal_fold(p.seasonal_top@, ds, final(platform).seasonal_top@)
                &&& *final(platform) == (Platform {
                    reward_procedure_is_in_process: true,
                    last_reward_procedure_ts: cycle_start,
                    donors_recorded: final(platform).donors_recorded,
                    seasonal_top: final(platform).seasonal_top,
                    ..p
                })
            }
        }),
{
    let ghost ds = donors@;
    let in_process = platform.reward_procedure_is_in_process;
    if !in_process && now - platform.last_reward_procedure_ts < platform.reward_cooldown {
        return Err(CrowdfundingError::RewardCooldown);
    }
    let cycle_start = if in_process {
        platform.last_reward_procedure_ts
    } else {
        now
    };
    let n = donors.len();

    // Refuse the batch before touching anything: a duplicate identity …
    let mut i: usize = 0;
    while i < n
        invariant
            n == ds.len(),
            donors@ == ds,
            i <= n,
            forall|a: int, b: int|
                0 <= a < b < n && a < i ==> (#[trigger] ds[a]).authority != (
                #[trigger] ds[b]).authority,
        decreases n - i,
    {
        let mut j: usize = i + 1;
        while j < n
            invariant
                n == ds.len(),
                donors@ == ds,
                i < n,
                i < j <= n,
                forall|b: int| i < b < j ==> (#[trigger] ds[b]).authority != ds[i as int].authority,
            decreases n - j,
        {
            if donors[i].authority == donors[j].authority {
                return Err(CrowdfundingError::CannotRecordTwice);
            }
            j += 1;
        }
        i += 1;
    }

    // … or a donor already recorded in this cycle.
    let mut k: usize = 0;
    while k < n
        invariant
            n == ds.len(),
            donors@ == ds,
            k <= n,
            forall|t: int| 0 <= t < k ==> (#[trigger] ds[t]).last_record_ts < cycle_start,
        decreases n - k,
    {
        if donors[k].last_record_ts >= cycle_start {
            return Err(CrowdfundingError::CannotRecordTwice);
        }
        k += 1;
    }

    platform.reward_procedure_is_in_process = true;
    platform.last_reward_procedure_ts = cycle_start;
    let ghost p_mid = *platform;
    let ghost s0 = platform.seasonal_top@;

    let mut k: usize = 0;
    while k < n
        invariant
            n == ds.len(),
            donors@.len() == n,
            k <= n,
            forall|a: int, b: int|
                0 <= a < b < n ==> (#[trigger] ds[a]).authority != (#[trigger] ds[b]).authority,
            forall|t: int| k <= t < n ==> #[trigger] donors@[t] == ds[t],
            forall|t: int|
                0 <= t < k ==> #[trigger] donors@[t] == (Donor {
                    last_record_ts: now,
                    ..ds[t]
                }),
            *platform == (Platform { seasonal_top: platform.seasonal_top, ..p_mid }),
            top_wf(platform.seasonal_top@, SEASONAL_TOP_CAPACITY as int),
            is_seasonal_fold(s0, ds.take(k as int), platform.seasonal_top@),
            forall|t: int|
                k <= t < n ==> donor_entries_at_most(
                    platform.seasonal_top@,
                    (#[trigger] ds[t]).authority,
                    ds[t].donations_sum,
                ),
        decreases n - k,
    {
        let d = donors[k];
        donors[k] = Donor { last_record_ts: now, ..d };
        let ghost pre_top = platform.seasonal_top@;
        if d.donations_sum != d.rewarded_donations_sum {
            add_to_top(
                &mut platform.seasonal_top,
                SEASONAL_TOP_CAPACITY,
                DonorRecord { donor: d.authority, donations_sum: d.donations_sum },
            );
            proof {
                lemma_upsert_members(
                    pre_top,
                    SEASONAL_TOP_CAPACITY as int,
                    seasonal_record(d),
                    platform.seasonal_top@,
                );
                assert forall|t: int| k + 1 <= t < n implies donor_entries_at_most(
                    platform.seasonal_top@,
                    (#[trigger] ds[t]).authority,
                    ds[t].donations_sum,
                ) by {
                    assert forall|e: int|
                        0 <= e < platform.seasonal_top@.len() && (#[trigger] platform.seasonal_top@[e]).donor
                            == ds[t].authority implies platform.seasonal_top@[e].donations_sum
                        <= ds[t].donations_sum by {
                        if platform.seasonal_top@[e] == seasonal_record(d) {
                            assert(ds[k as int].authority != ds[t].authority);
                        } else {
                            let j = choose|j: int|
                                0 <= j < pre_top.len() && pre_top[j] == platform.seasonal_top@[e];
                            assert(pre_top[j].donations_sum <= ds[t].donations_sum);
                        }
                    }
                }
            }
        }
        proof {
            assert(is_seasonal_step(pre_top, ds[k as int], platform.seasonal_top@));
            lemma_seasonal_fold_snoc(
                s0,
                ds.take(k as int),
                pre_top,
                ds[k as int],
                platform.seasonal_top@,
            );
            assert(ds.take(k as int).push(ds[k as int]) =~= ds.take(k + 1));
        }
        k += 1;
    }

    platform.donors_recorded = platform.donors_recorded + (n as u32);
    proof {
        assert(ds.take(n as int) =~= ds);
    }
    Ok(())
}

} // verus!
