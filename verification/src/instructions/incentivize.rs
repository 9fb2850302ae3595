use vstd::prelude::*;
use crate::config::SEASONAL_TOP_CAPACITY;
use crate::error::CrowdfundingError;
use crate::state::{donor_wf, platform_wf, Donor, Platform};

verus! {

#[verifier::external_type_specification]
#[verifier::external_body]
#[verifier::reject_recursive_types(T)]
pub struct ExHeaplessVec<T, const N: usize>(heapless::Vec<T, N>);

/// The keys a duplicate-detection vector holds, in insertion order.
pub uninterp spec fn seen_keys(v: heapless::Vec<u64, SEASONAL_TOP_CAPACITY>) -> Seq<u64>;

/// Relies on heapless::Vec::new: a freshly constructed vector is empty.
#[verifier::external_body]
fn seen_new() -> (r: heapless::Vec<u64, SEASONAL_TOP_CAPACITY>)
    ensures
        seen_keys(r) == Seq::<u64>::empty(),
{
    heapless::Vec::new()
}

/// Relies on heapless::Vec::push: the item is appended and the call returns
/// Ok while the vector is below its capacity N; a full vector is left
/// unchanged and the item comes back as Err.
#[verifier::external_body]
fn seen_push(v: &mut heapless::Vec<u64, SEASONAL_TOP_CAPACITY>, key: u64) -> (r: bool)
    ensures
        r <==> seen_keys(*old(v)).len() < SEASONAL_TOP_CAPACITY,
        r ==> seen_keys(*final(v)) == seen_keys(*old(v)).push(key),
        !r ==> seen_keys(*final(v)) == seen_keys(*old(v)),
{
    v.push(key).is_ok()
}

/// Relies on `<[u64]>::contains`, reached through heapless::Vec's deref to a
/// slice: whether any held key equals the probe.
#[verifier::external_body]
fn seen_contains(v: &heapless::Vec<u64, SEASONAL_TOP_CAPACITY>, key: u64) -> (r: bool)
    ensures
        r <==> seen_keys(*v).contains(key),
{
    v.contains(&key)
}

/// The first refusal the incentive batch runs into at or after position `i`,
/// scanning donors in order: a repeated identity is a duplicate, a donor
/// whose incentive checkpoint already equals their lifetime sum is not
/// eligible.
pub open spec fn first_incentive_error(s: Seq<Donor>, i: int) -> Option<CrowdfundingError>
    decreases s.len() - i,
{
    if i < 0 || i >= s.len() {
        None
    } else if exists|j: int| 0 <= j < i && (#[trigger] s[j]).authority == s[i].authority {
        Some(CrowdfundingError::DuplicateInTop)
    } else if s[i].incentivized_donations_sum == s[i].donations_sum {
        Some(CrowdfundingError::NotEligibleForIncentive)
    } else {
        first_incentive_error(s, i + 1)
    }
}

/// Idempotent reward eligibility: once every donor of a batch has been
/// incentivized up to their lifetime sum — exactly the state a successful
/// `incentivize` leaves its processed donors in — running the procedure
/// again over any of them, without an intervening donation, is refused with
/// `NotEligibleForIncentive`.
pub proof fn lemma_incentivize_idempotent(s: Seq<Donor>)
    requires
        s.len() > 0,
        forall|i: int|
            0 <= i < s.len() ==> (#[trigger] s[i]).incentivized_donations_sum
                == s[i].donations_sum,
    ensures
        first_incentive_error(s, 0) == Some(CrowdfundingError::NotEligibleForIncentive),
{
    assert(!(exists|j: int| 0 <= j < 0 && (#[trigger] s[j]).authority == s[0].authority));
}

/// The single-phase incentive: after the cooldown, the first few donors
/// passed — at most the seasonal capacity — are each owed a mint of the
/// platform's reward amount, returned as `(authority, amount)` pairs, and
/// have their incentive checkpoint closed up to their lifetime sum. A donor
/// passed twice, or one with nothing donated since their last incentive,
/// aborts the whole batch.
#[verifier::loop_isolation(false)]
pub fn incentivize(platform: &mut Platform, donors: &mut Vec<Donor>, now: u32) -> (r: Result<
    Vec<(u64, u64)>,
    CrowdfundingError,
>)
    requires
        platform_wf(*old(platform)),
        now >= old(platform).last_incentive_ts,
        forall|k: int| 0 <= k < old(donors)@.len() ==> donor_wf(#[trigger] old(donors)@[k]),
    ensures
        platform_wf(*final(platform)),
        forall|k: int| 0 <= k < final(donors)@.len() ==> donor_wf(#[trigger] final(donors)@[k]),
        ({
            let p = *old(platform);
            let ds = old(donors)@;
            let n_proc = if ds.len() < SEASONAL_TOP_CAPACITY {
                ds.len() as int
            } else {
                SEASONAL_TOP_CAPACITY as int
            };
            let s = ds.take(n_proc);
            let cooldown_blocked = now - p.last_incentive_ts < p.reward_cooldown;
            &&& (r is Err <==> cooldown_blocked || first_incentive_error(s, 0) is Some)
            &&& r is Err ==> {
                &&& cooldown_blocked ==> r == Err::<Vec<(u64, u64)>, _>(
                    CrowdfundingError::IncentiveCooldown,
                )
                &&& !cooldown_blocked ==> first_incentive_error(s, 0) == Some(r->Err_0)
                &&& *final(platform) == p
                &&& final(donors)@ == ds
            }
            &&& r is Ok ==> {
                &&& final(donors)@.len() == ds.len()
                &&& forall|k: int|
                    0 <= k < n_proc ==> #[trigger] final(donors)@[k] == (Donor {
                        incentivized_donations_sum: ds[k].donations_sum,
                        ..ds[k]
                    })
                &&& forall|k: int| n_proc <= k < ds.len() ==> #[trigger] final(donors)@[k] == ds[k]
                &&& r->Ok_0@.len() == n_proc
                &&& forall|k: int|
                    0 <= k < n_proc ==> #[trigger] r->Ok_0@[k] == (
                    ds[k].authority,
                    p.reward_amount,
                )
                &&& *final(platform) == (Platform { last_incentive_ts: now, ..p })
            }
        }),
{
    let ghost ds = donors@;
    if now - platform.last_incentive_ts < platform.reward_cooldown {
        return Err(CrowdfundingError::IncentiveCooldown);
    }
    let n_proc = if donors.len() < SEASONAL_TOP_CAPACITY {
        donors.len()
    } else {
        SEASONAL_TOP_CAPACITY
    };
    let ghost s = ds.take(n_proc as int);

    // Refuse the whole batch before touching anything.
    let mut seen = seen_new();
    let mut k: usize = 0;
    while k < n_proc
        invariant
            k <= n_proc,
            seen_keys(seen).len() == k,
            forall|t: int| 0 <= t < k ==> seen_keys(seen)[t] == (#[trigger] s[t]).authority,
            first_incentive_error(s, 0) == first_incentive_error(s, k as int),
        decreases n_proc - k,
    {
        let d = donors[k];
        proof {
            assert forall|a: u64| seen_keys(seen).contains(a) implies exists|j: int|
                0 <= j < k && (#[trigger] s[j]).authority == a by {
                let t = choose|t: int| 0 <= t < seen_keys(seen).len() && seen_keys(seen)[t] == a;
                assert(s[t].authority == a);
            }
        }
        if seen_contains(&seen, d.authority) {
            return Err(CrowdfundingError::DuplicateInTop);
        }
        let pushed = seen_push(&mut seen, d.authority);
        proof {
            assert(pushed);
        }
        if d.incentivized_donations_sum == d.donations_sum {
            proof {
                assert(forall|j: int|
                    0 <= j < k ==> (#[trigger] s[j]).authority != s[k as int].authority);
            }
            return Err(CrowdfundingError::NotEligibleForIncentive);
        }
        proof {
            assert(forall|j: int|
                0 <= j < k ==> (#[trigger] s[j]).authority != s[k as int].authority);
        }
        k += 1;
    }

    platform.last_incentive_ts = now;

    let reward_amount = platform.reward_amount;
    let mut mints: Vec<(u64, u64)> = Vec::new();
    let mut k: usize = 0;
    while k < n_proc
        invariant
            k <= n_proc,
            donors@.len() == ds.len(),
            mints@.len() == k,
            forall|t: int| k <= t < ds.len() ==> #[trigger] donors@[t] == ds[t],
            forall|t: int|
                0 <= t < k ==> #[trigger] donors@[t] == (Donor {
                    incentivized_donations_sum: ds[t].donations_sum,
                    ..ds[t]
                }),
            forall|t: int|
                0 <= t < k ==> #[trigger] mints@[t] == (ds[t].authority, reward_amount),
            *platform == (Platform { last_incentive_ts: now, ..*old(platform) }),
        decreases n_proc - k,
    {
        let d = donors[k];
        donors[k] = Donor { incentivized_donations_sum: d.donations_sum, ..d };
        mints.push((d.authority, reward_amount));
        k += 1;
    }

    Ok(mints)
}

} // verus!
