use vstd::prelude::*;
use vstd::arithmetic::div_mod::{
    lemma_div_is_ordered, lemma_div_multiples_vanish, lemma_div_pos_is_pos,
    lemma_fundamental_div_mod, lemma_mod_bound,
};
use vstd::arithmetic::mul::{
    lemma_mul_inequality, lemma_mul_is_commutative, lemma_mul_is_distributive_add,
    lemma_mul_nonnegative,
};
use crate::error::CrowdfundingError;
use crate::state::{
    campaign_index, has_campaign, lemma_campaign_index_unique, lemma_elem_le_sum,
    lemma_sum_nonneg, lemma_sum_remove, lemma_sum_update, platform_wf, sum_donations,
    CampaignRecord, Platform,
};
use crate::utils::find_campaign;

verus! {

/// What the host must do after a successful liquidation: the truncation
/// remainder moves from the donation vault into the fee vault, and the
/// campaign's reward-token vaults are burned and closed.
#[derive(Clone, Copy, Debug, PartialEq, Eq, Structural)]
pub struct LiquidationOutcome {
    pub liquidation_amount: u64,
    pub to_fee_vault: u64,
}

/// The pro-rata share of a liquidated amount `l` owed to a campaign holding
/// `d` out of the remaining total `r`, with truncating division.
pub open spec fn share_of(l: int, d: int, r: int) -> int {
    l * d / r
}

/// The total distributed over a list of campaigns.
pub open spec fn sum_shares(s: Seq<CampaignRecord>, l: int, r: int) -> int
    decreases s.len(),
{
    if s.len() == 0 {
        0
    } else {
        sum_shares(s.drop_last(), l, r) + share_of(l, s.last().donations_sum as int, r)
    }
}

/// Truncating division loses at most the remainder: quotients of parts never
/// exceed the quotient of the whole.
proof fn lemma_div_add_le(a: int, b: int, d: int)
    requires
        0 <= a,
        0 <= b,
        0 < d,
    ensures
        a / d + b / d <= (a + b) / d,
{
    lemma_fundamental_div_mod(a, d);
    lemma_fundamental_div_mod(b, d);
    lemma_mod_bound(a, d);
    lemma_mod_bound(b, d);
    lemma_mul_is_distributive_add(d, a / d, b / d);
    lemma_div_multiples_vanish(a / d + b / d, d);
    lemma_div_is_ordered(d * (a / d + b / d), a + b, d);
}

/// The prefix of the sum never exceeds the whole: campaign totals are
/// non-negative.
proof fn lemma_sum_take_le(s: Seq<CampaignRecord>, j: int)
    requires
        0 <= j <= s.len(),
    ensures
        sum_donations(s.take(j)) <= sum_donations(s),
    decreases s.len(),
{
    if j == s.len() {
        assert(s.take(j) =~= s);
    } else {
        assert(s.take(j) =~= s.drop_last().take(j));
        lemma_sum_take_le(s.drop_last(), j);
    }
}

/// Liquidation conservation: the pro-rata shares a liquidated amount `l` is
/// split into never exceed `l`, so the shares distributed plus the remainder
/// swept to the fee pool equal `l` exactly — no value is created or lost.
pub proof fn lemma_liquidation_conservation(s: Seq<CampaignRecord>, l: int, r: int)
    requires
        0 <= l,
        0 < r,
        sum_donations(s) <= r,
    ensures
        0 <= sum_shares(s, l, r) <= l,
        sum_shares(s, l, r) + (l - sum_shares(s, l, r)) == l,
    decreases s.len(),
{
    if s.len() == 0 {
    } else {
        let u = s.drop_last();
        let d = s.last().donations_sum as int;
        lemma_sum_nonneg(u);
        // The last share alone is at most l * d / r.
        lemma_mul_nonnegative(l, d);
        lemma_div_pos_is_pos(l * d, r);
        lemma_elem_le_sum(s, s.len() - 1);
        lemma_liquidation_conservation(u, l, r);
        // sum_shares(u) <= l * sum(u) / r by induction over parts:
        lemma_sum_shares_le_quotient(s, l, r);
        lemma_mul_inequality(sum_donations(s), r, l);
        lemma_mul_is_commutative(sum_donations(s), l);
        lemma_mul_is_commutative(r, l);
        lemma_div_is_ordered(l * sum_donations(s), l * r, r);
        lemma_div_multiples_vanish(l, r);
        lemma_mul_is_commutative(l, r);
    }
}

/// The distributed total is bounded by the quotient of the whole:
/// `sum_shares(s, l, r) <= l * sum_donations(s) / r`.
proof fn lemma_sum_shares_le_quotient(s: Seq<CampaignRecord>, l: int, r: int)
    requires
        0 <= l,
        0 < r,
    ensures
        0 <= sum_shares(s, l, r) <= l * sum_donations(s) / r,
    decreases s.len(),
{
    if s.len() == 0 {
        lemma_div_pos_is_pos(l * 0, r);
    } else {
        let u = s.drop_last();
        let d = s.last().donations_sum as int;
        lemma_sum_shares_le_quotient(u, l, r);
        lemma_sum_nonneg(u);
        lemma_mul_nonnegative(l, sum_donations(u));
        lemma_mul_nonnegative(l, d);
        lemma_div_pos_is_pos(l * d, r);
        lemma_div_add_le(l * sum_donations(u), l * d, r);
        lemma_mul_is_distributive_add(l, sum_donations(u), d);
    }
}

/// Forcibly closes an undercollateralised campaign. Permissionless, but only
/// when the campaign's liquidation vault holds less reward token than the
/// platform's liquidation limit demands. The campaign's undrawn funds are
/// split across the other active campaigns pro rata to their donation
/// totals; the truncation remainder goes to the fee pool. The platform's
/// active-donations sum drops to the surviving records' total: the closed
/// campaign's whole donation total leaves it, the shares re-enter it.
#[verifier::rlimit(100)]
pub fn liquidate_campaign(
    platform: &mut Platform,
    id: u16,
    liquidation_vault_amount: u64,
) -> (r: Result<LiquidationOutcome, CrowdfundingError>)
    requires
        platform_wf(*old(platform)),
        liquidation_vault_amount >= old(platform).liquidation_limit && has_campaign(
            old(platform).active_campaigns@,
            id,
        ) ==> {
            let i = campaign_index(old(platform).active_campaigns@, id);
            let c = old(platform).active_campaigns@[i];
            let l = c.donations_sum - c.withdrawn_sum;
            &&& old(platform).sum_of_active_campaign_donations > c.donations_sum
            &&& old(platform).liquidations_sum + l <= u64::MAX
            &&& forall|j: int|
                0 <= j < old(platform).active_campaigns@.len() ==> l * (#[trigger] old(
                    platform,
                ).active_campaigns@[j]).donations_sum <= u64::MAX
            &&& forall|j: int|
                0 <= j < old(platform).active_campaigns@.len() ==> (#[trigger] old(
                    platform,
                ).active_campaigns@[j]).donations_sum + l <= u64::MAX
        },
    ensures
        platform_wf(*final(platform)),
        r is Err <==> liquidation_vault_amount < old(platform).liquidation_limit
            || !has_campaign(old(platform).active_campaigns@, id),
        r is Err ==> {
            &&& r == Err::<LiquidationOutcome, _>(
                if liquidation_vault_amount < old(platform).liquidation_limit {
                    CrowdfundingError::NotEnoughCHRTInVault
                } else {
                    CrowdfundingError::CampaignInactive
                },
            )
            &&& *final(platform) == *old(platform)
        },
        r is Ok ==> {
            let i = campaign_index(old(platform).active_campaigns@, id);
            let c = old(platform).active_campaigns@[i];
            let l = (c.donations_sum - c.withdrawn_sum) as int;
            let rem = old(platform).active_campaigns@.remove(i);
            let rsum = old(platform).sum_of_active_campaign_donations - c.donations_sum;
            let distributed = sum_shares(rem, l, rsum);
            &&& r->Ok_0.liquidation_amount == l
            &&& r->Ok_0.to_fee_vault == l - distributed
            &&& distributed + r->Ok_0.to_fee_vault == l
            &&& final(platform).active_campaigns@.len() == rem.len()
            &&& forall|j: int|
                0 <= j < rem.len() ==> #[trigger] final(platform).active_campaigns@[j]
                    == (CampaignRecord {
                    id: rem[j].id,
                    donations_sum: (rem[j].donations_sum + share_of(
                        l,
                        rem[j].donations_sum as int,
                        rsum,
                    )) as u64,
                    withdrawn_sum: rem[j].withdrawn_sum,
                })
            &&& final(platform).liquidations_sum == old(platform).liquidations_sum + l
            &&& final(platform).sum_of_active_campaign_donations == old(
                platform,
            ).sum_of_active_campaign_donations - (c.donations_sum - distributed)
            &&& *final(platform) == (Platform {
                liquidations_sum: final(platform).liquidations_sum,
                sum_of_active_campaign_donations:
                    final(platform).sum_of_active_campaign_donations,
                active_campaigns: final(platform).active_campaigns,
                ..*old(platform)
            })
        },
{
    if liquidation_vault_amount < platform.liquidation_limit {
        return Err(CrowdfundingError::NotEnoughCHRTInVault);
    }
    let i = match find_campaign(&platform.active_campaigns, id) {
        Some(i) => i,
        None => {
            return Err(CrowdfundingError::CampaignInactive);
        },
    };
    let ghost s = platform.active_campaigns@;
    let c = platform.active_campaigns[i];
    proof {
        lemma_campaign_index_unique(s, id, i as int);
        lemma_sum_remove(s, i as int);
        lemma_elem_le_sum(s, i as int);
        s.remove_ensures(i as int);
    }
    platform.active_campaigns.remove(i);
    let ghost rem = platform.active_campaigns@;
    let liquidation_amount = c.donations_sum - c.withdrawn_sum;
    platform.liquidations_sum = platform.liquidations_sum + liquidation_amount;

    let remaining_sum = platform.sum_of_active_campaign_donations - c.donations_sum;
    let ghost l = liquidation_amount as int;
    let ghost rsum = remaining_sum as int;

    let ghost p_mid = *platform;
    let mut distributed: u64 = 0;
    let mut j: usize = 0;
    let m = platform.active_campaigns.len();
    while j < m
        invariant
            m == rem.len(),
            j <= m,
            liquidation_amount == l,
            remaining_sum == rsum,
            0 < rsum <= u64::MAX,
            0 <= l <= u64::MAX,
            *platform == (Platform { active_campaigns: platform.active_campaigns, ..p_mid }),
            sum_donations(rem) <= rsum,
            platform.active_campaigns@.len() == m,
            forall|t: int| 0 <= t < rem.len() ==> l * (#[trigger] rem[t]).donations_sum
                <= u64::MAX,
            forall|t: int| 0 <= t < rem.len() ==> (#[trigger] rem[t]).donations_sum + l
                <= u64::MAX,
            forall|t: int|
                j <= t < m ==> #[trigger] platform.active_campaigns@[t] == rem[t],
            forall|t: int|
                0 <= t < j ==> #[trigger] platform.active_campaigns@[t] == (CampaignRecord {
                    id: rem[t].id,
                    donations_sum: (rem[t].donations_sum + share_of(
                        l,
                        rem[t].donations_sum as int,
                        rsum,
                    )) as u64,
                    withdrawn_sum: rem[t].withdrawn_sum,
                }),
            distributed == sum_shares(rem.take(j as int), l, rsum),
            0 <= distributed <= l,
        decreases m - j,
    {
        let e = platform.active_campaigns[j];
        proof {
            assert(e == rem[j as int]);
            lemma_mul_nonnegative(l, e.donations_sum as int);
            lemma_div_pos_is_pos(l * e.donations_sum, rsum);
            // The share stays within l because e's total is within rsum.
            lemma_sum_take_le(rem, j + 1);
            lemma_liquidation_conservation(rem.take(j + 1), l, rsum);
            assert(rem.take(j + 1).drop_last() =~= rem.take(j as int));
            assert(rem.take(j + 1).last() == rem[j as int]);
        }
        let share = liquidation_amount * e.donations_sum / remaining_sum;
        let updated = CampaignRecord {
            id: e.id,
            donations_sum: e.donations_sum + share,
            withdrawn_sum: e.withdrawn_sum,
        };
        platform.active_campaigns[j] = updated;
        distributed = distributed + share;
        j += 1;
    }
    proof {
        assert(rem.take(m as int) =~= rem);
        lemma_liquidation_conservation(rem, l, rsum);
    }
    let not_distributed = liquidation_amount - distributed;
    // The closed campaign's whole donation total leaves the active sum; the
    // distributed shares re-enter it through the surviving records.
    platform.sum_of_active_campaign_donations = platform.sum_of_active_campaign_donations
        - (c.donations_sum - distributed);

    proof {
        assert forall|t: int|
            0 <= t < rem.len() implies share_of(l, (#[trigger] rem[t]).donations_sum as int, rsum)
            <= l by {
            lemma_elem_le_sum(rem, t);
            lemma_mul_inequality(rem[t].donations_sum as int, rsum, l);
            lemma_mul_is_commutative(rem[t].donations_sum as int, l);
            lemma_mul_is_commutative(rsum, l);
            lemma_div_is_ordered(l * rem[t].donations_sum, l * rsum, rsum);
            lemma_div_multiples_vanish(l, rsum);
            lemma_mul_is_commutative(l, rsum);
        }
        assert(platform.active_campaigns@ =~= grow_all(rem, l, rsum));
        lemma_grow_all_sum(rem, l, rsum);
    }
    Ok(LiquidationOutcome { liquidation_amount, to_fee_vault: not_distributed })
}

/// The grown list, entry by entry: each campaign's total plus its share.
pub open spec fn grow_all(s: Seq<CampaignRecord>, l: int, rsum: int) -> Seq<CampaignRecord> {
    Seq::new(
        s.len(),
        |t: int|
            CampaignRecord {
                id: s[t].id,
                donations_sum: (s[t].donations_sum + share_of(
                    l,
                    s[t].donations_sum as int,
                    rsum,
                )) as u64,
                withdrawn_sum: s[t].withdrawn_sum,
            },
    )
}

/// Growing every entry by its share grows the sum by the distributed total.
proof fn lemma_grow_all_sum(rem: Seq<CampaignRecord>, l: int, rsum: int)
    requires
        0 <= l,
        0 < rsum,
        forall|t: int| 0 <= t < rem.len() ==> (#[trigger] rem[t]).donations_sum + l
            <= u64::MAX,
        forall|t: int|
            0 <= t < rem.len() ==> share_of(l, (#[trigger] rem[t]).donations_sum as int, rsum)
                <= l,
    ensures
        sum_donations(grow_all(rem, l, rsum)) == sum_donations(rem) + sum_shares(
            rem,
            l,
            rsum,
        ),
    decreases rem.len(),
{
    if rem.len() == 0 {
        assert(grow_all(rem, l, rsum) =~= Seq::<CampaignRecord>::empty());
    } else {
        let u = rem.drop_last();
        assert(grow_all(rem, l, rsum).drop_last() =~= grow_all(u, l, rsum));
        lemma_mul_nonnegative(l, rem.last().donations_sum as int);
        lemma_div_pos_is_pos(l * rem.last().donations_sum, rsum);
        lemma_grow_all_sum(u, l, rsum);
    }
}

} // verus!
