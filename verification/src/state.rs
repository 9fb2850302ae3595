use vstd::prelude::*;
use crate::config::{
    ACTIVE_CAMPAIGNS_CAPACITY, FEE_BASIS_POINTS_DENOM, PLATFORM_TOP_CAPACITY,
    SEASONAL_TOP_CAPACITY,
};

verus! {

/// One leaderboard entry: a donor identity with the sum the board ranks by.
/// Identities are the host's addresses, abstracted to opaque numeric keys.
#[derive(Clone, Copy, Debug, PartialEq, Eq, Structural)]
pub struct DonorRecord {
    pub donor: u64,
    pub donations_sum: u64,
}

/// One active campaign as the platform tracks it: its id and its running
/// donation and withdrawal totals.
#[derive(Clone, Copy, Debug, PartialEq, Eq, Structural)]
pub struct CampaignRecord {
    pub id: u16,
    pub donations_sum: u64,
    pub withdrawn_sum: u64,
}

/// A past liquidation, kept so that campaigns can later claim their
/// pro-rata share of the liquidated funds.
#[derive(Clone, Copy, Debug, PartialEq, Eq, Structural)]
pub struct LiquidationRecord {
    pub timestamp: u32,
    pub liquidated_amount: u64,
    pub sum_of_active_campaign_donations: u64,
}

/// The singleton platform aggregate: configuration, running totals, the
/// platform-wide and seasonal top-donor lists, and the active-campaign set.
#[derive(Clone, Debug)]
pub struct Platform {
    pub authority: u64,
    pub reward_amount: u64,
    pub reward_cooldown: u32,
    pub campaigns_count: u16,
    pub fee_basis_points: u16,
    pub fee_exemption_limit: u64,
    pub liquidation_limit: u64,
    pub reward_procedure_is_in_process: bool,
    pub last_reward_procedure_ts: u32,
    pub last_incentive_ts: u32,
    pub donors_recorded: u32,
    pub donors_count: u32,
    pub sum_of_all_donations: u64,
    pub sum_of_active_campaign_donations: u64,
    pub avoided_fees_sum: u64,
    pub liquidations_sum: u64,
    pub top: Vec<DonorRecord>,
    pub seasonal_top: Vec<DonorRecord>,
    pub active_campaigns: Vec<CampaignRecord>,
}

/// A fundraising campaign: its authority, its id, and its own top-donor list
/// ranked by per-campaign donation sums.
#[derive(Clone, Debug)]
pub struct Campaign {
    pub authority: u64,
    pub id: u16,
    pub top: Vec<DonorRecord>,
}

/// A registered donor: lifetime donation total and the checkpoint sums that
/// gate reward and incentive eligibility.
#[derive(Clone, Copy, Debug, PartialEq, Eq, Structural)]
pub struct Donor {
    pub authority: u64,
    pub donations_sum: u64,
    pub rewarded_donations_sum: u64,
    pub incentivized_donations_sum: u64,
    pub last_record_ts: u32,
}

/// The finest-grained ledger entry: a single running donation sum, kept once
/// per donor-campaign pair and once per campaign in total.
#[derive(Clone, Copy, Debug, PartialEq, Eq, Structural)]
pub struct Donations {
    pub donations_sum: u64,
}

/// Sums are non-increasing from front to back.
pub open spec fn top_sorted(s: Seq<DonorRecord>) -> bool {
    forall|i: int, j: int|
        #![trigger s[i], s[j]]
        0 <= i < j < s.len() ==> s[i].donations_sum >= s[j].donations_sum
}

/// No donor identity appears twice.
pub open spec fn top_unique(s: Seq<DonorRecord>) -> bool {
    forall|i: int, j: int|
        #![trigger s[i], s[j]]
        0 <= i < j < s.len() ==> s[i].donor != s[j].donor
}

/// The invariant of every top-donor list: sorted descending by sum, at most
/// one entry per donor, never over capacity.
pub open spec fn top_wf(s: Seq<DonorRecord>, capacity: int) -> bool {
    top_sorted(s) && top_unique(s) && s.len() <= capacity
}

/// Whether the list holds an entry for the given donor.
pub open spec fn has_donor(s: Seq<DonorRecord>, donor: u64) -> bool {
    exists|i: int| 0 <= i < s.len() && (#[trigger] s[i]).donor == donor
}

/// Every entry the list holds for the given donor has a sum at most `bound`.
/// Relates a leaderboard to the ledger it was built from: a board entry is a
/// snapshot of an earlier, hence no larger, value of the donor's running sum.
pub open spec fn donor_entries_at_most(s: Seq<DonorRecord>, donor: u64, bound: u64) -> bool {
    forall|i: int| 0 <= i < s.len() && (#[trigger] s[i]).donor == donor
        ==> s[i].donations_sum <= bound
}

/// Campaign ids are strictly increasing, so each id appears at most once and
/// the list is ready for binary search.
pub open spec fn campaign_ids_sorted(s: Seq<CampaignRecord>) -> bool {
    forall|i: int, j: int|
        #![trigger s[i], s[j]]
        0 <= i < j < s.len() ==> s[i].id < s[j].id
}

/// No campaign has withdrawn more than it received.
pub open spec fn campaign_records_wf(s: Seq<CampaignRecord>) -> bool {
    forall|i: int| 0 <= i < s.len() ==> (#[trigger] s[i]).withdrawn_sum <= s[i].donations_sum
}

/// Every active id was assigned by the sequential campaign counter.
pub open spec fn campaign_ids_below(s: Seq<CampaignRecord>, count: u16) -> bool {
    forall|i: int| 0 <= i < s.len() ==> (#[trigger] s[i]).id < count
}

/// Whether the active set holds a campaign with the given id.
pub open spec fn has_campaign(s: Seq<CampaignRecord>, id: u16) -> bool {
    exists|i: int| 0 <= i < s.len() && (#[trigger] s[i]).id == id
}

/// The index of the campaign with the given id. Meaningful only when
/// `has_campaign(s, id)` holds; unique whenever ids are sorted.
pub open spec fn campaign_index(s: Seq<CampaignRecord>, id: u16) -> int {
    choose|i: int| 0 <= i < s.len() && (#[trigger] s[i]).id == id
}

/// With sorted ids, any index holding `id` is `campaign_index(s, id)`.
pub proof fn lemma_campaign_index_unique(s: Seq<CampaignRecord>, id: u16, i: int)
    requires
        campaign_ids_sorted(s),
        0 <= i < s.len(),
        s[i].id == id,
    ensures
        campaign_index(s, id) == i,
{
    let ci = campaign_index(s, id);
    assert(0 <= ci < s.len() && s[ci].id == id);
    if ci < i {
        assert(s[ci].id < s[i].id);
    } else if ci > i {
        assert(s[i].id < s[ci].id);
    }
}

/// The sum of all active campaigns' donation totals.
pub open spec fn sum_donations(s: Seq<CampaignRecord>) -> int
    decreases s.len(),
{
    if s.len() == 0 {
        0
    } else {
        sum_donations(s.drop_last()) + s.last().donations_sum
    }
}

pub proof fn lemma_sum_nonneg(s: Seq<CampaignRecord>)
    ensures
        0 <= sum_donations(s),
    decreases s.len(),
{
    if s.len() > 0 {
        lemma_sum_nonneg(s.drop_last());
    }
}

pub proof fn lemma_sum_push(s: Seq<CampaignRecord>, e: CampaignRecord)
    ensures
        sum_donations(s.push(e)) == sum_donations(s) + e.donations_sum,
{
    assert(s.push(e).drop_last() =~= s);
}

pub proof fn lemma_sum_update(s: Seq<CampaignRecord>, i: int, e: CampaignRecord)
    requires
        0 <= i < s.len(),
    ensures
        sum_donations(s.update(i, e)) == sum_donations(s) - s[i].donations_sum
            + e.donations_sum,
    decreases s.len(),
{
    if i == s.len() - 1 {
        assert(s.update(i, e).drop_last() =~= s.drop_last());
        assert(s.update(i, e).last() == e);
    } else {
        assert(s.update(i, e).drop_last() =~= s.drop_last().update(i, e));
        assert(s.update(i, e).last() == s.last());
        lemma_sum_update(s.drop_last(), i, e);
    }
}

pub proof fn lemma_sum_remove(s: Seq<CampaignRecord>, i: int)
    requires
        0 <= i < s.len(),
    ensures
        sum_donations(s.remove(i)) == sum_donations(s) - s[i].donations_sum,
    decreases s.len(),
{
    if i == s.len() - 1 {
        assert(s.remove(i) =~= s.drop_last());
    } else {
        assert(s.remove(i).drop_last() =~= s.drop_last().remove(i));
        assert(s.remove(i).last() == s.last());
        lemma_sum_remove(s.drop_last(), i);
    }
}

pub proof fn lemma_elem_le_sum(s: Seq<CampaignRecord>, i: int)
    requires
        0 <= i < s.len(),
    ensures
        s[i].donations_sum <= sum_donations(s),
    decreases s.len(),
{
    if i == s.len() - 1 {
        lemma_sum_nonneg(s.drop_last());
    } else {
        lemma_elem_le_sum(s.drop_last(), i);
    }
}

/// The platform's internal invariant, established by `initialize` and
/// preserved by every transition.
pub open spec fn platform_wf(p: Platform) -> bool {
    &&& top_wf(p.top@, PLATFORM_TOP_CAPACITY as int)
    &&& top_wf(p.seasonal_top@, SEASONAL_TOP_CAPACITY as int)
    &&& p.active_campaigns@.len() <= ACTIVE_CAMPAIGNS_CAPACITY as int
    &&& campaign_ids_sorted(p.active_campaigns@)
    &&& campaign_records_wf(p.active_campaigns@)
    &&& campaign_ids_below(p.active_campaigns@, p.campaigns_count)
    &&& sum_donations(p.active_campaigns@) == p.sum_of_active_campaign_donations
    &&& p.sum_of_active_campaign_donations <= p.sum_of_all_donations
    &&& p.fee_basis_points as u64 <= FEE_BASIS_POINTS_DENOM
}

/// The campaign's internal invariant.
pub open spec fn campaign_wf(c: Campaign) -> bool {
    top_wf(c.top@, crate::config::CAMPAIGN_TOP_CAPACITY as int)
}

/// The donor's internal invariant: eligibility checkpoints never exceed the
/// lifetime donation total.
pub open spec fn donor_wf(d: Donor) -> bool {
    d.rewarded_donations_sum <= d.donations_sum
        && d.incentivized_donations_sum <= d.donations_sum
}

} // verus!
