use vstd::prelude::*;
use crate::error::CrowdfundingError;
use crate::state::{
    campaign_ids_sorted, donor_entries_at_most, has_campaign, has_donor, top_sorted, top_unique,
    top_wf, CampaignRecord, DonorRecord,
};

verus! {

/// Looks a campaign up in the active set by id, by binary search over the
/// id-sorted list.
pub fn find_campaign(active: &Vec<CampaignRecord>, id: u16) -> (r: Option<usize>)
    requires
        campaign_ids_sorted(active@),
    ensures
        match r {
            Some(i) => i < active@.len() && active@[i as int].id == id,
            None => !has_campaign(active@, id),
        },
{
    let mut lo: usize = 0;
    let mut hi: usize = active.len();
    while lo < hi
        invariant
            lo <= hi <= active@.len(),
            campaign_ids_sorted(active@),
            forall|j: int| 0 <= j < lo ==> (#[trigger] active@[j]).id < id,
            forall|j: int| hi <= j < active@.len() ==> (#[trigger] active@[j]).id > id,
        decreases hi - lo,
    {
        let mid = lo + (hi - lo) / 2;
        if active[mid].id < id {
            lo = mid + 1;
        } else if active[mid].id > id {
            hi = mid;
        } else {
            return Some(mid);
        }
    }
    None
}

/// Moves `lamports` between two balances, as the host's currency ledger does.
/// Fails, leaving both balances as they were, when the source is too small.
pub fn transfer(from: u64, to: u64, lamports: u64) -> (r: Result<
    (u64, u64),
    CrowdfundingError,
>)
    requires
        to + lamports <= u64::MAX,
    ensures
        lamports <= from ==> r == Ok::<_, CrowdfundingError>(
            ((from - lamports) as u64, (to + lamports) as u64),
        ),
        lamports > from ==> r == Err::<(u64, u64), _>(CrowdfundingError::InsufficientFunds),
{
    if lamports <= from {
        Ok((from - lamports, to + lamports))
    } else {
        Err(CrowdfundingError::InsufficientFunds)
    }
}

/// Empties the source balance into the destination, keeping back `rent`,
/// the minimum the host demands an account to hold.
pub fn transfer_all_but_rent(from: u64, to: u64, rent: u64) -> (r: Result<
    (u64, u64),
    CrowdfundingError,
>)
    requires
        rent <= from ==> to + (from - rent) <= u64::MAX,
    ensures
        rent <= from ==> r == Ok::<_, CrowdfundingError>(
            (rent, (to + (from - rent)) as u64),
        ),
        rent > from ==> r == Err::<(u64, u64), _>(CrowdfundingError::InsufficientFunds),
{
    if rent <= from {
        Ok((rent, to + (from - rent)))
    } else {
        Err(CrowdfundingError::InsufficientFunds)
    }
}

/// `p` is the stable insertion point for a new sum `v` within `s[..end]`:
/// everything before `p` ranks at least `v`, everything from `p` on ranks
/// strictly below it, so entries with equal sums keep their earlier seats.
pub open spec fn is_insert_pos(s: Seq<DonorRecord>, end: int, v: u64, p: int) -> bool {
    &&& 0 <= p <= end
    &&& forall|i: int| 0 <= i < p ==> (#[trigger] s[i]).donations_sum >= v
    &&& forall|i: int| p <= i < end ==> (#[trigger] s[i]).donations_sum < v
}

/// `t` places `rec` into `s` by replacing the entry at `k` (the donor's old
/// seat) and sliding it up to the insertion point `p`.
pub open spec fn upsert_replaced(
    s: Seq<DonorRecord>,
    rec: DonorRecord,
    k: int,
    p: int,
    t: Seq<DonorRecord>,
) -> bool {
    &&& 0 <= k < s.len()
    &&& s[k].donor == rec.donor
    &&& is_insert_pos(s, k, rec.donations_sum, p)
    &&& t == s.remove(k).insert(p, rec)
}

/// `t` is `s` with `rec` upserted under capacity `capacity`: an existing
/// entry for the donor is updated in place, otherwise the record is inserted
/// if there is room, otherwise it replaces the lowest-ranked entry — but only
/// when it ranks strictly above it; a tie never evicts an incumbent.
pub open spec fn is_upsert(
    s: Seq<DonorRecord>,
    capacity: int,
    rec: DonorRecord,
    t: Seq<DonorRecord>,
) -> bool {
    if has_donor(s, rec.donor) {
        exists|k: int, p: int| upsert_replaced(s, rec, k, p, t)
    } else if s.len() < capacity {
        exists|p: int|
            is_insert_pos(s, s.len() as int, rec.donations_sum, p) && t == s.insert(p, rec)
    } else if s.len() > 0 && s.last().donations_sum < rec.donations_sum {
        exists|p: int|
            is_insert_pos(s, s.len() - 1, rec.donations_sum, p) && t == s.drop_last().insert(
                p,
                rec,
            )
    } else {
        t == s
    }
}

/// Top-list invariant: however a top-list is grown by upserts, it stays
/// sorted descending by sum, free of duplicate donors, and within capacity.
/// Together with `top_wf(Seq::empty(), capacity)` this covers every sequence
/// of upserts on a list built from nothing.
pub proof fn lemma_upsert_preserves_wf(
    s: Seq<DonorRecord>,
    capacity: int,
    rec: DonorRecord,
    t: Seq<DonorRecord>,
)
    requires
        capacity >= 1,
        top_wf(s, capacity),
        donor_entries_at_most(s, rec.donor, rec.donations_sum),
        is_upsert(s, capacity, rec, t),
    ensures
        top_wf(t, capacity),
{
    if has_donor(s, rec.donor) {
        let (k, p) = choose|k: int, p: int| upsert_replaced(s, rec, k, p, t);
        let u = s.remove(k);
        s.remove_ensures(k);
        u.insert_ensures(p, rec);
        assert forall|i: int| 0 <= i < t.len() implies #[trigger] t[i] == (if i < p {
            s[i]
        } else if i == p {
            rec
        } else if i <= k {
            s[i - 1]
        } else {
            s[i]
        }) by {
            if i < p {
            } else if i == p {
            } else if i <= k {
                assert(t[i] == u[i - 1]);
            } else {
                assert(t[i] == u[i - 1]);
            }
        }
        assert(s[k].donations_sum <= rec.donations_sum);
        assert(top_sorted(t));
        assert(top_unique(t));
    } else if s.len() < capacity {
        let p = choose|p: int|
            is_insert_pos(s, s.len() as int, rec.donations_sum, p) && t == s.insert(p, rec);
        s.insert_ensures(p, rec);
        assert forall|i: int| 0 <= i < t.len() implies #[trigger] t[i] == (if i < p {
            s[i]
        } else if i == p {
            rec
        } else {
            s[i - 1]
        }) by {}
        assert(top_sorted(t));
        assert(top_unique(t));
    } else if s.len() > 0 && s.last().donations_sum < rec.donations_sum {
        let p = choose|p: int|
            is_insert_pos(s, s.len() - 1, rec.donations_sum, p) && t == s.drop_last().insert(
                p,
                rec,
            );
        let u = s.drop_last();
        u.insert_ensures(p, rec);
        assert forall|i: int| 0 <= i < t.len() implies #[trigger] t[i] == (if i < p {
            s[i]
        } else if i == p {
            rec
        } else {
            s[i - 1]
        }) by {
            if i > p {
                assert(t[i] == u[i - 1]);
            }
        }
        assert(top_sorted(t));
        assert(top_unique(t));
    } else {
    }
}

/// Every entry of an upserted list is either the new record or one carried
/// over from the old list: an upsert invents no entries.
pub proof fn lemma_upsert_members(
    s: Seq<DonorRecord>,
    capacity: int,
    rec: DonorRecord,
    t: Seq<DonorRecord>,
)
    requires
        is_upsert(s, capacity, rec, t),
    ensures
        forall|i: int|
            0 <= i < t.len() ==> #[trigger] t[i] == rec || exists|j: int|
                0 <= j < s.len() && s[j] == t[i],
{
    if has_donor(s, rec.donor) {
        let (k, p) = choose|k: int, p: int| upsert_replaced(s, rec, k, p, t);
        let u = s.remove(k);
        s.remove_ensures(k);
        u.insert_ensures(p, rec);
        assert forall|i: int| 0 <= i < t.len() implies #[trigger] t[i] == rec || exists|j: int|
            0 <= j < s.len() && s[j] == t[i] by {
            if i < p {
                assert(s[i] == t[i]);
            } else if i == p {
            } else if i <= k {
                assert(t[i] == u[i - 1] && u[i - 1] == s[i - 1]);
            } else {
                assert(t[i] == u[i - 1] && u[i - 1] == s[i]);
            }
        }
    } else if s.len() < capacity {
        let p = choose|p: int|
            is_insert_pos(s, s.len() as int, rec.donations_sum, p) && t == s.insert(p, rec);
        s.insert_ensures(p, rec);
        assert forall|i: int| 0 <= i < t.len() implies #[trigger] t[i] == rec || exists|j: int|
            0 <= j < s.len() && s[j] == t[i] by {
            if i < p {
                assert(s[i] == t[i]);
            } else if i > p {
                assert(t[i] == s[i - 1]);
            }
        }
    } else if s.len() > 0 && s.last().donations_sum < rec.donations_sum {
        let p = choose|p: int|
            is_insert_pos(s, s.len() - 1, rec.donations_sum, p) && t == s.drop_last().insert(
                p,
                rec,
            );
        let u = s.drop_last();
        u.insert_ensures(p, rec);
        assert forall|i: int| 0 <= i < t.len() implies #[trigger] t[i] == rec || exists|j: int|
            0 <= j < s.len() && s[j] == t[i] by {
            if i < p {
                assert(s[i] == t[i]);
            } else if i > p {
                assert(t[i] == u[i - 1] && u[i - 1] == s[i - 1]);
            }
        }
    } else {
        assert forall|i: int| 0 <= i < t.len() implies #[trigger] t[i] == rec || exists|j: int|
            0 <= j < s.len() && s[j] == t[i] by {
            assert(s[i] == t[i]);
        }
    }
}

/// Upserts `donor_record` into the top-list: updates the donor's entry in
/// place, or inserts into spare room, or replaces the lowest-ranked entry
/// when the new sum ranks strictly above it; then slides the entry to its
/// sorted seat, placing it after existing entries with an equal sum.
pub fn add_to_top(top: &mut Vec<DonorRecord>, capacity: usize, donor_record: DonorRecord)
    requires
        capacity >= 1,
        top_wf(old(top)@, capacity as int),
        donor_entries_at_most(old(top)@, donor_record.donor, donor_record.donations_sum),
    ensures
        top_wf(final(top)@, capacity as int),
        is_upsert(old(top)@, capacity as int, donor_record, final(top)@),
{
    let ghost s = top@;
    let n = top.len();

    let mut k: usize = 0;
    while k < n && top[k].donor != donor_record.donor
        invariant
            top@ == s,
            n == s.len(),
            k <= n,
            forall|j: int| 0 <= j < k ==> (#[trigger] s[j]).donor != donor_record.donor,
        decreases n - k,
    {
        k += 1;
    }

    if k < n {
        // The donor already has a seat: replace it and slide it up.
        let mut p: usize = 0;
        while p < k && top[p].donations_sum >= donor_record.donations_sum
            invariant
                top@ == s,
                k < n == s.len(),
                p <= k,
                forall|i: int|
                    0 <= i < p ==> (#[trigger] s[i]).donations_sum
                        >= donor_record.donations_sum,
            decreases k - p,
        {
            p += 1;
        }
        proof {
            assert forall|i: int|
                p <= i < k implies (#[trigger] s[i]).donations_sum
                < donor_record.donations_sum by {
                assert(s[i].donations_sum <= s[p as int].donations_sum);
            }
            assert(has_donor(s, donor_record.donor));
        }
        top.remove(k);
        top.insert(p, donor_record);
        proof {
            assert(upsert_replaced(s, donor_record, k as int, p as int, top@));
            lemma_upsert_preserves_wf(s, capacity as int, donor_record, top@);
        }
    } else if n < capacity {
        // A new donor and spare room: insert at the sorted seat.
        let mut p: usize = 0;
        while p < n && top[p].donations_sum >= donor_record.donations_sum
            invariant
                top@ == s,
                n == s.len(),
                p <= n,
                forall|i: int|
                    0 <= i < p ==> (#[trigger] s[i]).donations_sum
                        >= donor_record.donations_sum,
            decreases n - p,
        {
            p += 1;
        }
        proof {
            assert forall|i: int|
                p <= i < n implies (#[trigger] s[i]).donations_sum
                < donor_record.donations_sum by {
                assert(s[i].donations_sum <= s[p as int].donations_sum);
            }
            assert(!has_donor(s, donor_record.donor));
            assert(is_insert_pos(s, s.len() as int, donor_record.donations_sum, p as int));
        }
        top.insert(p, donor_record);
        proof {
            lemma_upsert_preserves_wf(s, capacity as int, donor_record, top@);
        }
    } else {
        // No seat and no room: the lowest-ranked entry yields only to a
        // strictly greater sum — a tie favors the incumbent.
        if top[n - 1].donations_sum >= donor_record.donations_sum {
            proof {
                assert(!has_donor(s, donor_record.donor));
            }
            return ;
        }
        let mut p: usize = 0;
        while p < n - 1 && top[p].donations_sum >= donor_record.donations_sum
            invariant
                top@ == s,
                n == s.len(),
                0 < n,
                p <= n - 1,
                forall|i: int|
                    0 <= i < p ==> (#[trigger] s[i]).donations_sum
                        >= donor_record.donations_sum,
            decreases n - p,
        {
            p += 1;
        }
        proof {
            assert forall|i: int|
                p <= i < n - 1 implies (#[trigger] s[i]).donations_sum
                < donor_record.donations_sum by {
                assert(s[i].donations_sum <= s[p as int].donations_sum);
            }
            assert(!has_donor(s, donor_record.donor));
            assert(is_insert_pos(s, s.len() - 1, donor_record.donations_sum, p as int));
        }
        top.pop();
        proof {
            assert(top@ == s.drop_last());
        }
        top.insert(p, donor_record);
        proof {
            lemma_upsert_preserves_wf(s, capacity as int, donor_record, top@);
        }
    }
}

} // verus!
