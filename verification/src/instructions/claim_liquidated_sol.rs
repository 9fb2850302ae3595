use vstd::prelude::*;
use crate::state::LiquidationRecord;

verus! {

/// A campaign's pro-rata claim on one past liquidation: its donation total
/// against the active total at liquidation time, truncating. Liquidations
/// already claimed — no newer than the last claim stamp — and degenerate
/// records with an empty active total yield nothing.
pub open spec fn claim_share(rec: LiquidationRecord, donations_sum: u64, last_claim_ts: u32) -> int {
    if rec.timestamp > last_claim_ts && rec.sum_of_active_campaign_donations > 0 {
        rec.liquidated_amount * donations_sum / rec.sum_of_active_campaign_donations as int
    } else {
        0
    }
}

/// Computes, for a campaign holding `donations_sum` that last claimed at
/// `last_claim_ts`, its share of every recorded liquidation — one amount per
/// history entry, in order, for the host to transfer. The caller re-stamps
/// the campaign's claim time afterwards.
pub fn claim_liquidated_sol(
    liquidations_history: &Vec<LiquidationRecord>,
    donations_sum: u64,
    last_claim_ts: u32,
) -> (claims: Vec<u64>)
    requires
        forall|i: int|
            0 <= i < liquidations_history@.len() && (#[trigger] liquidations_history@[i]).timestamp
                > last_claim_ts ==> liquidations_history@[i].liquidated_amount * donations_sum
                <= u64::MAX,
    ensures
        claims@.len() == liquidations_history@.len(),
        forall|i: int|
            0 <= i < claims@.len() ==> #[trigger] claims@[i] == claim_share(
                liquidations_history@[i],
                donations_sum,
                last_claim_ts,
            ),
{
    let mut claims: Vec<u64> = Vec::new();
    let n = liquidations_history.len();
    let mut i: usize = 0;
    while i < n
        invariant
            i <= n == liquidations_history@.len(),
            claims@.len() == i,
            forall|t: int|
                0 <= t < i ==> #[trigger] claims@[t] == claim_share(
                    liquidations_history@[t],
                    donations_sum,
                    last_claim_ts,
                ),
            forall|t: int|
                0 <= t < n && (#[trigger] liquidations_history@[t]).timestamp > last_claim_ts
                    ==> liquidations_history@[t].liquidated_amount * donations_sum <= u64::MAX,
        decreases n - i,
    {
        let rec = liquidations_history[i];
        let claim = if rec.timestamp > last_claim_ts && rec.sum_of_active_campaign_donations > 0 {
            rec.liquidated_amount * donations_sum / rec.sum_of_active_campaign_donations
        } else {
            0
        };
        claims.push(claim);
        i += 1;
    }
    claims
}

} // verus!
