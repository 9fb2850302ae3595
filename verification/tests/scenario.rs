use std::collections::HashMap;

use crowdfunding::instructions::donate::{donate, DonationTransfers};
use crowdfunding::instructions::incentivize::incentivize;
use crowdfunding::instructions::initialize::initialize;
use crowdfunding::instructions::liquidate_campaign::liquidate_campaign;
use crowdfunding::instructions::record_donors::record_donors;
use crowdfunding::instructions::register_donor::register_donor;
use crowdfunding::instructions::start_campaign::start_campaign;
use crowdfunding::instructions::stop_campaign::stop_campaign;
use crowdfunding::instructions::withdraw_donations::withdraw_donations;
use crowdfunding::instructions::withdraw_fees::withdraw_fees;
use crowdfunding::state::{Campaign, CampaignRecord, Donations, Donor, Platform};

/// An in-memory host around the engine: it owns the records and the two
/// vault balances, and performs the transfers the engine hands back.
struct Host {
    platform: Platform,
    campaigns: HashMap<u16, Campaign>,
    donors: Vec<Donor>,
    donor_donations: HashMap<(u64, u16), Donations>,
    total_donations: HashMap<u16, Donations>,
    sol_vault: u64,
    fee_vault: u64,
}

impl Host {
    fn new(platform: Platform) -> Host {
        Host {
            platform,
            campaigns: HashMap::new(),
            donors: Vec::new(),
            donor_donations: HashMap::new(),
            total_donations: HashMap::new(),
            sol_vault: 0,
            fee_vault: 0,
        }
    }

    fn register(&mut self, authority: u64) {
        let d = register_donor(&mut self.platform, authority);
        self.donors.push(d);
    }

    fn donor_mut(&mut self, authority: u64) -> &mut Donor {
        self.donors
            .iter_mut()
            .find(|d| d.authority == authority)
            .unwrap()
    }

    fn start(&mut self) -> u16 {
        let c = start_campaign(&mut self.platform, 999).unwrap();
        let id = c.id;
        self.campaigns.insert(id, c);
        self.total_donations
            .insert(id, Donations { donations_sum: 0 });
        id
    }

    fn donate(&mut self, authority: u64, campaign_id: u16, amount: u64, exemption_vault: u64) {
        let mut campaign = self.campaigns.remove(&campaign_id).unwrap();
        let mut donor = *self.donor_mut(authority);
        let mut ddc = *self
            .donor_donations
            .entry((authority, campaign_id))
            .or_insert(Donations { donations_sum: 0 });
        let mut tdc = *self.total_donations.get(&campaign_id).unwrap();
        let DonationTransfers {
            to_sol_vault,
            to_fee_vault,
        } = donate(
            &mut self.platform,
            &mut campaign,
            &mut donor,
            &mut ddc,
            &mut tdc,
            exemption_vault,
            amount,
        )
        .unwrap();
        self.campaigns.insert(campaign_id, campaign);
        *self.donor_mut(authority) = donor;
        self.donor_donations.insert((authority, campaign_id), ddc);
        self.total_donations.insert(campaign_id, tdc);
        self.sol_vault += to_sol_vault;
        self.fee_vault += to_fee_vault;
    }

    fn active(&self) -> &[CampaignRecord] {
        &self.platform.active_campaigns
    }

    fn platform_top(&self) -> Vec<(u64, u64)> {
        self.platform
            .top
            .iter()
            .map(|r| (r.donor, r.donations_sum))
            .collect()
    }
}

fn rec(id: u16, donations_sum: u64, withdrawn_sum: u64) -> CampaignRecord {
    CampaignRecord {
        id,
        donations_sum,
        withdrawn_sum,
    }
}

#[test]
fn scenario_test() {
    let platform = initialize(7, 0, 10000, 300, 1000, 2000);
    let mut host = Host::new(platform);

    // Fifteen donors, identified 0..15.
    for a in 0..15u64 {
        host.register(a);
    }

    // One campaign, still untouched.
    let c0 = host.start();
    assert_eq!(host.active(), &[rec(0, 0, 0)]);

    // Donations from donors 0, 2 and 3, fees charged at 3%.
    host.donate(0, c0, 100, 0);
    assert_eq!(host.platform_top(), vec![(0, 97)]);

    host.donate(0, c0, 1000, 0);
    assert_eq!(host.platform_top(), vec![(0, 97 + 970)]);

    host.donate(2, c0, 10000, 0);
    assert_eq!(host.platform_top(), vec![(2, 9700), (0, 97 + 970)]);

    host.donate(3, c0, 1, 0);
    assert_eq!(host.platform_top(), vec![(2, 9700), (0, 97 + 970), (3, 1)]);

    // The campaign authority withdraws everything received so far.
    assert_eq!(host.active(), &[rec(0, 97 + 970 + 9700 + 1, 0)]);
    let payout = withdraw_donations(&mut host.platform, c0).unwrap();
    assert_eq!(payout, 97 + 970 + 9700 + 1);
    host.sol_vault -= payout;
    assert_eq!(host.sol_vault, 0);
    assert_eq!(
        host.active(),
        &[rec(0, 97 + 970 + 9700 + 1, 97 + 970 + 9700 + 1)]
    );

    // The platform authority empties the fee vault (rent 0 in this host).
    let (fee_vault, _authority_balance) = withdraw_fees(host.fee_vault, 0, 0).unwrap();
    host.fee_vault = fee_vault;
    assert_eq!(host.fee_vault, 0);

    // The donors who donated are incentivized with the reward amount.
    let mut batch: Vec<Donor> = vec![
        *host.donor_mut(0),
        *host.donor_mut(2),
        *host.donor_mut(3),
    ];
    let mints = incentivize(&mut host.platform, &mut batch, 100).unwrap();
    assert_eq!(mints, vec![(0, 10000), (2, 10000), (3, 10000)]);
    for d in batch {
        *host.donor_mut(d.authority) = d;
    }

    // With enough reward token in the exemption vault, no fee is charged.
    host.donate(3, c0, 100_000, 1000);
    assert_eq!(
        host.active(),
        &[rec(0, 97 + 970 + 9700 + 1 + 100_000, 97 + 970 + 9700 + 1)]
    );
    assert_eq!(host.platform.avoided_fees_sum, 3000);

    // Two more campaigns, with small donations.
    let c1 = host.start();
    let c2 = host.start();
    assert_eq!(
        host.active(),
        &[
            rec(0, 97 + 970 + 9700 + 1 + 100_000, 97 + 970 + 9700 + 1),
            rec(1, 0, 0),
            rec(2, 0, 0),
        ]
    );
    host.donate(3, c1, 1, 1000);
    host.donate(3, c2, 9, 1000);

    // Campaign 0 is liquidated: its 100000 undrawn units are split 1:9.
    let outcome = liquidate_campaign(&mut host.platform, c0, 2000).unwrap();
    assert_eq!(outcome.liquidation_amount, 100_000);
    assert_eq!(outcome.to_fee_vault, 0);
    host.campaigns.remove(&c0);
    assert_eq!(
        host.active(),
        &[rec(1, 1 + 10000, 0), rec(2, 9 + 90000, 0)]
    );
    // The liquidated campaign's already-withdrawn 10768 leave the active
    // sum too: the counter stays the exact sum of the surviving records.
    assert_eq!(
        host.platform.sum_of_active_campaign_donations,
        (1 + 10000) + (9 + 90000)
    );

    // The redistributed funds can be withdrawn like any donation.
    assert_eq!(host.sol_vault, 1 + 10000 + 9 + 90000);
    let payout = withdraw_donations(&mut host.platform, c1).unwrap();
    assert_eq!(payout, 1 + 10000);
    host.sol_vault -= payout;
    assert_eq!(host.sol_vault, 9 + 90000);
    assert_eq!(
        host.active(),
        &[rec(1, 1 + 10000, 1 + 10000), rec(2, 9 + 90000, 0)]
    );

    let payout = stop_campaign(&mut host.platform, c2).unwrap();
    assert_eq!(payout, 9 + 90000);
    host.sol_vault -= payout;
    host.campaigns.remove(&c2);
    assert_eq!(host.active(), &[rec(1, 1 + 10000, 1 + 10000)]);

    stop_campaign(&mut host.platform, c1).unwrap();
    host.campaigns.remove(&c1);
    assert!(host.active().is_empty());

    // A fresh campaign gathers 13 donations; its top list of capacity 10
    // keeps exactly the ten highest donors, sorted strictly descending.
    let c3 = host.start();
    for a in [14u64, 2, 5, 1, 11, 12, 10, 9, 13, 7, 8, 4, 3] {
        host.donate(a, c3, a, 1000);
    }
    let campaign_top: Vec<(u64, u64)> = host.campaigns[&c3]
        .top
        .iter()
        .map(|r| (r.donor, r.donations_sum))
        .collect();
    assert_eq!(
        campaign_top,
        vec![
            (14, 14),
            (13, 13),
            (12, 12),
            (11, 11),
            (10, 10),
            (9, 9),
            (8, 8),
            (7, 7),
            (5, 5),
            (4, 4),
        ]
    );

    // Recording those donors snapshots the ten highest of them — by
    // lifetime sums — into the seasonal top.
    let mut batch: Vec<Donor> = [14u64, 13, 12, 11, 10, 9, 8, 7, 5, 4]
        .iter()
        .map(|a| *host.donors.iter().find(|d| d.authority == *a).unwrap())
        .collect();
    record_donors(&mut host.platform, &mut batch, 200).unwrap();
    for d in batch {
        *host.donor_mut(d.authority) = d;
    }
    let seasonal: Vec<u64> = host.platform.seasonal_top.iter().map(|r| r.donor).collect();
    assert_eq!(seasonal, vec![14, 13, 12, 11, 10, 9, 8, 7, 5, 4]);
}
