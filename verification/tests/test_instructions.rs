use crowdfunding::error::CrowdfundingError;
use crowdfunding::instructions::donate::{donate, donate_with_referer};
use crowdfunding::instructions::drop_rewards::drop_rewards;
use crowdfunding::instructions::initialize::initialize;
use crowdfunding::instructions::liquidate_campaign::liquidate_campaign;
use crowdfunding::instructions::record_donors::record_donors;
use crowdfunding::instructions::register_donor::register_donor;
use crowdfunding::instructions::start_campaign::start_campaign;
use crowdfunding::instructions::stop_campaign::stop_campaign;
use crowdfunding::instructions::withdraw_donations::withdraw_donations;
use crowdfunding::instructions::withdraw_fees::withdraw_fees;
use crowdfunding::state::{CampaignRecord, Donations, Donor};

fn rec(id: u16, donations_sum: u64, withdrawn_sum: u64) -> CampaignRecord {
    CampaignRecord {
        id,
        donations_sum,
        withdrawn_sum,
    }
}

#[test]
fn test_instructions() {
    let reward_cooldown = 10;
    let reward_amount = 1000;
    let fee_basis_points = 300;
    let fee_exemption_limit = 1000;
    let liquidation_limit = 2000;

    let mut platform = initialize(
        42,
        reward_cooldown,
        reward_amount,
        fee_basis_points,
        fee_exemption_limit,
        liquidation_limit,
    );
    assert_eq!(platform.authority, 42);
    assert_eq!(platform.reward_cooldown, reward_cooldown);
    assert_eq!(platform.reward_amount, reward_amount);
    assert_eq!(platform.fee_basis_points, fee_basis_points);
    assert_eq!(platform.fee_exemption_limit, fee_exemption_limit);
    assert_eq!(platform.liquidation_limit, liquidation_limit);

    let mut donors: Vec<Donor> = (0..15u64).map(|a| register_donor(&mut platform, a)).collect();
    assert_eq!(donors[0].authority, 0);
    assert_eq!(platform.donors_count, 15);

    let mut campaign0 = start_campaign(&mut platform, 7).unwrap();
    assert_eq!(campaign0.authority, 7);
    assert_eq!(campaign0.id, 0);
    assert_eq!(&platform.active_campaigns[..], &[rec(0, 0, 0)]);

    let mut campaign1 = start_campaign(&mut platform, 7).unwrap();
    assert_eq!(campaign1.id, 1);
    assert_eq!(
        &platform.active_campaigns[..],
        &[rec(0, 0, 0), rec(1, 0, 0)]
    );

    // Donor 0 donates 100: 97 to the campaign, 3 in fees.
    let mut ddc00 = Donations { donations_sum: 0 };
    let mut tdc0 = Donations { donations_sum: 0 };
    let mut sol_vault: u64 = 0;
    let mut fee_vault: u64 = 0;
    let t = donate(
        &mut platform,
        &mut campaign0,
        &mut donors[0],
        &mut ddc00,
        &mut tdc0,
        0,
        100,
    )
    .unwrap();
    sol_vault += t.to_sol_vault;
    fee_vault += t.to_fee_vault;
    assert_eq!(platform.sum_of_all_donations, 97);
    assert_eq!(platform.sum_of_active_campaign_donations, 97);
    assert_eq!(donors[0].donations_sum, 97);
    assert_eq!(ddc00.donations_sum, 97);
    assert_eq!(tdc0.donations_sum, 97);
    assert_eq!(sol_vault, 97);
    assert_eq!(fee_vault, 3);
    assert_eq!(
        &platform.active_campaigns[..],
        &[rec(0, 97, 0), rec(1, 0, 0)]
    );
    assert_eq!(platform.top.len(), 1);
    assert_eq!((platform.top[0].donor, platform.top[0].donations_sum), (0, 97));
    assert_eq!(
        (campaign0.top[0].donor, campaign0.top[0].donations_sum),
        (0, 97)
    );

    // Donor 1 donates 10000 with donor 0 as referer: donor 0 is owed one
    // base unit of the reward token.
    let mut ddc10 = Donations { donations_sum: 0 };
    let (t, mint) = donate_with_referer(
        &mut platform,
        &mut campaign0,
        &mut donors[1],
        &mut ddc10,
        &mut tdc0,
        0,
        0,
        10000,
    )
    .unwrap();
    sol_vault += t.to_sol_vault;
    fee_vault += t.to_fee_vault;
    assert_eq!(mint, 1);
    assert_eq!(platform.sum_of_all_donations, 97 + 9700);
    assert_eq!(platform.sum_of_active_campaign_donations, 97 + 9700);
    assert_eq!(donors[1].donations_sum, 9700);
    assert_eq!(ddc10.donations_sum, 9700);
    assert_eq!(tdc0.donations_sum, 97 + 9700);
    assert_eq!(sol_vault, 97 + 9700);
    assert_eq!(fee_vault, 3 + 300);
    assert_eq!(
        &platform.active_campaigns[..],
        &[rec(0, 97 + 9700, 0), rec(1, 0, 0)]
    );
    let top: Vec<(u64, u64)> = platform
        .top
        .iter()
        .map(|r| (r.donor, r.donations_sum))
        .collect();
    assert_eq!(top, vec![(1, 9700), (0, 97)]);
    let top: Vec<(u64, u64)> = campaign0
        .top
        .iter()
        .map(|r| (r.donor, r.donations_sum))
        .collect();
    assert_eq!(top, vec![(1, 9700), (0, 97)]);

    // All fifteen donors are recorded; the two who donated enter the
    // seasonal top.
    let now = 100;
    record_donors(&mut platform, &mut donors, now).unwrap();
    assert!(platform.reward_procedure_is_in_process);
    assert_eq!(platform.last_reward_procedure_ts, now);
    assert_eq!(platform.donors_recorded, 15);
    let seasonal: Vec<(u64, u64)> = platform
        .seasonal_top
        .iter()
        .map(|r| (r.donor, r.donations_sum))
        .collect();
    assert_eq!(seasonal, vec![(1, 9700), (0, 97)]);

    // The reward drop pays the seasonal top in order and closes the cycle.
    let mut top_donors = vec![donors[1], donors[0]];
    let mints = drop_rewards(&mut platform, &mut top_donors).unwrap();
    assert_eq!(mints, vec![(1, 1000), (0, 1000)]);
    donors[1] = top_donors[0];
    donors[0] = top_donors[1];
    assert!(!platform.reward_procedure_is_in_process);
    assert_eq!(platform.donors_recorded, 0);
    assert!(platform.seasonal_top.is_empty());
    for a in [0, 1] {
        assert_eq!(donors[a].rewarded_donations_sum, donors[a].donations_sum);
    }

    // Recording again right away runs into the cooldown.
    assert_eq!(
        record_donors(&mut platform, &mut donors, now),
        Err(CrowdfundingError::RewardCooldown)
    );

    // The campaign authority withdraws everything received.
    let payout = withdraw_donations(&mut platform, 0).unwrap();
    assert_eq!(payout, 97 + 9700);
    sol_vault -= payout;
    assert_eq!(sol_vault, 0);
    assert_eq!(
        &platform.active_campaigns[..],
        &[rec(0, 97 + 9700, 97 + 9700), rec(1, 0, 0)]
    );

    // Liquidation is refused while the liquidation vault is short.
    assert_eq!(
        liquidate_campaign(&mut platform, 0, 0),
        Err(CrowdfundingError::NotEnoughCHRTInVault)
    );

    // Stopping campaign 0 removes it and its donation total.
    let payout = stop_campaign(&mut platform, 0).unwrap();
    assert_eq!(payout, 0);
    assert_eq!(&platform.active_campaigns[..], &[rec(1, 0, 0)]);
    assert_eq!(platform.sum_of_active_campaign_donations, 0);
    drop(campaign0);

    stop_campaign(&mut platform, 1).unwrap();
    assert!(platform.active_campaigns.is_empty());
    drop(campaign1);

    // The platform authority empties the fee vault (rent 0 in this host).
    let (new_fee_vault, _) = withdraw_fees(fee_vault, 0, 0).unwrap();
    fee_vault = new_fee_vault;
    assert_eq!(fee_vault, 0);
}
