pub mod initialize;
pub mod register_donor;
pub mod start_campaign;
pub mod donate;
pub mod record_donors;
pub mod drop_rewards;
pub mod incentivize;
pub mod withdraw_donations;
pub mod stop_campaign;
pub mod liquidate_campaign;
pub mod withdraw_fees;
pub mod claim_liquidated_sol;
