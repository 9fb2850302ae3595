use vstd::prelude::*;

verus! {

/// Decimal precision of the platform's reward token.
pub const CHRT_DECIMALS: u8 = 3;

/// Decimal precision of the platform's native currency.
pub const NATIVE_DECIMALS: u8 = 9;

/// Capacity of the per-cycle seasonal top-donor list.
pub const SEASONAL_TOP_CAPACITY: usize = 10;

/// Capacity of the platform-wide top-donor list.
pub const PLATFORM_TOP_CAPACITY: usize = 128;

/// Capacity of each campaign's top-donor list.
pub const CAMPAIGN_TOP_CAPACITY: usize = 10;

/// Maximal number of simultaneously active campaigns.
pub const ACTIVE_CAMPAIGNS_CAPACITY: usize = 256;

/// Denominator of the fee rate: `fee_basis_points` is a fraction of this.
pub const FEE_BASIS_POINTS_DENOM: u64 = 10000;

/// Numerator of the referral reward: a referer is minted 101/100 of the
/// donated amount, rescaled from native to reward-token precision.
pub const REFERER_REWARD_NUM: u64 = 101;

/// 10 to the power `NATIVE_DECIMALS - CHRT_DECIMALS`: the divisor that
/// rescales an amount from native base units to reward-token base units.
pub const CHRT_PER_NATIVE_DIVISOR: u64 = 1000000;

} // verus!
