use vstd::prelude::*;
use crate::error::CrowdfundingError;
use crate::utils::transfer_all_but_rent;

verus! {

/// Pays the collected fees out to the platform authority: the fee vault is
/// emptied down to the host's rent minimum, the rest joins the authority's
/// balance. Returns the two new balances `(fee_vault, authority)`.
pub fn withdraw_fees(fee_vault: u64, authority_balance: u64, rent: u64) -> (r: Result<
    (u64, u64),
    CrowdfundingError,
>)
    requires
        rent <= fee_vault ==> authority_balance + (fee_vault - rent) <= u64::MAX,
    ensures
        rent <= fee_vault ==> r == Ok::<_, CrowdfundingError>(
            (rent, (authority_balance + (fee_vault - rent)) as u64),
        ),
        rent > fee_vault ==> r == Err::<(u64, u64), _>(CrowdfundingError::InsufficientFunds),
{
    transfer_all_but_rent(fee_vault, authority_balance, rent)
}

} // verus!
