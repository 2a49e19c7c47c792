//! Minting the base asset.

use crate::error::ErrorCode;
use vstd::prelude::*;

verus! {

/// Admits a mint of `amount` of the base asset: any amount but zero. The
/// caller mints what is returned.
pub fn handler(amount: u64) -> (result: Result<u64, ErrorCode>)
    ensures
        amount > 0 ==> result == Ok::<u64, ErrorCode>(amount),
        amount == 0 ==> result == Err::<u64, ErrorCode>(ErrorCode::InvalidAmount),
{
    if amount == 0 {
        return Err(ErrorCode::InvalidAmount);
    }
    Ok(amount)
}

} // verus!
