use vstd::prelude::*;

use crate::errors::ErrorCode;

verus! {

/// Basis points in a whole: 10000 bps is 100%.
pub const BPS_DENOMINATOR: u64 = 10000;

/// The floor of `bps` basis points of `price`.
pub open spec fn bps_share(price: int, bps: int) -> int {
    price * bps / 10000
}

/// Whether the split of `price` can be computed in 64-bit arithmetic: both
/// products fit and the two shares leave a remainder of at least zero.
pub open spec fn split_computable(price: u64, renter_fee: u16, platform_fee: u16) -> bool {
    &&& price * renter_fee <= u64::MAX
    &&& price * platform_fee <= u64::MAX
    &&& bps_share(price as int, renter_fee as int) + bps_share(price as int, platform_fee as int)
        <= price
}

/// How the price of a sold item is divided among its three recipients.
#[derive(Clone, Copy, Debug, PartialEq, Eq, Structural)]
pub struct FeeSplit {
    pub renter_amount: u64,
    pub platform_amount: u64,
    pub exhibitor_amount: u64,
}

/// The split that the fee rates give for `price`: each fee share is rounded
/// down, and the exhibitor receives what remains.
pub open spec fn split_of(price: u64, renter_fee: u16, platform_fee: u16) -> FeeSplit {
    let r = bps_share(price as int, renter_fee as int);
    let p = bps_share(price as int, platform_fee as int);
    FeeSplit {
        renter_amount: r as u64,
        platform_amount: p as u64,
        exhibitor_amount: (price - r - p) as u64,
    }
}

/// Divides `price` between renter, platform and exhibitor. Fails with
/// `ArithmeticError` exactly when a product overflows or the shares exceed
/// the price.
pub fn split_price(price: u64, renter_fee: u16, platform_fee: u16) -> (r: Result<
    FeeSplit,
    ErrorCode,
>)
    ensures
        r is Ok <==> split_computable(price, renter_fee, platform_fee),
        r matches Ok(s) ==> s == split_of(price, renter_fee, platform_fee),
        r matches Err(e) ==> e == ErrorCode::ArithmeticError,
{
    let renter_product = match price.checked_mul(renter_fee as u64) {
        Some(v) => v,
        None => return Err(ErrorCode::ArithmeticError),
    };
    let platform_product = match price.checked_mul(platform_fee as u64) {
        Some(v) => v,
        None => return Err(ErrorCode::ArithmeticError),
    };
    let renter_amount = renter_product / BPS_DENOMINATOR;
    let platform_amount = platform_product / BPS_DENOMINATOR;
    let after_platform = match price.checked_sub(platform_amount) {
        Some(v) => v,
        None => return Err(ErrorCode::ArithmeticError),
    };
    let exhibitor_amount = match after_platform.checked_sub(renter_amount) {
        Some(v) => v,
        None => return Err(ErrorCode::ArithmeticError),
    };
    Ok(FeeSplit { renter_amount, platform_amount, exhibitor_amount })
}

} // verus!
