use vstd::prelude::*;

verus! {

/// Which accounts a token transfer moves tokens between.
#[derive(Clone, Copy, Debug, PartialEq, Eq, Structural)]
pub enum TransferRoute {
    /// From the signer's token account to the order's token account,
    /// authorised by the signer.
    SignerToOrderVault,
    /// From the order account to the signer, authorised by the order
    /// account's own address.
    OrderToSigner,
}

/// A checked token transfer that an instruction asks the token program for.
#[derive(Clone, Copy, Debug, PartialEq, Eq, Structural)]
pub struct TokenTransfer {
    pub route: TransferRoute,
    pub amount: u64,
    pub decimals: u8,
}

/// The collateral that `points` points are worth at `price`, the price
/// being counted in ten-thousandths: the floor of `points * price / 10000`,
/// cut to its low 64 bits.
pub open spec fn collateral_for(points: u64, price: u64) -> u64 {
    ((points * price) / 10000) as u64
}

/// Computes `collateral_for(points, price)` without overflow.
pub fn collateral_amount(points: u64, price: u64) -> (r: u64)
    ensures
        r == collateral_for(points, price),
        points * price < 10000 * 0x1_0000_0000_0000_0000 ==> {
            &&& r * 10000 <= points * price
            &&& points * price < (r + 1) * 10000
        },
{
    assert(points * price <= u64::MAX * u64::MAX) by (nonlinear_arith);
    let product: u128 = (points as u128) * (price as u128);
    let r: u64 = (#[verifier::truncate] ((product / 10000) as u64));
    r
}

} // verus!
