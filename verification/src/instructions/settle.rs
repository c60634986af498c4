use vstd::prelude::*;

use crate::error::MarketError;
use crate::key::Pubkey;

verus! {

/// The accounts that settling an order names. Settling reads none of them.
pub struct SettleOrdered {}

/// Settles the fill of `user` of the order `order_id` of token
/// `create_id`. Settling does nothing yet: it always succeeds and changes
/// no account.
#[allow(unused_variables)]
pub fn process_settle_order(ctx: &SettleOrdered, create_id: u64, order_id: u64, user: Pubkey) -> (r: Result<(), MarketError>)
    ensures
        r is Ok,
{
    Ok(())
}

} // verus!
