use vstd::prelude::*;

use crate::error::MarketError;
use crate::state::MarketIds;

verus! {

/// The accounts that setting up the market writes.
pub struct MakerId {
    /// The market's id counters.
    pub id_account: MarketIds,
}

/// Sets up the market: both id counters start at zero.
pub fn process_init(ctx: &mut MakerId) -> (r: Result<(), MarketError>)
    ensures
        r is Ok,
        final(ctx).id_account == (MarketIds { create_id: 0, order_id: 0 }),
{
    ctx.id_account.create_id = 0;
    ctx.id_account.order_id = 0;
    Ok(())
}

} // verus!
