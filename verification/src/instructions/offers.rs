use vstd::prelude::*;

use crate::clock::clock_unix_timestamp;
use crate::error::MarketError;
use crate::events::OrderCreated;
use crate::key::Pubkey;
use crate::state::{MarketIds, MintInfo, OfferType, OrderBook, TokenDetails};
use crate::transfer::{collateral_amount, collateral_for, TokenTransfer, TransferRoute};

verus! {

/// The accounts that placing an order reads and writes.
pub struct CreateOrder {
    /// The user who places the order.
    pub signer: Pubkey,
    /// The collateral mint.
    pub mint: MintInfo,
    /// The market's id counters.
    pub id_account: MarketIds,
    /// The token the order is for.
    pub token_details_account: TokenDetails,
    /// The new order.
    pub order_account_details: OrderBook,
    /// The address of the new order.
    pub order_account_key: Pubkey,
}

/// What placing an order asks of the outside world: the collateral
/// transfer from the user to the order, and the event.
#[derive(Clone, Copy, Debug, PartialEq, Eq)]
pub struct OrderPlacement {
    pub transfer: TokenTransfer,
    pub event: OrderCreated,
}

/// The order counter can be added to itself within `u64`.
pub open spec fn order_fits(ids: MarketIds) -> bool {
    ids.order_id + ids.order_id <= u64::MAX
}

/// `post` is `pre` after placing a sell order of `point_amount` points at
/// `point_price` for token `create_id`: the order takes the current order
/// id, the mint, the creator and the collateral; the order counter is added
/// to itself; the order's address joins the token's order list.
pub open spec fn order_placed(pre: CreateOrder, post: CreateOrder, point_amount: u64, point_price: u64, create_id: u64, is_partial: bool) -> bool {
    let o = pre.order_account_details;
    let n = post.order_account_details;
    &&& n.order_id == pre.id_account.order_id
    &&& n.collateral == pre.mint.key
    &&& n.is_partial == is_partial
    &&& n.offer_type == OfferType::SELL
    &&& n.collateral_amt == collateral_for(point_amount, point_price)
    &&& n.order_creator == pre.signer
    &&& n.create_id == create_id
    &&& n.user == o.user
    &&& n.point == o.point
    &&& n.point_price == o.point_price
    &&& n.total_filled_collater_amt == o.total_filled_collater_amt
    &&& n.total_filled_points == o.total_filled_points
    &&& n.available_collaleral_amt == o.available_collaleral_amt
    &&& n.available_filled_collateral_amt == o.available_filled_collateral_amt
    &&& n.is_active == o.is_active
    &&& n.settled == o.settled
    &&& n.user_list@ == o.user_list@
    &&& post.id_account.order_id == pre.id_account.order_id + pre.id_account.order_id
    &&& post.id_account.create_id == pre.id_account.create_id
    &&& post.token_details_account.order_list@ == pre.token_details_account.order_list@.push(pre.order_account_key)
    &&& post.token_details_account.token_name@ == pre.token_details_account.token_name@
    &&& post.token_details_account.token_symbol@ == pre.token_details_account.token_symbol@
    &&& post.token_details_account.token_address == pre.token_details_account.token_address
    &&& post.token_details_account.creator_id == pre.token_details_account.creator_id
    &&& post.token_details_account.creator == pre.token_details_account.creator
    &&& post.token_details_account.total_val == pre.token_details_account.total_val
    &&& post.token_details_account.start_settle_time == pre.token_details_account.start_settle_time
    &&& post.token_details_account.end_settle_time == pre.token_details_account.end_settle_time
    &&& post.token_details_account.is_trading == pre.token_details_account.is_trading
    &&& post.token_details_account.stage == pre.token_details_account.stage
    &&& post.signer == pre.signer
    &&& post.mint == pre.mint
    &&& post.order_account_key == pre.order_account_key
}

/// The transfer that placing an order asks for: the collateral of the
/// order, from the signer into the order's token account.
pub open spec fn placement_transfer(pre: CreateOrder, point_amount: u64, point_price: u64) -> TokenTransfer {
    TokenTransfer {
        route: TransferRoute::SignerToOrderVault,
        amount: collateral_for(point_amount, point_price),
        decimals: pre.mint.decimals,
    }
}

/// The event that placing an order announces, at time `timestamp`.
pub open spec fn placement_event(pre: CreateOrder, point_amount: u64, point_price: u64, create_id: u64, is_partial: bool, timestamp: i64) -> OrderCreated {
    OrderCreated {
        create_id,
        order_id: pre.id_account.order_id,
        user: pre.signer,
        amount: point_amount,
        price: point_price,
        is_partial,
        is_buy: true,
        timestamp: timestamp as u64,
    }
}

/// Places a sell order at the clock time `timestamp`: the order account is
/// filled in as `order_placed` says, and the collateral transfer and the
/// event are handed back.
pub fn apply_order(
    ctx: &mut CreateOrder,
    point_amount: u64,
    point_price: u64,
    create_id: u64,
    is_partial: bool,
    timestamp: i64,
) -> (r: OrderPlacement)
    requires
        order_fits(old(ctx).id_account),
    ensures
        order_placed(*old(ctx), *final(ctx), point_amount, point_price, create_id, is_partial),
        r.transfer == placement_transfer(*old(ctx), point_amount, point_price),
        r.event == placement_event(*old(ctx), point_amount, point_price, create_id, is_partial, timestamp),
        final(ctx).order_account_details.is_partial == is_partial,
        final(ctx).order_account_details.order_id == old(ctx).id_account.order_id,
        final(ctx).order_account_details.create_id == create_id,
        final(ctx).order_account_details.offer_type == OfferType::SELL,
        final(ctx).order_account_details.order_creator == old(ctx).signer,
        final(ctx).order_account_details.collateral == old(ctx).mint.key,
        final(ctx).order_account_details.collateral_amt == r.transfer.amount,
        final(ctx).order_account_details.is_active == old(ctx).order_account_details.is_active,
        final(ctx).id_account.order_id == 2 * old(ctx).id_account.order_id,
        final(ctx).token_details_account.order_list@ == old(ctx).token_details_account.order_list@.push(old(ctx).order_account_key),
        r.transfer.route == TransferRoute::SignerToOrderVault,
        r.event.order_id == old(ctx).id_account.order_id,
        r.event.is_partial == is_partial,
        r.event.amount == point_amount,
        r.event.price == point_price,
        r.event.create_id == create_id,
        r.event.user == old(ctx).signer,
        r.event.is_buy,
        point_amount * point_price < 10000 * 0x1_0000_0000_0000_0000 ==> {
            &&& r.transfer.amount * 10000 <= point_amount * point_price
            &&& point_amount * point_price < (r.transfer.amount + 1) * 10000
        },
{
    let order_id = ctx.id_account.order_id;
    let signer = ctx.signer;
    let collateral = collateral_amount(point_amount, point_price);
    let transfer = TokenTransfer {
        route: TransferRoute::SignerToOrderVault,
        amount: collateral,
        decimals: ctx.mint.decimals,
    };

    ctx.order_account_details.order_id = order_id;
    ctx.order_account_details.collateral = ctx.mint.key;
    ctx.order_account_details.is_partial = is_partial;
    ctx.order_account_details.offer_type = OfferType::SELL;
    ctx.order_account_details.collateral_amt = collateral;
    ctx.order_account_details.order_creator = signer;
    ctx.order_account_details.create_id = create_id;
    ctx.id_account.order_id = ctx.id_account.order_id + order_id;
    let key = ctx.order_account_key;
    ctx.token_details_account.order_list.push(key);

    OrderPlacement {
        transfer,
        event: OrderCreated {
            create_id,
            order_id,
            user: signer,
            amount: point_amount,
            price: point_price,
            is_partial,
            is_buy: true,
            timestamp: timestamp as u64,
        },
    }
}

/// Places a sell order of `point_amount` points at `point_price`
/// (ten-thousandths) for token `create_id`, reading the clock for the
/// event's time.
///
/// When the clock cannot be read, its error comes back and nothing
/// changes. Otherwise the accounts change as `order_placed` says, and the
/// collateral transfer and the event are handed back; the event's time is
/// whatever the clock gave.
pub fn process_order(
    ctx: &mut CreateOrder,
    point_amount: u64,
    point_price: u64,
    create_id: u64,
    is_partial: bool,
) -> (r: Result<OrderPlacement, MarketError>)
    requires
        order_fits(old(ctx).id_account),
    ensures
        r is Err ==> r->Err_0 is Program && *final(ctx) == *old(ctx),
        r is Ok ==> {
            &&& order_placed(*old(ctx), *final(ctx), point_amount, point_price, create_id, is_partial)
            &&& r->Ok_0.transfer == placement_transfer(*old(ctx), point_amount, point_price)
            &&& exists|t: i64| r->Ok_0.event == #[trigger] placement_event(*old(ctx), point_amount, point_price, create_id, is_partial, t)
            &&& final(ctx).order_account_details.is_partial == is_partial
            &&& final(ctx).order_account_details.order_id == old(ctx).id_account.order_id
            &&& final(ctx).id_account.order_id == 2 * old(ctx).id_account.order_id
            &&& r->Ok_0.event.is_partial == is_partial
        },
{
    let timestamp = match clock_unix_timestamp() {
        Ok(t) => t,
        Err(e) => {
            return Err(MarketError::Program(e));
        },
    };
    Ok(apply_order(ctx, point_amount, point_price, create_id, is_partial, timestamp))
}

} // verus!
