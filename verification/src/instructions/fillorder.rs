use vstd::prelude::*;

use crate::error::{ErrorCodes, MarketError};
use crate::events::OrderFilled;
use crate::key::Pubkey;
use crate::state::{MintInfo, OfferType, OrderBook, Users};
use crate::transfer::{collateral_amount, collateral_for, TokenTransfer, TransferRoute};

verus! {

/// The accounts that filling an order reads and writes.
pub struct User {
    /// The user who fills the order.
    pub signer: Pubkey,
    /// The collateral mint.
    pub mint: MintInfo,
    /// The record of this fill.
    pub user_account: Users,
    /// The address of the record of this fill.
    pub user_account_key: Pubkey,
    /// The order being filled.
    pub order_account_details: OrderBook,
}

/// What a fill asks of the outside world: the collateral transfer from the
/// user to the order, and the event.
#[derive(Clone, Copy, Debug, PartialEq, Eq)]
pub struct FillOutcome {
    pub transfer: TokenTransfer,
    pub event: OrderFilled,
}

/// The totals of `order` can take `amount` more points, and the
/// collateral they are worth, without leaving `u64`.
pub open spec fn fill_fits(order: OrderBook, amount: u64) -> bool {
    let c = collateral_for(amount, order.point_price);
    &&& order.total_filled_points + amount <= u64::MAX
    &&& order.total_filled_collater_amt + c <= u64::MAX
    &&& order.available_collaleral_amt + c <= u64::MAX
}

/// The refusal, if any, that filling `order` under the id `order_id` meets.
pub open spec fn fill_refusal(order: OrderBook, order_id: u64) -> Option<ErrorCodes> {
    if order.order_id != order_id {
        Some(ErrorCodes::InvalidOrderId)
    } else {
        None
    }
}

/// `post` is `pre` after a fill of `amount` points recorded at `user_key`:
/// the filled points, the filled collateral and the available collateral
/// grow, the record joins the user list, and the order closes once it is
/// filled in full.
pub open spec fn order_after_fill(pre: OrderBook, post: OrderBook, amount: u64, user_key: Pubkey) -> bool {
    let c = collateral_for(amount, pre.point_price);
    &&& post.total_filled_points == pre.total_filled_points + amount
    &&& post.total_filled_collater_amt == pre.total_filled_collater_amt + c
    &&& post.available_collaleral_amt == pre.available_collaleral_amt + c
    &&& post.user_list@ == pre.user_list@.push(user_key)
    &&& post.is_active == (pre.is_active && pre.total_filled_points + amount < pre.point)
    &&& post.order_id == pre.order_id
    &&& post.create_id == pre.create_id
    &&& post.offer_type == pre.offer_type
    &&& post.user == pre.user
    &&& post.collateral == pre.collateral
    &&& post.order_creator == pre.order_creator
    &&& post.point == pre.point
    &&& post.point_price == pre.point_price
    &&& post.collateral_amt == pre.collateral_amt
    &&& post.available_filled_collateral_amt == pre.available_filled_collateral_amt
    &&& post.is_partial == pre.is_partial
    &&& post.settled == pre.settled
}

/// Fills `amount` points of the order `order_id` of token `create_id`.
///
/// The order account must carry `order_id`, else `InvalidOrderId` and
/// nothing changes. On success the user pays `collateral_for(amount,
/// point_price)` into the order, the fill is recorded in `user_account`,
/// and the order's totals grow by the fill.
pub fn process_user_order(ctx: &mut User, amount: u64, create_id: u64, order_id: u64) -> (r: Result<FillOutcome, MarketError>)
    requires
        old(ctx).order_account_details.order_id == order_id ==> fill_fits(old(ctx).order_account_details, amount),
    ensures
        fill_refusal(old(ctx).order_account_details, order_id) matches Some(c) ==> {
            &&& r == Err::<FillOutcome, MarketError>(MarketError::Code(c))
            &&& *final(ctx) == *old(ctx)
        },
        fill_refusal(old(ctx).order_account_details, order_id) is None ==> {
            let pre = old(ctx).order_account_details;
            let c = collateral_for(amount, pre.point_price);
            &&& r == Ok::<FillOutcome, MarketError>(FillOutcome {
                transfer: TokenTransfer {
                    route: TransferRoute::SignerToOrderVault,
                    amount: c,
                    decimals: old(ctx).mint.decimals,
                },
                event: OrderFilled {
                    create_id,
                    order_id,
                    user: old(ctx).signer,
                    to_be_fill_amt: amount,
                    collerateral_amt: c,
                },
            })
            &&& final(ctx).user_account == (Users {
                user_account: old(ctx).signer,
                collect_point: amount,
                collerateral_amount: c,
                order_id,
                create_id,
                is_buyer: pre.offer_type == OfferType::SELL,
            })
            &&& order_after_fill(pre, final(ctx).order_account_details, amount, old(ctx).user_account_key)
            &&& final(ctx).signer == old(ctx).signer
            &&& final(ctx).mint == old(ctx).mint
            &&& final(ctx).user_account_key == old(ctx).user_account_key
        },
        old(ctx).order_account_details.order_id != order_id ==> r is Err,
        old(ctx).order_account_details.order_id == order_id ==> {
            let pre = old(ctx).order_account_details;
            let post = final(ctx).order_account_details;
            &&& r is Ok
            &&& post.is_active == (pre.is_active && pre.total_filled_points + amount < pre.point)
            &&& post.total_filled_points == pre.total_filled_points + amount
            &&& post.total_filled_collater_amt == pre.total_filled_collater_amt + r->Ok_0.transfer.amount
            &&& post.available_collaleral_amt == pre.available_collaleral_amt + r->Ok_0.transfer.amount
            &&& r->Ok_0.event.collerateral_amt == r->Ok_0.transfer.amount
            &&& amount * pre.point_price < 10000 * 0x1_0000_0000_0000_0000 ==> {
                &&& r->Ok_0.transfer.amount * 10000 <= amount * pre.point_price
                &&& amount * pre.point_price < (r->Ok_0.transfer.amount + 1) * 10000
            }
        },
{
    if ctx.order_account_details.order_id != order_id {
        return Err(MarketError::Code(ErrorCodes::InvalidOrderId));
    }
    let collateral = collateral_amount(amount, ctx.order_account_details.point_price);
    let transfer = TokenTransfer {
        route: TransferRoute::SignerToOrderVault,
        amount: collateral,
        decimals: ctx.mint.decimals,
    };

    ctx.user_account = Users {
        user_account: ctx.signer,
        collect_point: amount,
        collerateral_amount: collateral,
        order_id,
        create_id,
        is_buyer: ctx.order_account_details.offer_type == OfferType::SELL,
    };

    let key = ctx.user_account_key;
    let order = &mut ctx.order_account_details;
    order.total_filled_points = order.total_filled_points + amount;
    order.total_filled_collater_amt = order.total_filled_collater_amt + collateral;
    order.available_collaleral_amt = order.available_collaleral_amt + collateral;
    order.user_list.push(key);
    if order.total_filled_points >= order.point {
        order.is_active = false;
    }

    Ok(FillOutcome {
        transfer,
        event: OrderFilled {
            create_id,
            order_id,
            user: ctx.signer,
            to_be_fill_amt: amount,
            collerateral_amt: collateral,
        },
    })
}

} // verus!
