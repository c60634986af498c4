use vstd::prelude::*;

use crate::error::{ErrorCodes, MarketError};
use crate::events::OrderCancelled;
use crate::key::Pubkey;
use crate::state::{MintInfo, OrderBook};
use crate::transfer::{TokenTransfer, TransferRoute};

verus! {

/// The accounts that cancelling an order reads and writes.
pub struct CancelOrder {
    /// The user who cancels the order.
    pub signer: Pubkey,
    /// The collateral mint.
    pub mint: MintInfo,
    /// The order being cancelled.
    pub order_account_details: OrderBook,
}

/// What a cancellation asks of the outside world: the refund from the
/// order to the signer, and the event.
#[derive(Clone, Copy, Debug, PartialEq, Eq)]
pub struct CancelOutcome {
    pub transfer: TokenTransfer,
    pub event: OrderCancelled,
}

/// The collateral that the unfilled points of `order` are worth: the floor
/// of `(point - total_filled_points) * point_price / 10000`.
pub open spec fn cancel_refund(order: OrderBook) -> int {
    ((order.point - order.total_filled_points) * order.point_price) / 10000
}

/// The refund of `order` can be computed in `u64`: no more points are
/// filled than the order has, and the unfilled points times the price fit.
pub open spec fn cancel_fits(order: OrderBook) -> bool {
    &&& order.total_filled_points <= order.point
    &&& (order.point - order.total_filled_points) * order.point_price <= u64::MAX
}

/// The refusal, if any, that cancelling `order` meets, in the order in
/// which the checks are made.
pub open spec fn cancel_refusal(order: OrderBook) -> Option<ErrorCodes> {
    if !order.is_active {
        Some(ErrorCodes::OrderInActive)
    } else if cancel_refund(order) > order.available_collaleral_amt {
        Some(ErrorCodes::InsufficentOrder)
    } else {
        None
    }
}

/// `post` is `pre` closed, with `refund` taken from its available collateral.
pub open spec fn order_after_cancel(pre: OrderBook, post: OrderBook, refund: u64) -> bool {
    &&& post.is_active == false
    &&& post.available_collaleral_amt == pre.available_collaleral_amt - refund
    &&& post.order_id == pre.order_id
    &&& post.create_id == pre.create_id
    &&& post.offer_type == pre.offer_type
    &&& post.user == pre.user
    &&& post.collateral == pre.collateral
    &&& post.order_creator == pre.order_creator
    &&& post.point == pre.point
    &&& post.point_price == pre.point_price
    &&& post.collateral_amt == pre.collateral_amt
    &&& post.total_filled_collater_amt == pre.total_filled_collater_amt
    &&& post.total_filled_points == pre.total_filled_points
    &&& post.available_filled_collateral_amt == pre.available_filled_collateral_amt
    &&& post.is_partial == pre.is_partial
    &&& post.settled == pre.settled
    &&& post.user_list@ == pre.user_list@
}

/// Cancels the order `order_id` of token `create_id`.
///
/// An inactive order is refused with `OrderInActive`. An active order whose
/// refund, `cancel_refund`, exceeds its available collateral is refused
/// with `InsufficentOrder`. Otherwise the order closes, the refund leaves
/// its available collateral, and the refund is sent to the signer. A
/// refused request changes nothing.
pub fn process_cancel_order(ctx: &mut CancelOrder, create_id: u64, order_id: u64) -> (r: Result<CancelOutcome, MarketError>)
    requires
        old(ctx).order_account_details.is_active ==> cancel_fits(old(ctx).order_account_details),
    ensures
        cancel_refusal(old(ctx).order_account_details) matches Some(c) ==> {
            &&& r == Err::<CancelOutcome, MarketError>(MarketError::Code(c))
            &&& *final(ctx) == *old(ctx)
        },
        cancel_refusal(old(ctx).order_account_details) is None ==> {
            let refund = cancel_refund(old(ctx).order_account_details) as u64;
            &&& r == Ok::<CancelOutcome, MarketError>(CancelOutcome {
                transfer: TokenTransfer {
                    route: TransferRoute::OrderToSigner,
                    amount: refund,
                    decimals: old(ctx).mint.decimals,
                },
                event: OrderCancelled {
                    create_id,
                    order_id,
                    maker: old(ctx).signer,
                    refund,
                },
            })
            &&& order_after_cancel(old(ctx).order_account_details, final(ctx).order_account_details, refund)
            &&& final(ctx).signer == old(ctx).signer
            &&& final(ctx).mint == old(ctx).mint
        },
        !old(ctx).order_account_details.is_active
            ==> r == Err::<CancelOutcome, MarketError>(MarketError::Code(ErrorCodes::OrderInActive)),
        ({
            let pre = old(ctx).order_account_details;
            pre.is_active && (pre.point - pre.total_filled_points) * pre.point_price
                < (pre.available_collaleral_amt + 1) * 10000
        }) ==> r is Ok,
        ({
            let pre = old(ctx).order_account_details;
            pre.is_active && (pre.point - pre.total_filled_points) * pre.point_price
                >= (pre.available_collaleral_amt + 1) * 10000
        }) ==> r == Err::<CancelOutcome, MarketError>(MarketError::Code(ErrorCodes::InsufficentOrder)),
        r is Ok ==> {
            let pre = old(ctx).order_account_details;
            let post = final(ctx).order_account_details;
            let refund = r->Ok_0.transfer.amount;
            &&& refund * 10000 <= (pre.point - pre.total_filled_points) * pre.point_price
            &&& (pre.point - pre.total_filled_points) * pre.point_price < (refund + 1) * 10000
            &&& r->Ok_0.event.refund == refund
            &&& post.available_collaleral_amt + refund == pre.available_collaleral_amt
            &&& !post.is_active
        },
{
    if !ctx.order_account_details.is_active {
        return Err(MarketError::Code(ErrorCodes::OrderInActive));
    }
    let order = &mut ctx.order_account_details;
    let remaining_amount = order.point - order.total_filled_points;
    let remaining_collateral = remaining_amount * order.point_price / 10000;
    if remaining_collateral > order.available_collaleral_amt {
        return Err(MarketError::Code(ErrorCodes::InsufficentOrder));
    }
    order.is_active = false;
    order.available_collaleral_amt = order.available_collaleral_amt - remaining_collateral;

    Ok(CancelOutcome {
        transfer: TokenTransfer {
            route: TransferRoute::OrderToSigner,
            amount: remaining_collateral,
            decimals: ctx.mint.decimals,
        },
        event: OrderCancelled {
            create_id,
            order_id,
            maker: ctx.signer,
            refund: remaining_collateral,
        },
    })
}

} // verus!
