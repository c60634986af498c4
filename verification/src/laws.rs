//! Properties of the market that span its instructions.

use vstd::prelude::*;

use crate::error::ErrorCodes;
use crate::instructions::admin::{full_fill_refusal, terms_fixed, token_registered, CreateToken};
use crate::instructions::cancel::{cancel_refund, cancel_refusal, order_after_cancel};
use crate::instructions::fillorder::{fill_refusal, order_after_fill};
use crate::transfer::collateral_for;
use crate::instructions::offers::{order_placed, CreateOrder};
use crate::key::Pubkey;
use crate::state::{OrderBook, TokenStage};

verus! {

/// Tokens registered one after the other through the same id account get
/// consecutive, hence distinct, ids.
pub proof fn lemma_registration_ids_consecutive(
    pre1: CreateToken,
    post1: CreateToken,
    name1: Seq<char>,
    symbol1: Seq<char>,
    pre2: CreateToken,
    post2: CreateToken,
    name2: Seq<char>,
    symbol2: Seq<char>,
)
    requires
        token_registered(pre1, post1, name1, symbol1),
        pre2.id_account == post1.id_account,
        token_registered(pre2, post2, name2, symbol2),
    ensures
        post2.token_details_account.creator_id == post1.token_details_account.creator_id + 1,
        post1.token_details_account.creator_id != post2.token_details_account.creator_id,
        post2.id_account.create_id == pre1.id_account.create_id + 2,
{
}

/// A token that is not trading cannot have its settlement terms fixed:
/// the request is refused with `NotRegisterTokens`, whatever the address,
/// price, end time and clock.
pub proof fn lemma_not_trading_terms_refused(
    ctx: CreateToken,
    token_id: Pubkey,
    token_price: u64,
    end_time: u64,
    now: i64,
)
    requires
        !ctx.token_details_account.is_trading,
    ensures
        full_fill_refusal(ctx.token_details_account, token_id, token_price, end_time, now)
            == Some(ErrorCodes::NotRegisterTokens),
{
}

/// Registering a token leaves it not trading, so the settlement terms of a
/// token just registered can never be fixed.
pub proof fn lemma_registered_token_terms_refused(
    pre: CreateToken,
    post: CreateToken,
    name: Seq<char>,
    symbol: Seq<char>,
    token_id: Pubkey,
    token_price: u64,
    end_time: u64,
    now: i64,
)
    requires
        token_registered(pre, post, name, symbol),
    ensures
        !post.token_details_account.is_trading,
        full_fill_refusal(post.token_details_account, token_id, token_price, end_time, now)
            == Some(ErrorCodes::NotRegisterTokens),
{
}

/// Placing an order on a token keeps the token's trading flag.
pub proof fn lemma_placement_keeps_trading_flag(
    pre: CreateOrder,
    post: CreateOrder,
    point_amount: u64,
    point_price: u64,
    create_id: u64,
    is_partial: bool,
)
    requires
        order_placed(pre, post, point_amount, point_price, create_id, is_partial),
    ensures
        post.token_details_account.is_trading == pre.token_details_account.is_trading,
{
}

/// Fixing a token's settlement terms keeps the token's trading flag; with
/// registration, which clears it, no instruction ever starts a token
/// trading.
pub proof fn lemma_terms_keep_trading_flag(
    pre: CreateToken,
    post: CreateToken,
    token_id: Pubkey,
    token_price: u64,
    end_time: u64,
)
    requires
        terms_fixed(pre, post, token_id, token_price, end_time),
    ensures
        post.token_details_account.is_trading == pre.token_details_account.is_trading,
{
}

/// Each placement adds the order counter to itself, so the counter that
/// set-up leaves at zero stays zero, and every order placed gets the id 0.
pub proof fn lemma_order_ids_stay_zero(
    pre: CreateOrder,
    post: CreateOrder,
    point_amount: u64,
    point_price: u64,
    create_id: u64,
    is_partial: bool,
)
    requires
        order_placed(pre, post, point_amount, point_price, create_id, is_partial),
        pre.id_account.order_id == 0,
    ensures
        post.id_account.order_id == 0,
        post.order_account_details.order_id == 0,
{
}

/// Placing an order does not activate it: an order placed on an account
/// that was not active is refused by cancellation with `OrderInActive`.
pub proof fn lemma_placed_order_not_cancellable(
    pre: CreateOrder,
    post: CreateOrder,
    point_amount: u64,
    point_price: u64,
    create_id: u64,
    is_partial: bool,
)
    requires
        order_placed(pre, post, point_amount, point_price, create_id, is_partial),
        !pre.order_account_details.is_active,
    ensures
        !post.order_account_details.is_active,
        cancel_refusal(post.order_account_details) == Some(ErrorCodes::OrderInActive),
{
}

/// A fill never makes an inactive order active.
pub proof fn lemma_fill_never_activates(pre: OrderBook, post: OrderBook, amount: u64, user_key: Pubkey)
    requires
        order_after_fill(pre, post, amount, user_key),
    ensures
        post.is_active ==> pre.is_active,
{
}

/// A fill that brings the filled points up to the order's points closes the
/// order, after which cancelling it is refused with `OrderInActive`.
pub proof fn lemma_full_fill_closes(pre: OrderBook, post: OrderBook, amount: u64, user_key: Pubkey)
    requires
        order_after_fill(pre, post, amount, user_key),
        post.total_filled_points >= pre.point,
    ensures
        !post.is_active,
        cancel_refusal(post) == Some(ErrorCodes::OrderInActive),
{
}

/// A cancellation cannot be repeated: once cancelled, an order is refused
/// by a second cancellation with `OrderInActive`.
pub proof fn lemma_cancel_not_repeatable(pre: OrderBook, post: OrderBook, refund: u64)
    requires
        order_after_cancel(pre, post, refund),
    ensures
        cancel_refusal(post) == Some(ErrorCodes::OrderInActive),
{
}

/// One fill or cancellation of an order, moving `delta` of collateral into
/// the order (a fill, which moves the collateral its points are worth) or
/// out of it (a cancellation, which moves minus its refund).
pub open spec fn ledger_step(pre: OrderBook, post: OrderBook, delta: int) -> bool {
    ||| exists|amount: u64, user_key: Pubkey|
        #[trigger] order_after_fill(pre, post, amount, user_key)
            && delta == collateral_for(amount, pre.point_price)
    ||| exists|refund: u64| #[trigger] order_after_cancel(pre, post, refund) && delta == -refund
}

/// `states` runs through fills and cancellations, step `i` moving
/// `deltas[i]` of collateral.
pub open spec fn ledger_run(states: Seq<OrderBook>, deltas: Seq<int>) -> bool {
    &&& states.len() == deltas.len() + 1
    &&& forall|i: int| 0 <= i < deltas.len() ==> ledger_step(#[trigger] states[i], states[i + 1], deltas[i])
}

/// The sum of `deltas`.
pub open spec fn net_moved(deltas: Seq<int>) -> int
    decreases deltas.len(),
{
    if deltas.len() == 0 {
        0
    } else {
        net_moved(deltas.drop_last()) + deltas.last()
    }
}

/// Over any run of fills and cancellations, the collateral an order holds
/// available is what it held at the start, plus what the fills paid in,
/// minus what the cancellations refunded.
pub proof fn lemma_available_collateral_ledger(states: Seq<OrderBook>, deltas: Seq<int>)
    requires
        ledger_run(states, deltas),
    ensures
        states.last().available_collaleral_amt == states[0].available_collaleral_amt + net_moved(deltas),
    decreases deltas.len(),
{
    if deltas.len() > 0 {
        let n = deltas.len() - 1;
        let prefix = states.drop_last();
        assert(ledger_run(prefix, deltas.drop_last())) by {
            assert forall|i: int| 0 <= i < deltas.drop_last().len() implies ledger_step(
                #[trigger] prefix[i],
                prefix[i + 1],
                deltas.drop_last()[i],
            ) by {
                assert(ledger_step(states[i], states[i + 1], deltas[i]));
            }
        }
        lemma_available_collateral_ledger(prefix, deltas.drop_last());
        assert(ledger_step(states[n], states[n + 1], deltas[n]));
        assert(states.last() == states[n + 1]);
        assert(prefix.last() == states[n]);
    }
}

/// The collateral of `points` points at `price` ten-thousandths is the
/// whole number of units they are worth, rounded down, whenever that
/// number fits in 64 bits.
pub proof fn lemma_collateral_is_rounded_down_worth(points: u64, price: u64)
    requires
        points * price < 10000 * 0x1_0000_0000_0000_0000,
    ensures
        collateral_for(points, price) * 10000 <= points * price,
        points * price < (collateral_for(points, price) + 1) * 10000,
{
}

/// There is at most one default address: any two addresses that are
/// default are equal.
pub proof fn lemma_default_key_unique(k1: Pubkey, k2: Pubkey)
    ensures
        k1.spec_is_default() && k2.spec_is_default() ==> k1 == k2,
{
    broadcast use vstd::array::group_array_axioms;
    if k1.spec_is_default() && k2.spec_is_default() {
        assert(k1.bytes =~= k2.bytes) by {
            assert forall|i: int| 0 <= i < 32 implies k1.bytes[i] == k2.bytes[i] by {
                assert(k1.bytes@[i] == 0u8);
                assert(k2.bytes@[i] == 0u8);
            }
        }
    }
}

/// A fill leaves the order active exactly when it was active and its
/// filled points, counting this fill once, are still below its points; the
/// filled points grow by the amount filled.
pub proof fn lemma_fill_keeps_active_below_points(pre: OrderBook, post: OrderBook, amount: u64, user_key: Pubkey)
    requires
        order_after_fill(pre, post, amount, user_key),
    ensures
        post.is_active == (pre.is_active && pre.total_filled_points + amount < pre.point),
        post.total_filled_points == pre.total_filled_points + amount,
        post.available_collaleral_amt == pre.available_collaleral_amt + collateral_for(amount, pre.point_price),
        post.user_list@.len() == pre.user_list@.len() + 1,
{
}

/// A fill is refused exactly when the order account carries another id, and
/// then with `InvalidOrderId`.
pub proof fn lemma_fill_refused_only_for_wrong_id(order: OrderBook, order_id: u64)
    ensures
        fill_refusal(order, order_id) is None <==> order.order_id == order_id,
        fill_refusal(order, order_id) is Some ==> fill_refusal(order, order_id) == Some(ErrorCodes::InvalidOrderId),
{
}

/// The refund of a cancellation is the worth of the unfilled points,
/// rounded down, whether or not the order is partial: it depends on the
/// points, the filled points and the price alone.
pub proof fn lemma_cancel_refund_is_unfilled_worth(order: OrderBook, other: OrderBook)
    requires
        order.total_filled_points <= order.point,
    ensures
        cancel_refund(order) * 10000 <= (order.point - order.total_filled_points) * order.point_price,
        (order.point - order.total_filled_points) * order.point_price < (cancel_refund(order) + 1) * 10000,
        other.point == order.point && other.total_filled_points == order.total_filled_points
            && other.point_price == order.point_price ==> cancel_refund(other) == cancel_refund(order),
{
}

/// An active order is cancelled whenever its available collateral covers
/// the worth of its unfilled points; it is refused only when it is
/// inactive (`OrderInActive`) or when that worth exceeds its available
/// collateral (`InsufficentOrder`).
pub proof fn lemma_cancel_refused_only_when_inactive_or_short(order: OrderBook)
    requires
        order.total_filled_points <= order.point,
    ensures
        order.is_active && (order.point - order.total_filled_points) * order.point_price
            < (order.available_collaleral_amt + 1) * 10000 ==> cancel_refusal(order) is None,
        cancel_refusal(order) == Some(ErrorCodes::OrderInActive) <==> !order.is_active,
        cancel_refusal(order) == Some(ErrorCodes::InsufficentOrder) <==> (order.is_active
            && (order.point - order.total_filled_points) * order.point_price
            >= (order.available_collaleral_amt + 1) * 10000),
{
}

/// A cancellation closes the order and takes the refund out of its
/// available collateral, leaving its fills as they were.
pub proof fn lemma_cancel_takes_refund(pre: OrderBook, post: OrderBook, refund: u64)
    requires
        order_after_cancel(pre, post, refund),
    ensures
        !post.is_active,
        post.available_collaleral_amt + refund == pre.available_collaleral_amt,
        post.total_filled_points == pre.total_filled_points,
        post.point == pre.point,
{
}

/// Fixing a token's settlement terms is refused only for the four reasons
/// checked: not trading, the default address, an end time not after the
/// clock, or a zero price. Any other request is accepted, whatever stage
/// the token is in.
pub proof fn lemma_terms_refused_only_for_checked_reasons(
    ctx: CreateToken,
    token_id: Pubkey,
    token_price: u64,
    end_time: u64,
    now: i64,
)
    ensures
        ctx.token_details_account.is_trading && !token_id.spec_is_default() && end_time > (now as u64)
            && token_price != 0 ==> full_fill_refusal(ctx.token_details_account, token_id, token_price, end_time, now) is None,
        full_fill_refusal(ctx.token_details_account, token_id, token_price, end_time, now) matches Some(c) ==> {
            ||| c == ErrorCodes::NotRegisterTokens && !ctx.token_details_account.is_trading
            ||| c == ErrorCodes::InvalidTokenAddress && token_id.spec_is_default()
            ||| c == ErrorCodes::InvalidEndTime && end_time <= (now as u64)
            ||| c == ErrorCodes::InvalidPrice && token_price == 0
        },
{
}

/// Fixing terms sets the stage to `FullFilled` and records the price, the
/// end time and the address given.
pub proof fn lemma_terms_recorded(pre: CreateToken, post: CreateToken, token_id: Pubkey, token_price: u64, end_time: u64)
    requires
        terms_fixed(pre, post, token_id, token_price, end_time),
    ensures
        post.token_details_account.stage == TokenStage::FullFilled,
        post.token_details_account.total_val == token_price,
        post.token_details_account.end_settle_time == end_time,
        post.token_details_account.token_address == token_id,
{
}

/// Placing an order records the seller's partial-fill choice, the current
/// order id, the seller and the mint, and doubles the order counter.
pub proof fn lemma_placement_records_request(
    pre: CreateOrder,
    post: CreateOrder,
    point_amount: u64,
    point_price: u64,
    create_id: u64,
    is_partial: bool,
)
    requires
        order_placed(pre, post, point_amount, point_price, create_id, is_partial),
    ensures
        post.order_account_details.is_partial == is_partial,
        post.order_account_details.order_id == pre.id_account.order_id,
        post.order_account_details.create_id == create_id,
        post.order_account_details.order_creator == pre.signer,
        post.order_account_details.collateral == pre.mint.key,
        post.id_account.order_id == 2 * pre.id_account.order_id,
        post.token_details_account.order_list@.len() == pre.token_details_account.order_list@.len() + 1,
        post.token_details_account.order_list@.last() == pre.order_account_key,
{
}

/// Registering a token gives it the current create id, moves the counter
/// on by one, and leaves the token not trading at stage `Trading`.
pub proof fn lemma_registration_records(pre: CreateToken, post: CreateToken, name: Seq<char>, symbol: Seq<char>)
    requires
        token_registered(pre, post, name, symbol),
    ensures
        post.token_details_account.creator_id == pre.id_account.create_id,
        post.id_account.create_id == pre.id_account.create_id + 1,
        !post.token_details_account.is_trading,
        post.token_details_account.stage == TokenStage::Trading,
        post.token_details_account.token_name@ == name,
        post.token_details_account.creator == pre.signer,
{
}

} // verus!
