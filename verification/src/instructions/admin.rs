use vstd::prelude::*;

use crate::clock::clock_unix_timestamp;
use crate::error::{ErrorCodes, MarketError};
use crate::events::{TokenDetailsCreated, TokenFulfillTimeSet};
use crate::key::Pubkey;
use crate::state::{MarketIds, TokenDetails, TokenStage};

verus! {

/// The accounts that registering a token, or fixing its settlement terms,
/// reads and writes.
pub struct CreateToken {
    /// The user who registers the token.
    pub signer: Pubkey,
    /// The market's id counters.
    pub id_account: MarketIds,
    /// The token's details.
    pub token_details_account: TokenDetails,
}

/// `post` holds the details of a token named `token_name`, `token_symbol`,
/// registered by `pre.signer` under the id `pre.id_account.create_id`, not
/// yet trading, with no address, value or settlement times; the create
/// counter has moved on by one.
pub open spec fn token_registered(pre: CreateToken, post: CreateToken, token_name: Seq<char>, token_symbol: Seq<char>) -> bool {
    let d = post.token_details_account;
    &&& d.token_name@ == token_name
    &&& d.token_symbol@ == token_symbol
    &&& d.token_address.spec_is_default()
    &&& d.creator == pre.signer
    &&& d.creator_id == pre.id_account.create_id
    &&& d.total_val == 0
    &&& d.start_settle_time == 0
    &&& d.end_settle_time == 0
    &&& d.is_trading == false
    &&& d.stage == TokenStage::Trading
    &&& d.order_list@ == pre.token_details_account.order_list@
    &&& post.id_account.create_id == pre.id_account.create_id + 1
    &&& post.id_account.order_id == pre.id_account.order_id
    &&& post.signer == pre.signer
}

/// Registers a token named `token_name` with symbol `token_symbol`.
///
/// A details account that is already trading is refused with
/// `AlreadyExists` and nothing changes. Otherwise the details are filled in
/// as `token_registered` says, and the event carries the name, the symbol
/// and the token's id.
pub fn process_token(ctx: &mut CreateToken, token_name: String, token_symbol: String) -> (r: Result<TokenDetailsCreated, MarketError>)
    requires
        !old(ctx).token_details_account.is_trading ==> old(ctx).id_account.create_id < u64::MAX,
    ensures
        old(ctx).token_details_account.is_trading ==> {
            &&& r == Err::<TokenDetailsCreated, MarketError>(MarketError::Code(ErrorCodes::AlreadyExists))
            &&& *final(ctx) == *old(ctx)
        },
        !old(ctx).token_details_account.is_trading ==> {
            &&& r is Ok
            &&& r->Ok_0.token_name@ == token_name@
            &&& r->Ok_0.token_symbol@ == token_symbol@
            &&& r->Ok_0.creator_id == old(ctx).id_account.create_id
            &&& token_registered(*old(ctx), *final(ctx), token_name@, token_symbol@)
            &&& final(ctx).token_details_account.creator_id == old(ctx).id_account.create_id
            &&& final(ctx).id_account.create_id == old(ctx).id_account.create_id + 1
            &&& !final(ctx).token_details_account.is_trading
            &&& final(ctx).token_details_account.stage == TokenStage::Trading
            &&& final(ctx).token_details_account.token_name@ == token_name@
            &&& final(ctx).token_details_account.token_symbol@ == token_symbol@
        },
{
    if ctx.token_details_account.is_trading {
        return Err(MarketError::Code(ErrorCodes::AlreadyExists));
    }
    let creator_id_value = ctx.id_account.create_id;
    let event = TokenDetailsCreated {
        token_name: token_name.clone(),
        token_symbol: token_symbol.clone(),
        creator_id: creator_id_value,
    };

    let acct = &mut ctx.token_details_account;
    acct.token_name = token_name;
    acct.token_symbol = token_symbol;
    acct.token_address = Pubkey::default_key();
    acct.creator = ctx.signer;
    acct.creator_id = creator_id_value;
    acct.total_val = 0;
    acct.start_settle_time = 0;
    acct.end_settle_time = 0;
    acct.is_trading = false;
    acct.stage = TokenStage::Trading;

    ctx.id_account.create_id = ctx.id_account.create_id + 1;

    Ok(event)
}

/// The refusal, if any, that fixing the settlement terms of `details` to
/// `token_id`, `token_price` and `end_time` meets at clock time `now`, in
/// the order in which the checks are made. The clock time is read as an
/// unsigned number of seconds.
pub open spec fn full_fill_refusal(details: TokenDetails, token_id: Pubkey, token_price: u64, end_time: u64, now: i64) -> Option<ErrorCodes> {
    if !details.is_trading {
        Some(ErrorCodes::NotRegisterTokens)
    } else if token_id.spec_is_default() {
        Some(ErrorCodes::InvalidTokenAddress)
    } else if end_time <= (now as u64) {
        Some(ErrorCodes::InvalidEndTime)
    } else if token_price == 0 {
        Some(ErrorCodes::InvalidPrice)
    } else {
        None
    }
}

/// `post` is `pre` with the token's stage at `FullFilled`, its settlement
/// end time, value and address set.
pub open spec fn terms_fixed(pre: CreateToken, post: CreateToken, token_id: Pubkey, token_price: u64, end_time: u64) -> bool {
    let p = pre.token_details_account;
    let d = post.token_details_account;
    &&& d.stage == TokenStage::FullFilled
    &&& d.end_settle_time == end_time
    &&& d.total_val == token_price
    &&& d.token_address == token_id
    &&& d.token_name@ == p.token_name@
    &&& d.token_symbol@ == p.token_symbol@
    &&& d.creator_id == p.creator_id
    &&& d.creator == p.creator
    &&& d.start_settle_time == p.start_settle_time
    &&& d.is_trading == p.is_trading
    &&& d.order_list@ == p.order_list@
    &&& post.id_account == pre.id_account
    &&& post.signer == pre.signer
}

/// The event that fixing the settlement terms announces.
pub open spec fn terms_event(pre: CreateToken, token_id: Pubkey, token_price: u64, end_time: u64) -> TokenFulfillTimeSet {
    TokenFulfillTimeSet {
        order_id: pre.token_details_account.creator_id,
        token_id,
        token_price,
        end_time,
    }
}

/// Fixes the settlement terms of a token at clock time `now`.
///
/// The request is refused with the first of `full_fill_refusal` that
/// applies, and then nothing changes; otherwise the details change as
/// `terms_fixed` says and the event is handed back.
pub fn apply_full_fill_order(ctx: &mut CreateToken, token_id: Pubkey, token_price: u64, end_time: u64, now: i64) -> (r: Result<TokenFulfillTimeSet, MarketError>)
    ensures
        full_fill_refusal(old(ctx).token_details_account, token_id, token_price, end_time, now) matches Some(c) ==> {
            &&& r == Err::<TokenFulfillTimeSet, MarketError>(MarketError::Code(c))
            &&& *final(ctx) == *old(ctx)
        },
        full_fill_refusal(old(ctx).token_details_account, token_id, token_price, end_time, now) is None ==> {
            &&& r == Ok::<TokenFulfillTimeSet, MarketError>(terms_event(*old(ctx), token_id, token_price, end_time))
            &&& terms_fixed(*old(ctx), *final(ctx), token_id, token_price, end_time)
        },
        old(ctx).token_details_account.is_trading && !token_id.spec_is_default() && end_time > (now as u64)
            && token_price != 0 ==> r is Ok,
        r matches Err(e) ==> {
            ||| e == MarketError::Code(ErrorCodes::NotRegisterTokens) && !old(ctx).token_details_account.is_trading
            ||| e == MarketError::Code(ErrorCodes::InvalidTokenAddress) && token_id.spec_is_default()
            ||| e == MarketError::Code(ErrorCodes::InvalidEndTime) && end_time <= (now as u64)
            ||| e == MarketError::Code(ErrorCodes::InvalidPrice) && token_price == 0
        },
        r is Ok ==> {
            let post = final(ctx).token_details_account;
            &&& post.stage == TokenStage::FullFilled
            &&& post.total_val == token_price
            &&& post.end_settle_time == end_time
            &&& post.token_address == token_id
            &&& r->Ok_0 == (TokenFulfillTimeSet {
                order_id: old(ctx).token_details_account.creator_id,
                token_id,
                token_price,
                end_time,
            })
        },
{
    if !ctx.token_details_account.is_trading {
        return Err(MarketError::Code(ErrorCodes::NotRegisterTokens));
    }
    if token_id.is_default() {
        return Err(MarketError::Code(ErrorCodes::InvalidTokenAddress));
    }
    let current_time = now as u64;
    if end_time <= current_time {
        return Err(MarketError::Code(ErrorCodes::InvalidEndTime));
    }
    if token_price == 0 {
        return Err(MarketError::Code(ErrorCodes::InvalidPrice));
    }
    let acc = &mut ctx.token_details_account;
    let order_id = acc.creator_id;
    acc.stage = TokenStage::FullFilled;
    acc.end_settle_time = end_time;
    acc.total_val = token_price;
    acc.token_address = token_id;
    Ok(TokenFulfillTimeSet { order_id, token_id, token_price, end_time })
}

/// Fixes the settlement terms of a token: its address `token_id`, its
/// price `token_price` and the end `end_time` of its settlement, reading
/// the clock for the current time.
///
/// A token that is not trading is refused with `NotRegisterTokens`, and
/// the default address with `InvalidTokenAddress`, before the clock is
/// read. After that, the request fails with the clock's error, or is
/// refused with `InvalidEndTime` or `InvalidPrice` as `full_fill_refusal`
/// says of the clock time read, or succeeds as `terms_fixed` says. A
/// refused or failed request changes nothing.
pub fn process_full_fill_order(ctx: &mut CreateToken, token_id: Pubkey, token_price: u64, end_time: u64) -> (r: Result<TokenFulfillTimeSet, MarketError>)
    ensures
        !old(ctx).token_details_account.is_trading
            ==> r == Err::<TokenFulfillTimeSet, MarketError>(MarketError::Code(ErrorCodes::NotRegisterTokens)),
        old(ctx).token_details_account.is_trading && token_id.spec_is_default()
            ==> r == Err::<TokenFulfillTimeSet, MarketError>(MarketError::Code(ErrorCodes::InvalidTokenAddress)),
        r is Err ==> *final(ctx) == *old(ctx),
        r is Err && !(r->Err_0 is Program) ==> exists|now: i64|
            #[trigger] full_fill_refusal(old(ctx).token_details_account, token_id, token_price, end_time, now)
                == Some(r->Err_0->Code_0),
        r is Err && r->Err_0 is Program ==> old(ctx).token_details_account.is_trading && !token_id.spec_is_default(),
        r is Ok ==> {
            &&& exists|now: i64| #[trigger] full_fill_refusal(old(ctx).token_details_account, token_id, token_price, end_time, now) is None
            &&& r->Ok_0 == terms_event(*old(ctx), token_id, token_price, end_time)
            &&& terms_fixed(*old(ctx), *final(ctx), token_id, token_price, end_time)
        },
{
    if !ctx.token_details_account.is_trading {
        assert(full_fill_refusal(ctx.token_details_account, token_id, token_price, end_time, 0) is Some);
        return Err(MarketError::Code(ErrorCodes::NotRegisterTokens));
    }
    if token_id.is_default() {
        assert(full_fill_refusal(ctx.token_details_account, token_id, token_price, end_time, 0) is Some);
        return Err(MarketError::Code(ErrorCodes::InvalidTokenAddress));
    }
    let now = match clock_unix_timestamp() {
        Ok(t) => t,
        Err(e) => {
            return Err(MarketError::Program(e));
        },
    };
    apply_full_fill_order(ctx, token_id, token_price, end_time, now)
}

} // verus!
