use anchor_lang::prelude::ProgramError;
use pre_market::error::{ErrorCodes, MarketError};
use pre_market::events::{OrderCancelled, OrderFilled, TokenFulfillTimeSet};
use pre_market::instructions::admin::{apply_full_fill_order, process_full_fill_order, process_token, CreateToken};
use pre_market::instructions::cancel::{process_cancel_order, CancelOrder};
use pre_market::instructions::fillorder::{process_user_order, User};
use pre_market::instructions::init::{process_init, MakerId};
use pre_market::instructions::offers::{apply_order, process_order, CreateOrder};
use pre_market::instructions::settle::{process_settle_order, SettleOrdered};
use pre_market::key::Pubkey;
use pre_market::state::{MarketIds, MintInfo, OfferType, OrderBook, TokenDetails, TokenStage, Users};
use pre_market::transfer::{collateral_amount, TokenTransfer, TransferRoute};

fn key(b: u8) -> Pubkey {
    Pubkey { bytes: [b; 32] }
}

fn fresh_details() -> TokenDetails {
    TokenDetails {
        token_name: String::new(),
        token_symbol: String::new(),
        token_address: key(0),
        creator_id: 0,
        creator: key(0),
        total_val: 0,
        start_settle_time: 0,
        end_settle_time: 0,
        is_trading: false,
        stage: TokenStage::Trading,
        order_list: Vec::new(),
    }
}

fn fresh_order() -> OrderBook {
    OrderBook {
        order_id: 0,
        create_id: 0,
        offer_type: OfferType::SELL,
        user: key(0),
        collateral: key(0),
        order_creator: key(0),
        point: 0,
        point_price: 0,
        collateral_amt: 0,
        total_filled_collater_amt: 0,
        total_filled_points: 0,
        available_collaleral_amt: 0,
        available_filled_collateral_amt: 0,
        is_partial: false,
        is_active: false,
        settled: false,
        user_list: Vec::new(),
    }
}

fn fresh_user() -> Users {
    Users { user_account: key(0), collect_point: 0, collerateral_amount: 0, order_id: 0, create_id: 0, is_buyer: false }
}

fn mint() -> MintInfo {
    MintInfo { key: key(7), decimals: 6 }
}

#[test]
fn init_sets_counters_to_zero() {
    let mut ctx = MakerId { id_account: MarketIds { create_id: 9, order_id: 4 } };
    assert_eq!(process_init(&mut ctx), Ok(()));
    assert_eq!(ctx.id_account, MarketIds { create_id: 0, order_id: 0 });
}

#[test]
fn collateral_formula() {
    assert_eq!(collateral_amount(100, 250), 2);
    assert_eq!(collateral_amount(10_000, 3), 3);
    assert_eq!(collateral_amount(9_999, 1), 0);
    assert_eq!(collateral_amount(0, u64::MAX), 0);
    // The product is taken in 128 bits and the quotient cut to its low 64 bits.
    let full: u128 = (u64::MAX as u128) * (u64::MAX as u128) / 10_000;
    assert_eq!(collateral_amount(u64::MAX, u64::MAX), full as u64);
}

#[test]
fn token_registration() {
    let mut ctx = CreateToken {
        signer: key(1),
        id_account: MarketIds { create_id: 5, order_id: 0 },
        token_details_account: fresh_details(),
    };
    let ev = process_token(&mut ctx, "Apple".to_string(), "APL".to_string()).unwrap();
    assert_eq!(ev.token_name, "Apple");
    assert_eq!(ev.token_symbol, "APL");
    assert_eq!(ev.creator_id, 5);
    let d = &ctx.token_details_account;
    assert_eq!(d.token_name, "Apple");
    assert_eq!(d.token_symbol, "APL");
    assert_eq!(d.creator, key(1));
    assert_eq!(d.creator_id, 5);
    assert_eq!(d.token_address, key(0));
    assert!(!d.is_trading);
    assert_eq!(d.stage, TokenStage::Trading);
    assert_eq!(ctx.id_account.create_id, 6);
}

#[test]
fn registration_ids_are_consecutive() {
    let ids = MarketIds { create_id: 0, order_id: 0 };
    let mut a = CreateToken { signer: key(1), id_account: ids, token_details_account: fresh_details() };
    process_token(&mut a, "A".to_string(), "A".to_string()).unwrap();
    let mut b = CreateToken { signer: key(2), id_account: a.id_account, token_details_account: fresh_details() };
    process_token(&mut b, "B".to_string(), "B".to_string()).unwrap();
    assert_eq!(a.token_details_account.creator_id, 0);
    assert_eq!(b.token_details_account.creator_id, 1);
    assert_eq!(b.id_account.create_id, 2);
}

#[test]
fn registration_refused_when_trading() {
    let mut details = fresh_details();
    details.is_trading = true;
    let mut ctx = CreateToken { signer: key(1), id_account: MarketIds { create_id: 3, order_id: 0 }, token_details_account: details.clone() };
    let r = process_token(&mut ctx, "X".to_string(), "X".to_string());
    assert_eq!(r, Err(MarketError::Code(ErrorCodes::AlreadyExists)));
    assert_eq!(ctx.token_details_account, details);
    assert_eq!(ctx.id_account.create_id, 3);
}

fn trading_token() -> CreateToken {
    let mut details = fresh_details();
    details.is_trading = true;
    details.creator_id = 11;
    CreateToken { signer: key(1), id_account: MarketIds { create_id: 12, order_id: 0 }, token_details_account: details }
}

#[test]
fn fixing_terms_succeeds() {
    let mut ctx = trading_token();
    let r = apply_full_fill_order(&mut ctx, key(9), 500, 2_000, 1_000);
    assert_eq!(r, Ok(TokenFulfillTimeSet { order_id: 11, token_id: key(9), token_price: 500, end_time: 2_000 }));
    let d = &ctx.token_details_account;
    assert_eq!(d.stage, TokenStage::FullFilled);
    assert_eq!(d.end_settle_time, 2_000);
    assert_eq!(d.total_val, 500);
    assert_eq!(d.token_address, key(9));
}

#[test]
fn fixing_terms_refusals_in_order() {
    let mut ctx = CreateToken { signer: key(1), id_account: MarketIds { create_id: 0, order_id: 0 }, token_details_account: fresh_details() };
    assert_eq!(apply_full_fill_order(&mut ctx, key(0), 0, 0, 5), Err(MarketError::Code(ErrorCodes::NotRegisterTokens)));
    let mut ctx = trading_token();
    assert_eq!(apply_full_fill_order(&mut ctx, key(0), 0, 0, 5), Err(MarketError::Code(ErrorCodes::InvalidTokenAddress)));
    assert_eq!(apply_full_fill_order(&mut ctx, key(9), 0, 5, 5), Err(MarketError::Code(ErrorCodes::InvalidEndTime)));
    assert_eq!(apply_full_fill_order(&mut ctx, key(9), 0, 6, 5), Err(MarketError::Code(ErrorCodes::InvalidPrice)));
    assert_eq!(ctx.token_details_account, trading_token().token_details_account);
}

#[test]
fn fixing_terms_negative_clock_reads_as_huge() {
    // A negative clock time, read as unsigned, lies after every end time.
    let mut ctx = trading_token();
    assert_eq!(apply_full_fill_order(&mut ctx, key(9), 1, u64::MAX - 1, -1), Err(MarketError::Code(ErrorCodes::InvalidEndTime)));
}

#[test]
fn fixing_terms_of_registered_token_refused() {
    let mut ctx = CreateToken { signer: key(1), id_account: MarketIds { create_id: 0, order_id: 0 }, token_details_account: fresh_details() };
    process_token(&mut ctx, "A".to_string(), "A".to_string()).unwrap();
    assert_eq!(process_full_fill_order(&mut ctx, key(9), 10, 10), Err(MarketError::Code(ErrorCodes::NotRegisterTokens)));
    assert_eq!(apply_full_fill_order(&mut ctx, key(9), 10, 10, 0), Err(MarketError::Code(ErrorCodes::NotRegisterTokens)));
}

#[test]
fn fixing_terms_default_address_before_clock() {
    let mut ctx = trading_token();
    assert_eq!(process_full_fill_order(&mut ctx, key(0), 10, 10), Err(MarketError::Code(ErrorCodes::InvalidTokenAddress)));
}

#[test]
fn fixing_terms_without_a_clock_fails_with_its_error() {
    // Off the chain the clock sysvar cannot be read.
    let mut ctx = trading_token();
    let r = process_full_fill_order(&mut ctx, key(9), 10, u64::MAX);
    assert_eq!(r, Err(MarketError::Program(ProgramError::UnsupportedSysvar)));
    assert_eq!(ctx.token_details_account, trading_token().token_details_account);
}

fn order_ctx(order_id: u64) -> CreateOrder {
    CreateOrder {
        signer: key(3),
        mint: mint(),
        id_account: MarketIds { create_id: 1, order_id },
        token_details_account: fresh_details(),
        order_account_details: fresh_order(),
        order_account_key: key(4),
    }
}

#[test]
fn placing_an_order() {
    let mut ctx = order_ctx(0);
    let p = apply_order(&mut ctx, 20_000, 150, 8, true, 1_700);
    assert_eq!(p.transfer, TokenTransfer { route: TransferRoute::SignerToOrderVault, amount: 300, decimals: 6 });
    assert_eq!(p.event.create_id, 8);
    assert_eq!(p.event.order_id, 0);
    assert_eq!(p.event.user, key(3));
    assert_eq!(p.event.amount, 20_000);
    assert_eq!(p.event.price, 150);
    assert!(p.event.is_partial);
    assert!(p.event.is_buy);
    assert_eq!(p.event.timestamp, 1_700);
    let o = &ctx.order_account_details;
    assert_eq!(o.order_id, 0);
    assert_eq!(o.collateral, key(7));
    assert!(o.is_partial);
    assert_eq!(o.offer_type, OfferType::SELL);
    assert_eq!(o.collateral_amt, 300);
    assert_eq!(o.order_creator, key(3));
    assert_eq!(o.create_id, 8);
    // The points and the price are not recorded, and the order is not activated.
    assert_eq!(o.point, 0);
    assert_eq!(o.point_price, 0);
    assert!(!o.is_active);
    assert_eq!(ctx.id_account.order_id, 0);
    assert_eq!(ctx.token_details_account.order_list, vec![key(4)]);
}

#[test]
fn placing_doubles_the_order_counter() {
    let mut ctx = order_ctx(5);
    let p = apply_order(&mut ctx, 1, 1, 0, false, 0);
    assert_eq!(p.event.order_id, 5);
    assert_eq!(ctx.order_account_details.order_id, 5);
    assert_eq!(ctx.id_account.order_id, 10);
}

#[test]
fn placing_without_a_clock_fails_with_its_error() {
    let mut ctx = order_ctx(0);
    let r = process_order(&mut ctx, 1, 1, 0, false);
    assert_eq!(r, Err(MarketError::Program(ProgramError::UnsupportedSysvar)));
    assert_eq!(ctx.order_account_details, fresh_order());
    assert!(ctx.token_details_account.order_list.is_empty());
}

#[test]
fn negative_timestamp_in_event_wraps() {
    let mut ctx = order_ctx(0);
    let p = apply_order(&mut ctx, 1, 1, 0, false, -1);
    assert_eq!(p.event.timestamp, u64::MAX);
}

fn fill_ctx(order: OrderBook) -> User {
    User { signer: key(5), mint: mint(), user_account: fresh_user(), user_account_key: key(6), order_account_details: order }
}

#[test]
fn filling_an_order() {
    let mut order = fresh_order();
    order.order_id = 2;
    order.point = 1_000;
    order.point_price = 20_000;
    order.is_active = true;
    order.available_collaleral_amt = 7;
    let mut ctx = fill_ctx(order);
    let out = process_user_order(&mut ctx, 300, 1, 2).unwrap();
    assert_eq!(out.transfer, TokenTransfer { route: TransferRoute::SignerToOrderVault, amount: 600, decimals: 6 });
    assert_eq!(out.event, OrderFilled { create_id: 1, order_id: 2, user: key(5), to_be_fill_amt: 300, collerateral_amt: 600 });
    assert_eq!(ctx.user_account, Users { user_account: key(5), collect_point: 300, collerateral_amount: 600, order_id: 2, create_id: 1, is_buyer: true });
    let o = &ctx.order_account_details;
    assert_eq!(o.total_filled_points, 300);
    assert_eq!(o.total_filled_collater_amt, 600);
    assert_eq!(o.available_collaleral_amt, 607);
    assert_eq!(o.user_list, vec![key(6)]);
    assert!(o.is_active);
}

#[test]
fn filling_in_full_closes_the_order() {
    let mut order = fresh_order();
    order.point = 100;
    order.point_price = 10_000;
    order.is_active = true;
    let mut ctx = fill_ctx(order);
    process_user_order(&mut ctx, 100, 0, 0).unwrap();
    assert!(!ctx.order_account_details.is_active);
    let mut cancel = CancelOrder { signer: key(5), mint: mint(), order_account_details: ctx.order_account_details.clone() };
    assert_eq!(process_cancel_order(&mut cancel, 0, 0), Err(MarketError::Code(ErrorCodes::OrderInActive)));
}

#[test]
fn filling_a_buy_order_records_a_seller() {
    let mut order = fresh_order();
    order.offer_type = OfferType::BUY;
    let mut ctx = fill_ctx(order);
    process_user_order(&mut ctx, 1, 0, 0).unwrap();
    assert!(!ctx.user_account.is_buyer);
}

#[test]
fn filling_with_wrong_order_id_refused() {
    let mut order = fresh_order();
    order.order_id = 2;
    let mut ctx = fill_ctx(order.clone());
    assert_eq!(process_user_order(&mut ctx, 5, 0, 3), Err(MarketError::Code(ErrorCodes::InvalidOrderId)));
    assert_eq!(ctx.order_account_details, order);
    assert_eq!(ctx.user_account, fresh_user());
}

#[test]
fn filling_beyond_the_points_is_not_refused() {
    // No check keeps the filled points within the order's points.
    let mut ctx = fill_ctx(fresh_order());
    process_user_order(&mut ctx, 50, 0, 0).unwrap();
    assert_eq!(ctx.order_account_details.total_filled_points, 50);
    assert_eq!(ctx.order_account_details.point, 0);
}

fn active_order() -> OrderBook {
    let mut o = fresh_order();
    o.point = 1_000;
    o.total_filled_points = 400;
    o.point_price = 25_000;
    o.available_collaleral_amt = 2_000;
    o.is_active = true;
    o
}

#[test]
fn cancelling_an_order() {
    let mut ctx = CancelOrder { signer: key(8), mint: mint(), order_account_details: active_order() };
    let out = process_cancel_order(&mut ctx, 3, 4).unwrap();
    assert_eq!(out.transfer, TokenTransfer { route: TransferRoute::OrderToSigner, amount: 1_500, decimals: 6 });
    assert_eq!(out.event, OrderCancelled { create_id: 3, order_id: 4, maker: key(8), refund: 1_500 });
    assert!(!ctx.order_account_details.is_active);
    assert_eq!(ctx.order_account_details.available_collaleral_amt, 500);
    assert_eq!(process_cancel_order(&mut ctx, 3, 4), Err(MarketError::Code(ErrorCodes::OrderInActive)));
}

#[test]
fn cancelling_refund_equal_to_available() {
    let mut order = active_order();
    order.available_collaleral_amt = 1_500;
    let mut ctx = CancelOrder { signer: key(8), mint: mint(), order_account_details: order };
    let out = process_cancel_order(&mut ctx, 0, 0).unwrap();
    assert_eq!(out.event.refund, 1_500);
    assert_eq!(ctx.order_account_details.available_collaleral_amt, 0);
}

#[test]
fn cancelling_refused_when_short_of_collateral() {
    let mut order = active_order();
    order.available_collaleral_amt = 1_499;
    let mut ctx = CancelOrder { signer: key(8), mint: mint(), order_account_details: order.clone() };
    assert_eq!(process_cancel_order(&mut ctx, 0, 0), Err(MarketError::Code(ErrorCodes::InsufficentOrder)));
    assert_eq!(ctx.order_account_details, order);
}

#[test]
fn placed_order_cannot_be_cancelled() {
    let mut place = order_ctx(0);
    apply_order(&mut place, 10_000, 10_000, 0, false, 0);
    let mut ctx = CancelOrder { signer: key(3), mint: mint(), order_account_details: place.order_account_details.clone() };
    assert_eq!(process_cancel_order(&mut ctx, 0, 0), Err(MarketError::Code(ErrorCodes::OrderInActive)));
}

#[test]
fn settling_does_nothing() {
    assert_eq!(process_settle_order(&SettleOrdered {}, 1, 2, key(3)), Ok(()));
}

#[test]
fn default_key_is_all_zero() {
    assert_eq!(Pubkey::default_key(), key(0));
    assert!(key(0).is_default());
    let mut k = key(0);
    k.bytes[31] = 1;
    assert!(!k.is_default());
}

#[test]
fn every_order_after_set_up_gets_id_zero() {
    let mut init = MakerId { id_account: MarketIds { create_id: 0, order_id: 0 } };
    process_init(&mut init).unwrap();
    let mut ids = init.id_account;
    for i in 0..3u8 {
        let mut ctx = order_ctx(ids.order_id);
        ctx.order_account_key = key(i);
        let p = apply_order(&mut ctx, 10, 10, 0, false, 0);
        assert_eq!(p.event.order_id, 0);
        assert_eq!(ctx.order_account_details.order_id, 0);
        ids = ctx.id_account;
    }
    assert_eq!(ids.order_id, 0);
}

#[test]
fn placing_keeps_the_trading_flag() {
    let mut ctx = order_ctx(0);
    ctx.token_details_account.is_trading = true;
    apply_order(&mut ctx, 1, 1, 0, false, 0);
    assert!(ctx.token_details_account.is_trading);
    let mut ctx = order_ctx(0);
    apply_order(&mut ctx, 1, 1, 0, false, 0);
    assert!(!ctx.token_details_account.is_trading);
}

#[test]
fn fixing_terms_keeps_the_trading_flag() {
    let mut ctx = trading_token();
    apply_full_fill_order(&mut ctx, key(9), 500, 2_000, 1_000).unwrap();
    assert!(ctx.token_details_account.is_trading);
}

#[test]
fn filling_an_inactive_order_keeps_it_inactive() {
    let mut order = fresh_order();
    order.point = 1_000;
    let mut ctx = fill_ctx(order);
    process_user_order(&mut ctx, 1, 0, 0).unwrap();
    assert!(!ctx.order_account_details.is_active);
}

#[test]
fn available_collateral_follows_the_transfers() {
    let mut order = fresh_order();
    order.point = 1_000;
    order.point_price = 10_000;
    order.available_collaleral_amt = 1_000;
    order.is_active = true;
    let mut fill = fill_ctx(order);
    let paid_in = process_user_order(&mut fill, 300, 0, 0).unwrap().transfer.amount;
    let mut cancel = CancelOrder { signer: key(8), mint: mint(), order_account_details: fill.order_account_details.clone() };
    let refunded = process_cancel_order(&mut cancel, 0, 0).unwrap().transfer.amount;
    assert_eq!(paid_in, 300);
    assert_eq!(refunded, 700);
    assert_eq!(cancel.order_account_details.available_collaleral_amt, 1_000 + 300 - 700);
}

#[test]
fn a_cancelled_order_still_takes_fills() {
    let mut ctx = CancelOrder { signer: key(8), mint: mint(), order_account_details: active_order() };
    process_cancel_order(&mut ctx, 0, 0).unwrap();
    let mut fill = fill_ctx(ctx.order_account_details.clone());
    assert!(process_user_order(&mut fill, 10, 0, 0).is_ok());
    assert!(!fill.order_account_details.is_active);
}
