use vstd::prelude::*;

use crate::key::Pubkey;

verus! {

/// The counters from which the market draws token and order ids.
#[derive(Clone, Copy, Debug, PartialEq, Eq, Structural)]
pub struct MarketIds {
    pub create_id: u64,
    pub order_id: u64,
}

/// The life stage of a registered token.
#[derive(Clone, Copy, Debug, PartialEq, Eq, Structural)]
pub enum TokenStage {
    Trading,
    FullFilled,
    CANCELED,
    Ended,
}

/// The longest token name that the account layout reserves room for.
pub const MAX_NAME_LEN: usize = 32;

/// The longest token symbol that the account layout reserves room for.
pub const MAX_SYMBOL_LEN: usize = 10;

/// A token registered for pre-market trading.
#[derive(Clone, Debug, PartialEq, Eq)]
pub struct TokenDetails {
    pub token_name: String,
    pub token_symbol: String,
    pub token_address: Pubkey,
    pub creator_id: u64,
    pub creator: Pubkey,
    pub total_val: u64,
    pub start_settle_time: u64,
    pub end_settle_time: u64,
    pub is_trading: bool,
    pub stage: TokenStage,
    pub order_list: Vec<Pubkey>,
}

/// The side of an order.
#[derive(Clone, Copy, Debug, PartialEq, Eq, Structural)]
pub enum OfferType {
    SELL,
    BUY,
}

/// An order of the book, with the collateral it holds.
#[derive(Clone, Debug, PartialEq, Eq)]
pub struct OrderBook {
    pub order_id: u64,
    pub create_id: u64,
    pub offer_type: OfferType,
    pub user: Pubkey,
    pub collateral: Pubkey,
    pub order_creator: Pubkey,
    pub point: u64,
    pub point_price: u64,
    pub collateral_amt: u64,
    pub total_filled_collater_amt: u64,
    pub total_filled_points: u64,
    pub available_collaleral_amt: u64,
    pub available_filled_collateral_amt: u64,
    pub is_partial: bool,
    pub is_active: bool,
    pub settled: bool,
    pub user_list: Vec<Pubkey>,
}

/// A user's fill of an order.
#[derive(Clone, Copy, Debug, PartialEq, Eq)]
pub struct Users {
    pub user_account: Pubkey,
    pub collect_point: u64,
    pub collerateral_amount: u64,
    pub order_id: u64,
    pub create_id: u64,
    pub is_buyer: bool,
}

/// The part of a token mint that the market reads: its address and its
/// number of decimals.
#[derive(Clone, Copy, Debug, PartialEq, Eq)]
pub struct MintInfo {
    pub key: Pubkey,
    pub decimals: u8,
}

} // verus!
