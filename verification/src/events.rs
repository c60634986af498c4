use vstd::prelude::*;

use crate::key::Pubkey;

verus! {

/// Announces that a token was registered.
#[derive(Clone, Debug, PartialEq, Eq)]
pub struct TokenDetailsCreated {
    pub token_name: String,
    pub token_symbol: String,
    pub creator_id: u64,
}

/// Announces that an order was placed.
#[derive(Clone, Copy, Debug, PartialEq, Eq)]
pub struct OrderCreated {
    pub create_id: u64,
    pub order_id: u64,
    pub user: Pubkey,
    pub amount: u64,
    pub price: u64,
    pub is_partial: bool,
    pub is_buy: bool,
    pub timestamp: u64,
}

/// Announces the address, price and settlement end time of a token.
#[derive(Clone, Copy, Debug, PartialEq, Eq)]
pub struct TokenFulfillTimeSet {
    pub order_id: u64,
    pub token_id: Pubkey,
    pub token_price: u64,
    pub end_time: u64,
}

/// Announces that an order was filled.
#[derive(Clone, Copy, Debug, PartialEq, Eq)]
pub struct OrderFilled {
    pub create_id: u64,
    pub order_id: u64,
    pub user: Pubkey,
    pub to_be_fill_amt: u64,
    pub collerateral_amt: u64,
}

/// Announces that an order was cancelled, and what it refunded.
#[derive(Clone, Copy, Debug, PartialEq, Eq)]
pub struct OrderCancelled {
    pub create_id: u64,
    pub order_id: u64,
    pub maker: Pubkey,
    pub refund: u64,
}

} // verus!
