use vstd::prelude::*;

verus! {

/// The ways in which an instruction of the market refuses a request.
#[derive(Clone, Copy, Debug, PartialEq, Eq, Structural)]
pub enum ErrorCodes {
    /// The token details account is already trading.
    AlreadyExists,
    /// The token details account is not trading.
    NotRegisterTokens,
    /// The token address is the default (all-zero) address.
    InvalidTokenAddress,
    /// The settlement end time is not after the current time.
    InvalidEndTime,
    /// The token price is zero.
    InvalidPrice,
    /// The create id does not name a registered token.
    InvalidCreateId,
    /// The order id does not match the order account.
    InvalidOrderId,
    /// The order is not active.
    OrderInActive,
    /// The order holds less collateral than a cancellation would refund.
    InsufficentOrder,
}

/// What an instruction of the market returns in place of success.
#[derive(Debug, PartialEq, Eq)]
pub enum MarketError {
    /// A refusal by the market's own rules.
    Code(ErrorCodes),
    /// An error of the runtime, handed on unchanged.
    Program(anchor_lang::prelude::ProgramError),
}

} // verus!
