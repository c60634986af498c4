//! Verified core of a pre-market order book: token registration, sell
//! orders backed by collateral, order fills and cancellations.

pub mod clock;
pub mod error;
pub mod events;
pub mod key;
pub mod state;
pub mod transfer;
pub mod instructions;
pub mod laws;
