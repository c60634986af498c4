//! The instructions of the market, each a function from the accounts it
//! reads to the accounts it writes, the transfer it asks for and the event
//! it announces.

pub mod admin;
pub mod cancel;
pub mod fillorder;
pub mod init;
pub mod offers;
pub mod settle;
