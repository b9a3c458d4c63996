//! The accounting core of an anonymous message inbox on Solana.
//!
//! An inbox keeps two counters. Anyone may open the slot at the first counter
//! and pays the rent-exempt deposit of the message stored there. Whitelisted
//! senders may overwrite, in order, slots that were opened before; the slot's
//! deposit then follows the size of the new message, with the inbox's own
//! surplus as a buffer. Every instruction is a function from the accounts it
//! names to the accounts as they are afterwards, or an error that leaves them
//! untouched.

pub mod constants;
pub mod errors;
pub mod instructions;
pub mod laws;
pub mod rent;
pub mod state;
pub mod utils;
