//! The program's instructions, each as a function on the accounts it names.
//!
//! An instruction either succeeds and leaves the accounts as its `spec_`
//! function gives them, or fails and leaves them as they were.
//!
//! Where an instruction charges a rent-exempt deposit, it comes in two forms.
//! One takes the network's rent configuration and prices the deposit itself.
//! The other takes the deposit as a number, so that the accounting can be had
//! under any price.

pub mod inbox;
pub mod messages;
pub mod whitelist;

pub use inbox::{
    change_admin, init_ledger, initialize, sweep_header_surplus, withdraw_surplus_inbox_balance,
    ChangeAdmin, InitializeInbox, WithdrawSurplusInboxBalance,
};
pub use messages::{
    reclaim_slot, send_gated, send_open, send_regular_message, send_whitelisted_message,
    ReclaimSlot, SendRegularMessage, SendWhitelistedMessage,
};
pub use whitelist::{
    add_to_whitelist, register_capability, remove_from_whitelist, AddToWhitelist,
    RemoveFromWhitelist,
};
