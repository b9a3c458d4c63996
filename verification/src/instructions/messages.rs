//! Sending messages and reclaiming slots.

use crate::errors::SolAnonError;
use crate::state::{same_key, Account, Inbox, Signer, Slot, SlotAccount, WhitelistAccount};
use crate::utils::{
    realloc_slot, resize, resize_plan, slot_deposit, spec_deposits, spec_resize,
    spec_slot_deposit, Balances, Deposits, Transfer,
};
use solana_program::pubkey::Pubkey;
use solana_program::rent::Rent;
use vstd::prelude::*;

verus! {

/// The accounts of a regular message: the inbox, the slot to be opened, and
/// the sender, who pays the slot's deposit.
#[derive(Debug, PartialEq, Eq)]
pub struct SendRegularMessage {
    /// The inbox.
    pub inbox: Account<Inbox>,
    /// The slot that the sender wants to open.
    pub slot: SlotAccount,
    /// The sender.
    pub sender: Signer,
}

impl SendRegularMessage {
    /// Why the accounts do not admit a regular message, if they do not. A slot
    /// that exists was opened by someone else in the meantime; otherwise the
    /// slot must be the one that the free counter names, and the counter must
    /// have room to advance.
    pub open spec fn refusal(self) -> Option<SolAnonError> {
        if self.slot.account is Some {
            Some(SolAnonError::ConcurrencyConflict)
        } else if self.slot.index != self.inbox.data.latest_free_slot {
            Some(SolAnonError::InvariantViolation)
        } else if self.inbox.data.latest_free_slot == u64::MAX {
            Some(SolAnonError::InvariantViolation)
        } else {
            None
        }
    }

    /// Tells whether the accounts admit a regular message.
    pub fn check(&self) -> (r: Result<(), SolAnonError>)
        ensures
            match self.refusal() {
                Some(e) => r == Err::<(), SolAnonError>(e),
                None => r is Ok,
            },
    {
        if self.slot.account.is_some() {
            Err(SolAnonError::ConcurrencyConflict)
        } else if self.slot.index != self.inbox.data.latest_free_slot {
            Err(SolAnonError::InvariantViolation)
        } else if self.inbox.data.latest_free_slot == u64::MAX {
            Err(SolAnonError::InvariantViolation)
        } else {
            Ok(())
        }
    }
}

/// What a regular message does to its accounts, where the slot's deposit is
/// `deposit` (`None`: it cannot be computed).
///
/// The slot comes into being with the message, the recipient and exactly its
/// deposit, which the sender pays in full; the free counter advances by one.
pub open spec fn spec_send_open(
    ctx: SendRegularMessage,
    message: String,
    to: Pubkey,
    deposit: Option<u64>,
) -> Result<SendRegularMessage, SolAnonError> {
    match ctx.refusal() {
        Some(e) => Err(e),
        None => match deposit {
            Some(lamports) => if lamports <= ctx.sender.lamports {
                Ok(
                    SendRegularMessage {
                        inbox: Account {
                            lamports: ctx.inbox.lamports,
                            data: Inbox {
                                admin: ctx.inbox.data.admin,
                                latest_free_slot: (ctx.inbox.data.latest_free_slot + 1) as u64,
                                latest_whitelisted_slot: ctx.inbox.data.latest_whitelisted_slot,
                            },
                        },
                        slot: SlotAccount {
                            index: ctx.slot.index,
                            account: Some(Account { lamports, data: Slot { to, message } }),
                        },
                        sender: Signer {
                            key: ctx.sender.key,
                            lamports: (ctx.sender.lamports - lamports) as u64,
                        },
                    },
                )
            } else {
                Err(SolAnonError::AccountingUnderflow)
            },
            None => Err(SolAnonError::AccountingUnderflow),
        },
    }
}

/// Opens the slot at the free counter with `message` for `to`, at a deposit
/// that the caller names.
pub fn send_open(ctx: &mut SendRegularMessage, message: String, to: Pubkey, deposit: u64) -> (r:
    Result<(), SolAnonError>)
    ensures
        match spec_send_open(*old(ctx), message, to, Some(deposit)) {
            Ok(after) => r is Ok && *final(ctx) == after,
            Err(e) => r == Err::<(), SolAnonError>(e) && *final(ctx) == *old(ctx),
        },
        old(ctx).inbox.data.advances_to(final(ctx).inbox.data),
{
    match ctx.check() {
        Ok(()) => {},
        Err(e) => {
            return Err(e);
        },
    }
    if deposit > ctx.sender.lamports {
        return Err(SolAnonError::AccountingUnderflow);
    }
    ctx.sender.lamports = ctx.sender.lamports - deposit;
    ctx.slot.account = Some(Account { lamports: deposit, data: Slot { to, message } });
    ctx.inbox.data.latest_free_slot = ctx.inbox.data.latest_free_slot + 1;
    Ok(())
}

/// Opens the slot at the free counter with `message` for `to`. The sender
/// pays the rent-exempt deposit of a slot of the message's size.
pub fn send_regular_message(
    ctx: &mut SendRegularMessage,
    message: String,
    to: Pubkey,
    rent: &Rent,
) -> (r: Result<(), SolAnonError>)
    ensures
        match spec_send_open(*old(ctx), message, to, spec_slot_deposit(*rent, message@)) {
            Ok(after) => r is Ok && *final(ctx) == after,
            Err(e) => r == Err::<(), SolAnonError>(e) && *final(ctx) == *old(ctx),
        },
        old(ctx).inbox.data.advances_to(final(ctx).inbox.data),
{
    match slot_deposit(rent, message.as_str()) {
        Some(deposit) => send_open(ctx, message, to, deposit),
        None => match ctx.check() {
            Ok(()) => Err(SolAnonError::AccountingUnderflow),
            Err(e) => Err(e),
        },
    }
}

/// The accounts of a whitelisted message: the inbox, the slot to be
/// overwritten, the sender's whitelist entry, and the sender.
#[derive(Debug, PartialEq, Eq)]
pub struct SendWhitelistedMessage {
    /// The inbox.
    pub inbox: Account<Inbox>,
    /// The slot that the sender wants to overwrite.
    pub slot: SlotAccount,
    /// The whitelist entry that the sender presents.
    pub whitelist: WhitelistAccount,
    /// The sender.
    pub sender: Signer,
}

impl SendWhitelistedMessage {
    /// Why the accounts do not admit a whitelisted message, if they do not.
    /// The sender must present its own whitelist entry, and the entry must
    /// exist. Then the whitelisted counter must be behind the free counter,
    /// and the slot must be the one that the whitelisted counter names and
    /// must exist: a whitelisted message never opens a slot.
    pub open spec fn refusal(self) -> Option<SolAnonError> {
        if self.whitelist.address != self.sender.key || self.whitelist.account is None {
            Some(SolAnonError::PermissionDenied)
        } else if self.inbox.data.latest_whitelisted_slot >= self.inbox.data.latest_free_slot {
            Some(SolAnonError::InvariantViolation)
        } else if self.slot.index != self.inbox.data.latest_whitelisted_slot {
            Some(SolAnonError::InvariantViolation)
        } else if self.slot.account is None {
            Some(SolAnonError::InvariantViolation)
        } else {
            None
        }
    }

    /// The balances that a whitelisted message may change; a slot that does
    /// not exist counts as empty.
    pub open spec fn balances(self) -> Balances {
        Balances {
            slot: match self.slot.account {
                Some(account) => account.lamports,
                None => 0,
            },
            sender: self.sender.lamports,
            inbox: self.inbox.lamports,
        }
    }

    /// The deposits by which the slot goes from the message that it holds to
    /// `message`, where they can be computed.
    pub open spec fn spec_due(self, rent: Rent, message: Seq<char>) -> Option<Deposits> {
        match self.slot.account {
            Some(account) => spec_deposits(rent, account.data.message@, message),
            None => None,
        }
    }

    /// Tells whether the accounts admit a whitelisted message.
    pub fn check(&self) -> (r: Result<(), SolAnonError>)
        ensures
            match self.refusal() {
                Some(e) => r == Err::<(), SolAnonError>(e),
                None => r is Ok,
            },
    {
        if !same_key(&self.whitelist.address, &self.sender.key) || self.whitelist.account.is_none() {
            Err(SolAnonError::PermissionDenied)
        } else if self.inbox.data.latest_whitelisted_slot >= self.inbox.data.latest_free_slot {
            Err(SolAnonError::InvariantViolation)
        } else if self.slot.index != self.inbox.data.latest_whitelisted_slot {
            Err(SolAnonError::InvariantViolation)
        } else if self.slot.account.is_none() {
            Err(SolAnonError::InvariantViolation)
        } else {
            Ok(())
        }
    }
}

/// What a whitelisted message does to its accounts, where the deposits are
/// `due` (`None`: they cannot be computed).
///
/// The slot takes the message and the recipient, its balance follows the
/// deposit from the old size to the new one as [`spec_resize`] says, and the
/// whitelisted counter advances by one.
pub open spec fn spec_send_gated(
    ctx: SendWhitelistedMessage,
    message: String,
    to: Pubkey,
    due: Option<Deposits>,
) -> Result<SendWhitelistedMessage, SolAnonError> {
    match ctx.refusal() {
        Some(e) => Err(e),
        None => match due {
            Some(due) => match spec_resize(ctx.balances(), due.old_slot, due.new_slot, due.inbox) {
                Ok(after) => Ok(
                    SendWhitelistedMessage {
                        inbox: Account {
                            lamports: after.inbox,
                            data: Inbox {
                                admin: ctx.inbox.data.admin,
                                latest_free_slot: ctx.inbox.data.latest_free_slot,
                                latest_whitelisted_slot: (ctx.inbox.data.latest_whitelisted_slot
                                    + 1) as u64,
                            },
                        },
                        slot: SlotAccount {
                            index: ctx.slot.index,
                            account: Some(
                                Account { lamports: after.slot, data: Slot { to, message } },
                            ),
                        },
                        whitelist: ctx.whitelist,
                        sender: Signer { key: ctx.sender.key, lamports: after.sender },
                    },
                ),
                Err(e) => Err(e),
            },
            None => Err(SolAnonError::AccountingUnderflow),
        },
    }
}

/// The transfers that a whitelisted message makes, in their order, where the
/// deposits are `due`.
pub open spec fn spec_gated_transfers(ctx: SendWhitelistedMessage, due: Deposits) -> Seq<Transfer> {
    resize_plan(ctx.balances(), due.old_slot, due.new_slot, due.inbox)
}

/// Overwrites the slot at the whitelisted counter with `message` for `to`,
/// at deposits that the caller names, and returns the transfers that this
/// takes, in the order in which they are to be made.
pub fn send_gated(ctx: &mut SendWhitelistedMessage, message: String, to: Pubkey, due: Deposits) -> (r:
    Result<Vec<Transfer>, SolAnonError>)
    requires
        old(ctx).balances().wf(),
    ensures
        match spec_send_gated(*old(ctx), message, to, Some(due)) {
            Ok(after) => r is Ok && *final(ctx) == after && r->Ok_0@ == spec_gated_transfers(
                *old(ctx),
                due,
            ),
            Err(e) => r == Err::<Vec<Transfer>, SolAnonError>(e) && *final(ctx) == *old(ctx),
        },
        old(ctx).inbox.data.advances_to(final(ctx).inbox.data),
{
    match ctx.check() {
        Ok(()) => {},
        Err(e) => {
            return Err(e);
        },
    }
    let held: u64 = match &ctx.slot.account {
        Some(account) => account.lamports,
        None => 0,
    };
    let before = Balances { slot: held, sender: ctx.sender.lamports, inbox: ctx.inbox.lamports };
    match resize(before, due.old_slot, due.new_slot, due.inbox) {
        Ok((after, transfers)) => {
            ctx.inbox.lamports = after.inbox;
            ctx.sender.lamports = after.sender;
            ctx.slot.account = Some(Account { lamports: after.slot, data: Slot { to, message } });
            ctx.inbox.data.latest_whitelisted_slot = ctx.inbox.data.latest_whitelisted_slot + 1;
            Ok(transfers)
        },
        Err(e) => Err(e),
    }
}

/// Overwrites the slot at the whitelisted counter with `message` for `to`.
/// The slot's balance follows its rent-exempt deposit from the size of the
/// old message to that of the new one; the transfers that this takes are
/// returned in the order in which they are made.
pub fn send_whitelisted_message(
    ctx: &mut SendWhitelistedMessage,
    message: String,
    to: Pubkey,
    rent: &Rent,
) -> (r: Result<Vec<Transfer>, SolAnonError>)
    requires
        old(ctx).balances().wf(),
    ensures
        match spec_send_gated(*old(ctx), message, to, old(ctx).spec_due(*rent, message@)) {
            Ok(after) => r is Ok && *final(ctx) == after && r->Ok_0@ == spec_gated_transfers(
                *old(ctx),
                old(ctx).spec_due(*rent, message@)->Some_0,
            ),
            Err(e) => r == Err::<Vec<Transfer>, SolAnonError>(e) && *final(ctx) == *old(ctx),
        },
        old(ctx).inbox.data.advances_to(final(ctx).inbox.data),
{
    match ctx.check() {
        Ok(()) => {},
        Err(e) => {
            return Err(e);
        },
    }
    let transfers = match &mut ctx.slot.account {
        Some(account) => {
            match realloc_slot(account, message.as_str(), &mut ctx.inbox, &mut ctx.sender, rent) {
                Ok(transfers) => {
                    account.data.to = to;
                    account.data.message = message;
                    transfers
                },
                Err(e) => {
                    return Err(e);
                },
            }
        },
        None => {
            return Err(SolAnonError::InvariantViolation);
        },
    };
    ctx.inbox.data.latest_whitelisted_slot = ctx.inbox.data.latest_whitelisted_slot + 1;
    Ok(transfers)
}

/// The accounts of a reclaim: the inbox, the slot to be closed, and the
/// administrator, who receives the slot's lamports.
#[derive(Debug, PartialEq, Eq)]
pub struct ReclaimSlot {
    /// The inbox.
    pub inbox: Account<Inbox>,
    /// The slot to be closed.
    pub slot: SlotAccount,
    /// The signer, who must be the inbox's administrator.
    pub admin: Signer,
}

impl ReclaimSlot {
    /// Why the accounts do not admit a reclaim, if they do not: the signer
    /// must be the administrator, and the slot must exist.
    pub open spec fn refusal(self) -> Option<SolAnonError> {
        if self.admin.key != self.inbox.data.admin {
            Some(SolAnonError::PermissionDenied)
        } else if self.slot.account is None {
            Some(SolAnonError::InvariantViolation)
        } else {
            None
        }
    }

    /// The lamports that the slot holds; none where it does not exist.
    pub open spec fn held(self) -> u64 {
        match self.slot.account {
            Some(account) => account.lamports,
            None => 0,
        }
    }
}

/// What a reclaim does to its accounts: the slot is gone, and all that it
/// held is the administrator's. The counters stay, so that the slot's index
/// is never given out again.
pub open spec fn spec_reclaim(ctx: ReclaimSlot) -> Result<ReclaimSlot, SolAnonError> {
    match ctx.refusal() {
        Some(e) => Err(e),
        None => Ok(
            ReclaimSlot {
                inbox: ctx.inbox,
                slot: SlotAccount { index: ctx.slot.index, account: None },
                admin: Signer {
                    key: ctx.admin.key,
                    lamports: (ctx.admin.lamports + ctx.held()) as u64,
                },
            },
        ),
    }
}

/// Closes a slot and hands its lamports to the administrator.
pub fn reclaim_slot(ctx: &mut ReclaimSlot) -> (r: Result<(), SolAnonError>)
    requires
        old(ctx).admin.lamports + old(ctx).held() <= u64::MAX,
    ensures
        match spec_reclaim(*old(ctx)) {
            Ok(after) => r is Ok && *final(ctx) == after,
            Err(e) => r == Err::<(), SolAnonError>(e) && *final(ctx) == *old(ctx),
        },
        final(ctx).inbox == old(ctx).inbox,
{
    if !ctx.inbox.data.is_admin(&ctx.admin) {
        return Err(SolAnonError::PermissionDenied);
    }
    let held: u64 = match &ctx.slot.account {
        Some(account) => account.lamports,
        None => {
            return Err(SolAnonError::InvariantViolation);
        },
    };
    ctx.admin.lamports = ctx.admin.lamports + held;
    ctx.slot.account = None;
    Ok(())
}

} // verus!
