//! Setting up the inbox, handing it over, and withdrawing its surplus.

use crate::constants::INBOX_SPACE;
use crate::errors::SolAnonError;
use crate::rent::{minimum_deposit, spec_minimum_deposit};
use crate::state::{Account, Inbox, Signer};
use crate::utils::spec_surplus;
use solana_program::pubkey::Pubkey;
use solana_program::rent::Rent;
use vstd::prelude::*;

verus! {

/// The accounts of an initialization: the place of the inbox, and the signer,
/// who pays the inbox's deposit and becomes its administrator.
#[derive(Debug, PartialEq, Eq)]
pub struct InitializeInbox {
    /// The inbox, if it exists already.
    pub inbox: Option<Account<Inbox>>,
    /// The signer.
    pub admin: Signer,
}

/// What an initialization does to its accounts, where the inbox's deposit is
/// `deposit` (`None`: it cannot be computed).
///
/// The inbox comes into being with both counters at zero, the signer as its
/// administrator and exactly its deposit, which the signer pays. An inbox
/// that exists is not set up again.
pub open spec fn spec_init_ledger(ctx: InitializeInbox, deposit: Option<u64>) -> Result<
    InitializeInbox,
    SolAnonError,
> {
    if ctx.inbox is Some {
        Err(SolAnonError::InvariantViolation)
    } else {
        match deposit {
            Some(lamports) => if lamports <= ctx.admin.lamports {
                Ok(
                    InitializeInbox {
                        inbox: Some(
                            Account {
                                lamports,
                                data: Inbox {
                                    admin: ctx.admin.key,
                                    latest_free_slot: 0,
                                    latest_whitelisted_slot: 0,
                                },
                            },
                        ),
                        admin: Signer {
                            key: ctx.admin.key,
                            lamports: (ctx.admin.lamports - lamports) as u64,
                        },
                    },
                )
            } else {
                Err(SolAnonError::AccountingUnderflow)
            },
            None => Err(SolAnonError::AccountingUnderflow),
        }
    }
}

/// Sets up the inbox at a deposit that the caller names.
pub fn init_ledger(ctx: &mut InitializeInbox, deposit: u64) -> (r: Result<(), SolAnonError>)
    ensures
        match spec_init_ledger(*old(ctx), Some(deposit)) {
            Ok(after) => r is Ok && *final(ctx) == after,
            Err(e) => r == Err::<(), SolAnonError>(e) && *final(ctx) == *old(ctx),
        },
        r is Ok ==> final(ctx).inbox->Some_0.data.counters_in_order(),
{
    if ctx.inbox.is_some() {
        return Err(SolAnonError::InvariantViolation);
    }
    if deposit > ctx.admin.lamports {
        return Err(SolAnonError::AccountingUnderflow);
    }
    ctx.admin.lamports = ctx.admin.lamports - deposit;
    ctx.inbox = Some(
        Account {
            lamports: deposit,
            data: Inbox { admin: ctx.admin.key, latest_free_slot: 0, latest_whitelisted_slot: 0 },
        },
    );
    Ok(())
}

/// Sets up the inbox. The signer pays the inbox's rent-exempt deposit and
/// becomes its administrator.
pub fn initialize(ctx: &mut InitializeInbox, rent: &Rent) -> (r: Result<(), SolAnonError>)
    ensures
        match spec_init_ledger(*old(ctx), spec_minimum_deposit(*rent, INBOX_SPACE)) {
            Ok(after) => r is Ok && *final(ctx) == after,
            Err(e) => r == Err::<(), SolAnonError>(e) && *final(ctx) == *old(ctx),
        },
        r is Ok ==> final(ctx).inbox->Some_0.data.counters_in_order(),
{
    match minimum_deposit(rent, INBOX_SPACE) {
        Some(deposit) => init_ledger(ctx, deposit),
        None => if ctx.inbox.is_some() {
            Err(SolAnonError::InvariantViolation)
        } else {
            Err(SolAnonError::AccountingUnderflow)
        },
    }
}

/// The accounts of a change of administrator: the inbox and the signer.
#[derive(Debug, PartialEq, Eq)]
pub struct ChangeAdmin {
    /// The inbox.
    pub inbox: Account<Inbox>,
    /// The signer, who must be the inbox's administrator.
    pub admin: Signer,
}

/// What a change of administrator does to its accounts: the inbox names the
/// new administrator, and nothing else changes.
pub open spec fn spec_change_admin(ctx: ChangeAdmin, new_admin: Pubkey) -> Result<
    ChangeAdmin,
    SolAnonError,
> {
    if ctx.admin.key != ctx.inbox.data.admin {
        Err(SolAnonError::PermissionDenied)
    } else {
        Ok(
            ChangeAdmin {
                inbox: Account {
                    lamports: ctx.inbox.lamports,
                    data: Inbox {
                        admin: new_admin,
                        latest_free_slot: ctx.inbox.data.latest_free_slot,
                        latest_whitelisted_slot: ctx.inbox.data.latest_whitelisted_slot,
                    },
                },
                admin: ctx.admin,
            },
        )
    }
}

/// Hands the inbox over to a new administrator.
pub fn change_admin(ctx: &mut ChangeAdmin, new_admin: Pubkey) -> (r: Result<(), SolAnonError>)
    ensures
        match spec_change_admin(*old(ctx), new_admin) {
            Ok(after) => r is Ok && *final(ctx) == after,
            Err(e) => r == Err::<(), SolAnonError>(e) && *final(ctx) == *old(ctx),
        },
        old(ctx).inbox.data.advances_to(final(ctx).inbox.data),
{
    if !ctx.inbox.data.is_admin(&ctx.admin) {
        return Err(SolAnonError::PermissionDenied);
    }
    ctx.inbox.data.admin = new_admin;
    Ok(())
}

/// The accounts of a withdrawal: the inbox, and the administrator, who
/// receives the surplus.
#[derive(Debug, PartialEq, Eq)]
pub struct WithdrawSurplusInboxBalance {
    /// The inbox.
    pub inbox: Account<Inbox>,
    /// The signer, who must be the inbox's administrator.
    pub admin: Signer,
}

/// What a withdrawal does to its accounts, where the inbox's deposit is
/// `deposit` (`None`: it cannot be computed): what the inbox holds beyond its
/// deposit is the administrator's.
pub open spec fn spec_sweep(ctx: WithdrawSurplusInboxBalance, deposit: Option<u64>) -> Result<
    WithdrawSurplusInboxBalance,
    SolAnonError,
> {
    if ctx.admin.key != ctx.inbox.data.admin {
        Err(SolAnonError::PermissionDenied)
    } else {
        match deposit {
            Some(minimum) => {
                let surplus = spec_surplus(ctx.inbox.lamports, minimum);
                Ok(
                    WithdrawSurplusInboxBalance {
                        inbox: Account {
                            lamports: (ctx.inbox.lamports - surplus) as u64,
                            data: ctx.inbox.data,
                        },
                        admin: Signer {
                            key: ctx.admin.key,
                            lamports: (ctx.admin.lamports + surplus) as u64,
                        },
                    },
                )
            },
            None => Err(SolAnonError::AccountingUnderflow),
        }
    }
}

/// Hands the administrator what the inbox holds beyond a deposit that the
/// caller names, and returns the amount.
pub fn sweep_header_surplus(ctx: &mut WithdrawSurplusInboxBalance, deposit: u64) -> (r: Result<
    u64,
    SolAnonError,
>)
    requires
        old(ctx).inbox.lamports + old(ctx).admin.lamports <= u64::MAX,
    ensures
        match spec_sweep(*old(ctx), Some(deposit)) {
            Ok(after) => r == Ok::<u64, SolAnonError>(
                spec_surplus(old(ctx).inbox.lamports, deposit),
            ) && *final(ctx) == after,
            Err(e) => r == Err::<u64, SolAnonError>(e) && *final(ctx) == *old(ctx),
        },
        final(ctx).inbox.data == old(ctx).inbox.data,
        r is Ok ==> spec_surplus(final(ctx).inbox.lamports, deposit) == 0,
{
    if !ctx.inbox.data.is_admin(&ctx.admin) {
        return Err(SolAnonError::PermissionDenied);
    }
    let surplus: u64 = ctx.inbox.lamports.saturating_sub(deposit);
    ctx.inbox.lamports = ctx.inbox.lamports - surplus;
    ctx.admin.lamports = ctx.admin.lamports + surplus;
    Ok(surplus)
}

/// Hands the administrator what the inbox holds beyond its rent-exempt
/// deposit, and returns the amount.
pub fn withdraw_surplus_inbox_balance(ctx: &mut WithdrawSurplusInboxBalance, rent: &Rent) -> (r:
    Result<u64, SolAnonError>)
    requires
        old(ctx).inbox.lamports + old(ctx).admin.lamports <= u64::MAX,
    ensures
        match spec_sweep(*old(ctx), spec_minimum_deposit(*rent, INBOX_SPACE)) {
            Ok(after) => r == Ok::<u64, SolAnonError>(
                spec_surplus(
                    old(ctx).inbox.lamports,
                    spec_minimum_deposit(*rent, INBOX_SPACE)->Some_0,
                ),
            ) && *final(ctx) == after,
            Err(e) => r == Err::<u64, SolAnonError>(e) && *final(ctx) == *old(ctx),
        },
        final(ctx).inbox.data == old(ctx).inbox.data,
{
    match minimum_deposit(rent, INBOX_SPACE) {
        Some(deposit) => sweep_header_surplus(ctx, deposit),
        None => if ctx.inbox.data.is_admin(&ctx.admin) {
            Err(SolAnonError::AccountingUnderflow)
        } else {
            Err(SolAnonError::PermissionDenied)
        },
    }
}

} // verus!
