//! Granting and withdrawing the right to send whitelisted messages.

use crate::constants::WHITELIST_SPACE;
use crate::errors::SolAnonError;
use crate::rent::{minimum_deposit, spec_minimum_deposit};
use crate::state::{same_key, Account, Inbox, Signer, Whitelist, WhitelistAccount};
use solana_program::pubkey::Pubkey;
use solana_program::rent::Rent;
use vstd::prelude::*;

verus! {

/// The accounts of a grant: the inbox, the place of the whitelist entry, and
/// the administrator, who pays the entry's deposit.
#[derive(Debug, PartialEq, Eq)]
pub struct AddToWhitelist {
    /// The inbox.
    pub inbox: Account<Inbox>,
    /// The place of the entry to be made.
    pub whitelist_pda: WhitelistAccount,
    /// The signer, who must be the inbox's administrator.
    pub admin: Signer,
}

impl AddToWhitelist {
    /// Why the accounts do not admit a grant to `address`, if they do not:
    /// the signer must be the administrator, the place must be that of
    /// `address`, and no entry may be there yet.
    pub open spec fn refusal(self, address: Pubkey) -> Option<SolAnonError> {
        if self.admin.key != self.inbox.data.admin {
            Some(SolAnonError::PermissionDenied)
        } else if self.whitelist_pda.address != address {
            Some(SolAnonError::InvariantViolation)
        } else if self.whitelist_pda.account is Some {
            Some(SolAnonError::InvariantViolation)
        } else {
            None
        }
    }

    /// Tells whether the accounts admit a grant to `address`.
    pub fn check(&self, address: &Pubkey) -> (r: Result<(), SolAnonError>)
        ensures
            match self.refusal(*address) {
                Some(e) => r == Err::<(), SolAnonError>(e),
                None => r is Ok,
            },
    {
        if !self.inbox.data.is_admin(&self.admin) {
            Err(SolAnonError::PermissionDenied)
        } else if !same_key(&self.whitelist_pda.address, address) {
            Err(SolAnonError::InvariantViolation)
        } else if self.whitelist_pda.account.is_some() {
            Err(SolAnonError::InvariantViolation)
        } else {
            Ok(())
        }
    }
}

/// What a grant to `address` does to its accounts, where the entry's deposit
/// is `deposit` (`None`: it cannot be computed): the entry comes into being
/// with exactly its deposit, which the administrator pays.
pub open spec fn spec_register(ctx: AddToWhitelist, address: Pubkey, deposit: Option<u64>) -> Result<
    AddToWhitelist,
    SolAnonError,
> {
    match ctx.refusal(address) {
        Some(e) => Err(e),
        None => match deposit {
            Some(lamports) => if lamports <= ctx.admin.lamports {
                Ok(
                    AddToWhitelist {
                        inbox: ctx.inbox,
                        whitelist_pda: WhitelistAccount {
                            address: ctx.whitelist_pda.address,
                            account: Some(Account { lamports, data: Whitelist {} }),
                        },
                        admin: Signer {
                            key: ctx.admin.key,
                            lamports: (ctx.admin.lamports - lamports) as u64,
                        },
                    },
                )
            } else {
                Err(SolAnonError::AccountingUnderflow)
            },
            None => Err(SolAnonError::AccountingUnderflow),
        },
    }
}

/// Whitelists `address` at a deposit that the caller names.
pub fn register_capability(ctx: &mut AddToWhitelist, address: Pubkey, deposit: u64) -> (r: Result<
    (),
    SolAnonError,
>)
    ensures
        match spec_register(*old(ctx), address, Some(deposit)) {
            Ok(after) => r is Ok && *final(ctx) == after,
            Err(e) => r == Err::<(), SolAnonError>(e) && *final(ctx) == *old(ctx),
        },
        final(ctx).inbox == old(ctx).inbox,
{
    match ctx.check(&address) {
        Ok(()) => {},
        Err(e) => {
            return Err(e);
        },
    }
    if deposit > ctx.admin.lamports {
        return Err(SolAnonError::AccountingUnderflow);
    }
    ctx.admin.lamports = ctx.admin.lamports - deposit;
    ctx.whitelist_pda.account = Some(Account { lamports: deposit, data: Whitelist {} });
    Ok(())
}

/// Whitelists `address_to_whitelist`. The administrator pays the entry's
/// rent-exempt deposit.
pub fn add_to_whitelist(ctx: &mut AddToWhitelist, address_to_whitelist: Pubkey, rent: &Rent) -> (r:
    Result<(), SolAnonError>)
    ensures
        match spec_register(
            *old(ctx),
            address_to_whitelist,
            spec_minimum_deposit(*rent, WHITELIST_SPACE),
        ) {
            Ok(after) => r is Ok && *final(ctx) == after,
            Err(e) => r == Err::<(), SolAnonError>(e) && *final(ctx) == *old(ctx),
        },
        final(ctx).inbox == old(ctx).inbox,
{
    match minimum_deposit(rent, WHITELIST_SPACE) {
        Some(deposit) => register_capability(ctx, address_to_whitelist, deposit),
        None => match ctx.check(&address_to_whitelist) {
            Ok(()) => Err(SolAnonError::AccountingUnderflow),
            Err(e) => Err(e),
        },
    }
}

/// The accounts of a withdrawal of a grant: the inbox, the whitelist entry,
/// and the administrator, who receives the entry's lamports.
#[derive(Debug, PartialEq, Eq)]
pub struct RemoveFromWhitelist {
    /// The inbox.
    pub inbox: Account<Inbox>,
    /// The entry to be removed.
    pub whitelist_pda: WhitelistAccount,
    /// The signer, who must be the inbox's administrator.
    pub admin: Signer,
}

impl RemoveFromWhitelist {
    /// Why the accounts do not admit the removal of the entry of `address`,
    /// if they do not: the signer must be the administrator, the place must
    /// be that of `address`, and the entry must exist.
    pub open spec fn refusal(self, address: Pubkey) -> Option<SolAnonError> {
        if self.admin.key != self.inbox.data.admin {
            Some(SolAnonError::PermissionDenied)
        } else if self.whitelist_pda.address != address {
            Some(SolAnonError::InvariantViolation)
        } else if self.whitelist_pda.account is None {
            Some(SolAnonError::InvariantViolation)
        } else {
            None
        }
    }

    /// The lamports that the entry holds; none where it does not exist.
    pub open spec fn held(self) -> u64 {
        match self.whitelist_pda.account {
            Some(account) => account.lamports,
            None => 0,
        }
    }
}

/// What the removal of the entry of `address` does to its accounts: the
/// entry is gone, and all that it held is the administrator's.
pub open spec fn spec_unregister(ctx: RemoveFromWhitelist, address: Pubkey) -> Result<
    RemoveFromWhitelist,
    SolAnonError,
> {
    match ctx.refusal(address) {
        Some(e) => Err(e),
        None => Ok(
            RemoveFromWhitelist {
                inbox: ctx.inbox,
                whitelist_pda: WhitelistAccount {
                    address: ctx.whitelist_pda.address,
                    account: None,
                },
                admin: Signer {
                    key: ctx.admin.key,
                    lamports: (ctx.admin.lamports + ctx.held()) as u64,
                },
            },
        ),
    }
}

/// Removes `address_to_remove` from the whitelist and hands the entry's
/// lamports to the administrator.
pub fn remove_from_whitelist(ctx: &mut RemoveFromWhitelist, address_to_remove: Pubkey) -> (r:
    Result<(), SolAnonError>)
    requires
        old(ctx).admin.lamports + old(ctx).held() <= u64::MAX,
    ensures
        match spec_unregister(*old(ctx), address_to_remove) {
            Ok(after) => r is Ok && *final(ctx) == after,
            Err(e) => r == Err::<(), SolAnonError>(e) && *final(ctx) == *old(ctx),
        },
        final(ctx).inbox == old(ctx).inbox,
{
    if !ctx.inbox.data.is_admin(&ctx.admin) {
        return Err(SolAnonError::PermissionDenied);
    }
    if !same_key(&ctx.whitelist_pda.address, &address_to_remove) {
        return Err(SolAnonError::InvariantViolation);
    }
    let held: u64 = match &ctx.whitelist_pda.account {
        Some(account) => account.lamports,
        None => {
            return Err(SolAnonError::InvariantViolation);
        },
    };
    ctx.admin.lamports = ctx.admin.lamports + held;
    ctx.whitelist_pda.account = None;
    Ok(())
}

} // verus!
