//! The records that the program stores, and the accounts that hold them.

use crate::constants::SLOT_BASE_SPACE;
use solana_program::pubkey::Pubkey;
use vstd::prelude::*;
use vstd::utf8::encode_utf8;

verus! {

/// An account's address. Values of it are stored, handed on and compared, and
/// nothing else.
#[verifier::external_type_specification]
#[verifier::external_body]
pub struct ExPubkey(Pubkey);

/// Calls `==` of `solana_program::pubkey::Pubkey`, which that crate derives
/// for the 32 bytes of a key. Believed: the result says whether the two keys
/// are the same value.
#[verifier::external_body]
pub(crate) fn same_key(a: &Pubkey, b: &Pubkey) -> (same: bool)
    ensures
        same == (*a == *b),
{
    a == b
}

/// The inbox: who administers it, and the two counters.
#[derive(Clone, Copy, Debug, PartialEq, Eq)]
pub struct Inbox {
    /// The administrator.
    pub admin: Pubkey,
    /// Index of the next slot that anyone may open.
    pub latest_free_slot: u64,
    /// Index of the next slot that a whitelisted sender may overwrite.
    pub latest_whitelisted_slot: u64,
}

impl Inbox {
    /// The whitelisted counter never runs ahead of the free counter: a
    /// whitelisted message only ever replaces one that was sent before.
    pub open spec fn counters_in_order(self) -> bool {
        self.latest_whitelisted_slot <= self.latest_free_slot
    }

    /// Tells whether `signer` is the inbox's administrator.
    pub fn is_admin(&self, signer: &Signer) -> (yes: bool)
        ensures
            yes == (signer.key == self.admin),
    {
        same_key(&signer.key, &self.admin)
    }

    /// How an instruction that succeeds may change the inbox: no counter
    /// falls, and the counters stay in order.
    pub open spec fn advances_to(self, next: Inbox) -> bool {
        &&& self.latest_free_slot <= next.latest_free_slot
        &&& self.latest_whitelisted_slot <= next.latest_whitelisted_slot
        &&& self.counters_in_order() ==> next.counters_in_order()
    }
}

/// One message and whom it is for.
#[derive(Debug, PartialEq, Eq)]
pub struct Slot {
    /// The recipient.
    pub to: Pubkey,
    /// The message.
    pub message: String,
}

impl Clone for Slot {
    fn clone(&self) -> (copy: Self)
        ensures
            copy == *self,
    {
        Slot { to: self.to, message: self.message.clone() }
    }
}

/// A whitelist entry. It holds nothing: that the entry exists is the grant.
#[derive(Clone, Copy, Debug, PartialEq, Eq)]
pub struct Whitelist {}

/// A record together with the lamports of the account that stores it.
#[derive(Debug, PartialEq, Eq)]
pub struct Account<T> {
    /// The account's balance.
    pub lamports: u64,
    /// The record.
    pub data: T,
}

impl<T: Clone> Clone for Account<T> {
    fn clone(&self) -> (copy: Self)
        ensures
            copy.lamports == self.lamports,
            cloned(self.data, copy.data),
    {
        Account { lamports: self.lamports, data: self.data.clone() }
    }
}

/// A wallet that signed the transaction.
#[derive(Clone, Copy, Debug, PartialEq, Eq)]
pub struct Signer {
    /// The wallet's address.
    pub key: Pubkey,
    /// The wallet's balance.
    pub lamports: u64,
}

/// The address that belongs to a slot index, and the slot stored there, if
/// one is.
#[derive(Debug, PartialEq, Eq)]
pub struct SlotAccount {
    /// The index from which the address is derived.
    pub index: u64,
    /// The slot, unless none was opened at this index or it was reclaimed.
    pub account: Option<Account<Slot>>,
}

impl Clone for SlotAccount {
    fn clone(&self) -> (copy: Self)
        ensures
            copy == *self,
    {
        SlotAccount {
            index: self.index,
            account: match &self.account {
                Some(account) => Some(
                    Account { lamports: account.lamports, data: account.data.clone() },
                ),
                None => None,
            },
        }
    }
}

/// The address that belongs to a wallet's whitelist entry, and the entry, if
/// it exists.
#[derive(Debug, PartialEq, Eq)]
pub struct WhitelistAccount {
    /// The wallet from whose key the address is derived.
    pub address: Pubkey,
    /// The entry, if the wallet is whitelisted.
    pub account: Option<Account<Whitelist>>,
}

impl Clone for WhitelistAccount {
    fn clone(&self) -> (copy: Self)
        ensures
            copy == *self,
    {
        WhitelistAccount {
            address: self.address,
            account: match &self.account {
                Some(account) => Some(Account { lamports: account.lamports, data: account.data }),
                None => None,
            },
        }
    }
}

/// Bytes that a slot with this message takes: the fixed part and the message
/// in UTF-8.
pub open spec fn spec_slot_space(message: Seq<char>) -> int {
    SLOT_BASE_SPACE + encode_utf8(message).len()
}

/// Bytes that a slot with this message takes, or `None` where that is no
/// `usize`.
pub fn slot_space(message: &str) -> (space: Option<usize>)
    ensures
        space == (if spec_slot_space(message@) <= usize::MAX {
            Some(spec_slot_space(message@) as usize)
        } else {
            None
        }),
{
    SLOT_BASE_SPACE.checked_add(message.as_bytes().len())
}

} // verus!
