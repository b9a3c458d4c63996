//! Keeping a slot's deposit in step with the size of its message.
//!
//! When a whitelisted message replaces another, the slot needs the deposit of
//! its new size. What is missing comes from the inbox's surplus first and from
//! the sender for the rest; what a shorter message frees goes to the inbox and
//! never to the sender, so that nobody gains by sending short messages.

use crate::constants::INBOX_SPACE;
use crate::errors::SolAnonError;
use crate::rent::{minimum_deposit, spec_minimum_deposit};
use crate::state::{slot_space, spec_slot_space, Account, Inbox, Signer, Slot};
use solana_program::rent::Rent;
use vstd::prelude::*;

verus! {

/// One movement of lamports between the three accounts that a whitelisted
/// message touches.
#[derive(Clone, Copy, Debug, PartialEq, Eq, Structural)]
pub enum Transfer {
    /// The sender pays into the slot.
    SenderToSlot(u64),
    /// The inbox hands surplus to the slot.
    InboxToSlot(u64),
    /// The slot hands to the inbox what it no longer needs.
    SlotToInbox(u64),
}

/// The balances of the three accounts that a whitelisted message touches.
#[derive(Clone, Copy, Debug, PartialEq, Eq, Structural)]
pub struct Balances {
    /// The slot's balance.
    pub slot: u64,
    /// The sender's balance.
    pub sender: u64,
    /// The inbox's balance.
    pub inbox: u64,
}

impl Balances {
    /// All the lamports that the three accounts hold.
    pub open spec fn total(self) -> int {
        self.slot + self.sender + self.inbox
    }

    /// The three balances together are an amount of lamports.
    pub open spec fn wf(self) -> bool {
        self.total() <= u64::MAX
    }

    /// The balances after one transfer, or `None` where the paying account
    /// holds less than the amount.
    pub open spec fn apply(self, transfer: Transfer) -> Option<Balances> {
        match transfer {
            Transfer::SenderToSlot(lamports) => if lamports <= self.sender {
                Some(
                    Balances {
                        slot: (self.slot + lamports) as u64,
                        sender: (self.sender - lamports) as u64,
                        inbox: self.inbox,
                    },
                )
            } else {
                None
            },
            Transfer::InboxToSlot(lamports) => if lamports <= self.inbox {
                Some(
                    Balances {
                        slot: (self.slot + lamports) as u64,
                        sender: self.sender,
                        inbox: (self.inbox - lamports) as u64,
                    },
                )
            } else {
                None
            },
            Transfer::SlotToInbox(lamports) => if lamports <= self.slot {
                Some(
                    Balances {
                        slot: (self.slot - lamports) as u64,
                        sender: self.sender,
                        inbox: (self.inbox + lamports) as u64,
                    },
                )
            } else {
                None
            },
        }
    }

    /// The balances after the transfers, made one after another in the order
    /// of the sequence, or `None` where one of them finds its paying account
    /// short.
    pub open spec fn apply_all(self, transfers: Seq<Transfer>) -> Option<Balances>
        decreases transfers.len(),
    {
        if transfers.len() == 0 {
            Some(self)
        } else {
            match self.apply(transfers[0]) {
                Some(next) => next.apply_all(transfers.skip(1)),
                None => None,
            }
        }
    }

    /// Makes one transfer, after checking that the paying account holds the
    /// amount.
    pub fn transfer(self, transfer: Transfer) -> (r: Result<Balances, SolAnonError>)
        requires
            self.wf(),
        ensures
            match self.apply(transfer) {
                Some(after) => r == Ok::<Balances, SolAnonError>(after) && after.total()
                    == self.total(),
                None => r == Err::<Balances, SolAnonError>(SolAnonError::AccountingUnderflow),
            },
    {
        match transfer {
            Transfer::SenderToSlot(lamports) => {
                if lamports > self.sender {
                    return Err(SolAnonError::AccountingUnderflow);
                }
                Ok(
                    Balances {
                        slot: self.slot + lamports,
                        sender: self.sender - lamports,
                        inbox: self.inbox,
                    },
                )
            },
            Transfer::InboxToSlot(lamports) => {
                if lamports > self.inbox {
                    return Err(SolAnonError::AccountingUnderflow);
                }
                Ok(
                    Balances {
                        slot: self.slot + lamports,
                        sender: self.sender,
                        inbox: self.inbox - lamports,
                    },
                )
            },
            Transfer::SlotToInbox(lamports) => {
                if lamports > self.slot {
                    return Err(SolAnonError::AccountingUnderflow);
                }
                Ok(
                    Balances {
                        slot: self.slot - lamports,
                        sender: self.sender,
                        inbox: self.inbox + lamports,
                    },
                )
            },
        }
    }
}

/// What an account holds beyond the deposit that it must keep.
pub open spec fn spec_surplus(lamports: u64, minimum: u64) -> u64 {
    if lamports > minimum {
        (lamports - minimum) as u64
    } else {
        0
    }
}

/// What the inbox gives towards a slot's new deposit: all that is missing,
/// as far as the inbox's surplus reaches.
pub open spec fn inbox_share(balances: Balances, old_min: u64, new_min: u64, inbox_min: u64) -> u64
    recommends
        new_min > old_min,
{
    let deficit = (new_min - old_min) as u64;
    let surplus = spec_surplus(balances.inbox, inbox_min);
    if deficit <= surplus {
        deficit
    } else {
        surplus
    }
}

/// What is left for the sender to pay towards a slot's new deposit.
pub open spec fn sender_share(balances: Balances, old_min: u64, new_min: u64, inbox_min: u64) -> u64
    recommends
        new_min > old_min,
{
    (new_min - old_min - inbox_share(balances, old_min, new_min, inbox_min)) as u64
}

/// The transfers that take a slot from the deposit of its old size to that of
/// its new size, in the order in which they are made. The sender's payment
/// comes before the inbox's: the network checks every transfer of a
/// transaction by itself, and does not accept them the other way round.
pub open spec fn resize_plan(
    balances: Balances,
    old_min: u64,
    new_min: u64,
    inbox_min: u64,
) -> Seq<Transfer> {
    if new_min > old_min {
        let from_sender = sender_share(balances, old_min, new_min, inbox_min);
        let from_inbox = inbox_share(balances, old_min, new_min, inbox_min);
        let first = if from_sender > 0 {
            seq![Transfer::SenderToSlot(from_sender)]
        } else {
            Seq::<Transfer>::empty()
        };
        if from_inbox > 0 {
            first.push(Transfer::InboxToSlot(from_inbox))
        } else {
            first
        }
    } else if new_min < old_min {
        seq![Transfer::SlotToInbox((old_min - new_min) as u64)]
    } else {
        Seq::<Transfer>::empty()
    }
}

/// The balances after a slot went from the deposit of its old size to that of
/// its new size.
///
/// A larger deposit: the slot gains the difference, the inbox loses its share
/// and the sender the rest, unless the sender holds less than that. A smaller
/// deposit: the slot loses the difference and the inbox gains it, unless the
/// slot holds less than that. The same deposit: nothing moves.
pub open spec fn spec_resize(
    balances: Balances,
    old_min: u64,
    new_min: u64,
    inbox_min: u64,
) -> Result<Balances, SolAnonError> {
    if new_min > old_min {
        let from_sender = sender_share(balances, old_min, new_min, inbox_min);
        let from_inbox = inbox_share(balances, old_min, new_min, inbox_min);
        if from_sender <= balances.sender {
            Ok(
                Balances {
                    slot: (balances.slot + (new_min - old_min)) as u64,
                    sender: (balances.sender - from_sender) as u64,
                    inbox: (balances.inbox - from_inbox) as u64,
                },
            )
        } else {
            Err(SolAnonError::AccountingUnderflow)
        }
    } else if new_min < old_min {
        let freed = (old_min - new_min) as u64;
        if freed <= balances.slot {
            Ok(
                Balances {
                    slot: (balances.slot - freed) as u64,
                    sender: balances.sender,
                    inbox: (balances.inbox + freed) as u64,
                },
            )
        } else {
            Err(SolAnonError::AccountingUnderflow)
        }
    } else {
        Ok(balances)
    }
}

/// Takes a slot from the deposit of its old size, `old_min`, to that of its
/// new size, `new_min`, where the inbox must keep `inbox_min` for itself.
/// Returns the balances afterwards and the transfers that lead there, in the
/// order in which they are to be made.
pub fn resize(balances: Balances, old_min: u64, new_min: u64, inbox_min: u64) -> (r: Result<
    (Balances, Vec<Transfer>),
    SolAnonError,
>)
    requires
        balances.wf(),
    ensures
        match spec_resize(balances, old_min, new_min, inbox_min) {
            Ok(after) => r is Ok && r->Ok_0.0 == after && r->Ok_0.1@ == resize_plan(
                balances,
                old_min,
                new_min,
                inbox_min,
            ) && balances.apply_all(r->Ok_0.1@) == Some(after) && after.total()
                == balances.total(),
            Err(e) => r == Err::<(Balances, Vec<Transfer>), SolAnonError>(e),
        },
{
    let mut transfers: Vec<Transfer> = Vec::new();
    let mut current = balances;
    if new_min > old_min {
        let deficit: u64 = new_min - old_min;
        let surplus: u64 = balances.inbox.saturating_sub(inbox_min);
        let from_inbox: u64 = if deficit <= surplus {
            deficit
        } else {
            surplus
        };
        let from_sender: u64 = deficit - from_inbox;
        if from_sender > 0 {
            let payment = Transfer::SenderToSlot(from_sender);
            match current.transfer(payment) {
                Ok(after) => {
                    current = after;
                },
                Err(e) => {
                    return Err(e);
                },
            }
            transfers.push(payment);
        }
        if from_inbox > 0 {
            let draw = Transfer::InboxToSlot(from_inbox);
            match current.transfer(draw) {
                Ok(after) => {
                    current = after;
                },
                Err(e) => {
                    return Err(e);
                },
            }
            transfers.push(draw);
        }
    } else if new_min < old_min {
        let refund = Transfer::SlotToInbox(old_min - new_min);
        match current.transfer(refund) {
            Ok(after) => {
                current = after;
            },
            Err(e) => {
                return Err(e);
            },
        }
        transfers.push(refund);
    }
    proof {
        lemma_plan_applies(balances, old_min, new_min, inbox_min);
    }
    Ok((current, transfers))
}

/// The three deposits that a resize goes by.
#[derive(Clone, Copy, Debug, PartialEq, Eq, Structural)]
pub struct Deposits {
    /// The deposit of the slot at the size of the message that it holds.
    pub old_slot: u64,
    /// The deposit of the slot at the size of the message that it is to hold.
    pub new_slot: u64,
    /// The deposit that the inbox keeps for itself.
    pub inbox: u64,
}

/// The deposit of a slot that holds this message, where it can be computed.
pub open spec fn spec_slot_deposit(rent: Rent, message: Seq<char>) -> Option<u64> {
    if spec_slot_space(message) <= usize::MAX {
        spec_minimum_deposit(rent, spec_slot_space(message) as usize)
    } else {
        None
    }
}

/// The deposit of a slot that holds this message, or `None` where the slot's
/// size or its deposit is beyond the machine's numbers.
pub fn slot_deposit(rent: &Rent, message: &str) -> (deposit: Option<u64>)
    ensures
        deposit == spec_slot_deposit(*rent, message@),
{
    match slot_space(message) {
        Some(space) => minimum_deposit(rent, space),
        None => None,
    }
}

/// Whether a slot holds at least the rent-exempt deposit of its size.
pub open spec fn slot_is_funded(slot: Account<Slot>, rent: Rent) -> bool {
    match spec_slot_deposit(rent, slot.data.message@) {
        Some(deposit) => slot.lamports >= deposit,
        None => false,
    }
}

/// The deposits by which a slot goes from one message to another, where all
/// three can be computed.
pub open spec fn spec_deposits(rent: Rent, old_message: Seq<char>, new_message: Seq<char>) -> Option<
    Deposits,
> {
    match (
        spec_slot_deposit(rent, old_message),
        spec_slot_deposit(rent, new_message),
        spec_minimum_deposit(rent, INBOX_SPACE),
    ) {
        (Some(old_slot), Some(new_slot), Some(inbox)) => Some(
            Deposits { old_slot, new_slot, inbox },
        ),
        _ => None,
    }
}

/// The deposits by which a slot goes from one message to another, or `None`
/// where one of them cannot be computed.
pub fn deposits(rent: &Rent, old_message: &str, new_message: &str) -> (r: Option<Deposits>)
    ensures
        r == spec_deposits(*rent, old_message@, new_message@),
{
    let old_slot: u64 = match slot_deposit(rent, old_message) {
        Some(lamports) => lamports,
        None => {
            return None;
        },
    };
    let new_slot: u64 = match slot_deposit(rent, new_message) {
        Some(lamports) => lamports,
        None => {
            return None;
        },
    };
    match minimum_deposit(rent, INBOX_SPACE) {
        Some(inbox) => Some(Deposits { old_slot, new_slot, inbox }),
        None => None,
    }
}

/// The balances of a slot, a sender and the inbox, side by side.
pub open spec fn balances_of(slot: Account<Slot>, sender: Signer, inbox: Account<Inbox>) -> Balances {
    Balances { slot: slot.lamports, sender: sender.lamports, inbox: inbox.lamports }
}

/// Brings a slot's balance to the deposit that `message` needs, before the
/// message is stored in it, and returns the transfers that did so, in the
/// order in which they were made. The records themselves stay as they are.
///
/// Fails with `AccountingUnderflow`, and moves nothing, where a deposit
/// cannot be computed or an account cannot pay its part.
pub fn realloc_slot(
    slot: &mut Account<Slot>,
    message: &str,
    inbox: &mut Account<Inbox>,
    sender: &mut Signer,
    rent: &Rent,
) -> (r: Result<Vec<Transfer>, SolAnonError>)
    requires
        balances_of(*old(slot), *old(sender), *old(inbox)).wf(),
    ensures
        final(slot).data == old(slot).data,
        final(inbox).data == old(inbox).data,
        final(sender).key == old(sender).key,
        match spec_deposits(*rent, old(slot).data.message@, message@) {
            Some(due) => {
                let before = balances_of(*old(slot), *old(sender), *old(inbox));
                match spec_resize(before, due.old_slot, due.new_slot, due.inbox) {
                    Ok(after) => r is Ok && r->Ok_0@ == resize_plan(
                        before,
                        due.old_slot,
                        due.new_slot,
                        due.inbox,
                    ) && balances_of(*final(slot), *final(sender), *final(inbox)) == after,
                    Err(e) => r == Err::<Vec<Transfer>, SolAnonError>(e) && balances_of(
                        *final(slot),
                        *final(sender),
                        *final(inbox),
                    ) == before,
                }
            },
            None => r == Err::<Vec<Transfer>, SolAnonError>(SolAnonError::AccountingUnderflow)
                && balances_of(*final(slot), *final(sender), *final(inbox)) == balances_of(
                *old(slot),
                *old(sender),
                *old(inbox),
            ),
        },
{
    let due = match deposits(rent, slot.data.message.as_str(), message) {
        Some(due) => due,
        None => {
            return Err(SolAnonError::AccountingUnderflow);
        },
    };
    let before = Balances { slot: slot.lamports, sender: sender.lamports, inbox: inbox.lamports };
    match resize(before, due.old_slot, due.new_slot, due.inbox) {
        Ok((after, transfers)) => {
            slot.lamports = after.slot;
            sender.lamports = after.sender;
            inbox.lamports = after.inbox;
            Ok(transfers)
        },
        Err(e) => Err(e),
    }
}

/// The transfers of a resize, made one by one in their order, each find their
/// paying account able to pay, and lead to the balances that the resize
/// gives: at no step is a balance overdrawn.
pub proof fn lemma_plan_applies(balances: Balances, old_min: u64, new_min: u64, inbox_min: u64)
    requires
        balances.wf(),
    ensures
        spec_resize(balances, old_min, new_min, inbox_min) matches Ok(after)
            ==> balances.apply_all(resize_plan(balances, old_min, new_min, inbox_min)) == Some(
            after,
        ),
{
    let plan = resize_plan(balances, old_min, new_min, inbox_min);
    if spec_resize(balances, old_min, new_min, inbox_min) is Ok {
        if plan.len() == 0 {
        } else if plan.len() == 1 {
            let one = balances.apply(plan[0])->Some_0;
            assert(plan.skip(1).len() == 0);
            assert(one.apply_all(plan.skip(1)) == Some(one));
        } else {
            let one = balances.apply(plan[0])->Some_0;
            let rest = plan.skip(1);
            assert(rest.len() == 1);
            assert(rest[0] == plan[1]);
            let two = one.apply(rest[0])->Some_0;
            assert(rest.skip(1).len() == 0);
            assert(two.apply_all(rest.skip(1)) == Some(two));
            assert(one.apply_all(rest) == Some(two));
        }
    }
}

} // verus!
