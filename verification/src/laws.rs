//! What holds of the instructions taken together.

use crate::errors::SolAnonError;
use crate::instructions::inbox::{spec_change_admin, spec_sweep, ChangeAdmin, WithdrawSurplusInboxBalance};
use crate::instructions::messages::{
    spec_gated_transfers, spec_reclaim, spec_send_gated, spec_send_open, ReclaimSlot,
    SendRegularMessage, SendWhitelistedMessage,
};
use crate::state::{Inbox, Signer, SlotAccount, WhitelistAccount};
use crate::utils::{
    lemma_plan_applies, resize_plan, slot_is_funded, spec_resize, spec_slot_deposit, spec_surplus,
    Balances, Deposits, Transfer,
};
use solana_program::pubkey::Pubkey;
use solana_program::rent::Rent;
use vstd::prelude::*;

verus! {

/// Whether each inbox of a history follows from the one before it as an
/// instruction may change it.
pub open spec fn is_history(history: Seq<Inbox>) -> bool {
    forall|i: int|
        0 <= i < history.len() - 1 ==> (#[trigger] history[i]).advances_to(history[i + 1])
}

/// Over any run of instructions neither counter ever falls, and if the
/// counters were in order at the start they are in order after every
/// instruction.
pub proof fn lemma_counters_never_fall(history: Seq<Inbox>, i: int, j: int)
    requires
        is_history(history),
        0 <= i <= j < history.len(),
    ensures
        history[i].latest_free_slot <= history[j].latest_free_slot,
        history[i].latest_whitelisted_slot <= history[j].latest_whitelisted_slot,
        history[i].counters_in_order() ==> history[j].counters_in_order(),
    decreases j - i,
{
    if i < j {
        lemma_counters_never_fall(history, i, j - 1);
        assert(history[j - 1].advances_to(history[j - 1 + 1]));
    }
}

/// A regular message that succeeds advances the free counter by one and
/// leaves the whitelisted counter alone.
pub proof fn lemma_send_open_advances(
    ctx: SendRegularMessage,
    message: String,
    to: Pubkey,
    deposit: Option<u64>,
)
    ensures
        spec_send_open(ctx, message, to, deposit) matches Ok(after) ==> {
            &&& ctx.inbox.data.advances_to(after.inbox.data)
            &&& after.inbox.data.latest_free_slot == ctx.inbox.data.latest_free_slot + 1
            &&& after.inbox.data.latest_whitelisted_slot == ctx.inbox.data.latest_whitelisted_slot
        },
{
}

/// A whitelisted message that succeeds advances the whitelisted counter by
/// one, not beyond the free counter, which it leaves alone.
pub proof fn lemma_send_gated_advances(
    ctx: SendWhitelistedMessage,
    message: String,
    to: Pubkey,
    due: Option<Deposits>,
)
    ensures
        spec_send_gated(ctx, message, to, due) matches Ok(after) ==> {
            &&& ctx.inbox.data.advances_to(after.inbox.data)
            &&& after.inbox.data.latest_whitelisted_slot == ctx.inbox.data.latest_whitelisted_slot
                + 1
            &&& after.inbox.data.latest_free_slot == ctx.inbox.data.latest_free_slot
            &&& after.inbox.data.counters_in_order()
        },
{
}

/// A change of administrator leaves both counters alone.
pub proof fn lemma_change_admin_keeps_counters(ctx: ChangeAdmin, new_admin: Pubkey)
    ensures
        spec_change_admin(ctx, new_admin) matches Ok(after) ==> {
            &&& ctx.inbox.data.advances_to(after.inbox.data)
            &&& after.inbox.data.latest_free_slot == ctx.inbox.data.latest_free_slot
            &&& after.inbox.data.latest_whitelisted_slot == ctx.inbox.data.latest_whitelisted_slot
        },
{
}

/// A resize moves lamports between the slot, the sender and the inbox and
/// neither makes nor loses any.
pub proof fn lemma_resize_conserves(balances: Balances, old_min: u64, new_min: u64, inbox_min: u64)
    requires
        balances.wf(),
    ensures
        spec_resize(balances, old_min, new_min, inbox_min) matches Ok(after) ==> after.total()
            == balances.total(),
{
}

/// A single transfer takes from one account exactly what it gives to
/// another.
pub proof fn lemma_transfer_conserves(balances: Balances, transfer: Transfer)
    requires
        balances.wf(),
    ensures
        balances.apply(transfer) matches Some(after) ==> after.total() == balances.total(),
{
}

/// While the transfers of a resize are made, one after another, no account
/// is ever asked for more than it holds: however many of them have been made,
/// the balances are amounts of lamports, and together the same amount as at
/// the start.
pub proof fn lemma_no_step_overdraws(
    balances: Balances,
    old_min: u64,
    new_min: u64,
    inbox_min: u64,
    steps: int,
)
    requires
        balances.wf(),
        spec_resize(balances, old_min, new_min, inbox_min) is Ok,
        0 <= steps <= resize_plan(balances, old_min, new_min, inbox_min).len(),
    ensures
        balances.apply_all(resize_plan(balances, old_min, new_min, inbox_min).take(steps))
            matches Some(now) && now.total() == balances.total(),
{
    let plan = resize_plan(balances, old_min, new_min, inbox_min);
    let made = plan.take(steps);
    lemma_plan_applies(balances, old_min, new_min, inbox_min);
    if steps == 0 {
    } else if steps == plan.len() {
        assert(made =~= plan);
    } else {
        assert(made.len() == 1 && made[0] == plan[0]);
        let one = balances.apply(made[0])->Some_0;
        assert(made.skip(1).len() == 0);
        assert(one.apply_all(made.skip(1)) == Some(one));
    }
}

/// A whitelisted message moves lamports between its slot, its sender and the
/// inbox and neither makes nor loses any.
pub proof fn lemma_send_gated_conserves(
    ctx: SendWhitelistedMessage,
    message: String,
    to: Pubkey,
    due: Deposits,
)
    requires
        ctx.balances().wf(),
    ensures
        spec_send_gated(ctx, message, to, Some(due)) matches Ok(after) ==> after.balances().total()
            == ctx.balances().total(),
{
}

/// A slot that covered its old deposit covers its new deposit after a
/// resize, and an inbox that covered its own deposit still does.
pub proof fn lemma_deposits_stay_covered(
    balances: Balances,
    old_min: u64,
    new_min: u64,
    inbox_min: u64,
)
    requires
        balances.wf(),
    ensures
        spec_resize(balances, old_min, new_min, inbox_min) matches Ok(after) ==> {
            &&& balances.slot >= old_min ==> after.slot >= new_min
            &&& balances.inbox >= inbox_min ==> after.inbox >= inbox_min
        },
{
}

/// A slot that a regular message has opened holds exactly the rent-exempt
/// deposit of its size.
pub proof fn lemma_opened_slot_is_funded(
    ctx: SendRegularMessage,
    message: String,
    to: Pubkey,
    rent: Rent,
)
    ensures
        spec_send_open(ctx, message, to, spec_slot_deposit(rent, message@)) matches Ok(after) ==> {
            &&& after.slot.account is Some
            &&& slot_is_funded(after.slot.account->Some_0, rent)
            &&& Some(after.slot.account->Some_0.lamports) == spec_slot_deposit(rent, message@)
        },
{
}

/// A slot that held the rent-exempt deposit of its size still does after a
/// whitelisted message has overwritten it.
pub proof fn lemma_overwritten_slot_stays_funded(
    ctx: SendWhitelistedMessage,
    message: String,
    to: Pubkey,
    rent: Rent,
)
    requires
        ctx.balances().wf(),
        ctx.slot.account is Some ==> slot_is_funded(ctx.slot.account->Some_0, rent),
    ensures
        spec_send_gated(ctx, message, to, ctx.spec_due(rent, message@)) matches Ok(after) ==> {
            &&& after.slot.account is Some
            &&& slot_is_funded(after.slot.account->Some_0, rent)
        },
{
}

/// When a whitelisted message needs a smaller deposit than the one it
/// replaces, what the slot gives up goes to the inbox, in one transfer, and
/// the sender's balance stays as it is.
pub proof fn lemma_shrink_goes_to_inbox(
    ctx: SendWhitelistedMessage,
    message: String,
    to: Pubkey,
    due: Deposits,
)
    requires
        ctx.balances().wf(),
        due.new_slot < due.old_slot,
    ensures
        spec_send_gated(ctx, message, to, Some(due)) matches Ok(after) ==> {
            &&& after.sender.lamports == ctx.sender.lamports
            &&& after.inbox.lamports == ctx.inbox.lamports + (due.old_slot - due.new_slot)
            &&& after.balances().slot == ctx.balances().slot - (due.old_slot - due.new_slot)
            &&& spec_gated_transfers(ctx, due) == seq![
                Transfer::SlotToInbox((due.old_slot - due.new_slot) as u64),
            ]
        },
{
    assert(spec_gated_transfers(ctx, due) =~= seq![
        Transfer::SlotToInbox((due.old_slot - due.new_slot) as u64),
    ]);
}

/// When a whitelisted message needs a larger deposit than the one it
/// replaces and the inbox's surplus covers the difference, the message is
/// sent whatever the sender holds: the inbox pays the difference, in one
/// transfer, and the sender's balance stays as it is.
pub proof fn lemma_growth_draws_on_inbox_first(
    ctx: SendWhitelistedMessage,
    message: String,
    to: Pubkey,
    due: Deposits,
)
    requires
        ctx.balances().wf(),
        ctx.refusal() is None,
        due.new_slot > due.old_slot,
        spec_surplus(ctx.inbox.lamports, due.inbox) >= due.new_slot - due.old_slot,
    ensures
        spec_send_gated(ctx, message, to, Some(due)) is Ok,
        ({
            let after = spec_send_gated(ctx, message, to, Some(due))->Ok_0;
            &&& after.sender.lamports == ctx.sender.lamports
            &&& after.inbox.lamports == ctx.inbox.lamports - (due.new_slot - due.old_slot)
            &&& after.balances().slot == ctx.balances().slot + (due.new_slot - due.old_slot)
        }),
        spec_gated_transfers(ctx, due) == seq![
            Transfer::InboxToSlot((due.new_slot - due.old_slot) as u64),
        ],
{
    assert(spec_gated_transfers(ctx, due) =~= seq![
        Transfer::InboxToSlot((due.new_slot - due.old_slot) as u64),
    ]);
}

/// A whitelisted sender is turned away with `InvariantViolation` while the
/// whitelisted counter has caught up with the free counter. Once a regular
/// message has opened the slot at that index, the same sender is admitted to
/// it, and the message is sent if the resize can be paid.
pub proof fn lemma_gated_write_waits_for_open_write(
    open: SendRegularMessage,
    first: String,
    first_to: Pubkey,
    deposit: u64,
    whitelist: WhitelistAccount,
    sender: Signer,
    message: String,
    to: Pubkey,
    due: Deposits,
)
    requires
        open.inbox.data.latest_whitelisted_slot == open.inbox.data.latest_free_slot,
        whitelist.address == sender.key,
        whitelist.account is Some,
    ensures
        spec_send_gated(
            SendWhitelistedMessage { inbox: open.inbox, slot: open.slot, whitelist, sender },
            message,
            to,
            Some(due),
        ) == Err::<SendWhitelistedMessage, SolAnonError>(SolAnonError::InvariantViolation),
        spec_send_open(open, first, first_to, Some(deposit)) matches Ok(opened) ==> {
            let gated = SendWhitelistedMessage {
                inbox: opened.inbox,
                slot: opened.slot,
                whitelist,
                sender,
            };
            &&& gated.refusal() is None
            &&& spec_send_gated(gated, message, to, Some(due)) is Ok <==> spec_resize(
                gated.balances(),
                due.old_slot,
                due.new_slot,
                due.inbox,
            ) is Ok
        },
{
}

/// After a regular message has opened a slot, whoever tries to open the same
/// slot is turned away with `ConcurrencyConflict`, and is admitted to the
/// slot at the counter as it is now, which nobody has opened, unless the
/// counter has reached its end.
pub proof fn lemma_open_write_is_exclusive(
    ctx: SendRegularMessage,
    message: String,
    to: Pubkey,
    deposit: u64,
    late: Signer,
)
    ensures
        spec_send_open(ctx, message, to, Some(deposit)) matches Ok(after) ==> {
            let same = SendRegularMessage { inbox: after.inbox, slot: after.slot, sender: late };
            let next = SendRegularMessage {
                inbox: after.inbox,
                slot: SlotAccount { index: after.inbox.data.latest_free_slot, account: None },
                sender: late,
            };
            &&& same.refusal() == Some(SolAnonError::ConcurrencyConflict)
            &&& after.inbox.data.latest_free_slot < u64::MAX ==> next.refusal() is None
        },
{
}

/// A slot that was opened and then reclaimed is not opened again: a regular
/// message for its index is turned away with `InvariantViolation`.
pub proof fn lemma_reclaimed_index_is_retired(ctx: ReclaimSlot, sender: Signer)
    requires
        ctx.slot.index < ctx.inbox.data.latest_free_slot,
    ensures
        spec_reclaim(ctx) matches Ok(after) ==> {
            let again = SendRegularMessage { inbox: after.inbox, slot: after.slot, sender };
            again.refusal() == Some(SolAnonError::InvariantViolation)
        },
{
}

/// A withdrawal leaves the inbox without surplus, so that a second one right
/// after it moves nothing.
pub proof fn lemma_sweep_is_idempotent(ctx: WithdrawSurplusInboxBalance, deposit: u64)
    requires
        ctx.inbox.lamports + ctx.admin.lamports <= u64::MAX,
    ensures
        spec_sweep(ctx, Some(deposit)) matches Ok(after) ==> {
            &&& spec_surplus(after.inbox.lamports, deposit) == 0
            &&& spec_sweep(after, Some(deposit)) is Ok
            &&& spec_sweep(after, Some(deposit))->Ok_0 == after
        },
{
}

} // verus!
