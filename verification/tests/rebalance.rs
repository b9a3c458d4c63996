use sol_anon::constants::{INBOX_SPACE, SLOT_BASE_SPACE, WHITELIST_SPACE};
use sol_anon::errors::SolAnonError;
use sol_anon::rent::minimum_deposit;
use sol_anon::state::{slot_space, Account, Inbox, Signer, Slot};
use sol_anon::utils::{deposits, realloc_slot, resize, slot_deposit, Balances, Deposits, Transfer};
use solana_program::pubkey::Pubkey;
use solana_program::rent::Rent;

fn key(byte: u8) -> Pubkey {
    Pubkey::new_from_array([byte; 32])
}

fn balances(slot: u64, sender: u64, inbox: u64) -> Balances {
    Balances { slot, sender, inbox }
}

#[test]
fn record_sizes() {
    assert_eq!(INBOX_SPACE, 56);
    assert_eq!(WHITELIST_SPACE, 8);
    assert_eq!(SLOT_BASE_SPACE, 44);
}

#[test]
fn slot_space_counts_utf8_bytes() {
    assert_eq!(slot_space(""), Some(44));
    assert_eq!(slot_space("hi"), Some(46));
    assert_eq!(slot_space("hello world"), Some(55));
    // two characters, five bytes
    assert_eq!(slot_space("é€"), Some(49));
}

#[test]
fn minimum_deposit_follows_the_rent() {
    let rent = Rent::default();
    assert_eq!(rent.lamports_per_byte_year, 3480);
    assert_eq!(minimum_deposit(&rent, 0), Some(890_880));
    assert_eq!(minimum_deposit(&rent, WHITELIST_SPACE), Some(946_560));
    assert_eq!(minimum_deposit(&rent, 46), Some(1_211_040));
    assert_eq!(minimum_deposit(&rent, INBOX_SPACE), Some(1_280_640));
    assert_eq!(minimum_deposit(&Rent::free(), 1_000), Some(0));
}

#[test]
fn minimum_deposit_scales_with_the_threshold() {
    let rent = Rent { lamports_per_byte_year: 10, exemption_threshold: 1.5, burn_percent: 0 };
    assert_eq!(minimum_deposit(&rent, 72), Some(3_000));
}

#[test]
fn minimum_deposit_refuses_an_overflowing_product() {
    let steep = Rent { lamports_per_byte_year: u64::MAX, exemption_threshold: 2.0, burn_percent: 50 };
    assert_eq!(minimum_deposit(&steep, 0), None);
    let edge = Rent { lamports_per_byte_year: u64::MAX / 128, exemption_threshold: 0.0, burn_percent: 0 };
    assert_eq!(minimum_deposit(&edge, 0), Some(0));
    assert_eq!(minimum_deposit(&edge, 1), None);
    assert_eq!(minimum_deposit(&Rent::free(), usize::MAX), None);
}

#[test]
fn slot_deposit_prices_the_whole_slot() {
    let rent = Rent::default();
    assert_eq!(slot_deposit(&rent, "hi"), Some(1_211_040));
    assert_eq!(slot_deposit(&rent, "hello world"), Some(1_273_680));
    let steep = Rent { lamports_per_byte_year: u64::MAX, exemption_threshold: 2.0, burn_percent: 50 };
    assert_eq!(slot_deposit(&steep, "hi"), None);
}

#[test]
fn deposits_name_old_new_and_inbox() {
    let rent = Rent::default();
    assert_eq!(
        deposits(&rent, "hi", "hello world"),
        Some(Deposits { old_slot: 1_211_040, new_slot: 1_273_680, inbox: 1_280_640 })
    );
    let steep = Rent { lamports_per_byte_year: u64::MAX, exemption_threshold: 2.0, burn_percent: 50 };
    assert_eq!(deposits(&steep, "hi", "hello world"), None);
}

#[test]
fn transfer_moves_between_two_accounts() {
    let start = balances(10, 20, 30);
    assert_eq!(start.transfer(Transfer::SenderToSlot(5)), Ok(balances(15, 15, 30)));
    assert_eq!(start.transfer(Transfer::InboxToSlot(30)), Ok(balances(40, 20, 0)));
    assert_eq!(start.transfer(Transfer::SlotToInbox(10)), Ok(balances(0, 20, 40)));
}

#[test]
fn transfer_refuses_to_overdraw() {
    let start = balances(10, 20, 30);
    assert_eq!(start.transfer(Transfer::SenderToSlot(21)), Err(SolAnonError::AccountingUnderflow));
    assert_eq!(start.transfer(Transfer::InboxToSlot(31)), Err(SolAnonError::AccountingUnderflow));
    assert_eq!(start.transfer(Transfer::SlotToInbox(11)), Err(SolAnonError::AccountingUnderflow));
}

#[test]
fn resize_without_change_moves_nothing() {
    let start = balances(100, 50, 30);
    assert_eq!(resize(start, 100, 100, 20), Ok((start, vec![])));
}

#[test]
fn growth_is_paid_by_the_inbox_when_its_surplus_suffices() {
    // surplus 30, deficit 25
    let start = balances(100, 7, 50);
    let (after, transfers) = resize(start, 100, 125, 20).unwrap();
    assert_eq!(after, balances(125, 7, 25));
    assert_eq!(transfers, vec![Transfer::InboxToSlot(25)]);
}

#[test]
fn growth_with_exactly_enough_surplus_leaves_the_sender_alone() {
    let start = balances(100, 0, 50);
    let (after, transfers) = resize(start, 100, 130, 20).unwrap();
    assert_eq!(after, balances(130, 0, 20));
    assert_eq!(transfers, vec![Transfer::InboxToSlot(30)]);
}

#[test]
fn growth_beyond_the_surplus_charges_the_sender_first() {
    // surplus 10, deficit 40: the sender pays 30, then the inbox 10
    let start = balances(100, 50, 30);
    let (after, transfers) = resize(start, 100, 140, 20).unwrap();
    assert_eq!(after, balances(140, 20, 20));
    assert_eq!(transfers, vec![Transfer::SenderToSlot(30), Transfer::InboxToSlot(10)]);
}

#[test]
fn growth_without_surplus_is_paid_by_the_sender() {
    // the inbox holds less than its own deposit: it has no surplus
    let start = balances(100, 50, 15);
    let (after, transfers) = resize(start, 100, 140, 20).unwrap();
    assert_eq!(after, balances(140, 10, 15));
    assert_eq!(transfers, vec![Transfer::SenderToSlot(40)]);
}

#[test]
fn growth_fails_when_the_sender_is_short() {
    let start = balances(100, 29, 30);
    assert_eq!(resize(start, 100, 140, 20), Err(SolAnonError::AccountingUnderflow));
}

#[test]
fn shrink_goes_to_the_inbox() {
    let start = balances(100, 50, 30);
    let (after, transfers) = resize(start, 100, 40, 20).unwrap();
    assert_eq!(after, balances(40, 50, 90));
    assert_eq!(transfers, vec![Transfer::SlotToInbox(60)]);
}

#[test]
fn shrink_fails_when_the_slot_is_short() {
    let start = balances(59, 50, 30);
    assert_eq!(resize(start, 100, 40, 20), Err(SolAnonError::AccountingUnderflow));
}

#[test]
fn resize_conserves_lamports() {
    let cases = [(100u64, 140u64), (100, 125), (100, 40), (100, 100), (0, 90), (90, 0)];
    for (old_min, new_min) in cases {
        let start = balances(100, 500, 30);
        let (after, _) = resize(start, old_min, new_min, 20).unwrap();
        assert_eq!(after.slot + after.sender + after.inbox, 630);
    }
}

#[test]
fn resize_plan_replays_step_by_step() {
    let start = balances(100, 50, 30);
    let (after, transfers) = resize(start, 100, 140, 20).unwrap();
    let mut current = start;
    for transfer in transfers {
        current = current.transfer(transfer).unwrap();
    }
    assert_eq!(current, after);
}

#[test]
fn resize_works_at_the_top_of_the_range() {
    let start = balances(0, u64::MAX, 0);
    let (after, transfers) = resize(start, 0, u64::MAX, 0).unwrap();
    assert_eq!(after, balances(u64::MAX, 0, 0));
    assert_eq!(transfers, vec![Transfer::SenderToSlot(u64::MAX)]);
}

fn slot_with(message: &str, lamports: u64) -> Account<Slot> {
    Account { lamports, data: Slot { to: key(9), message: message.to_string() } }
}

fn inbox_with(lamports: u64) -> Account<Inbox> {
    Account {
        lamports,
        data: Inbox { admin: key(1), latest_free_slot: 3, latest_whitelisted_slot: 1 },
    }
}

#[test]
fn realloc_slot_grows_on_the_senders_account() {
    let rent = Rent::default();
    let mut slot = slot_with("hi", 1_211_040);
    let mut inbox = inbox_with(1_280_640);
    let mut sender = Signer { key: key(2), lamports: 100_000 };
    let transfers = realloc_slot(&mut slot, "hello world", &mut inbox, &mut sender, &rent).unwrap();
    assert_eq!(transfers, vec![Transfer::SenderToSlot(62_640)]);
    assert_eq!(slot, slot_with("hi", 1_273_680));
    assert_eq!(inbox, inbox_with(1_280_640));
    assert_eq!(sender, Signer { key: key(2), lamports: 37_360 });
}

#[test]
fn realloc_slot_draws_on_the_inbox_before_the_sender() {
    let rent = Rent::default();
    let mut slot = slot_with("hi", 1_211_040);
    let mut inbox = inbox_with(1_280_640 + 2_640);
    let mut sender = Signer { key: key(2), lamports: 100_000 };
    let transfers = realloc_slot(&mut slot, "hello world", &mut inbox, &mut sender, &rent).unwrap();
    assert_eq!(transfers, vec![Transfer::SenderToSlot(60_000), Transfer::InboxToSlot(2_640)]);
    assert_eq!(slot.lamports, 1_273_680);
    assert_eq!(inbox.lamports, 1_280_640);
    assert_eq!(sender.lamports, 40_000);
}

#[test]
fn realloc_slot_shrinks_into_the_inbox() {
    let rent = Rent::default();
    let mut slot = slot_with("hello world", 1_273_680);
    let mut inbox = inbox_with(1_280_640);
    let mut sender = Signer { key: key(2), lamports: 5 };
    let transfers = realloc_slot(&mut slot, "hi", &mut inbox, &mut sender, &rent).unwrap();
    assert_eq!(transfers, vec![Transfer::SlotToInbox(62_640)]);
    assert_eq!(slot, slot_with("hello world", 1_211_040));
    assert_eq!(inbox.lamports, 1_343_280);
    assert_eq!(sender.lamports, 5);
}

#[test]
fn realloc_slot_of_equal_size_moves_nothing() {
    let rent = Rent::default();
    let mut slot = slot_with("ab", 1_211_040);
    let mut inbox = inbox_with(2_000_000);
    let mut sender = Signer { key: key(2), lamports: 5 };
    assert_eq!(realloc_slot(&mut slot, "cd", &mut inbox, &mut sender, &rent), Ok(vec![]));
    assert_eq!(slot, slot_with("ab", 1_211_040));
    assert_eq!(inbox.lamports, 2_000_000);
    assert_eq!(sender.lamports, 5);
}

#[test]
fn realloc_slot_fails_whole_when_the_sender_is_short() {
    let rent = Rent::default();
    let mut slot = slot_with("hi", 1_211_040);
    let mut inbox = inbox_with(1_280_640 + 2_640);
    let mut sender = Signer { key: key(2), lamports: 59_999 };
    assert_eq!(
        realloc_slot(&mut slot, "hello world", &mut inbox, &mut sender, &rent),
        Err(SolAnonError::AccountingUnderflow)
    );
    assert_eq!(slot, slot_with("hi", 1_211_040));
    assert_eq!(inbox, inbox_with(1_280_640 + 2_640));
    assert_eq!(sender, Signer { key: key(2), lamports: 59_999 });
}

#[test]
fn realloc_slot_fails_when_no_deposit_can_be_computed() {
    let steep = Rent { lamports_per_byte_year: u64::MAX, exemption_threshold: 2.0, burn_percent: 50 };
    let mut slot = slot_with("hi", 10);
    let mut inbox = inbox_with(10);
    let mut sender = Signer { key: key(2), lamports: 10 };
    assert_eq!(
        realloc_slot(&mut slot, "hello world", &mut inbox, &mut sender, &steep),
        Err(SolAnonError::AccountingUnderflow)
    );
    assert_eq!(slot.lamports + inbox.lamports + sender.lamports, 30);
}

#[test]
fn clones_are_equal() {
    let slot = slot_with("hi", 7);
    assert_eq!(slot.clone(), slot);
    assert_eq!(slot.data.clone(), Slot { to: key(9), message: "hi".to_string() });
    let place = sol_anon::state::SlotAccount { index: 4, account: Some(slot) };
    assert_eq!(place.clone(), place);
    let empty = sol_anon::state::SlotAccount { index: 4, account: None };
    assert_eq!(empty.clone(), empty);
    let entry = sol_anon::state::WhitelistAccount {
        address: key(3),
        account: Some(Account { lamports: 5, data: sol_anon::state::Whitelist {} }),
    };
    assert_eq!(entry.clone(), entry);
    let inbox = inbox_with(3);
    assert_eq!(inbox.clone(), inbox);
}
