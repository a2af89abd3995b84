use ticket_event::account::AccountId;
use ticket_event::event::TicketEvent;
use ticket_event::ticket::Ticket;
use ticket_event::ticket::TicketRef;

fn alice() -> AccountId {
    AccountId::from([0x1; 32])
}

fn bob() -> AccountId {
    AccountId::from([0x2; 32])
}

/// Opens a ledger as the first account does: the supply account is asked
/// for first, and its handle goes into the ledger.
fn open(total_tickets: u128) -> TicketEvent {
    let request = TicketEvent::instantiation(
        total_tickets,
        1337,
        ticket_event::account::Hash::from([0x42; 32]),
    );
    assert_eq!(request.init_value, total_tickets);
    TicketEvent::new(
        alice(),
        total_tickets,
        "Test_Name".to_string(),
        "Test_Location".to_string(),
        "Test_Symbol".to_string(),
        "Test_Date".to_string(),
        55,
        TicketRef::from_account_id(AccountId::from([0x7; 32])),
    )
}

#[test]
fn create_event_works() {
    let contract = open(100);
    assert_eq!(contract.get_total_tickets(), 100);
    assert_eq!(contract.get_name(), "Test_Name");
    assert_eq!(contract.get_location(), "Test_Location");
    assert_eq!(contract.owner(alice()), AccountId::from([0x1; 32]));
    assert_eq!(contract.get_symbol(), "Test_Symbol");
    assert_eq!(contract.get_date(), "Test_Date");
    assert_eq!(contract.get_price(), 55);
    assert_eq!(contract.get_balance(alice()), 100);
}

#[test]
fn minting_tests() {
    let mut contract = open(0);
    contract.mint(alice(), 1, 10).unwrap();
    assert_eq!(contract.get_total_tickets(), 10);
    assert_eq!(contract.get_balance(alice()), 10);
}

#[test]
fn ownership_tests() {
    let mut contract = open(0);
    contract.mint(alice(), 1, 10).unwrap();
    contract
        .transfer_from(AccountId::from([0x1; 32]), AccountId::from([0x2; 32]), 1, 1)
        .unwrap();
    assert_eq!(contract.get_balance(alice()), 9);
    assert_eq!(contract.get_balance_of(AccountId::from([0x2; 32])), 1);
    contract
        .transfer_from(AccountId::from([0x1; 32]), AccountId::from([0x2; 32]), 1, 5)
        .unwrap();
    assert_eq!(contract.get_balance(alice()), 4);
    assert_eq!(contract.get_balance_of(AccountId::from([0x2; 32])), 6);
}

#[test]
#[should_panic(expected = "TokenNotFound")]
fn transfering_tests() {
    let mut contract = open(0);
    contract.mint(alice(), 1, 10).unwrap();
    contract
        .transfer_from(AccountId::from([0x1; 32]), AccountId::from([0x2; 32]), 2, 1)
        .unwrap();
}

#[test]
fn remove_token_tests() {
    let mut contract = open(0);
    contract.mint(alice(), 1, 10).unwrap();
    contract.mint(alice(), 2, 10).unwrap();
    contract
        .remove_token_from(AccountId::from([0x1; 32]), 1)
        .unwrap();
    assert_eq!(contract.get_balance(alice()), 19);

    contract
        .transfer_from(AccountId::from([0x1; 32]), AccountId::from([0x2; 32]), 2, 5)
        .unwrap();
    assert_eq!(contract.get_balance(alice()), 14);
    assert_eq!(contract.get_total_tickets(), 20);
}

#[test]
fn default_works() {
    let ticket = Ticket::new(1);
    assert_eq!(ticket.get(), 1);
}

#[test]
fn new_ledger_gives_ticket_zero_to_the_caller() {
    let contract = open(100);
    assert!(contract.ticket_exists(0));
    assert_eq!(contract.ticket_owners().get(&0), Some(&alice()));
    assert_eq!(contract.ticket_owners().len(), 1);
    assert!(!contract.ticket_exists(1));
    assert_eq!(contract.get_balance_of(bob()), 0);
    assert_eq!(contract.balances().get(&alice()), Some(100));
    assert_eq!(contract.balances().get(&bob()), None);
    assert_eq!(
        contract.get_ticket_ref().to_account_id(),
        AccountId::from([0x7; 32])
    );
    assert!(contract.get_bool());
}

#[test]
fn new_ledger_with_no_supply_still_assigns_ticket_zero() {
    let contract = open(0);
    assert_eq!(contract.get_total_tickets(), 0);
    assert_eq!(contract.get_balance(alice()), 0);
    assert!(contract.ticket_exists(0));
    assert_eq!(contract.ticket_owners().get(&0), Some(&alice()));
    assert_eq!(contract.balances().get(&alice()), Some(0));
}

#[test]
fn owner_is_whoever_calls() {
    let contract = open(100);
    assert_eq!(contract.owner(alice()), alice());
    assert_eq!(contract.owner(bob()), bob());
}

#[test]
fn mint_raises_supply_and_balance_by_amount() {
    let mut contract = open(100);
    assert!(!contract.ticket_exists(7));
    assert!(contract.can_mint(bob(), 3));
    assert_eq!(contract.mint(bob(), 7, 3), Ok(()));
    assert_eq!(contract.get_total_tickets(), 103);
    assert_eq!(contract.get_balance(bob()), 3);
    assert_eq!(contract.get_balance(alice()), 100);
    assert!(contract.ticket_exists(7));
    assert_eq!(contract.ticket_owners().get(&7), Some(&bob()));
    assert_eq!(contract.ticket_owners().get(&0), Some(&alice()));
}

#[test]
fn mint_of_nothing_changes_nothing() {
    let mut contract = open(5);
    assert_eq!(contract.mint(bob(), 9, 0), Ok(()));
    assert_eq!(contract.get_total_tickets(), 5);
    assert_eq!(contract.get_balance(bob()), 0);
    assert_eq!(contract.balances().get(&bob()), None);
    assert!(!contract.ticket_exists(9));
}

#[test]
fn mint_under_one_id_keeps_one_ownership_entry() {
    let mut contract = open(0);
    contract.mint(alice(), 1, 10).unwrap();
    assert_eq!(contract.ticket_owners().len(), 2);
    contract.mint(bob(), 1, 2).unwrap();
    assert_eq!(contract.ticket_owners().len(), 2);
    assert_eq!(contract.ticket_owners().get(&1), Some(&bob()));
    assert_eq!(contract.get_balance(alice()), 10);
    assert_eq!(contract.get_balance(bob()), 2);
    assert_eq!(contract.get_total_tickets(), 12);
}

#[test]
fn mint_is_refused_where_a_count_would_leave_the_range() {
    let contract = open(u128::MAX);
    assert!(contract.can_mint(alice(), 0));
    assert!(!contract.can_mint(alice(), 1));
    // bob has nothing, but the supply is full
    assert!(!contract.can_mint(bob(), 1));
    assert!(!contract.can_add_token_to(alice()));
    assert!(contract.can_add_token_to(bob()));

    let roomy = open(u128::MAX - 2);
    assert!(roomy.can_mint(alice(), 2));
    assert!(!roomy.can_mint(alice(), 3));
}

#[test]
fn add_token_to_overwrites_the_holder_and_keeps_the_old_balance() {
    let mut contract = open(0);
    contract.mint(alice(), 1, 4).unwrap();
    assert_eq!(contract.add_token_to(bob(), 1), Ok(()));
    assert_eq!(contract.ticket_owners().get(&1), Some(&bob()));
    assert_eq!(contract.get_balance(bob()), 1);
    assert_eq!(contract.get_balance(alice()), 4);
    assert_eq!(contract.get_total_tickets(), 4);
}

#[test]
fn remove_token_from_unassigns_the_ticket() {
    let mut contract = open(0);
    contract.mint(alice(), 1, 10).unwrap();
    contract.mint(alice(), 2, 10).unwrap();
    assert!(contract.can_remove_token_from(alice()));
    assert_eq!(contract.remove_token_from(alice(), 1), Ok(()));
    assert!(!contract.ticket_exists(1));
    assert!(contract.ticket_exists(2));
    assert_eq!(contract.get_balance(alice()), 19);
    assert_eq!(contract.get_total_tickets(), 20);
    assert!(!contract.can_remove_token_from(bob()));
}

#[test]
fn transfer_of_missing_ticket_is_refused_and_changes_nothing() {
    let mut contract = open(0);
    contract.mint(alice(), 1, 10).unwrap();
    assert!(contract.can_transfer_from(alice(), bob(), 2, 1));
    assert_eq!(
        contract.transfer_from(alice(), bob(), 2, 1),
        Err(ticket_event::error::Error::TokenNotFound)
    );
    assert_eq!(contract.get_balance(alice()), 10);
    assert_eq!(contract.get_balance(bob()), 0);
    assert_eq!(contract.balances().get(&bob()), None);
    assert_eq!(contract.get_total_tickets(), 10);
    assert!(!contract.ticket_exists(2));
    assert_eq!(contract.ticket_owners().get(&1), Some(&alice()));
    // also where the giver could never afford it
    assert_eq!(
        contract.transfer_from(bob(), alice(), 2, 1000),
        Err(ticket_event::error::Error::TokenNotFound)
    );
    assert_eq!(contract.get_balance(alice()), 10);
}

#[test]
fn two_transfers_add_up() {
    let mut twice = open(0);
    twice.mint(alice(), 1, 10).unwrap();
    twice.transfer_from(alice(), bob(), 1, 3).unwrap();
    twice.transfer_from(alice(), bob(), 1, 4).unwrap();
    assert_eq!(twice.get_balance(alice()), 3);
    assert_eq!(twice.get_balance(bob()), 7);

    let mut once = open(0);
    once.mint(alice(), 1, 10).unwrap();
    once.transfer_from(alice(), bob(), 1, 7).unwrap();
    assert_eq!(once.get_balance(alice()), twice.get_balance(alice()));
    assert_eq!(once.get_balance(bob()), twice.get_balance(bob()));
    assert_eq!(once.ticket_owners().get(&1), Some(&bob()));
    assert_eq!(twice.ticket_owners().get(&1), Some(&bob()));
    assert_eq!(once.get_total_tickets(), 10);
    assert_eq!(twice.get_total_tickets(), 10);
}

#[test]
fn transfer_beyond_the_balance_is_a_fault() {
    let mut contract = open(0);
    contract.mint(alice(), 1, 10).unwrap();
    assert!(contract.can_transfer_from(alice(), bob(), 1, 10));
    assert!(!contract.can_transfer_from(alice(), bob(), 1, 11));
    assert!(!contract.can_transfer_from(bob(), alice(), 1, 1));
    contract.transfer_from(alice(), bob(), 1, 6).unwrap();
    // six are gone: five more would take the balance below zero
    assert!(contract.can_transfer_from(alice(), bob(), 1, 4));
    assert!(!contract.can_transfer_from(alice(), bob(), 1, 5));
}

#[test]
fn transfer_into_a_full_balance_is_a_fault() {
    let mut contract = open(u128::MAX - 1);
    contract.add_token_to(bob(), 3).unwrap();
    assert!(contract.can_transfer_from(bob(), alice(), 3, 1));
    contract.transfer_from(bob(), alice(), 3, 1).unwrap();
    assert_eq!(contract.get_balance(alice()), u128::MAX);
    assert_eq!(contract.get_balance(bob()), 0);
    contract.add_token_to(bob(), 3).unwrap();
    assert!(!contract.can_transfer_from(bob(), alice(), 3, 1));
}

#[test]
fn transfer_of_nothing_changes_nothing() {
    let mut contract = open(0);
    contract.mint(alice(), 1, 10).unwrap();
    assert!(contract.can_transfer_from(bob(), alice(), 1, 0));
    assert_eq!(contract.transfer_from(bob(), alice(), 1, 0), Ok(()));
    assert_eq!(contract.ticket_owners().get(&1), Some(&alice()));
    assert_eq!(contract.get_balance(alice()), 10);
    assert_eq!(contract.balances().get(&bob()), None);
}

#[test]
fn transfer_to_oneself_keeps_the_balance() {
    let mut contract = open(0);
    contract.mint(alice(), 1, 1).unwrap();
    contract.add_token_to(bob(), 1).unwrap();
    // one unit in hand is enough for any number
    assert!(contract.can_transfer_from(alice(), alice(), 1, 5));
    assert_eq!(contract.transfer_from(alice(), alice(), 1, 5), Ok(()));
    assert_eq!(contract.get_balance(alice()), 1);
    assert_eq!(contract.get_balance(bob()), 1);
    assert_eq!(contract.ticket_owners().get(&1), Some(&alice()));
    // with nothing in hand even one is too many
    let carol = AccountId::from([0x3; 32]);
    assert!(!contract.can_transfer_from(carol, carol, 1, 1));
}

#[test]
fn transfer_does_not_ask_who_holds_the_ticket() {
    let mut contract = open(0);
    contract.mint(alice(), 1, 2).unwrap();
    contract.mint(bob(), 2, 2).unwrap();
    let carol = AccountId::from([0x3; 32]);
    // ticket 2 is bob's, yet alice's units move under it
    assert_eq!(contract.transfer_from(alice(), carol, 2, 2), Ok(()));
    assert_eq!(contract.get_balance(alice()), 0);
    assert_eq!(contract.get_balance(bob()), 2);
    assert_eq!(contract.get_balance(carol), 2);
    assert_eq!(contract.ticket_owners().get(&2), Some(&carol));
    assert_eq!(contract.ticket_owners().get(&1), Some(&alice()));
}

#[test]
fn books_balance_until_a_ticket_is_moved_directly() {
    let carol = AccountId::from([0x3; 32]);
    let sum = |c: &TicketEvent| {
        c.get_balance_of(alice()) + c.get_balance_of(bob()) + c.get_balance_of(carol)
    };
    let mut contract = open(7);
    assert_eq!(sum(&contract), contract.get_total_tickets());
    contract.mint(bob(), 1, 5).unwrap();
    assert_eq!(sum(&contract), 12);
    assert_eq!(contract.get_total_tickets(), 12);
    contract.transfer_from(bob(), carol, 1, 3).unwrap();
    contract.transfer_from(alice(), carol, 0, 7).unwrap();
    assert_eq!(sum(&contract), 12);
    assert_eq!(contract.get_total_tickets(), 12);
    contract.remove_token_from(carol, 0).unwrap();
    assert_eq!(sum(&contract), 11);
    assert_eq!(contract.get_total_tickets(), 12);
    contract.add_token_to(alice(), 0).unwrap();
    contract.add_token_to(alice(), 0).unwrap();
    assert_eq!(sum(&contract), 13);
    assert_eq!(contract.get_total_tickets(), 12);
}
