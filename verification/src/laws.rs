//! What holds of the ledger's operations, whatever the ledger and the
//! arguments: each statement is proved from the model in `ledger`.

use vstd::prelude::*;
use crate::account::AccountId;
use crate::balances::Balance;
use crate::ledger::EventId;
use crate::ledger::sum_over;
use crate::ledger::Ledger;
use crate::ticket::TicketRef;

verus! {

/// A new ledger counts exactly the initial supply, all of it is the
/// constructing caller's, and ticket 0 is the caller's, also where the supply
/// is zero. Nobody else has anything, and no other ticket exists.
pub proof fn initial_ledger_is_the_callers(
    caller: AccountId,
    total_tickets: Balance,
    name: Seq<char>,
    location: Seq<char>,
    symbol: Seq<char>,
    date: Seq<char>,
    price: u32,
    ticket_ref: TicketRef,
)
    ensures
        ({
            let l = Ledger::initial(
                caller,
                total_tickets,
                name,
                location,
                symbol,
                date,
                price,
                ticket_ref,
            );
            &&& l.total_tickets == total_tickets
            &&& l.balance_of(caller) == total_tickets
            &&& l.owner_of(0) == Some(caller)
            &&& forall|other: AccountId| other != caller ==> l.balance_of(other) == 0
            &&& forall|event_id: EventId| l.ticket_exists(event_id) <==> event_id == 0
        }),
{
}

/// Minting `amount` raises the number of issued tickets by exactly `amount`
/// and the caller's balance by exactly `amount`, and nobody else's balance
/// changes.
pub proof fn mint_adds_amount(l: Ledger, caller: AccountId, event_id: EventId, amount: Balance)
    requires
        l.can_mint(caller, amount),
    ensures
        l.mint(caller, event_id, amount).total_tickets == l.total_tickets + amount,
        l.mint(caller, event_id, amount).balance_of(caller) == l.balance_of(caller) + amount,
        forall|other: AccountId|
            other != caller ==> l.mint(caller, event_id, amount).balance_of(other) == l.balance_of(
                other,
            ),
{
}

/// After minting at least one ticket under `event_id`, that ticket exists and
/// is the caller's, and every other ticket is where it was.
pub proof fn mint_assigns_ticket(l: Ledger, caller: AccountId, event_id: EventId, amount: Balance)
    requires
        l.can_mint(caller, amount),
        amount > 0,
    ensures
        l.mint(caller, event_id, amount).ticket_exists(event_id),
        l.mint(caller, event_id, amount).owner_of(event_id) == Some(caller),
        forall|other: EventId|
            other != event_id ==> l.mint(caller, event_id, amount).owner_of(other) == l.owner_of(
                other,
            ),
{
}

/// A transfer of a ticket that does not exist leaves the ledger as it was:
/// all balances, all tickets, the supply.
pub proof fn transfer_of_missing_ticket_changes_nothing(
    l: Ledger,
    from: AccountId,
    to: AccountId,
    event_id: EventId,
    tickets: Balance,
)
    requires
        !l.ticket_exists(event_id),
    ensures
        l.transfer_from(from, to, event_id, tickets) == l,
        forall|holder: AccountId|
            l.transfer_from(from, to, event_id, tickets).balance_of(holder) == l.balance_of(holder),
{
}

/// A transfer of `n` units and then of `m` units of an existing ticket,
/// between two different holders and with both transfers in range, lowers the
/// giver's balance by `n + m` and raises the taker's by `n + m`. It leaves
/// the same ledger as one transfer of `n + m` units, and the supply as it was.
pub proof fn transfers_add_up(
    l: Ledger,
    from: AccountId,
    to: AccountId,
    event_id: EventId,
    n: Balance,
    m: Balance,
)
    requires
        from != to,
        l.ticket_exists(event_id),
        l.can_transfer_from(from, to, event_id, n),
        l.transfer_from(from, to, event_id, n).can_transfer_from(from, to, event_id, m),
    ensures
        ({
            let twice = l.transfer_from(from, to, event_id, n).transfer_from(from, to, event_id, m);
            &&& twice.balance_of(from) == l.balance_of(from) - (n + m)
            &&& twice.balance_of(to) == l.balance_of(to) + (n + m)
            &&& twice.total_tickets == l.total_tickets
            &&& n + m <= Balance::MAX
            &&& l.can_transfer_from(from, to, event_id, (n + m) as Balance)
            &&& twice == l.transfer_from(from, to, event_id, (n + m) as Balance)
        }),
{
    let once = l.transfer_from(from, to, event_id, n);
    let twice = once.transfer_from(from, to, event_id, m);
    assert(once.ticket_exists(event_id));
    assert(twice =~= l.transfer_from(from, to, event_id, (n + m) as Balance));
}

/// A transfer from a holder to itself leaves every balance as it was, and
/// the ticket with that holder.
pub proof fn transfer_to_oneself_keeps_balances(
    l: Ledger,
    holder: AccountId,
    event_id: EventId,
    tickets: Balance,
)
    requires
        l.ticket_exists(event_id),
        tickets > 0,
    ensures
        l.transfer_from(holder, holder, event_id, tickets).balance == l.balance,
        l.transfer_from(holder, holder, event_id, tickets).owner_of(event_id) == Some(holder),
{
}

/// Taking a ticket off a holder lowers that holder's balance by one and
/// leaves the number of issued tickets as it was: the two counts part here.
pub proof fn removal_keeps_the_supply(l: Ledger, from: AccountId, event_id: EventId)
    requires
        l.can_remove_token_from(from),
    ensures
        l.remove_token_from(from, event_id).total_tickets == l.total_tickets,
        l.remove_token_from(from, event_id).balance_of(from) == l.balance_of(from) - 1,
        !l.remove_token_from(from, event_id).ticket_exists(event_id),
{
}

/// No operation touches the description of the event or the handle on its
/// supply account: they stay as construction set them.
pub proof fn description_is_never_changed(
    l: Ledger,
    from: AccountId,
    to: AccountId,
    event_id: EventId,
    tickets: Balance,
)
    ensures
        l.same_event(l.mint(to, event_id, tickets)),
        l.same_event(l.add_token_to(to, event_id)),
        l.same_event(l.remove_token_from(from, event_id)),
        l.same_event(l.transfer_from(from, to, event_id, tickets)),
{
}

/// A sum over a set of holders depends only on what those holders have.
pub proof fn lemma_sum_over_agrees(
    a: Map<AccountId, Balance>,
    b: Map<AccountId, Balance>,
    holders: Set<AccountId>,
)
    requires
        holders.finite(),
        forall|h: AccountId| holders.contains(h) ==> a[h] == b[h],
    ensures
        sum_over(a, holders) == sum_over(b, holders),
    decreases holders.len(),
{
    let fa = |sum: int, holder: AccountId| sum + a[holder];
    let fb = |sum: int, holder: AccountId| sum + b[holder];
    if holders.len() == 0 {
        assert(holders =~= Set::<AccountId>::empty());
        vstd::set::fold::lemma_fold_empty(0int, fa);
        vstd::set::fold::lemma_fold_empty(0int, fb);
    } else {
        let h = holders.choose();
        let rest = holders.remove(h);
        lemma_sum_over_agrees(a, b, rest);
        assert(rest.insert(h) =~= holders);
        vstd::set::fold::lemma_fold_insert(rest, 0int, fa, h);
        vstd::set::fold::lemma_fold_insert(rest, 0int, fb, h);
    }
}

/// Writing `amount` for `holder` changes the sum of all balances by the
/// difference between `amount` and what `holder` had.
pub proof fn lemma_held_after_insert(l: Ledger, holder: AccountId, amount: Balance)
    requires
        l.balance.dom().finite(),
    ensures
        (Ledger { balance: l.balance.insert(holder, amount), ..l }).held() == l.held()
            - l.balance_of(holder) + amount,
        l.balance.insert(holder, amount).dom().finite(),
{
    let before = l.balance;
    let after = before.insert(holder, amount);
    let others = before.dom().remove(holder);
    let fb = |sum: int, h: AccountId| sum + before[h];
    let fa = |sum: int, h: AccountId| sum + after[h];
    assert(after.dom() =~= others.insert(holder));
    lemma_sum_over_agrees(before, after, others);
    vstd::set::fold::lemma_fold_insert(others, 0int, fa, holder);
    if before.contains_key(holder) {
        assert(before.dom() =~= others.insert(holder));
        vstd::set::fold::lemma_fold_insert(others, 0int, fb, holder);
    } else {
        assert(before.dom() =~= others);
    }
}

/// In a new ledger the balances add up to the supply.
pub proof fn initial_ledger_is_balanced(
    caller: AccountId,
    total_tickets: Balance,
    name: Seq<char>,
    location: Seq<char>,
    symbol: Seq<char>,
    date: Seq<char>,
    price: u32,
    ticket_ref: TicketRef,
)
    ensures
        Ledger::initial(
            caller,
            total_tickets,
            name,
            location,
            symbol,
            date,
            price,
            ticket_ref,
        ).held() == total_tickets,
{
    let l = Ledger::initial(caller, total_tickets, name, location, symbol, date, price, ticket_ref);
    let empty = Ledger { balance: Map::<AccountId, Balance>::empty(), ..l };
    vstd::set::fold::lemma_fold_empty(0int, |sum: int, h: AccountId| sum + empty.balance[h]);
    assert(empty.balance.dom() =~= Set::<AccountId>::empty());
    lemma_held_after_insert(empty, caller, total_tickets);
    assert(l =~= (Ledger { balance: empty.balance.insert(caller, total_tickets), ..empty }));
}

/// Minting raises the sum of all balances by as much as the supply: where
/// the two agreed before, they agree after.
pub proof fn mint_keeps_the_books(l: Ledger, caller: AccountId, event_id: EventId, amount: Balance)
    requires
        l.balance.dom().finite(),
        l.can_mint(caller, amount),
    ensures
        l.mint(caller, event_id, amount).held() == l.held() + amount,
        l.mint(caller, event_id, amount).held() - l.mint(caller, event_id, amount).total_tickets
            == l.held() - l.total_tickets,
        l.mint(caller, event_id, amount).balance.dom().finite(),
{
    if amount > 0 {
        lemma_held_after_insert(l, caller, (l.balance_of(caller) + amount) as Balance);
    }
}

/// A transfer leaves the sum of all balances and the supply as they were.
pub proof fn transfer_keeps_the_books(
    l: Ledger,
    from: AccountId,
    to: AccountId,
    event_id: EventId,
    tickets: Balance,
)
    requires
        l.balance.dom().finite(),
        l.can_transfer_from(from, to, event_id, tickets),
    ensures
        l.transfer_from(from, to, event_id, tickets).held() == l.held(),
        l.transfer_from(from, to, event_id, tickets).total_tickets == l.total_tickets,
        l.transfer_from(from, to, event_id, tickets).balance.dom().finite(),
{
    if l.ticket_exists(event_id) && tickets > 0 && from != to {
        let debit = (l.balance_of(from) - tickets) as Balance;
        let credit = (l.balance_of(to) + tickets) as Balance;
        lemma_held_after_insert(l, from, debit);
        let mid = Ledger { balance: l.balance.insert(from, debit), ..l };
        lemma_held_after_insert(mid, to, credit);
    }
}

/// Giving a holder a ticket directly raises the sum of all balances by one
/// and leaves the supply: the books are off by one more.
pub proof fn direct_addition_unsettles_the_books(l: Ledger, to: AccountId, event_id: EventId)
    requires
        l.balance.dom().finite(),
        l.can_add_token_to(to),
    ensures
        l.add_token_to(to, event_id).held() == l.held() + 1,
        l.add_token_to(to, event_id).total_tickets == l.total_tickets,
        l.add_token_to(to, event_id).balance.dom().finite(),
{
    lemma_held_after_insert(l, to, (l.balance_of(to) + 1) as Balance);
}

/// Taking a ticket off a holder directly lowers the sum of all balances by
/// one and leaves the supply: the books are off by one less.
pub proof fn direct_removal_unsettles_the_books(l: Ledger, from: AccountId, event_id: EventId)
    requires
        l.balance.dom().finite(),
        l.can_remove_token_from(from),
    ensures
        l.remove_token_from(from, event_id).held() == l.held() - 1,
        l.remove_token_from(from, event_id).total_tickets == l.total_tickets,
        l.remove_token_from(from, event_id).balance.dom().finite(),
{
    lemma_held_after_insert(l, from, (l.balance_of(from) - 1) as Balance);
}

} // verus!
