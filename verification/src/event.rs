//! The ledger of one event: its description, the tickets issued, who holds
//! which ticket and how many each holder has.
//!
//! The ledger does not learn by itself who is calling: every operation that
//! acts for a caller takes the caller's identity as its first argument.
//! Arithmetic on balances never wraps: the operations that raise or lower a
//! balance say in `requires` when it stays in range, and the `can_` methods
//! answer that question at run time.

use vstd::prelude::*;
use std::collections::HashMap;
use crate::account::AccountId;
use crate::balances::Balance;
use crate::balances::Balances;
use crate::error::Error;
use crate::ledger::EventId;
use crate::ledger::Ledger;
use crate::ticket::le_value;
use crate::ticket::salt_bytes;
use crate::ticket::Instantiation;
use crate::ticket::TicketRef;
use crate::ticket::ENDOWMENT;

verus! {

/// The storage of all values of one event.
pub struct TicketEvent {
    /// Total amount of tickets issued.
    total_tickets: Balance,
    /// From ticket to its holder.
    ticket_owner: HashMap<EventId, AccountId>,
    /// From holder to the number of tickets held.
    balance: Balances,
    name: String,
    location: String,
    symbol: String,
    date: String,
    /// Price of one ticket.
    price: u32,
    /// The supply account of this event.
    ticket_ref: TicketRef,
}

impl View for TicketEvent {
    type V = Ledger;

    closed spec fn view(&self) -> Ledger {
        Ledger {
            total_tickets: self.total_tickets,
            ticket_owner: self.ticket_owner@,
            balance: self.balance@,
            name: self.name@,
            location: self.location@,
            symbol: self.symbol@,
            date: self.date@,
            price: self.price,
            ticket_ref: self.ticket_ref,
        }
    }
}

impl TicketEvent {
    /// A ledger has written balances for finitely many holders only, so that
    /// their sum is defined.
    pub proof fn lemma_finitely_many_holders(self)
        ensures
            self@.balance.dom().finite(),
    {
        self.balance.lemma_finite();
    }

    /// What the host has to instantiate before a ledger for `total_tickets`
    /// tickets can be opened: one supply account of the given code, starting
    /// at `total_tickets`, salted with `version`. The handle that comes back
    /// goes to `new`.
    pub fn instantiation(
        total_tickets: Balance,
        version: u32,
        ticket_ref_code_hash: crate::account::Hash,
    ) -> (r: Instantiation)
        ensures
            r.code_hash == ticket_ref_code_hash,
            r.salt@.len() == 4,
            le_value(r.salt@) == version,
            r.endowment == 15,
            r.init_value == total_tickets,
    {
        Instantiation {
            code_hash: ticket_ref_code_hash,
            salt: salt_bytes(version),
            endowment: ENDOWMENT,
            init_value: total_tickets,
        }
    }

    /// Opens the ledger of an event for `caller`, who gets the whole initial
    /// supply and ticket 0. `ticket_ref` is the supply account that was
    /// instantiated for this event.
    pub fn new(
        caller: AccountId,
        total_tickets: Balance,
        name: String,
        location: String,
        symbol: String,
        date: String,
        price: u32,
        ticket_ref: TicketRef,
    ) -> (r: Self)
        ensures
            r@ == Ledger::initial(
                caller,
                total_tickets,
                name@,
                location@,
                symbol@,
                date@,
                price,
                ticket_ref,
            ),
    {
        let mut balance = Balances::new();
        balance.insert(caller, total_tickets);
        let mut ticket_owner: HashMap<EventId, AccountId> = HashMap::new();
        ticket_owner.insert(0, caller);
        TicketEvent {
            total_tickets,
            ticket_owner,
            balance,
            name,
            location,
            symbol,
            date,
            price,
            ticket_ref,
        }
    }

    /// Puts a ledger together from its parts, as a host does that keeps them
    /// in a store of its own between calls.
    pub fn from_parts(
        total_tickets: Balance,
        ticket_owner: HashMap<EventId, AccountId>,
        balance: Balances,
        name: String,
        location: String,
        symbol: String,
        date: String,
        price: u32,
        ticket_ref: TicketRef,
    ) -> (r: Self)
        ensures
            r@ == (Ledger {
                total_tickets,
                ticket_owner: ticket_owner@,
                balance: balance@,
                name: name@,
                location: location@,
                symbol: symbol@,
                date: date@,
                price,
                ticket_ref,
            }),
    {
        TicketEvent {
            total_tickets,
            ticket_owner,
            balance,
            name,
            location,
            symbol,
            date,
            price,
            ticket_ref,
        }
    }

    /// The holder of each assigned ticket.
    pub fn ticket_owners(&self) -> (r: &HashMap<EventId, AccountId>)
        ensures
            r@ == self@.ticket_owner,
    {
        &self.ticket_owner
    }

    /// What is written for each holder.
    pub fn balances(&self) -> (r: &Balances)
        ensures
            r@ == self@.balance,
    {
        &self.balance
    }

    /// The owner of the event as this ledger knows it: whoever is calling.
    pub fn owner(&self, caller: AccountId) -> (r: AccountId)
        ensures
            r == caller,
    {
        caller
    }

    /// The name of the event.
    pub fn get_name(&self) -> (r: String)
        ensures
            r@ == self@.name,
    {
        self.name.clone()
    }

    /// The location of the event.
    pub fn get_location(&self) -> (r: String)
        ensures
            r@ == self@.location,
    {
        self.location.clone()
    }

    /// The total amount of tickets issued.
    pub fn get_total_tickets(&self) -> (r: Balance)
        ensures
            r == self@.total_tickets,
    {
        self.total_tickets
    }

    /// The price of one ticket.
    pub fn get_price(&self) -> (r: u32)
        ensures
            r == self@.price,
    {
        self.price
    }

    /// The date of the event.
    pub fn get_date(&self) -> (r: String)
        ensures
            r@ == self@.date,
    {
        self.date.clone()
    }

    /// The symbol of the event.
    pub fn get_symbol(&self) -> (r: String)
        ensures
            r@ == self@.symbol,
    {
        self.symbol.clone()
    }

    /// The supply account of the event.
    pub fn get_ticket_ref(&self) -> (r: TicketRef)
        ensures
            r == self@.ticket_ref,
    {
        self.ticket_ref
    }

    /// The balance of the caller.
    pub fn get_balance(&self, caller: AccountId) -> (r: Balance)
        ensures
            r == self@.balance_of(caller),
    {
        self.get_balance_of(caller)
    }

    /// The balance of `owner`: zero where nothing was ever written for it.
    pub fn get_balance_of(&self, owner: AccountId) -> (r: Balance)
        ensures
            r == self@.balance_of(owner),
    {
        match self.balance.get(&owner) {
            Some(amount) => amount,
            None => 0,
        }
    }

    /// Whether ticket `event_id` is assigned to a holder.
    pub fn ticket_exists(&self, event_id: EventId) -> (r: bool)
        ensures
            r == self@.ticket_exists(event_id),
    {
        self.ticket_owner.contains_key(&event_id)
    }

    /// Always `true`.
    pub fn get_bool(&self) -> (r: bool)
        ensures
            r,
    {
        true
    }

    /// Whether `add_token_to` may be called for `to`.
    pub fn can_add_token_to(&self, to: AccountId) -> (r: bool)
        ensures
            r == self@.can_add_token_to(to),
    {
        self.get_balance_of(to) < Balance::MAX
    }

    /// Adds one ticket to `to`'s balance and makes `to` the holder of ticket
    /// `event_id`. A previous holder of that ticket keeps its balance.
    pub fn add_token_to(&mut self, to: AccountId, event_id: EventId) -> (r: Result<(), Error>)
        requires
            old(self)@.can_add_token_to(to),
        ensures
            r is Ok,
            final(self)@ == old(self)@.add_token_to(to, event_id),
    {
        let balance = self.get_balance_of(to);
        self.balance.insert(to, balance + 1);
        self.ticket_owner.insert(event_id, to);
        Ok(())
    }

    /// Whether `remove_token_from` may be called for `from`.
    pub fn can_remove_token_from(&self, from: AccountId) -> (r: bool)
        ensures
            r == self@.can_remove_token_from(from),
    {
        self.get_balance_of(from) >= 1
    }

    /// Takes one ticket off `from`'s balance and leaves ticket `event_id`
    /// without a holder. The total of issued tickets stays.
    pub fn remove_token_from(&mut self, from: AccountId, event_id: EventId) -> (r: Result<
        (),
        Error,
    >)
        requires
            old(self)@.can_remove_token_from(from),
        ensures
            r is Ok,
            final(self)@ == old(self)@.remove_token_from(from, event_id),
    {
        let balance = self.get_balance_of(from);
        self.balance.insert(from, balance - 1);
        self.ticket_owner.remove(&event_id);
        Ok(())
    }

    /// Whether `mint` may be called by `caller` for `amount` tickets.
    pub fn can_mint(&self, caller: AccountId, amount: Balance) -> (r: bool)
        ensures
            r == self@.can_mint(caller, amount),
    {
        self.get_balance_of(caller) <= Balance::MAX - amount && self.total_tickets <= Balance::MAX
            - amount
    }

    /// Issues `amount` new tickets under `event_id`, all to `caller`. Anyone
    /// may mint: the ledger does not ask who `caller` is.
    pub fn mint(&mut self, caller: AccountId, event_id: EventId, amount: Balance) -> (r: Result<
        (),
        Error,
    >)
        requires
            old(self)@.can_mint(caller, amount),
        ensures
            r is Ok,
            final(self)@ == old(self)@.mint(caller, event_id, amount),
    {
        let mut done: Balance = 0;
        while done < amount
            invariant
                done <= amount,
                old(self)@.can_mint(caller, amount),
                self@ == old(self)@.mint(caller, event_id, done),
            decreases amount - done,
        {
            self.add_token_to(caller, event_id)?;
            self.total_tickets += 1;
            done += 1;
        }
        Ok(())
    }

    /// Whether `transfer_from` may be called with these arguments.
    pub fn can_transfer_from(
        &self,
        from: AccountId,
        to: AccountId,
        event_id: EventId,
        tickets: Balance,
    ) -> (r: bool)
        ensures
            r == self@.can_transfer_from(from, to, event_id, tickets),
    {
        if !self.ticket_exists(event_id) || tickets == 0 {
            true
        } else if from == to {
            self.get_balance_of(from) >= 1
        } else {
            self.get_balance_of(from) >= tickets && self.get_balance_of(to) <= Balance::MAX
                - tickets
        }
    }

    /// Moves `tickets` units of ticket `event_id` from `from` to `to`, and
    /// makes `to` its holder. Refused with `TokenNotFound`, and nothing
    /// changed, where the ticket is not assigned. The ledger asks neither
    /// whether `from` holds the ticket nor who is calling.
    pub fn transfer_from(
        &mut self,
        from: AccountId,
        to: AccountId,
        event_id: EventId,
        tickets: Balance,
    ) -> (r: Result<(), Error>)
        requires
            old(self)@.can_transfer_from(from, to, event_id, tickets),
        ensures
            old(self)@.ticket_exists(event_id) ==> r is Ok,
            !old(self)@.ticket_exists(event_id) ==> r == Err::<(), Error>(Error::TokenNotFound),
            final(self)@ == old(self)@.transfer_from(from, to, event_id, tickets),
    {
        if !self.ticket_exists(event_id) {
            return Err(Error::TokenNotFound);
        }
        let mut done: Balance = 0;
        while done < tickets
            invariant
                done <= tickets,
                old(self)@.can_transfer(from, to, tickets),
                self@ == old(self)@.transfer(from, to, event_id, done),
            decreases tickets - done,
        {
            self.remove_token_from(from, event_id)?;
            self.add_token_to(to, event_id)?;
            done += 1;
        }
        Ok(())
    }
}

} // verus!
