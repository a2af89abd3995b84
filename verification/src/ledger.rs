//! The ledger as a mathematical value, and what each operation makes of it.
//!
//! The executable ledger is specified against this model: every operation
//! says which `Ledger` it leaves behind, as a function of the one it found.

use vstd::prelude::*;
use crate::account::AccountId;
use crate::balances::Balance;
use crate::ticket::TicketRef;

verus! {

/// A ticket identifier. Identifiers need not be contiguous.
pub type EventId = u32;

/// The sum of what `balance` holds for the holders in `holders`.
pub open spec fn sum_over(balance: Map<AccountId, Balance>, holders: Set<AccountId>) -> int {
    holders.fold(0int, |sum: int, holder: AccountId| sum + balance[holder])
}

/// The state of one event's ledger.
#[verifier::ext_equal]
pub struct Ledger {
    /// How many tickets were issued.
    pub total_tickets: Balance,
    /// Who holds each assigned ticket. A ticket without an entry does not exist.
    pub ticket_owner: Map<EventId, AccountId>,
    /// What was written for each holder. A holder without an entry has nothing.
    pub balance: Map<AccountId, Balance>,
    pub name: Seq<char>,
    pub location: Seq<char>,
    pub symbol: Seq<char>,
    pub date: Seq<char>,
    /// The price of one ticket.
    pub price: u32,
    /// The supply account that was instantiated for this ledger.
    pub ticket_ref: TicketRef,
}

impl Ledger {
    /// The ledger right after construction by `caller`: the whole initial
    /// supply is the caller's, and so is ticket 0, whatever the supply.
    pub open spec fn initial(
        caller: AccountId,
        total_tickets: Balance,
        name: Seq<char>,
        location: Seq<char>,
        symbol: Seq<char>,
        date: Seq<char>,
        price: u32,
        ticket_ref: TicketRef,
    ) -> Ledger {
        Ledger {
            total_tickets,
            ticket_owner: Map::<EventId, AccountId>::empty().insert(0u32, caller),
            balance: Map::<AccountId, Balance>::empty().insert(caller, total_tickets),
            name,
            location,
            symbol,
            date,
            price,
            ticket_ref,
        }
    }

    /// `other` describes the same event and refers to the same supply
    /// account.
    pub open spec fn same_event(self, other: Ledger) -> bool {
        &&& other.name == self.name
        &&& other.location == self.location
        &&& other.symbol == self.symbol
        &&& other.date == self.date
        &&& other.price == self.price
        &&& other.ticket_ref == self.ticket_ref
    }

    /// What `holder` has: the amount written for it, or zero.
    pub open spec fn balance_of(self, holder: AccountId) -> Balance {
        if self.balance.contains_key(holder) {
            self.balance[holder]
        } else {
            0
        }
    }

    /// What all holders have, taken together.
    pub open spec fn held(self) -> int {
        sum_over(self.balance, self.balance.dom())
    }

    /// Whether ticket `event_id` is assigned to some holder.
    pub open spec fn ticket_exists(self, event_id: EventId) -> bool {
        self.ticket_owner.contains_key(event_id)
    }

    /// The holder of ticket `event_id`, if it is assigned.
    pub open spec fn owner_of(self, event_id: EventId) -> Option<AccountId> {
        if self.ticket_owner.contains_key(event_id) {
            Some(self.ticket_owner[event_id])
        } else {
            None
        }
    }

    /// `to` can take one more ticket without its balance leaving the range.
    pub open spec fn can_add_token_to(self, to: AccountId) -> bool {
        self.balance_of(to) < Balance::MAX
    }

    /// One more for `to`, and ticket `event_id` is `to`'s, whoever had it.
    /// The previous holder's balance is left as it was.
    pub open spec fn add_token_to(self, to: AccountId, event_id: EventId) -> Ledger {
        Ledger {
            balance: self.balance.insert(to, (self.balance_of(to) + 1) as Balance),
            ticket_owner: self.ticket_owner.insert(event_id, to),
            ..self
        }
    }

    /// `from` has at least one ticket to give up.
    pub open spec fn can_remove_token_from(self, from: AccountId) -> bool {
        self.balance_of(from) >= 1
    }

    /// One less for `from`, and ticket `event_id` is nobody's. The number of
    /// issued tickets is left as it was.
    pub open spec fn remove_token_from(self, from: AccountId, event_id: EventId) -> Ledger {
        Ledger {
            balance: self.balance.insert(from, (self.balance_of(from) - 1) as Balance),
            ticket_owner: self.ticket_owner.remove(event_id),
            ..self
        }
    }

    /// Minting `amount` keeps the caller's balance and the supply in range.
    pub open spec fn can_mint(self, caller: AccountId, amount: Balance) -> bool {
        &&& self.balance_of(caller) + amount <= Balance::MAX
        &&& self.total_tickets + amount <= Balance::MAX
    }

    /// `amount` more tickets issued, all to `caller`, all under `event_id`:
    /// one ownership entry, however many units.
    pub open spec fn mint(self, caller: AccountId, event_id: EventId, amount: Balance) -> Ledger {
        if amount == 0 {
            self
        } else {
            Ledger {
                total_tickets: (self.total_tickets + amount) as Balance,
                balance: self.balance.insert(caller, (self.balance_of(caller) + amount) as Balance),
                ticket_owner: self.ticket_owner.insert(event_id, caller),
                ..self
            }
        }
    }

    /// Moving `tickets` units from `from` to `to` keeps both balances in
    /// range. Whether `from` holds the ticket is not asked. Between one and
    /// the same holder each unit is given back at once, so one unit in hand
    /// is enough for any number.
    pub open spec fn can_transfer(self, from: AccountId, to: AccountId, tickets: Balance) -> bool {
        if tickets == 0 {
            true
        } else if from == to {
            self.balance_of(from) >= 1
        } else {
            &&& self.balance_of(from) >= tickets
            &&& self.balance_of(to) + tickets <= Balance::MAX
        }
    }

    /// The balances after `tickets` units went from `from` to `to`.
    pub open spec fn moved(self, from: AccountId, to: AccountId, tickets: Balance) -> Map<
        AccountId,
        Balance,
    > {
        if from == to {
            self.balance
        } else {
            self.balance.insert(from, (self.balance_of(from) - tickets) as Balance).insert(
                to,
                (self.balance_of(to) + tickets) as Balance,
            )
        }
    }

    /// `tickets` units of the existing ticket `event_id` go from `from` to
    /// `to`, and the ticket becomes `to`'s. Nothing happens for no units.
    pub open spec fn transfer(
        self,
        from: AccountId,
        to: AccountId,
        event_id: EventId,
        tickets: Balance,
    ) -> Ledger {
        if tickets == 0 {
            self
        } else {
            Ledger {
                balance: self.moved(from, to, tickets),
                ticket_owner: self.ticket_owner.insert(event_id, to),
                ..self
            }
        }
    }

    /// `transfer_from` may be called: the ticket does not exist, so that
    /// nothing will be moved, or the transfer keeps the balances in range.
    pub open spec fn can_transfer_from(
        self,
        from: AccountId,
        to: AccountId,
        event_id: EventId,
        tickets: Balance,
    ) -> bool {
        self.ticket_exists(event_id) ==> self.can_transfer(from, to, tickets)
    }

    /// What `transfer_from` leaves: the transfer where the ticket exists, and
    /// the ledger as it was where it does not.
    pub open spec fn transfer_from(
        self,
        from: AccountId,
        to: AccountId,
        event_id: EventId,
        tickets: Balance,
    ) -> Ledger {
        if self.ticket_exists(event_id) {
            self.transfer(from, to, event_id, tickets)
        } else {
            self
        }
    }
}

} // verus!
