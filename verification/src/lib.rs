//! A per-event ticket ledger: who holds which ticket, how many tickets each
//! holder has, and how many were issued.
//!
//! `event` holds the ledger itself and `ledger` the mathematical model that
//! its operations are specified against; `laws` states what follows for
//! every ledger. `balances` is the store behind the holders' balances,
//! `ticket` the supply account that is instantiated beside each ledger, and
//! `account` the identifiers of holders and code.

pub mod account;
pub mod balances;
pub mod error;
pub mod event;
pub mod laws;
pub mod ledger;
pub mod ticket;

pub use crate::account::AccountId;
pub use crate::balances::Balance;
pub use crate::balances::Balances;
pub use crate::error::Error;
pub use crate::event::TicketEvent;
pub use crate::ledger::EventId;
pub use crate::ledger::Ledger;
pub use crate::ticket::Instantiation;
pub use crate::ticket::Ticket;
pub use crate::ticket::TicketRef;
