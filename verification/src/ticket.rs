//! The supply account: a counter that lives beside a ledger, and the handle
//! by which the ledger refers to it.

use vstd::prelude::*;
use crate::account::AccountId;
use crate::balances::Balance;

verus! {

/// A supply account: one stored amount, raised one at a time.
#[derive(Debug, Clone, Copy)]
pub struct Ticket {
    /// The stored amount.
    pub value: Balance,
}

impl Ticket {
    /// A supply account that starts at `init_value`.
    pub fn new(init_value: Balance) -> (r: Self)
        ensures
            r.value == init_value,
    {
        Ticket { value: init_value }
    }

    /// Raises the stored amount by one.
    pub fn increase(&mut self)
        requires
            old(self).value < Balance::MAX,
        ensures
            final(self).value == old(self).value + 1,
    {
        self.value += 1;
    }

    /// The stored amount.
    pub fn get(&self) -> (r: Balance)
        ensures
            r == self.value,
    {
        self.value
    }
}

/// A handle on an instantiated supply account: the account it lives at.
#[derive(Debug, Clone, Copy)]
pub struct TicketRef {
    pub account_id: AccountId,
}

impl TicketRef {
    /// The handle on the supply account at `account_id`.
    pub fn from_account_id(account_id: AccountId) -> (r: Self)
        ensures
            r.account_id == account_id,
    {
        TicketRef { account_id }
    }

    /// The account that the supply account lives at.
    pub fn to_account_id(&self) -> (r: AccountId)
        ensures
            r == self.account_id,
    {
        self.account_id
    }
}

/// The number that four bytes spell, least significant byte first.
pub open spec fn le_value(bytes: Seq<u8>) -> int {
    bytes[0] + 256 * bytes[1] + 65536 * bytes[2] + 16777216 * bytes[3]
}

/// The salt that tells the supply accounts of different versions apart: the
/// four bytes of `version`, least significant first.
pub fn salt_bytes(version: u32) -> (r: [u8; 4])
    ensures
        r@.len() == 4,
        le_value(r@) == version,
{
    let b0: u8 = (version % 256) as u8;
    let b1: u8 = ((version / 256) % 256) as u8;
    let b2: u8 = ((version / 65536) % 256) as u8;
    let b3: u8 = (version / 16777216) as u8;
    [b0, b1, b2, b3]
}

/// What a supply account is endowed with when it is instantiated.
pub const ENDOWMENT: Balance = 15;

/// A request to the host to instantiate one supply account. The host derives
/// the new account's address from the code hash and the salt, so one request
/// names one account.
#[derive(Debug, Clone, Copy)]
pub struct Instantiation {
    /// The code to instantiate.
    pub code_hash: crate::account::Hash,
    /// Told apart from other instances of the same code by this.
    pub salt: [u8; 4],
    /// The allowance that covers the new account's running cost.
    pub endowment: Balance,
    /// The amount that the new supply account starts at.
    pub init_value: Balance,
}

} // verus!
