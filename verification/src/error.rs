//! Why an operation on the ledger was refused.

use vstd::prelude::*;

verus! {

/// The ways in which the ledger can refuse an operation.
///
/// Only `TokenNotFound` is ever returned today. The others name the checks on
/// ownership and approval that the ledger does not make yet.
#[derive(Debug, PartialEq, Eq, Copy, Clone, Structural)]
pub enum Error {
    NotOwner,
    NotApproved,
    TokenExists,
    TokenNotFound,
    CannotInsert,
    CannotFetchValue,
    NotAllowed,
}

} // verus!
