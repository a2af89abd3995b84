//! Fixed-width identifiers: holders and code hashes.
//!
//! Both are 32 opaque bytes. Nothing is read out of them but whether two of
//! them are the same, which is what lets them key a map.

use vstd::prelude::*;
use vstd::std_specs::cmp::PartialEqSpecImpl;
use vstd::std_specs::convert::FromSpecImpl;

verus! {

/// Whether two 32-byte strings agree byte for byte.
fn same_bytes(a: &[u8; 32], b: &[u8; 32]) -> (r: bool)
    ensures
        r == (*a == *b),
{
    let mut i: usize = 0;
    while i < 32
        invariant
            i <= 32,
            forall|j: int| 0 <= j < i ==> a@[j] == b@[j],
        decreases 32 - i,
    {
        if a[i] != b[i] {
            return false;
        }
        i += 1;
    }
    assert(*a =~= *b);
    true
}

/// Identifies a holder of tickets.
#[derive(Debug, Clone, Copy)]
pub struct AccountId(pub [u8; 32]);

impl PartialEq for AccountId {
    fn eq(&self, other: &Self) -> (r: bool) {
        same_bytes(&self.0, &other.0)
    }
}

impl Eq for AccountId {

}

impl PartialEqSpecImpl for AccountId {
    open spec fn obeys_eq_spec() -> bool {
        true
    }

    open spec fn eq_spec(&self, other: &Self) -> bool {
        *self == *other
    }
}

impl From<[u8; 32]> for AccountId {
    fn from(bytes: [u8; 32]) -> (r: Self) {
        AccountId(bytes)
    }
}

impl FromSpecImpl<[u8; 32]> for AccountId {
    open spec fn obeys_from_spec() -> bool {
        true
    }

    open spec fn from_spec(bytes: [u8; 32]) -> Self {
        AccountId(bytes)
    }
}

/// Identifies a piece of code by the hash of its content.
#[derive(Debug, Clone, Copy)]
pub struct Hash(pub [u8; 32]);

impl PartialEq for Hash {
    fn eq(&self, other: &Self) -> (r: bool) {
        same_bytes(&self.0, &other.0)
    }
}

impl Eq for Hash {

}

impl PartialEqSpecImpl for Hash {
    open spec fn obeys_eq_spec() -> bool {
        true
    }

    open spec fn eq_spec(&self, other: &Self) -> bool {
        *self == *other
    }
}

impl From<[u8; 32]> for Hash {
    fn from(bytes: [u8; 32]) -> (r: Self) {
        Hash(bytes)
    }
}

impl FromSpecImpl<[u8; 32]> for Hash {
    open spec fn obeys_from_spec() -> bool {
        true
    }

    open spec fn from_spec(bytes: [u8; 32]) -> Self {
        Hash(bytes)
    }
}

} // verus!
