//! The holder-to-balance store of a ledger.
//!
//! A small owned map from holder to amount. Each holder has at most one
//! entry; a holder without an entry is a holder nobody has written yet, which
//! readers of the ledger count as zero.

use vstd::prelude::*;
use crate::account::AccountId;

verus! {

/// An amount of tickets, in the width of the host's native balance.
pub type Balance = u128;

/// What one holder has.
#[derive(Clone, Copy)]
struct Holding {
    holder: AccountId,
    amount: Balance,
}

/// No holder occurs twice.
spec fn distinct_holders(s: Seq<Holding>) -> bool {
    forall|i: int, j: int| 0 <= i < j < s.len() ==> s[i].holder != s[j].holder
}

/// Some entry of `s` is about `holder`.
spec fn has_holder(s: Seq<Holding>, holder: AccountId) -> bool {
    exists|i: int| 0 <= i < s.len() && #[trigger] s[i].holder == holder
}

/// The place of `holder`'s entry in `s`, where it has one.
spec fn place_of(s: Seq<Holding>, holder: AccountId) -> int {
    choose|i: int| 0 <= i < s.len() && #[trigger] s[i].holder == holder
}

/// The map that a list of entries stands for.
spec fn holdings_map(s: Seq<Holding>) -> Map<AccountId, Balance> {
    Map::new(|h: AccountId| has_holder(s, h), |h: AccountId| s[place_of(s, h)].amount)
}

/// An entry found at `i` is the entry of its holder.
proof fn lemma_entry_at(s: Seq<Holding>, i: int)
    requires
        distinct_holders(s),
        0 <= i < s.len(),
    ensures
        has_holder(s, s[i].holder),
        place_of(s, s[i].holder) == i,
        holdings_map(s).contains_key(s[i].holder),
        holdings_map(s)[s[i].holder] == s[i].amount,
{
    let h = s[i].holder;
    assert(has_holder(s, h));
    let p = place_of(s, h);
    assert(0 <= p < s.len() && s[p].holder == h);
    if p < i {
        assert(s[p].holder != s[i].holder);
    } else if i < p {
        assert(s[i].holder != s[p].holder);
    }
}

/// Overwriting the amount of the entry at `i` overwrites its holder's amount.
proof fn lemma_overwrite(s: Seq<Holding>, i: int, amount: Balance)
    requires
        distinct_holders(s),
        0 <= i < s.len(),
    ensures
        distinct_holders(s.update(i, Holding { holder: s[i].holder, amount })),
        holdings_map(s.update(i, Holding { holder: s[i].holder, amount })) == holdings_map(
            s,
        ).insert(s[i].holder, amount),
{
    let h = s[i].holder;
    let t = s.update(i, Holding { holder: h, amount });
    assert forall|a: int, b: int| 0 <= a < b < t.len() implies t[a].holder != t[b].holder by {
        assert(t[a].holder == s[a].holder);
        assert(t[b].holder == s[b].holder);
    }
    assert forall|k: AccountId| #[trigger] holdings_map(t).contains_key(k) <==> holdings_map(
        s,
    ).insert(h, amount).contains_key(k) by {
        if has_holder(t, k) {
            let p = place_of(t, k);
            assert(s[p].holder == k);
        }
        if has_holder(s, k) {
            let p = place_of(s, k);
            assert(t[p].holder == k);
        }
        if k == h {
            assert(t[i].holder == k);
        }
    }
    assert forall|k: AccountId| #[trigger] holdings_map(t).contains_key(k) implies holdings_map(
        t,
    )[k] == holdings_map(s).insert(h, amount)[k] by {
        let p = place_of(t, k);
        lemma_entry_at(t, p);
        if k != h {
            assert(p != i);
            assert(s[p] == t[p]);
            lemma_entry_at(s, p);
        } else {
            lemma_entry_at(t, i);
        }
    }
    assert(holdings_map(t) =~= holdings_map(s).insert(h, amount));
}

/// Appending an entry for a holder that has none gives that holder the amount.
proof fn lemma_append(s: Seq<Holding>, holder: AccountId, amount: Balance)
    requires
        distinct_holders(s),
        !has_holder(s, holder),
    ensures
        distinct_holders(s.push(Holding { holder, amount })),
        holdings_map(s.push(Holding { holder, amount })) == holdings_map(s).insert(holder, amount),
{
    let t = s.push(Holding { holder, amount });
    let n = s.len() as int;
    assert forall|a: int, b: int| 0 <= a < b < t.len() implies t[a].holder != t[b].holder by {
        if b == n {
            assert(t[a] == s[a]);
            if s[a].holder == holder {
                assert(has_holder(s, holder));
            }
        } else {
            assert(t[a] == s[a]);
            assert(t[b] == s[b]);
        }
    }
    assert forall|k: AccountId| #[trigger] holdings_map(t).contains_key(k) <==> holdings_map(
        s,
    ).insert(holder, amount).contains_key(k) by {
        if has_holder(t, k) {
            let p = place_of(t, k);
            if p < n {
                assert(s[p].holder == k);
            }
        }
        if has_holder(s, k) {
            let p = place_of(s, k);
            assert(t[p].holder == k);
        }
        if k == holder {
            assert(t[n].holder == k);
        }
    }
    assert forall|k: AccountId| #[trigger] holdings_map(t).contains_key(k) implies holdings_map(
        t,
    )[k] == holdings_map(s).insert(holder, amount)[k] by {
        let p = place_of(t, k);
        lemma_entry_at(t, p);
        if p < n {
            assert(s[p] == t[p]);
            lemma_entry_at(s, p);
            if k == holder {
                assert(has_holder(s, holder));
            }
        }
    }
    assert(holdings_map(t) =~= holdings_map(s).insert(holder, amount));
}

/// Only the holders of the entries are in the map, so they are finitely many.
proof fn lemma_finitely_many_holders(s: Seq<Holding>)
    ensures
        holdings_map(s).dom().finite(),
{
    let holders = s.map_values(|e: Holding| e.holder);
    vstd::seq_lib::seq_to_set_is_finite(holders);
    assert forall|h: AccountId| holdings_map(s).dom().contains(h) implies holders.to_set().contains(
        h,
    ) by {
        let p = place_of(s, h);
        assert(holders[p] == h);
    }
    vstd::set_lib::lemma_set_subset_finite(holders.to_set(), holdings_map(s).dom());
}

/// The balances of a ledger: an owned map from holder to amount.
pub struct Balances {
    entries: Vec<Holding>,
}

impl View for Balances {
    type V = Map<AccountId, Balance>;

    closed spec fn view(&self) -> Map<AccountId, Balance> {
        holdings_map(self.entries@)
    }
}

impl Balances {
    #[verifier::type_invariant]
    spec fn well_formed(&self) -> bool {
        distinct_holders(self.entries@)
    }

    /// Entries were written for finitely many holders only.
    pub proof fn lemma_finite(self)
        ensures
            self@.dom().finite(),
    {
        lemma_finitely_many_holders(self.entries@);
    }

    /// A store in which no holder has an entry.
    pub fn new() -> (r: Self)
        ensures
            r@ == Map::<AccountId, Balance>::empty(),
    {
        let r = Balances { entries: Vec::new() };
        assert(r@ =~= Map::<AccountId, Balance>::empty());
        r
    }

    /// The place of `holder`'s entry, if it has one.
    fn find(&self, holder: &AccountId) -> (r: Option<usize>)
        ensures
            match r {
                Some(i) => i < self.entries@.len() && self.entries@[i as int].holder == *holder,
                None => !has_holder(self.entries@, *holder),
            },
    {
        let mut i: usize = 0;
        while i < self.entries.len()
            invariant
                i <= self.entries@.len(),
                forall|j: int| 0 <= j < i ==> self.entries@[j].holder != *holder,
            decreases self.entries@.len() - i,
        {
            if self.entries[i].holder == *holder {
                return Some(i);
            }
            i += 1;
        }
        None
    }

    /// The amount written for `holder`, or `None` where none was written.
    pub fn get(&self, holder: &AccountId) -> (r: Option<Balance>)
        ensures
            r == (if self@.contains_key(*holder) {
                Some(self@[*holder])
            } else {
                None
            }),
    {
        proof {
            use_type_invariant(self);
        }
        match self.find(holder) {
            Some(i) => {
                proof {
                    lemma_entry_at(self.entries@, i as int);
                }
                Some(self.entries[i].amount)
            },
            None => None,
        }
    }

    /// Writes `amount` for `holder`, over whatever was written for it before.
    pub fn insert(&mut self, holder: AccountId, amount: Balance)
        ensures
            final(self)@ == old(self)@.insert(holder, amount),
    {
        proof {
            use_type_invariant(&*self);
        }
        let found = self.find(&holder);
        let mut entries: Vec<Holding> = Vec::new();
        std::mem::swap(&mut entries, &mut self.entries);
        match found {
            Some(i) => {
                proof {
                    lemma_overwrite(entries@, i as int, amount);
                }
                entries.set(i, Holding { holder, amount });
            },
            None => {
                proof {
                    lemma_append(entries@, holder, amount);
                }
                entries.push(Holding { holder, amount });
            },
        }
        self.entries = entries;
    }
}

} // verus!
