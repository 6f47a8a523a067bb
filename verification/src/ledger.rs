use vstd::prelude::*;

verus! {

/// Balances keyed by account identity, zero for an absent account.
///
/// One value of this type models the per-account balances of the monetary
/// collaborator; a second one holds each applicant's standing allowance.
/// Entries are never removed, so an account, once credited, stays known.
pub struct Ledger {
    pub entries: Vec<(u64, u64)>,
}

/// The balance the earliest entry for `who` holds, zero when there is none.
pub open spec fn seq_balance(s: Seq<(u64, u64)>, who: u64) -> u64
    decreases s.len(),
{
    if s.len() == 0 {
        0
    } else if s[0].0 == who {
        s[0].1
    } else {
        seq_balance(s.drop_first(), who)
    }
}

/// Whether some entry carries the key `who`.
pub open spec fn seq_known(s: Seq<(u64, u64)>, who: u64) -> bool
    decreases s.len(),
{
    if s.len() == 0 {
        false
    } else {
        s[0].0 == who || seq_known(s.drop_first(), who)
    }
}

/// When `i` is the earliest entry for its key, that entry gives the balance.
proof fn lemma_balance_first(s: Seq<(u64, u64)>, i: int)
    requires
        0 <= i < s.len(),
        forall|j: int| 0 <= j < i ==> s[j].0 != s[i].0,
    ensures
        seq_balance(s, s[i].0) == s[i].1,
        seq_known(s, s[i].0),
    decreases i,
{
    if i > 0 {
        assert(s.drop_first()[i - 1] == s[i]);
        lemma_balance_first(s.drop_first(), i - 1);
    }
}

/// A key no entry carries has balance zero and is unknown.
proof fn lemma_balance_absent(s: Seq<(u64, u64)>, who: u64)
    requires
        forall|j: int| 0 <= j < s.len() ==> s[j].0 != who,
    ensures
        seq_balance(s, who) == 0,
        !seq_known(s, who),
    decreases s.len(),
{
    if s.len() > 0 {
        lemma_balance_absent(s.drop_first(), who);
    }
}

/// Overwriting the earliest entry for a key changes that key's balance alone.
proof fn lemma_balance_update_one(s: Seq<(u64, u64)>, i: int, v: u64, w: u64)
    requires
        0 <= i < s.len(),
        forall|j: int| 0 <= j < i ==> s[j].0 != s[i].0,
    ensures
        seq_balance(s.update(i, (s[i].0, v)), w) == if w == s[i].0 {
            v
        } else {
            seq_balance(s, w)
        },
        seq_known(s.update(i, (s[i].0, v)), w) == seq_known(s, w),
    decreases i,
{
    let t = s.update(i, (s[i].0, v));
    if i == 0 {
        assert(t.drop_first() =~= s.drop_first());
    } else {
        assert(s.drop_first()[i - 1] == s[i]);
        lemma_balance_update_one(s.drop_first(), i - 1, v, w);
        assert(seq_balance(s.drop_first().update(i - 1, (s[i].0, v)), w) == if w == s[i].0 {
            v
        } else {
            seq_balance(s.drop_first(), w)
        });
        assert(t.drop_first() =~= s.drop_first().update(i - 1, (s[i].0, v)));
        assert(t[0] == s[0]);
    }
}

/// The forall form of `lemma_balance_update_one`.
proof fn lemma_balance_update(s: Seq<(u64, u64)>, i: int, v: u64)
    requires
        0 <= i < s.len(),
        forall|j: int| 0 <= j < i ==> s[j].0 != s[i].0,
    ensures
        forall|w: u64|
            seq_balance(s.update(i, (s[i].0, v)), w) == if w == s[i].0 {
                v
            } else {
                seq_balance(s, w)
            },
        forall|w: u64| seq_known(s.update(i, (s[i].0, v)), w) == seq_known(s, w),
{
    assert forall|w: u64|
        seq_balance(s.update(i, (s[i].0, v)), w) == if w == s[i].0 {
            v
        } else {
            seq_balance(s, w)
        } by {
        lemma_balance_update_one(s, i, v, w);
    }
    assert forall|w: u64| seq_known(s.update(i, (s[i].0, v)), w) == seq_known(s, w) by {
        lemma_balance_update_one(s, i, v, w);
    }
}

/// Appending an entry for a fresh key sets that key's balance alone.
proof fn lemma_balance_push_one(s: Seq<(u64, u64)>, who: u64, v: u64, w: u64)
    requires
        forall|j: int| 0 <= j < s.len() ==> s[j].0 != who,
    ensures
        seq_balance(s.push((who, v)), w) == if w == who {
            v
        } else {
            seq_balance(s, w)
        },
        seq_known(s.push((who, v)), w) == (w == who || seq_known(s, w)),
    decreases s.len(),
{
    if s.len() == 0 {
        assert(s.push((who, v)).drop_first() =~= s);
    } else {
        lemma_balance_push_one(s.drop_first(), who, v, w);
        assert(seq_balance(s.drop_first().push((who, v)), w) == if w == who {
            v
        } else {
            seq_balance(s.drop_first(), w)
        });
        assert(s.push((who, v)).drop_first() =~= s.drop_first().push((who, v)));
        assert(s.push((who, v))[0] == s[0]);
    }
}

/// The forall form of `lemma_balance_push_one`.
proof fn lemma_balance_push(s: Seq<(u64, u64)>, who: u64, v: u64)
    requires
        forall|j: int| 0 <= j < s.len() ==> s[j].0 != who,
    ensures
        forall|w: u64|
            seq_balance(s.push((who, v)), w) == if w == who {
                v
            } else {
                seq_balance(s, w)
            },
        forall|w: u64| #[trigger] seq_known(s.push((who, v)), w) == (w == who || seq_known(s, w)),
{
    assert forall|w: u64|
        seq_balance(s.push((who, v)), w) == if w == who {
            v
        } else {
            seq_balance(s, w)
        } by {
        lemma_balance_push_one(s, who, v, w);
    }
    assert forall|w: u64| #[trigger] seq_known(s.push((who, v)), w) == (w == who || seq_known(
        s,
        w,
    )) by {
        lemma_balance_push_one(s, who, v, w);
    }
}

impl Ledger {
    /// The balance standing against `who`; zero when the account is absent.
    pub open spec fn balance(self, who: u64) -> u64 {
        seq_balance(self.entries@, who)
    }

    /// Whether the account has ever been endowed or credited.
    pub open spec fn contains(self, who: u64) -> bool {
        seq_known(self.entries@, who)
    }

    /// An empty book: every balance is zero.
    pub fn new() -> (r: Ledger)
        ensures
            forall|w: u64| r.balance(w) == 0,
            forall|w: u64| !r.contains(w),
    {
        let r = Ledger { entries: Vec::new() };
        r
    }

    /// Index of the earliest entry for `who`, if any entry carries that key.
    fn find(&self, who: u64) -> (r: Option<usize>)
        ensures
            match r {
                Some(i) => i < self.entries@.len() && self.entries@[i as int].0 == who
                    && (forall|j: int| 0 <= j < i ==> self.entries@[j].0 != who),
                None => forall|j: int| 0 <= j < self.entries@.len() ==> self.entries@[j].0 != who,
            },
    {
        let n = self.entries.len();
        let mut i: usize = 0;
        while i < n
            invariant
                i <= n,
                n == self.entries@.len(),
                forall|j: int| 0 <= j < i ==> self.entries@[j].0 != who,
            decreases n - i,
        {
            if self.entries[i].0 == who {
                return Some(i);
            }
            i = i + 1;
        }
        None
    }

    /// The balance standing against `who`.
    pub fn balance_of(&self, who: u64) -> (r: u64)
        ensures
            r == self.balance(who),
    {
        match self.find(who) {
            Some(i) => {
                proof {
                    lemma_balance_first(self.entries@, i as int);
                }
                self.entries[i].1
            },
            None => {
                proof {
                    lemma_balance_absent(self.entries@, who);
                }
                0
            },
        }
    }

    /// Whether the account exists in the book.
    pub fn has_account(&self, who: u64) -> (r: bool)
        ensures
            r == self.contains(who),
    {
        match self.find(who) {
            Some(i) => {
                proof {
                    lemma_balance_first(self.entries@, i as int);
                }
                true
            },
            None => {
                proof {
                    lemma_balance_absent(self.entries@, who);
                }
                false
            },
        }
    }

    /// Adds `amount` to the account, creating it when absent.
    pub(crate) fn credit(&mut self, who: u64, amount: u64)
        requires
            old(self).balance(who) + amount <= u64::MAX,
        ensures
            final(self).balance(who) == old(self).balance(who) + amount,
            forall|w: u64| w != who ==> final(self).balance(w) == old(self).balance(w),
            final(self).contains(who),
            forall|w: u64| w != who ==> final(self).contains(w) == old(self).contains(w),
    {
        match self.find(who) {
            Some(i) => {
                proof {
                    lemma_balance_first(self.entries@, i as int);
                    lemma_balance_update(self.entries@, i as int, (self.entries@[i as int].1
                        + amount) as u64);
                }
                let v = self.entries[i].1;
                self.entries[i] = (who, v + amount);
            },
            None => {
                proof {
                    lemma_balance_absent(self.entries@, who);
                    lemma_balance_push(self.entries@, who, amount);
                }
                self.entries.push((who, amount));
            },
        }
    }

    /// Takes `amount` out of the account; the entry stays in place.
    pub(crate) fn debit(&mut self, who: u64, amount: u64)
        requires
            amount <= old(self).balance(who),
        ensures
            final(self).balance(who) == old(self).balance(who) - amount,
            forall|w: u64| w != who ==> final(self).balance(w) == old(self).balance(w),
            forall|w: u64| final(self).contains(w) == old(self).contains(w),
    {
        match self.find(who) {
            Some(i) => {
                proof {
                    lemma_balance_first(self.entries@, i as int);
                    lemma_balance_update(self.entries@, i as int, (self.entries@[i as int].1
                        - amount) as u64);
                }
                let v = self.entries[i].1;
                self.entries[i] = (who, v - amount);
            },
            None => {
                proof {
                    lemma_balance_absent(self.entries@, who);
                }
            },
        }
    }

    /// Overwrites the balance standing against `who`.
    pub(crate) fn set(&mut self, who: u64, amount: u64)
        ensures
            final(self).balance(who) == amount,
            forall|w: u64| w != who ==> final(self).balance(w) == old(self).balance(w),
            final(self).contains(who),
            forall|w: u64| w != who ==> final(self).contains(w) == old(self).contains(w),
    {
        match self.find(who) {
            Some(i) => {
                proof {
                    lemma_balance_first(self.entries@, i as int);
                    lemma_balance_update(self.entries@, i as int, amount);
                }
                self.entries[i] = (who, amount);
            },
            None => {
                proof {
                    lemma_balance_absent(self.entries@, who);
                    lemma_balance_push(self.entries@, who, amount);
                }
                self.entries.push((who, amount));
            },
        }
    }
}

} // verus!
