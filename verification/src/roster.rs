use vstd::prelude::*;

verus! {

/// One membership record. A record with zero energy is functionally a
/// non-member; records are never deleted.
#[derive(Clone, Copy, Debug, PartialEq, Eq, Structural)]
pub struct Member {
    /// Voting weight, and the claim on the Free pool at rage-quit time.
    pub energy: u64,
    /// Highest access-proposal index this member voted yes on.
    pub highest_index_yes_vote: u32,
}

/// The membership ledger: records keyed by account identity, in admission
/// order, with at most one record per account.
pub struct Roster {
    pub entries: Vec<(u64, Member)>,
}

/// The record of the earliest entry for `who`, if any.
pub open spec fn seq_member(s: Seq<(u64, Member)>, who: u64) -> Option<Member>
    decreases s.len(),
{
    if s.len() == 0 {
        None
    } else if s[0].0 == who {
        Some(s[0].1)
    } else {
        seq_member(s.drop_first(), who)
    }
}

/// The sum of all records' energy.
pub open spec fn seq_energy(s: Seq<(u64, Member)>) -> int
    decreases s.len(),
{
    if s.len() == 0 {
        0
    } else {
        s[0].1.energy + seq_energy(s.drop_first())
    }
}

/// When `i` is the earliest entry for its key, that entry gives the record.
proof fn lemma_member_first(s: Seq<(u64, Member)>, i: int)
    requires
        0 <= i < s.len(),
        forall|j: int| 0 <= j < i ==> s[j].0 != s[i].0,
    ensures
        seq_member(s, s[i].0) == Some(s[i].1),
    decreases i,
{
    if i > 0 {
        assert(s.drop_first()[i - 1] == s[i]);
        lemma_member_first(s.drop_first(), i - 1);
    }
}

/// A key no entry carries has no record.
proof fn lemma_member_absent(s: Seq<(u64, Member)>, who: u64)
    requires
        forall|j: int| 0 <= j < s.len() ==> s[j].0 != who,
    ensures
        seq_member(s, who) is None,
    decreases s.len(),
{
    if s.len() > 0 {
        lemma_member_absent(s.drop_first(), who);
    }
}

/// Overwriting the earliest entry for a key changes that key's record alone,
/// and moves the energy sum by the difference.
proof fn lemma_member_update_one(s: Seq<(u64, Member)>, i: int, m: Member, w: u64)
    requires
        0 <= i < s.len(),
        forall|j: int| 0 <= j < i ==> s[j].0 != s[i].0,
    ensures
        seq_member(s.update(i, (s[i].0, m)), w) == if w == s[i].0 {
            Some(m)
        } else {
            seq_member(s, w)
        },
    decreases i,
{
    let t = s.update(i, (s[i].0, m));
    if i == 0 {
        assert(t.drop_first() =~= s.drop_first());
    } else {
        assert(s.drop_first()[i - 1] == s[i]);
        lemma_member_update_one(s.drop_first(), i - 1, m, w);
        assert(seq_member(s.drop_first().update(i - 1, (s[i].0, m)), w) == if w == s[i].0 {
            Some(m)
        } else {
            seq_member(s.drop_first(), w)
        });
        assert(t.drop_first() =~= s.drop_first().update(i - 1, (s[i].0, m)));
        assert(t[0] == s[0]);
    }
}

/// The forall form of `lemma_member_update_one`.
proof fn lemma_member_update(s: Seq<(u64, Member)>, i: int, m: Member)
    requires
        0 <= i < s.len(),
        forall|j: int| 0 <= j < i ==> s[j].0 != s[i].0,
    ensures
        forall|w: u64|
            seq_member(s.update(i, (s[i].0, m)), w) == if w == s[i].0 {
                Some(m)
            } else {
                seq_member(s, w)
            },
{
    assert forall|w: u64|
        seq_member(s.update(i, (s[i].0, m)), w) == if w == s[i].0 {
            Some(m)
        } else {
            seq_member(s, w)
        } by {
        lemma_member_update_one(s, i, m, w);
    }
}

/// Updating one entry moves the energy sum by the difference at that entry.
proof fn lemma_energy_update(s: Seq<(u64, Member)>, i: int, m: Member)
    requires
        0 <= i < s.len(),
    ensures
        seq_energy(s.update(i, (s[i].0, m))) == seq_energy(s) - s[i].1.energy + m.energy,
    decreases i,
{
    let t = s.update(i, (s[i].0, m));
    if i == 0 {
        assert(t.drop_first() =~= s.drop_first());
    } else {
        assert(s.drop_first()[i - 1] == s[i]);
        lemma_energy_update(s.drop_first(), i - 1, m);
        assert(t.drop_first() =~= s.drop_first().update(i - 1, (s[i].0, m)));
        assert(t[0] == s[0]);
    }
}

/// Appending an entry for a fresh key adds that record and its energy.
proof fn lemma_member_push_one(s: Seq<(u64, Member)>, who: u64, m: Member, w: u64)
    requires
        forall|j: int| 0 <= j < s.len() ==> s[j].0 != who,
    ensures
        seq_member(s.push((who, m)), w) == if w == who {
            Some(m)
        } else {
            seq_member(s, w)
        },
    decreases s.len(),
{
    if s.len() == 0 {
        assert(s.push((who, m)).drop_first() =~= s);
    } else {
        lemma_member_push_one(s.drop_first(), who, m, w);
        assert(seq_member(s.drop_first().push((who, m)), w) == if w == who {
            Some(m)
        } else {
            seq_member(s.drop_first(), w)
        });
        assert(s.push((who, m)).drop_first() =~= s.drop_first().push((who, m)));
        assert(s.push((who, m))[0] == s[0]);
    }
}

/// The forall form of `lemma_member_push_one`.
proof fn lemma_member_push(s: Seq<(u64, Member)>, who: u64, m: Member)
    requires
        forall|j: int| 0 <= j < s.len() ==> s[j].0 != who,
    ensures
        forall|w: u64|
            seq_member(s.push((who, m)), w) == if w == who {
                Some(m)
            } else {
                seq_member(s, w)
            },
{
    assert forall|w: u64|
        seq_member(s.push((who, m)), w) == if w == who {
            Some(m)
        } else {
            seq_member(s, w)
        } by {
        lemma_member_push_one(s, who, m, w);
    }
}

/// Appending an entry adds its energy to the sum.
proof fn lemma_energy_push(s: Seq<(u64, Member)>, e: (u64, Member))
    ensures
        seq_energy(s.push(e)) == seq_energy(s) + e.1.energy,
    decreases s.len(),
{
    if s.len() == 0 {
        assert(s.push(e).drop_first() =~= s);
    } else {
        lemma_energy_push(s.drop_first(), e);
        assert(s.push(e).drop_first() =~= s.drop_first().push(e));
        assert(s.push(e)[0] == s[0]);
    }
}

/// A record's energy never exceeds the sum of all records' energy.
pub proof fn lemma_member_energy_le_sum(s: Seq<(u64, Member)>, who: u64)
    requires
        seq_member(s, who) is Some,
    ensures
        seq_member(s, who).unwrap().energy <= seq_energy(s),
        seq_energy(s) >= 0,
    decreases s.len(),
{
    lemma_energy_nonneg(s);
    if s.len() > 0 && s[0].0 != who {
        lemma_member_energy_le_sum(s.drop_first(), who);
    } else if s.len() > 0 {
        lemma_energy_nonneg(s.drop_first());
    }
}

/// The energy sum is never negative.
pub proof fn lemma_energy_nonneg(s: Seq<(u64, Member)>)
    ensures
        seq_energy(s) >= 0,
    decreases s.len(),
{
    if s.len() > 0 {
        lemma_energy_nonneg(s.drop_first());
    }
}

impl Roster {
    /// The record standing for `who`, if one exists.
    pub open spec fn get(self, who: u64) -> Option<Member> {
        seq_member(self.entries@, who)
    }

    /// The sum of all members' energy.
    pub open spec fn total(self) -> int {
        seq_energy(self.entries@)
    }

    /// At most one record per account, and the count fits the host's
    /// 32-bit member counter.
    pub open spec fn wf(self) -> bool {
        &&& forall|i: int, j: int|
            0 <= i < j < self.entries@.len() ==> self.entries@[i].0 != self.entries@[j].0
        &&& self.entries@.len() <= u32::MAX
    }

    /// Whether the account is a member in force: a record exists and its
    /// energy is positive.
    pub open spec fn is_member_spec(self, who: u64) -> bool {
        match self.get(who) {
            Some(m) => m.energy > 0,
            None => false,
        }
    }

    /// An empty roster.
    pub fn new() -> (r: Roster)
        ensures
            r.entries@.len() == 0,
            forall|w: u64| r.get(w) is None,
            r.total() == 0,
            r.wf(),
    {
        let r = Roster { entries: Vec::new() };
        r
    }

    /// How many records the roster holds.
    pub fn count(&self) -> (r: usize)
        ensures
            r == self.entries@.len(),
    {
        self.entries.len()
    }

    /// Index of the entry for `who`, if one exists.
    fn find(&self, who: u64) -> (r: Option<usize>)
        ensures
            match r {
                Some(i) => i < self.entries@.len() && self.entries@[i as int].0 == who
                    && (forall|j: int| 0 <= j < i ==> self.entries@[j].0 != who),
                None => forall|j: int| 0 <= j < self.entries@.len() ==> self.entries@[j].0 != who,
            },
    {
        let n = self.entries.len();
        let mut i: usize = 0;
        while i < n
            invariant
                i <= n,
                n == self.entries@.len(),
                forall|j: int| 0 <= j < i ==> self.entries@[j].0 != who,
            decreases n - i,
        {
            if self.entries[i].0 == who {
                return Some(i);
            }
            i = i + 1;
        }
        None
    }

    /// The record standing for `who`, if one exists.
    pub fn lookup(&self, who: u64) -> (r: Option<Member>)
        ensures
            r == self.get(who),
    {
        match self.find(who) {
            Some(i) => {
                proof {
                    lemma_member_first(self.entries@, i as int);
                }
                Some(self.entries[i].1)
            },
            None => {
                proof {
                    lemma_member_absent(self.entries@, who);
                }
                None
            },
        }
    }

    /// Adds `delta` energy to an existing record, or admits a new record
    /// carrying `delta` energy and no yes-vote history.
    pub(crate) fn admit_or_top_up(&mut self, who: u64, delta: u64)
        requires
            old(self).wf(),
            match old(self).get(who) {
                Some(m) => m.energy + delta <= u64::MAX,
                None => old(self).entries@.len() < u32::MAX,
            },
        ensures
            final(self).wf(),
            final(self).get(who) == (match old(self).get(who) {
                Some(m) => Some(
                    (Member { energy: (m.energy + delta) as u64, ..m }),
                ),
                None => Some((Member { energy: delta, highest_index_yes_vote: 0 })),
            }),
            forall|w: u64| w != who ==> final(self).get(w) == old(self).get(w),
            final(self).total() == old(self).total() + delta,
            final(self).entries@.len() == old(self).entries@.len() + (if old(self).get(who)
                is Some {
                0int
            } else {
                1int
            }),
    {
        match self.find(who) {
            Some(i) => {
                proof {
                    lemma_member_first(self.entries@, i as int);
                }
                let m = self.entries[i].1;
                let next = Member {
                    energy: m.energy + delta,
                    highest_index_yes_vote: m.highest_index_yes_vote,
                };
                proof {
                    lemma_member_update(self.entries@, i as int, next);
                    lemma_energy_update(self.entries@, i as int, next);
                }
                self.entries[i] = (who, next);
            },
            None => {
                let next = Member { energy: delta, highest_index_yes_vote: 0 };
                proof {
                    lemma_member_absent(self.entries@, who);
                    lemma_member_push(self.entries@, who, next);
                    lemma_energy_push(self.entries@, (who, next));
                }
                self.entries.push((who, next));
            },
        }
    }

    /// Burns `delta` energy from an existing record.
    pub(crate) fn burn(&mut self, who: u64, delta: u64)
        requires
            old(self).wf(),
            old(self).get(who) is Some,
            delta <= old(self).get(who).unwrap().energy,
        ensures
            final(self).wf(),
            final(self).get(who) == Some(
                (Member {
                    energy: (old(self).get(who).unwrap().energy - delta) as u64,
                    ..old(self).get(who).unwrap()
                }),
            ),
            forall|w: u64| w != who ==> final(self).get(w) == old(self).get(w),
            final(self).total() == old(self).total() - delta,
            final(self).entries@.len() == old(self).entries@.len(),
    {
        match self.find(who) {
            Some(i) => {
                proof {
                    lemma_member_first(self.entries@, i as int);
                }
                let m = self.entries[i].1;
                let next = Member {
                    energy: m.energy - delta,
                    highest_index_yes_vote: m.highest_index_yes_vote,
                };
                proof {
                    lemma_member_update(self.entries@, i as int, next);
                    lemma_energy_update(self.entries@, i as int, next);
                }
                self.entries[i] = (who, next);
            },
            None => {
                proof {
                    lemma_member_absent(self.entries@, who);
                }
                unreached()
            },
        }
    }

    /// Records `index` as the highest access proposal this member voted
    /// yes on.
    pub(crate) fn set_highest_yes(&mut self, who: u64, index: u32)
        requires
            old(self).wf(),
            old(self).get(who) is Some,
        ensures
            final(self).wf(),
            final(self).get(who) == Some(
                (Member { highest_index_yes_vote: index, ..old(self).get(who).unwrap() }),
            ),
            forall|w: u64| w != who ==> final(self).get(w) == old(self).get(w),
            final(self).total() == old(self).total(),
            final(self).entries@.len() == old(self).entries@.len(),
    {
        match self.find(who) {
            Some(i) => {
                proof {
                    lemma_member_first(self.entries@, i as int);
                }
                let m = self.entries[i].1;
                let next = Member { energy: m.energy, highest_index_yes_vote: index };
                proof {
                    lemma_member_update(self.entries@, i as int, next);
                    lemma_energy_update(self.entries@, i as int, next);
                }
                self.entries[i] = (who, next);
            },
            None => {
                proof {
                    lemma_member_absent(self.entries@, who);
                }
                unreached()
            },
        }
    }
}

} // verus!
