//! The loan registry: a mapping from asset identifier to loan record with
//! load, try-load and save, abstracted as a `Map` from the identifier's
//! characters to the stored record.

use vstd::prelude::*;

verus! {

use vstd::pervasive::unreached;
use vstd::pervasive::VecAdditionalExecFns;

use crate::error::ContractError;
use crate::state::Loan;

/// One stored record together with the key it is stored under.
struct Entry {
    key: String,
    loan: Loan,
}

/// The map a sequence of entries stands for; a later entry for the same key
/// would win, though a well-formed registry never stores a key twice.
spec fn entries_map(s: Seq<Entry>) -> Map<Seq<char>, Loan>
    decreases s.len(),
{
    if s.len() == 0 {
        Map::empty()
    } else {
        entries_map(s.drop_last()).insert(s.last().key@, s.last().loan)
    }
}

/// No two entries share a key.
spec fn unique_keys(s: Seq<Entry>) -> bool {
    forall|i: int, j: int| 0 <= i < j < s.len() ==> s[i].key@ != s[j].key@
}

proof fn lemma_drop_last_unique(s: Seq<Entry>)
    requires
        unique_keys(s),
        s.len() > 0,
    ensures
        unique_keys(s.drop_last()),
{
    assert forall|i: int, j: int|
        0 <= i < j < s.drop_last().len() implies s.drop_last()[i].key@
        != s.drop_last()[j].key@ by {
        assert(s.drop_last()[i] == s[i]);
        assert(s.drop_last()[j] == s[j]);
    }
}

/// A key held by no entry is not in the map.
proof fn lemma_map_absent(s: Seq<Entry>, k: Seq<char>)
    requires
        forall|i: int| 0 <= i < s.len() ==> s[i].key@ != k,
    ensures
        !entries_map(s).contains_key(k),
    decreases s.len(),
{
    if s.len() > 0 {
        assert(s.last().key@ != k);
        assert(forall|i: int| 0 <= i < s.drop_last().len() ==> s.drop_last()[i].key@ != k);
        lemma_map_absent(s.drop_last(), k);
    }
}

/// With unique keys, the map sends each entry's key to that entry's record.
proof fn lemma_map_at(s: Seq<Entry>, i: int)
    requires
        unique_keys(s),
        0 <= i < s.len(),
    ensures
        entries_map(s).contains_key(s[i].key@),
        entries_map(s)[s[i].key@] == s[i].loan,
    decreases s.len(),
{
    if i < s.len() - 1 {
        lemma_drop_last_unique(s);
        assert(s.drop_last()[i] == s[i]);
        lemma_map_at(s.drop_last(), i);
        assert(s[i].key@ != s.last().key@);
    }
}

/// Replacing the entry at `i` by one with the same key updates the map at
/// that key.
proof fn lemma_map_update(s: Seq<Entry>, i: int, e: Entry)
    requires
        unique_keys(s),
        0 <= i < s.len(),
        e.key@ == s[i].key@,
    ensures
        entries_map(s.update(i, e)) == entries_map(s).insert(e.key@, e.loan),
    decreases s.len(),
{
    let t = s.update(i, e);
    if i == s.len() - 1 {
        assert(t.drop_last() =~= s.drop_last());
        assert(t.last() == e);
        assert(entries_map(t) =~= entries_map(s).insert(e.key@, e.loan));
    } else {
        lemma_drop_last_unique(s);
        assert(s.drop_last()[i] == s[i]);
        lemma_map_update(s.drop_last(), i, e);
        assert(t.drop_last() =~= s.drop_last().update(i, e));
        assert(t.last() == s.last());
        assert(s[i].key@ != s.last().key@);
        assert(entries_map(t) =~= entries_map(s).insert(e.key@, e.loan));
    }
}

/// Appending an entry inserts its key into the map.
proof fn lemma_map_push(s: Seq<Entry>, e: Entry)
    ensures
        entries_map(s.push(e)) == entries_map(s).insert(e.key@, e.loan),
{
    assert(s.push(e).drop_last() =~= s);
    assert(s.push(e).last() == e);
}

/// With unique keys, deleting the entry at `i` removes its key from the map.
proof fn lemma_map_remove(s: Seq<Entry>, i: int)
    requires
        unique_keys(s),
        0 <= i < s.len(),
    ensures
        entries_map(s.remove(i)) == entries_map(s).remove(s[i].key@),
    decreases s.len(),
{
    if i == s.len() - 1 {
        assert(s.remove(i) =~= s.drop_last());
        assert forall|j: int|
            0 <= j < s.drop_last().len() implies s.drop_last()[j].key@ != s[i].key@ by {
            assert(s.drop_last()[j] == s[j]);
        }
        lemma_map_absent(s.drop_last(), s[i].key@);
        assert(entries_map(s.remove(i)) =~= entries_map(s).remove(s[i].key@));
    } else {
        lemma_drop_last_unique(s);
        assert(s.drop_last()[i] == s[i]);
        lemma_map_remove(s.drop_last(), i);
        assert(s.remove(i).drop_last() =~= s.drop_last().remove(i));
        assert(s.remove(i).last() == s.last());
        assert(s[i].key@ != s.last().key@);
        assert(entries_map(s.remove(i)) =~= entries_map(s).remove(s[i].key@));
    }
}

/// The loan registry: at most one record per asset identifier.
pub struct LoanRegistry {
    entries: Vec<Entry>,
}

impl View for LoanRegistry {
    type V = Map<Seq<char>, Loan>;

    closed spec fn view(&self) -> Map<Seq<char>, Loan> {
        entries_map(self.entries@)
    }
}

impl LoanRegistry {
    /// The registry stores no asset identifier twice.
    pub closed spec fn wf(&self) -> bool {
        unique_keys(self.entries@)
    }

    /// An empty registry.
    pub fn new() -> (r: LoanRegistry)
        ensures
            r.wf(),
            r@ == Map::<Seq<char>, Loan>::empty(),
    {
        LoanRegistry { entries: Vec::new() }
    }

    /// The index of the entry for `key`, if one is stored.
    fn find(&self, key: &String) -> (r: Option<usize>)
        ensures
            (match r {
                Some(i) => i < self.entries@.len() && self.entries@[i as int].key@ == key@,
                None => forall|j: int| 0 <= j < self.entries@.len() ==> self.entries@[j].key@ != key@,
            }),
    {
        let n = self.entries.len();
        let mut i: usize = 0;
        while i < n
            invariant
                n == self.entries@.len(),
                i <= n,
                forall|j: int| 0 <= j < i ==> self.entries@[j].key@ != key@,
            decreases n - i,
    {
            if self.entries[i].key == *key {
                return Some(i);
            }
            i = i + 1;
        }
        None
    }

    /// Returns the record stored under `key`, or `None` when there is none.
    pub fn try_load(&self, key: &String) -> (r: Option<&Loan>)
        requires
            self.wf(),
        ensures
            (match r {
                Some(l) => self@.contains_key(key@) && *l == self@[key@],
                None => !self@.contains_key(key@),
            }),
    {
        match self.find(key) {
            Some(i) => {
                proof {
                    lemma_map_at(self.entries@, i as int);
                }
                Some(&self.entries[i].loan)
            },
            None => {
                proof {
                    lemma_map_absent(self.entries@, key@);
                }
                None
            },
        }
    }

    /// Returns the record stored under `key`; fails with `LoanNotFound` when
    /// there is none.
    pub fn load(&self, key: &String) -> (r: Result<&Loan, ContractError>)
        requires
            self.wf(),
        ensures
            (match r {
                Ok(l) => self@.contains_key(key@) && *l == self@[key@],
                Err(e) => !self@.contains_key(key@) && e matches ContractError::LoanNotFound {},
            }),
    {
        match self.try_load(key) {
            Some(l) => Ok(l),
            None => Err(ContractError::LoanNotFound {}),
        }
    }

    /// Stores `loan` under `key`, replacing any record already there.
    pub fn save(&mut self, key: String, loan: Loan)
        requires
            old(self).wf(),
        ensures
            final(self).wf(),
            final(self)@ == old(self)@.insert(key@, loan),
    {
        let ghost s = self.entries@;
        match self.find(&key) {
            Some(i) => {
                let e = Entry { key, loan };
                let ghost eg = e;
                self.entries.set(i, e);
                proof {
                    lemma_map_update(s, i as int, eg);
                    assert forall|p: int, q: int|
                        0 <= p < q < self.entries@.len() implies self.entries@[p].key@
                        != self.entries@[q].key@ by {
                        if p != i && q != i {
                            assert(self.entries@[p] == s[p]);
                            assert(self.entries@[q] == s[q]);
                        }
                    }
                }
            },
            None => {
                let e = Entry { key, loan };
                let ghost eg = e;
                self.entries.push(e);
                proof {
                    lemma_map_push(s, eg);
                    assert forall|p: int, q: int|
                        0 <= p < q < self.entries@.len() implies self.entries@[p].key@
                        != self.entries@[q].key@ by {
                        assert(self.entries@[p] == s[p]);
                        if q < s.len() {
                            assert(self.entries@[q] == s[q]);
                        } else {
                            assert(self.entries@[q] == eg);
                        }
                    }
                }
            },
        }
    }

    /// Removes and returns the record stored under `key`.
    pub(crate) fn take(&mut self, key: &String) -> (r: Loan)
        requires
            old(self).wf(),
            old(self)@.contains_key(key@),
        ensures
            final(self).wf(),
            r == old(self)@[key@],
            final(self)@ == old(self)@.remove(key@),
    {
        let ghost s = self.entries@;
        match self.find(key) {
            Some(i) => {
                proof {
                    lemma_map_at(s, i as int);
                    lemma_map_remove(s, i as int);
                }
                let e = self.entries.remove(i);
                proof {
                    assert forall|p: int, q: int|
                        0 <= p < q < self.entries@.len() implies self.entries@[p].key@
                        != self.entries@[q].key@ by {
                        let p0: int = if p < i { p } else { p + 1 };
                        let q0: int = if q < i { q } else { q + 1 };
                        assert(self.entries@[p] == s[p0]);
                        assert(self.entries@[q] == s[q0]);
                    }
                }
                let Entry { key: _, loan } = e;
                loan
            },
            None => {
                proof {
                    lemma_map_absent(s, key@);
                }
                unreached()
            },
        }
    }
}

} // verus!
