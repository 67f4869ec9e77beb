use crate::event::{key_lt, lemma_key_lt_irreflexive, lemma_key_lt_total, lemma_key_lt_transitive, same_source, source_lt, LogRecord, LogSource};
use vstd::prelude::*;

verus! {

/// Entries whose keys are strictly increasing in the key order.
pub open spec fn sorted(e: Seq<(LogSource, LogRecord)>) -> bool {
    forall|i: int, j: int| 0 <= i < j < e.len() ==> key_lt(#[trigger] e[i].0, #[trigger] e[j].0)
}

/// A position at which `k` stands among the entries, if any does.
pub open spec fn index_of(e: Seq<(LogSource, LogRecord)>, k: LogSource) -> int {
    choose|i: int| 0 <= i < e.len() && e[i].0 == k
}

/// The map that a sequence of entries stands for.
pub open spec fn entries_view(e: Seq<(LogSource, LogRecord)>) -> Map<LogSource, LogRecord> {
    Map::new(
        |k: LogSource| exists|i: int| 0 <= i < e.len() && e[i].0 == k,
        |k: LogSource| e[index_of(e, k)].1,
    )
}

/// The keys of a sequence of entries, in their order.
pub open spec fn entries_keys(e: Seq<(LogSource, LogRecord)>) -> Seq<LogSource> {
    e.map_values(|x: (LogSource, LogRecord)| x.0)
}

proof fn lemma_view_at(e: Seq<(LogSource, LogRecord)>, i: int)
    requires
        sorted(e),
        0 <= i < e.len(),
    ensures
        entries_view(e).contains_key(e[i].0),
        entries_view(e)[e[i].0] == e[i].1,
{
    let k = e[i].0;
    assert(entries_view(e).contains_key(k));
    let j = index_of(e, k);
    if j != i {
        lemma_key_lt_irreflexive(k);
        if j < i {
            assert(key_lt(e[j].0, e[i].0));
        } else {
            assert(key_lt(e[i].0, e[j].0));
        }
    }
}

/// An ordered map from event keys to event records.
#[derive(Debug)]
pub struct LogMap {
    entries: Vec<(LogSource, LogRecord)>,
}

impl LogMap {
    pub closed spec fn view(&self) -> Map<LogSource, LogRecord> {
        entries_view(self.entries@)
    }

    /// The keys, in increasing key order.
    pub closed spec fn key_seq(&self) -> Seq<LogSource> {
        entries_keys(self.entries@)
    }

    pub closed spec fn wf(&self) -> bool {
        sorted(self.entries@)
    }

    /// The keys are strictly increasing and are exactly the keys of the map.
    proof fn lemma_key_seq(&self)
        requires
            self.wf(),
        ensures
            forall|i: int, j: int|
                0 <= i < j < self.key_seq().len() ==> key_lt(
                    #[trigger] self.key_seq()[i],
                    #[trigger] self.key_seq()[j],
                ),
            forall|k: LogSource| #[trigger]
                self@.contains_key(k) <==> self.key_seq().contains(k),
            self.key_seq().len() == self@.len(),
    {
        let e = self.entries@;
        let ks = self.key_seq();
        assert forall|k: LogSource| #[trigger] self@.contains_key(k) <==> ks.contains(k) by {
            if self@.contains_key(k) {
                let i = choose|i: int| 0 <= i < e.len() && e[i].0 == k;
                assert(ks[i] == k);
            }
            if ks.contains(k) {
                let i = choose|i: int| 0 <= i < ks.len() && ks[i] == k;
                assert(e[i].0 == k);
            }
        }
        self.lemma_len();
    }

    proof fn lemma_len(&self)
        requires
            self.wf(),
        ensures
            self.key_seq().len() == self@.len(),
            self.key_seq().no_duplicates(),
            self.key_seq().to_set() == self@.dom(),
    {
        let e = self.entries@;
        let ks = self.key_seq();
        assert forall|i: int, j: int| 0 <= i < ks.len() && 0 <= j < ks.len() && i != j implies ks[i]
            != ks[j] by {
            lemma_key_lt_irreflexive(ks[i]);
            if i < j {
                assert(key_lt(e[i].0, e[j].0));
            } else {
                assert(key_lt(e[j].0, e[i].0));
            }
        }
        assert forall|k: LogSource| #[trigger] ks.to_set().contains(k) <==> self@.dom().contains(k) by {
            if self@.contains_key(k) {
                let i = choose|i: int| 0 <= i < e.len() && e[i].0 == k;
                assert(ks[i] == k);
            }
            if ks.contains(k) {
                let i = choose|i: int| 0 <= i < ks.len() && ks[i] == k;
                assert(e[i].0 == k);
            }
        }
        assert(ks.to_set() =~= self@.dom());
        ks.unique_seq_to_set();
    }

    pub fn new() -> (r: LogMap)
        ensures
            r.wf(),
            r@ == Map::<LogSource, LogRecord>::empty(),
    {
        let r = LogMap { entries: Vec::new() };
        assert(r@ =~= Map::<LogSource, LogRecord>::empty());
        r
    }

    /// The position of `k` among the entries, if it is there.
    fn find(&self, k: &LogSource) -> (r: Option<usize>)
        requires
            self.wf(),
        ensures
            match r {
                Some(i) => i < self.entries@.len() && self.entries@[i as int].0 == *k,
                None => !self@.contains_key(*k),
            },
    {
        let mut i: usize = 0;
        while i < self.entries.len()
            invariant
                0 <= i <= self.entries@.len(),
                forall|j: int| 0 <= j < i ==> self.entries@[j].0 != *k,
            decreases self.entries@.len() - i,
        {
            if same_source(&self.entries[i].0, k) {
                return Some(i);
            }
            i = i + 1;
        }
        None
    }

    pub fn contains(&self, k: &LogSource) -> (r: bool)
        requires
            self.wf(),
        ensures
            r == self@.contains_key(*k),
    {
        match self.find(k) {
            Some(i) => {
                proof {
                    lemma_view_at(self.entries@, i as int);
                }
                true
            },
            None => false,
        }
    }

    pub fn get(&self, k: &LogSource) -> (r: Option<&LogRecord>)
        requires
            self.wf(),
        ensures
            match r {
                Some(v) => self@.contains_key(*k) && *v == self@[*k],
                None => !self@.contains_key(*k),
            },
    {
        match self.find(k) {
            Some(i) => {
                proof {
                    lemma_view_at(self.entries@, i as int);
                }
                Some(&self.entries[i].1)
            },
            None => None,
        }
    }

    pub fn is_empty(&self) -> (r: bool)
        requires
            self.wf(),
        ensures
            r == (self@ == Map::<LogSource, LogRecord>::empty()),
    {
        proof {
            self.lemma_len();
            if self.entries@.len() == 0 {
                assert(self@ =~= Map::<LogSource, LogRecord>::empty());
            } else {
                assert(self@.contains_key(self.entries@[0].0));
            }
        }
        self.entries.len() == 0
    }

    pub fn len(&self) -> (r: usize)
        requires
            self.wf(),
        ensures
            r == self@.len(),
            self@.dom().finite(),
    {
        proof {
            self.lemma_len();
        }
        self.entries.len()
    }

    /// The keys, in increasing key order.
    pub fn keys(&self) -> (r: Vec<LogSource>)
        requires
            self.wf(),
        ensures
            r@ == self.key_seq(),
            forall|i: int, j: int| 0 <= i < j < r@.len() ==> key_lt(#[trigger] r@[i], #[trigger] r@[j]),
            forall|k: LogSource| #[trigger] self@.contains_key(k) <==> r@.contains(k),
            r@.len() == self@.len(),
    {
        proof {
            self.lemma_key_seq();
        }
        let mut r: Vec<LogSource> = Vec::new();
        let mut i: usize = 0;
        while i < self.entries.len()
            invariant
                0 <= i <= self.entries@.len(),
                r@ == entries_keys(self.entries@.subrange(0, i as int)),
            decreases self.entries@.len() - i,
        {
            r.push(self.entries[i].0);
            assert(self.entries@.subrange(0, i + 1) =~= self.entries@.subrange(0, i as int).push(
                self.entries@[i as int],
            ));
            i = i + 1;
        }
        assert(self.entries@.subrange(0, i as int) =~= self.entries@);
        r
    }

    pub fn insert(&mut self, k: LogSource, v: LogRecord)
        requires
            old(self).wf(),
            !old(self)@.contains_key(k),
        ensures
            final(self).wf(),
            final(self)@ == old(self)@.insert(k, v),
    {
        let ghost e = self.entries@;
        let mut p: usize = 0;
        while p < self.entries.len()
            invariant
                e == self.entries@,
                sorted(e),
                !entries_view(e).contains_key(k),
                0 <= p <= e.len(),
                forall|j: int| 0 <= j < p ==> key_lt(#[trigger] e[j].0, k),
            ensures
                e == self.entries@,
                0 <= p <= e.len(),
                forall|j: int| 0 <= j < p ==> key_lt(#[trigger] e[j].0, k),
                p == e.len() || key_lt(k, e[p as int].0),
            decreases e.len() - p,
        {
            if source_lt(&k, &self.entries[p].0) {
                break;
            }
            proof {
                lemma_key_lt_total(k, e[p as int].0);
                assert(entries_view(e).contains_key(e[p as int].0));
            }
            p = p + 1;
        }
        proof {
            assert forall|j: int| p <= j < e.len() implies key_lt(k, #[trigger] e[j].0) by {
                if j > p {
                    assert(key_lt(e[p as int].0, e[j].0));
                    lemma_key_lt_transitive(k, e[p as int].0, e[j].0);
                }
            }
        }
        self.entries.insert(p, (k, v));
        proof {
            let n = self.entries@;
            assert(n == e.insert(p as int, (k, v)));
            assert forall|i: int, j: int| 0 <= i < j < n.len() implies key_lt(
                #[trigger] n[i].0,
                #[trigger] n[j].0,
            ) by {
                if i < p && j > p {
                    lemma_key_lt_transitive(e[i].0, k, e[j - 1].0);
                } else if i < p && j < p {
                } else if j > p && i > p {
                    assert(key_lt(e[i - 1].0, e[j - 1].0));
                }
            }
            let target = entries_view(e).insert(k, v);
            assert forall|x: LogSource| #[trigger] entries_view(n).contains_key(x) == target.contains_key(x) by {
                if entries_view(n).contains_key(x) {
                    let i = choose|i: int| 0 <= i < n.len() && n[i].0 == x;
                    if i < p {
                        assert(e[i].0 == x);
                    } else if i > p {
                        assert(e[i - 1].0 == x);
                    }
                }
                if entries_view(e).contains_key(x) {
                    let i = choose|i: int| 0 <= i < e.len() && e[i].0 == x;
                    if i < p {
                        assert(n[i].0 == x);
                    } else {
                        assert(n[i + 1].0 == x);
                    }
                }
                if x == k {
                    assert(n[p as int].0 == x);
                }
            }
            assert forall|x: LogSource| #[trigger] entries_view(n).contains_key(x) implies entries_view(n)[x]
                == target[x] by {
                let i = choose|i: int| 0 <= i < n.len() && n[i].0 == x;
                lemma_view_at(n, i);
                if i < p {
                    lemma_view_at(e, i);
                } else if i > p {
                    lemma_view_at(e, i - 1);
                }
            }
            assert(entries_view(n) =~= target);
        }
    }

    pub fn remove(&mut self, k: &LogSource) -> (r: Option<LogRecord>)
        requires
            old(self).wf(),
        ensures
            final(self).wf(),
            final(self)@ == old(self)@.remove(*k),
            match r {
                Some(v) => old(self)@.contains_key(*k) && v == old(self)@[*k],
                None => !old(self)@.contains_key(*k),
            },
    {
        match self.find(k) {
            None => {
                assert(self@ =~= self@.remove(*k));
                None
            },
            Some(p) => {
                let ghost e = self.entries@;
                proof {
                    lemma_view_at(e, p as int);
                }
                let (_, v) = self.entries.remove(p);
                proof {
                    let n = self.entries@;
                    assert(n == e.remove(p as int));
                    assert forall|i: int, j: int| 0 <= i < j < n.len() implies key_lt(
                        #[trigger] n[i].0,
                        #[trigger] n[j].0,
                    ) by {
                        if i < p && j >= p {
                            assert(key_lt(e[i].0, e[j + 1].0));
                        } else if i >= p {
                            assert(key_lt(e[i + 1].0, e[j + 1].0));
                        }
                    }
                    let target = entries_view(e).remove(*k);
                    assert forall|x: LogSource| #[trigger] entries_view(n).contains_key(x) == target.contains_key(x) by {
                        if entries_view(n).contains_key(x) {
                            let i = choose|i: int| 0 <= i < n.len() && n[i].0 == x;
                            if i < p {
                                assert(e[i].0 == x);
                                lemma_key_lt_irreflexive(x);
                                assert(key_lt(e[i].0, e[p as int].0));
                            } else {
                                assert(e[i + 1].0 == x);
                                lemma_key_lt_irreflexive(x);
                                assert(key_lt(e[p as int].0, e[i + 1].0));
                            }
                        }
                        if target.contains_key(x) {
                            let i = choose|i: int| 0 <= i < e.len() && e[i].0 == x;
                            if i < p {
                                assert(n[i].0 == x);
                            } else {
                                assert(i != p);
                                assert(n[i - 1].0 == x);
                            }
                        }
                    }
                    assert forall|x: LogSource| #[trigger] entries_view(n).contains_key(x) implies entries_view(n)[x]
                        == target[x] by {
                        let i = choose|i: int| 0 <= i < n.len() && n[i].0 == x;
                        lemma_view_at(n, i);
                        if i < p {
                            lemma_view_at(e, i);
                        } else {
                            lemma_view_at(e, i + 1);
                        }
                    }
                    assert(entries_view(n) =~= target);
                }
                Some(v)
            },
        }
    }
}

} // verus!
