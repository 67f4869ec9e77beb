use vstd::prelude::*;

verus! {

/// Lexicographic "less than" on two byte sequences, from position `i` onwards.
pub open spec fn bytes_lt_from(a: Seq<u8>, b: Seq<u8>, i: int) -> bool
    decreases a.len() - i,
{
    if i < 0 || i >= a.len() || i >= b.len() {
        false
    } else if a[i] < b[i] {
        true
    } else if a[i] > b[i] {
        false
    } else {
        bytes_lt_from(a, b, i + 1)
    }
}

/// Lexicographic "less than" on two byte sequences of equal length.
pub open spec fn bytes_lt(a: Seq<u8>, b: Seq<u8>) -> bool {
    bytes_lt_from(a, b, 0)
}

/// A unique identifier of an event: the hash of the transaction that emitted it
/// and the index of the event within that transaction.
#[derive(Debug, Clone, Copy, PartialEq, Eq, PartialOrd, Ord, Hash)]
pub struct LogSource {
    pub transaction_hash: [u8; 32],
    pub log_index: u64,
}

/// The total order on event keys: lexicographic on (transaction hash, index).
pub open spec fn key_lt(a: LogSource, b: LogSource) -> bool {
    ||| bytes_lt(a.transaction_hash@, b.transaction_hash@)
    ||| (a.transaction_hash == b.transaction_hash && a.log_index < b.log_index)
}

pub proof fn lemma_bytes_lt_from_irreflexive(a: Seq<u8>, i: int)
    ensures
        !bytes_lt_from(a, a, i),
    decreases a.len() - i,
{
    if 0 <= i < a.len() {
        lemma_bytes_lt_from_irreflexive(a, i + 1);
    }
}

pub proof fn lemma_bytes_lt_from_asymmetric(a: Seq<u8>, b: Seq<u8>, i: int)
    ensures
        !(bytes_lt_from(a, b, i) && bytes_lt_from(b, a, i)),
    decreases a.len() - i,
{
    if 0 <= i < a.len() && i < b.len() {
        lemma_bytes_lt_from_asymmetric(a, b, i + 1);
    }
}

pub proof fn lemma_bytes_lt_from_transitive(a: Seq<u8>, b: Seq<u8>, c: Seq<u8>, i: int)
    requires
        bytes_lt_from(a, b, i),
        bytes_lt_from(b, c, i),
    ensures
        bytes_lt_from(a, c, i),
    decreases a.len() - i,
{
    if a[i] == b[i] && b[i] == c[i] {
        lemma_bytes_lt_from_transitive(a, b, c, i + 1);
    }
}

/// Two sequences of one length are ordered one way or the other, unless they
/// agree from `i` onwards.
pub proof fn lemma_bytes_lt_from_total(a: Seq<u8>, b: Seq<u8>, i: int)
    requires
        a.len() == b.len(),
        0 <= i <= a.len(),
        !bytes_lt_from(a, b, i),
        !bytes_lt_from(b, a, i),
    ensures
        forall|j: int| i <= j < a.len() ==> a[j] == b[j],
    decreases a.len() - i,
{
    if i < a.len() {
        lemma_bytes_lt_from_total(a, b, i + 1);
    }
}

pub proof fn lemma_key_lt_irreflexive(a: LogSource)
    ensures
        !key_lt(a, a),
{
    lemma_bytes_lt_from_irreflexive(a.transaction_hash@, 0);
}

pub proof fn lemma_key_lt_transitive(a: LogSource, b: LogSource, c: LogSource)
    requires
        key_lt(a, b),
        key_lt(b, c),
    ensures
        key_lt(a, c),
{
    if bytes_lt(a.transaction_hash@, b.transaction_hash@) && bytes_lt(
        b.transaction_hash@,
        c.transaction_hash@,
    ) {
        lemma_bytes_lt_from_transitive(a.transaction_hash@, b.transaction_hash@, c.transaction_hash@, 0);
    }
}

pub proof fn lemma_key_lt_total(a: LogSource, b: LogSource)
    ensures
        key_lt(a, b) || key_lt(b, a) || a == b,
{
    broadcast use vstd::array::group_array_axioms;

    if !bytes_lt(a.transaction_hash@, b.transaction_hash@) && !bytes_lt(
        b.transaction_hash@,
        a.transaction_hash@,
    ) {
        lemma_bytes_lt_from_total(a.transaction_hash@, b.transaction_hash@, 0);
        assert(a.transaction_hash =~= b.transaction_hash);
    }
}

/// Whether two keys are equal.
pub fn same_source(a: &LogSource, b: &LogSource) -> (r: bool)
    ensures
        r == (*a == *b),
{
    broadcast use vstd::array::group_array_axioms;

    if a.log_index != b.log_index {
        return false;
    }
    let mut i: usize = 0;
    while i < 32
        invariant
            0 <= i <= 32,
            forall|j: int| 0 <= j < i ==> a.transaction_hash[j] == b.transaction_hash[j],
        decreases 32 - i,
    {
        if a.transaction_hash[i] != b.transaction_hash[i] {
            return false;
        }
        i = i + 1;
    }
    assert(a.transaction_hash =~= b.transaction_hash);
    true
}

/// Whether `a` comes strictly before `b` in the key order.
pub fn source_lt(a: &LogSource, b: &LogSource) -> (r: bool)
    ensures
        r == key_lt(*a, *b),
{
    broadcast use vstd::array::group_array_axioms;

    let mut i: usize = 0;
    while i < 32
        invariant
            0 <= i <= 32,
            a.transaction_hash@.len() == 32,
            b.transaction_hash@.len() == 32,
            forall|j: int| 0 <= j < i ==> a.transaction_hash[j] == b.transaction_hash[j],
            bytes_lt(a.transaction_hash@, b.transaction_hash@) == bytes_lt_from(
                a.transaction_hash@,
                b.transaction_hash@,
                i as int,
            ),
        decreases 32 - i,
    {
        let x = a.transaction_hash[i];
        let y = b.transaction_hash[i];
        if x < y {
            return true;
        }
        if x > y {
            proof {
                lemma_bytes_lt_from_asymmetric(a.transaction_hash@, b.transaction_hash@, 0);
            }
            return false;
        }
        i = i + 1;
    }
    assert(a.transaction_hash =~= b.transaction_hash);
    a.log_index < b.log_index
}

/// One event as delivered by the ledger: where it comes from and what it carries.
/// The transaction hash and index are absent for events of blocks that are not
/// final yet.
#[derive(Debug, Clone, PartialEq, Eq)]
pub struct LogRecord {
    pub address: [u8; 20],
    pub topics: Vec<[u8; 32]>,
    pub data: Vec<u8>,
    pub block_number: Option<u64>,
    pub transaction_hash: Option<[u8; 32]>,
    pub log_index: Option<u64>,
}

impl LogRecord {
    /// Whether the record carries both parts of its key.
    pub open spec fn has_source(&self) -> bool {
        self.transaction_hash.is_some() && self.log_index.is_some()
    }

    /// The key of a record that carries both parts of it.
    pub open spec fn spec_source(&self) -> LogSource
        recommends
            self.has_source(),
    {
        LogSource {
            transaction_hash: self.transaction_hash.unwrap(),
            log_index: self.log_index.unwrap(),
        }
    }

    /// The key of the event. Only events of final blocks reach this point, and
    /// those always carry a transaction hash and an index.
    pub fn source(&self) -> (r: LogSource)
        requires
            self.has_source(),
        ensures
            r == self.spec_source(),
    {
        let transaction_hash = match self.transaction_hash {
            Some(h) => h,
            None => [0u8; 32],
        };
        let log_index = match self.log_index {
            Some(i) => i,
            None => 0,
        };
        LogSource { transaction_hash, log_index }
    }
}

} // verus!
