use crate::event::{key_lt, LogRecord, LogSource};
use crate::evm_rpc::RpcService;
use crate::guard::ActiveTasks;
use crate::log_map::LogMap;
use vstd::prelude::*;

verus! {

/// An account or contract address on the ledger.
pub type EvmAddress = [u8; 20];

/// The EIP-55 checksummed text of an address: `0x` and 40 hex digits whose
/// letters are cased by a hash of the address.
pub uninterp spec fn checksum_text(address: Seq<u8>) -> Seq<char>;

/// Relies on alloy's `Address::to_checksum(None)`, which is also what its
/// `Display` writes: the text depends on the address alone.
#[verifier::external_body]
fn checksummed(address: &EvmAddress) -> (r: String)
    ensures
        r@ == checksum_text(address@),
{
    alloy::primitives::Address::from(*address).to_checksum(None)
}

/// The elliptic curve of a signing key.
#[derive(Debug, Clone, Copy, PartialEq, Eq, Structural)]
pub enum EcdsaCurve {
    Secp256K1,
}

/// The handle of the key from which the signing identity is derived.
#[derive(Debug, Clone)]
pub struct EcdsaKeyId {
    pub name: String,
    pub curve: EcdsaCurve,
}

/// Why the state could not be built from its initial configuration.
#[derive(Debug, PartialEq, Eq)]
pub enum InvalidStateError {
    InvalidEthereumContractAddress(String),
}

/// The pending and the processed events, as maps from key to record.
pub struct Stores {
    pub pending: Map<LogSource, LogRecord>,
    pub processed: Map<LogSource, LogRecord>,
}

/// No key is both pending and processed.
pub open spec fn disjoint(s: Stores) -> bool {
    forall|k: LogSource| !(#[trigger] s.pending.contains_key(k) && s.processed.contains_key(k))
}

/// Whether the store knows `k` at all.
pub open spec fn is_known(s: Stores, k: LogSource) -> bool {
    s.pending.contains_key(k) || s.processed.contains_key(k)
}

/// Recording one new event as pending: `t` is `s` with it added.
pub open spec fn record_step(s: Stores, log: LogRecord, t: Stores) -> bool {
    &&& log.has_source()
    &&& !is_known(s, log.spec_source())
    &&& t.pending == s.pending.insert(log.spec_source(), log)
    &&& t.processed == s.processed
}

/// Moving the event `k` from pending to processed: `t` is `s` after it.
pub open spec fn mark_step(s: Stores, k: LogSource, t: Stores) -> bool {
    &&& s.pending.contains_key(k)
    &&& !s.processed.contains_key(k)
    &&& t.pending == s.pending.remove(k)
    &&& t.processed == s.processed.insert(k, s.pending[k])
}

/// The event store: the pending and the processed events. Its maps are
/// reached only through the methods of [`State`], so an event leaves
/// `processed` never again.
#[derive(Debug)]
pub struct EventStore {
    pending: LogMap,
    processed: LogMap,
}

impl EventStore {
    pub closed spec fn view(&self) -> Stores {
        Stores { pending: self.pending@, processed: self.processed@ }
    }

    /// Both maps are well formed.
    pub closed spec fn maps_wf(&self) -> bool {
        &&& self.pending.wf()
        &&& self.processed.wf()
    }

    /// An empty store.
    pub(crate) fn new() -> (r: EventStore)
        ensures
            r.maps_wf(),
            r@.pending == Map::<LogSource, LogRecord>::empty(),
            r@.processed == Map::<LogSource, LogRecord>::empty(),
    {
        EventStore { pending: LogMap::new(), processed: LogMap::new() }
    }
}

/// The whole state of the process: configuration, the event store, the set of
/// running tasks, the signing address once known and the last nonce used.
#[derive(Debug)]
pub struct State {
    pub rpc_service: RpcService,
    pub chain_id: u64,
    pub coprocessor_evm_address: EvmAddress,
    pub filter_addresses: Vec<EvmAddress>,
    pub filter_events: Vec<String>,
    pub store: EventStore,
    pub active_tasks: ActiveTasks,
    pub ecdsa_key_id: EcdsaKeyId,
    pub canister_evm_address: Option<EvmAddress>,
    pub nonce: Option<u64>,
}

impl State {
    /// The pending events, by key.
    pub open spec fn pending(&self) -> Map<LogSource, LogRecord> {
        self.store@.pending
    }

    /// The processed events, by key.
    pub open spec fn processed(&self) -> Map<LogSource, LogRecord> {
        self.store@.processed
    }

    pub open spec fn stores(&self) -> Stores {
        self.store@
    }

    pub open spec fn wf(&self) -> bool {
        &&& self.store.maps_wf()
        &&& disjoint(self.stores())
    }

    /// Everything but the event store is as in `other`.
    pub open spec fn same_but_stores(&self, other: &State) -> bool {
        &&& self.rpc_service == other.rpc_service
        &&& self.chain_id == other.chain_id
        &&& self.coprocessor_evm_address == other.coprocessor_evm_address
        &&& self.filter_addresses == other.filter_addresses
        &&& self.filter_events == other.filter_events
        &&& self.active_tasks@ == other.active_tasks@
        &&& self.ecdsa_key_id == other.ecdsa_key_id
        &&& self.canister_evm_address == other.canister_evm_address
        &&& self.nonce == other.nonce
    }

    /// Everything but the nonce is as in `other`.
    pub open spec fn same_but_nonce(&self, other: &State) -> bool {
        &&& self.rpc_service == other.rpc_service
        &&& self.chain_id == other.chain_id
        &&& self.coprocessor_evm_address == other.coprocessor_evm_address
        &&& self.filter_addresses == other.filter_addresses
        &&& self.filter_events == other.filter_events
        &&& self.pending() == other.pending()
        &&& self.processed() == other.processed()
        &&& self.active_tasks@ == other.active_tasks@
        &&& self.ecdsa_key_id == other.ecdsa_key_id
        &&& self.canister_evm_address == other.canister_evm_address
    }

    /// Whether the event `source` is pending or processed.
    pub fn is_known(&self, source: &LogSource) -> (r: bool)
        requires
            self.wf(),
        ensures
            r == is_known(self.stores(), *source),
    {
        self.store.pending.contains(source) || self.store.processed.contains(source)
    }

    /// Records a new event as pending. The event must carry its key, and the
    /// key must be new to the store: two events with one key are a broken
    /// invariant, not an input to tolerate.
    pub fn record_log_to_process(&mut self, log_entry: LogRecord)
        requires
            old(self).wf(),
            log_entry.has_source(),
            !is_known(old(self).stores(), log_entry.spec_source()),
        ensures
            final(self).wf(),
            record_step(old(self).stores(), log_entry, final(self).stores()),
            final(self).same_but_stores(old(self)),
    {
        let event_source = log_entry.source();
        self.store.pending.insert(event_source, log_entry);
    }

    /// Moves the event `source` from pending to processed. It must be pending,
    /// and not yet processed.
    pub fn record_processed_log(&mut self, source: LogSource)
        requires
            old(self).wf(),
            old(self).pending().contains_key(source),
            !old(self).processed().contains_key(source),
        ensures
            final(self).wf(),
            mark_step(old(self).stores(), source, final(self).stores()),
            final(self).same_but_stores(old(self)),
    {
        let log_entry = self.store.pending.remove(&source);
        match log_entry {
            Some(log_entry) => {
                self.store.processed.insert(source, log_entry);
            },
            None => {},
        }
        assert(self.stores().pending =~= old(self).stores().pending.remove(source));
    }

    pub fn has_logs_to_process(&self) -> (r: bool)
        requires
            self.wf(),
        ensures
            r == (self.pending() != Map::<LogSource, LogRecord>::empty()),
    {
        !self.store.pending.is_empty()
    }

    /// The pending keys, each once, in increasing key order: the order in
    /// which a drain runs their jobs.
    pub fn pending_sources(&self) -> (r: Vec<LogSource>)
        requires
            self.wf(),
        ensures
            forall|i: int, j: int| 0 <= i < j < r@.len() ==> key_lt(#[trigger] r@[i], #[trigger] r@[j]),
            forall|k: LogSource| #[trigger] self.pending().contains_key(k) <==> r@.contains(k),
            r@.len() == self.pending().len(),
    {
        self.store.pending.keys()
    }

    /// The number of pending events.
    pub fn pending_count(&self) -> (r: usize)
        requires
            self.wf(),
        ensures
            r == self.pending().len(),
            self.pending().dom().finite(),
    {
        self.store.pending.len()
    }

    /// The number of processed events.
    pub fn processed_count(&self) -> (r: usize)
        requires
            self.wf(),
        ensures
            r == self.processed().len(),
            self.processed().dom().finite(),
    {
        self.store.processed.len()
    }

    /// The pending record of `source`, if there is one.
    pub fn pending_log(&self, source: &LogSource) -> (r: Option<&LogRecord>)
        requires
            self.wf(),
        ensures
            match r {
                Some(v) => self.pending().contains_key(*source) && *v
                    == self.pending()[*source],
                None => !self.pending().contains_key(*source),
            },
    {
        self.store.pending.get(source)
    }

    /// The processed record of `source`, if there is one.
    pub fn processed_log(&self, source: &LogSource) -> (r: Option<&LogRecord>)
        requires
            self.wf(),
        ensures
            match r {
                Some(v) => self.processed().contains_key(*source) && *v
                    == self.processed()[*source],
                None => !self.processed().contains_key(*source),
            },
    {
        self.store.processed.get(source)
    }

    pub fn key_id(&self) -> (r: EcdsaKeyId)
        ensures
            r.name@ == self.ecdsa_key_id.name@,
            r.curve == self.ecdsa_key_id.curve,
    {
        EcdsaKeyId { name: self.ecdsa_key_id.name.clone(), curve: self.ecdsa_key_id.curve }
    }

    /// Records the address of the signing identity once it has been derived.
    pub fn set_evm_address(&mut self, address: EvmAddress)
        ensures
            final(self).canister_evm_address == Some(address),
            final(self).nonce == old(self).nonce,
            final(self).pending() == old(self).pending(),
            final(self).processed() == old(self).processed(),
            final(self).active_tasks@ == old(self).active_tasks@,
            final(self).rpc_service == old(self).rpc_service,
            final(self).chain_id == old(self).chain_id,
            final(self).coprocessor_evm_address == old(self).coprocessor_evm_address,
            final(self).filter_addresses == old(self).filter_addresses,
            final(self).filter_events == old(self).filter_events,
            final(self).ecdsa_key_id == old(self).ecdsa_key_id,
    {
        self.canister_evm_address = Some(address);
    }

    /// The address of the signing identity; `None` until it has been derived.
    pub fn evm_address(&self) -> (r: Option<EvmAddress>)
        ensures
            r == self.canister_evm_address,
    {
        self.canister_evm_address
    }

    /// The address of the signing identity as checksummed text; `None` until
    /// the identity has been derived.
    pub fn get_evm_address(&self) -> (r: Option<String>)
        ensures
            match self.canister_evm_address {
                None => r.is_none(),
                Some(a) => r.is_some() && r.unwrap()@ == checksum_text(a@),
            },
    {
        match self.canister_evm_address {
            Some(a) => Some(checksummed(&a)),
            None => None,
        }
    }

    pub fn get_filter_addresses(&self) -> (r: Vec<EvmAddress>)
        ensures
            r@ == self.filter_addresses@,
    {
        let mut r: Vec<EvmAddress> = Vec::new();
        let mut i: usize = 0;
        while i < self.filter_addresses.len()
            invariant
                0 <= i <= self.filter_addresses@.len(),
                r@ == self.filter_addresses@.subrange(0, i as int),
            decreases self.filter_addresses@.len() - i,
        {
            r.push(self.filter_addresses[i]);
            assert(r@ =~= self.filter_addresses@.subrange(0, i + 1));
            i = i + 1;
        }
        assert(r@ =~= self.filter_addresses@);
        r
    }

    pub fn get_filter_events(&self) -> (r: Vec<String>)
        ensures
            r@.len() == self.filter_events@.len(),
            forall|i: int| 0 <= i < r@.len() ==> #[trigger] r@[i]@ == self.filter_events@[i]@,
    {
        let mut r: Vec<String> = Vec::new();
        let mut i: usize = 0;
        while i < self.filter_events.len()
            invariant
                0 <= i <= self.filter_events@.len(),
                r@.len() == i,
                forall|j: int| 0 <= j < i ==> #[trigger] r@[j]@ == self.filter_events@[j]@,
            decreases self.filter_events@.len() - i,
        {
            r.push(self.filter_events[i].clone());
            i = i + 1;
        }
        r
    }
}

} // verus!
