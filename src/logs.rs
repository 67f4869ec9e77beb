use crate::event::{LogRecord, LogSource};
use crate::state::{is_known, State, Stores};
use vstd::prelude::*;

verus! {

/// The pending map after a batch of events is taken in, in order: an event
/// whose key is pending or processed already is a re-delivery and is left out.
pub open spec fn pending_after(s: Stores, logs: Seq<LogRecord>) -> Map<LogSource, LogRecord>
    decreases logs.len(),
{
    if logs.len() == 0 {
        s.pending
    } else {
        let before = pending_after(s, logs.drop_last());
        let log = logs.last();
        let k = log.spec_source();
        if before.contains_key(k) || s.processed.contains_key(k) {
            before
        } else {
            before.insert(k, log)
        }
    }
}

/// Taking in one batch of events: `t` is `s` with the batch's new events
/// pending.
pub open spec fn ingest_step(s: Stores, logs: Seq<LogRecord>, t: Stores) -> bool {
    &&& forall|i: int| 0 <= i < logs.len() ==> (#[trigger] logs[i]).has_source()
    &&& t.pending == pending_after(s, logs)
    &&& t.processed == s.processed
}

/// Takes in one batch of events from the ledger: each event that the store
/// does not know yet becomes pending; one that it knows (an overlapping poll
/// window delivers it again) is dropped. Every event must carry its key.
/// Returns whether events are pending afterwards, that is whether processing
/// should be started now.
pub fn record_new_logs(state: &mut State, logs: Vec<LogRecord>) -> (r: bool)
    requires
        old(state).wf(),
        forall|i: int| 0 <= i < logs@.len() ==> (#[trigger] logs@[i]).has_source(),
    ensures
        final(state).wf(),
        ingest_step(old(state).stores(), logs@, final(state).stores()),
        final(state).same_but_stores(old(state)),
        r == (final(state).pending() != Map::<LogSource, LogRecord>::empty()),
{
    let ghost s0 = state.stores();
    let ghost all = logs@;
    let mut rest = logs;
    let ghost mut i: int = 0;
    while rest.len() > 0
        invariant
            state.wf(),
            state.same_but_stores(old(state)),
            0 <= i <= all.len(),
            rest@ == all.subrange(i, all.len() as int),
            forall|j: int| 0 <= j < all.len() ==> (#[trigger] all[j]).has_source(),
            state.stores().processed == s0.processed,
            state.stores().pending == pending_after(s0, all.subrange(0, i)),
        decreases rest@.len(),
    {
        assert(rest@.len() == all.len() - i);
        let log = rest.remove(0);
        proof {
            assert(log == all[i]);
            assert(all.subrange(0, i + 1).drop_last() =~= all.subrange(0, i));
        }
        let key = log.source();
        if !state.is_known(&key) {
            state.record_log_to_process(log);
        }
        proof {
            i = i + 1;
        }
    }
    proof {
        assert(all.subrange(0, i) =~= all);
    }
    state.has_logs_to_process()
}

} // verus!
