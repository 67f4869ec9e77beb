use crate::event::{LogRecord, LogSource};
use crate::guard::{release, try_acquire, TaskType};
use crate::job::{nonce_after, nonce_choice, nonce_used, SubmissionOutcome};
use crate::logs::{ingest_step, pending_after};
use crate::state::{disjoint, mark_step, record_step, Stores};
use vstd::prelude::*;

verus! {

/// One change of the event store: a batch taken in by the scraper, one event
/// recorded as pending, or one event marked processed.
pub open spec fn store_step(s: Stores, t: Stores) -> bool {
    ||| exists|logs: Seq<LogRecord>| ingest_step(s, logs, t)
    ||| exists|log: LogRecord| record_step(s, log, t)
    ||| exists|k: LogSource| mark_step(s, k, t)
}

/// A run of the store: each state follows from the one before by one step.
pub open spec fn is_store_run(run: Seq<Stores>) -> bool {
    forall|i: int| 0 <= i < run.len() - 1 ==> store_step(#[trigger] run[i], run[i + 1])
}

proof fn lemma_pending_after_new_keys(s: Stores, logs: Seq<LogRecord>, k: LogSource)
    requires
        pending_after(s, logs).contains_key(k),
        s.processed.contains_key(k),
    ensures
        s.pending.contains_key(k),
    decreases logs.len(),
{
    if logs.len() > 0 {
        lemma_pending_after_new_keys(s, logs.drop_last(), k);
    }
}

proof fn lemma_step_keeps_disjoint(s: Stores, t: Stores)
    requires
        disjoint(s),
        store_step(s, t),
    ensures
        disjoint(t),
{
    if exists|logs: Seq<LogRecord>| ingest_step(s, logs, t) {
        let logs = choose|logs: Seq<LogRecord>| ingest_step(s, logs, t);
        assert forall|k: LogSource| !(#[trigger] t.pending.contains_key(k) && t.processed.contains_key(
            k,
        )) by {
            if t.pending.contains_key(k) && t.processed.contains_key(k) {
                lemma_pending_after_new_keys(s, logs, k);
            }
        }
    }
}

proof fn lemma_step_keeps_processed(s: Stores, t: Stores, k: LogSource)
    requires
        store_step(s, t),
        s.processed.contains_key(k),
    ensures
        t.processed.contains_key(k),
{
}

/// No key is ever both pending and processed: whatever batches the scraper
/// takes in and whatever events are marked processed, a store that starts
/// with the two apart keeps them apart at every step.
pub proof fn lemma_pending_processed_disjoint(run: Seq<Stores>)
    requires
        run.len() > 0,
        disjoint(run[0]),
        is_store_run(run),
    ensures
        forall|i: int| 0 <= i < run.len() ==> disjoint(#[trigger] run[i]),
{
    assert forall|i: int| 0 <= i < run.len() implies disjoint(#[trigger] run[i]) by {
        lemma_disjoint_prefix(run, i);
    }
}

proof fn lemma_disjoint_prefix(run: Seq<Stores>, i: int)
    requires
        0 <= i < run.len(),
        disjoint(run[0]),
        is_store_run(run),
    ensures
        disjoint(run[i]),
    decreases i,
{
    if i > 0 {
        lemma_disjoint_prefix(run, i - 1);
        lemma_step_keeps_disjoint(run[i - 1], run[i]);
    }
}

proof fn lemma_processed_stays(run: Seq<Stores>, i: int, j: int, k: LogSource)
    requires
        is_store_run(run),
        0 <= i <= j < run.len(),
        run[i].processed.contains_key(k),
    ensures
        run[j].processed.contains_key(k),
    decreases j - i,
{
    if j > i {
        lemma_processed_stays(run, i, j - 1, k);
        lemma_step_keeps_processed(run[j - 1], run[j], k);
    }
}

/// An event is marked processed at most once: in any run of the store, once
/// `k` has been marked processed, no later step marks it again, however often
/// the scraper delivers it anew.
pub proof fn lemma_marked_at_most_once(run: Seq<Stores>, k: LogSource, i: int, j: int)
    requires
        is_store_run(run),
        0 <= i < j,
        j + 1 < run.len(),
        mark_step(run[i], k, run[i + 1]),
    ensures
        !mark_step(run[j], k, run[j + 1]),
{
    lemma_processed_stays(run, i + 1, j, k);
}

/// While a run of `task` is in flight, starting it again is skipped; once that
/// run has ended, on whatever path, the next start succeeds. Runs of another
/// task neither block it nor are blocked by it.
pub proof fn lemma_guard_exclusive(active: Set<TaskType>, task: TaskType, other: TaskType)
    requires
        !active.contains(task),
    ensures
        ({
            let held = try_acquire(active, task).unwrap();
            &&& try_acquire(held, task).is_none()
            &&& try_acquire(release(held, task), task).is_some()
            &&& other != task ==> (try_acquire(held, other).is_some() <==> try_acquire(
                active,
                other,
            ).is_some())
        }),
{
}

/// The number of confirmed submissions in a run of submissions.
pub open spec fn confirmed_count(steps: Seq<(Option<u64>, SubmissionOutcome)>) -> nat
    decreases steps.len(),
{
    if steps.len() == 0 {
        0
    } else {
        confirmed_count(steps.drop_last()) + if steps.last().1 == SubmissionOutcome::Confirmed {
            1nat
        } else {
            0nat
        }
    }
}

/// The last nonce used after one submission attempt from `last`, given the
/// ledger's transaction count (where it was asked) and what became of the
/// submission. Where the count was needed and is missing, nothing is
/// submitted.
pub open spec fn nonce_after_attempt(
    last: Option<u64>,
    remote_count: Option<u64>,
    outcome: SubmissionOutcome,
) -> Option<u64> {
    match nonce_used(nonce_choice(last), remote_count) {
        Some(used) => nonce_after(last, used, outcome),
        None => last,
    }
}

/// The last nonce used after a run of submission attempts. No submission is
/// made once the last nonce is the largest there is.
pub open spec fn nonce_after_run(
    last: Option<u64>,
    steps: Seq<(Option<u64>, SubmissionOutcome)>,
) -> Option<u64>
    decreases steps.len(),
{
    if steps.len() == 0 {
        last
    } else {
        let before = nonce_after_run(last, steps.drop_last());
        if before == Some(u64::MAX) {
            before
        } else {
            nonce_after_attempt(before, steps.last().0, steps.last().1)
        }
    }
}

/// One submission attempt: an unconfirmed or failed one, or one abandoned for
/// want of the ledger's transaction count, leaves the last nonce as it was; a
/// confirmed one sets it to one past the last, or, where none was known, to
/// the ledger's transaction count as it is.
pub proof fn lemma_nonce_step(last: Option<u64>, remote_count: Option<u64>, outcome: SubmissionOutcome)
    requires
        last != Some(u64::MAX),
    ensures
        ({
            let after = nonce_after_attempt(last, remote_count, outcome);
            &&& outcome != SubmissionOutcome::Confirmed ==> after == last
            &&& nonce_used(nonce_choice(last), remote_count).is_none() ==> after == last
            &&& outcome == SubmissionOutcome::Confirmed && last.is_some() ==> after == Some(
                (last.unwrap() + 1) as u64,
            )
            &&& outcome == SubmissionOutcome::Confirmed && last.is_none() ==> after == remote_count
        }),
{
}

/// A submission attempt that, made while no nonce is known, sets one: the
/// ledger gave its count and the submission was confirmed.
pub open spec fn confirms_from_unknown(step: (Option<u64>, SubmissionOutcome)) -> bool {
    step.0.is_some() && step.1 == SubmissionOutcome::Confirmed
}

/// Until the first confirmed submission no nonce is known; from it on, one is.
pub proof fn lemma_nonce_unknown_until_confirmed(steps: Seq<(Option<u64>, SubmissionOutcome)>)
    ensures
        nonce_after_run(None, steps).is_none() <==> forall|i: int|
            0 <= i < steps.len() ==> !confirms_from_unknown(#[trigger] steps[i]),
    decreases steps.len(),
{
    if steps.len() > 0 {
        let p = steps.drop_last();
        lemma_nonce_unknown_until_confirmed(p);
        if nonce_after_run(None, steps).is_none() {
            assert forall|i: int| 0 <= i < steps.len() implies !confirms_from_unknown(
                #[trigger] steps[i],
            ) by {
                if i < steps.len() - 1 {
                    assert(steps[i] == p[i]);
                }
            }
        } else if nonce_after_run(None, p).is_some() {
            let i = choose|i: int| 0 <= i < p.len() && confirms_from_unknown(#[trigger] p[i]);
            assert(steps[i] == p[i]);
        } else {
            assert(confirms_from_unknown(steps[steps.len() - 1]));
        }
    }
}

/// Once a nonce is known, it moves up by exactly one for each confirmed
/// submission and by nothing for any other.
pub proof fn lemma_nonce_counts_confirmed(last: u64, steps: Seq<(Option<u64>, SubmissionOutcome)>)
    requires
        last + confirmed_count(steps) <= u64::MAX,
    ensures
        nonce_after_run(Some(last), steps) == Some((last + confirmed_count(steps)) as u64),
    decreases steps.len(),
{
    if steps.len() > 0 {
        lemma_nonce_counts_confirmed(last, steps.drop_last());
    }
}

} // verus!
