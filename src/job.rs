use crate::event::LogSource;
use crate::state::{mark_step, EvmAddress, State};
use vstd::prelude::*;

verus! {

/// The argument of the unit of work that each job performs.
pub const JOB_INPUT: u64 = 20;

/// The Fibonacci numbers: 0, 1, then each the sum of the two before.
pub open spec fn fib(n: nat) -> nat
    decreases n,
{
    if n == 0 {
        0
    } else if n == 1 {
        1
    } else {
        fib((n - 2) as nat) + fib((n - 1) as nat)
    }
}

proof fn lemma_fib_monotone(i: nat, j: nat)
    requires
        i <= j,
    ensures
        fib(i) <= fib(j),
    decreases j,
{
    if i < j {
        lemma_fib_monotone(i, (j - 1) as nat);
        if j >= 2 {
            assert(fib(j) == fib((j - 2) as nat) + fib((j - 1) as nat));
        }
    }
}

proof fn lemma_fib_of_job_input()
    ensures
        fib(JOB_INPUT as nat) == 6765,
{
    assert(fib(0) == 0);
    assert(fib(1) == 1);
    assert(fib(2) == 1);
    assert(fib(3) == 2);
    assert(fib(4) == 3);
    assert(fib(5) == 5);
    assert(fib(6) == 8);
    assert(fib(7) == 13);
    assert(fib(8) == 21);
    assert(fib(9) == 34);
    assert(fib(10) == 55);
    assert(fib(11) == 89);
    assert(fib(12) == 144);
    assert(fib(13) == 233);
    assert(fib(14) == 377);
    assert(fib(15) == 610);
    assert(fib(16) == 987);
    assert(fib(17) == 1597);
    assert(fib(18) == 2584);
    assert(fib(19) == 4181);
    assert(fib(20) == 6765);
}

/// The `n`-th Fibonacci number, for an `n` whose number fits in a `u64`.
pub fn fibonacci(n: u64) -> (r: u64)
    requires
        fib(n as nat) <= u64::MAX,
    ensures
        r == fib(n as nat),
{
    if n == 0 {
        return 0;
    }
    let mut a: u64 = 0;
    let mut b: u64 = 1;
    let mut i: u64 = 1;
    while i < n
        invariant
            1 <= i <= n,
            a == fib((i - 1) as nat),
            b == fib(i as nat),
            fib(n as nat) <= u64::MAX,
        decreases n - i,
    {
        proof {
            lemma_fib_monotone((i + 1) as nat, n as nat);
        }
        let c = a + b;
        a = b;
        b = c;
        i = i + 1;
    }
    b
}

/// A result to be written back to the ledger for one event.
#[derive(Debug, Clone, Copy, PartialEq, Eq)]
pub struct JobOrder {
    pub source: LogSource,
    /// The job's identifier as carried by the event, a 256-bit big-endian number.
    pub job_id: [u8; 32],
    pub result: u64,
}

/// Runs the job of the pending event `log_source`. The event is marked
/// processed first, whatever follows, so that its work is never handed out
/// twice. `job_id` is what decoding the event gave: where it failed, no result
/// is produced and the event stays processed.
pub fn job(state: &mut State, log_source: LogSource, job_id: Option<[u8; 32]>) -> (r: Option<
    JobOrder,
>)
    requires
        old(state).wf(),
        old(state).pending().contains_key(log_source),
        !old(state).processed().contains_key(log_source),
    ensures
        final(state).wf(),
        mark_step(old(state).stores(), log_source, final(state).stores()),
        final(state).same_but_stores(old(state)),
        r == match job_id {
            Some(id) => Some(
                JobOrder { source: log_source, job_id: id, result: fib(JOB_INPUT as nat) as u64 },
            ),
            None => None::<JobOrder>,
        },
{
    state.record_processed_log(log_source);
    match job_id {
        Some(id) => {
            proof {
                lemma_fib_of_job_input();
            }
            let result = fibonacci(JOB_INPUT);
            Some(JobOrder { source: log_source, job_id: id, result })
        },
        None => None,
    }
}

/// Why a submission cannot be made.
#[derive(Debug, Clone, Copy, PartialEq, Eq, Structural)]
pub enum SubmitError {
    /// The signing identity has not been derived yet.
    MissingSigningIdentity,
    /// The last nonce used is the largest there is.
    NonceExhausted,
}

/// Where the nonce of the next submission comes from.
#[derive(Debug, Clone, Copy, PartialEq, Eq, Structural)]
pub enum NonceChoice {
    /// One past the last nonce used, known locally.
    Local(u64),
    /// No nonce is known locally: ask the ledger for the account's
    /// transaction count.
    Remote,
}

/// What a submission needs from the state.
#[derive(Debug, Clone, Copy, PartialEq, Eq)]
pub struct SubmissionPlan {
    pub from: EvmAddress,
    pub contract: EvmAddress,
    pub chain_id: u64,
    pub nonce: NonceChoice,
}

/// What became of a submitted transaction.
#[derive(Debug, Clone, Copy, PartialEq, Eq, Structural)]
pub enum SubmissionOutcome {
    /// Sent, and found again by its hash.
    Confirmed,
    /// Sent, but the ledger has no record of its hash.
    Unconfirmed,
    /// Not sent: rejected, or the ledger could not be reached.
    Failed,
}

/// Where the nonce of the next submission comes from, given the last one used.
pub open spec fn nonce_choice(last: Option<u64>) -> NonceChoice {
    match last {
        Some(n) => NonceChoice::Local((n + 1) as u64),
        None => NonceChoice::Remote,
    }
}

/// The nonce a submission uses: the local one, or else the ledger's count as
/// it is. `None` where the count was needed and could not be had: the
/// submission is then abandoned for this cycle.
pub open spec fn nonce_used(choice: NonceChoice, remote_count: Option<u64>) -> Option<u64> {
    match choice {
        NonceChoice::Local(n) => Some(n),
        NonceChoice::Remote => remote_count,
    }
}

/// The last nonce used after a submission with nonce `used`: it moves only
/// when the submission was confirmed.
pub open spec fn nonce_after(last: Option<u64>, used: u64, outcome: SubmissionOutcome) -> Option<
    u64,
> {
    match outcome {
        SubmissionOutcome::Confirmed => Some(used),
        _ => last,
    }
}

/// The nonce of the next submission, given the ledger's transaction count
/// where it was asked. `None` where the count was needed and the ledger could
/// not give it: nothing is submitted and nothing changes this cycle.
pub fn resolve_nonce(choice: NonceChoice, remote_count: Option<u64>) -> (r: Option<u64>)
    ensures
        r == nonce_used(choice, remote_count),
{
    match choice {
        NonceChoice::Local(n) => Some(n),
        NonceChoice::Remote => remote_count,
    }
}

impl State {
    /// What the next submission uses: the signing address, the target
    /// contract, the chain, and where its nonce comes from. Fails while the
    /// signing identity is unknown.
    pub fn plan_submission(&self) -> (r: Result<SubmissionPlan, SubmitError>)
        ensures
            match self.canister_evm_address {
                None => r == Err::<SubmissionPlan, SubmitError>(SubmitError::MissingSigningIdentity),
                Some(from) => if self.nonce == Some(u64::MAX) {
                    r == Err::<SubmissionPlan, SubmitError>(SubmitError::NonceExhausted)
                } else {
                    r == Ok::<SubmissionPlan, SubmitError>(
                        SubmissionPlan {
                            from,
                            contract: self.coprocessor_evm_address,
                            chain_id: self.chain_id,
                            nonce: nonce_choice(self.nonce),
                        },
                    )
                },
            },
    {
        let from = match self.canister_evm_address {
            Some(a) => a,
            None => {
                return Err(SubmitError::MissingSigningIdentity);
            },
        };
        let nonce = match self.nonce {
            Some(n) => {
                if n == u64::MAX {
                    return Err(SubmitError::NonceExhausted);
                }
                NonceChoice::Local(n + 1)
            },
            None => NonceChoice::Remote,
        };
        Ok(
            SubmissionPlan {
                from,
                contract: self.coprocessor_evm_address,
                chain_id: self.chain_id,
                nonce,
            },
        )
    }

    /// Records what became of a submission made with nonce `used`, which is
    /// one past the last nonce used where that is known: only a confirmed
    /// submission moves the last nonce used.
    pub fn record_submission(&mut self, used: u64, outcome: SubmissionOutcome)
        requires
            match old(self).nonce {
                Some(n) => used == n + 1,
                None => true,
            },
        ensures
            final(self).nonce == nonce_after(old(self).nonce, used, outcome),
            final(self).same_but_nonce(old(self)),
    {
        match outcome {
            SubmissionOutcome::Confirmed => {
                self.nonce = Some(used);
            },
            _ => {},
        }
    }
}

} // verus!
