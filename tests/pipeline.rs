use chain_fusion::event::{LogRecord, LogSource};
use chain_fusion::evm_rpc::{EthSepoliaService, RpcService};
use chain_fusion::guard::{TaskType, TimerGuard, TimerGuardError};
use chain_fusion::job::{
    fibonacci, job, resolve_nonce, JobOrder, NonceChoice, SubmissionOutcome, SubmitError,
};
use chain_fusion::lifecycle::InitArg;
use chain_fusion::logs::record_new_logs;
use chain_fusion::state::{EcdsaCurve, EcdsaKeyId, State};

const COPROCESSOR: &str = "0x5FbDB2315678afecb367f032d93F642f64180aa3";

fn init_arg(filter_addresses: Vec<&str>, coprocessor: &str) -> InitArg {
    InitArg {
        rpc_service: RpcService::EthSepolia(EthSepoliaService::Alchemy),
        chain_id: 31337,
        filter_addresses: filter_addresses.into_iter().map(|s| s.to_string()).collect(),
        coprocessor_evm_address: coprocessor.to_string(),
        filter_events: vec!["NewJob(uint256)".to_string()],
        ecdsa_key_id: EcdsaKeyId { name: "dfx_test_key".to_string(), curve: EcdsaCurve::Secp256K1 },
    }
}

fn new_state() -> State {
    State::try_from(init_arg(vec![COPROCESSOR], COPROCESSOR)).unwrap()
}

fn log(hash_byte: u8, index: u64, job: u8) -> LogRecord {
    let mut id = [0u8; 32];
    id[31] = job;
    LogRecord {
        address: [0x5f; 20],
        topics: vec![[0x11; 32], id],
        data: vec![],
        block_number: Some(7),
        transaction_hash: Some([hash_byte; 32]),
        log_index: Some(index),
    }
}

fn source(hash_byte: u8, index: u64) -> LogSource {
    LogSource { transaction_hash: [hash_byte; 32], log_index: index }
}

#[test]
fn overlapping_batches_keep_one_entry() {
    let mut state = new_state();
    let first = record_new_logs(&mut state, vec![log(0xAA, 0, 1)]);
    assert!(first);
    let second = record_new_logs(&mut state, vec![log(0xAA, 0, 1), log(0xBB, 1, 2)]);
    assert!(second);
    assert_eq!(state.pending_sources(), vec![source(0xAA, 0), source(0xBB, 1)]);
    assert_eq!(state.pending_count(), 2);
    assert_eq!(state.processed_count(), 0);
}

#[test]
fn redelivery_after_processing_is_dropped() {
    let mut state = new_state();
    record_new_logs(&mut state, vec![log(0xAA, 0, 1)]);
    state.record_processed_log(source(0xAA, 0));
    let again = record_new_logs(&mut state, vec![log(0xAA, 0, 1)]);
    assert!(!again);
    assert!(state.pending_log(&source(0xAA, 0)).is_none());
    assert_eq!(state.processed_log(&source(0xAA, 0)), Some(&log(0xAA, 0, 1)));
    assert_eq!(state.processed_count(), 1);
    assert!(!state.has_logs_to_process());
}

#[test]
fn duplicates_within_one_batch_keep_the_first() {
    let mut state = new_state();
    let mut other = log(0xAA, 0, 9);
    other.block_number = Some(8);
    record_new_logs(&mut state, vec![log(0xAA, 0, 1), other]);
    assert_eq!(state.pending_count(), 1);
    assert_eq!(state.pending_log(&source(0xAA, 0)), Some(&log(0xAA, 0, 1)));
}

#[test]
fn pending_keys_come_in_key_order() {
    let mut state = new_state();
    record_new_logs(
        &mut state,
        vec![log(0xBB, 0, 1), log(0xAA, 5, 2), log(0xAA, 1, 3), log(0x01, 9, 4)],
    );
    assert_eq!(
        state.pending_sources(),
        vec![source(0x01, 9), source(0xAA, 1), source(0xAA, 5), source(0xBB, 0)]
    );
}

#[test]
fn no_key_is_pending_and_processed() {
    let mut state = new_state();
    record_new_logs(&mut state, vec![log(1, 0, 1), log(2, 0, 2), log(3, 0, 3)]);
    state.record_processed_log(source(2, 0));
    record_new_logs(&mut state, vec![log(2, 0, 2), log(4, 0, 4)]);
    for k in [source(1, 0), source(2, 0), source(3, 0), source(4, 0)] {
        assert!(!(state.pending_log(&k).is_some() && state.processed_log(&k).is_some()));
        assert!(state.is_known(&k));
    }
    assert!(!state.is_known(&source(5, 0)));
}

#[test]
fn record_log_to_process_adds_one_pending_event() {
    let mut state = new_state();
    assert!(!state.has_logs_to_process());
    state.record_log_to_process(log(3, 2, 1));
    assert!(state.has_logs_to_process());
    assert_eq!(state.pending_log(&source(3, 2)), Some(&log(3, 2, 1)));
}

#[test]
fn log_source_reads_hash_and_index() {
    assert_eq!(log(0x42, 3, 0).source(), source(0x42, 3));
}

#[test]
fn drain_with_undecodable_second_event() {
    let mut state = new_state();
    record_new_logs(&mut state, vec![log(1, 0, 1), log(2, 0, 2), log(3, 0, 3)]);
    let mut orders = Vec::new();
    let sources = state.pending_sources();
    assert_eq!(sources.len(), 3);
    for (i, s) in sources.iter().enumerate() {
        let decoded = if i == 1 { None } else { Some(state.pending_log(s).unwrap().topics[1]) };
        orders.push(job(&mut state, *s, decoded));
    }
    let mut id1 = [0u8; 32];
    id1[31] = 1;
    let mut id3 = [0u8; 32];
    id3[31] = 3;
    assert_eq!(orders[0], Some(JobOrder { source: source(1, 0), job_id: id1, result: 6765 }));
    assert_eq!(orders[1], None);
    assert_eq!(orders[2], Some(JobOrder { source: source(3, 0), job_id: id3, result: 6765 }));
    assert!(!state.has_logs_to_process());
    assert_eq!(state.processed_count(), 3);
    assert!(state.processed_log(&source(2, 0)).is_some());
}

#[test]
fn fibonacci_values() {
    assert_eq!(fibonacci(0), 0);
    assert_eq!(fibonacci(1), 1);
    assert_eq!(fibonacci(2), 1);
    assert_eq!(fibonacci(20), 6765);
    assert_eq!(fibonacci(93), 12200160415121876738);
}

#[test]
fn guard_skips_while_running_and_frees_on_release() {
    let mut state = new_state();
    let guard = TimerGuard::new(&mut state.active_tasks, TaskType::ScrapeLogs).unwrap();
    assert_eq!(guard.task(), TaskType::ScrapeLogs);
    assert_eq!(
        TimerGuard::new(&mut state.active_tasks, TaskType::ScrapeLogs).unwrap_err(),
        TimerGuardError::AlreadyProcessing
    );
    let other = TimerGuard::new(&mut state.active_tasks, TaskType::ProcessLogs).unwrap();
    guard.release(&mut state.active_tasks);
    assert!(!state.active_tasks.contains(TaskType::ScrapeLogs));
    assert!(state.active_tasks.contains(TaskType::ProcessLogs));
    let again = TimerGuard::new(&mut state.active_tasks, TaskType::ScrapeLogs);
    assert!(again.is_ok());
    other.release(&mut state.active_tasks);
    again.unwrap().release(&mut state.active_tasks);
    assert!(!state.active_tasks.contains(TaskType::ProcessLogs));
}

#[test]
fn cold_start_takes_remote_count_then_counts_up() {
    let mut state = new_state();
    state.set_evm_address([7; 20]);
    let plan = state.plan_submission().unwrap();
    assert_eq!(plan.nonce, NonceChoice::Remote);
    assert_eq!(plan.from, [7; 20]);
    let first = resolve_nonce(plan.nonce, Some(5)).unwrap();
    assert_eq!(first, 5);
    state.record_submission(first, SubmissionOutcome::Confirmed);
    assert_eq!(state.nonce, Some(5));
    let plan = state.plan_submission().unwrap();
    assert_eq!(plan.nonce, NonceChoice::Local(6));
    let second = resolve_nonce(plan.nonce, Some(0)).unwrap();
    assert_eq!(second, 6);
    state.record_submission(second, SubmissionOutcome::Confirmed);
    assert_eq!(state.nonce, Some(6));
}

#[test]
fn unconfirmed_submission_keeps_the_nonce() {
    let mut state = new_state();
    state.set_evm_address([7; 20]);
    state.record_submission(3, SubmissionOutcome::Unconfirmed);
    assert_eq!(state.nonce, None);
    state.record_submission(3, SubmissionOutcome::Confirmed);
    state.record_submission(4, SubmissionOutcome::Unconfirmed);
    assert_eq!(state.nonce, Some(3));
    state.record_submission(4, SubmissionOutcome::Failed);
    assert_eq!(state.nonce, Some(3));
    assert_eq!(state.plan_submission().unwrap().nonce, NonceChoice::Local(4));
}

#[test]
fn missing_remote_count_abandons_the_submission() {
    let mut state = new_state();
    state.set_evm_address([7; 20]);
    let plan = state.plan_submission().unwrap();
    assert_eq!(resolve_nonce(plan.nonce, None), None);
    assert_eq!(state.nonce, None);
    assert_eq!(resolve_nonce(NonceChoice::Remote, Some(0)), Some(0));
    assert_eq!(resolve_nonce(NonceChoice::Local(9), None), Some(9));
    assert_eq!(resolve_nonce(NonceChoice::Local(9), Some(1)), Some(9));
}

#[test]
fn set_evm_address_keeps_the_configuration() {
    let mut state = new_state();
    state.set_evm_address([9; 20]);
    assert_eq!(state.evm_address(), Some([9; 20]));
    assert_eq!(state.chain_id, 31337);
    assert_eq!(state.key_id().name, "dfx_test_key");
    assert_eq!(state.get_filter_events(), vec!["NewJob(uint256)".to_string()]);
    assert_eq!(state.get_filter_addresses().len(), 1);
    assert_eq!(state.nonce, None);
}

#[test]
fn submission_needs_signing_identity() {
    let state = new_state();
    assert_eq!(state.evm_address(), None);
    assert_eq!(state.plan_submission().unwrap_err(), SubmitError::MissingSigningIdentity);
}

#[test]
fn submission_refuses_exhausted_nonce() {
    let mut state = new_state();
    state.set_evm_address([7; 20]);
    state.record_submission(u64::MAX, SubmissionOutcome::Confirmed);
    assert_eq!(state.plan_submission().unwrap_err(), SubmitError::NonceExhausted);
}

#[test]
fn evm_address_text_is_checksummed() {
    let mut state = new_state();
    assert_eq!(state.get_evm_address(), None);
    let parsed = State::try_from(init_arg(
        vec![
            "0x5aaeb6053f3e94c9b9a09f33669435e7ef1beaed",
            "0xfb6916095ca1df60bb79ce92ce3ea74c37c5d359",
        ],
        COPROCESSOR,
    ))
    .unwrap();
    let addresses = parsed.get_filter_addresses();
    state.set_evm_address(addresses[0]);
    assert_eq!(state.get_evm_address().unwrap(), "0x5aAeb6053F3E94C9b9A09f33669435E7Ef1BeAed");
    assert_eq!(state.evm_address(), Some(addresses[0]));
    state.set_evm_address(addresses[1]);
    assert_eq!(state.get_evm_address().unwrap(), "0xfB6916095ca1df60bB79Ce92cE3Ea74c37c5d359");
}
