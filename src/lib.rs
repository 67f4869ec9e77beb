//! Exactly-once event-to-action pipeline: event intake and deduplication,
//! guarded periodic tasks, job dispatch and nonce sequencing of outbound
//! transactions.
pub mod eth_call;
pub mod evm_rpc;
pub mod event;
pub mod guard;
pub mod hex_text;
pub mod job;
pub mod laws;
pub mod lifecycle;
pub mod log_map;
pub mod logs;
pub mod state;
