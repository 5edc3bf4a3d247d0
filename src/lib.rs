//! The protocol engine of the TaskChampion sync server, with its storage contract.
//!
//! Replicas of a task database push and pull a linear history of opaque versions through the
//! server. The [`Server`] type implements the four protocol transactions over any [`Storage`]
//! backend, and [`InMemoryStorage`] is a backend held in memory.

mod chain;
mod error;
mod inmemory;
mod server;
mod sql;
mod sources;
mod storage;
mod urgency;
mod web;

pub use error::{other_error, ServerError};
pub use storage::{
    Client, ClientId, ClientState, Snapshot, Storage, StorageTxn, Version, VersionId,
    VersionRecord, NIL_VERSION_ID,
};
pub use urgency::{
    age_days, lemma_urgency_by_days_monotone, lemma_urgency_by_versions_monotone,
    urgency_after_add, ServerConfig, SnapshotUrgency,
};
pub use server::{
    add_version_answer, all_unchanged, child_version_answer, child_version_result,
    created_client_state, others_unchanged, require_client, search_accepts,
    search_recent_history, search_step, snapshot_accepted, snapshot_answer, snapshot_version,
    AddVersionResult, GetVersionResult, Server, SNAPSHOT_SEARCH_LEN,
};
pub use inmemory::{lemma_racing_commit_refused, InMemoryStorage, InMemoryTxn};
pub use chain::{
    chain_ok, lemma_add_version_keeps_chain, lemma_added_version_is_child,
    lemma_new_client_chain_ok, lemma_same_parent_accepted_once, lemma_set_snapshot_keeps_chain,
    parents_unique, reaches_nil, walks_to_nil,
};
pub use sql::{check_latest_updated, client_from_columns, snapshot_data_matching};
pub use web::{
    add_snapshot_status, add_version_status, body_fits, client_allowed, error_status,
    get_child_version_status, get_snapshot_status, snapshot_request, MAX_BODY_SIZE,
};
