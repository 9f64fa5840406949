//! A multi-index consistency engine for a governance ledger's neuron records.
//!
//! Four secondary indexes — by subaccount, by principal, by (topic, followee)
//! delegation pair, and by known name — are kept derivable from the
//! authoritative neuron record as records are added, updated and removed.
//! Every index operation is specified against a mathematical view of the
//! index contents, and the orchestrator's contracts pin down exactly which
//! entries each call adds or removes, which calls succeed, and which defects
//! are reported.

pub mod codec;
pub mod defects;
pub mod following_index;
pub mod http;
pub mod known_neuron_index;
pub mod laws;
pub mod metrics;
pub mod multimap;
pub mod neuron;
pub mod neuron_indexes;
pub mod principal_index;
pub mod storage;
pub mod subaccount_index;
pub mod text;
