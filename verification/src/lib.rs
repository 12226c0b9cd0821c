//! An order-preserving pipeline stage and the commit-signing stage built on it.
//!
//! A stage turns one request into one response. The runtime in
//! [`pipeline_phase`] drives a single stage over a bounded inbound queue and
//! hands the responses on in the order of submission. The stage in
//! [`signing_phase`] asks a safety-enforcing signer to endorse the commit of
//! an ordered block and reports the signature or the rejection together with
//! the commit it was asked about.

pub mod ledger_info;
pub mod pipeline_phase;
pub mod signing_phase;
pub mod text;
