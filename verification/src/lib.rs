//! Bridges heterogeneous message sources to a workflow-orchestration service:
//! each configured source is polled in its own loop, every inbound message is
//! routed to a flow/deployment pair, and a remote run is triggered for it.

pub mod config;
pub mod dispatch;
pub mod interfaces;
pub mod json;
pub mod msal;
pub mod prefect;
pub mod publishers;
pub mod routing;
