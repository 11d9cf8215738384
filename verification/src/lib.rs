//! A host-resident administration service: identity provisioning with a
//! signed bearer token, a per-call authentication gate, and point-in-time
//! resource snapshots (CPU, memory, disk, network) rendered on a fixed
//! KB/MB/GB unit ladder.

pub mod auth;
pub mod config;
pub mod metrics;
pub mod server;
