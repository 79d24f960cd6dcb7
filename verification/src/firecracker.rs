//! Sandboxes in Firecracker machines.

pub mod allowlist;
pub mod api;
pub mod backend;
pub mod connect;
pub mod fenced;
pub mod snapshots;
pub mod vm;
pub mod workspace;
