//! Sandboxes in Apple containers.

pub mod archives;
pub mod backend;
pub mod capabilities;
pub mod container;
pub mod courses;
pub mod operations;
pub mod snapshots;
pub mod tool;
