//! The agent: what runs inside a machine and carries out commands, files and shells there.

pub mod paths;
pub mod protocol;
pub mod service;
pub mod shell;
