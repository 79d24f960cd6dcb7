//! The command line: what its flags mean and how its commands go about their work.

pub mod apple_helper;
pub mod bench;
pub mod dns_script;
pub mod fault;
pub mod helper_work;
pub mod logs;
pub mod plan;
pub mod policy;
pub mod proxy;
pub mod render;
pub mod session;
pub mod setup;
pub mod shell;
pub mod snapshots;
pub mod template_auto;
