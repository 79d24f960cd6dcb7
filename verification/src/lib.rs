//! Hyperbox: a sandbox runtime whose decisions are verified.

pub mod affinity;
pub mod agent;
pub mod apple;
pub mod cli;
pub mod codec;
pub mod config;
pub mod env;
pub mod error;
pub mod firecracker;
pub mod ids;
pub mod model;
pub mod network;
pub mod numbers;
pub mod order;
pub mod paths;
pub mod process;
pub mod script;
pub mod server;
pub mod shell;
pub mod snapshot;
pub mod stats;
pub mod table;
pub mod template;
pub mod text;
pub mod time;
