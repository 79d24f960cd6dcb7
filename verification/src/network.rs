//! What sandboxes may reach: firewall rules, name lookups, and the policy behind both.

pub mod dns_proxy;
pub mod effect;
pub mod firewall;
pub mod policy;
