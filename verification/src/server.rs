//! The server: sandboxes and processes on behalf of many callers.

pub mod backend_factory;
pub mod courses;
pub mod effects;
pub mod launch;
pub mod lifecycle;
pub mod local_backend;
pub mod managed;
pub mod metrics;
pub mod op_courses;
pub mod pool;
pub mod processes;
pub mod rows;
pub mod run;
pub mod run_courses;
pub mod scripts;
pub mod sessions;
pub mod state;
pub mod store;
pub mod wire;
pub mod world;
