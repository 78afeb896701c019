//! A verification runtime: it turns a named verification step into a concrete
//! command line, builds the full configuration of an isolated execution
//! environment for that command (mounts, working directory, environment
//! variables, network mode), and drives the environment's lifecycle
//! (remove any stale one, create, start, stop) while exposing status and
//! log inspection.

pub mod client;
pub mod config;
pub mod lifecycle;
pub mod memory;
pub mod step;
pub mod text;

pub use text::join_spaces;
pub use text::split_spaces;
