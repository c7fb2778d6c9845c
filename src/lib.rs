//! Verified core of a cluster-wide live-migration fabric for WebAssembly guests:
//! page-level memory deltas, payload compression, the migration stack, the
//! migration receiver's validation and reconstruction, the sender's plan and
//! retry policy, and the liveness decisions of coordinator and followers.
pub mod compression;
pub mod config;
pub mod error;
pub mod helper;
pub mod labels;
pub mod liveness;
pub mod memory;
pub mod metadata;
pub mod protocol;
pub mod receiver;
pub mod runtime_config;
pub mod sender;
pub mod stack;
pub mod store;
