//! A bridge that lets a synchronous content-transformation engine, running on
//! worker threads, call back into a single-threaded host runtime to resolve
//! module specifiers and read file contents, without blocking the host and
//! without deadlocking when the host replies through a deferred value.
//!
//! The verified core is the decision logic of that bridge: the pure fallback
//! resolution rule, the append-only source cache, the classification of host
//! callback results (immediate, deferred, or unexpected), the tagging of
//! host-reported failures, and the one-shot completion gate of the background
//! task runner. The actual channel operations are calls into
//! `crossbeam_channel` behind trusted contracts.

pub mod awaiter;
pub mod bridge;
pub mod cache;
pub mod channel;
pub mod diagnostics;
pub mod options;
pub mod paths;
pub mod rendezvous;
pub mod runner;
