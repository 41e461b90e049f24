//! Core runtime of a remote-management endpoint agent.
//!
//! The library contains the verified logic of the agent: the signed message
//! envelope, the transport response rules, the metrics rate engine, the
//! inventory assembly and text parsers, the job dispatcher with its
//! subprocess command building and output bounding, and the configuration
//! record. Network, file, clock and subprocess plumbing lives outside the
//! library and hands plain values in and out.

pub mod client;
pub mod config;
pub mod crypto;
pub mod enroll;
pub mod envelope;
pub mod host;
pub mod inventory;
pub mod metrics;
pub mod persist;
pub mod protocol;
pub mod runner;
pub mod scan;
pub mod sched;
pub mod text;
