//! A workload driver for benchmarking key-value and record-oriented stores.
//!
//! The crate produces a deterministic (given a seed) stream of abstract
//! operations together with the keys, field indices and scan lengths those
//! operations target. It performs no I/O itself: a harness consumes the
//! stream and issues the concrete requests.

pub mod generator;
pub mod laws;
pub mod workload;

mod acknowledged;
mod hashing;
mod key;
mod loader;
mod random;
mod runner;

pub use acknowledged::Acknowledged;
pub use key::InsertOrder;
pub use key::Key;
pub use loader::Loader;
pub use runner::Operation;
pub use runner::RequestDistribution;
pub use runner::Runner;
pub use runner::ScanLengthDistribution;
pub use workload::Workload;
