//! Readiness and provisioning logic for end-to-end tests of an
//! Ethereum-compatible test network: the readiness probe, the compiler
//! version gate, root-account discovery and funding, confirmation polling of
//! transactions, checks on deployed contracts, and the reduction of test
//! cases to a process status.
pub mod accounts;
pub mod confirm;
pub mod flow;
pub mod gate;
pub mod hex;
pub mod keys;
pub mod outcome;
pub mod probe;
pub mod version;
