//! Assembling, signing and checking a single Aptos entry-function transaction.
//!
//! The crate is split along the life of one call:
//!
//! * [`account`] keeps the sender's identity and its sequence counter;
//! * [`value`] turns typed Move values into their canonical bytes;
//! * [`call`] turns a function call into a transaction payload;
//! * [`transaction`] stamps, sequences and signs a payload;
//! * [`client`] decides what to make of the node's answers.
//!
//! Nothing in here performs I/O; the builder reads the clock and nothing
//! else of the outside world. The calls into `aptos_sdk` are confined to
//! small functions whose contracts are assumed rather than proved; each one
//! says so in its documentation.

pub mod account;
pub mod call;
pub mod client;
pub mod transaction;
pub mod value;
