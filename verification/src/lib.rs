//! Validation and construction of bulk token-distribution instructions.
//!
//! Given a distribution request — a declared asset, a deposited amount and a
//! list of (recipient, amount) entries — the library checks that the deposit
//! exactly covers the requested payouts, that no recipient entry is repeated
//! and that every recipient address passed the host's validator, and then
//! builds one transfer instruction per recipient. Every check and the shape
//! of the emitted instructions are stated in the contracts and proved.
//!
//! The library is pure: the host layer around it observes the deposit,
//! decodes inbound payloads, runs the address validator and executes the
//! emitted instructions.

pub mod contract;
pub mod error;
pub mod msg;
