//! Transfer-time policy guard for a fungible token.
//!
//! The library caps how much balance any single non-exempt holder may reach
//! and lets a governance authority change that cap only through a timelocked
//! propose/execute/cancel workflow. Every decision is a pure function over
//! plain values handed in by the host ledger; the host performs the actual
//! balance changes and persists the policy record.

pub mod codec;
pub mod errors;
pub mod governance;
pub mod hook;
pub mod identity;
pub mod policy;
