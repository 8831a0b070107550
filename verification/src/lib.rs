//! A deployment proxy for a programmable ledger: it assembles the low-level
//! creation call for a caller-chosen code template (code hash, constructor
//! selector, ABI-encoded arguments, address-derivation salt, forwarded
//! endowment) and translates the platform's raw outcome into either the new
//! account's address or the constructor's own error payload, forwarded
//! byte-for-byte.
//!
//! The platform's creation primitive itself is a host operation that only an
//! on-ledger account can issue; the surrounding contract shell performs it and
//! hands its outcome back to this library's verified dispatcher.

pub mod codec;
pub mod laws;
pub mod proxy;
