//! A hash-linked ledger: records sealed with a SHA-256 digest of their
//! fields, each naming the digest of the one before it, and a validation walk
//! that detects tampering.
pub mod block;
pub mod chain;
pub mod decimal;
pub mod digest;
pub mod laws;
