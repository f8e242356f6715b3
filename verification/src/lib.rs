//! Brute-force search for an input string whose SHA3-512 digest, rendered as
//! lowercase hex, starts with one of a set of target prefixes.
//!
//! The search draws nonces from a shared counter, appends each nonce's decimal
//! form to a fixed prepend string, hashes the candidate, and compares the hex
//! digest against the target prefixes, one lane per prefix, visited
//! round-robin so that every lane keeps receiving attempts. The first
//! candidate to satisfy a prefix is returned together with that prefix's
//! index.

pub mod candidate;
pub mod digest;
pub mod matcher;
pub mod nonce;
pub mod search;

pub use nonce::NonceCounter;
pub use search::find_hash;
