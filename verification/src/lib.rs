//! A proof-of-work style "vanity" identifier grinder: it expands a desired
//! prefix into a target set, repeatedly injects a random fixed-width nonce
//! into a byte blob, hashes the result, encodes the digest as a checksummed
//! identifier, and reports every attempt whose identifier starts with one of
//! the target prefixes.

pub mod chars;
pub mod digits;
pub mod hashing;
pub mod marker;
pub mod nonce;
pub mod permute;
pub mod rate;
pub mod report;
pub mod target;
pub mod worker;
