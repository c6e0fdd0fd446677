//! A Bloom filter over byte strings: `k` probes per element into an array of
//! `m` bits, with indices derived by double hashing from two 128-bit
//! MurmurHash3 digests.
pub mod bits;
pub mod filter;
pub mod hash;
pub mod laws;

pub use filter::{BloomFilter, DimensionMismatch};
pub use hash::split_u128;
