//! Key objects: how they are read, written, generated and described.
pub mod ec;
pub mod export;
pub mod import;
pub mod laws;
pub mod ops;
pub mod outside;
pub mod primes;
pub mod pss;
pub mod scrypt;
pub mod types;
