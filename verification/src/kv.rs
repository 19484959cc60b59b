//! The key-value database.
pub mod codec;
pub mod fake;
pub mod js;
pub mod laws;
pub mod sqlite;
pub mod types;
pub mod write;
