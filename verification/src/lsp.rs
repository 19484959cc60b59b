//! The language server's side of the TypeScript compiler.
pub mod assets;
pub mod completions;
pub mod docs;
pub mod edits;
pub mod json;
pub mod laws;
pub mod lines;
pub mod locations;
pub mod patterns;
pub mod protocol;
pub mod request;
pub mod request_laws;
pub mod results;
pub mod rooted;
pub mod server;
pub mod service;
pub mod service_laws;
pub mod session;
pub mod snapshots;
