//! Parts of a JavaScript runtime.
pub mod error;
pub mod fs;
pub mod http;
pub mod js;
pub mod keys;
pub mod kv;
pub mod lsp;
pub mod media_type;
pub mod resources;
pub mod specifier;
pub mod text;
pub mod transpile;
