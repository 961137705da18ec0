//! The scanning side of the library.
pub mod ast_integration;
pub mod markers;
pub mod sources;
