//! Configuration derivation and source selection for building the EverCrypt
//! C library: which sources are compiled, and the header that gates them.
pub mod bindings;
pub mod config;
pub mod files;
pub mod make;
pub mod text;
