//! Command-line schema of the `heif-enc` image encoder and a generator of
//! shell-completion scripts for it.
//!
//! The schema module declares the accepted flags and options as plain data;
//! the parse module checks a command line against that grammar; the shells
//! and generate modules compute, for every supported shell, where the
//! completion script for a command belongs and what it contains. Writing the
//! scripts to storage is left to the caller.

pub mod generate;
pub mod parse;
pub mod schema;
pub mod shells;
pub mod strutil;
