//! The core of `pgpt`, a terminal client for a chat service: which model a
//! query goes to and what it costs, the API key sealed at rest, the
//! settings, and the bounded cache of past exchanges that gives a query
//! its context.
//!
//! The library decides and computes; it opens no file, reads no
//! environment variable and sends nothing. Its callers hand it what they
//! read and carry out what it returns. What it takes from outside crates,
//! the cipher, the key derivation, the random source and the user's name,
//! stands behind a handful of trusted functions, each documented where it
//! is declared.

pub mod cache;
pub mod cli;
pub mod encryption;
pub mod error;
pub mod gpt;
pub mod model;
pub mod query;
pub mod secret;
pub mod settings;
pub mod spinner;
pub mod text;
