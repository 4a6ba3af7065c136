//! What the operations do, said of their inputs and results alone.
//!
//! Each law is a proof function. It takes what an operation's contract promises
//! and says what follows of it for every input, or how two calls relate.

pub mod agent;
pub mod buffer;
pub mod docker;
pub mod entries;
pub mod envelope;
pub mod files;
pub mod metrics;
pub mod requests;
pub mod running;
pub mod text;
