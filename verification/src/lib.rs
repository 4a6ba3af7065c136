//! The verified core of the NoBase agent.
//!
//! The agent runs on a managed host, dials out to its gateway and answers the
//! gateway's requests. This crate holds what the agent decides and computes:
//! which request goes where, what command a request stands for, what a command's
//! output means, what is answered, what is buffered, sent and marked as sent,
//! when to reconnect, and when a downloaded binary may be installed. Each
//! function states what it returns in its contract, and [`laws`] says what that means
//! for every input.

pub mod cli;
pub mod clock;
pub mod command;
pub mod config;
pub mod connection;
pub mod dispatcher;
pub mod encoding;
pub mod error_codes;
pub mod handlers;
pub mod laws;
pub mod methods;
pub mod metrics;
pub mod metrics_buffer;
pub mod number;
pub mod order;
pub mod paths;
pub mod registry;
pub mod rpc;
pub mod serving;
pub mod split;
pub mod sqlite;
pub mod storage;
pub mod stream;
pub mod text;
pub mod updater;
