//! What each method does.

pub mod docker;
pub mod exec;
pub mod fs;
pub mod fs_entry;
pub mod metrics;
pub mod shell;
pub mod transfer;
