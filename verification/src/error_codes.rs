//! The error codes of responses.

use vstd::prelude::*;

verus! {

pub const PARSE_ERROR: i32 = -32700;

pub const INVALID_REQUEST: i32 = -32600;

pub const METHOD_NOT_FOUND: i32 = -32601;

pub const INVALID_PARAMS: i32 = -32602;

pub const INTERNAL_ERROR: i32 = -32603;

// Application-defined errors

pub const AGENT_OFFLINE: i32 = -32001;

pub const AGENT_TIMEOUT: i32 = -32002;

pub const COMMAND_FAILED: i32 = -32003;

pub const AUTH_FAILED: i32 = -32004;

pub const REGISTRATION_FAILED: i32 = -32005;

/// The code of an error that has no code of its own.
pub const GENERAL_ERROR: i32 = -1;

/// The code of a failure of the agent itself to save or update.
pub const AGENT_ERROR: i32 = -32000;

} // verus!
