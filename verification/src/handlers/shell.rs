//! Interactive shells on pseudo-terminals.

use crate::command::{words_of, CommandSpec};
use crate::encoding::{base64_bytes, base64_decode, base64_encode, base64_text, decodes_to};
use crate::error_codes;
use crate::handlers::fs::OkReply;
use crate::methods::{ShellCloseRequest, ShellDataRequest, ShellOpenRequest, ShellOpenResponse};
use crate::methods::ShellResizeRequest;
use crate::registry::Registry;
use crate::rpc::{RpcRequest, RpcResponse};
use crate::stream::ShellStreamData;
use crate::text::cat2;
use std::collections::HashMap;
use vstd::prelude::*;
use vstd::string::StringExecFns;

verus! {

/// The error code of a request that names a shell that is not there, or one to be
/// opened that is.
pub const SHELL_ERROR: i32 = -32001;

/// The program of a shell session.
pub const SHELL_PROGRAM: &'static str = "/bin/bash";

/// The terminal that a shell session is told it runs on.
pub const TERMINAL: &'static str = "xterm-256color";

/// How long a reader waits for data before it looks whether it is to stop.
pub const POLL_TIMEOUT_MS: i32 = 500;

/// How many bytes a reader takes at once at most.
pub const READ_SIZE: usize = 8192;

/// The event that the other end of a terminal was closed.
pub const HANG_UP: i16 = 0x10;

/// The event that a terminal failed.
pub const TERMINAL_ERROR: i16 = 0x08;

/// An active shell session. `S` is what tells its reader to stop.
pub struct ShellSession<S> {
    pub master_fd: i32,
    pub child_pid: u32,
    pub shutdown: S,
}

/// The message that no shell has this ID.
pub open spec fn no_shell(shell_id: Seq<char>) -> Seq<char> {
    "Shell not found: "@ + shell_id
}

fn shell_not_found<V>(id: String, shell_id: &str) -> (response: RpcResponse<V>)
    ensures
        response.fails(id@, SHELL_ERROR, no_shell(shell_id@)),
{
    RpcResponse::error(id, SHELL_ERROR, cat2("Shell not found: ", shell_id))
}

// ---------------------------------------------------------------------------
// shell.open
// ---------------------------------------------------------------------------

/// A shell session to be created: a terminal of this size, and a login shell on
/// it, with the variables of the request and the terminal's name in its
/// environment.
pub struct ShellOpenPlan {
    pub id: String,
    pub shell_id: String,
    pub cols: u16,
    pub rows: u16,
    pub command: CommandSpec,
    pub variables: Option<HashMap<String, String>>,
}

/// A variable that is set in the environment of a command.
pub struct Assignment {
    pub name: String,
    pub value: String,
}

/// The value of a variable once the assignments were made one after the other: a
/// later one overrides an earlier one.
pub open spec fn assigned(list: Seq<Assignment>, name: Seq<char>) -> Option<Seq<char>>
    decreases list.len(),
{
    if list.len() == 0 {
        None
    } else if list.last().name@ == name {
        Some(list.last().value@)
    } else {
        assigned(list.drop_last(), name)
    }
}

/// Whether this is what [`shell_environment`] gives.
pub open spec fn shell_environment_gives(variables: Vec<Assignment>, r: Vec<Assignment>) -> bool {
    &&& r@.len() == variables@.len() + 1
    &&& r@.drop_last() == variables@
    &&& assigned(r@, "TERM"@) == Some(TERMINAL@)
    &&& forall|name: Seq<char>|
        name != "TERM"@ ==> #[trigger] assigned(r@, name) == assigned(variables@, name)
}

/// The environment of a shell on a terminal, as assignments to be made one after
/// the other, given the variables of the request in any order. No variable of the
/// request overrides the terminal's name.
pub fn shell_environment(variables: Vec<Assignment>) -> (r: Vec<Assignment>)
    ensures
        shell_environment_gives(variables, r),
        r@.len() == variables@.len() + 1,
        r@.drop_last() == variables@,
        assigned(r@, "TERM"@) == Some(TERMINAL@),
        forall|name: Seq<char>|
            name != "TERM"@ ==> #[trigger] assigned(r@, name) == assigned(variables@, name),
{
    let mut r = variables;
    r.push(Assignment { name: String::from_str("TERM"), value: String::from_str(TERMINAL) });
    assert(r@.drop_last() =~= variables@);
    r
}

/// Whether this is what [`handle_shell_open`] gives.
pub open spec fn shell_open_begins<S>(
    id: String,
    params: Result<ShellOpenRequest, String>,
    sessions: &Registry<ShellSession<S>>,
    r: Result<ShellOpenPlan, RpcResponse<ShellOpenResponse>>,
) -> bool {
    &&& r matches Err(response) ==> response.responds_to(id@)
    &&& match params {
        Ok(request) => if sessions@.contains_key(request.shell_id@) {
            r matches Err(response) && response.fails(
                id@,
                SHELL_ERROR,
                "Shell already exists: "@ + request.shell_id@,
            )
        } else {
            &&& r matches Ok(plan)
            &&& plan.id@ == id@
            &&& plan.shell_id@ == request.shell_id@
            &&& plan.cols == request.cols
            &&& plan.rows == request.rows
            &&& plan.command.calls(SHELL_PROGRAM@, seq!["-l"@])
            &&& plan.command.env is None
            &&& plan.variables == request.env
        },
        Err(e) => r matches Err(response) && response.rejects_params(id@, e@),
    }
}

/// Handle `shell.open`: open a new shell session.
pub fn handle_shell_open<S>(
    id: String,
    params: Result<ShellOpenRequest, String>,
    sessions: &Registry<ShellSession<S>>,
) -> (r: Result<ShellOpenPlan, RpcResponse<ShellOpenResponse>>)
    requires
        sessions.wf(),
    ensures
        shell_open_begins(id, params, sessions, r),
        r matches Err(response) ==> response.responds_to(id@),
        match params {
            Ok(request) => if sessions@.contains_key(request.shell_id@) {
                r matches Err(response) && response.fails(
                    id@,
                    SHELL_ERROR,
                    "Shell already exists: "@ + request.shell_id@,
                )
            } else {
                &&& r matches Ok(plan)
                &&& plan.id@ == id@
                &&& plan.shell_id@ == request.shell_id@
                &&& plan.cols == request.cols
                &&& plan.rows == request.rows
                &&& plan.command.calls(SHELL_PROGRAM@, seq!["-l"@])
                &&& plan.command.env is None
                &&& plan.variables == request.env
            },
            Err(e) => r matches Err(response) && response.rejects_params(id@, e@),
        },
{
    match params {
        Ok(request) => if sessions.contains(request.shell_id.as_str()) {
            Err(
                RpcResponse::error(
                    id,
                    SHELL_ERROR,
                    cat2("Shell already exists: ", request.shell_id.as_str()),
                ),
            )
        } else {
            let args = vec!["-l"];
            assert(words_of(args@) =~= seq!["-l"@]);
            let command = CommandSpec::new(SHELL_PROGRAM, &args);
            Ok(
                ShellOpenPlan {
                    id,
                    shell_id: request.shell_id,
                    cols: request.cols,
                    rows: request.rows,
                    command,
                    variables: request.env,
                },
            )
        },
        Err(e) => Err(RpcResponse::invalid_params(id, e.as_str())),
    }
}

impl ShellOpenPlan {
    /// Whether this is what [`Self::on_created`] gives.
    pub open spec fn on_created_gives<S>(
        self,
        created: Result<ShellSession<S>, String>,
        before: Registry<ShellSession<S>>,
        after: Registry<ShellSession<S>>,
        response: RpcResponse<ShellOpenResponse>,
    ) -> bool {
        &&& response.responds_to(self.id@)
        &&& after.wf()
        &&& match created {
            Ok(session) => {
                &&& response.answers(self.id@)
                &&& response.payload().shell_id@ == self.shell_id@
                &&& response.payload().ok
                &&& after@ == before@.insert(self.shell_id@, session)
            },
            Err(e) => {
                &&& response.fails(
                    self.id@,
                    error_codes::COMMAND_FAILED,
                    "Failed to create shell: "@ + e@,
                )
                &&& after@ == before@
            },
        }
    }

    /// The response when the session was created or not. A session that was
    /// created is active from then on.
    pub fn on_created<S>(
        self,
        created: Result<ShellSession<S>, String>,
        sessions: &mut Registry<ShellSession<S>>,
    ) -> (response: RpcResponse<ShellOpenResponse>)
        requires
            old(sessions).wf(),
        ensures
            self.on_created_gives(created, *old(sessions), *final(sessions), response),
            response.responds_to(self.id@),
            final(sessions).wf(),
            match created {
                Ok(session) => {
                    &&& response.answers(self.id@)
                    &&& response.payload().shell_id@ == self.shell_id@
                    &&& response.payload().ok
                    &&& final(sessions)@ == old(sessions)@.insert(self.shell_id@, session)
                },
                Err(e) => {
                    &&& response.fails(
                        self.id@,
                        error_codes::COMMAND_FAILED,
                        "Failed to create shell: "@ + e@,
                    )
                    &&& final(sessions)@ == old(sessions)@
                },
            },
    {
        match created {
            Ok(session) => {
                let _ = sessions.insert(self.shell_id.clone(), session);
                RpcResponse::success(
                    self.id,
                    ShellOpenResponse { shell_id: self.shell_id, ok: true },
                )
            },
            Err(e) => RpcResponse::error(
                self.id,
                error_codes::COMMAND_FAILED,
                cat2("Failed to create shell: ", e.as_str()),
            ),
        }
    }
}

// ---------------------------------------------------------------------------
// Reading from a terminal
// ---------------------------------------------------------------------------

/// The reader of a shell session's output.
pub struct ShellReader {
    pub shell_id: String,
}

/// What a reader does next.
#[derive(Debug, Clone, Copy)]
pub enum ReaderStep {
    /// Stop reading.
    Stop,
    /// Wait for data again.
    Wait,
    /// Read.
    Read,
}

/// What a reader does after it was told to stop or not, and after it waited for
/// data: the wait failed, ended without an event, or brought events.
pub open spec fn after_wait(shutdown: bool, polled: i32, events: i16) -> ReaderStep {
    if shutdown || polled < 0 {
        ReaderStep::Stop
    } else if polled == 0 {
        ReaderStep::Wait
    } else if events & (HANG_UP | TERMINAL_ERROR) != 0 {
        ReaderStep::Stop
    } else {
        ReaderStep::Read
    }
}

impl ShellReader {
    /// Whether this is what [`Self::on_poll`] gives.
    pub open spec fn on_poll_gives(
        self,
        shutdown: bool,
        polled: i32,
        events: i16,
        step: ReaderStep,
    ) -> bool {
        &&& step == after_wait(shutdown, polled, events)
    }

    /// What the reader does after it waited for data.
    pub fn on_poll(&self, shutdown: bool, polled: i32, events: i16) -> (step: ReaderStep)
        ensures
            self.on_poll_gives(shutdown, polled, events, step),
            step == after_wait(shutdown, polled, events),
    {
        if shutdown || polled < 0 {
            ReaderStep::Stop
        } else if polled == 0 {
            ReaderStep::Wait
        } else if events & (HANG_UP | TERMINAL_ERROR) != 0 {
            ReaderStep::Stop
        } else {
            ReaderStep::Read
        }
    }

    /// Whether this is what [`Self::on_read`] gives.
    pub open spec fn on_read_gives(
        self,
        read: Option<Vec<u8>>,
        r: Option<RpcRequest<ShellStreamData>>,
    ) -> bool {
        &&& match read {
            Some(bytes) if bytes@.len() > 0 => {
                &&& r matches Some(note)
                &&& note.notifies("shell.data"@, note.params)
                &&& note.params.shell_id@ == self.shell_id@
                &&& note.params.data@ == base64_text(bytes@)
                &&& decodes_to(note.params.data@, bytes@)
            },
            _ => r is None,
        }
    }

    /// What to send after a read, if the reading is to go on: it stops where the
    /// read fails or gives no bytes.
    pub fn on_read(&self, read: Option<Vec<u8>>) -> (r: Option<RpcRequest<ShellStreamData>>)
        ensures
            self.on_read_gives(read, r),
            match read {
                Some(bytes) if bytes@.len() > 0 => {
                    &&& r matches Some(note)
                    &&& note.notifies("shell.data"@, note.params)
                    &&& note.params.shell_id@ == self.shell_id@
                    &&& note.params.data@ == base64_text(bytes@)
                    &&& decodes_to(note.params.data@, bytes@)
                },
                _ => r is None,
            },
    {
        match read {
            Some(bytes) => if bytes.len() == 0 {
                None
            } else {
                let data = base64_encode(&bytes);
                Some(
                    RpcRequest::notification(
                        "shell.data",
                        ShellStreamData { shell_id: self.shell_id.clone(), data },
                    ),
                )
            },
            None => None,
        }
    }

    /// Whether this is what [`Self::on_stop`] gives.
    pub open spec fn on_stop_gives<S>(
        self,
        before: Registry<ShellSession<S>>,
        after: Registry<ShellSession<S>>,
        r: Option<ShellSession<S>>,
    ) -> bool {
        &&& after.wf()
        &&& after@ == before@.remove(self.shell_id@)
        &&& r == crate::registry::under(before@, self.shell_id@)
    }

    /// The reader has stopped: its session is active no longer.
    pub fn on_stop<S>(self, sessions: &mut Registry<ShellSession<S>>) -> (r: Option<
        ShellSession<S>,
    >)
        requires
            old(sessions).wf(),
        ensures
            self.on_stop_gives(*old(sessions), *final(sessions), r),
            final(sessions).wf(),
            final(sessions)@ == old(sessions)@.remove(self.shell_id@),
            r == crate::registry::under(old(sessions)@, self.shell_id@),
    {
        sessions.remove(self.shell_id.as_str())
    }
}

// ---------------------------------------------------------------------------
// shell.data and shell.resize
// ---------------------------------------------------------------------------

/// Bytes to be written to a session's terminal.
pub struct ShellDataPlan {
    pub id: String,
    pub master_fd: i32,
    pub data: Vec<u8>,
}

/// Whether this is what [`handle_shell_data`] gives.
pub open spec fn shell_data_begins<S>(
    id: String,
    params: Result<ShellDataRequest, String>,
    sessions: &Registry<ShellSession<S>>,
    r: Result<ShellDataPlan, RpcResponse<OkReply>>,
) -> bool {
    &&& r matches Err(response) ==> response.responds_to(id@)
    &&& match params {
        Ok(request) => if !sessions@.contains_key(request.shell_id@) {
            r matches Err(response) && response.fails(
                id@,
                SHELL_ERROR,
                no_shell(request.shell_id@),
            )
        } else {
            match base64_bytes(request.data@) {
                Ok(bytes) => {
                    &&& r matches Ok(plan)
                    &&& plan.id@ == id@
                    &&& plan.master_fd == sessions@[request.shell_id@].master_fd
                    &&& plan.data@ == bytes
                },
                Err(e) => r matches Err(response) && response.fails(
                    id@,
                    error_codes::INVALID_PARAMS,
                    "Invalid base64: "@ + e,
                ),
            }
        },
        Err(e) => r matches Err(response) && response.rejects_params(id@, e@),
    }
}

/// Handle `shell.data`: write data to a shell session.
pub fn handle_shell_data<S>(
    id: String,
    params: Result<ShellDataRequest, String>,
    sessions: &Registry<ShellSession<S>>,
) -> (r: Result<ShellDataPlan, RpcResponse<OkReply>>)
    requires
        sessions.wf(),
    ensures
        shell_data_begins(id, params, sessions, r),
        r matches Err(response) ==> response.responds_to(id@),
        match params {
            Ok(request) => if !sessions@.contains_key(request.shell_id@) {
                r matches Err(response) && response.fails(
                    id@,
                    SHELL_ERROR,
                    no_shell(request.shell_id@),
                )
            } else {
                match base64_bytes(request.data@) {
                    Ok(bytes) => {
                        &&& r matches Ok(plan)
                        &&& plan.id@ == id@
                        &&& plan.master_fd == sessions@[request.shell_id@].master_fd
                        &&& plan.data@ == bytes
                    },
                    Err(e) => r matches Err(response) && response.fails(
                        id@,
                        error_codes::INVALID_PARAMS,
                        "Invalid base64: "@ + e,
                    ),
                }
            },
            Err(e) => r matches Err(response) && response.rejects_params(id@, e@),
        },
{
    let request = match params {
        Ok(request) => request,
        Err(e) => return Err(RpcResponse::invalid_params(id, e.as_str())),
    };
    let master_fd = match sessions.get(request.shell_id.as_str()) {
        Some(session) => session.master_fd,
        None => return Err(shell_not_found(id, request.shell_id.as_str())),
    };
    match base64_decode(request.data.as_str()) {
        Ok(data) => Ok(ShellDataPlan { id, master_fd, data }),
        Err(e) => Err(
            RpcResponse::error(
                id,
                error_codes::INVALID_PARAMS,
                cat2("Invalid base64: ", e.as_str()),
            ),
        ),
    }
}

impl ShellDataPlan {
    /// Whether this is what [`Self::finish`] gives.
    pub open spec fn finish_gives(
        self,
        written: Result<(), String>,
        response: RpcResponse<OkReply>,
    ) -> bool {
        &&& response.responds_to(self.id@)
        &&& match written {
            Ok(()) => response.succeeds(self.id@, OkReply { ok: true }),
            Err(e) => response.fails(
                self.id@,
                error_codes::COMMAND_FAILED,
                "Write failed: "@ + e@,
            ),
        }
    }

    /// The response when the bytes were written or not.
    pub fn finish(self, written: Result<(), String>) -> (response: RpcResponse<OkReply>)
        ensures
            self.finish_gives(written, response),
            response.responds_to(self.id@),
            match written {
                Ok(()) => response.succeeds(self.id@, OkReply { ok: true }),
                Err(e) => response.fails(
                    self.id@,
                    error_codes::COMMAND_FAILED,
                    "Write failed: "@ + e@,
                ),
            },
    {
        match written {
            Ok(()) => RpcResponse::success(self.id, OkReply { ok: true }),
            Err(e) => RpcResponse::error(
                self.id,
                error_codes::COMMAND_FAILED,
                cat2("Write failed: ", e.as_str()),
            ),
        }
    }
}

/// A size to be set on a session's terminal.
pub struct ShellResizePlan {
    pub id: String,
    pub master_fd: i32,
    pub cols: u16,
    pub rows: u16,
}

/// Whether this is what [`handle_shell_resize`] gives.
pub open spec fn shell_resize_begins<S>(
    id: String,
    params: Result<ShellResizeRequest, String>,
    sessions: &Registry<ShellSession<S>>,
    r: Result<ShellResizePlan, RpcResponse<OkReply>>,
) -> bool {
    &&& r matches Err(response) ==> response.responds_to(id@)
    &&& match params {
        Ok(request) => if sessions@.contains_key(request.shell_id@) {
            &&& r matches Ok(plan)
            &&& plan.id@ == id@
            &&& plan.master_fd == sessions@[request.shell_id@].master_fd
            &&& plan.cols == request.cols
            &&& plan.rows == request.rows
        } else {
            r matches Err(response) && response.fails(
                id@,
                SHELL_ERROR,
                no_shell(request.shell_id@),
            )
        },
        Err(e) => r matches Err(response) && response.rejects_params(id@, e@),
    }
}

/// Handle `shell.resize`: resize a shell session's terminal window.
pub fn handle_shell_resize<S>(
    id: String,
    params: Result<ShellResizeRequest, String>,
    sessions: &Registry<ShellSession<S>>,
) -> (r: Result<ShellResizePlan, RpcResponse<OkReply>>)
    requires
        sessions.wf(),
    ensures
        shell_resize_begins(id, params, sessions, r),
        r matches Err(response) ==> response.responds_to(id@),
        match params {
            Ok(request) => if sessions@.contains_key(request.shell_id@) {
                &&& r matches Ok(plan)
                &&& plan.id@ == id@
                &&& plan.master_fd == sessions@[request.shell_id@].master_fd
                &&& plan.cols == request.cols
                &&& plan.rows == request.rows
            } else {
                r matches Err(response) && response.fails(
                    id@,
                    SHELL_ERROR,
                    no_shell(request.shell_id@),
                )
            },
            Err(e) => r matches Err(response) && response.rejects_params(id@, e@),
        },
{
    match params {
        Ok(request) => match sessions.get(request.shell_id.as_str()) {
            Some(session) => Ok(
                ShellResizePlan {
                    id,
                    master_fd: session.master_fd,
                    cols: request.cols,
                    rows: request.rows,
                },
            ),
            None => Err(shell_not_found(id, request.shell_id.as_str())),
        },
        Err(e) => Err(RpcResponse::invalid_params(id, e.as_str())),
    }
}

impl ShellResizePlan {
    /// Whether this is what [`Self::finish`] gives.
    pub open spec fn finish_gives(
        self,
        resized: Result<(), String>,
        response: RpcResponse<OkReply>,
    ) -> bool {
        &&& response.responds_to(self.id@)
        &&& match resized {
            Ok(()) => response.succeeds(self.id@, OkReply { ok: true }),
            Err(e) => response.fails(
                self.id@,
                error_codes::COMMAND_FAILED,
                "Resize failed: "@ + e@,
            ),
        }
    }

    /// The response when the size was set or not.
    pub fn finish(self, resized: Result<(), String>) -> (response: RpcResponse<OkReply>)
        ensures
            self.finish_gives(resized, response),
            response.responds_to(self.id@),
            match resized {
                Ok(()) => response.succeeds(self.id@, OkReply { ok: true }),
                Err(e) => response.fails(
                    self.id@,
                    error_codes::COMMAND_FAILED,
                    "Resize failed: "@ + e@,
                ),
            },
    {
        match resized {
            Ok(()) => RpcResponse::success(self.id, OkReply { ok: true }),
            Err(e) => RpcResponse::error(
                self.id,
                error_codes::COMMAND_FAILED,
                cat2("Resize failed: ", e.as_str()),
            ),
        }
    }
}

// ---------------------------------------------------------------------------
// shell.close
// ---------------------------------------------------------------------------

/// A session that is over: its reader is told to stop, its process is ended and
/// its terminal closed.
pub struct ShellTeardown<S> {
    pub shutdown: S,
    /// The process to end, if it is known.
    pub kill: Option<u32>,
    pub master_fd: i32,
}

/// Whether this is what [`handle_shell_close`] gives.
pub open spec fn shell_close_answered<S>(
    id: String,
    params: Result<ShellCloseRequest, String>,
    before: Registry<ShellSession<S>>,
    after: Registry<ShellSession<S>>,
    r: (RpcResponse<OkReply>, Option<ShellTeardown<S>>),
) -> bool {
    &&& r.0.responds_to(id@)
    &&& after.wf()
    &&& match params {
        Ok(request) => {
            &&& after@ == before@.remove(request.shell_id@)
            &&& if before@.contains_key(request.shell_id@) {
                let session = before@[request.shell_id@];
                &&& r.0.succeeds(id@, OkReply { ok: true })
                &&& r.1 matches Some(teardown)
                &&& teardown.shutdown == session.shutdown
                &&& teardown.kill == if session.child_pid > 0 {
                    Some(session.child_pid)
                } else {
                    None
                }
                &&& teardown.master_fd == session.master_fd
            } else {
                &&& r.0.fails(id@, SHELL_ERROR, no_shell(request.shell_id@))
                &&& r.1 is None
            }
        },
        Err(e) => {
            &&& r.0.rejects_params(id@, e@)
            &&& r.1 is None
            &&& after@ == before@
        },
    }
}

/// Handle `shell.close`: close a shell session.
pub fn handle_shell_close<S>(
    id: String,
    params: Result<ShellCloseRequest, String>,
    sessions: &mut Registry<ShellSession<S>>,
) -> (r: (RpcResponse<OkReply>, Option<ShellTeardown<S>>))
    requires
        old(sessions).wf(),
    ensures
        shell_close_answered(id, params, *old(sessions), *final(sessions), r),
        r.0.responds_to(id@),
        final(sessions).wf(),
        match params {
            Ok(request) => {
                &&& final(sessions)@ == old(sessions)@.remove(request.shell_id@)
                &&& if old(sessions)@.contains_key(request.shell_id@) {
                    let session = old(sessions)@[request.shell_id@];
                    &&& r.0.succeeds(id@, OkReply { ok: true })
                    &&& r.1 matches Some(teardown)
                    &&& teardown.shutdown == session.shutdown
                    &&& teardown.kill == if session.child_pid > 0 {
                        Some(session.child_pid)
                    } else {
                        None
                    }
                    &&& teardown.master_fd == session.master_fd
                } else {
                    &&& r.0.fails(id@, SHELL_ERROR, no_shell(request.shell_id@))
                    &&& r.1 is None
                }
            },
            Err(e) => {
                &&& r.0.rejects_params(id@, e@)
                &&& r.1 is None
                &&& final(sessions)@ == old(sessions)@
            },
        },
{
    match params {
        Ok(request) => match sessions.remove(request.shell_id.as_str()) {
            Some(session) => {
                let kill = if session.child_pid > 0 {
                    Some(session.child_pid)
                } else {
                    None
                };
                let teardown = ShellTeardown {
                    shutdown: session.shutdown,
                    kill,
                    master_fd: session.master_fd,
                };
                (RpcResponse::success(id, OkReply { ok: true }), Some(teardown))
            },
            None => (shell_not_found(id, request.shell_id.as_str()), None),
        },
        Err(e) => (RpcResponse::invalid_params(id, e.as_str()), None),
    }
}

} // verus!
