//! Command execution: one-shot commands, streamed commands, and `system.info`.

use crate::command::{exit_code, flag, is_set, reported_code, shell_args, shell_command};
use crate::command::{shell_program, CommandOutput, CommandSpec, NO_EXIT_CODE};
use crate::config::SecurityConfig;
use crate::encoding::{bytes_to_text, text_in_bytes};
use crate::error_codes;
use crate::methods::{ExecRequest, ExecResponse, ExecStreamRequest, SystemInfoResponse};
use crate::number::{decimal, to_decimal};
use crate::rpc::{RpcRequest, RpcResponse};
use crate::stream::{data_notification, end_notification, ends, StreamChannel, StreamData};
use crate::stream::{StreamEnd, StreamingReply};
use crate::text::{cat2, cat3};
use vstd::prelude::*;
use vstd::string::StringExecFns;

verus! {

/// How long a command may run when the request does not say.
pub const DEFAULT_TIMEOUT_MS: u64 = 30_000;

/// A command to run, for at most so many milliseconds.
pub struct ExecPlan {
    pub id: String,
    pub command: CommandSpec,
    pub timeout_ms: u64,
}

/// How a command ended.
pub enum ExecOutcome {
    /// It ran to its end.
    Completed(CommandOutput),
    /// It could not be run.
    Failed(String),
    /// It did not end in time.
    TimedOut,
}

impl ExecPlan {
    /// Whether this is what the request asks for: the command as given, as root
    /// if the request says so, with the request's variables and timeout.
    pub open spec fn runs(self, id: Seq<char>, request: ExecRequest) -> bool {
        &&& self.id@ == id
        &&& self.command.calls(
            shell_program(flag(request.sudo)),
            shell_args(request.command@, flag(request.sudo)),
        )
        &&& self.command.env == request.env
        &&& self.timeout_ms == match request.timeout_ms {
            Some(ms) => ms,
            None => DEFAULT_TIMEOUT_MS,
        }
    }
}

/// The message that the settings do not permit a command.
pub open spec fn refused_command(command: Seq<char>) -> Seq<char> {
    "Command not allowed: "@ + command
}

/// The error response to a command that the settings do not permit.
fn refuse_command<V>(id: String, command: &str) -> (response: RpcResponse<V>)
    ensures
        response.fails(id@, error_codes::COMMAND_FAILED, refused_command(command@)),
{
    RpcResponse::error(id, error_codes::COMMAND_FAILED, cat2("Command not allowed: ", command))
}

/// Whether this is what [`handle_exec`] gives.
pub open spec fn exec_begins(
    id: String,
    params: Result<ExecRequest, String>,
    security: &SecurityConfig,
    r: Result<ExecPlan, RpcResponse<ExecResponse>>,
) -> bool {
    &&& r matches Err(response) ==> response.responds_to(id@)
    &&& match params {
        Ok(request) if !security.permits_command(request.command@) => r matches Err(response)
            && response.fails(
            id@,
            error_codes::COMMAND_FAILED,
            refused_command(request.command@),
        ),
        Ok(request) => r matches Ok(plan) && plan.runs(id@, request),
        Err(e) => r matches Err(response) && response.rejects_params(id@, e@),
    }
}

/// Handle `exec`, whose parameters could be read or not. A command that the
/// settings do not permit is not run.
pub fn handle_exec(
    id: String,
    params: Result<ExecRequest, String>,
    security: &SecurityConfig,
) -> (r: Result<ExecPlan, RpcResponse<ExecResponse>>)
    ensures
        exec_begins(id, params, security, r),
        r matches Err(response) ==> response.responds_to(id@),
        match params {
            Ok(request) if !security.permits_command(request.command@) => r matches Err(response)
                && response.fails(
                id@,
                error_codes::COMMAND_FAILED,
                refused_command(request.command@),
            ),
            Ok(request) => r matches Ok(plan) && plan.runs(id@, request),
            Err(e) => r matches Err(response) && response.rejects_params(id@, e@),
        },
{
    match params {
        Ok(request) => if security.allows_command(request.command.as_str()) {
            Ok(execute_command(id, request))
        } else {
            Err(refuse_command(id, request.command.as_str()))
        },
        Err(e) => Err(RpcResponse::invalid_params(id, e.as_str())),
    }
}

/// The command that the request stands for.
pub fn execute_command(id: String, request: ExecRequest) -> (plan: ExecPlan)
    ensures
        plan.runs(id@, request),
{
    let mut command = shell_command(request.command.as_str(), is_set(request.sudo));
    command.env = request.env;
    let timeout_ms = match request.timeout_ms {
        Some(ms) => ms,
        None => DEFAULT_TIMEOUT_MS,
    };
    ExecPlan { id, command, timeout_ms }
}

impl ExecPlan {
    /// Whether this is what [`Self::finish`] gives.
    pub open spec fn finish_gives(
        self,
        outcome: ExecOutcome,
        duration_ms: u64,
        response: RpcResponse<ExecResponse>,
    ) -> bool {
        &&& response.responds_to(self.id@)
        &&& match outcome {
            ExecOutcome::Completed(output) => {
                &&& response.answers(self.id@)
                &&& response.payload().stdout@ == text_in_bytes(output.stdout@)
                &&& response.payload().stderr@ == text_in_bytes(output.stderr@)
                &&& response.payload().exit_code == reported_code(output.code)
                &&& response.payload().duration_ms == duration_ms
            },
            ExecOutcome::Failed(e) => response.fails(
                self.id@,
                error_codes::COMMAND_FAILED,
                "Command execution failed: "@ + e@,
            ),
            ExecOutcome::TimedOut => response.fails(
                self.id@,
                error_codes::AGENT_TIMEOUT,
                "Command timed out after "@ + decimal(self.timeout_ms as nat) + "ms"@,
            ),
        }
    }

    /// The response to a command that ended so, after so many milliseconds.
    pub fn finish(self, outcome: ExecOutcome, duration_ms: u64) -> (response: RpcResponse<
        ExecResponse,
    >)
        ensures
            self.finish_gives(outcome, duration_ms, response),
            response.responds_to(self.id@),
            match outcome {
                ExecOutcome::Completed(output) => {
                    &&& response.answers(self.id@)
                    &&& response.payload().stdout@ == text_in_bytes(output.stdout@)
                    &&& response.payload().stderr@ == text_in_bytes(output.stderr@)
                    &&& response.payload().exit_code == reported_code(output.code)
                    &&& response.payload().duration_ms == duration_ms
                },
                ExecOutcome::Failed(e) => response.fails(
                    self.id@,
                    error_codes::COMMAND_FAILED,
                    "Command execution failed: "@ + e@,
                ),
                ExecOutcome::TimedOut => response.fails(
                    self.id@,
                    error_codes::AGENT_TIMEOUT,
                    "Command timed out after "@ + decimal(self.timeout_ms as nat) + "ms"@,
                ),
            },
    {
        match outcome {
            ExecOutcome::Completed(output) => RpcResponse::success(
                self.id,
                ExecResponse {
                    stdout: bytes_to_text(&output.stdout),
                    stderr: bytes_to_text(&output.stderr),
                    exit_code: exit_code(output.code),
                    duration_ms,
                },
            ),
            ExecOutcome::Failed(e) => RpcResponse::error(
                self.id,
                error_codes::COMMAND_FAILED,
                cat2("Command execution failed: ", e.as_str()),
            ),
            ExecOutcome::TimedOut => {
                let ms = to_decimal(self.timeout_ms);
                RpcResponse::error(
                    self.id,
                    error_codes::AGENT_TIMEOUT,
                    cat3("Command timed out after ", ms.as_str(), "ms"),
                )
            },
        }
    }
}

// ---------------------------------------------------------------------------
// System information
// ---------------------------------------------------------------------------

/// What the host tells of itself; a part that it does not tell is absent.
pub struct HostFacts {
    pub hostname: Option<String>,
    pub os_type: String,
    pub os_version: Option<String>,
    pub kernel: Option<String>,
    pub arch: String,
    pub uptime_secs: u64,
}

/// A text, or "unknown" where there is none.
pub open spec fn known(text: Option<String>) -> Seq<char> {
    match text {
        Some(t) => t@,
        None => "unknown"@,
    }
}

/// A text, or "unknown" where there is none.
pub fn or_unknown(text: Option<String>) -> (t: String)
    ensures
        t@ == known(text),
{
    match text {
        Some(t) => t,
        None => String::from_str("unknown"),
    }
}

/// Whether this is what [`handle_system_info`] gives.
pub open spec fn system_info_answered(
    id: String,
    facts: HostFacts,
    response: RpcResponse<SystemInfoResponse>,
) -> bool {
    &&& response.responds_to(id@)
    &&& response.answers(id@)
    &&& response.payload().hostname@ == known(facts.hostname)
    &&& response.payload().os_type@ == facts.os_type@
    &&& response.payload().os_version@ == known(facts.os_version)
    &&& response.payload().kernel@ == known(facts.kernel)
    &&& response.payload().arch@ == facts.arch@
    &&& response.payload().uptime_secs == facts.uptime_secs
}

/// Handle `system.info`: structured system information.
pub fn handle_system_info(id: String, facts: HostFacts) -> (response: RpcResponse<
    SystemInfoResponse,
>)
    ensures
        system_info_answered(id, facts, response),
        response.responds_to(id@),
        response.answers(id@),
        response.payload().hostname@ == known(facts.hostname),
        response.payload().os_type@ == facts.os_type@,
        response.payload().os_version@ == known(facts.os_version),
        response.payload().kernel@ == known(facts.kernel),
        response.payload().arch@ == facts.arch@,
        response.payload().uptime_secs == facts.uptime_secs,
{
    RpcResponse::success(
        id,
        SystemInfoResponse {
            hostname: or_unknown(facts.hostname),
            os_type: facts.os_type,
            os_version: or_unknown(facts.os_version),
            kernel: or_unknown(facts.kernel),
            arch: facts.arch,
            uptime_secs: facts.uptime_secs,
        },
    )
}

// ---------------------------------------------------------------------------
// Streaming
// ---------------------------------------------------------------------------

/// A command whose output is to be streamed.
pub struct ExecStreamPlan {
    pub id: String,
    pub stream_id: String,
    pub command: CommandSpec,
}

/// The output of a command that runs.
pub struct OutputStream {
    pub stream_id: String,
}

/// Whether this is what [`handle_exec_stream`] gives.
pub open spec fn exec_stream_begins(
    id: String,
    params: Result<ExecStreamRequest, String>,
    security: &SecurityConfig,
    r: Result<ExecStreamPlan, RpcResponse<StreamingReply>>,
) -> bool {
    &&& r matches Err(response) ==> response.responds_to(id@)
    &&& match params {
        Ok(request) if !security.permits_command(request.command@) => r matches Err(response)
            && response.fails(
            id@,
            error_codes::COMMAND_FAILED,
            refused_command(request.command@),
        ),
        Ok(request) => {
            &&& r matches Ok(plan)
            &&& plan.id@ == id@
            &&& plan.stream_id@ == request.stream_id@
            &&& plan.command.calls(
                shell_program(flag(request.sudo)),
                shell_args(request.command@, flag(request.sudo)),
            )
            &&& plan.command.env is None
        },
        Err(e) => r matches Err(response) && response.rejects_params(id@, e@),
    }
}

/// Handle `exec.stream`: run a command with real-time streaming output. A command
/// that the settings do not permit is not run.
pub fn handle_exec_stream(
    id: String,
    params: Result<ExecStreamRequest, String>,
    security: &SecurityConfig,
) -> (r: Result<ExecStreamPlan, RpcResponse<StreamingReply>>)
    ensures
        exec_stream_begins(id, params, security, r),
        r matches Err(response) ==> response.responds_to(id@),
        match params {
            Ok(request) if !security.permits_command(request.command@) => r matches Err(response)
                && response.fails(
                id@,
                error_codes::COMMAND_FAILED,
                refused_command(request.command@),
            ),
            Ok(request) => {
                &&& r matches Ok(plan)
                &&& plan.id@ == id@
                &&& plan.stream_id@ == request.stream_id@
                &&& plan.command.calls(
                    shell_program(flag(request.sudo)),
                    shell_args(request.command@, flag(request.sudo)),
                )
                &&& plan.command.env is None
            },
            Err(e) => r matches Err(response) && response.rejects_params(id@, e@),
        },
{
    match params {
        Ok(request) => {
            if !security.allows_command(request.command.as_str()) {
                return Err(refuse_command(id, request.command.as_str()));
            }
            let command = shell_command(request.command.as_str(), is_set(request.sudo));
            Ok(ExecStreamPlan { id, stream_id: request.stream_id, command })
        },
        Err(e) => Err(RpcResponse::invalid_params(id, e.as_str())),
    }
}

impl ExecStreamPlan {
    /// Whether this is what [`Self::on_spawn`] gives.
    pub open spec fn on_spawn_gives(
        self,
        spawned: Result<(), String>,
        r: (RpcResponse<StreamingReply>, Option<OutputStream>),
    ) -> bool {
        &&& r.0.responds_to(self.id@)
        &&& match spawned {
            Ok(()) => {
                &&& r.0.answers(self.id@)
                &&& r.0.payload().streaming
                &&& r.0.payload().stream_id@ == self.stream_id@
                &&& r.1 matches Some(stream) && stream.stream_id@ == self.stream_id@
            },
            Err(e) => {
                &&& r.0.fails(
                    self.id@,
                    error_codes::GENERAL_ERROR,
                    "Failed to spawn command: "@ + e@,
                )
                &&& r.1 is None
            },
        }
    }

    /// The response once the command was started, or could not be. The output
    /// follows in notifications.
    pub fn on_spawn(self, spawned: Result<(), String>) -> (r: (
        RpcResponse<StreamingReply>,
        Option<OutputStream>,
    ))
        ensures
            self.on_spawn_gives(spawned, r),
            r.0.responds_to(self.id@),
            match spawned {
                Ok(()) => {
                    &&& r.0.answers(self.id@)
                    &&& r.0.payload().streaming
                    &&& r.0.payload().stream_id@ == self.stream_id@
                    &&& r.1 matches Some(stream) && stream.stream_id@ == self.stream_id@
                },
                Err(e) => {
                    &&& r.0.fails(
                        self.id@,
                        error_codes::GENERAL_ERROR,
                        "Failed to spawn command: "@ + e@,
                    )
                    &&& r.1 is None
                },
            },
    {
        match spawned {
            Ok(()) => {
                let reply = StreamingReply { streaming: true, stream_id: self.stream_id.clone() };
                (
                    RpcResponse::success(self.id, reply),
                    Some(OutputStream { stream_id: self.stream_id }),
                )
            },
            Err(e) => (
                RpcResponse::error(
                    self.id,
                    error_codes::GENERAL_ERROR,
                    cat2("Failed to spawn command: ", e.as_str()),
                ),
                None,
            ),
        }
    }
}

impl OutputStream {
    /// Whether this is what [`Self::on_read`] gives.
    pub open spec fn on_read_gives(
        self,
        channel: StreamChannel,
        read: Result<Vec<u8>, String>,
        r: Option<RpcRequest<StreamData>>,
    ) -> bool {
        &&& match read {
            Ok(bytes) if bytes@.len() > 0 => r matches Some(note) && crate::stream::carries(
                note,
                self.stream_id@,
                channel,
                bytes@,
            ),
            _ => r is None,
        }
    }

    /// What to send after a read from the command's output, if the reading is to
    /// go on: it stops at the end of the output, where the read gives no bytes,
    /// and where the read fails.
    pub fn on_read(&self, channel: StreamChannel, read: Result<Vec<u8>, String>) -> (r: Option<
        RpcRequest<StreamData>,
    >)
        ensures
            self.on_read_gives(channel, read, r),
            match read {
                Ok(bytes) if bytes@.len() > 0 => r matches Some(note) && crate::stream::carries(
                    note,
                    self.stream_id@,
                    channel,
                    bytes@,
                ),
                _ => r is None,
            },
    {
        match read {
            Ok(bytes) => {
                if bytes.len() == 0 {
                    None
                } else {
                    Some(data_notification(self.stream_id.as_str(), channel, &bytes))
                }
            },
            Err(_) => None,
        }
    }

    /// Whether this is what [`Self::on_exit`] gives.
    pub open spec fn on_exit_gives(
        self,
        status: Result<Option<i32>, String>,
        note: RpcRequest<StreamEnd>,
    ) -> bool {
        &&& ends(
            note,
            self.stream_id@,
            match status {
                Ok(code) => reported_code(code),
                Err(_) => NO_EXIT_CODE,
            },
        )
    }

    /// What to send when the command has ended with this exit status, or its
    /// status could not be told.
    pub fn on_exit(&self, status: Result<Option<i32>, String>) -> (note: RpcRequest<StreamEnd>)
        ensures
            self.on_exit_gives(status, note),
            ends(
                note,
                self.stream_id@,
                match status {
                    Ok(code) => reported_code(code),
                    Err(_) => NO_EXIT_CODE,
                },
            ),
    {
        let code = match status {
            Ok(code) => exit_code(code),
            Err(_) => NO_EXIT_CODE,
        };
        end_notification(self.stream_id.as_str(), code)
    }
}

} // verus!
