//! Laws of commands, streams of output and shells.

use crate::command::{shell_args, shell_program};
use crate::config::SecurityConfig;
use crate::encoding::{base64_bytes, base64_text, text_in_bytes};
use crate::error_codes;
use crate::handlers::exec::{
    exec_begins, exec_stream_begins, system_info_answered, ExecOutcome, ExecPlan, ExecStreamPlan,
    HostFacts, OutputStream,
};
use crate::handlers::shell::{
    after_wait, assigned, shell_close_answered, shell_data_begins, shell_environment_gives,
    shell_open_begins, shell_resize_begins, Assignment, ReaderStep, ShellDataPlan, ShellOpenPlan,
    ShellReader, ShellResizePlan, ShellSession, ShellTeardown, SHELL_ERROR,
};
use crate::methods::{
    ExecRequest, ExecResponse, ExecStreamRequest, ShellCloseRequest, ShellDataRequest,
    ShellOpenRequest, ShellOpenResponse, ShellResizeRequest, SystemInfoResponse,
};
use crate::number::decimal;
use crate::registry::Registry;
use crate::handlers::fs::OkReply;
use crate::rpc::{RpcRequest, RpcResponse};
use crate::stream::{carries, ends, StreamChannel, StreamData, StreamEnd, StreamingReply};
use vstd::prelude::*;

verus! {

/// A permitted command is run in a shell as it was given, with `sudo` only where that
/// was asked for, in the environment that was asked for, and for no longer than was
/// asked for or half a minute. One that is not permitted is refused.
pub proof fn law_command_is_run_as_asked(
    id: String,
    params: Result<ExecRequest, String>,
    security: &SecurityConfig,
    r: Result<ExecPlan, RpcResponse<ExecResponse>>,
)
    requires
        exec_begins(id, params, security, r),
    ensures
        r is Ok <==> params is Ok && security.permits_command(params->Ok_0.command@),
        r matches Ok(plan) ==> {
            let request = params->Ok_0;
            let sudo = request.sudo == Some(true);
            &&& plan.id@ == id@
            &&& plan.command.calls(shell_program(sudo), shell_args(request.command@, sudo))
            &&& plan.command.env == request.env
            &&& request.timeout_ms matches Some(ms) ==> plan.timeout_ms == ms
            &&& request.timeout_ms is None ==> plan.timeout_ms == 30_000
        },
        params is Ok && r is Err ==> r->Err_0.fails(
            id@,
            error_codes::COMMAND_FAILED,
            "Command not allowed: "@ + params->Ok_0.command@,
        ),
        params matches Err(e) ==> r->Err_0.rejects_params(id@, e@),
{
}

/// What a command printed on each channel, the code that it exited with and how long
/// it took are answered; one that could not run and one that took too long are told
/// as errors.
pub proof fn law_command_is_answered(
    plan: ExecPlan,
    outcome: ExecOutcome,
    duration_ms: u64,
    response: RpcResponse<ExecResponse>,
)
    requires
        plan.finish_gives(outcome, duration_ms, response),
    ensures
        outcome is Completed <==> response.result is Some,
        outcome matches ExecOutcome::Completed(output) ==> {
            &&& response.answers(plan.id@)
            &&& response.payload().stdout@ == text_in_bytes(output.stdout@)
            &&& response.payload().stderr@ == text_in_bytes(output.stderr@)
            &&& output.code matches Some(code) ==> response.payload().exit_code == code
            &&& output.code is None ==> response.payload().exit_code == -1
            &&& response.payload().duration_ms == duration_ms
        },
        outcome matches ExecOutcome::Failed(e) ==> response.fails(
            plan.id@,
            error_codes::COMMAND_FAILED,
            "Command execution failed: "@ + e@,
        ),
        outcome is TimedOut ==> response.fails(
            plan.id@,
            error_codes::AGENT_TIMEOUT,
            "Command timed out after "@ + decimal(plan.timeout_ms as nat) + "ms"@,
        ),
{
}

/// Two commands that exited with different codes are answered with different codes.
pub proof fn law_exit_codes_are_answered_apart(
    plan: ExecPlan,
    a: ExecOutcome,
    b: ExecOutcome,
    ms: u64,
    x: RpcResponse<ExecResponse>,
    y: RpcResponse<ExecResponse>,
)
    requires
        plan.finish_gives(a, ms, x),
        plan.finish_gives(b, ms, y),
        a matches ExecOutcome::Completed(m) && b matches ExecOutcome::Completed(n)
            && m.code is Some && n.code is Some && m.code != n.code,
    ensures
        x.payload().exit_code != y.payload().exit_code,
{
}

/// What the host tells of itself is answered, each under its own name.
pub proof fn law_host_is_told(
    id: String,
    facts: HostFacts,
    response: RpcResponse<SystemInfoResponse>,
)
    requires
        system_info_answered(id, facts, response),
    ensures
        response.answers(id@),
        facts.hostname matches Some(t) ==> response.payload().hostname@ == t@,
        facts.hostname is None ==> response.payload().hostname@ == "unknown"@,
        response.payload().os_type@ == facts.os_type@,
        facts.os_version matches Some(t) ==> response.payload().os_version@ == t@,
        facts.os_version is None ==> response.payload().os_version@ == "unknown"@,
        facts.kernel matches Some(t) ==> response.payload().kernel@ == t@,
        facts.kernel is None ==> response.payload().kernel@ == "unknown"@,
        response.payload().arch@ == facts.arch@,
        response.payload().uptime_secs == facts.uptime_secs,
{
}

/// A command whose output is streamed is run as one whose output is answered.
pub proof fn law_streamed_command_is_run_as_asked(
    id: String,
    params: Result<ExecStreamRequest, String>,
    security: &SecurityConfig,
    r: Result<ExecStreamPlan, RpcResponse<StreamingReply>>,
)
    requires
        exec_stream_begins(id, params, security, r),
    ensures
        r is Ok <==> params is Ok && security.permits_command(params->Ok_0.command@),
        r matches Ok(plan) ==> {
            let request = params->Ok_0;
            let sudo = request.sudo == Some(true);
            &&& plan.id@ == id@
            &&& plan.stream_id@ == request.stream_id@
            &&& plan.command.calls(shell_program(sudo), shell_args(request.command@, sudo))
            &&& plan.command.env is None
        },
        params is Ok && r is Err ==> r->Err_0.fails(
            id@,
            error_codes::COMMAND_FAILED,
            "Command not allowed: "@ + params->Ok_0.command@,
        ),
        params matches Err(e) ==> r->Err_0.rejects_params(id@, e@),
{
}

/// A stream begins exactly if the command was started, and is told under the ID that
/// was asked for.
pub proof fn law_stream_begins_with_its_command(
    plan: ExecStreamPlan,
    spawned: Result<(), String>,
    r: (RpcResponse<StreamingReply>, Option<OutputStream>),
)
    requires
        plan.on_spawn_gives(spawned, r),
    ensures
        r.1 is Some <==> spawned is Ok,
        spawned is Ok ==> r.0.answers(plan.id@) && r.0.payload().streaming
            && r.0.payload().stream_id@ == plan.stream_id@ && r.1->0.stream_id@ == plan.stream_id@,
        spawned matches Err(e) ==> r.0.fails(
            plan.id@,
            error_codes::GENERAL_ERROR,
            "Failed to spawn command: "@ + e@,
        ),
{
}

/// What is read of a command goes out on its channel, whole; the stream ends with the
/// code that the command exited with.
pub proof fn law_stream_carries_output_and_code(
    stream: OutputStream,
    channel: StreamChannel,
    read: Result<Vec<u8>, String>,
    sent: Option<RpcRequest<StreamData>>,
    status: Result<Option<i32>, String>,
    note: RpcRequest<StreamEnd>,
)
    requires
        stream.on_read_gives(channel, read, sent),
        stream.on_exit_gives(status, note),
    ensures
        sent is Some <==> read is Ok && read->Ok_0@.len() > 0,
        sent matches Some(data) ==> carries(data, stream.stream_id@, channel, read->Ok_0@),
        note.params.stream_id@ == stream.stream_id@,
        note.jsonrpc@ == "2.0"@,
        note.method@ == "stream.end"@,
        note.id is None,
        status matches Ok(Some(code)) ==> note.params.exit_code == code,
        status is Err || status->Ok_0 is None ==> note.params.exit_code == -1,
{
}

/// A shell is opened under an ID that is not in use, as a login shell of the size that
/// was asked for, with the variables that were asked for.
pub proof fn law_shell_is_opened_as_asked<S>(
    id: String,
    params: Result<ShellOpenRequest, String>,
    sessions: &Registry<ShellSession<S>>,
    r: Result<ShellOpenPlan, RpcResponse<ShellOpenResponse>>,
)
    requires
        shell_open_begins(id, params, sessions, r),
    ensures
        r is Ok <==> params is Ok && !sessions@.contains_key(params->Ok_0.shell_id@),
        r matches Ok(plan) ==> {
            let request = params->Ok_0;
            &&& plan.id@ == id@
            &&& plan.shell_id@ == request.shell_id@
            &&& plan.cols == request.cols
            &&& plan.rows == request.rows
            &&& plan.command.calls("/bin/bash"@, seq!["-l"@])
            &&& plan.command.env is None
            &&& plan.variables == request.env
        },
        params is Ok && r is Err ==> r->Err_0.fails(
            id@,
            SHELL_ERROR,
            "Shell already exists: "@ + params->Ok_0.shell_id@,
        ),
        params matches Err(e) ==> r->Err_0.rejects_params(id@, e@),
{
}

/// A shell that was made is kept under its ID beside the others; one that was not made
/// changes nothing.
pub proof fn law_made_shell_is_kept<S>(
    plan: ShellOpenPlan,
    created: Result<ShellSession<S>, String>,
    before: Registry<ShellSession<S>>,
    after: Registry<ShellSession<S>>,
    response: RpcResponse<ShellOpenResponse>,
)
    requires
        plan.on_created_gives(created, before, after, response),
    ensures
        after.wf(),
        created matches Ok(session) ==> {
            &&& response.answers(plan.id@)
            &&& response.payload().ok
            &&& response.payload().shell_id@ == plan.shell_id@
            &&& after@.contains_key(plan.shell_id@)
            &&& after@[plan.shell_id@] == session
            &&& forall|other: Seq<char>|
                other != plan.shell_id@ ==> (#[trigger] after@.contains_key(other)
                    <==> before@.contains_key(other)) && (before@.contains_key(other)
                    ==> after@[other] == before@[other])
        },
        created matches Err(e) ==> after@ == before@ && response.fails(
            plan.id@,
            error_codes::COMMAND_FAILED,
            "Failed to create shell: "@ + e@,
        ),
{
}

/// The last assignment of a variable holds.
pub proof fn law_last_assignment_holds(list: Seq<Assignment>, one: Assignment, name: Seq<char>)
    ensures
        assigned(Seq::empty(), name) is None,
        one.name@ == name ==> assigned(list.push(one), name) == Some(one.value@),
        one.name@ != name ==> assigned(list.push(one), name) == assigned(list, name),
{
    assert(list.push(one).drop_last() =~= list);
}

/// A shell has the variables that were asked for and, whatever they say of it, the
/// terminal of the agent.
pub proof fn law_shell_has_its_variables_and_terminal(
    variables: Vec<Assignment>,
    r: Vec<Assignment>,
    name: Seq<char>,
)
    requires
        shell_environment_gives(variables, r),
    ensures
        r@.len() == variables@.len() + 1,
        forall|i: int| 0 <= i < variables@.len() ==> #[trigger] r@[i] == variables@[i],
        assigned(r@, "TERM"@) == Some("xterm-256color"@),
        name != "TERM"@ ==> assigned(r@, name) == assigned(variables@, name),
{
    assert forall|i: int| 0 <= i < variables@.len() implies #[trigger] r@[i] == variables@[i] by {
        assert(r@.drop_last()[i] == r@[i]);
    }
}

/// The reader of a shell stops when it is told to, when waiting fails and when the
/// terminal hangs up or fails; it reads when something is there, and waits on when
/// nothing is.
pub proof fn law_reader_goes_by_what_it_waited_for(shutdown: bool, polled: i32, events: i16)
    ensures
        shutdown ==> after_wait(shutdown, polled, events) is Stop,
        polled < 0 ==> after_wait(shutdown, polled, events) is Stop,
        !shutdown && polled == 0 ==> after_wait(shutdown, polled, events) is Wait,
        !shutdown && polled > 0 && (events & 0x10 != 0 || events & 0x08 != 0) ==> after_wait(
            shutdown,
            polled,
            events,
        ) is Stop,
        !shutdown && polled > 0 && events & 0x10 == 0 && events & 0x08 == 0 ==> after_wait(
            shutdown,
            polled,
            events,
        ) is Read,
{
    assert(events & (0x10i16 | 0x08i16) != 0 <==> events & 0x10 != 0 || events & 0x08 != 0)
        by (bit_vector);
}

/// What a shell prints goes out under its ID, whole; at its end its session is taken
/// off the list and no other.
pub proof fn law_shell_output_is_sent<S>(
    reader: ShellReader,
    shutdown: bool,
    polled: i32,
    events: i16,
    step: ReaderStep,
    read: Option<Vec<u8>>,
    note: Option<RpcRequest<crate::stream::ShellStreamData>>,
    before: Registry<ShellSession<S>>,
    after: Registry<ShellSession<S>>,
    gone: Option<ShellSession<S>>,
)
    requires
        reader.on_poll_gives(shutdown, polled, events, step),
        reader.on_read_gives(read, note),
        reader.on_stop_gives(before, after, gone),
    ensures
        step == after_wait(shutdown, polled, events),
        note is Some <==> read is Some && read->0@.len() > 0,
        note matches Some(n) ==> {
            &&& n.jsonrpc@ == "2.0"@
            &&& n.id is None
            &&& n.method@ == "shell.data"@
            &&& n.params.shell_id@ == reader.shell_id@
            &&& n.params.data@ == base64_text(read->0@)
            &&& base64_bytes(n.params.data@) == Ok::<Seq<u8>, Seq<char>>(read->0@)
        },
        after.wf(),
        gone is Some <==> before@.contains_key(reader.shell_id@),
        gone matches Some(session) ==> session == before@[reader.shell_id@],
        after@ == before@.remove(reader.shell_id@),
{
}

/// What is typed goes to the terminal of the shell that it is meant for, decoded.
pub proof fn law_typed_bytes_reach_their_shell<S>(
    id: String,
    params: Result<ShellDataRequest, String>,
    sessions: &Registry<ShellSession<S>>,
    r: Result<ShellDataPlan, RpcResponse<OkReply>>,
)
    requires
        shell_data_begins(id, params, sessions, r),
    ensures
        r is Ok <==> params is Ok && sessions@.contains_key(params->Ok_0.shell_id@)
            && base64_bytes(params->Ok_0.data@) is Ok,
        r matches Ok(plan) ==> {
            &&& plan.id@ == id@
            &&& plan.master_fd == sessions@[params->Ok_0.shell_id@].master_fd
            &&& base64_bytes(params->Ok_0.data@) == Ok::<Seq<u8>, Seq<char>>(plan.data@)
        },
        params is Ok && !sessions@.contains_key(params->Ok_0.shell_id@) ==> r->Err_0.fails(
            id@,
            SHELL_ERROR,
            "Shell not found: "@ + params->Ok_0.shell_id@,
        ),
        params is Ok && sessions@.contains_key(params->Ok_0.shell_id@) ==> (base64_bytes(
            params->Ok_0.data@,
        ) matches Err(e) ==> r->Err_0.fails(
            id@,
            error_codes::INVALID_PARAMS,
            "Invalid base64: "@ + e,
        )),
        params matches Err(e) ==> r->Err_0.rejects_params(id@, e@),
{
}

/// A shell is given the size that was asked for: the columns as columns and the rows
/// as rows.
pub proof fn law_shell_is_resized_as_asked<S>(
    id: String,
    params: Result<ShellResizeRequest, String>,
    sessions: &Registry<ShellSession<S>>,
    r: Result<ShellResizePlan, RpcResponse<OkReply>>,
)
    requires
        shell_resize_begins(id, params, sessions, r),
    ensures
        r is Ok <==> params is Ok && sessions@.contains_key(params->Ok_0.shell_id@),
        r matches Ok(plan) ==> {
            &&& plan.id@ == id@
            &&& plan.master_fd == sessions@[params->Ok_0.shell_id@].master_fd
            &&& plan.cols == params->Ok_0.cols
            &&& plan.rows == params->Ok_0.rows
        },
        params is Ok && r is Err ==> r->Err_0.fails(
            id@,
            SHELL_ERROR,
            "Shell not found: "@ + params->Ok_0.shell_id@,
        ),
        params matches Err(e) ==> r->Err_0.rejects_params(id@, e@),
{
}

/// What was written or resized is confirmed, and a failure is told as what it is.
pub proof fn law_shell_steps_are_answered(
    data: ShellDataPlan,
    written: Result<(), String>,
    a: RpcResponse<OkReply>,
    size: ShellResizePlan,
    resized: Result<(), String>,
    b: RpcResponse<OkReply>,
)
    requires
        data.finish_gives(written, a),
        size.finish_gives(resized, b),
    ensures
        written is Ok ==> a.answers(data.id@) && a.payload().ok,
        written matches Err(e) ==> a.fails(
            data.id@,
            error_codes::COMMAND_FAILED,
            "Write failed: "@ + e@,
        ),
        resized is Ok ==> b.answers(size.id@) && b.payload().ok,
        resized matches Err(e) ==> b.fails(
            size.id@,
            error_codes::COMMAND_FAILED,
            "Resize failed: "@ + e@,
        ),
{
}

/// Closing a shell takes it off the list, tells its reader to stop, ends its process
/// if it has one and closes its terminal; the other shells stay.
pub proof fn law_closed_shell_is_taken_down<S>(
    id: String,
    params: Result<ShellCloseRequest, String>,
    before: Registry<ShellSession<S>>,
    after: Registry<ShellSession<S>>,
    r: (RpcResponse<OkReply>, Option<ShellTeardown<S>>),
)
    requires
        shell_close_answered(id, params, before, after, r),
    ensures
        after.wf(),
        r.1 is Some <==> params is Ok && before@.contains_key(params->Ok_0.shell_id@),
        r.1 matches Some(teardown) ==> {
            let session = before@[params->Ok_0.shell_id@];
            &&& r.0.answers(id@)
            &&& r.0.payload().ok
            &&& teardown.shutdown == session.shutdown
            &&& teardown.master_fd == session.master_fd
            &&& session.child_pid > 0 ==> teardown.kill == Some(session.child_pid)
            &&& session.child_pid <= 0 ==> teardown.kill is None
            &&& after@ == before@.remove(params->Ok_0.shell_id@)
        },
        params is Ok && r.1 is None ==> r.0.fails(
            id@,
            SHELL_ERROR,
            "Shell not found: "@ + params->Ok_0.shell_id@,
        ) && after@ == before@,
        params matches Err(e) ==> r.0.rejects_params(id@, e@) && after@ == before@,
{
    if params is Ok && r.1 is None {
        assert(after@ =~= before@);
    }
}

} // verus!
