//! Command execution, shells and streams.

use base64::Engine;
use nobase::command::CommandOutput;
use nobase::config::SecurityConfig;
use nobase::error_codes;
use nobase::handlers::exec::{
    execute_command, handle_exec, handle_exec_stream, handle_system_info, ExecOutcome, HostFacts,
};
use nobase::handlers::shell::{
    handle_shell_close, handle_shell_data, handle_shell_open, handle_shell_resize,
    shell_environment, Assignment, ReaderStep,
    ShellReader, ShellSession,
};
use nobase::methods::{
    ExecRequest, ExecStreamRequest, ShellCloseRequest, ShellDataRequest, ShellOpenRequest,
    ShellResizeRequest,
};
use nobase::registry::Registry;
use nobase::rpc::{RpcRequest, RpcResponse};
use nobase::stream::StreamChannel;
use std::collections::HashMap;

fn id() -> String {
    "7".to_string()
}

fn unrestricted() -> SecurityConfig {
    SecurityConfig::default()
}

fn error_of<V>(response: &RpcResponse<V>) -> (i32, String) {
    assert_eq!(response.jsonrpc, "2.0");
    assert_eq!(response.id, "7");
    assert!(response.result.is_none());
    let e = response.error.as_ref().unwrap();
    assert!(e.data.is_none());
    (e.code, e.message.clone())
}

fn decoded(text: &str) -> Vec<u8> {
    base64::engine::general_purpose::STANDARD.decode(text).unwrap()
}

fn output(success: bool, code: Option<i32>, stdout: &[u8], stderr: &[u8]) -> CommandOutput {
    CommandOutput { success, code, stdout: stdout.to_vec(), stderr: stderr.to_vec() }
}

#[test]
fn envelopes() {
    let ok = RpcResponse::success(id(), 5);
    assert_eq!((ok.jsonrpc.as_str(), ok.id.as_str(), ok.result), ("2.0", "7", Some(5)));
    assert!(ok.error.is_none());
    let bad: RpcResponse<u8> = RpcResponse::error(id(), -1, "x".to_string());
    assert!(bad.is_error());
    assert_eq!(error_of(&bad), (-1, "x".to_string()));
    let data = RpcResponse::error_with_data(id(), -1, "x".to_string(), 9);
    assert_eq!(data.error.unwrap().data, Some(9));
    let asked = RpcRequest::new("a".to_string(), "exec", ());
    assert_eq!((asked.id, asked.method), (Some("a".to_string()), "exec".to_string()));
    let note = RpcRequest::notification("stream.end", ());
    assert!(!note.expects_response());
    assert_eq!((note.id, note.jsonrpc), (None, "2.0".to_string()));
    assert!(RpcRequest::new("a".to_string(), "exec", ()).expects_response());
}

fn exec_request(sudo: Option<bool>, timeout_ms: Option<u64>) -> ExecRequest {
    let mut env = HashMap::new();
    env.insert("A".to_string(), "1".to_string());
    ExecRequest { command: "echo hi".to_string(), sudo, timeout_ms, env: Some(env) }
}

#[test]
fn commands_that_are_not_allowed_are_refused() {
    let mut security = unrestricted();
    security.allowed_commands = vec!["uptime".to_string(), "df -h".to_string()];
    let ask = |command: &str| {
        let mut request = exec_request(None, None);
        request.command = command.to_string();
        request
    };
    let refused = |command: &str| (-32003, format!("Command not allowed: {command}"));
    for command in ["touch /tmp/x", "uptime; id", "df", " uptime", ""] {
        let r = handle_exec(id(), Ok(ask(command)), &security).err().unwrap();
        assert_eq!(error_of(&r), refused(command));
    }
    for command in ["uptime", "df -h"] {
        let plan = handle_exec(id(), Ok(ask(command)), &security).ok().unwrap();
        assert_eq!(plan.command.args, vec!["-c", command]);
    }
    let stream = |command: &str| ExecStreamRequest {
        command: command.to_string(),
        stream_id: "s".to_string(),
        sudo: None,
    };
    let r = handle_exec_stream(id(), Ok(stream("id")), &security).err().unwrap();
    assert_eq!(error_of(&r), refused("id"));
    assert!(handle_exec_stream(id(), Ok(stream("uptime")), &security).is_ok());
}

#[test]
fn exec_plans_the_command() {
    let plan = handle_exec(id(), Ok(exec_request(None, None)), &unrestricted()).ok().unwrap();
    assert_eq!(plan.command.program, "sh");
    assert_eq!(plan.command.args, vec!["-c", "echo hi"]);
    assert_eq!(plan.timeout_ms, 30_000);
    assert_eq!(plan.command.env.unwrap()["A"], "1");
    let plan = handle_exec(id(), Ok(exec_request(Some(true), Some(5))), &unrestricted()).ok().unwrap();
    assert_eq!(plan.command.program, "sudo");
    assert_eq!(plan.timeout_ms, 5);
    let refused = handle_exec(id(), Err("bad".to_string()), &unrestricted()).err().unwrap();
    assert_eq!(error_of(&refused), (-32602, "Invalid params: bad".to_string()));
}

#[test]
fn exec_reports_how_the_command_ended() {
    let done = execute_command(id(), exec_request(None, None))
        .finish(ExecOutcome::Completed(output(false, Some(3), b"o\xffo", b"e")), 12);
    let r = done.result.unwrap();
    assert_eq!(r.stdout, "o\u{fffd}o");
    assert_eq!(r.stderr, "e");
    assert_eq!((r.exit_code, r.duration_ms), (3, 12));
    let killed = execute_command(id(), exec_request(None, None))
        .finish(ExecOutcome::Completed(output(false, None, b"", b"")), 0);
    assert_eq!(killed.result.unwrap().exit_code, -1);
    let failed = execute_command(id(), exec_request(None, None))
        .finish(ExecOutcome::Failed("gone".to_string()), 0);
    assert_eq!(
        error_of(&failed),
        (error_codes::COMMAND_FAILED, "Command execution failed: gone".to_string())
    );
    let late = execute_command(id(), exec_request(None, Some(250))).finish(ExecOutcome::TimedOut, 0);
    assert_eq!(
        error_of(&late),
        (error_codes::AGENT_TIMEOUT, "Command timed out after 250ms".to_string())
    );
}

#[test]
fn system_info_says_unknown() {
    let facts = HostFacts {
        hostname: None,
        os_type: "linux".to_string(),
        os_version: Some("12".to_string()),
        kernel: None,
        arch: "x86_64".to_string(),
        uptime_secs: 9,
    };
    let r = handle_system_info(id(), facts).result.unwrap();
    assert_eq!(r.hostname, "unknown");
    assert_eq!(r.os_version, "12");
    assert_eq!(r.kernel, "unknown");
    assert_eq!((r.os_type.as_str(), r.arch.as_str(), r.uptime_secs), ("linux", "x86_64", 9));
}

#[test]
fn exec_streams_give_the_bytes_back() {
    let request = ExecStreamRequest {
        command: "tail".to_string(),
        sudo: Some(true),
        stream_id: "s".to_string(),
    };
    let plan = handle_exec_stream(id(), Ok(request), &unrestricted()).ok().unwrap();
    assert_eq!(plan.command.args, vec!["-n", "sh", "-c", "tail"]);
    let (response, stream) = plan.on_spawn(Ok(()));
    let reply = response.result.unwrap();
    assert!(reply.streaming);
    assert_eq!(reply.stream_id, "s");
    let stream = stream.unwrap();
    let mut received = Vec::new();
    for chunk in [vec![0u8, 255, 1], b"two".to_vec()] {
        let note = stream.on_read(StreamChannel::Stderr, Ok(chunk)).unwrap();
        assert_eq!(note.method, "stream.data");
        assert!(matches!(note.params.channel, StreamChannel::Stderr));
        received.extend(decoded(&note.params.data));
    }
    assert_eq!(received, b"\x00\xff\x01two");
    assert!(stream.on_read(StreamChannel::Stdout, Ok(vec![])).is_none());
    assert!(stream.on_read(StreamChannel::Stdout, Err("x".to_string())).is_none());
    assert_eq!(stream.on_exit(Ok(Some(4))).params.exit_code, 4);
    assert_eq!(stream.on_exit(Ok(None)).params.exit_code, -1);
    let end = stream.on_exit(Err("x".to_string()));
    assert_eq!((end.method.as_str(), end.params.exit_code), ("stream.end", -1));
    assert_eq!(end.params.stream_id, "s");
}

#[test]
fn exec_stream_errors() {
    let refused = handle_exec_stream(id(), Err("p".to_string()), &unrestricted()).err().unwrap();
    assert_eq!(error_of(&refused), (-32602, "Invalid params: p".to_string()));
    let request = ExecStreamRequest {
        command: "x".to_string(),
        sudo: None,
        stream_id: "s".to_string(),
    };
    let (response, stream) =
        handle_exec_stream(id(), Ok(request), &unrestricted()).ok().unwrap().on_spawn(Err("no".to_string()));
    assert_eq!(error_of(&response), (-1, "Failed to spawn command: no".to_string()));
    assert!(stream.is_none());
}

fn open_request() -> ShellOpenRequest {
    ShellOpenRequest { shell_id: "sh1".to_string(), cols: 80, rows: 24, env: None }
}

fn opened() -> Registry<ShellSession<u8>> {
    let mut sessions = Registry::new();
    let plan = handle_shell_open(id(), Ok(open_request()), &sessions).ok().unwrap();
    let session = ShellSession { master_fd: 5, child_pid: 42, shutdown: 1u8 };
    let response = plan.on_created(Ok(session), &mut sessions);
    let r = response.result.unwrap();
    assert!(r.ok);
    assert_eq!(r.shell_id, "sh1");
    sessions
}

#[test]
fn no_variable_overrides_the_terminal() {
    let set = |name: &str, value: &str| Assignment { name: name.to_string(), value: value.to_string() };
    let list = shell_environment(vec![set("TERM", "dumb"), set("A", "1"), set("TERM", "vt100")]);
    let pairs: Vec<(&str, &str)> =
        list.iter().map(|a| (a.name.as_str(), a.value.as_str())).collect();
    assert_eq!(
        pairs,
        vec![("TERM", "dumb"), ("A", "1"), ("TERM", "vt100"), ("TERM", "xterm-256color")]
    );
    let mut env = HashMap::new();
    env.insert("TERM".to_string(), "dumb".to_string());
    let mut request = open_request();
    request.env = Some(env);
    let none: Registry<ShellSession<()>> = Registry::new();
    let plan = handle_shell_open(id(), Ok(request), &none).ok().unwrap();
    assert_eq!(plan.variables.unwrap()["TERM"], "dumb");
    assert!(plan.command.env.is_none());
}

#[test]
fn a_shell_is_opened_once() {
    let none: Registry<ShellSession<u8>> = Registry::new();
    let plan = handle_shell_open(id(), Ok(open_request()), &none).ok().unwrap();
    assert_eq!(plan.command.program, "/bin/bash");
    assert_eq!(plan.command.args, vec!["-l"]);
    assert!(plan.command.env.is_none() && plan.variables.is_none());
    assert_eq!((plan.cols, plan.rows), (80, 24));
    let sessions = opened();
    let again = handle_shell_open(id(), Ok(open_request()), &sessions).err().unwrap();
    assert_eq!(error_of(&again), (-32001, "Shell already exists: sh1".to_string()));
    let refused = handle_shell_open(id(), Err("p".to_string()), &sessions).err().unwrap();
    assert_eq!(error_of(&refused), (-32602, "Invalid params: p".to_string()));
    let mut none = none;
    let failed = plan.on_created(Err("no pty".to_string()), &mut none);
    assert_eq!(error_of(&failed), (-32003, "Failed to create shell: no pty".to_string()));
    assert!(!none.contains("sh1"));
}

#[test]
fn shell_data_is_decoded_after_the_shell_is_found() {
    let sessions = opened();
    let ask = |shell: &str, data: &str| {
        handle_shell_data(
            id(),
            Ok(ShellDataRequest { shell_id: shell.to_string(), data: data.to_string() }),
            &sessions,
        )
    };
    let plan = ask("sh1", "bHMK").ok().unwrap();
    assert_eq!(plan.data, b"ls\n");
    assert_eq!(plan.master_fd, 5);
    assert!(plan.finish(Ok(())).result.unwrap().ok);
    let lost = ask("sh2", "***").err().unwrap();
    assert_eq!(error_of(&lost), (-32001, "Shell not found: sh2".to_string()));
    let (code, message) = error_of(&ask("sh1", "***").err().unwrap());
    assert_eq!(code, -32602);
    assert_eq!(message, "Invalid base64: Invalid symbol 42, offset 0.");
    let failed = ask("sh1", "").ok().unwrap().finish(Err("EIO".to_string()));
    assert_eq!(error_of(&failed), (-32003, "Write failed: EIO".to_string()));
    let refused = handle_shell_data(id(), Err("p".to_string()), &sessions).err().unwrap();
    assert_eq!(error_of(&refused), (-32602, "Invalid params: p".to_string()));
}

#[test]
fn shells_are_resized() {
    let sessions = opened();
    let ask = |shell: &str| {
        handle_shell_resize(
            id(),
            Ok(ShellResizeRequest { shell_id: shell.to_string(), cols: 100, rows: 30 }),
            &sessions,
        )
    };
    let plan = ask("sh1").ok().unwrap();
    assert_eq!((plan.master_fd, plan.cols, plan.rows), (5, 100, 30));
    assert!(plan.finish(Ok(())).result.unwrap().ok);
    let failed = ask("sh1").ok().unwrap().finish(Err("x".to_string()));
    assert_eq!(error_of(&failed), (-32003, "Resize failed: x".to_string()));
    assert_eq!(error_of(&ask("q").err().unwrap()), (-32001, "Shell not found: q".to_string()));
    let refused = handle_shell_resize(id(), Err("p".to_string()), &sessions).err().unwrap();
    assert_eq!(error_of(&refused), (-32602, "Invalid params: p".to_string()));
}

#[test]
fn a_closed_shell_is_gone() {
    let mut sessions = opened();
    let close = || Ok(ShellCloseRequest { shell_id: "sh1".to_string() });
    let (refused, none) = handle_shell_close(id(), Err("p".to_string()), &mut sessions);
    assert_eq!(error_of(&refused), (-32602, "Invalid params: p".to_string()));
    assert!(none.is_none());
    let (response, teardown) = handle_shell_close(id(), close(), &mut sessions);
    assert!(response.result.unwrap().ok);
    let teardown = teardown.unwrap();
    assert_eq!((teardown.kill, teardown.master_fd, teardown.shutdown), (Some(42), 5, 1));
    let (again, none) = handle_shell_close(id(), close(), &mut sessions);
    assert_eq!(error_of(&again), (-32001, "Shell not found: sh1".to_string()));
    assert!(none.is_none());
    sessions.insert("sh1".to_string(), ShellSession { master_fd: 1, child_pid: 0, shutdown: 2 });
    let (_, teardown) = handle_shell_close(id(), close(), &mut sessions);
    assert_eq!(teardown.unwrap().kill, None);
}

#[test]
fn a_shell_reader_stops_when_told_or_hung_up() {
    let reader = ShellReader { shell_id: "sh1".to_string() };
    assert!(matches!(reader.on_poll(true, 1, 1), ReaderStep::Stop));
    assert!(matches!(reader.on_poll(false, -1, 0), ReaderStep::Stop));
    assert!(matches!(reader.on_poll(false, 0, 0), ReaderStep::Wait));
    assert!(matches!(reader.on_poll(false, 1, 0x11), ReaderStep::Stop));
    assert!(matches!(reader.on_poll(false, 1, 0x08), ReaderStep::Stop));
    assert!(matches!(reader.on_poll(false, 1, 0x01), ReaderStep::Read));
    let note = reader.on_read(Some(b"$ ".to_vec())).unwrap();
    assert_eq!(note.method, "shell.data");
    assert_eq!(note.params.shell_id, "sh1");
    assert_eq!(decoded(&note.params.data), b"$ ");
    assert!(reader.on_read(Some(vec![])).is_none());
    assert!(reader.on_read(None).is_none());
    let mut sessions = opened();
    assert_eq!(reader.on_stop(&mut sessions).unwrap().child_pid, 42);
    assert!(!sessions.contains("sh1"));
}
