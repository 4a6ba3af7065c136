//! Requests by their routes.

use nobase::config::{
    AgentConfig, ConnectionConfig, HeartbeatConfig, LoggingConfig, MetricsConfig, SecurityConfig,
};
use nobase::dispatcher::{dispatch_request, DispatchContext};
use nobase::handlers::exec::HostFacts;
use nobase::handlers::shell::ShellSession;
use nobase::handlers::transfer::UploadTransfer;
use nobase::methods::{ExecRequest, RotateKeyRequest, ShellCloseRequest, ShellDataRequest};
use nobase::registry::Registry;
use nobase::rpc::{RpcRequest, RpcResponse};
use nobase::serving::{begin, Begun, Call};
use nobase::updater::{UpdateResult, UpdateStep};

type Started = Begun<f64, u8, (), ()>;

struct Agent {
    ctx: DispatchContext,
    sessions: Registry<ShellSession<()>>,
    uploads: Registry<UploadTransfer<()>>,
}

fn s(text: &str) -> String {
    text.to_string()
}

fn agent() -> Agent {
    let config = AgentConfig {
        connection: ConnectionConfig {
            gateway_url: s("wss://gw/ws"),
            api_key: s("old"),
            registration_token: s(""),
            server_id: s("srv"),
            backend_url: s(""),
        },
        heartbeat: HeartbeatConfig::default(),
        metrics: MetricsConfig::default(),
        security: SecurityConfig::default(),
        logging: LoggingConfig::default(),
    };
    Agent {
        ctx: DispatchContext { config, config_path: s("/c.toml") },
        sessions: Registry::new(),
        uploads: Registry::new(),
    }
}

fn start(agent: &mut Agent, call: Call<f64>) -> Started {
    begin(s("7"), call, "x86_64", &mut agent.ctx, &mut agent.sessions, &mut agent.uploads)
}

fn told<V>(response: &RpcResponse<V>) -> (i32, String) {
    assert_eq!((response.jsonrpc.as_str(), response.id.as_str()), ("2.0", "7"));
    assert!(response.result.is_none());
    let e = response.error.as_ref().unwrap();
    (e.code, e.message.clone())
}

fn refusal(begun: Started) -> (i32, String) {
    match begun {
        Begun::Exec(Err(r)) => told(&r),
        Begun::ShellOpen(Err(r)) => told(&r),
        Begun::ShellData(Err(r)) => told(&r),
        Begun::ShellResize(Err(r)) => told(&r),
        Begun::ShellClose((r, None)) => told(&r),
        Begun::FsList(Err(r)) => told(&r),
        Begun::FsRead(Err(r)) => told(&r),
        Begun::FsWrite(Err(r)) => told(&r),
        Begun::FsStat(Err(r)) => told(&r),
        Begun::FsMkdir(Err(r)) => told(&r),
        Begun::FsDelete(Err(r)) => told(&r),
        Begun::FsRename(Err(r)) => told(&r),
        Begun::FsSearch(Err(r)) => told(&r),
        Begun::FsUploadStart(Err(r)) => told(&r),
        Begun::FsUploadChunk(Err(r)) => told(&r),
        Begun::FsUploadEnd(Err(r)) => told(&r),
        Begun::FsDownload(Err(r)) => told(&r),
        Begun::ExecStream(Err(r)) => told(&r),
        Begun::DockerList(Err(r)) => told(&r),
        Begun::DockerStats(Err(r)) => told(&r),
        Begun::DockerInspect(Err(r)) => told(&r),
        Begun::DockerLogs(Err(r)) => told(&r),
        Begun::RotateKey(Err(r)) => told(&r),
        _ => panic!("not refused"),
    }
}

#[test]
fn every_route_refuses_parameters_that_cannot_be_read() {
    let e = || s("p");
    let calls: Vec<Call<f64>> = vec![
        Call::Exec(Err(e())),
        Call::ShellOpen(Err(e())),
        Call::ShellData(Err(e())),
        Call::ShellResize(Err(e())),
        Call::ShellClose(Err(e())),
        Call::FsList(Err(e())),
        Call::FsRead(Err(e())),
        Call::FsWrite(Err(e())),
        Call::FsStat(Err(e())),
        Call::FsMkdir(Err(e())),
        Call::FsDelete(Err(e())),
        Call::FsRename(Err(e())),
        Call::FsSearch(Err(e())),
        Call::FsUploadStart(Err(e())),
        Call::FsUploadChunk(Err(e())),
        Call::FsUploadEnd(Err(e())),
        Call::FsDownload(Err(e())),
        Call::ExecStream(Err(e())),
        Call::DockerList(Err(e())),
        Call::DockerStats(Err(e())),
        Call::DockerInspect(Err(e())),
        Call::DockerLogs(Err(e())),
        Call::RotateKey(Err(e())),
    ];
    let mut agent = agent();
    for call in calls {
        assert_eq!(refusal(start(&mut agent, call)), (-32602, s("Invalid params: p")));
    }
    assert_eq!(agent.ctx.config.connection.api_key, "old");
}

#[test]
fn routes_reach_their_handlers() {
    let mut agent = agent();
    let request = ExecRequest { command: s("uptime"), sudo: None, timeout_ms: None, env: None };
    let Begun::Exec(Ok(plan)) = start(&mut agent, Call::Exec(Ok(request))) else {
        panic!("not planned")
    };
    assert_eq!((plan.id.as_str(), plan.command.args), ("7", vec![s("-c"), s("uptime")]));
    agent.ctx.config.security.allowed_commands = vec![s("df")];
    let request = ExecRequest { command: s("uptime"), sudo: None, timeout_ms: None, env: None };
    let begun = start(&mut agent, Call::Exec(Ok(request)));
    assert_eq!(refusal(begun), (-32003, s("Command not allowed: uptime")));
    let Begun::Ping(response) = start(&mut agent, Call::Ping) else { panic!("no ping") };
    assert!(response.result.unwrap().ok);
    let facts = HostFacts {
        hostname: Some(s("h")),
        os_type: s("linux"),
        os_version: None,
        kernel: None,
        arch: s("x86_64"),
        uptime_secs: 1,
    };
    let Begun::SystemInfo(response) = start(&mut agent, Call::SystemInfo(facts)) else {
        panic!("no facts")
    };
    assert_eq!(response.result.unwrap().hostname, "h");
    let Begun::SelfUpdate { id, start: step } = start(&mut agent, Call::SelfUpdate) else {
        panic!("no update")
    };
    assert_eq!(id, "7");
    assert!(matches!(step, UpdateStep::Ended(Ok(UpdateResult::NotConfigured))));
}

#[test]
fn a_route_changes_only_what_it_is_about() {
    let mut agent = agent();
    let session = ShellSession { master_fd: 3, child_pid: 4, shutdown: () };
    let _ = agent.sessions.insert(s("sh"), session);
    let request = ShellDataRequest { shell_id: s("sh"), data: s("aGk=") };
    let Begun::ShellData(Ok(plan)) = start(&mut agent, Call::ShellData(Ok(request))) else {
        panic!("not found")
    };
    assert_eq!((plan.master_fd, plan.data), (3, b"hi".to_vec()));
    assert!(agent.sessions.contains("sh"));
    let request = ShellCloseRequest { shell_id: s("sh") };
    let Begun::ShellClose((_, Some(teardown))) = start(&mut agent, Call::ShellClose(Ok(request)))
    else {
        panic!("not closed")
    };
    assert_eq!(teardown.kill, Some(4));
    assert!(!agent.sessions.contains("sh"));
    let request = RotateKeyRequest { new_api_key: s("new") };
    let Begun::RotateKey(Ok(plan)) = start(&mut agent, Call::RotateKey(Ok(request))) else {
        panic!("not rotated")
    };
    assert_eq!(plan.save.temporary, "/c.toml.tmp");
    assert_eq!(agent.ctx.config.connection.api_key, "new");
}

#[test]
fn a_method_that_nothing_answers_is_refused_whole() {
    let response = dispatch_request(RpcRequest::new(s("7"), "nope", 0u8)).err().unwrap();
    assert_eq!(told(&response), (-32601, s("Method not found: nope")));
}
