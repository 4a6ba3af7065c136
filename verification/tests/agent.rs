//! Dispatching, configuration, the connection, self-update and subcommands.

use nobase::cli::{
    leftovers, logs_command, passed_code, reload_command, root_required, service_command, uninstall_commands,
    update_report, ServiceAction,
};
use nobase::clock::Moment;
use nobase::config::{
    AgentConfig, ConfigFile, ConnectionConfig, HeartbeatConfig, LoggingConfig, MetricsConfig,
    SecurityConfig,
};
use nobase::connection::{
    collect, collect_at, connection_result, extract_host, first_request, handle_response, handshake, heartbeat, heartbeat_at, on_frame,
    push_limit, upgrade_headers, AfterSend, Backoff, CleanupClock, ConnectionEnd, Frame, FrameAction, Handshake,
    HostIdentity, PushStep, Pusher, ResponseAction,
};
use nobase::dispatcher::{
    dispatch_request, handle_ping, handle_ping_at, handle_rotate_key, handle_self_update, route,
    start_self_update, DispatchContext, Route,
};
use nobase::encoding::sha256_of;
use nobase::methods::{AgentRegisterResponse, RotateKeyRequest};
use nobase::metrics::MetricsPayload;
use nobase::metrics_buffer::{BufferedMetric, MetricsBuffer};
use nobase::rpc::{RpcMessage, RpcRequest, RpcResponse};
use nobase::storage::FileAction;
use nobase::updater::{
    check_and_update, CurrentPlan, HttpReply, ReplaceStep, UpdateOutcome, UpdateResult, UpdateStep,
};

fn s(text: &str) -> String {
    text.to_string()
}

fn config(api_key: &str, token: &str) -> AgentConfig {
    AgentConfig {
        connection: ConnectionConfig {
            gateway_url: s("wss://agent.nobase.dev/agent/ws"),
            api_key: s(api_key),
            registration_token: s(token),
            server_id: s("srv"),
            backend_url: s("https://agent.nobase.dev/"),
        },
        heartbeat: HeartbeatConfig::default(),
        metrics: MetricsConfig::default(),
        security: SecurityConfig::default(),
        logging: LoggingConfig::default(),
    }
}

fn error_of<V>(response: &RpcResponse<V>) -> (i32, String) {
    let e = response.error.as_ref().unwrap();
    (e.code, e.message.clone())
}

#[test]
fn defaults_are_set() {
    let c = config("k", "");
    assert_eq!((c.heartbeat.interval_secs, c.heartbeat.reconnect_max_delay_secs), (30, 300));
    assert_eq!((c.metrics.collection_interval_secs, c.metrics.push_interval_secs), (1, 5));
    assert!(c.metrics.include_docker && c.metrics.include_gpu);
    assert_eq!((c.metrics.buffer_retention_hours, c.metrics.backfill_chunk_size), (24, 300));
    assert_eq!(c.metrics.buffer_path, "/var/lib/nobase/metrics.db");
    assert!(c.security.allowed_commands.is_empty() && c.security.allowed_paths.is_empty());
    assert_eq!(c.security.max_file_size_mb, 100);
    assert_eq!((c.logging.level.as_str(), c.logging.format.as_str()), ("info", "text"));
    assert_eq!((c.logging.max_size_mb, c.logging.max_files), (50, 3));
    assert!(c.logging.file.is_none());
}

#[test]
fn configurations_are_validated() {
    let load = |file| AgentConfig::load("/etc/x.toml", file);
    assert_eq!(load(ConfigFile::Missing).err().unwrap(), "Config file not found: /etc/x.toml");
    assert_eq!(load(ConfigFile::Unusable(s("bad"))).err().unwrap(), "bad");
    let mut c = config("k", "");
    c.connection.gateway_url = s("");
    assert_eq!(load(ConfigFile::Parsed(c)).err().unwrap(), "connection.gateway_url is required");
    assert_eq!(
        load(ConfigFile::Parsed(config("", ""))).err().unwrap(),
        "Either connection.api_key or connection.registration_token is required"
    );
    assert_eq!(load(ConfigFile::Parsed(config("k", ""))).unwrap().connection.api_key, "k");
    assert!(load(ConfigFile::Parsed(config("", "t"))).is_ok());
}

#[test]
fn credentials_clear_the_token() {
    let mut c = config("", "t");
    assert!(c.needs_registration());
    c.set_credentials(s("s1"), s("k1"));
    assert!(!c.needs_registration());
    assert_eq!(c.connection.server_id, "s1");
    assert_eq!(c.connection.api_key, "k1");
    assert_eq!(c.connection.registration_token, "");
    let plan = c.save("/etc/nobase/agent.toml");
    assert_eq!(plan.temporary, "/etc/nobase/agent.toml.tmp");
    assert_eq!(plan.path, "/etc/nobase/agent.toml");
    assert_eq!(c.save("/etc/agent").temporary, "/etc/agent.toml.tmp");
    assert!(AgentConfig::load("x", ConfigFile::Parsed(c)).is_ok());
}

#[test]
fn methods_are_routed() {
    assert!(matches!(route("exec"), Some(Route::Exec)));
    assert!(matches!(route("agent.heartbeat"), Some(Route::Ping)));
    assert!(matches!(route("heartbeat"), Some(Route::Ping)));
    assert!(matches!(route("ping"), Some(Route::Ping)));
    assert!(matches!(route("system.info"), Some(Route::SystemInfo)));
    assert!(matches!(route("shell.open"), Some(Route::ShellOpen)));
    assert!(matches!(route("shell.data"), Some(Route::ShellData)));
    assert!(matches!(route("shell.resize"), Some(Route::ShellResize)));
    assert!(matches!(route("shell.close"), Some(Route::ShellClose)));
    assert!(matches!(route("fs.list"), Some(Route::FsList)));
    assert!(matches!(route("fs.read"), Some(Route::FsRead)));
    assert!(matches!(route("fs.write"), Some(Route::FsWrite)));
    assert!(matches!(route("fs.stat"), Some(Route::FsStat)));
    assert!(matches!(route("fs.mkdir"), Some(Route::FsMkdir)));
    assert!(matches!(route("fs.delete"), Some(Route::FsDelete)));
    assert!(matches!(route("fs.rename"), Some(Route::FsRename)));
    assert!(matches!(route("fs.search"), Some(Route::FsSearch)));
    assert!(matches!(route("fs.upload.start"), Some(Route::FsUploadStart)));
    assert!(matches!(route("fs.upload.chunk"), Some(Route::FsUploadChunk)));
    assert!(matches!(route("fs.upload.end"), Some(Route::FsUploadEnd)));
    assert!(matches!(route("fs.download"), Some(Route::FsDownload)));
    assert!(matches!(route("metrics.collect"), Some(Route::MetricsCollect)));
    assert!(matches!(route("exec.stream"), Some(Route::ExecStream)));
    assert!(matches!(route("docker.list"), Some(Route::DockerList)));
    assert!(matches!(route("docker.stats"), Some(Route::DockerStats)));
    assert!(matches!(route("docker.inspect"), Some(Route::DockerInspect)));
    assert!(matches!(route("docker.logs"), Some(Route::DockerLogs)));
    assert!(matches!(route("rotate_key"), Some(Route::RotateKey)));
    assert!(matches!(route("self_update"), Some(Route::SelfUpdate)));
    assert!(route("fs").is_none());
    let mut request = RpcRequest::new(s("9"), "system.info", 5);
    let d = dispatch_request(request.clone()).ok().unwrap();
    assert_eq!((d.id.as_str(), d.params), ("9", 5));
    assert!(matches!(d.route, Route::SystemInfo));
    request.id = None;
    request.method = s("nope");
    let response = dispatch_request(request).err().unwrap();
    assert_eq!(response.id, "");
    assert_eq!(error_of(&response), (-32601, s("Method not found: nope")));
}

#[test]
fn pings_tell_the_time() {
    let r = handle_ping_at(s("1"), Moment { secs: 0, nanos: 0 }).result.unwrap();
    assert!(r.ok);
    assert_eq!(r.timestamp, "1970-01-01T00:00:00+00:00");
    let r = handle_ping(s("1")).result.unwrap();
    assert!(chrono::DateTime::parse_from_rfc3339(&r.timestamp).is_ok());
    let note = heartbeat_at(Moment { secs: 1, nanos: 0 });
    assert_eq!(note.method, "agent.heartbeat");
    assert_eq!(note.params.timestamp, "1970-01-01T00:00:01+00:00");
    assert!(heartbeat().id.is_none());
}

#[test]
fn keys_are_rotated() {
    let mut ctx = DispatchContext { config: config("old", ""), config_path: s("/c.toml") };
    let refused = handle_rotate_key(s("1"), Err(s("p")), &mut ctx).err().unwrap();
    assert_eq!(error_of(&refused), (-32602, s("Invalid params: p")));
    assert_eq!(ctx.config.connection.api_key, "old");
    let ask = || Ok(RotateKeyRequest { new_api_key: s("new") });
    let plan = handle_rotate_key(s("1"), ask(), &mut ctx).ok().unwrap();
    assert_eq!(ctx.config.connection.api_key, "new");
    assert_eq!(plan.save.temporary, "/c.toml.tmp");
    assert!(plan.finish(Ok(())).result.unwrap().ok);
    let plan = handle_rotate_key(s("1"), ask(), &mut ctx).ok().unwrap();
    assert_eq!(
        error_of(&plan.finish(Err(s("full")))),
        (-32000, s("Failed to save new key: full"))
    );
}

#[test]
fn hosts_are_extracted() {
    assert_eq!(extract_host("wss://agent.nobase.dev/agent/ws"), "agent.nobase.dev");
    assert_eq!(extract_host("ws://localhost:8080/x/y"), "localhost:8080");
    assert_eq!(extract_host("example.com"), "example.com");
    assert_eq!(extract_host(""), "");
    let headers = upgrade_headers("wss://h/p", "key==");
    let pairs: Vec<(&str, &str)> =
        headers.iter().map(|h| (h.name.as_str(), h.value.as_str())).collect();
    assert_eq!(
        pairs,
        vec![
            ("Host", "h"),
            ("Connection", "Upgrade"),
            ("Upgrade", "websocket"),
            ("Sec-WebSocket-Version", "13"),
            ("Sec-WebSocket-Key", "key=="),
        ]
    );
}

fn host() -> HostIdentity {
    HostIdentity {
        hostname: s("h"),
        os_type: s("linux"),
        os_version: s("12"),
        agent_version: s("0.1.0"),
        arch: s("x86_64"),
    }
}

#[test]
fn the_first_request_registers_or_reconnects() {
    let Handshake::Register(r) = first_request(&config("", "tok"), &host(), s("i")) else {
        panic!("reconnects")
    };
    assert_eq!((r.method.as_str(), r.id.unwrap().as_str()), ("agent.register", "i"));
    assert_eq!(r.params.registration_token, "tok");
    assert_eq!((r.params.os_type.as_str(), r.params.arch.as_str()), ("linux", "x86_64"));
    let mut c = config("", "tok");
    c.set_credentials(s("s1"), s("k1"));
    let Handshake::Reconnect(r) = handshake(&c, &host()) else { panic!("registers") };
    assert_eq!(r.method, "agent.reconnect");
    assert_eq!((r.params.api_key.as_str(), r.params.server_id.as_str()), ("k1", "s1"));
    assert_eq!(r.params.hostname, "h");
    let first = r.id.unwrap();
    assert_eq!(first.len(), 36);
    let Handshake::Reconnect(r) = handshake(&c, &host()) else { panic!("registers") };
    assert_ne!(r.id.unwrap(), first);
}

#[test]
fn registrations_are_kept_and_refusals_end_the_agent() {
    let mut c = config("", "tok");
    let given = || Some(AgentRegisterResponse { server_id: s("s1"), api_key: s("k1") });
    for code in [-32004, -32005] {
        let refusal: RpcResponse<()> = RpcResponse::error(s("i"), code, s("bad"));
        assert!(matches!(
            handle_response(&refusal, "i", None, &mut c, "/c.toml"),
            ResponseAction::Exit(78)
        ));
        assert!(matches!(
            handle_response(&refusal, "other", None, &mut c, "/c.toml"),
            ResponseAction::Ignore
        ));
    }
    let other: RpcResponse<()> = RpcResponse::error(s("i"), -32603, s("bad"));
    assert!(matches!(
        handle_response(&other, "i", given(), &mut c, "/c.toml"),
        ResponseAction::Ignore
    ));
    let plain = RpcResponse::success(s("i"), ());
    assert!(matches!(
        handle_response(&plain, "i", None, &mut c, "/c.toml"),
        ResponseAction::Ignore
    ));
    assert!(c.needs_registration());
    let ResponseAction::Persist(plan) = handle_response(&plain, "i", given(), &mut c, "/c.toml")
    else {
        panic!("not kept")
    };
    assert_eq!((plan.path.as_str(), plan.temporary.as_str()), ("/c.toml", "/c.toml.tmp"));
    assert_eq!(c.connection.api_key, "k1");
    assert_eq!(c.connection.registration_token, "");
}

#[test]
fn frames_are_told_apart() {
    let request = RpcRequest::new(s("i"), "ping", 1u8);
    assert!(matches!(
        on_frame(Frame::Text(Ok(RpcMessage::Request(request)))),
        FrameAction::Dispatch(_)
    ));
    let request = RpcRequest::notification("ping", 1u8);
    assert!(matches!(
        on_frame(Frame::Text(Ok(RpcMessage::Request(request)))),
        FrameAction::Notify(_)
    ));
    let response = RpcResponse::success(s("i"), 1u8);
    assert!(matches!(
        on_frame(Frame::Text(Ok(RpcMessage::Response(response)))),
        FrameAction::Respond(_)
    ));
    assert!(matches!(on_frame(Frame::<u8>::Text(Err(s("x")))), FrameAction::Ignore));
    assert!(matches!(on_frame(Frame::<u8>::Ping), FrameAction::Ignore));
    assert!(matches!(on_frame(Frame::<u8>::Other), FrameAction::Ignore));
    for frame in [Frame::<u8>::Close, Frame::Failed(s("x"))] {
        let FrameAction::Stop(end) = on_frame(frame) else { panic!("goes on") };
        assert_eq!(connection_result(end), Err(s("Connection lost")));
    }
    let end = ConnectionEnd::NotOpened(s("refused"));
    assert_eq!(connection_result(end), Err(s("refused")));
}

#[test]
fn every_tick_stores_one_row() {
    let dir = tempfile::tempdir().unwrap();
    let path = dir.path().join("ticks.db");
    let mut buffer = MetricsBuffer::new(path.to_str().unwrap()).unwrap();
    let mut clock = CleanupClock::new();
    for i in 0..4 {
        let now = Moment { secs: 1577836800 + i, nanos: 500_000_000 };
        let sampled = collect_at(&mut buffer, &mut clock, now, &format!("{{\"n\":{i}}}"));
        assert!(sampled.stored.is_ok() && !sampled.cleanup_due);
    }
    let rows = buffer.get_unsent(10).unwrap();
    assert_eq!(rows.len(), 4);
    assert_eq!(rows[0].timestamp, "2020-01-01T00:00:00.500+00:00");
    assert_eq!(rows[3].timestamp, "2020-01-01T00:00:03.500+00:00");
    assert_eq!(rows[3].metrics, "{\"n\":3}");
    let before = chrono::Utc::now();
    assert!(collect(&mut buffer, &mut clock, "{}").stored.is_ok());
    let rows = buffer.get_unsent(10).unwrap();
    let at = chrono::DateTime::parse_from_rfc3339(&rows[4].timestamp).unwrap();
    assert!(before <= at && at <= chrono::Utc::now());
    let due = (6..=300).filter(|_| collect(&mut buffer, &mut clock, "{}").cleanup_due).count();
    assert_eq!((due, buffer.unsent_count().unwrap()), (1, 300));
}

#[test]
fn hosts_are_found_in_urls() {
    for host in ["agent.nobase.dev", "10.0.0.1:8080", "ws", "wss", ""] {
        for scheme in ["ws://", "wss://"] {
            for path in ["", "/", "/agent/ws", "/x/ws://y", "//"] {
                assert_eq!(extract_host(&format!("{scheme}{host}{path}")), host);
            }
        }
    }
}

#[test]
fn delays_double_and_begin_anew() {
    let mut b = Backoff::new(300);
    let delays: Vec<u64> = (0..11).map(|_| b.on_lost(0)).collect();
    assert_eq!(delays, vec![1, 2, 4, 8, 16, 32, 64, 128, 256, 300, 300]);
    assert_eq!(b.on_lost(30_000_000_000), 300);
    assert_eq!(b.on_lost(30_000_000_001), 1);
    assert_eq!(b.on_lost(0), 2);
    let mut big = Backoff::new(u64::MAX);
    let mut last = 0;
    for _ in 0..70 {
        last = big.on_lost(0);
    }
    assert_eq!(last, u64::MAX);
    let mut none = Backoff::new(0);
    assert_eq!((none.on_lost(0), none.on_lost(0)), (1, 0));
}

#[test]
fn cleanup_is_due_every_five_minutes_of_samples() {
    let mut clock = CleanupClock::new();
    let due: Vec<usize> = (1..=900).filter(|_| clock.tick()).collect();
    assert_eq!(due, vec![300, 600, 900]);
}

fn payload(host: &str) -> MetricsPayload<f64> {
    let facts = nobase::handlers::metrics::MetricsFacts {
        hostname: Some(s(host)),
        os_name: None,
        default_os: s("linux"),
        os_version: None,
        kernel: None,
        arch: s("x86_64"),
        uptime_secs: 1,
        cpu_model: None,
        cpu_cores: 1,
        cpu_usage: 0.0,
        cpu_temperature: None,
        cpu_mhz: 0.0,
        total_memory: 0,
        used_memory: 0,
        available_memory: 0,
        total_swap: 0,
        used_swap: 0,
        memory_speed: None,
        disks: vec![],
        network: nobase::handlers::metrics::NetworkTotals {
            primary: s(""),
            rx_total: 0,
            tx_total: 0,
        },
        rx_rate: 0,
        tx_rate: 0,
        latency_ms: 0.0,
        gpu: None,
        docker: None,
    };
    nobase::handlers::metrics::build_metrics(facts, &MetricsConfig::default())
}

#[test]
fn rows_are_batched_and_marked_only_when_sent() {
    let rows = || {
        Ok(vec![
            BufferedMetric { id: 4, timestamp: s("t4"), metrics: payload("a") },
            BufferedMetric { id: 7, timestamp: s("t7"), metrics: payload("b") },
        ])
    };
    let mut p = Pusher::new(300, 60);
    assert_eq!(p.row_limit(), 300);
    let PushStep::Send(batch) = p.on_rows(rows()) else { panic!("not sent") };
    assert_eq!(batch.note.method, "metrics.batch_push");
    assert_eq!(batch.note.params.server_id, "");
    assert!(batch.note.params.is_backfill);
    assert_eq!(batch.note.params.data_points[1].metrics.hostname, "b");
    assert_eq!(batch.note.params.data_points[1].timestamp, "t7");
    let AfterSend::Mark { ids, pause } = p.on_sent(batch.ids, true) else { panic!("not marked") };
    assert_eq!((ids, pause), (vec![4, 7], true));
    assert!(matches!(p.on_rows::<f64>(Ok(vec![])), PushStep::Finished));
    assert_eq!(p.row_limit(), 60);
    let PushStep::Send(batch) = p.on_rows(rows()) else { panic!("not sent") };
    assert!(!batch.note.params.is_backfill);
    let AfterSend::Mark { ids, pause } = p.on_sent(batch.ids, true) else { panic!("not marked") };
    assert_eq!((ids, pause), (vec![4, 7], false));
    assert!(matches!(p.on_rows::<f64>(Ok(vec![])), PushStep::Wait));
    assert!(matches!(p.on_rows::<f64>(Err(s("x"))), PushStep::Wait));
    assert!(matches!(p.on_sent(vec![4], false), AfterSend::Stop));
    let mut p = Pusher::new(300, 5);
    assert!(matches!(p.on_rows::<f64>(Err(s("x"))), PushStep::Finished));
    let mut p = Pusher::new(300, 5);
    assert!(matches!(p.on_sent(vec![4], false), AfterSend::Finished));
    assert_eq!(p.row_limit(), 5);
    assert_eq!((push_limit(1), push_limit(5), push_limit(60)), (5, 5, 60));
}

fn reply(status: u16, text: &str, body: &[u8]) -> Result<HttpReply, String> {
    Ok(HttpReply { status, status_text: s(text), body: body.to_vec() })
}

fn failure<P>(step: UpdateStep<P>) -> String {
    match step {
        UpdateStep::Ended(Err(e)) => e,
        _ => panic!("did not fail"),
    }
}

fn next<P>(step: UpdateStep<P>) -> P {
    match step {
        UpdateStep::Next(plan) => plan,
        _ => panic!("has ended"),
    }
}

#[test]
fn updates_begin_with_the_checksum() {
    assert!(matches!(
        check_and_update("", "x86_64", true),
        UpdateStep::Ended(Ok(UpdateResult::NotConfigured))
    ));
    assert_eq!(
        failure(check_and_update("http://b", "riscv64", true)),
        "Unsupported architecture: riscv64"
    );
    let plan = next(check_and_update("http://b//", "aarch64", false));
    assert_eq!(plan.binary_url, "http://b/api/agents/binary/linux-aarch64");
    assert_eq!(plan.checksum_url, "http://b/api/agents/binary/linux-aarch64/checksum");
    let ask = || next(check_and_update("http://b", "x86_64", true));
    assert!(matches!(
        ask().on_checksum(reply(404, "404 Not Found", b"")),
        UpdateStep::Ended(Ok(UpdateResult::AlreadyUpToDate))
    ));
    assert_eq!(
        failure(ask().on_checksum(reply(500, "500 Internal Server Error", b""))),
        "Failed to fetch checksum (HTTP 500 Internal Server Error)"
    );
    assert_eq!(failure(ask().on_checksum(Err(s("down")))), "down");
    assert_eq!(
        failure(ask().on_checksum(reply(200, "200 OK", b"{\"sha256\": 5}"))),
        "Invalid checksum response from backend"
    );
    assert_eq!(
        failure(ask().on_checksum(reply(200, "200 OK", b"[1]"))),
        "Invalid checksum response from backend"
    );
    assert_eq!(
        failure(ask().on_checksum(reply(200, "200 OK", b"oops"))),
        "error decoding response body"
    );
    let plan = next(ask().on_checksum(reply(200, "200 OK", b"{\"sha256\":\"abc\"}")));
    assert_eq!(plan.expected, "abc");
}

#[test]
fn only_a_binary_with_the_checksum_is_installed() {
    let new = b"new binary".to_vec();
    let current = || CurrentPlan {
        expected: sha256_of(&b"new binary".to_vec()),
        binary_url: s("u"),
        restart_service: true,
    };
    assert_eq!(failure(current().on_current(Err(s("io")))), "io");
    assert!(matches!(
        current().on_current(Ok(Some(new.clone()))),
        UpdateStep::Ended(Ok(UpdateResult::AlreadyUpToDate))
    ));
    assert_eq!(next(current().on_current(Ok(None))).old_hash, "");
    let fetch = || next(current().on_current(Ok(Some(b"old".to_vec()))));
    assert_eq!(fetch().old_hash, sha256_of(&b"old".to_vec()));
    assert_eq!(failure(fetch().on_binary(Err(s("cut")))), "cut");
    assert_eq!(
        failure(fetch().on_binary(reply(503, "503 Service Unavailable", b""))),
        "Failed to download binary (HTTP 503 Service Unavailable)"
    );
    let expected = sha256_of(&new);
    let actual = sha256_of(&b"evil".to_vec());
    assert_eq!(
        failure(fetch().on_binary(reply(200, "200 OK", b"evil"))),
        format!("Checksum mismatch! expected={expected} actual={actual}")
    );
    let install = || next(fetch().on_binary(reply(200, "200 OK", b"new binary")));
    assert_eq!(install().binary, new);
    assert_eq!(install().on_written(Err(s("full"))).err().unwrap(), "full");
    let replace = || install().on_written(Ok(())).ok().unwrap();
    let ReplaceStep::Replaced(done) = replace().on_renamed(true) else { panic!("copies") };
    assert_eq!(done.restart.unwrap().args, vec!["restart", "nobase"]);
    assert_eq!(done.result.message("1.2"), format!("Updated to {}", &expected[..12]));
    let copy = || {
        let ReplaceStep::Copy(plan) = replace().on_renamed(false) else { panic!("moved") };
        plan
    };
    assert_eq!(copy().on_copied(Err(s("x"))).err().unwrap(), "x");
    let staged = || copy().on_copied(Ok(())).ok().unwrap();
    assert_eq!(staged().on_moved(Err(s("y"))).err().unwrap(), "y");
    assert!(staged().on_moved(Ok(())).ok().unwrap().restart.is_some());
    let mut plan = staged();
    plan.replace.restart_service = false;
    assert!(plan.on_moved(Ok(())).ok().unwrap().restart.is_none());
}

#[test]
fn a_configuration_is_written_beside_and_moved() {
    let plan = config("k", "").save("/etc/nobase/agent.toml");
    let FileAction::Write { path, mode } = plan.action() else { panic!("no write") };
    assert_eq!((path.as_str(), mode), ("/etc/nobase/agent.toml.tmp", None));
    assert_eq!(plan.on_written(Err(s("full"))).err().unwrap(), "full");
    let next = || plan.on_written(Ok(())).ok().unwrap();
    assert_eq!(
        moves(next().action()),
        (s("/etc/nobase/agent.toml.tmp"), s("/etc/nobase/agent.toml"))
    );
    assert_eq!(next().on_moved(Ok(())), Ok(()));
    assert_eq!(next().on_moved(Err(s("denied"))), Err(s("denied")));
}

fn moves(action: FileAction) -> (String, String) {
    match action {
        FileAction::Rename { from, to } => (from, to),
        _ => panic!("no move"),
    }
}

#[test]
fn the_binary_is_only_ever_moved_into_place() {
    let new = b"new binary".to_vec();
    let plan = CurrentPlan { expected: sha256_of(&new), binary_url: s("u"), restart_service: true };
    let plan = next(plan.on_current(Ok(None)));
    let plan = next(plan.on_binary(reply(200, "200 OK", &new)));
    let FileAction::Write { path, mode } = plan.action() else { panic!("no write") };
    assert_eq!((path.as_str(), mode), ("/tmp/nobase-update", Some(0o755)));
    let plan = plan.on_written(Ok(())).ok().unwrap();
    let place = s("/usr/local/bin/nobase");
    let beside = s("/usr/local/bin/.nobase-update");
    assert_eq!(moves(plan.action()), (s("/tmp/nobase-update"), place.clone()));
    let ReplaceStep::Copy(plan) = plan.on_renamed(false) else { panic!("moved") };
    let FileAction::Copy { from, to, mode } = plan.action() else { panic!("no copy") };
    assert_eq!((from, to, mode), (s("/tmp/nobase-update"), beside.clone(), 0o755));
    let plan = plan.on_copied(Ok(())).ok().unwrap();
    assert_eq!(moves(plan.action()), (beside, place));
}

#[test]
fn self_update_is_reported() {
    let ctx = DispatchContext { config: config("k", ""), config_path: s("/c") };
    let plan = next(start_self_update(&ctx, "x86_64"));
    assert_eq!(plan.binary_url, "https://agent.nobase.dev/api/agents/binary/linux-x86_64");
    assert!(plan.restart_service);
    let ended = |result| Ok(UpdateOutcome::without_restart(result));
    let answer = handle_self_update(s("1"), ended(UpdateResult::AlreadyUpToDate), "1.2");
    assert!(answer.then_run.is_none());
    let r = answer.response.result.unwrap();
    assert_eq!((r.status.as_str(), r.message.as_str()), ("up_to_date", "Already up-to-date (v1.2)"));
    let answer = handle_self_update(s("1"), ended(UpdateResult::NotConfigured), "1.2");
    let r = answer.response.result.unwrap();
    assert_eq!(
        (r.status.as_str(), r.message.as_str()),
        ("not_configured", "backend_url not configured, skipping update check")
    );
    let updated = UpdateResult::Updated { old_hash: s(""), new_hash: s("0123456789abcdef") };
    let restart = Some(service_command(ServiceAction::Restart));
    let updated = UpdateOutcome { result: updated, restart };
    let answer = handle_self_update(s("1"), Ok(updated), "1.2");
    assert_eq!(answer.then_run.unwrap().args, vec!["restart", "nobase"]);
    let r = answer.response.result.unwrap();
    assert_eq!((r.status.as_str(), r.message.as_str()), ("updated", "Updated to 0123456789ab"));
    let answer = handle_self_update(s("1"), Err(s("x")), "1.2");
    assert!(answer.then_run.is_none());
    assert_eq!(error_of(&answer.response), (-32000, s("Update failed: x")));
}

#[test]
fn subcommands_run_their_programs() {
    for (action, name) in [
        (ServiceAction::Start, "start"),
        (ServiceAction::Stop, "stop"),
        (ServiceAction::Restart, "restart"),
        (ServiceAction::Status, "status"),
        (ServiceAction::Enable, "enable"),
        (ServiceAction::Disable, "disable"),
    ] {
        let command = service_command(action);
        assert_eq!(command.program, "systemctl");
        assert_eq!(command.args, vec![name, "nobase"]);
    }
    assert_eq!(logs_command(None, false).args, vec!["-u", "nobase", "-f"]);
    assert_eq!(logs_command(Some(100), false).args, vec!["-u", "nobase", "-n", "100"]);
    assert_eq!(logs_command(Some(5), true).args, vec!["-u", "nobase", "-n", "5", "-f"]);
    assert_eq!(passed_code(Some(Some(3))), 3);
    assert_eq!(passed_code(Some(None)), 1);
    assert_eq!(passed_code(None), 1);
    assert_eq!(root_required(true), Ok(()));
    assert_eq!(root_required(false), Err(s("This command must be run as root (use sudo)")));
    assert_eq!(update_report(&Ok(UpdateResult::AlreadyUpToDate)).1, 0);
    assert_eq!(update_report(&Ok(UpdateResult::NotConfigured)).1, 1);
    assert_eq!(update_report(&Err(s("x"))), (s("  ✗ Update failed: x"), 1));
    assert_eq!(uninstall_commands()[1].args, vec!["disable", "nobase", "--quiet"]);
    assert_eq!(reload_command().args, vec!["daemon-reload"]);
    let list = leftovers();
    assert_eq!(list.len(), 6);
    assert_eq!(list[5].path, "/usr/local/bin/nobase");
    assert!(list[0].reload && list[1].tree && !list[2].required);
}
