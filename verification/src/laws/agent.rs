//! Laws of the agent: its connection, its configuration, its updates and its command
//! line.

use crate::clock::{plain_moment, utc_text, Moment};
use crate::cli::{
    leftovers_gives, logs_command_gives, passed_code_gives, reload_command_gives, removals,
    root_required_gives, service_command_gives, uninstall_commands_gives, update_report_gives,
    Leftover, ServiceAction,
};
use crate::command::CommandSpec;
use crate::config::{
    credentials_set, goes_up, key_set, lies_at_or_below, AgentConfig, ConfigFile, HeartbeatConfig,
    LoggingConfig, MetricsConfig, SaveMove, SavePlan, SecurityConfig,
};
use crate::connection::{
    connection_result_gives, handle_response_gives, header_texts, heartbeat_at_gives,
    heartbeat_gives, host_in, on_frame_gives, push_limit_gives, upgrade_headers_gives, Backoff,
    CleanupClock, ConnectionEnd, Frame, FrameAction, Handshake, Header, HostIdentity,
    ResponseAction,
};
use crate::dispatcher::{
    dispatches, ping_answered, rotate_key_begins, route_of, self_update_ends, self_update_starts,
    DispatchContext, Dispatched, RotatePlan, Route, SelfUpdateAnswer,
};
use crate::encoding::{json_text_member, sha256_hex};
use crate::error_codes;
use crate::laws::text::{joined_by, law_joined_parts_are_given_back, law_trailing};
use crate::methods::{
    AgentRegisterResponse, HeartbeatRequest, HeartbeatResponse, RotateKeyRequest, RotateKeyResponse,
};
use crate::number::decimal;
use crate::paths::extended;
use crate::rpc::{RpcMessage, RpcRequest, RpcResponse};
use crate::serving::Call;
use crate::split::removed;
use crate::storage::FileAction;
use crate::text::{opens_with, texts};
use crate::updater::{
    check_and_update_gives, checksum, shows, successful, BinaryPlan, ChecksumPlan, CopyPlan,
    CurrentPlan, HttpReply, InstallPlan, MovePlan, ReplacePlan, ReplaceStep, UpdateOutcome,
    UpdateResult, UpdateStep,
};
use vstd::prelude::*;

verus! {

// ---------------------------------------------------------------------------
// Connection
// ---------------------------------------------------------------------------

/// The headers of the upgrade to a web socket, each with its own value: the host of
/// the URL, the upgrade, the version and the key.
pub proof fn law_upgrade_headers(url: &str, key: &str, headers: Vec<Header>)
    requires
        upgrade_headers_gives(url, key, headers),
    ensures
        headers@.len() == 5,
        headers@[0].name@ == "Host"@ && headers@[0].value@ == host_in(url@),
        headers@[1].name@ == "Connection"@ && headers@[1].value@ == "Upgrade"@,
        headers@[2].name@ == "Upgrade"@ && headers@[2].value@ == "websocket"@,
        headers@[3].name@ == "Sec-WebSocket-Version"@ && headers@[3].value@ == "13"@,
        headers@[4].name@ == "Sec-WebSocket-Key"@ && headers@[4].value@ == key@,
{
    let t = header_texts(headers@);
    assert(t.len() == 5);
    assert(t[0] == (headers@[0].name@, headers@[0].value@));
    assert(t[1] == (headers@[1].name@, headers@[1].value@));
    assert(t[2] == (headers@[2].name@, headers@[2].value@));
    assert(t[3] == (headers@[3].name@, headers@[3].value@));
    assert(t[4] == (headers@[4].name@, headers@[4].value@));
}

/// An agent without a key registers with its token and tells its host; one with a key
/// reconnects with the key and its server's ID.
pub proof fn law_agent_introduces_itself(
    shake: Handshake,
    config: AgentConfig,
    host: HostIdentity,
    id: Seq<char>,
)
    requires
        shake.greets(config, host, id),
    ensures
        shake is Register <==> config.connection.api_key@.len() == 0,
        shake.id() == Some(id),
        shake matches Handshake::Register(request) ==> {
            &&& request.jsonrpc@ == "2.0"@
            &&& request.id is Some && request.id->0@ == id
            &&& request.method@ == "agent.register"@
            &&& request.params.registration_token@ == config.connection.registration_token@
            &&& request.params.hostname@ == host.hostname@
            &&& request.params.os_type@ == host.os_type@
            &&& request.params.os_version@ == host.os_version@
            &&& request.params.agent_version@ == host.agent_version@
            &&& request.params.arch@ == host.arch@
        },
        shake matches Handshake::Reconnect(request) ==> {
            &&& request.jsonrpc@ == "2.0"@
            &&& request.id is Some && request.id->0@ == id
            &&& request.method@ == "agent.reconnect"@
            &&& request.params.api_key@ == config.connection.api_key@
            &&& request.params.server_id@ == config.connection.server_id@
            &&& request.params.hostname@ == host.hostname@
            &&& request.params.agent_version@ == host.agent_version@
        },
{
}

/// A refusal of the agent's own credentials ends the agent; any other error is passed
/// over. New credentials are taken over and saved where the configuration lies.
pub proof fn law_gateway_answer_is_acted_on<V>(
    response: RpcResponse<V>,
    handshake_id: &str,
    registration: Option<AgentRegisterResponse>,
    before: AgentConfig,
    after: AgentConfig,
    config_path: &str,
    action: ResponseAction,
)
    requires
        handle_response_gives(
            response,
            handshake_id,
            registration,
            before,
            after,
            config_path,
            action,
        ),
    ensures
        action is Exit <==> response.error is Some && response.id@ == handshake_id@ && (
        response.error->0.code == -32004 || response.error->0.code == -32005),
        action matches ResponseAction::Exit(code) ==> code == 78 && after == before,
        action is Persist <==> response.error is None && response.result is Some
            && registration is Some,
        action matches ResponseAction::Persist(plan) ==> {
            &&& plan.path@ == config_path@
            &&& plan.temporary@ == extended(config_path@, "toml.tmp"@)
            &&& after.connection.server_id@ == registration->0.server_id@
            &&& after.connection.api_key@ == registration->0.api_key@
            &&& after.connection.registration_token@.len() == 0
            &&& after.connection.gateway_url == before.connection.gateway_url
            &&& after.connection.backend_url == before.connection.backend_url
            &&& after.heartbeat == before.heartbeat
            &&& after.metrics == before.metrics
            &&& after.security == before.security
            &&& after.logging == before.logging
        },
        action is Ignore ==> after == before,
{
}

/// A connection always ends with an error: why it was not opened, or that it was lost.
pub proof fn law_connection_ends_with_a_reason(end: ConnectionEnd, r: Result<(), String>)
    requires
        connection_result_gives(end, r),
    ensures
        r is Err,
        end matches ConnectionEnd::NotOpened(why) ==> r->Err_0@ == why@,
        end is Lost ==> r->Err_0@ == "Connection lost"@,
{
}

/// A request is dispatched and its answer sent, a notification is dispatched alone, a
/// response goes to who waits for it, a closed or failed connection is left, and
/// everything else is passed over.
pub proof fn law_frames_go_where_they_belong<V>(frame: Frame<V>, action: FrameAction<V>)
    requires
        on_frame_gives(frame, action),
    ensures
        frame matches Frame::Text(Ok(RpcMessage::Request(request))) ==> (request.id is Some
            ==> action == FrameAction::Dispatch(request)) && (request.id is None ==> action
            == FrameAction::Notify(request)),
        frame matches Frame::Text(Ok(RpcMessage::Response(response))) ==> action
            == FrameAction::Respond(response),
        frame is Close || frame is Failed <==> action is Stop,
        action matches FrameAction::Stop(end) ==> end is Lost,
        frame matches Frame::Text(Err(_)) ==> action is Ignore,
        frame is Ping || frame is Other ==> action is Ignore,
{
}

/// The first delay is a second. Each delay after a connection that did not hold is
/// twice the one before, up to the largest; after one that held for more than half a
/// minute it is a second again.
pub proof fn law_delays_follow_each_other(
    max_secs: u64,
    fresh: Backoff,
    before: Backoff,
    after: Backoff,
    held_nanos: u64,
    secs: u64,
)
    requires
        Backoff::begins_as(max_secs, fresh),
        before.on_lost_gives(after, held_nanos, secs),
    ensures
        fresh.next() == 1,
        fresh.max() == max_secs,
        held_nanos > 30_000_000_000 ==> secs == 1,
        held_nanos <= 30_000_000_000 ==> secs == before.next(),
        after.max() == before.max(),
        2 * secs <= before.max() ==> after.next() == 2 * secs,
        2 * secs > before.max() ==> after.next() == before.max(),
{
}

/// A heartbeat is a notification that tells the time.
pub proof fn law_heartbeat_tells_the_time(moment: Moment, note: RpcRequest<HeartbeatRequest>)
    requires
        heartbeat_at_gives(moment, note),
    ensures
        note.jsonrpc@ == "2.0"@,
        note.id is None,
        note.method@ == "agent.heartbeat"@,
        note.params.timestamp@ == utc_text(moment.secs, moment.nanos),
{
}

/// A heartbeat of the present moment tells a time within the calendar, not before 1970.
pub proof fn law_present_heartbeat(note: RpcRequest<HeartbeatRequest>)
    requires
        heartbeat_gives(note),
    ensures
        note.jsonrpc@ == "2.0"@,
        note.id is None,
        note.method@ == "agent.heartbeat"@,
        exists|m: Moment|
            {
                &&& #[trigger] plain_moment(m)
                &&& 0 <= m.secs <= 8210266876799
                &&& note.params.timestamp@ == utc_text(m.secs, m.nanos)
            },
{
}

/// A cleanup is due at each three hundredth tick, and counting begins anew then.
pub proof fn law_cleanup_ticks(
    fresh: CleanupClock,
    before: CleanupClock,
    after: CleanupClock,
    due: bool,
)
    requires
        CleanupClock::begins_as(fresh),
        before.wf(),
        before.tick_gives(after, due),
    ensures
        fresh.since() == 0,
        due <==> before.since() == 299,
        due ==> after.since() == 0,
        !due ==> after.since() == before.since() + 1,
        before.since() < 300,
{
}

/// A push holds one row for each second between two pushes, but not fewer than five.
pub proof fn law_push_limit(interval: u64, limit: usize)
    requires
        push_limit_gives(interval, limit),
        interval <= usize::MAX,
    ensures
        interval <= 5 ==> limit == 5,
        interval > 5 ==> limit == interval,
{
}

/// Every copy of a part is taken out of a text, from its front to its end, and the
/// rest is kept.
pub proof fn law_parts_are_taken_out(part: Seq<char>, rest: Seq<char>, c: char)
    requires
        part.len() > 0,
    ensures
        removed(Seq::empty(), part) == Seq::<char>::empty(),
        removed(part + rest, part) == removed(rest, part),
        !opens_with(seq![c] + rest, part) ==> removed(seq![c] + rest, part) == seq![c] + removed(
            rest,
            part,
        ),
{
    let s = part + rest;
    assert(s.take(part.len() as int) =~= part);
    assert(s.skip(part.len() as int) =~= rest);
    let t = seq![c] + rest;
    assert(t.drop_first() =~= rest);
    if t.len() < part.len() {
        assert(removed(rest, part) == rest);
    }
}

// ---------------------------------------------------------------------------
// Configuration
// ---------------------------------------------------------------------------

/// The settings where the file says nothing of them.
pub proof fn law_defaults(
    heartbeat: HeartbeatConfig,
    metrics: MetricsConfig,
    security: SecurityConfig,
    logging: LoggingConfig,
)
    ensures
        heartbeat.is_default() ==> heartbeat.interval_secs == 30
            && heartbeat.reconnect_max_delay_secs == 300,
        metrics.is_default() ==> {
            &&& metrics.collection_interval_secs == 1
            &&& metrics.push_interval_secs == 5
            &&& metrics.include_docker
            &&& metrics.include_gpu
            &&& metrics.buffer_retention_hours == 24
            &&& metrics.buffer_path@ == "/var/lib/nobase/metrics.db"@
            &&& metrics.backfill_chunk_size == 300
        },
        security.is_default() ==> security.allowed_commands@.len() == 0
            && security.allowed_paths@.len() == 0 && security.max_file_size_mb == 100,
        logging.is_default() ==> logging.level@ == "info"@ && logging.format@ == "text"@
            && logging.file is None && logging.max_size_mb == 50 && logging.max_files == 3,
{
}

/// The agent's times, sizes and places.
pub proof fn law_times_sizes_and_places()
    ensures
        crate::connection::PUSH_SETTLE_SECS == 2,
        crate::connection::UPDATE_SETTLE_SECS == 5,
        crate::connection::BACKFILL_PAUSE_MS == 100,
        crate::connection::SEND_QUEUE == 256,
        crate::handlers::shell::POLL_TIMEOUT_MS == 500,
        crate::handlers::shell::READ_SIZE == 8192,
        crate::handlers::transfer::DOWNLOAD_CHUNK_SIZE == 65536,
        crate::updater::HTTP_TIMEOUT_SECS == 120,
        crate::updater::BINARY_PATH@ == "/usr/local/bin/nobase"@,
        crate::updater::TMP_PATH@ == "/tmp/nobase-update"@,
        crate::updater::STAGED_PATH@ == "/usr/local/bin/.nobase-update"@,
        crate::cli::DEFAULT_CONFIG_PATH@ == "/etc/nobase/agent.toml"@,
{
}

/// A path lies at or below a directory if it is the directory, or goes on behind it
/// with a slash; slashes behind the directory's own path do not matter.
pub proof fn law_paths_below_a_directory(base: Seq<char>, slashes: Seq<char>, path: Seq<char>)
    requires
        forall|i: int| 0 <= i < slashes.len() ==> #[trigger] slashes[i] == '/',
        base.len() > 0 ==> base.last() != '/',
    ensures
        base.len() + slashes.len() == 0 ==> !lies_at_or_below(path, base + slashes),
        base.len() + slashes.len() > 0 ==> (lies_at_or_below(path, base + slashes) <==> path == base
            || opens_with(path, base + seq!['/'])),
{
    law_trailing(base, slashes, '/');
    reveal_strlit("/");
    let slash = "/"@;
    assert(slash =~= seq!['/']);
    let b = base + slash;
    let p = path + slash;
    if opens_with(p, b) {
        assert(p.take(b.len() as int) == b);
        if path.len() == base.len() {
            assert forall|i: int| 0 <= i < base.len() implies path[i] == base[i] by {
                assert(p[i] == p.take(b.len() as int)[i]);
                assert(b[i] == base[i]);
            }
            assert(path =~= base);
        } else {
            assert(path.take(b.len() as int) =~= p.take(b.len() as int));
        }
    }
    if path == base {
        assert(p.take(b.len() as int) =~= b);
    }
    if opens_with(path, b) {
        assert(p.take(b.len() as int) =~= path.take(b.len() as int));
    }
}

/// A path goes up if one of its parts is two dots.
pub proof fn law_paths_that_go_up(parts: Seq<Seq<char>>)
    requires
        parts.len() > 0,
        forall|k: int, i: int|
            0 <= k < parts.len() && 0 <= i < parts[k].len() ==> #[trigger] parts[k][i] != '/',
    ensures
        goes_up(joined_by(parts, '/')) <==> parts.contains(".."@),
{
    law_joined_parts_are_given_back(parts, '/');
}

/// Where commands are listed, only they are permitted, each as it is listed; where
/// paths are listed, only what lies at or below one of them and does not go up. Where
/// nothing is listed, everything is permitted.
pub proof fn law_lists_permit(
    security: SecurityConfig,
    command: Seq<char>,
    path: Seq<char>,
    i: int,
)
    ensures
        security.allowed_commands@.len() == 0 ==> security.permits_command(command),
        0 <= i < security.allowed_commands@.len() ==> security.permits_command(
            security.allowed_commands@[i]@,
        ),
        security.allowed_commands@.len() > 0 && (forall|k: int|
            0 <= k < security.allowed_commands@.len()
                ==> (#[trigger] security.allowed_commands@[k])@ != command)
            ==> !security.permits_command(command),
        security.allowed_paths@.len() == 0 ==> security.permits_path(path),
        security.allowed_paths@.len() > 0 && goes_up(path) ==> !security.permits_path(path),
        0 <= i < security.allowed_paths@.len() && !goes_up(path) && lies_at_or_below(
            path,
            security.allowed_paths@[i]@,
        ) ==> security.permits_path(path),
        security.allowed_paths@.len() > 0 && (forall|k: int|
            0 <= k < security.allowed_paths@.len() ==> !lies_at_or_below(
                path,
                (#[trigger] security.allowed_paths@[k])@,
            )) ==> !security.permits_path(path),
{
    let listed = texts(security.allowed_commands@);
    if 0 <= i < security.allowed_commands@.len() {
        assert(listed[i] == security.allowed_commands@[i]@);
    }
    if listed.contains(command) {
        let k = choose|k: int| 0 <= k < listed.len() && listed[k] == command;
        assert(security.allowed_commands@[k]@ == command);
    }
}

/// A file may have so many megabytes of 1048576 bytes, as far as they can be counted.
pub proof fn law_file_limit_is_in_megabytes(security: SecurityConfig)
    ensures
        security.max_file_size_mb <= 17592186044415 ==> security.most_bytes()
            == security.max_file_size_mb * 1_048_576,
        security.max_file_size_mb > 17592186044415 ==> security.most_bytes() == u64::MAX,
{
}

/// A configuration can be used exactly if it names the gateway and holds a key or a
/// token; what is missing is told.
pub proof fn law_usable_configuration(
    path: &str,
    file: ConfigFile,
    r: Result<AgentConfig, String>,
)
    requires
        AgentConfig::load_gives(path, file, r),
    ensures
        r is Ok <==> file is Parsed && file->Parsed_0.connection.gateway_url@.len() > 0 && (
        file->Parsed_0.connection.api_key@.len() > 0
            || file->Parsed_0.connection.registration_token@.len() > 0),
        r matches Ok(config) ==> config == file->Parsed_0,
        file is Missing ==> r->Err_0@ == "Config file not found: "@ + path@,
        file matches ConfigFile::Unusable(why) ==> r->Err_0@ == why@,
        file is Parsed && file->Parsed_0.connection.gateway_url@.len() == 0 ==> r->Err_0@
            == "connection.gateway_url is required"@,
        file is Parsed && file->Parsed_0.connection.gateway_url@.len() > 0 && r is Err ==> r->Err_0@
            == "Either connection.api_key or connection.registration_token is required"@,
{
}

/// A configuration is saved beside its place and then moved there; the first failure
/// is told.
pub proof fn law_configuration_is_saved(
    config: AgentConfig,
    path: &str,
    plan: SavePlan,
    written: Result<(), String>,
    r: Result<SaveMove, String>,
    next: SaveMove,
    moved: Result<(), String>,
    s: Result<(), String>,
)
    requires
        config.save_gives(path, plan),
        plan.on_written_gives(written, r),
        next.on_moved_gives(moved, s),
    ensures
        plan.path@ == path@,
        plan.temporary@ == extended(path@, "toml.tmp"@),
        r is Ok <==> written is Ok,
        r matches Ok(m) ==> m.temporary@ == plan.temporary@ && m.path@ == plan.path@,
        r matches Err(why) ==> why@ == written->Err_0@,
        s is Ok <==> moved is Ok,
        s matches Err(why) ==> why@ == moved->Err_0@,
{
}

/// New credentials replace the old ones and use up the token; a new key replaces only
/// the key. Nothing else changes. An agent is registered exactly if it has a key.
pub proof fn law_credentials(
    before: AgentConfig,
    after: AgentConfig,
    server_id: Seq<char>,
    api_key: Seq<char>,
)
    ensures
        before.unregistered() <==> before.connection.api_key@.len() == 0,
        credentials_set(before, after, server_id, api_key) ==> after.connection.server_id@
            == server_id && after.connection.api_key@ == api_key
            && after.connection.registration_token@.len() == 0,
        key_set(before, after, api_key) ==> after.connection.api_key@ == api_key
            && after.connection.server_id == before.connection.server_id
            && after.connection.registration_token == before.connection.registration_token,
        credentials_set(before, after, server_id, api_key) || key_set(before, after, api_key) ==> {
            &&& after.connection.gateway_url == before.connection.gateway_url
            &&& after.connection.backend_url == before.connection.backend_url
            &&& after.heartbeat == before.heartbeat
            &&& after.metrics == before.metrics
            &&& after.security == before.security
            &&& after.logging == before.logging
        },
{
}

// ---------------------------------------------------------------------------
// Updates
// ---------------------------------------------------------------------------

/// An update is looked for where the backend serves the binary of this architecture,
/// and its checksum beside it.
pub proof fn law_update_is_looked_for(
    backend: &str,
    base: Seq<char>,
    slashes: Seq<char>,
    arch: &str,
    restart_service: bool,
    r: UpdateStep<ChecksumPlan>,
)
    requires
        check_and_update_gives(backend, arch, restart_service, r),
        backend@ == base + slashes,
        forall|i: int| 0 <= i < slashes.len() ==> #[trigger] slashes[i] == '/',
        base.len() > 0 ==> base.last() != '/',
    ensures
        backend@.len() == 0 <==> r == UpdateStep::<ChecksumPlan>::Ended(
            Ok(UpdateResult::NotConfigured),
        ),
        backend@.len() > 0 && arch@ != "x86_64"@ && arch@ != "aarch64"@ ==> r.failed(
            "Unsupported architecture: "@ + arch@,
        ),
        r is Next <==> backend@.len() > 0 && (arch@ == "x86_64"@ || arch@ == "aarch64"@),
        r matches UpdateStep::Next(plan) ==> {
            &&& plan.binary_url@ == base + "/api/agents/binary/linux-"@ + arch@
            &&& plan.checksum_url@ == base + "/api/agents/binary/linux-"@ + arch@ + "/checksum"@
            &&& plan.restart_service == restart_service
        },
{
    law_trailing(base, slashes, '/');
}

/// What a failed step says is what it failed with; an update that is not needed is
/// told to be up to date.
pub proof fn law_update_ends(step: UpdateStep<ChecksumPlan>, message: Seq<char>, status: u16)
    ensures
        step.failed(message) ==> step is Ended && step->Ended_0 is Err && step->Ended_0->Err_0@
            == message,
        step.up_to_date() <==> step == UpdateStep::<ChecksumPlan>::Ended(
            Ok(UpdateResult::AlreadyUpToDate),
        ),
        successful(status) <==> status == 200 || 200 < status <= 299,
{
}

/// The checksum that the backend tells is what is waited for; where it serves no
/// binary there is no update, and where its answer is no checksum that is told.
pub proof fn law_checksum_is_taken_from_the_backend(
    plan: ChecksumPlan,
    reply: Result<HttpReply, String>,
    r: UpdateStep<CurrentPlan>,
)
    requires
        plan.on_checksum_gives(reply, r),
    ensures
        reply matches Err(e) ==> r == UpdateStep::<CurrentPlan>::Ended(r->Ended_0)
            && r->Ended_0->Err_0@ == e@ && r->Ended_0 is Err,
        reply is Ok && reply->Ok_0.status == 404 ==> r == UpdateStep::<CurrentPlan>::Ended(
            Ok(UpdateResult::AlreadyUpToDate),
        ),
        reply is Ok && reply->Ok_0.status != 404 && (reply->Ok_0.status < 200
            || reply->Ok_0.status >= 300) ==> r is Ended && r->Ended_0 is Err && r->Ended_0->Err_0@
            == "Failed to fetch checksum (HTTP "@ + reply->Ok_0.status_text@ + ")"@,
        reply is Ok && 200 <= reply->Ok_0.status < 300 ==> (json_text_member(
            reply->Ok_0.body@,
            "sha256"@,
        ) matches Ok(None) ==> r is Ended && r->Ended_0 is Err && r->Ended_0->Err_0@
            == "Invalid checksum response from backend"@),
        reply is Ok && 200 <= reply->Ok_0.status < 300 ==> (json_text_member(
            reply->Ok_0.body@,
            "sha256"@,
        ) is Err ==> r is Ended && r->Ended_0 is Err && r->Ended_0->Err_0@
            == "error decoding response body"@),
        r is Next <==> reply is Ok && 200 <= reply->Ok_0.status < 300 && (json_text_member(
            reply->Ok_0.body@,
            "sha256"@,
        ) matches Ok(Some(_))),
        r matches UpdateStep::Next(next) ==> {
            &&& json_text_member(reply->Ok_0.body@, "sha256"@) == Ok::<
                Option<Seq<char>>,
                Seq<char>,
            >(Some(next.expected@))
            &&& next.binary_url@ == plan.binary_url@
            &&& next.restart_service == plan.restart_service
        },
{
}

/// There is an update exactly if the installed binary has another checksum than the
/// one that the backend tells; no binary has no checksum.
pub proof fn law_update_is_needed_by_checksum(
    plan: CurrentPlan,
    current: Result<Option<Vec<u8>>, String>,
    r: UpdateStep<BinaryPlan>,
)
    requires
        plan.on_current_gives(current, r),
    ensures
        current matches Ok(Some(bytes)) ==> (r is Next <==> sha256_hex(bytes@) != plan.expected@),
        current matches Ok(None) ==> (r is Next <==> plan.expected@.len() > 0),
        current is Ok && !(r is Next) ==> r == UpdateStep::<BinaryPlan>::Ended(
            Ok(UpdateResult::AlreadyUpToDate),
        ),
        current matches Err(e) ==> r is Ended && r->Ended_0 is Err && r->Ended_0->Err_0@ == e@,
        r matches UpdateStep::Next(next) ==> {
            &&& next.expected@ == plan.expected@
            &&& next.binary_url@ == plan.binary_url@
            &&& next.restart_service == plan.restart_service
            &&& current->Ok_0 matches Some(bytes) ==> next.old_hash@ == sha256_hex(bytes@)
            &&& current->Ok_0 is None ==> next.old_hash@.len() == 0
        },
{
    if current is Ok && current->Ok_0 is None {
        assert(plan.expected@.len() == 0 ==> plan.expected@ =~= Seq::<char>::empty());
    }
}

/// A binary is installed only if its own checksum is the one that was told.
pub proof fn law_only_the_told_binary_is_installed(
    plan: BinaryPlan,
    reply: Result<HttpReply, String>,
    r: UpdateStep<InstallPlan>,
)
    requires
        plan.on_binary_gives(reply, r),
    ensures
        r is Next <==> reply is Ok && 200 <= reply->Ok_0.status < 300 && sha256_hex(
            reply->Ok_0.body@,
        ) == plan.expected@,
        r matches UpdateStep::Next(next) ==> {
            &&& next.binary@ == reply->Ok_0.body@
            &&& sha256_hex(next.binary@) == plan.expected@
            &&& next.new_hash@ == plan.expected@
            &&& next.old_hash@ == plan.old_hash@
            &&& next.restart_service == plan.restart_service
            &&& shows(next.new_hash@)
        },
        reply is Ok && 200 <= reply->Ok_0.status < 300 && !(r is Next) ==> r->Ended_0->Err_0@
            == "Checksum mismatch! expected="@ + plan.expected@ + " actual="@ + sha256_hex(
            reply->Ok_0.body@,
        ),
        reply is Ok && (reply->Ok_0.status < 200 || reply->Ok_0.status >= 300)
            ==> r->Ended_0->Err_0@ == "Failed to download binary (HTTP "@
            + reply->Ok_0.status_text@ + ")"@,
        reply matches Err(e) ==> r->Ended_0->Err_0@ == e@,
        !(r is Next) ==> r is Ended && r->Ended_0 is Err,
{
}

/// A written binary is moved to its place, or, where that fails, copied beside it and
/// then moved; the checksums and whether to restart are carried along.
pub proof fn law_binary_is_put_in_place(
    install: InstallPlan,
    written: Result<(), String>,
    a: Result<ReplacePlan, String>,
    replace: ReplacePlan,
    renamed: bool,
    b: ReplaceStep,
    copy: CopyPlan,
    copied: Result<(), String>,
    c: Result<MovePlan, String>,
    mover: MovePlan,
    moved: Result<(), String>,
    d: Result<UpdateOutcome, String>,
)
    requires
        install.on_written_gives(written, a),
        replace.on_renamed_gives(renamed, b),
        copy.on_copied_gives(copied, c),
        mover.on_moved_gives(moved, d),
    ensures
        a is Ok <==> written is Ok,
        a matches Ok(plan) ==> plan.old_hash@ == install.old_hash@ && plan.new_hash@
            == install.new_hash@ && plan.restart_service == install.restart_service,
        a matches Err(why) ==> why@ == written->Err_0@,
        b is Replaced <==> renamed,
        b matches ReplaceStep::Replaced(done) ==> replace.replaced(done),
        b matches ReplaceStep::Copy(plan) ==> plan.replace == replace,
        c is Ok <==> copied is Ok,
        c matches Ok(plan) ==> plan.replace == copy.replace,
        c matches Err(why) ==> why@ == copied->Err_0@,
        d is Ok <==> moved is Ok,
        d matches Ok(done) ==> mover.replace.replaced(done),
        d matches Err(why) ==> why@ == moved->Err_0@,
{
}

/// What is done to the files: the configuration is written beside its place and moved
/// there; the binary is written to the temporary directory with its mode, and moved
/// from there to its place, or copied beside it, with its mode, and moved from there.
pub proof fn law_file_steps_of_the_agent(
    save: SavePlan,
    a: FileAction,
    save_move: SaveMove,
    b: FileAction,
    install: InstallPlan,
    c: FileAction,
    replace: ReplacePlan,
    d: FileAction,
    copy: CopyPlan,
    e: FileAction,
    mover: MovePlan,
    f: FileAction,
)
    requires
        save.action_gives(a),
        save_move.action_gives(b),
        install.action_gives(c),
        replace.action_gives(d),
        copy.action_gives(e),
        mover.action_gives(f),
    ensures
        a.writes(save.temporary@, None),
        b.moves(save_move.temporary@, save_move.path@),
        c.writes("/tmp/nobase-update"@, Some(0o755)),
        d.moves("/tmp/nobase-update"@, "/usr/local/bin/nobase"@),
        e.copies("/tmp/nobase-update"@, "/usr/local/bin/.nobase-update"@, 0o755),
        f.moves("/usr/local/bin/.nobase-update"@, "/usr/local/bin/nobase"@),
{
}

/// What needs no restart is told as it is, without one.
pub proof fn law_outcome_without_restart(result: UpdateResult, r: UpdateOutcome)
    requires
        UpdateOutcome::without_restart_gives(result, r),
    ensures
        r.result == result,
        r.restart is None,
{
}

/// An update tells the checksum that was there before and the new one, and restarts
/// the service exactly if that is wanted.
pub proof fn law_replaced_binary_is_told(plan: ReplacePlan, done: UpdateOutcome)
    requires
        plan.replaced(done),
    ensures
        done.result matches UpdateResult::Updated { old_hash, new_hash } && old_hash@
            == plan.old_hash@ && new_hash@ == plan.new_hash@,
        done.restart is Some <==> plan.restart_service,
        done.restart matches Some(command) ==> command.calls(
            "systemctl"@,
            seq!["restart"@, "nobase"@],
        ) && command.env is None,
{
}

/// What is said of an update: the version that is up to date, the first twelve digits
/// of the new checksum, or that none is configured.
pub proof fn law_update_is_told(result: UpdateResult, version: Seq<char>)
    ensures
        result is AlreadyUpToDate ==> result.words(version) == "Already up-to-date (v"@ + version
            + ")"@,
        result is NotConfigured ==> result.words(version)
            == "backend_url not configured, skipping update check"@,
        result matches UpdateResult::Updated { old_hash, new_hash } ==> new_hash@.len() >= 12
            ==> result.words(version) == "Updated to "@ + new_hash@.take(12),
        result matches UpdateResult::Updated { old_hash, new_hash } ==> (result.wf() <==> (
        new_hash@.len() >= 12 && forall|i: int|
            0 <= i < 12 ==> (#[trigger] new_hash@[i] as u32) < 128)),
{
    if result is Updated {
        let h = result->new_hash@;
        assert(h.len() == 12 ==> h.take(12) =~= h);
    }
}

/// A remote update is answered with its status and what is said of it, and the
/// service is restarted behind the answer where that is wanted.
pub proof fn law_remote_update_is_answered(
    id: String,
    ended: Result<UpdateOutcome, String>,
    version: &str,
    r: SelfUpdateAnswer,
)
    requires
        self_update_ends(id, ended, version, r),
    ensures
        ended matches Ok(outcome) ==> {
            &&& r.response.answers(id@)
            &&& outcome.result is AlreadyUpToDate ==> r.response.payload().status@ == "up_to_date"@
            &&& outcome.result is Updated ==> r.response.payload().status@ == "updated"@
            &&& outcome.result is NotConfigured ==> r.response.payload().status@
                == "not_configured"@
            &&& r.response.payload().message@ == outcome.result.words(version@)
            &&& r.then_run == outcome.restart
        },
        ended matches Err(e) ==> r.then_run is None && r.response.fails(
            id@,
            error_codes::AGENT_ERROR,
            "Update failed: "@ + e@,
        ),
{
}

/// A remote update looks where the configuration says, and restarts the service.
pub proof fn law_remote_update_starts(
    ctx: DispatchContext,
    base: Seq<char>,
    slashes: Seq<char>,
    arch: &str,
    r: UpdateStep<ChecksumPlan>,
)
    requires
        self_update_starts(ctx, arch, r),
        ctx.config.connection.backend_url@ == base + slashes,
        forall|i: int| 0 <= i < slashes.len() ==> #[trigger] slashes[i] == '/',
        base.len() > 0 ==> base.last() != '/',
    ensures
        base.len() + slashes.len() == 0 ==> r == UpdateStep::<ChecksumPlan>::Ended(
            Ok(UpdateResult::NotConfigured),
        ),
        base.len() + slashes.len() > 0 && arch@ != "x86_64"@ && arch@ != "aarch64"@ ==> r.failed(
            "Unsupported architecture: "@ + arch@,
        ),
        r is Next <==> base.len() + slashes.len() > 0 && (arch@ == "x86_64"@ || arch@
            == "aarch64"@),
        r matches UpdateStep::Next(plan) ==> {
            &&& plan.binary_url@ == base + "/api/agents/binary/linux-"@ + arch@
            &&& plan.checksum_url@ == base + "/api/agents/binary/linux-"@ + arch@ + "/checksum"@
            &&& plan.restart_service
        },
{
    law_trailing(base, slashes, '/');
}

// ---------------------------------------------------------------------------
// Requests
// ---------------------------------------------------------------------------

/// A method goes to the route of its own name, a ping under each of its three names,
/// and what has none of these names goes nowhere.
pub proof fn law_methods_have_their_routes(method: Seq<char>)
    ensures
        route_of(method) == Some(Route::Exec) ==> method == "exec"@,
        route_of(method) == Some(Route::Ping) ==> method == "agent.heartbeat"@ || method == "heartbeat"@ || method == "ping"@,
        route_of(method) == Some(Route::SystemInfo) ==> method == "system.info"@,
        route_of(method) == Some(Route::ShellOpen) ==> method == "shell.open"@,
        route_of(method) == Some(Route::ShellData) ==> method == "shell.data"@,
        route_of(method) == Some(Route::ShellResize) ==> method == "shell.resize"@,
        route_of(method) == Some(Route::ShellClose) ==> method == "shell.close"@,
        route_of(method) == Some(Route::FsList) ==> method == "fs.list"@,
        route_of(method) == Some(Route::FsRead) ==> method == "fs.read"@,
        route_of(method) == Some(Route::FsWrite) ==> method == "fs.write"@,
        route_of(method) == Some(Route::FsStat) ==> method == "fs.stat"@,
        route_of(method) == Some(Route::FsMkdir) ==> method == "fs.mkdir"@,
        route_of(method) == Some(Route::FsDelete) ==> method == "fs.delete"@,
        route_of(method) == Some(Route::FsRename) ==> method == "fs.rename"@,
        route_of(method) == Some(Route::FsSearch) ==> method == "fs.search"@,
        route_of(method) == Some(Route::FsUploadStart) ==> method == "fs.upload.start"@,
        route_of(method) == Some(Route::FsUploadChunk) ==> method == "fs.upload.chunk"@,
        route_of(method) == Some(Route::FsUploadEnd) ==> method == "fs.upload.end"@,
        route_of(method) == Some(Route::FsDownload) ==> method == "fs.download"@,
        route_of(method) == Some(Route::MetricsCollect) ==> method == "metrics.collect"@,
        route_of(method) == Some(Route::ExecStream) ==> method == "exec.stream"@,
        route_of(method) == Some(Route::DockerList) ==> method == "docker.list"@,
        route_of(method) == Some(Route::DockerStats) ==> method == "docker.stats"@,
        route_of(method) == Some(Route::DockerInspect) ==> method == "docker.inspect"@,
        route_of(method) == Some(Route::DockerLogs) ==> method == "docker.logs"@,
        route_of(method) == Some(Route::RotateKey) ==> method == "rotate_key"@,
        route_of(method) == Some(Route::SelfUpdate) ==> method == "self_update"@,
        route_of(method) is None <==> {
            &&& method != "exec"@
            &&& method != "agent.heartbeat"@
            &&& method != "heartbeat"@
            &&& method != "ping"@
            &&& method != "system.info"@
            &&& method != "shell.open"@
            &&& method != "shell.data"@
            &&& method != "shell.resize"@
            &&& method != "shell.close"@
            &&& method != "fs.list"@
            &&& method != "fs.read"@
            &&& method != "fs.write"@
            &&& method != "fs.stat"@
            &&& method != "fs.mkdir"@
            &&& method != "fs.delete"@
            &&& method != "fs.rename"@
            &&& method != "fs.search"@
            &&& method != "fs.upload.start"@
            &&& method != "fs.upload.chunk"@
            &&& method != "fs.upload.end"@
            &&& method != "fs.download"@
            &&& method != "metrics.collect"@
            &&& method != "exec.stream"@
            &&& method != "docker.list"@
            &&& method != "docker.stats"@
            &&& method != "docker.inspect"@
            &&& method != "docker.logs"@
            &&& method != "rotate_key"@
            &&& method != "self_update"@
        },
{
}

/// A call goes by the route of its own kind.
pub proof fn law_calls_have_their_routes<F>(call: Call<F>)
    ensures
        call.route() == Route::Exec <==> call is Exec,
        call.route() == Route::Ping <==> call is Ping,
        call.route() == Route::SystemInfo <==> call is SystemInfo,
        call.route() == Route::ShellOpen <==> call is ShellOpen,
        call.route() == Route::ShellData <==> call is ShellData,
        call.route() == Route::ShellResize <==> call is ShellResize,
        call.route() == Route::ShellClose <==> call is ShellClose,
        call.route() == Route::FsList <==> call is FsList,
        call.route() == Route::FsRead <==> call is FsRead,
        call.route() == Route::FsWrite <==> call is FsWrite,
        call.route() == Route::FsStat <==> call is FsStat,
        call.route() == Route::FsMkdir <==> call is FsMkdir,
        call.route() == Route::FsDelete <==> call is FsDelete,
        call.route() == Route::FsRename <==> call is FsRename,
        call.route() == Route::FsSearch <==> call is FsSearch,
        call.route() == Route::FsUploadStart <==> call is FsUploadStart,
        call.route() == Route::FsUploadChunk <==> call is FsUploadChunk,
        call.route() == Route::FsUploadEnd <==> call is FsUploadEnd,
        call.route() == Route::FsDownload <==> call is FsDownload,
        call.route() == Route::MetricsCollect <==> call is MetricsCollect,
        call.route() == Route::ExecStream <==> call is ExecStream,
        call.route() == Route::DockerList <==> call is DockerList,
        call.route() == Route::DockerStats <==> call is DockerStats,
        call.route() == Route::DockerInspect <==> call is DockerInspect,
        call.route() == Route::DockerLogs <==> call is DockerLogs,
        call.route() == Route::RotateKey <==> call is RotateKey,
        call.route() == Route::SelfUpdate <==> call is SelfUpdate,
{
}

/// A request keeps its ID and its parameters on its way to its handler; one that
/// nothing answers is told so.
pub proof fn law_request_is_dispatched<V>(
    request: RpcRequest<V>,
    r: Result<Dispatched<V>, RpcResponse<V>>,
)
    requires
        dispatches(request, r),
    ensures
        r is Ok <==> route_of(request.method@) is Some,
        r matches Ok(d) ==> route_of(request.method@) == Some(d.route) && d.params
            == request.params,
        r matches Ok(d) ==> (request.id matches Some(id) ==> d.id@ == id@),
        r matches Ok(d) ==> (request.id is None ==> d.id@.len() == 0),
        r matches Err(response) ==> (request.id matches Some(id) ==> response.fails(
            id@,
            error_codes::METHOD_NOT_FOUND,
            "Method not found: "@ + request.method@,
        )),
        r matches Err(response) ==> (request.id is None ==> response.fails(
            Seq::empty(),
            error_codes::METHOD_NOT_FOUND,
            "Method not found: "@ + request.method@,
        )),
{
}

/// A ping is answered.
pub proof fn law_ping_is_answered(id: String, response: RpcResponse<HeartbeatResponse>)
    requires
        ping_answered(id, response),
    ensures
        response.answers(id@),
        response.payload().ok,
        exists|m: Moment|
            {
                &&& #[trigger] plain_moment(m)
                &&& 0 <= m.secs <= 8210266876799
                &&& response.payload().timestamp@ == utc_text(m.secs, m.nanos)
            },
{
}

/// A new key is set and saved where the configuration lies; the answer tells whether
/// it was saved.
pub proof fn law_key_is_rotated(
    id: String,
    params: Result<RotateKeyRequest, String>,
    before: DispatchContext,
    after: DispatchContext,
    r: Result<RotatePlan, RpcResponse<RotateKeyResponse>>,
    plan: RotatePlan,
    saved: Result<(), String>,
    response: RpcResponse<RotateKeyResponse>,
)
    requires
        rotate_key_begins(id, params, before, after, r),
        plan.finish_gives(saved, response),
    ensures
        after.config_path == before.config_path,
        r is Ok <==> params is Ok,
        r matches Ok(p) ==> {
            &&& p.id@ == id@
            &&& p.save.path@ == before.config_path@
            &&& p.save.temporary@ == extended(before.config_path@, "toml.tmp"@)
            &&& after.config.connection.api_key@ == params->Ok_0.new_api_key@
            &&& key_set(before.config, after.config, params->Ok_0.new_api_key@)
        },
        params matches Err(e) ==> after.config == before.config && r->Err_0.rejects_params(
            id@,
            e@,
        ),
        saved is Ok ==> response.answers(plan.id@) && response.payload().ok,
        saved matches Err(e) ==> response.fails(
            plan.id@,
            error_codes::AGENT_ERROR,
            "Failed to save new key: "@ + e@,
        ),
{
}

// ---------------------------------------------------------------------------
// Command line
// ---------------------------------------------------------------------------

/// The service is handed to `systemctl` with the verb that was given.
pub proof fn law_service_commands(action: ServiceAction, command: CommandSpec)
    requires
        service_command_gives(action, command),
    ensures
        command.env is None,
        action is Start ==> command.calls("systemctl"@, seq!["start"@, "nobase"@]),
        action is Stop ==> command.calls("systemctl"@, seq!["stop"@, "nobase"@]),
        action is Restart ==> command.calls("systemctl"@, seq!["restart"@, "nobase"@]),
        action is Status ==> command.calls("systemctl"@, seq!["status"@, "nobase"@]),
        action is Enable ==> command.calls("systemctl"@, seq!["enable"@, "nobase"@]),
        action is Disable ==> command.calls("systemctl"@, seq!["disable"@, "nobase"@]),
{
}

/// The logs are the last lines, as many as were asked for, and are followed where
/// that was asked for; without a number they are always followed.
pub proof fn law_logs_command(lines: Option<u32>, follow: bool, command: CommandSpec)
    requires
        logs_command_gives(lines, follow, command),
    ensures
        command.env is None,
        lines is None ==> command.calls("journalctl"@, seq!["-u"@, "nobase"@, "-f"@]),
        lines matches Some(n) ==> {
            &&& follow ==> command.calls(
                "journalctl"@,
                seq!["-u"@, "nobase"@, "-n"@, decimal(n as nat), "-f"@],
            )
            &&& !follow ==> command.calls(
                "journalctl"@,
                seq!["-u"@, "nobase"@, "-n"@, decimal(n as nat)],
            )
        },
{
}

/// The code of a command that ran is passed on, zero too; one that did not run or has
/// none is a failure. Only root gets past the check for root.
pub proof fn law_codes_of_the_command_line(
    ended: Option<Option<i32>>,
    code: i32,
    is_root: bool,
    r: Result<(), String>,
)
    requires
        passed_code_gives(ended, code),
        root_required_gives(is_root, r),
    ensures
        ended matches Some(Some(c)) ==> code == c,
        ended is None || ended->0 is None ==> code == 1,
        r is Ok <==> is_root,
        r matches Err(e) ==> e@ == "This command must be run as root (use sudo)"@,
{
}

/// An update from the command line succeeds where there is none or it was made, and
/// fails where none is configured or it failed.
pub proof fn law_update_report(ended: Result<UpdateResult, String>, r: (String, i32))
    requires
        update_report_gives(ended, r),
    ensures
        r.1 == 0 <==> ended is Ok && !(ended->Ok_0 is NotConfigured),
        r.1 == 0 || r.1 == 1,
        ended is Ok && ended->Ok_0 is AlreadyUpToDate ==> r.0@ == "  ✓ Already up-to-date"@,
        ended is Ok && ended->Ok_0 is Updated ==> r.0@
            == "  ✓ Update complete! Service is restarting."@,
        ended is Ok && ended->Ok_0 is NotConfigured ==> r.0@
            == "  ✗ backend_url is not set in config. Re-run the install script."@,
        ended matches Err(e) ==> r.0@ == "  ✗ Update failed: "@ + e@,
{
}

/// To be removed, the service is stopped and then disabled, and then its files go:
/// the unit first and the binary last.
pub proof fn law_removal(commands: Vec<CommandSpec>, list: Vec<Leftover>, reload: CommandSpec)
    requires
        reload_command_gives(reload),
        uninstall_commands_gives(commands),
        leftovers_gives(list),
    ensures
        reload.calls("systemctl"@, seq!["daemon-reload"@]),
        commands@.len() == 2,
        commands@[0].calls("systemctl"@, seq!["stop"@, "nobase"@]),
        commands@[1].calls("systemctl"@, seq!["disable"@, "nobase"@, "--quiet"@]),
        list@.len() == 6,
        list@[0].path@ == "/etc/systemd/system/nobase.service"@ && !list@[0].tree
            && list@[0].required && list@[0].reload,
        list@[1].path@ == "/etc/nobase"@ && list@[1].tree && list@[1].required,
        list@[2].path@ == "/var/log/nobase.log"@ && !list@[2].tree && !list@[2].required,
        list@[3].path@ == "/var/lib/nobase/metrics.db"@ && !list@[3].tree && !list@[3].required,
        list@[3].parent is Some && list@[3].parent->0@ == "/var/lib/nobase"@,
        list@[4].path@ == "/usr/local/bin/nobase-uninstall"@ && !list@[4].tree
            && !list@[4].required,
        list@[5].path@ == "/usr/local/bin/nobase"@ && !list@[5].tree && list@[5].required,
        forall|i: int| 0 < i < 6 ==> !(#[trigger] list@[i]).reload,
        forall|i: int| 0 <= i < 6 && i != 3 ==> (#[trigger] list@[i]).parent is None,
        list@[0].message@ == "  ✓ Systemd service removed"@,
        list@[1].message@ == "  ✓ Configuration removed (/etc/nobase)"@,
        list@[2].message@ == "  ✓ Log file removed"@,
        list@[3].message@ == "  ✓ Metrics database removed"@,
        list@[4].message@ == "  ✓ Legacy uninstall script removed"@,
        list@[5].message@ == "  ✓ Binary removed"@,
        commands@[0].env is None && commands@[1].env is None && reload.env is None,
{
    let t = removals(list@);
    assert(t.len() == 6);
    assert(t[0] == (list@[0].path@, list@[0].tree, list@[0].required, list@[0].message@));
    assert(t[1] == (list@[1].path@, list@[1].tree, list@[1].required, list@[1].message@));
    assert(t[2] == (list@[2].path@, list@[2].tree, list@[2].required, list@[2].message@));
    assert(t[3] == (list@[3].path@, list@[3].tree, list@[3].required, list@[3].message@));
    assert(t[4] == (list@[4].path@, list@[4].tree, list@[4].required, list@[4].message@));
    assert(t[5] == (list@[5].path@, list@[5].tree, list@[5].required, list@[5].message@));
}

} // verus!
