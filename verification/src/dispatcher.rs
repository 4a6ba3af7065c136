//! Which handler answers which method, and the agent's own methods.

use crate::clock::{is_timestamp, timestamp, timestamp_of, utc_text, within_calendar};
use crate::clock::{plain_moment, Moment};
use crate::command::CommandSpec;
use crate::config::{key_set, AgentConfig, SavePlan};
use crate::error_codes;
use crate::methods::{HeartbeatResponse, RotateKeyRequest, RotateKeyResponse};
use crate::paths::extended;
use crate::rpc::{RpcRequest, RpcResponse};
use crate::text::{cat2, same_text};
use crate::updater::{binary_location, check_and_update, supported, ChecksumPlan, UpdateResult};
use crate::updater::{UpdateOutcome, UpdateStep};
use vstd::prelude::*;
use vstd::string::StringExecFns;

verus! {

/// Shared state for handlers that need to modify it.
pub struct DispatchContext {
    pub config: AgentConfig,
    pub config_path: String,
}

/// What answers a request.
#[derive(Debug, Clone, Copy)]
pub enum Route {
    Exec,
    Ping,
    SystemInfo,
    ShellOpen,
    ShellData,
    ShellResize,
    ShellClose,
    FsList,
    FsRead,
    FsWrite,
    FsStat,
    FsMkdir,
    FsDelete,
    FsRename,
    FsSearch,
    FsUploadStart,
    FsUploadChunk,
    FsUploadEnd,
    FsDownload,
    MetricsCollect,
    ExecStream,
    DockerList,
    DockerStats,
    DockerInspect,
    DockerLogs,
    RotateKey,
    SelfUpdate,
}

/// What answers a method, if anything does.
pub open spec fn route_of(method: Seq<char>) -> Option<Route> {
    if method == "exec"@ {
        Some(Route::Exec)
    } else if method == "agent.heartbeat"@ || method == "heartbeat"@ || method == "ping"@ {
        Some(Route::Ping)
    } else if method == "system.info"@ {
        Some(Route::SystemInfo)
    } else if method == "shell.open"@ {
        Some(Route::ShellOpen)
    } else if method == "shell.data"@ {
        Some(Route::ShellData)
    } else if method == "shell.resize"@ {
        Some(Route::ShellResize)
    } else if method == "shell.close"@ {
        Some(Route::ShellClose)
    } else if method == "fs.list"@ {
        Some(Route::FsList)
    } else if method == "fs.read"@ {
        Some(Route::FsRead)
    } else if method == "fs.write"@ {
        Some(Route::FsWrite)
    } else if method == "fs.stat"@ {
        Some(Route::FsStat)
    } else if method == "fs.mkdir"@ {
        Some(Route::FsMkdir)
    } else if method == "fs.delete"@ {
        Some(Route::FsDelete)
    } else if method == "fs.rename"@ {
        Some(Route::FsRename)
    } else if method == "fs.search"@ {
        Some(Route::FsSearch)
    } else if method == "fs.upload.start"@ {
        Some(Route::FsUploadStart)
    } else if method == "fs.upload.chunk"@ {
        Some(Route::FsUploadChunk)
    } else if method == "fs.upload.end"@ {
        Some(Route::FsUploadEnd)
    } else if method == "fs.download"@ {
        Some(Route::FsDownload)
    } else if method == "metrics.collect"@ {
        Some(Route::MetricsCollect)
    } else if method == "exec.stream"@ {
        Some(Route::ExecStream)
    } else if method == "docker.list"@ {
        Some(Route::DockerList)
    } else if method == "docker.stats"@ {
        Some(Route::DockerStats)
    } else if method == "docker.inspect"@ {
        Some(Route::DockerInspect)
    } else if method == "docker.logs"@ {
        Some(Route::DockerLogs)
    } else if method == "rotate_key"@ {
        Some(Route::RotateKey)
    } else if method == "self_update"@ {
        Some(Route::SelfUpdate)
    } else {
        None
    }
}

/// What answers a method, if anything does.
pub fn route(method: &str) -> (r: Option<Route>)
    ensures
        r == route_of(method@),
{
    if same_text(method, "exec") {
        Some(Route::Exec)
    } else if same_text(method, "agent.heartbeat") || same_text(method, "heartbeat") || same_text(
        method,
        "ping",
    ) {
        Some(Route::Ping)
    } else if same_text(method, "system.info") {
        Some(Route::SystemInfo)
    } else if same_text(method, "shell.open") {
        Some(Route::ShellOpen)
    } else if same_text(method, "shell.data") {
        Some(Route::ShellData)
    } else if same_text(method, "shell.resize") {
        Some(Route::ShellResize)
    } else if same_text(method, "shell.close") {
        Some(Route::ShellClose)
    } else if same_text(method, "fs.list") {
        Some(Route::FsList)
    } else if same_text(method, "fs.read") {
        Some(Route::FsRead)
    } else if same_text(method, "fs.write") {
        Some(Route::FsWrite)
    } else if same_text(method, "fs.stat") {
        Some(Route::FsStat)
    } else if same_text(method, "fs.mkdir") {
        Some(Route::FsMkdir)
    } else if same_text(method, "fs.delete") {
        Some(Route::FsDelete)
    } else if same_text(method, "fs.rename") {
        Some(Route::FsRename)
    } else if same_text(method, "fs.search") {
        Some(Route::FsSearch)
    } else if same_text(method, "fs.upload.start") {
        Some(Route::FsUploadStart)
    } else if same_text(method, "fs.upload.chunk") {
        Some(Route::FsUploadChunk)
    } else if same_text(method, "fs.upload.end") {
        Some(Route::FsUploadEnd)
    } else if same_text(method, "fs.download") {
        Some(Route::FsDownload)
    } else if same_text(method, "metrics.collect") {
        Some(Route::MetricsCollect)
    } else if same_text(method, "exec.stream") {
        Some(Route::ExecStream)
    } else if same_text(method, "docker.list") {
        Some(Route::DockerList)
    } else if same_text(method, "docker.stats") {
        Some(Route::DockerStats)
    } else if same_text(method, "docker.inspect") {
        Some(Route::DockerInspect)
    } else if same_text(method, "docker.logs") {
        Some(Route::DockerLogs)
    } else if same_text(method, "rotate_key") {
        Some(Route::RotateKey)
    } else if same_text(method, "self_update") {
        Some(Route::SelfUpdate)
    } else {
        None
    }
}

/// A request on its way to what answers it.
pub struct Dispatched<V> {
    pub id: String,
    pub route: Route,
    pub params: V,
}

/// The ID of a request; nothing where it has none.
pub open spec fn id_of(id: Option<String>) -> Seq<char> {
    match id {
        Some(i) => i@,
        None => Seq::empty(),
    }
}

/// Whether a request is on its way to what answers its method, with its ID and
/// parameters, or is answered by an error where nothing does.
pub open spec fn dispatches<V>(
    request: RpcRequest<V>,
    r: Result<Dispatched<V>, RpcResponse<V>>,
) -> bool {
    match route_of(request.method@) {
        Some(route) => {
            &&& r matches Ok(d)
            &&& d.id@ == id_of(request.id)
            &&& d.route == route
            &&& d.params == request.params
        },
        None => r matches Err(response) && response.fails(
            id_of(request.id),
            error_codes::METHOD_NOT_FOUND,
            "Method not found: "@ + request.method@,
        ),
    }
}

/// Dispatch an incoming request to the handler of its method. A method that
/// nothing answers is an error.
pub fn dispatch_request<V>(request: RpcRequest<V>) -> (r: Result<Dispatched<V>, RpcResponse<V>>)
    ensures
        dispatches(request, r),
        r matches Err(response) ==> response.responds_to(id_of(request.id)),
{
    let id = match request.id {
        Some(id) => id,
        None => String::new(),
    };
    match route(request.method.as_str()) {
        Some(route) => Ok(Dispatched { id, route, params: request.params }),
        None => Err(
            RpcResponse::error(
                id,
                error_codes::METHOD_NOT_FOUND,
                cat2("Method not found: ", request.method.as_str()),
            ),
        ),
    }
}

// ---------------------------------------------------------------------------
// Ping
// ---------------------------------------------------------------------------

/// Whether this is what [`handle_ping_at`] gives.
pub open spec fn handle_ping_at_gives(
    id: String,
    moment: Moment,
    response: RpcResponse<HeartbeatResponse>,
) -> bool {
    &&& response.responds_to(id@)
    &&& response.answers(id@)
    &&& response.payload().ok
    &&& response.payload().timestamp@ == utc_text(moment.secs, moment.nanos)
}

/// Handle a ping at a moment.
pub fn handle_ping_at(id: String, moment: Moment) -> (response: RpcResponse<HeartbeatResponse>)
    requires
        plain_moment(moment),
        within_calendar(moment.secs as int),
    ensures
        handle_ping_at_gives(id, moment, response),
        response.responds_to(id@),
        response.answers(id@),
        response.payload().ok,
        response.payload().timestamp@ == utc_text(moment.secs, moment.nanos),
{
    RpcResponse::success(id, HeartbeatResponse { ok: true, timestamp: timestamp_of(moment) })
}

/// Whether this is what [`handle_ping`] gives.
pub open spec fn ping_answered(id: String, response: RpcResponse<HeartbeatResponse>) -> bool {
    &&& response.responds_to(id@)
    &&& response.answers(id@)
    &&& response.payload().ok
    &&& is_timestamp(response.payload().timestamp@)
}

/// Handle a ping: the response tells the present moment.
pub fn handle_ping(id: String) -> (response: RpcResponse<HeartbeatResponse>)
    ensures
        ping_answered(id, response),
        response.responds_to(id@),
        response.answers(id@),
        response.payload().ok,
        is_timestamp(response.payload().timestamp@),
{
    RpcResponse::success(id, HeartbeatResponse { ok: true, timestamp: timestamp() })
}

// ---------------------------------------------------------------------------
// API key rotation
// ---------------------------------------------------------------------------

/// A configuration with a new key, to be saved.
pub struct RotatePlan {
    pub id: String,
    pub save: SavePlan,
}

/// Whether this is what [`handle_rotate_key`] gives.
pub open spec fn rotate_key_begins(
    id: String,
    params: Result<RotateKeyRequest, String>,
    before: DispatchContext,
    after: DispatchContext,
    r: Result<RotatePlan, RpcResponse<RotateKeyResponse>>,
) -> bool {
    &&& r matches Err(response) ==> response.responds_to(id@)
    &&& after.config_path == before.config_path
    &&& match params {
        Ok(request) => {
            &&& r matches Ok(plan)
            &&& plan.id@ == id@
            &&& plan.save.path@ == before.config_path@
            &&& plan.save.temporary@ == extended(before.config_path@, "toml.tmp"@)
            &&& key_set(before.config, after.config, request.new_api_key@)
        },
        Err(e) => {
            &&& r matches Err(response) && response.rejects_params(id@, e@)
            &&& after.config == before.config
        },
    }
}

/// Handle `rotate_key`: the new key is used from then on, and to be saved.
pub fn handle_rotate_key(
    id: String,
    params: Result<RotateKeyRequest, String>,
    ctx: &mut DispatchContext,
) -> (r: Result<RotatePlan, RpcResponse<RotateKeyResponse>>)
    ensures
        rotate_key_begins(id, params, *old(ctx), *final(ctx), r),
        r matches Err(response) ==> response.responds_to(id@),
        final(ctx).config_path == old(ctx).config_path,
        match params {
            Ok(request) => {
                &&& r matches Ok(plan)
                &&& plan.id@ == id@
                &&& plan.save.path@ == old(ctx).config_path@
                &&& plan.save.temporary@ == extended(old(ctx).config_path@, "toml.tmp"@)
                &&& key_set(old(ctx).config, final(ctx).config, request.new_api_key@)
            },
            Err(e) => {
                &&& r matches Err(response) && response.rejects_params(id@, e@)
                &&& final(ctx).config == old(ctx).config
            },
        },
{
    match params {
        Ok(request) => {
            ctx.config.set_api_key(request.new_api_key);
            let save = ctx.config.save(ctx.config_path.as_str());
            Ok(RotatePlan { id, save })
        },
        Err(e) => Err(RpcResponse::invalid_params(id, e.as_str())),
    }
}

impl RotatePlan {
    /// Whether this is what [`Self::finish`] gives.
    pub open spec fn finish_gives(
        self,
        saved: Result<(), String>,
        response: RpcResponse<RotateKeyResponse>,
    ) -> bool {
        &&& response.responds_to(self.id@)
        &&& match saved {
            Ok(()) => response.succeeds(self.id@, RotateKeyResponse { ok: true }),
            Err(e) => response.fails(
                self.id@,
                error_codes::AGENT_ERROR,
                "Failed to save new key: "@ + e@,
            ),
        }
    }

    /// The response when the configuration was saved or not.
    pub fn finish(self, saved: Result<(), String>) -> (response: RpcResponse<RotateKeyResponse>)
        ensures
            self.finish_gives(saved, response),
            response.responds_to(self.id@),
            match saved {
                Ok(()) => response.succeeds(self.id@, RotateKeyResponse { ok: true }),
                Err(e) => response.fails(
                    self.id@,
                    error_codes::AGENT_ERROR,
                    "Failed to save new key: "@ + e@,
                ),
            },
    {
        match saved {
            Ok(()) => RpcResponse::success(self.id, RotateKeyResponse { ok: true }),
            Err(e) => RpcResponse::error(
                self.id,
                error_codes::AGENT_ERROR,
                cat2("Failed to save new key: ", e.as_str()),
            ),
        }
    }
}

// ---------------------------------------------------------------------------
// Self-update
// ---------------------------------------------------------------------------

/// The result of a self-update.
#[derive(Debug, Clone)]
pub struct SelfUpdateReply {
    pub status: String,
    pub message: String,
}

/// How a status names a result.
pub open spec fn status_name(result: UpdateResult) -> Seq<char> {
    match result {
        UpdateResult::AlreadyUpToDate => "up_to_date"@,
        UpdateResult::Updated { .. } => "updated"@,
        UpdateResult::NotConfigured => "not_configured"@,
    }
}

/// Whether this is what [`start_self_update`] gives.
pub open spec fn self_update_starts(
    ctx: DispatchContext,
    arch: &str,
    r: UpdateStep<ChecksumPlan>,
) -> bool {
    if ctx.config.connection.backend_url@.len() == 0 {
        r matches UpdateStep::Ended(Ok(UpdateResult::NotConfigured))
    } else if !supported(arch@) {
        r.failed("Unsupported architecture: "@ + arch@)
    } else {
        let at = binary_location(ctx.config.connection.backend_url@, arch@);
        &&& r matches UpdateStep::Next(plan)
        &&& plan.binary_url@ == at
        &&& plan.checksum_url@ == at + "/checksum"@
        &&& plan.restart_service
    }
}

/// Begin a self-update from the configured backend, after which the service is
/// restarted.
pub fn start_self_update(ctx: &DispatchContext, arch: &str) -> (r: UpdateStep<ChecksumPlan>)
    ensures
        self_update_starts(*ctx, arch, r),
        if ctx.config.connection.backend_url@.len() == 0 {
            r matches UpdateStep::Ended(Ok(UpdateResult::NotConfigured))
        } else if !supported(arch@) {
            r.failed("Unsupported architecture: "@ + arch@)
        } else {
            let at = binary_location(ctx.config.connection.backend_url@, arch@);
            &&& r matches UpdateStep::Next(plan)
            &&& plan.binary_url@ == at
            &&& plan.checksum_url@ == at + "/checksum"@
            &&& plan.restart_service
        },
{
    check_and_update(ctx.config.connection.backend_url.as_str(), arch, true)
}

/// The answer to a `self_update`. The response is sent first; the command is run
/// when it has gone out.
pub struct SelfUpdateAnswer {
    pub response: RpcResponse<SelfUpdateReply>,
    /// The command that restarts the service, if it is to be restarted.
    pub then_run: Option<CommandSpec>,
}

/// Whether this is what [`handle_self_update`] gives.
pub open spec fn self_update_ends(
    id: String,
    ended: Result<UpdateOutcome, String>,
    version: &str,
    r: SelfUpdateAnswer,
) -> bool {
    &&& r.response.responds_to(id@)
    &&& match ended {
        Ok(outcome) => {
            &&& r.response.answers(id@)
            &&& r.response.payload().status@ == status_name(outcome.result)
            &&& r.response.payload().message@ == outcome.result.words(version@)
            &&& r.then_run == outcome.restart
        },
        Err(e) => {
            &&& r.response.fails(id@, error_codes::AGENT_ERROR, "Update failed: "@ + e@)
            &&& r.then_run is None
        },
    }
}

/// Handle `self_update`: the response with how the update ended, to an agent of
/// this version, and the restart that follows the response.
pub fn handle_self_update(id: String, ended: Result<UpdateOutcome, String>, version: &str) -> (r:
    SelfUpdateAnswer)
    requires
        ended matches Ok(outcome) ==> outcome.result.wf(),
    ensures
        self_update_ends(id, ended, version, r),
        r.response.responds_to(id@),
        match ended {
            Ok(outcome) => {
                &&& r.response.answers(id@)
                &&& r.response.payload().status@ == status_name(outcome.result)
                &&& r.response.payload().message@ == outcome.result.words(version@)
                &&& r.then_run == outcome.restart
            },
            Err(e) => {
                &&& r.response.fails(id@, error_codes::AGENT_ERROR, "Update failed: "@ + e@)
                &&& r.then_run is None
            },
        },
{
    match ended {
        Ok(outcome) => {
            let status = match &outcome.result {
                UpdateResult::AlreadyUpToDate => "up_to_date",
                UpdateResult::Updated { .. } => "updated",
                UpdateResult::NotConfigured => "not_configured",
            };
            let message = outcome.result.message(version);
            let reply = SelfUpdateReply { status: String::from_str(status), message };
            SelfUpdateAnswer {
                response: RpcResponse::success(id, reply),
                then_run: outcome.restart,
            }
        },
        Err(e) => {
            let message = cat2("Update failed: ", e.as_str());
            SelfUpdateAnswer {
                response: RpcResponse::error(id, error_codes::AGENT_ERROR, message),
                then_run: None,
            }
        },
    }
}

} // verus!
