//! What a request leads to, whatever its method: the handler of its route is given
//! the parameters, and what it gives is a response, or a plan whose steps end in one.

use crate::command::{CommandOutput, CommandSpec};
use crate::dispatcher::{
    dispatches, handle_ping, handle_rotate_key, id_of, ping_answered, rotate_key_begins,
    self_update_ends, self_update_starts, start_self_update, DispatchContext, Dispatched,
    RotatePlan, Route, SelfUpdateAnswer, SelfUpdateReply,
};
use crate::handlers::docker::{
    connect_failed_gives, docker_inspect_begins, docker_list_begins, docker_logs_begins,
    docker_stats_begins, handle_docker_inspect, handle_docker_list, handle_docker_logs,
    handle_docker_stats, ContainerFacts, DockerInspectPlan, DockerListPlan, DockerLogsPlan,
    DockerLogsReply, DockerStatsPlan, LogCollector, LogStream,
};
use crate::handlers::exec::{
    exec_begins, exec_stream_begins, handle_exec, handle_exec_stream, handle_system_info,
    system_info_answered, ExecOutcome, ExecPlan, ExecStreamPlan, HostFacts, OutputStream,
};
use crate::handlers::fs::{
    fs_delete_begins, fs_list_begins, fs_mkdir_begins, fs_read_begins, fs_rename_begins,
    fs_search_begins, fs_stat_begins, fs_write_begins, handle_fs_delete, handle_fs_list,
    handle_fs_mkdir, handle_fs_read, handle_fs_rename, handle_fs_search, handle_fs_stat,
    handle_fs_write, ExitReport, FoundFile, FsDeletePlan, FsListPlan, FsMkdirPlan, FsReadPlan,
    FsReadSized, FsRenamePlan, FsSearchPlan, FsStatPlan, FsWritePlan, FsWriteReply, OkReply,
    StatFailure, TeeOutcome,
};
use crate::handlers::fs_entry::FileMeta;
use crate::handlers::metrics::{handle_metrics_collect, metrics_collect_answered};
use crate::handlers::shell::{
    handle_shell_close, handle_shell_data, handle_shell_open, handle_shell_resize,
    shell_close_answered, shell_data_begins, shell_open_begins, shell_resize_begins,
    ShellDataPlan, ShellOpenPlan, ShellResizePlan, ShellSession, ShellTeardown,
};
use crate::handlers::transfer::{
    fs_download_begins, fs_upload_chunk_begins, fs_upload_end_begins, fs_upload_start_begins,
    handle_fs_download, handle_fs_upload_chunk, handle_fs_upload_end, handle_fs_upload_start,
    ChunkOutcome, ChunkPlan, DownloadPlan, DownloadReply, DownloadStream, SyncOutcome,
    UploadEndPlan, UploadEndReply, UploadMove, UploadProgressReply, UploadStartPlan,
    UploadStartReply, UploadTransfer, UploadVerdict,
};
use crate::methods::{
    ContainerStats, DockerInspectRequest, DockerListRequest, DockerListResponse,
    DockerLogsRequest, DockerStatsRequest, DockerStatsResponse, ExecRequest, ExecResponse,
    ExecStreamRequest, FsDeleteRequest, FsDownloadRequest, FsListRequest, FsListResponse,
    FsMkdirRequest, FsReadRequest, FsReadResponse, FsRenameRequest, FsSearchRequest,
    FsSearchResponse, FsStatRequest, FsStatResponse, FsUploadChunkRequest, FsUploadEndRequest,
    FsUploadStartRequest, FsWriteRequest, HeartbeatResponse, RotateKeyRequest, RotateKeyResponse,
    ShellCloseRequest, ShellDataRequest, ShellOpenRequest, ShellOpenResponse, ShellResizeRequest,
    SystemInfoResponse,
};
use crate::metrics::MetricsPayload;
use crate::registry::Registry;
use crate::rpc::{RpcRequest, RpcResponse};
use crate::stream::StreamingReply;
use crate::updater::{ChecksumPlan, UpdateOutcome, UpdateStep};
use vstd::prelude::*;

verus! {

/// A request by its route, with its parameters, or why they could not be read. What
/// a route needs of the host instead of parameters comes with it. `F` is a floating
/// point number.
pub enum Call<F> {
    Exec(Result<ExecRequest, String>),
    Ping,
    SystemInfo(HostFacts),
    ShellOpen(Result<ShellOpenRequest, String>),
    ShellData(Result<ShellDataRequest, String>),
    ShellResize(Result<ShellResizeRequest, String>),
    ShellClose(Result<ShellCloseRequest, String>),
    FsList(Result<FsListRequest, String>),
    FsRead(Result<FsReadRequest, String>),
    FsWrite(Result<FsWriteRequest, String>),
    FsStat(Result<FsStatRequest, String>),
    FsMkdir(Result<FsMkdirRequest, String>),
    FsDelete(Result<FsDeleteRequest, String>),
    FsRename(Result<FsRenameRequest, String>),
    FsSearch(Result<FsSearchRequest, String>),
    FsUploadStart(Result<FsUploadStartRequest, String>),
    FsUploadChunk(Result<FsUploadChunkRequest, String>),
    FsUploadEnd(Result<FsUploadEndRequest, String>),
    FsDownload(Result<FsDownloadRequest, String>),
    MetricsCollect(MetricsPayload<F>),
    ExecStream(Result<ExecStreamRequest, String>),
    DockerList(Result<DockerListRequest, String>),
    DockerStats(Result<DockerStatsRequest, String>),
    DockerInspect(Result<DockerInspectRequest, String>),
    DockerLogs(Result<DockerLogsRequest, String>),
    RotateKey(Result<RotateKeyRequest, String>),
    SelfUpdate,
}

impl<F> Call<F> {
    /// The route of the request.
    pub open spec fn route(self) -> Route {
        match self {
            Call::Exec(_) => Route::Exec,
            Call::Ping => Route::Ping,
            Call::SystemInfo(_) => Route::SystemInfo,
            Call::ShellOpen(_) => Route::ShellOpen,
            Call::ShellData(_) => Route::ShellData,
            Call::ShellResize(_) => Route::ShellResize,
            Call::ShellClose(_) => Route::ShellClose,
            Call::FsList(_) => Route::FsList,
            Call::FsRead(_) => Route::FsRead,
            Call::FsWrite(_) => Route::FsWrite,
            Call::FsStat(_) => Route::FsStat,
            Call::FsMkdir(_) => Route::FsMkdir,
            Call::FsDelete(_) => Route::FsDelete,
            Call::FsRename(_) => Route::FsRename,
            Call::FsSearch(_) => Route::FsSearch,
            Call::FsUploadStart(_) => Route::FsUploadStart,
            Call::FsUploadChunk(_) => Route::FsUploadChunk,
            Call::FsUploadEnd(_) => Route::FsUploadEnd,
            Call::FsDownload(_) => Route::FsDownload,
            Call::MetricsCollect(_) => Route::MetricsCollect,
            Call::ExecStream(_) => Route::ExecStream,
            Call::DockerList(_) => Route::DockerList,
            Call::DockerStats(_) => Route::DockerStats,
            Call::DockerInspect(_) => Route::DockerInspect,
            Call::DockerLogs(_) => Route::DockerLogs,
            Call::RotateKey(_) => Route::RotateKey,
            Call::SelfUpdate => Route::SelfUpdate,
        }
    }

    /// Why the parameters could not be read, if they could not.
    pub open spec fn unreadable(self) -> Option<Seq<char>> {
        match self {
            Call::Exec(params) => reason(params),
            Call::Ping => None,
            Call::SystemInfo(_) => None,
            Call::ShellOpen(params) => reason(params),
            Call::ShellData(params) => reason(params),
            Call::ShellResize(params) => reason(params),
            Call::ShellClose(params) => reason(params),
            Call::FsList(params) => reason(params),
            Call::FsRead(params) => reason(params),
            Call::FsWrite(params) => reason(params),
            Call::FsStat(params) => reason(params),
            Call::FsMkdir(params) => reason(params),
            Call::FsDelete(params) => reason(params),
            Call::FsRename(params) => reason(params),
            Call::FsSearch(params) => reason(params),
            Call::FsUploadStart(params) => reason(params),
            Call::FsUploadChunk(params) => reason(params),
            Call::FsUploadEnd(params) => reason(params),
            Call::FsDownload(params) => reason(params),
            Call::MetricsCollect(_) => None,
            Call::ExecStream(params) => reason(params),
            Call::DockerList(params) => reason(params),
            Call::DockerStats(params) => reason(params),
            Call::DockerInspect(params) => reason(params),
            Call::DockerLogs(params) => reason(params),
            Call::RotateKey(params) => reason(params),
            Call::SelfUpdate => None,
        }
    }
}

/// Why parameters could not be read, if they could not.
pub open spec fn reason<P>(params: Result<P, String>) -> Option<Seq<char>> {
    match params {
        Ok(_) => None,
        Err(e) => Some(e@),
    }
}

/// What the handler of a route gives: a response, or a plan. `F` is a floating point
/// number, `J` a JSON value, `S` what tells a shell's reader to stop and `H` an open
/// file.
pub enum Begun<F, J, S, H> {
    Exec(Result<ExecPlan, RpcResponse<ExecResponse>>),
    Ping(RpcResponse<HeartbeatResponse>),
    SystemInfo(RpcResponse<SystemInfoResponse>),
    ShellOpen(Result<ShellOpenPlan, RpcResponse<ShellOpenResponse>>),
    ShellData(Result<ShellDataPlan, RpcResponse<OkReply>>),
    ShellResize(Result<ShellResizePlan, RpcResponse<OkReply>>),
    ShellClose((RpcResponse<OkReply>, Option<ShellTeardown<S>>)),
    FsList(Result<FsListPlan, RpcResponse<FsListResponse>>),
    FsRead(Result<FsReadPlan, RpcResponse<FsReadResponse>>),
    FsWrite(Result<FsWritePlan, RpcResponse<FsWriteReply>>),
    FsStat(Result<FsStatPlan, RpcResponse<FsStatResponse>>),
    FsMkdir(Result<FsMkdirPlan, RpcResponse<OkReply>>),
    FsDelete(Result<FsDeletePlan, RpcResponse<OkReply>>),
    FsRename(Result<FsRenamePlan, RpcResponse<OkReply>>),
    FsSearch(Result<FsSearchPlan, RpcResponse<FsSearchResponse>>),
    FsUploadStart(Result<UploadStartPlan, RpcResponse<UploadStartReply>>),
    FsUploadChunk(Result<ChunkPlan, RpcResponse<UploadProgressReply>>),
    FsUploadEnd(Result<(UploadEndPlan, H), RpcResponse<UploadEndReply>>),
    FsDownload(Result<DownloadPlan, RpcResponse<DownloadReply>>),
    MetricsCollect(RpcResponse<MetricsPayload<F>>),
    ExecStream(Result<ExecStreamPlan, RpcResponse<StreamingReply>>),
    DockerList(Result<DockerListPlan, RpcResponse<DockerListResponse>>),
    DockerStats(Result<DockerStatsPlan, RpcResponse<DockerStatsResponse<F>>>),
    DockerInspect(Result<DockerInspectPlan, RpcResponse<J>>),
    DockerLogs(Result<DockerLogsPlan, RpcResponse<J>>),
    RotateKey(Result<RotatePlan, RpcResponse<RotateKeyResponse>>),
    SelfUpdate { id: String, start: UpdateStep<ChecksumPlan> },
}

/// What the agent keeps from one request to the next.
pub struct Holdings<S, H> {
    pub ctx: DispatchContext,
    pub sessions: Registry<ShellSession<S>>,
    pub uploads: Registry<UploadTransfer<H>>,
}

/// The parts of what the agent keeps, together.
pub open spec fn holdings<S, H>(
    ctx: DispatchContext,
    sessions: Registry<ShellSession<S>>,
    uploads: Registry<UploadTransfer<H>>,
) -> Holdings<S, H> {
    Holdings { ctx, sessions, uploads }
}

/// Whether this is what the handler of the request's route gives to the ID and the
/// parameters. A route changes nothing that the agent keeps but what it is about.
pub open spec fn begins<F, J, S, H>(
    id: String,
    call: Call<F>,
    arch: &str,
    before: Holdings<S, H>,
    after: Holdings<S, H>,
    begun: Begun<F, J, S, H>,
) -> bool {
    let security = &before.ctx.config.security;
    &&& !(call is RotateKey) ==> after.ctx == before.ctx
    &&& !(call is ShellClose) ==> after.sessions == before.sessions
    &&& !(call is FsUploadEnd) ==> after.uploads == before.uploads
    &&& match call {
        Call::Exec(params) => begun matches Begun::Exec(r) && exec_begins(id, params, security, r),
        Call::Ping => begun matches Begun::Ping(r) && ping_answered(id, r),
        Call::SystemInfo(facts) => begun matches Begun::SystemInfo(r) && system_info_answered(
            id,
            facts,
            r,
        ),
        Call::ShellOpen(params) => begun matches Begun::ShellOpen(r) && shell_open_begins(
            id,
            params,
            &before.sessions,
            r,
        ),
        Call::ShellData(params) => begun matches Begun::ShellData(r) && shell_data_begins(
            id,
            params,
            &before.sessions,
            r,
        ),
        Call::ShellResize(params) => begun matches Begun::ShellResize(r) && shell_resize_begins(
            id,
            params,
            &before.sessions,
            r,
        ),
        Call::ShellClose(params) => begun matches Begun::ShellClose(r) && shell_close_answered(
            id,
            params,
            before.sessions,
            after.sessions,
            r,
        ),
        Call::FsList(params) => begun matches Begun::FsList(r) && fs_list_begins(
            id,
            params,
            security,
            r,
        ),
        Call::FsRead(params) => begun matches Begun::FsRead(r) && fs_read_begins(
            id,
            params,
            security,
            r,
        ),
        Call::FsWrite(params) => begun matches Begun::FsWrite(r) && fs_write_begins(
            id,
            params,
            security,
            r,
        ),
        Call::FsStat(params) => begun matches Begun::FsStat(r) && fs_stat_begins(
            id,
            params,
            security,
            r,
        ),
        Call::FsMkdir(params) => begun matches Begun::FsMkdir(r) && fs_mkdir_begins(
            id,
            params,
            security,
            r,
        ),
        Call::FsDelete(params) => begun matches Begun::FsDelete(r) && fs_delete_begins(
            id,
            params,
            security,
            r,
        ),
        Call::FsRename(params) => begun matches Begun::FsRename(r) && fs_rename_begins(
            id,
            params,
            security,
            r,
        ),
        Call::FsSearch(params) => begun matches Begun::FsSearch(r) && fs_search_begins(
            id,
            params,
            security,
            r,
        ),
        Call::FsUploadStart(params) => begun matches Begun::FsUploadStart(r)
            && fs_upload_start_begins(id, params, security, r),
        Call::FsUploadChunk(params) => begun matches Begun::FsUploadChunk(r)
            && fs_upload_chunk_begins(id, params, &before.uploads, r),
        Call::FsUploadEnd(params) => begun matches Begun::FsUploadEnd(r) && fs_upload_end_begins(
            id,
            params,
            before.uploads,
            after.uploads,
            r,
        ),
        Call::FsDownload(params) => begun matches Begun::FsDownload(r) && fs_download_begins(
            id,
            params,
            security,
            r,
        ),
        Call::MetricsCollect(facts) => begun matches Begun::MetricsCollect(r)
            && metrics_collect_answered(id, facts, r),
        Call::ExecStream(params) => begun matches Begun::ExecStream(r) && exec_stream_begins(
            id,
            params,
            security,
            r,
        ),
        Call::DockerList(params) => begun matches Begun::DockerList(r) && docker_list_begins(
            id,
            params,
            r,
        ),
        Call::DockerStats(params) => begun matches Begun::DockerStats(r) && docker_stats_begins(
            id,
            params,
            r,
        ),
        Call::DockerInspect(params) => begun matches Begun::DockerInspect(r)
            && docker_inspect_begins(id, params, r),
        Call::DockerLogs(params) => begun matches Begun::DockerLogs(r) && docker_logs_begins(
            id,
            params,
            r,
        ),
        Call::RotateKey(params) => begun matches Begun::RotateKey(r) && rotate_key_begins(
            id,
            params,
            before.ctx,
            after.ctx,
            r,
        ),
        Call::SelfUpdate => begun matches Begun::SelfUpdate { id: own, start } && own@ == id@
            && self_update_starts(before.ctx, arch, start),
    }
}

/// Begin to answer a request: hand its parameters to the handler of its route.
pub fn begin<F, J, S, H>(
    id: String,
    call: Call<F>,
    arch: &str,
    ctx: &mut DispatchContext,
    sessions: &mut Registry<ShellSession<S>>,
    uploads: &mut Registry<UploadTransfer<H>>,
) -> (begun: Begun<F, J, S, H>)
    requires
        old(sessions).wf(),
        old(uploads).wf(),
    ensures
        final(sessions).wf(),
        final(uploads).wf(),
        begins(
            id,
            call,
            arch,
            holdings(*old(ctx), *old(sessions), *old(uploads)),
            holdings(*final(ctx), *final(sessions), *final(uploads)),
            begun,
        ),
{
    match call {
        Call::Exec(params) => Begun::Exec(handle_exec(id, params, &ctx.config.security)),
        Call::Ping => Begun::Ping(handle_ping(id)),
        Call::SystemInfo(facts) => Begun::SystemInfo(handle_system_info(id, facts)),
        Call::ShellOpen(params) => Begun::ShellOpen(handle_shell_open(id, params, sessions)),
        Call::ShellData(params) => Begun::ShellData(handle_shell_data(id, params, sessions)),
        Call::ShellResize(params) => Begun::ShellResize(handle_shell_resize(id, params, sessions)),
        Call::ShellClose(params) => Begun::ShellClose(handle_shell_close(id, params, sessions)),
        Call::FsList(params) => Begun::FsList(handle_fs_list(id, params, &ctx.config.security)),
        Call::FsRead(params) => Begun::FsRead(handle_fs_read(id, params, &ctx.config.security)),
        Call::FsWrite(params) => Begun::FsWrite(handle_fs_write(id, params, &ctx.config.security)),
        Call::FsStat(params) => Begun::FsStat(handle_fs_stat(id, params, &ctx.config.security)),
        Call::FsMkdir(params) => Begun::FsMkdir(handle_fs_mkdir(id, params, &ctx.config.security)),
        Call::FsDelete(params) => Begun::FsDelete(
            handle_fs_delete(id, params, &ctx.config.security),
        ),
        Call::FsRename(params) => Begun::FsRename(
            handle_fs_rename(id, params, &ctx.config.security),
        ),
        Call::FsSearch(params) => Begun::FsSearch(
            handle_fs_search(id, params, &ctx.config.security),
        ),
        Call::FsUploadStart(params) => Begun::FsUploadStart(
            handle_fs_upload_start(id, params, &ctx.config.security),
        ),
        Call::FsUploadChunk(params) => Begun::FsUploadChunk(
            handle_fs_upload_chunk(id, params, uploads),
        ),
        Call::FsUploadEnd(params) => Begun::FsUploadEnd(handle_fs_upload_end(id, params, uploads)),
        Call::FsDownload(params) => Begun::FsDownload(
            handle_fs_download(id, params, &ctx.config.security),
        ),
        Call::MetricsCollect(facts) => Begun::MetricsCollect(handle_metrics_collect(id, facts)),
        Call::ExecStream(params) => Begun::ExecStream(
            handle_exec_stream(id, params, &ctx.config.security),
        ),
        Call::DockerList(params) => Begun::DockerList(handle_docker_list(id, params)),
        Call::DockerStats(params) => Begun::DockerStats(handle_docker_stats(id, params)),
        Call::DockerInspect(params) => Begun::DockerInspect(handle_docker_inspect(id, params)),
        Call::DockerLogs(params) => Begun::DockerLogs(handle_docker_logs(id, params)),
        Call::RotateKey(params) => Begun::RotateKey(handle_rotate_key(id, params, ctx)),
        Call::SelfUpdate => Begun::SelfUpdate { id, start: start_self_update(ctx, arch) },
    }
}

/// A response to a request, by what it carries.
pub enum Reply<F, J> {
    Exec(RpcResponse<ExecResponse>),
    Ping(RpcResponse<HeartbeatResponse>),
    SystemInfo(RpcResponse<SystemInfoResponse>),
    ShellOpen(RpcResponse<ShellOpenResponse>),
    Done(RpcResponse<OkReply>),
    FsList(RpcResponse<FsListResponse>),
    FsRead(RpcResponse<FsReadResponse>),
    FsWrite(RpcResponse<FsWriteReply>),
    FsStat(RpcResponse<FsStatResponse>),
    FsSearch(RpcResponse<FsSearchResponse>),
    UploadStart(RpcResponse<UploadStartReply>),
    UploadProgress(RpcResponse<UploadProgressReply>),
    UploadEnd(RpcResponse<UploadEndReply>),
    Download(RpcResponse<DownloadReply>),
    Metrics(RpcResponse<MetricsPayload<F>>),
    Streaming(RpcResponse<StreamingReply>),
    DockerList(RpcResponse<DockerListResponse>),
    DockerStats(RpcResponse<DockerStatsResponse<F>>),
    Json(RpcResponse<J>),
    DockerLogs(RpcResponse<DockerLogsReply>),
    RotateKey(RpcResponse<RotateKeyResponse>),
    SelfUpdate(RpcResponse<SelfUpdateReply>),
}

impl<F, J> Reply<F, J> {
    /// Whether this is one whole response to the request with the given ID.
    pub open spec fn responds_to(self, id: Seq<char>) -> bool {
        match self {
            Reply::Exec(response) => response.responds_to(id),
            Reply::Ping(response) => response.responds_to(id),
            Reply::SystemInfo(response) => response.responds_to(id),
            Reply::ShellOpen(response) => response.responds_to(id),
            Reply::Done(response) => response.responds_to(id),
            Reply::FsList(response) => response.responds_to(id),
            Reply::FsRead(response) => response.responds_to(id),
            Reply::FsWrite(response) => response.responds_to(id),
            Reply::FsStat(response) => response.responds_to(id),
            Reply::FsSearch(response) => response.responds_to(id),
            Reply::UploadStart(response) => response.responds_to(id),
            Reply::UploadProgress(response) => response.responds_to(id),
            Reply::UploadEnd(response) => response.responds_to(id),
            Reply::Download(response) => response.responds_to(id),
            Reply::Metrics(response) => response.responds_to(id),
            Reply::Streaming(response) => response.responds_to(id),
            Reply::DockerList(response) => response.responds_to(id),
            Reply::DockerStats(response) => response.responds_to(id),
            Reply::Json(response) => response.responds_to(id),
            Reply::DockerLogs(response) => response.responds_to(id),
            Reply::RotateKey(response) => response.responds_to(id),
            Reply::SelfUpdate(response) => response.responds_to(id),
        }
    }

    /// Whether this is the response to a request whose parameters could not be
    /// read for the given reason.
    pub open spec fn rejects_params(self, id: Seq<char>, reason: Seq<char>) -> bool {
        match self {
            Reply::Exec(response) => response.rejects_params(id, reason),
            Reply::Ping(response) => response.rejects_params(id, reason),
            Reply::SystemInfo(response) => response.rejects_params(id, reason),
            Reply::ShellOpen(response) => response.rejects_params(id, reason),
            Reply::Done(response) => response.rejects_params(id, reason),
            Reply::FsList(response) => response.rejects_params(id, reason),
            Reply::FsRead(response) => response.rejects_params(id, reason),
            Reply::FsWrite(response) => response.rejects_params(id, reason),
            Reply::FsStat(response) => response.rejects_params(id, reason),
            Reply::FsSearch(response) => response.rejects_params(id, reason),
            Reply::UploadStart(response) => response.rejects_params(id, reason),
            Reply::UploadProgress(response) => response.rejects_params(id, reason),
            Reply::UploadEnd(response) => response.rejects_params(id, reason),
            Reply::Download(response) => response.rejects_params(id, reason),
            Reply::Metrics(response) => response.rejects_params(id, reason),
            Reply::Streaming(response) => response.rejects_params(id, reason),
            Reply::DockerList(response) => response.rejects_params(id, reason),
            Reply::DockerStats(response) => response.rejects_params(id, reason),
            Reply::Json(response) => response.rejects_params(id, reason),
            Reply::DockerLogs(response) => response.rejects_params(id, reason),
            Reply::RotateKey(response) => response.rejects_params(id, reason),
            Reply::SelfUpdate(response) => response.rejects_params(id, reason),
        }
    }

    /// The code of the error, if the response is one.
    pub open spec fn code(self) -> Option<i32> {
        match self {
            Reply::Exec(response) => code_of(response),
            Reply::Ping(response) => code_of(response),
            Reply::SystemInfo(response) => code_of(response),
            Reply::ShellOpen(response) => code_of(response),
            Reply::Done(response) => code_of(response),
            Reply::FsList(response) => code_of(response),
            Reply::FsRead(response) => code_of(response),
            Reply::FsWrite(response) => code_of(response),
            Reply::FsStat(response) => code_of(response),
            Reply::FsSearch(response) => code_of(response),
            Reply::UploadStart(response) => code_of(response),
            Reply::UploadProgress(response) => code_of(response),
            Reply::UploadEnd(response) => code_of(response),
            Reply::Download(response) => code_of(response),
            Reply::Metrics(response) => code_of(response),
            Reply::Streaming(response) => code_of(response),
            Reply::DockerList(response) => code_of(response),
            Reply::DockerStats(response) => code_of(response),
            Reply::Json(response) => code_of(response),
            Reply::DockerLogs(response) => code_of(response),
            Reply::RotateKey(response) => code_of(response),
            Reply::SelfUpdate(response) => code_of(response),
        }
    }
}

/// The code of the error, if a response is one.
pub open spec fn code_of<V>(response: RpcResponse<V>) -> Option<i32> {
    match response.error {
        Some(e) => Some(e.code),
        None => None,
    }
}
/// Whether this is a response that what the handler gave leads to: its own, or one
/// that the steps of its plan end in, whatever comes of what they ask to be done.
pub open spec fn leads_to<F, J, S, H>(begun: Begun<F, J, S, H>, reply: Reply<F, J>) -> bool {
    match begun {
        Begun::Exec(Err(refusal)) => reply == Reply::<F, J>::Exec(refusal),
        Begun::Exec(Ok(plan)) => {
            &&& reply matches Reply::Exec(response)
            &&& exists|outcome: ExecOutcome, ms: u64| #[trigger]
                plan.finish_gives(outcome, ms, response)
        },
        Begun::Ping(response) => reply == Reply::<F, J>::Ping(response),
        Begun::SystemInfo(response) => reply == Reply::<F, J>::SystemInfo(response),
        Begun::ShellOpen(Err(refusal)) => reply == Reply::<F, J>::ShellOpen(refusal),
        Begun::ShellOpen(Ok(plan)) => {
            &&& reply matches Reply::ShellOpen(response)
            &&& exists|
                created: Result<ShellSession<S>, String>,
                before: Registry<ShellSession<S>>,
                after: Registry<ShellSession<S>>,
            | #[trigger]
                plan.on_created_gives(created, before, after, response)
        },
        Begun::ShellData(Err(refusal)) => reply == Reply::<F, J>::Done(refusal),
        Begun::ShellData(Ok(plan)) => {
            &&& reply matches Reply::Done(response)
            &&& exists|written: Result<(), String>| #[trigger] plan.finish_gives(written, response)
        },
        Begun::ShellResize(Err(refusal)) => reply == Reply::<F, J>::Done(refusal),
        Begun::ShellResize(Ok(plan)) => {
            &&& reply matches Reply::Done(response)
            &&& exists|resized: Result<(), String>| #[trigger] plan.finish_gives(resized, response)
        },
        Begun::ShellClose((response, _)) => reply == Reply::<F, J>::Done(response),
        Begun::FsList(Err(refusal)) => reply == Reply::<F, J>::FsList(refusal),
        Begun::FsList(Ok(FsListPlan::Direct(plan))) => {
            &&& reply matches Reply::FsList(response)
            &&& exists|found: Result<Vec<FoundFile>, String>| #[trigger]
                plan.on_entries_gives(found, response)
        },
        Begun::FsList(Ok(FsListPlan::Sudo(plan))) => {
            &&& reply matches Reply::FsList(response)
            &&& exists|output: Result<CommandOutput, String>| #[trigger]
                plan.on_output_gives(output, response)
        },
        Begun::FsRead(Err(refusal)) => reply == Reply::<F, J>::FsRead(refusal),
        Begun::FsRead(Ok(plan)) => reply matches Reply::FsRead(response) && read_leads_to(
            plan,
            response,
        ),
        Begun::FsWrite(Err(refusal)) => reply == Reply::<F, J>::FsWrite(refusal),
        Begun::FsWrite(Ok(plan)) => reply matches Reply::FsWrite(response) && write_leads_to(
            plan,
            response,
        ),
        Begun::FsStat(Err(refusal)) => reply == Reply::<F, J>::FsStat(refusal),
        Begun::FsStat(Ok(FsStatPlan::Direct(plan))) => {
            &&& reply matches Reply::FsStat(response)
            &&& exists|meta: Result<FileMeta, StatFailure>| #[trigger]
                plan.on_metadata_gives(meta, response)
        },
        Begun::FsStat(Ok(FsStatPlan::Sudo(plan))) => {
            &&& reply matches Reply::FsStat(response)
            &&& exists|output: Result<CommandOutput, String>| #[trigger]
                plan.on_output_gives(output, response)
        },
        Begun::FsMkdir(Err(refusal)) => reply == Reply::<F, J>::Done(refusal),
        Begun::FsMkdir(Ok(FsMkdirPlan::Direct(plan))) => {
            &&& reply matches Reply::Done(response)
            &&& exists|created: Result<(), String>| #[trigger] plan.finish_gives(created, response)
        },
        Begun::FsMkdir(Ok(FsMkdirPlan::Sudo(plan))) => {
            &&& reply matches Reply::Done(response)
            &&& exists|ended: Result<ExitReport, String>| #[trigger]
                plan.finish_gives(ended, response)
        },
        Begun::FsDelete(Err(refusal)) => reply == Reply::<F, J>::Done(refusal),
        Begun::FsDelete(Ok(FsDeletePlan::Direct(plan))) => {
            &&& reply matches Reply::Done(response)
            &&& exists|removed: Result<(), String>| #[trigger] plan.finish_gives(removed, response)
        },
        Begun::FsDelete(Ok(FsDeletePlan::Sudo(plan))) => {
            &&& reply matches Reply::Done(response)
            &&& exists|ended: Result<ExitReport, String>| #[trigger]
                plan.finish_gives(ended, response)
        },
        Begun::FsRename(Err(refusal)) => reply == Reply::<F, J>::Done(refusal),
        Begun::FsRename(Ok(FsRenamePlan::Direct(plan))) => {
            &&& reply matches Reply::Done(response)
            &&& exists|renamed: Result<(), String>| #[trigger] plan.finish_gives(renamed, response)
        },
        Begun::FsRename(Ok(FsRenamePlan::Sudo(plan))) => {
            &&& reply matches Reply::Done(response)
            &&& exists|ended: Result<ExitReport, String>| #[trigger]
                plan.finish_gives(ended, response)
        },
        Begun::FsSearch(Err(refusal)) => reply == Reply::<F, J>::FsSearch(refusal),
        Begun::FsSearch(Ok(plan)) => {
            &&& reply matches Reply::FsSearch(response)
            &&& exists|output: Result<CommandOutput, String>| #[trigger]
                plan.on_output_gives(output, response)
        },
        Begun::FsUploadStart(Err(refusal)) => reply == Reply::<F, J>::UploadStart(refusal),
        Begun::FsUploadStart(Ok(plan)) => reply matches Reply::UploadStart(response)
            && upload_leads_to::<H>(plan, response),
        Begun::FsUploadChunk(Err(refusal)) => reply == Reply::<F, J>::UploadProgress(refusal),
        Begun::FsUploadChunk(Ok(plan)) => {
            &&& reply matches Reply::UploadProgress(response)
            &&& exists|
                outcome: ChunkOutcome,
                before: Registry<UploadTransfer<H>>,
                after: Registry<UploadTransfer<H>>,
            | #[trigger]
                plan.on_outcome_gives(outcome, before, after, response)
        },
        Begun::FsUploadEnd(Err(refusal)) => reply == Reply::<F, J>::UploadEnd(refusal),
        Begun::FsUploadEnd(Ok((plan, _))) => reply matches Reply::UploadEnd(response)
            && upload_end_leads_to(plan, response),
        Begun::FsDownload(Err(refusal)) => reply == Reply::<F, J>::Download(refusal),
        Begun::FsDownload(Ok(plan)) => reply matches Reply::Download(response)
            && download_leads_to(plan, response),
        Begun::MetricsCollect(response) => reply == Reply::<F, J>::Metrics(response),
        Begun::ExecStream(Err(refusal)) => reply == Reply::<F, J>::Streaming(refusal),
        Begun::ExecStream(Ok(plan)) => {
            &&& reply matches Reply::Streaming(response)
            &&& exists|spawned: Result<(), String>, stream: Option<OutputStream>| #[trigger]
                plan.on_spawn_gives(spawned, (response, stream))
        },
        Begun::DockerList(Err(refusal)) => reply == Reply::<F, J>::DockerList(refusal),
        Begun::DockerList(Ok(plan)) => {
            &&& reply matches Reply::DockerList(response)
            &&& {
                ||| unconnected(plan.id, response)
                ||| exists|listed: Result<Vec<ContainerFacts>, String>| #[trigger]
                    plan.finish_gives(listed, response)
            }
        },
        Begun::DockerStats(Err(refusal)) => reply == Reply::<F, J>::DockerStats(refusal),
        Begun::DockerStats(Ok(plan)) => {
            &&& reply matches Reply::DockerStats(response)
            &&& {
                ||| unconnected(plan.id, response)
                ||| exists|listed: Result<Vec<Option<String>>, String>| #[trigger]
                    plan.on_listed_gives(listed, Err(response))
                ||| exists|stats: Vec<Option<ContainerStats<F>>>| #[trigger]
                    plan.finish_gives(stats, response)
            }
        },
        Begun::DockerInspect(Err(refusal)) => reply == Reply::<F, J>::Json(refusal),
        Begun::DockerInspect(Ok(plan)) => {
            &&& reply matches Reply::Json(response)
            &&& {
                ||| unconnected(plan.id, response)
                ||| exists|info: Result<J, String>| #[trigger] plan.finish_gives(info, response)
            }
        },
        Begun::DockerLogs(Err(refusal)) => reply == Reply::<F, J>::Json(refusal),
        Begun::DockerLogs(Ok(plan)) => match reply {
            Reply::Json(response) => unconnected(plan.id, response),
            Reply::Streaming(response) => exists|stream: LogStream| #[trigger]
                plan.follow_reply_gives((response, stream)),
            Reply::DockerLogs(response) => exists|logs: LogCollector| #[trigger]
                plan.collected_reply_gives(logs, response),
            _ => false,
        },
        Begun::RotateKey(Err(refusal)) => reply == Reply::<F, J>::RotateKey(refusal),
        Begun::RotateKey(Ok(plan)) => {
            &&& reply matches Reply::RotateKey(response)
            &&& exists|saved: Result<(), String>| #[trigger] plan.finish_gives(saved, response)
        },
        Begun::SelfUpdate { id, .. } => {
            &&& reply matches Reply::SelfUpdate(response)
            &&& exists|
                ended: Result<UpdateOutcome, String>,
                version: &str,
                answer: SelfUpdateAnswer,
            | #[trigger]
                self_update_ends(id, ended, version, answer) && answer.response == response
        },
    }
}

/// Whether this is the response where the Docker daemon could not be reached.
pub open spec fn unconnected<V>(id: String, response: RpcResponse<V>) -> bool {
    exists|why: &str| #[trigger] connect_failed_gives(id, why, response)
}

/// Whether the steps of a plan that reads a file end in this response.
pub open spec fn read_leads_to(plan: FsReadPlan, response: RpcResponse<FsReadResponse>) -> bool {
    match plan {
        FsReadPlan::Direct(plan) => {
            ||| exists|size: Result<u64, String>| #[trigger]
                plan.on_size_gives(size, Err(response))
            ||| exists|size: Result<u64, String>, sized: FsReadSized, data: Result<Vec<u8>, String>|
                #[trigger] plan.on_size_gives(size, Ok(sized)) && #[trigger] sized.on_data_gives(
                    data,
                    response,
                )
        },
        FsReadPlan::Sudo(plan) => exists|output: Result<CommandOutput, String>| #[trigger]
            plan.on_output_gives(output, response),
    }
}

/// Whether the steps of a plan that writes a file end in this response.
pub open spec fn write_leads_to(plan: FsWritePlan, response: RpcResponse<FsWriteReply>) -> bool {
    ||| exists|outcome: TeeOutcome, chmod: Option<CommandSpec>| #[trigger]
        plan.on_tee_gives(outcome, (response, chmod))
    ||| exists|written: Result<(), String>, mode: Option<u32>| #[trigger]
        plan.on_written_gives(written, (response, mode))
}

/// Whether the steps of a plan that starts an upload end in this response.
pub open spec fn upload_leads_to<H>(
    plan: UploadStartPlan,
    response: RpcResponse<UploadStartReply>,
) -> bool {
    ||| exists|created: Result<(), String>| #[trigger]
        plan.on_parent_gives(created, Err(response))
    ||| exists|
        created: Result<(), String>,
        next: UploadStartPlan,
        file: Result<H, String>,
        before: Registry<UploadTransfer<H>>,
        after: Registry<UploadTransfer<H>>,
    |
        #[trigger] plan.on_parent_gives(created, Ok(next)) && #[trigger] next.on_file_gives(
            file,
            before,
            after,
            response,
        )
}

/// Whether the steps of a plan that ends an upload end in this response.
pub open spec fn upload_end_leads_to(
    plan: UploadEndPlan,
    response: RpcResponse<UploadEndReply>,
) -> bool {
    exists|outcome: SyncOutcome, verdict: UploadVerdict| #[trigger]
        plan.on_synced_gives(outcome, verdict) && match verdict {
            UploadVerdict::Answer(r) => response == r,
            UploadVerdict::Discard { path, response: r } => response == r,
            UploadVerdict::Move(next) => exists|
                output: Result<CommandOutput, String>,
                leftover: Option<String>,
            | #[trigger]
                next.on_output_gives(output, (response, leftover)),
        }
}

/// Whether the steps of a plan that streams a file begin with this response.
pub open spec fn download_leads_to(
    plan: DownloadPlan,
    response: RpcResponse<DownloadReply>,
) -> bool {
    ||| exists|output: Result<CommandOutput, String>, stream: Option<DownloadStream>| #[trigger]
        plan.on_stat_gives(output, (response, stream))
    ||| exists|size: Result<u64, String>, stream: Option<DownloadStream>| #[trigger]
        plan.on_size_gives(size, (response, stream))
}

/// A request of any method and with any parameters is answered by one whole
/// response with its ID, whatever comes of what it asks to be done: by an error
/// where nothing answers the method, else by what the handler of its route leads
/// to. Where the method takes parameters and they cannot be read, that is the error
/// for parameters that are not valid.
pub proof fn law_every_request_gets_one_response<V, F, J, S, H>(
    request: RpcRequest<V>,
    r: Result<Dispatched<V>, RpcResponse<V>>,
    call: Call<F>,
    arch: &str,
    before: Holdings<S, H>,
    after: Holdings<S, H>,
    begun: Begun<F, J, S, H>,
    reply: Reply<F, J>,
)
    requires
        dispatches(request, r),
        r matches Ok(d) ==> {
            &&& call.route() == d.route
            &&& begins(d.id, call, arch, before, after, begun)
            &&& leads_to(begun, reply)
        },
    ensures
        match r {
            Ok(_) => {
                &&& reply.responds_to(id_of(request.id))
                &&& call.unreadable() matches Some(reason) ==> reply.rejects_params(
                    id_of(request.id),
                    reason,
                ) && reply.code() == Some(-32602i32)
            },
            Err(refusal) => refusal.responds_to(id_of(request.id)),
        },
{
}

} // verus!
