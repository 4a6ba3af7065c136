//! Laws of requests and their handlers.

use crate::clock::{utc_text, Moment};
use crate::dispatcher::{handle_ping_at_gives, ping_answered, rotate_key_begins, self_update_starts};
use crate::handlers::docker::{
    docker_inspect_begins, docker_list_begins, docker_logs_begins, docker_stats_begins,
};
use crate::handlers::exec::{exec_begins, exec_stream_begins, system_info_answered};
use crate::handlers::fs::{
    fs_delete_begins, fs_list_begins, fs_mkdir_begins, fs_read_begins, fs_rename_begins,
    fs_search_begins, fs_stat_begins, fs_write_begins,
};
use crate::handlers::metrics::metrics_collect_answered;
use crate::handlers::shell::{
    shell_close_answered, shell_data_begins, shell_open_begins, shell_resize_begins,
};
use crate::handlers::transfer::{
    fs_download_begins, fs_upload_chunk_begins, fs_upload_end_begins, fs_upload_start_begins,
};
use crate::methods::HeartbeatResponse;
use crate::rpc::RpcResponse;
use crate::serving::{begins, Begun, Call, Holdings};
use vstd::prelude::*;

verus! {

/// Each call is handled by the handler of its own kind, with the request's ID, the
/// call's own parameters and the security settings of the agent. Only a new key
/// changes the configuration, only closing a shell changes the shells, and only the
/// end of an upload changes the uploads.
pub proof fn law_calls_go_to_their_handlers<F, J, S, H>(
    id: String,
    call: Call<F>,
    arch: &str,
    before: Holdings<S, H>,
    after: Holdings<S, H>,
    begun: Begun<F, J, S, H>,
)
    requires
        begins(id, call, arch, before, after, begun),
    ensures
        !(call is RotateKey) ==> after.ctx == before.ctx,
        !(call is ShellClose) ==> after.sessions == before.sessions,
        !(call is FsUploadEnd) ==> after.uploads == before.uploads,
        call matches Call::Exec(params) ==> (begun matches Begun::Exec(r)
            && exec_begins(id, params, &before.ctx.config.security, r)),
        call matches Call::Ping ==> (begun matches Begun::Ping(r)
            && ping_answered(id, r)),
        call matches Call::SystemInfo(facts) ==> (begun matches Begun::SystemInfo(r)
            && system_info_answered(id, facts, r)),
        call matches Call::ShellOpen(params) ==> (begun matches Begun::ShellOpen(r)
            && shell_open_begins(id, params, &before.sessions, r)),
        call matches Call::ShellData(params) ==> (begun matches Begun::ShellData(r)
            && shell_data_begins(id, params, &before.sessions, r)),
        call matches Call::ShellResize(params) ==> (begun matches Begun::ShellResize(r)
            && shell_resize_begins(id, params, &before.sessions, r)),
        call matches Call::ShellClose(params) ==> (begun matches Begun::ShellClose(r)
            && shell_close_answered(id, params, before.sessions, after.sessions, r)),
        call matches Call::FsList(params) ==> (begun matches Begun::FsList(r)
            && fs_list_begins(id, params, &before.ctx.config.security, r)),
        call matches Call::FsRead(params) ==> (begun matches Begun::FsRead(r)
            && fs_read_begins(id, params, &before.ctx.config.security, r)),
        call matches Call::FsWrite(params) ==> (begun matches Begun::FsWrite(r)
            && fs_write_begins(id, params, &before.ctx.config.security, r)),
        call matches Call::FsStat(params) ==> (begun matches Begun::FsStat(r)
            && fs_stat_begins(id, params, &before.ctx.config.security, r)),
        call matches Call::FsMkdir(params) ==> (begun matches Begun::FsMkdir(r)
            && fs_mkdir_begins(id, params, &before.ctx.config.security, r)),
        call matches Call::FsDelete(params) ==> (begun matches Begun::FsDelete(r)
            && fs_delete_begins(id, params, &before.ctx.config.security, r)),
        call matches Call::FsRename(params) ==> (begun matches Begun::FsRename(r)
            && fs_rename_begins(id, params, &before.ctx.config.security, r)),
        call matches Call::FsSearch(params) ==> (begun matches Begun::FsSearch(r)
            && fs_search_begins(id, params, &before.ctx.config.security, r)),
        call matches Call::FsUploadStart(params) ==> (begun matches Begun::FsUploadStart(r)
            && fs_upload_start_begins(id, params, &before.ctx.config.security, r)),
        call matches Call::FsUploadChunk(params) ==> (begun matches Begun::FsUploadChunk(r)
            && fs_upload_chunk_begins(id, params, &before.uploads, r)),
        call matches Call::FsUploadEnd(params) ==> (begun matches Begun::FsUploadEnd(r)
            && fs_upload_end_begins(id, params, before.uploads, after.uploads, r)),
        call matches Call::FsDownload(params) ==> (begun matches Begun::FsDownload(r)
            && fs_download_begins(id, params, &before.ctx.config.security, r)),
        call matches Call::MetricsCollect(facts) ==> (begun matches Begun::MetricsCollect(r)
            && metrics_collect_answered(id, facts, r)),
        call matches Call::ExecStream(params) ==> (begun matches Begun::ExecStream(r)
            && exec_stream_begins(id, params, &before.ctx.config.security, r)),
        call matches Call::DockerList(params) ==> (begun matches Begun::DockerList(r)
            && docker_list_begins(id, params, r)),
        call matches Call::DockerStats(params) ==> (begun matches Begun::DockerStats(r)
            && docker_stats_begins(id, params, r)),
        call matches Call::DockerInspect(params) ==> (begun matches Begun::DockerInspect(r)
            && docker_inspect_begins(id, params, r)),
        call matches Call::DockerLogs(params) ==> (begun matches Begun::DockerLogs(r)
            && docker_logs_begins(id, params, r)),
        call matches Call::RotateKey(params) ==> (begun matches Begun::RotateKey(r)
            && rotate_key_begins(id, params, before.ctx, after.ctx, r)),
        call matches Call::SelfUpdate ==> (begun matches Begun::SelfUpdate { id: own, start }
            && own@ == id@ && self_update_starts(before.ctx, arch, start)),
{
}

/// A ping is answered with the time.
pub proof fn law_ping_tells_the_time(
    id: String,
    moment: Moment,
    response: RpcResponse<HeartbeatResponse>,
)
    requires
        handle_ping_at_gives(id, moment, response),
    ensures
        response.answers(id@),
        response.payload().ok,
        response.payload().timestamp@ == utc_text(moment.secs, moment.nanos),
{
}

} // verus!
