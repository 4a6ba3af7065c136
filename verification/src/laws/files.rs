//! Laws of the requests about files and of their transfer.

use crate::command::{CommandOutput, CommandSpec};
use crate::config::SecurityConfig;
use crate::encoding::{base64_bytes, base64_text, sha256_hex, taken_in, text_in_bytes};
use crate::error_codes;
use crate::handlers::fs::{
    content_bytes, content_text, fs_delete_begins, fs_list_begins, fs_mkdir_begins, fs_read_begins,
    fs_rename_begins, fs_search_begins, fs_stat_begins, fs_write_begins, known_entries, ExitReport,
    FoundFile, FsDeleteDirect, FsDeletePlan, FsListDirect, FsListPlan, FsListSudo, FsMkdirDirect,
    FsMkdirPlan, FsReadDirect, FsReadPlan, FsReadSized, FsReadSudo, FsRenameDirect, FsRenamePlan,
    FsSearchPlan, FsStatDirect, FsStatPlan, FsStatSudo, FsWritePlan, FsWriteReply, OkReply, Removal,
    StatFailure, StatusPlan, TeeOutcome,
};
use crate::handlers::fs_entry::{
    after_total, entry_views, ls_entries, meta_entry, no_entry, sorted_listing, stat_entry,
    FileMeta,
};
use crate::handlers::transfer::{
    fs_download_begins, fs_upload_chunk_begins, fs_upload_end_begins, fs_upload_start_begins,
    ChunkOutcome, ChunkPlan, DownloadPlan, DownloadReply, DownloadStream, SyncOutcome,
    UploadEndPlan, UploadEndReply, UploadMove, UploadProgressReply, UploadStartPlan,
    UploadStartReply, UploadTransfer, UploadVerdict,
};
use crate::methods::{
    FsDeleteRequest, FsDownloadRequest, FsEncoding, FsListRequest, FsListResponse, FsMkdirRequest,
    FsReadRequest, FsReadResponse, FsRenameRequest, FsSearchRequest, FsSearchResponse,
    FsStatRequest, FsStatResponse, FsUploadChunkRequest, FsUploadEndRequest, FsUploadStartRequest,
    FsWriteRequest,
};
use crate::number::{decimal, number_in, read_or_zero, signed_decimal};
use crate::paths::{file_name_of, parent_of};
use crate::registry::Registry;
use crate::rpc::{RpcRequest, RpcResponse};
use crate::split::lines_of;
use crate::stream::{carries, StreamChannel, StreamData, StreamEnd};
use crate::text::{texts, trimmed};
use vstd::prelude::*;

verus! {

/// Whether a response refuses a path.
pub open spec fn refuses_path<V>(response: RpcResponse<V>, id: Seq<char>, path: Seq<char>) -> bool {
    response.fails(id, error_codes::COMMAND_FAILED, "Path not allowed: "@ + path)
}

/// Whether a response says that the command did not run.
pub open spec fn tells_not_run<V>(response: RpcResponse<V>, id: Seq<char>, why: Seq<char>) -> bool {
    response.fails(id, error_codes::COMMAND_FAILED, "exec failed: "@ + why)
}

/// A directory whose path is permitted is listed: by the agent itself, or by `ls` as
/// root where that is asked for.
pub proof fn law_directory_is_listed_as_asked(
    id: String,
    params: Result<FsListRequest, String>,
    security: &SecurityConfig,
    r: Result<FsListPlan, RpcResponse<FsListResponse>>,
)
    requires
        fs_list_begins(id, params, security, r),
    ensures
        r is Ok <==> params is Ok && security.permits_path(params->Ok_0.path@),
        r matches Ok(FsListPlan::Sudo(plan)) ==> {
            &&& params->Ok_0.sudo == Some(true)
            &&& plan.id@ == id@
            &&& plan.command.calls(
                "sudo"@,
                seq!["ls"@, "-la"@, "--time-style=full-iso"@, params->Ok_0.path@],
            )
            &&& plan.command.env is None
        },
        r matches Ok(FsListPlan::Direct(plan)) ==> {
            &&& params->Ok_0.sudo != Some(true)
            &&& plan.id@ == id@
            &&& plan.path@ == params->Ok_0.path@
        },
        params is Ok && r is Err ==> refuses_path(r->Err_0, id@, params->Ok_0.path@),
        params matches Err(e) ==> r->Err_0.rejects_params(id@, e@),
{
}

/// What is listed is every file that was found and could be told, in the order of
/// listings; or what `ls` printed, line by line behind the first.
pub proof fn law_listing_is_answered(
    direct: FsListDirect,
    found: Result<Vec<FoundFile>, String>,
    a: RpcResponse<FsListResponse>,
    sudo: FsListSudo,
    output: Result<CommandOutput, String>,
    b: RpcResponse<FsListResponse>,
)
    requires
        direct.on_entries_gives(found, a),
        sudo.on_output_gives(output, b),
    ensures
        found matches Ok(files) ==> a.answers(direct.id@) && sorted_listing(
            known_entries(files@),
            entry_views(a.payload().entries@),
        ),
        found matches Err(e) ==> a.fails(
            direct.id@,
            error_codes::COMMAND_FAILED,
            "Cannot "@ + "read directory"@ + " '"@ + direct.path@ + "': "@ + e@,
        ),
        output is Ok && output->Ok_0.success ==> b.answers(sudo.id@) && entry_views(
            b.payload().entries@,
        ) == ls_entries(after_total(lines_of(text_in_bytes(output->Ok_0.stdout@)))),
        output is Ok && !output->Ok_0.success ==> b.fails(
            sudo.id@,
            error_codes::COMMAND_FAILED,
            "ls failed: "@ + text_in_bytes(output->Ok_0.stderr@),
        ),
        output matches Err(e) ==> tells_not_run(b, sudo.id@, e@),
{
}

/// Content is text where text is asked for and the bytes are text, and base64
/// otherwise; text stands for its UTF-8 bytes and base64 for what it decodes to.
pub proof fn law_content(bytes: Seq<u8>, text: Seq<char>)
    ensures
        vstd::utf8::valid_utf8(bytes) ==> content_text(bytes, FsEncoding::Utf8) == (
            vstd::utf8::decode_utf8(bytes),
            FsEncoding::Utf8,
        ),
        !vstd::utf8::valid_utf8(bytes) ==> content_text(bytes, FsEncoding::Utf8) == (
            base64_text(bytes),
            FsEncoding::Base64,
        ),
        content_text(bytes, FsEncoding::Base64) == (base64_text(bytes), FsEncoding::Base64),
        content_bytes(text, FsEncoding::Utf8) == Ok::<Seq<u8>, Seq<char>>(
            vstd::utf8::encode_utf8(text),
        ),
        content_bytes(text, FsEncoding::Base64) == base64_bytes(text),
        content_text(vstd::utf8::encode_utf8(text), FsEncoding::Utf8) == (text, FsEncoding::Utf8),
{
    vstd::utf8::encode_utf8_valid_utf8(text);
    vstd::utf8::encode_utf8_decode_utf8(text);
}

/// A file whose path is permitted is read in the encoding that was asked for, or as
/// text; by the agent itself up to the largest size that is allowed, or by `cat` as
/// root.
pub proof fn law_file_is_read_as_asked(
    id: String,
    params: Result<FsReadRequest, String>,
    security: &SecurityConfig,
    r: Result<FsReadPlan, RpcResponse<FsReadResponse>>,
)
    requires
        fs_read_begins(id, params, security, r),
    ensures
        r is Ok <==> params is Ok && security.permits_path(params->Ok_0.path@),
        r matches Ok(FsReadPlan::Sudo(plan)) ==> {
            &&& params->Ok_0.sudo == Some(true)
            &&& plan.id@ == id@
            &&& plan.command.calls("sudo"@, seq!["cat"@, params->Ok_0.path@])
            &&& plan.command.env is None
            &&& params->Ok_0.encoding matches Some(e) ==> plan.encoding == e
            &&& params->Ok_0.encoding is None ==> plan.encoding == FsEncoding::Utf8
        },
        r matches Ok(FsReadPlan::Direct(plan)) ==> {
            &&& params->Ok_0.sudo != Some(true)
            &&& plan.id@ == id@
            &&& plan.path@ == params->Ok_0.path@
            &&& params->Ok_0.encoding matches Some(e) ==> plan.encoding == e
            &&& params->Ok_0.encoding is None ==> plan.encoding == FsEncoding::Utf8
            &&& security.max_file_size_mb * 1_048_576 <= u64::MAX ==> plan.limit
                == security.max_file_size_mb * 1_048_576
            &&& security.max_file_size_mb * 1_048_576 > u64::MAX ==> plan.limit == u64::MAX
        },
        params is Ok && r is Err ==> refuses_path(r->Err_0, id@, params->Ok_0.path@),
        params matches Err(e) ==> r->Err_0.rejects_params(id@, e@),
{
}

/// A file is read exactly if it is no larger than is allowed.
pub proof fn law_file_size_is_limited(
    plan: FsReadDirect,
    size: Result<u64, String>,
    r: Result<FsReadSized, RpcResponse<FsReadResponse>>,
)
    requires
        plan.on_size_gives(size, r),
    ensures
        r is Ok <==> size is Ok && size->Ok_0 <= plan.limit,
        r matches Ok(next) ==> {
            &&& next.id@ == plan.id@
            &&& next.path@ == plan.path@
            &&& next.encoding == plan.encoding
            &&& next.size == size->Ok_0
        },
        size matches Err(e) ==> r->Err_0.fails(
            plan.id@,
            error_codes::COMMAND_FAILED,
            "Cannot "@ + "stat"@ + " '"@ + plan.path@ + "': "@ + e@,
        ),
        size is Ok && r is Err ==> r->Err_0.fails(
            plan.id@,
            error_codes::COMMAND_FAILED,
            "File"@ + " too large: "@ + decimal(size->Ok_0 as nat) + " bytes (max "@ + decimal(
                plan.limit as nat,
            ) + ")"@,
        ),
{
}

/// The content that is answered stands for the bytes that were read, all of them, and
/// the size is told with it.
pub proof fn law_read_content_stands_for_the_bytes(
    direct: FsReadSized,
    data: Result<Vec<u8>, String>,
    a: RpcResponse<FsReadResponse>,
    sudo: FsReadSudo,
    output: Result<CommandOutput, String>,
    b: RpcResponse<FsReadResponse>,
)
    requires
        direct.on_data_gives(data, a),
        sudo.on_output_gives(output, b),
    ensures
        data matches Ok(bytes) ==> {
            &&& a.answers(direct.id@)
            &&& a.payload().size == direct.size
            &&& (a.payload().content@, a.payload().encoding) == content_text(
                bytes@,
                direct.encoding,
            )
            &&& a.payload().encoding is Utf8 ==> vstd::utf8::encode_utf8(a.payload().content@)
                == bytes@
            &&& a.payload().encoding is Base64 ==> base64_bytes(a.payload().content@) == Ok::<
                Seq<u8>,
                Seq<char>,
            >(bytes@)
        },
        data matches Err(e) ==> a.fails(
            direct.id@,
            error_codes::COMMAND_FAILED,
            "Cannot "@ + "read"@ + " '"@ + direct.path@ + "': "@ + e@,
        ),
        output is Ok && output->Ok_0.success ==> {
            &&& b.answers(sudo.id@)
            &&& b.payload().size == output->Ok_0.stdout@.len()
            &&& (b.payload().content@, b.payload().encoding) == content_text(
                output->Ok_0.stdout@,
                sudo.encoding,
            )
            &&& b.payload().encoding is Utf8 ==> vstd::utf8::encode_utf8(b.payload().content@)
                == output->Ok_0.stdout@
            &&& b.payload().encoding is Base64 ==> base64_bytes(b.payload().content@) == Ok::<
                Seq<u8>,
                Seq<char>,
            >(output->Ok_0.stdout@)
        },
        output is Ok && !output->Ok_0.success ==> b.fails(
            sudo.id@,
            error_codes::COMMAND_FAILED,
            "sudo cat failed: "@ + text_in_bytes(output->Ok_0.stderr@),
        ),
        output matches Err(e) ==> tells_not_run(b, sudo.id@, e@),
{
}

/// What is written is what the content stands for, to the path that was asked for,
/// if that is permitted and it is not too large; through `tee` where it is done as
/// root.
pub proof fn law_file_is_written_as_asked(
    id: String,
    params: Result<FsWriteRequest, String>,
    security: &SecurityConfig,
    r: Result<FsWritePlan, RpcResponse<FsWriteReply>>,
)
    requires
        fs_write_begins(id, params, security, r),
    ensures
        r matches Ok(plan) ==> {
            let request = params->Ok_0;
            &&& params is Ok
            &&& security.permits_path(request.path@)
            &&& plan.id@ == id@
            &&& plan.path@ == request.path@
            &&& plan.mode == request.mode
            &&& request.encoding != Some(FsEncoding::Base64) ==> plan.data@
                == vstd::utf8::encode_utf8(request.content@)
            &&& request.encoding == Some(FsEncoding::Base64) ==> base64_bytes(request.content@)
                == Ok::<Seq<u8>, Seq<char>>(plan.data@)
            &&& plan.data@.len() <= security.max_file_size_mb * 1_048_576
            &&& plan.command is Some <==> request.sudo == Some(true)
            &&& plan.command matches Some(command) ==> command.calls(
                "sudo"@,
                seq!["tee"@, request.path@],
            ) && command.env is None
        },
        params is Ok && !security.permits_path(params->Ok_0.path@) ==> r is Err && refuses_path(
            r->Err_0,
            id@,
            params->Ok_0.path@,
        ),
        params is Ok && security.permits_path(params->Ok_0.path@) && params->Ok_0.encoding != Some(
            FsEncoding::Base64,
        ) ==> (r is Ok <==> vstd::utf8::encode_utf8(params->Ok_0.content@).len()
            <= security.most_bytes()),
        params is Ok && security.permits_path(params->Ok_0.path@) && params->Ok_0.encoding == Some(
            FsEncoding::Base64,
        ) ==> (r is Ok <==> base64_bytes(params->Ok_0.content@) is Ok && base64_bytes(
            params->Ok_0.content@,
        )->Ok_0.len() <= security.most_bytes()),
        params is Ok && security.permits_path(params->Ok_0.path@) && params->Ok_0.encoding == Some(
            FsEncoding::Base64,
        ) ==> (base64_bytes(params->Ok_0.content@) matches Err(e) ==> r->Err_0.fails(
            id@,
            error_codes::INVALID_PARAMS,
            "Invalid base64: "@ + e,
        )),
        params matches Err(e) ==> r is Err && r->Err_0.rejects_params(id@, e@),
{
}

/// Data that is too large is refused with its size and the largest that is allowed.
pub proof fn law_data_too_large_is_refused(
    id: String,
    request: FsWriteRequest,
    security: &SecurityConfig,
    r: Result<FsWritePlan, RpcResponse<FsWriteReply>>,
    bytes: Seq<u8>,
)
    requires
        fs_write_begins(id, Ok(request), security, r),
        security.permits_path(request.path@),
        request.encoding == Some(FsEncoding::Base64) ==> base64_bytes(request.content@) == Ok::<
            Seq<u8>,
            Seq<char>,
        >(bytes),
        request.encoding != Some(FsEncoding::Base64) ==> vstd::utf8::encode_utf8(request.content@)
            == bytes,
        bytes.len() > security.most_bytes(),
    ensures
        r is Err,
        r->Err_0.fails(
            id@,
            error_codes::COMMAND_FAILED,
            "Data"@ + " too large: "@ + decimal(bytes.len()) + " bytes (max "@ + decimal(
                security.most_bytes() as nat,
            ) + ")"@,
        ),
{
}

/// After a write as root the mode is set by `chmod`, where one was given, and the
/// answer tells how much was written.
pub proof fn law_write_as_root_is_answered(
    plan: FsWritePlan,
    outcome: TeeOutcome,
    r: (RpcResponse<FsWriteReply>, Option<CommandSpec>),
)
    requires
        plan.on_tee_gives(outcome, r),
        plan.data@.len() <= u64::MAX,
    ensures
        outcome is Unknown || outcome is Exited && outcome->Exited_0.success ==> {
            &&& r.0.answers(plan.id@)
            &&& r.0.payload().ok
            &&& r.0.payload().size == plan.data@.len()
            &&& r.1 is Some <==> plan.mode is Some
            &&& r.1 matches Some(command) ==> command.calls(
                "sudo"@,
                seq!["chmod"@, plan.mode->0@, plan.path@],
            ) && command.env is None
        },
        outcome is Exited && !outcome->Exited_0.success ==> {
            &&& r.1 is None
            &&& outcome->Exited_0.code matches Some(code) ==> r.0.fails(
                plan.id@,
                error_codes::COMMAND_FAILED,
                "sudo tee exited with code "@ + signed_decimal(code as int),
            )
            &&& outcome->Exited_0.code is None ==> r.0.fails(
                plan.id@,
                error_codes::COMMAND_FAILED,
                "sudo tee exited with code "@ + signed_decimal(-1),
            )
        },
        outcome matches TeeOutcome::SpawnFailed(e) ==> r.1 is None && r.0.fails(
            plan.id@,
            error_codes::COMMAND_FAILED,
            "Failed to spawn sudo tee: "@ + e@,
        ),
        outcome matches TeeOutcome::WriteFailed(e) ==> r.1 is None && r.0.fails(
            plan.id@,
            error_codes::COMMAND_FAILED,
            "Write failed: "@ + e@,
        ),
{
}

/// After a write by the agent itself the mode is set where it is an octal number, and
/// the answer tells how much was written.
pub proof fn law_write_is_answered(
    plan: FsWritePlan,
    written: Result<(), String>,
    r: (RpcResponse<FsWriteReply>, Option<u32>),
)
    requires
        plan.on_written_gives(written, r),
        plan.data@.len() <= u64::MAX,
    ensures
        written is Ok ==> {
            &&& r.0.answers(plan.id@)
            &&& r.0.payload().ok
            &&& r.0.payload().size == plan.data@.len()
            &&& plan.mode is None ==> r.1 is None
            &&& plan.mode matches Some(text) ==> (r.1 is Some <==> number_in(
                text@,
                8,
                u32::MAX as int,
            ) is Some)
            &&& plan.mode is Some && r.1 is Some ==> r.1->0 as int == number_in(
                plan.mode->0@,
                8,
                u32::MAX as int,
            )->0
        },
        written matches Err(e) ==> r.1 is None && r.0.fails(
            plan.id@,
            error_codes::COMMAND_FAILED,
            "Cannot "@ + "write"@ + " '"@ + plan.path@ + "': "@ + e@,
        ),
{
    if plan.mode is Some {
        crate::laws::text::law_number_is_in_range(plan.mode->0@, 8, u32::MAX as int);
    }
}

/// A file whose path is permitted is told of: by the agent itself, or by `stat` as
/// root.
pub proof fn law_file_is_told_of_as_asked(
    id: String,
    params: Result<FsStatRequest, String>,
    security: &SecurityConfig,
    r: Result<FsStatPlan, RpcResponse<FsStatResponse>>,
)
    requires
        fs_stat_begins(id, params, security, r),
    ensures
        r is Ok <==> params is Ok && security.permits_path(params->Ok_0.path@),
        r matches Ok(FsStatPlan::Sudo(plan)) ==> {
            &&& params->Ok_0.sudo == Some(true)
            &&& plan.id@ == id@
            &&& plan.path@ == params->Ok_0.path@
            &&& plan.command.calls(
                "sudo"@,
                seq!["stat"@, "--format=%F|%s|%a|%U|%G|%Y"@, params->Ok_0.path@],
            )
            &&& plan.command.env is None
        },
        r matches Ok(FsStatPlan::Direct(plan)) ==> {
            &&& params->Ok_0.sudo != Some(true)
            &&& plan.id@ == id@
            &&& plan.path@ == params->Ok_0.path@
        },
        params is Ok && r is Err ==> refuses_path(r->Err_0, id@, params->Ok_0.path@),
        params matches Err(e) ==> r->Err_0.rejects_params(id@, e@),
{
}

/// A file that is there is told of under the last part of its path, and one that is
/// not is told to be missing.
pub proof fn law_file_is_told_of(
    direct: FsStatDirect,
    meta: Result<FileMeta, StatFailure>,
    a: RpcResponse<FsStatResponse>,
    sudo: FsStatSudo,
    output: Result<CommandOutput, String>,
    b: RpcResponse<FsStatResponse>,
)
    requires
        direct.on_metadata_gives(meta, a),
        sudo.on_output_gives(output, b),
    ensures
        meta matches Ok(m) ==> {
            &&& a.answers(direct.id@)
            &&& a.payload().exists
            &&& file_name_of(direct.path@) matches Some(name) ==> a.payload().entry@ == meta_entry(
                name,
                m,
            )
            &&& file_name_of(direct.path@) is None ==> a.payload().entry@ == meta_entry(
                Seq::empty(),
                m,
            )
        },
        meta matches Err(StatFailure::NotFound) ==> a.answers(direct.id@) && !a.payload().exists
            && a.payload().entry@ == no_entry(),
        meta matches Err(StatFailure::Other(e)) ==> a.fails(
            direct.id@,
            error_codes::COMMAND_FAILED,
            "Cannot "@ + "stat"@ + " '"@ + direct.path@ + "': "@ + e@,
        ),
        output is Ok && output->Ok_0.success && file_name_of(sudo.path@) is Some ==> {
            let told = stat_entry(
                file_name_of(sudo.path@)->0,
                text_in_bytes(output->Ok_0.stdout@),
            );
            &&& told matches Some(entry) ==> b.answers(sudo.id@) && b.payload().exists
                && b.payload().entry@ == entry
            &&& told is None ==> b.fails(
                sudo.id@,
                error_codes::COMMAND_FAILED,
                "Failed to parse stat output"@,
            )
        },
        output is Ok && output->Ok_0.success && file_name_of(sudo.path@) is None ==> {
            let told = stat_entry(Seq::empty(), text_in_bytes(output->Ok_0.stdout@));
            &&& told matches Some(entry) ==> b.answers(sudo.id@) && b.payload().exists
                && b.payload().entry@ == entry
            &&& told is None ==> b.fails(
                sudo.id@,
                error_codes::COMMAND_FAILED,
                "Failed to parse stat output"@,
            )
        },
        output is Ok && !output->Ok_0.success ==> b.answers(sudo.id@) && !b.payload().exists
            && b.payload().entry@ == no_entry(),
        output matches Err(e) ==> tells_not_run(b, sudo.id@, e@),
{
}

/// A directory is made where it was asked for, with its parents only where that was
/// asked for.
pub proof fn law_directory_is_made_as_asked(
    id: String,
    params: Result<FsMkdirRequest, String>,
    security: &SecurityConfig,
    r: Result<FsMkdirPlan, RpcResponse<OkReply>>,
)
    requires
        fs_mkdir_begins(id, params, security, r),
    ensures
        r is Ok <==> params is Ok && security.permits_path(params->Ok_0.path@),
        r matches Ok(FsMkdirPlan::Sudo(plan)) ==> {
            &&& params->Ok_0.sudo == Some(true)
            &&& plan.id@ == id@
            &&& plan.name@ == "mkdir"@
            &&& plan.command.env is None
            &&& params->Ok_0.recursive == Some(true) ==> plan.command.calls(
                "sudo"@,
                seq!["mkdir"@, "-p"@, params->Ok_0.path@],
            )
            &&& params->Ok_0.recursive != Some(true) ==> plan.command.calls(
                "sudo"@,
                seq!["mkdir"@, params->Ok_0.path@],
            )
        },
        r matches Ok(FsMkdirPlan::Direct(plan)) ==> {
            &&& params->Ok_0.sudo != Some(true)
            &&& plan.id@ == id@
            &&& plan.path@ == params->Ok_0.path@
            &&& plan.recursive <==> params->Ok_0.recursive == Some(true)
        },
        params is Ok && r is Err ==> refuses_path(r->Err_0, id@, params->Ok_0.path@),
        params matches Err(e) ==> r->Err_0.rejects_params(id@, e@),
{
}

/// A file is deleted where it was asked for, and a directory with all that is in it
/// only where that was asked for.
pub proof fn law_file_is_deleted_as_asked(
    id: String,
    params: Result<FsDeleteRequest, String>,
    security: &SecurityConfig,
    r: Result<FsDeletePlan, RpcResponse<OkReply>>,
)
    requires
        fs_delete_begins(id, params, security, r),
    ensures
        r is Ok <==> params is Ok && security.permits_path(params->Ok_0.path@),
        r matches Ok(FsDeletePlan::Sudo(plan)) ==> {
            &&& params->Ok_0.sudo == Some(true)
            &&& plan.id@ == id@
            &&& plan.name@ == "rm"@
            &&& plan.command.env is None
            &&& params->Ok_0.recursive == Some(true) ==> plan.command.calls(
                "sudo"@,
                seq!["rm"@, "-rf"@, params->Ok_0.path@],
            )
            &&& params->Ok_0.recursive != Some(true) ==> plan.command.calls(
                "sudo"@,
                seq!["rm"@, "-f"@, params->Ok_0.path@],
            )
        },
        r matches Ok(FsDeletePlan::Direct(plan)) ==> {
            &&& params->Ok_0.sudo != Some(true)
            &&& plan.id@ == id@
            &&& plan.path@ == params->Ok_0.path@
            &&& plan.recursive <==> params->Ok_0.recursive == Some(true)
        },
        params is Ok && r is Err ==> refuses_path(r->Err_0, id@, params->Ok_0.path@),
        params matches Err(e) ==> r->Err_0.rejects_params(id@, e@),
{
}

/// A tree is removed only where it is a directory and that was asked for.
pub proof fn law_tree_is_removed_only_where_asked(
    plan: FsDeleteDirect,
    is_dir: bool,
    removal: Removal,
)
    requires
        plan.removal_gives(is_dir, removal),
    ensures
        removal is Tree <==> is_dir && plan.recursive,
        removal is EmptyDirectory <==> is_dir && !plan.recursive,
        removal is File <==> !is_dir,
{
}

/// A file is moved from its old path to its new one, and both must be permitted.
pub proof fn law_file_is_moved_as_asked(
    id: String,
    params: Result<FsRenameRequest, String>,
    security: &SecurityConfig,
    r: Result<FsRenamePlan, RpcResponse<OkReply>>,
)
    requires
        fs_rename_begins(id, params, security, r),
    ensures
        r is Ok <==> params is Ok && security.permits_path(params->Ok_0.old_path@)
            && security.permits_path(params->Ok_0.new_path@),
        r matches Ok(FsRenamePlan::Sudo(plan)) ==> {
            &&& params->Ok_0.sudo == Some(true)
            &&& plan.id@ == id@
            &&& plan.name@ == "mv"@
            &&& plan.command.env is None
            &&& plan.command.calls(
                "sudo"@,
                seq!["mv"@, params->Ok_0.old_path@, params->Ok_0.new_path@],
            )
        },
        r matches Ok(FsRenamePlan::Direct(plan)) ==> {
            &&& params->Ok_0.sudo != Some(true)
            &&& plan.id@ == id@
            &&& plan.old_path@ == params->Ok_0.old_path@
            &&& plan.new_path@ == params->Ok_0.new_path@
        },
        params is Ok && !security.permits_path(params->Ok_0.old_path@) ==> refuses_path(
            r->Err_0,
            id@,
            params->Ok_0.old_path@,
        ),
        params is Ok && security.permits_path(params->Ok_0.old_path@) && r is Err ==> refuses_path(
            r->Err_0,
            id@,
            params->Ok_0.new_path@,
        ),
        params matches Err(e) ==> r->Err_0.rejects_params(id@, e@),
{
}

/// What was done as root is confirmed exactly if the command succeeded; a failure is
/// told with the name of the command and the very code that it exited with.
pub proof fn law_command_as_root_is_answered(
    plan: StatusPlan,
    ended: Result<ExitReport, String>,
    response: RpcResponse<OkReply>,
)
    requires
        plan.finish_gives(ended, response),
    ensures
        response.result is Some <==> ended is Ok && ended->Ok_0.success,
        ended is Ok && ended->Ok_0.success ==> response.answers(plan.id@) && response.payload().ok,
        ended is Ok && !ended->Ok_0.success && ended->Ok_0.code is Some ==> response.fails(
            plan.id@,
            error_codes::COMMAND_FAILED,
            plan.name@ + " failed (exit "@ + signed_decimal(ended->Ok_0.code->0 as int) + ")"@,
        ),
        ended is Ok && !ended->Ok_0.success && ended->Ok_0.code is None ==> response.fails(
            plan.id@,
            error_codes::COMMAND_FAILED,
            plan.name@ + " failed (exit "@ + signed_decimal(-1) + ")"@,
        ),
        ended matches Err(e) ==> tells_not_run(response, plan.id@, e@),
{
}

/// What the agent did itself is confirmed, and a failure names what could not be done
/// and to which file.
pub proof fn law_own_steps_are_answered(
    mkdir: FsMkdirDirect,
    made: Result<(), String>,
    a: RpcResponse<OkReply>,
    delete: FsDeleteDirect,
    deleted: Result<(), String>,
    b: RpcResponse<OkReply>,
    rename: FsRenameDirect,
    moved: Result<(), String>,
    c: RpcResponse<OkReply>,
)
    requires
        mkdir.finish_gives(made, a),
        delete.finish_gives(deleted, b),
        rename.finish_gives(moved, c),
    ensures
        made is Ok ==> a.answers(mkdir.id@) && a.payload().ok,
        made matches Err(e) ==> a.fails(
            mkdir.id@,
            error_codes::COMMAND_FAILED,
            "Cannot "@ + "create"@ + " '"@ + mkdir.path@ + "': "@ + e@,
        ),
        deleted is Ok ==> b.answers(delete.id@) && b.payload().ok,
        deleted matches Err(e) ==> b.fails(
            delete.id@,
            error_codes::COMMAND_FAILED,
            "Cannot "@ + "delete"@ + " '"@ + delete.path@ + "': "@ + e@,
        ),
        moved is Ok ==> c.answers(rename.id@) && c.payload().ok,
        moved matches Err(e) ==> c.fails(
            rename.id@,
            error_codes::COMMAND_FAILED,
            "Cannot rename '"@ + rename.old_path@ + "' → '"@ + rename.new_path@ + "': "@ + e@,
        ),
{
}

/// Files are searched below the path that was asked for, by the pattern that was asked
/// for, and no deeper than was asked for.
pub proof fn law_files_are_searched_as_asked(
    id: String,
    params: Result<FsSearchRequest, String>,
    security: &SecurityConfig,
    r: Result<FsSearchPlan, RpcResponse<FsSearchResponse>>,
)
    requires
        fs_search_begins(id, params, security, r),
    ensures
        r is Ok <==> params is Ok && security.permits_path(params->Ok_0.path@),
        r matches Ok(plan) ==> {
            let request = params->Ok_0;
            &&& plan.id@ == id@
            &&& plan.command.env is None
            &&& request.max_depth is None ==> plan.command.calls(
                "find"@,
                seq![request.path@, "-name"@, request.pattern@],
            )
            &&& request.max_depth matches Some(depth) ==> plan.command.calls(
                "find"@,
                seq![
                    request.path@,
                    "-maxdepth"@,
                    decimal(depth as nat),
                    "-name"@,
                    request.pattern@,
                ],
            )
        },
        params is Ok && r is Err ==> refuses_path(r->Err_0, id@, params->Ok_0.path@),
        params matches Err(e) ==> r->Err_0.rejects_params(id@, e@),
{
}

/// What was found is answered line by line, without empty lines, also where the
/// command failed after it had found something.
pub proof fn law_found_files_are_answered(
    plan: FsSearchPlan,
    output: Result<CommandOutput, String>,
    response: RpcResponse<FsSearchResponse>,
)
    requires
        plan.on_output_gives(output, response),
    ensures
        output is Ok ==> {
            let out = output->Ok_0;
            let found = lines_of(text_in_bytes(out.stdout@)).filter(|l: Seq<char>| l.len() > 0);
            &&& response.result is Some <==> out.success || found.len() > 0
            &&& response.result is Some ==> response.answers(plan.id@) && texts(
                response.payload().matches@,
            ) == found
            &&& response.result is None ==> response.fails(
                plan.id@,
                error_codes::COMMAND_FAILED,
                "find failed: "@ + text_in_bytes(out.stderr@),
            )
        },
        output matches Err(e) ==> tells_not_run(response, plan.id@, e@),
{
    if output is Ok {
        let lines = lines_of(text_in_bytes(output->Ok_0.stdout@));
        let f = |l: Seq<char>| l.len() > 0;
        assert(crate::split::not_empty() =~= f);
    }
}

/// An upload to a permitted path is written to that path, or, as root, beside the
/// others under its transfer's name until it is complete.
pub proof fn law_upload_starts_as_asked(
    id: String,
    params: Result<FsUploadStartRequest, String>,
    security: &SecurityConfig,
    r: Result<UploadStartPlan, RpcResponse<UploadStartReply>>,
)
    requires
        fs_upload_start_begins(id, params, security, r),
    ensures
        r is Ok <==> params is Ok && security.permits_path(params->Ok_0.path@),
        r matches Ok(plan) ==> {
            let request = params->Ok_0;
            &&& plan.id@ == id@
            &&& plan.transfer_id@ == request.transfer_id@
            &&& plan.path@ == request.path@
            &&& plan.total_size == request.total_size
            &&& plan.sudo <==> request.sudo == Some(true)
            &&& plan.sudo ==> plan.write_path@ == "/tmp/.qd-upload-"@ + request.transfer_id@
            &&& !plan.sudo ==> plan.write_path@ == request.path@
            &&& plan.parent is Some <==> parent_of(plan.write_path@) is Some
            &&& plan.parent matches Some(parent) ==> parent_of(plan.write_path@) == Some(parent@)
        },
        params is Ok && r is Err ==> refuses_path(r->Err_0, id@, params->Ok_0.path@),
        params matches Err(e) ==> r->Err_0.rejects_params(id@, e@),
{
}

/// An upload whose file was made is kept under its transfer's ID, with nothing
/// received yet; one whose file was not made is not kept.
pub proof fn law_started_upload_is_kept<F>(
    plan: UploadStartPlan,
    file: Result<F, String>,
    before: Registry<UploadTransfer<F>>,
    after: Registry<UploadTransfer<F>>,
    response: RpcResponse<UploadStartReply>,
)
    requires
        plan.on_file_gives(file, before, after, response),
    ensures
        after.wf(),
        file matches Ok(f) ==> {
            let kept = after@[plan.transfer_id@];
            &&& response.answers(plan.id@)
            &&& response.payload().ok
            &&& response.payload().transfer_id@ == plan.transfer_id@
            &&& after@ == before@.insert(plan.transfer_id@, kept)
            &&& kept.path@ == plan.path@
            &&& kept.file == f
            &&& kept.total_size == plan.total_size
            &&& kept.received == 0
            &&& taken_in(kept.hasher).len() == 0
            &&& kept.sudo == plan.sudo
        },
        file matches Err(e) ==> after@ == before@ && response.fails(
            plan.id@,
            error_codes::COMMAND_FAILED,
            "Cannot create file "@ + plan.write_path@ + ": "@ + e@,
        ),
{
}

/// An upload goes on as it was planned once its directory is there.
pub proof fn law_upload_waits_for_its_directory(
    plan: UploadStartPlan,
    created: Result<(), String>,
    r: Result<UploadStartPlan, RpcResponse<UploadStartReply>>,
)
    requires
        plan.on_parent_gives(created, r),
    ensures
        r is Ok <==> created is Ok,
        r matches Ok(next) ==> next == plan,
        created matches Err(e) ==> r->Err_0.fails(
            plan.id@,
            error_codes::COMMAND_FAILED,
            "Cannot create parent directory: "@ + e@,
        ),
{
}

/// A chunk of an upload that is under way is written where it belongs, decoded.
pub proof fn law_chunk_is_written_as_asked<F>(
    id: String,
    params: Result<FsUploadChunkRequest, String>,
    uploads: &Registry<UploadTransfer<F>>,
    r: Result<ChunkPlan, RpcResponse<UploadProgressReply>>,
)
    requires
        fs_upload_chunk_begins(id, params, uploads, r),
    ensures
        r is Ok <==> params is Ok && base64_bytes(params->Ok_0.data@) is Ok
            && uploads@.contains_key(params->Ok_0.transfer_id@),
        r matches Ok(plan) ==> {
            &&& plan.id@ == id@
            &&& plan.transfer_id@ == params->Ok_0.transfer_id@
            &&& plan.offset == params->Ok_0.offset
            &&& base64_bytes(params->Ok_0.data@) == Ok::<Seq<u8>, Seq<char>>(plan.data@)
        },
        params is Ok ==> (base64_bytes(params->Ok_0.data@) matches Err(e) ==> r->Err_0.fails(
            id@,
            error_codes::INVALID_PARAMS,
            "Invalid base64 data: "@ + e,
        )),
        params is Ok && base64_bytes(params->Ok_0.data@) is Ok && r is Err ==> r->Err_0.fails(
            id@,
            error_codes::COMMAND_FAILED,
            "No active upload for transfer_id: "@ + params->Ok_0.transfer_id@,
        ),
        params matches Err(e) ==> r->Err_0.rejects_params(id@, e@),
{
}

/// A chunk that was written counts: so many more bytes are received, and they are
/// taken into the checksum behind those before. One that was not written changes
/// nothing, and other uploads stay as they are.
pub proof fn law_written_chunk_counts<F>(
    plan: ChunkPlan,
    outcome: ChunkOutcome,
    before: Registry<UploadTransfer<F>>,
    after: Registry<UploadTransfer<F>>,
    response: RpcResponse<UploadProgressReply>,
)
    requires
        plan.on_outcome_gives(outcome, before, after, response),
    ensures
        after.wf(),
        outcome is Written && before@.contains_key(plan.transfer_id@) ==> {
            let old_state = before@[plan.transfer_id@];
            let new_state = after@[plan.transfer_id@];
            &&& after@ == before@.insert(plan.transfer_id@, new_state)
            &&& new_state.received == old_state.received + plan.data@.len()
            &&& taken_in(new_state.hasher) == taken_in(old_state.hasher) + plan.data@
            &&& new_state.path == old_state.path
            &&& new_state.file == old_state.file
            &&& new_state.total_size == old_state.total_size
            &&& new_state.sudo == old_state.sudo
            &&& response.answers(plan.id@)
            &&& response.payload().ok
            &&& response.payload().received == old_state.received + plan.data@.len()
            &&& response.payload().total == old_state.total_size
        },
        !(outcome is Written) || !before@.contains_key(plan.transfer_id@) ==> after@ == before@
            && response.result is None,
        outcome is Written && !before@.contains_key(plan.transfer_id@) ==> response.fails(
            plan.id@,
            error_codes::COMMAND_FAILED,
            "No active upload for transfer_id: "@ + plan.transfer_id@,
        ),
        outcome matches ChunkOutcome::SeekFailed(e) ==> response.fails(
            plan.id@,
            error_codes::COMMAND_FAILED,
            "Seek error: "@ + e@,
        ),
        outcome matches ChunkOutcome::WriteFailed(e) ==> response.fails(
            plan.id@,
            error_codes::COMMAND_FAILED,
            "Write error: "@ + e@,
        ),
{
}

/// The end of an upload takes it off the list with all that was received of it.
pub proof fn law_ended_upload_is_taken_off<F>(
    id: String,
    params: Result<FsUploadEndRequest, String>,
    before: Registry<UploadTransfer<F>>,
    after: Registry<UploadTransfer<F>>,
    r: Result<(UploadEndPlan, F), RpcResponse<UploadEndReply>>,
)
    requires
        fs_upload_end_begins(id, params, before, after, r),
    ensures
        after.wf(),
        r is Ok <==> params is Ok && before@.contains_key(params->Ok_0.transfer_id@),
        r matches Ok((plan, file)) ==> {
            let request = params->Ok_0;
            let transfer = before@[request.transfer_id@];
            &&& after@ == before@.remove(request.transfer_id@)
            &&& file == transfer.file
            &&& plan.id@ == id@
            &&& plan.transfer_id@ == request.transfer_id@
            &&& plan.expected@ == request.checksum_sha256@
            &&& plan.path@ == transfer.path@
            &&& plan.received == transfer.received
            &&& plan.hasher == transfer.hasher
            &&& plan.sudo == transfer.sudo
        },
        params is Ok && r is Err ==> after@ == before@ && r->Err_0.fails(
            id@,
            error_codes::COMMAND_FAILED,
            "No active upload for transfer_id: "@ + params->Ok_0.transfer_id@,
        ),
        params matches Err(e) ==> after@ == before@ && r->Err_0.rejects_params(id@, e@),
{
    if params is Ok && r is Err {
        assert(after@ =~= before@);
    }
}

/// An upload is complete exactly if its checksum is the one that was told: then it is
/// answered, or moved to its place as root. Otherwise its file goes.
pub proof fn law_upload_is_complete_by_its_checksum(
    plan: UploadEndPlan,
    outcome: SyncOutcome,
    verdict: UploadVerdict,
)
    requires
        plan.on_synced_gives(outcome, verdict),
    ensures
        verdict is Discard <==> outcome is Synced && sha256_hex(taken_in(plan.hasher))
            != plan.expected@,
        verdict is Move <==> outcome is Synced && sha256_hex(taken_in(plan.hasher))
            == plan.expected@ && plan.sudo,
        verdict matches UploadVerdict::Discard { path, response } ==> {
            &&& plan.sudo ==> path@ == "/tmp/.qd-upload-"@ + plan.transfer_id@
            &&& !plan.sudo ==> path@ == plan.path@
            &&& response.fails(
                plan.id@,
                error_codes::COMMAND_FAILED,
                "Checksum mismatch: expected "@ + plan.expected@ + ", got "@ + sha256_hex(
                    taken_in(plan.hasher),
                ),
            )
        },
        verdict matches UploadVerdict::Move(next) ==> {
            &&& next.id@ == plan.id@
            &&& next.path@ == plan.path@
            &&& next.temporary@ == "/tmp/.qd-upload-"@ + plan.transfer_id@
            &&& next.received == plan.received
            &&& next.checksum@ == plan.expected@
            &&& next.command.calls(
                "sudo"@,
                seq!["-n"@, "mv"@, "/tmp/.qd-upload-"@ + plan.transfer_id@, plan.path@],
            )
            &&& next.command.env is None
        },
        verdict matches UploadVerdict::Answer(response) ==> {
            &&& outcome is Synced ==> {
                &&& response.answers(plan.id@)
                &&& response.payload().ok
                &&& response.payload().path@ == plan.path@
                &&& response.payload().size == plan.received
                &&& response.payload().checksum@ == plan.expected@
            }
            &&& outcome matches SyncOutcome::FlushFailed(e) ==> response.fails(
                plan.id@,
                error_codes::COMMAND_FAILED,
                "Flush error: "@ + e@,
            )
            &&& outcome matches SyncOutcome::SyncFailed(e) ==> response.fails(
                plan.id@,
                error_codes::COMMAND_FAILED,
                "Sync error: "@ + e@,
            )
        },
{
}

/// An upload that was moved to its place is answered, and the file of one that was
/// not moved goes.
pub proof fn law_moved_upload_is_answered(
    plan: UploadMove,
    output: Result<CommandOutput, String>,
    r: (RpcResponse<UploadEndReply>, Option<String>),
)
    requires
        plan.on_output_gives(output, r),
    ensures
        r.1 is None <==> output is Ok && output->Ok_0.success,
        r.1 matches Some(path) ==> path@ == plan.temporary@,
        output is Ok && output->Ok_0.success ==> {
            &&& r.0.answers(plan.id@)
            &&& r.0.payload().ok
            &&& r.0.payload().path@ == plan.path@
            &&& r.0.payload().size == plan.received
            &&& r.0.payload().checksum@ == plan.checksum@
        },
        output is Ok && !output->Ok_0.success ==> r.0.fails(
            plan.id@,
            error_codes::COMMAND_FAILED,
            "sudo mv failed: "@ + text_in_bytes(output->Ok_0.stderr@),
        ),
        output matches Err(e) ==> r.0.fails(
            plan.id@,
            error_codes::COMMAND_FAILED,
            "Failed to run sudo mv: "@ + e@,
        ),
{
}

/// A download of a permitted file is begun as it was asked, and as root its size is
/// asked of `stat`.
pub proof fn law_download_begins_as_asked(
    id: String,
    params: Result<FsDownloadRequest, String>,
    security: &SecurityConfig,
    r: Result<DownloadPlan, RpcResponse<DownloadReply>>,
)
    requires
        fs_download_begins(id, params, security, r),
    ensures
        r is Ok <==> params is Ok && security.permits_path(params->Ok_0.path@),
        r matches Ok(plan) ==> {
            let request = params->Ok_0;
            &&& plan.id@ == id@
            &&& plan.transfer_id@ == request.transfer_id@
            &&& plan.path@ == request.path@
            &&& plan.stat is Some <==> request.sudo == Some(true)
            &&& plan.stat matches Some(command) ==> command.calls(
                "sudo"@,
                seq!["-n"@, "stat"@, "--format=%s"@, request.path@],
            ) && command.env is None
        },
        params is Ok && r is Err ==> refuses_path(r->Err_0, id@, params->Ok_0.path@),
        params matches Err(e) ==> r->Err_0.rejects_params(id@, e@),
{
}

/// A download is streamed under its transfer's ID and its size is told, exactly if
/// the size was had.
pub proof fn law_download_is_streamed(
    plan: DownloadPlan,
    size: Result<u64, String>,
    a: (RpcResponse<DownloadReply>, Option<DownloadStream>),
    output: Result<CommandOutput, String>,
    b: (RpcResponse<DownloadReply>, Option<DownloadStream>),
)
    requires
        plan.on_size_gives(size, a),
        plan.on_stat_gives(output, b),
    ensures
        a.1 is Some <==> size is Ok,
        size matches Ok(n) ==> a.0.answers(plan.id@) && a.0.payload().streaming
            && a.0.payload().transfer_id@ == plan.transfer_id@ && a.0.payload().size == n,
        a.1 matches Some(stream) ==> {
            &&& stream.transfer_id@ == plan.transfer_id@
            &&& stream.path@ == plan.path@
            &&& stream.cat is Some <==> plan.stat is Some
            &&& stream.cat matches Some(command) ==> command.calls(
                "sudo"@,
                seq!["-n"@, "cat"@, plan.path@],
            ) && command.env is None
        },
        size matches Err(e) ==> a.0.fails(
            plan.id@,
            error_codes::COMMAND_FAILED,
            "File not found: "@ + e@,
        ),
        b.1 is Some <==> output is Ok && output->Ok_0.success,
        output is Ok && output->Ok_0.success ==> b.0.answers(plan.id@) && b.0.payload().streaming
            && b.0.payload().transfer_id@ == plan.transfer_id@ && b.0.payload().size
            == read_or_zero(trimmed(text_in_bytes(output->Ok_0.stdout@)), u64::MAX as int),
        b.1 matches Some(stream) ==> stream.transfer_id@ == plan.transfer_id@ && stream.path@
            == plan.path@ && (stream.cat is Some <==> plan.stat is Some),
        b.1 is Some ==> (b.1->0.cat matches Some(command) ==> command.calls(
            "sudo"@,
            seq!["-n"@, "cat"@, plan.path@],
        ) && command.env is None),
        output is Ok && !output->Ok_0.success ==> b.0.fails(
            plan.id@,
            error_codes::COMMAND_FAILED,
            "stat failed: "@ + text_in_bytes(output->Ok_0.stderr@),
        ),
        output matches Err(e) ==> b.0.fails(
            plan.id@,
            error_codes::COMMAND_FAILED,
            "Failed to stat file: "@ + e@,
        ),
{
    if output is Ok {
        crate::laws::text::law_number_is_in_range(
            trimmed(text_in_bytes(output->Ok_0.stdout@)),
            10,
            u64::MAX as int,
        );
    }
}

/// The bytes of a download go out under its transfer's ID, and its end tells whether
/// all of them did.
pub proof fn law_download_carries_the_file(
    stream: DownloadStream,
    bytes: Vec<u8>,
    note: Option<RpcRequest<StreamData>>,
    ended: Result<ExitReport, String>,
    r: Result<(), String>,
    complete: bool,
    last: RpcRequest<StreamEnd>,
)
    requires
        stream.on_read_gives(bytes, note),
        stream.on_exit_gives(ended, r),
        stream.on_end_gives(complete, last),
    ensures
        note is Some <==> bytes@.len() > 0,
        note matches Some(n) ==> carries(n, stream.transfer_id@, StreamChannel::Stdout, bytes@),
        r is Ok <==> ended is Ok && ended->Ok_0.success,
        ended is Ok && !ended->Ok_0.success && ended->Ok_0.code is Some ==> r->Err_0@
            == "sudo cat exited with code "@ + signed_decimal(ended->Ok_0.code->0 as int),
        ended is Ok && !ended->Ok_0.success && ended->Ok_0.code is None ==> r->Err_0@
            == "sudo cat exited with code "@ + signed_decimal(-1),
        ended matches Err(e) ==> r->Err_0@ == e@,
        last.jsonrpc@ == "2.0"@,
        last.id is None,
        last.method@ == "stream.end"@,
        last.params.stream_id@ == stream.transfer_id@,
        complete ==> last.params.exit_code == 0,
        !complete ==> last.params.exit_code == -1,
{
}

} // verus!
