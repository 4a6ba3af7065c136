//! File system operations: listing, reading, writing, stat, directories,
//! deletion, renaming and search.
//!
//! A request as root is answered with the help of commands run through `sudo`. A
//! request for a path that the settings do not permit is refused.

use crate::command::{exit_code, flag, is_set, reported_code, words_of};
use crate::command::{CommandOutput, CommandSpec};
use crate::config::SecurityConfig;
use crate::encoding::{base64_bytes, base64_decode, base64_encode, base64_text};
use crate::encoding::{bytes_to_text, text_in_bytes, utf8_text};
use crate::error_codes;
use crate::handlers::fs_entry::{after_total, entry_views, ls_entries, meta_entry};
use crate::handlers::fs_entry::{metadata_to_entry, missing_entry, no_entry, parse_ls, parse_stat};
use crate::handlers::fs_entry::{sort_entries, sorted_listing, stat_entry, EntryView, FileMeta};
use crate::methods::{FsDeleteRequest, FsEncoding, FsEntry, FsListRequest, FsListResponse};
use crate::methods::{FsMkdirRequest, FsReadRequest, FsReadResponse, FsRenameRequest};
use crate::methods::{FsSearchRequest, FsSearchResponse, FsStatRequest, FsStatResponse};
use crate::methods::FsWriteRequest;
use crate::number::{decimal, number_in, parse_number, signed_decimal, to_decimal};
use crate::number::to_signed_decimal;
use crate::paths::{file_name, file_name_of};
use crate::rpc::RpcResponse;
use crate::split::{keep_nonempty, lines, lines_of, not_empty};
use crate::text::{cat2, cat4, cat6, texts};
use vstd::prelude::*;
use vstd::string::{StrSliceExecFns, StringExecFns};

verus! {

/// The result of an operation that has nothing to tell.
#[derive(Debug, Clone)]
pub struct OkReply {
    pub ok: bool,
}

/// What ran commands report as their end.
pub struct ExitReport {
    pub success: bool,
    /// The exit code, where the command was not ended by a signal.
    pub code: Option<i32>,
}

/// The message that a command named `name` could not be run to success.
pub open spec fn exit_message(name: Seq<char>, code: Option<i32>) -> Seq<char> {
    name + " failed (exit "@ + signed_decimal(reported_code(code) as int) + ")"@
}

/// A command that does all that a request asks for.
pub struct StatusPlan {
    pub id: String,
    pub command: CommandSpec,
    /// How an error names the command.
    pub name: String,
}

impl StatusPlan {
    /// Whether the plan answers the request with this ID, runs `sudo` with these
    /// arguments and names the command like this in errors.
    pub open spec fn runs(self, id: Seq<char>, args: Seq<Seq<char>>, name: Seq<char>) -> bool {
        &&& self.id@ == id
        &&& self.command.calls("sudo"@, args)
        &&& self.command.env is None
        &&& self.name@ == name
    }

    /// Whether this is what [`Self::finish`] gives.
    pub open spec fn finish_gives(
        self,
        ended: Result<ExitReport, String>,
        response: RpcResponse<OkReply>,
    ) -> bool {
        &&& response.responds_to(self.id@)
        &&& match ended {
            Ok(report) => if report.success {
                response.succeeds(self.id@, OkReply { ok: true })
            } else {
                response.fails(
                    self.id@,
                    error_codes::COMMAND_FAILED,
                    exit_message(self.name@, report.code),
                )
            },
            Err(e) => response.fails(
                self.id@,
                error_codes::COMMAND_FAILED,
                "exec failed: "@ + e@,
            ),
        }
    }

    /// The response when the command ended so, or could not be run.
    pub fn finish(self, ended: Result<ExitReport, String>) -> (response: RpcResponse<OkReply>)
        ensures
            self.finish_gives(ended, response),
            response.responds_to(self.id@),
            match ended {
                Ok(report) => if report.success {
                    response.succeeds(self.id@, OkReply { ok: true })
                } else {
                    response.fails(
                        self.id@,
                        error_codes::COMMAND_FAILED,
                        exit_message(self.name@, report.code),
                    )
                },
                Err(e) => response.fails(
                    self.id@,
                    error_codes::COMMAND_FAILED,
                    "exec failed: "@ + e@,
                ),
            },
    {
        match ended {
            Ok(report) => if report.success {
                RpcResponse::success(self.id, OkReply { ok: true })
            } else {
                let code = to_signed_decimal(exit_code(report.code));
                RpcResponse::error(
                    self.id,
                    error_codes::COMMAND_FAILED,
                    cat4(self.name.as_str(), " failed (exit ", code.as_str(), ")"),
                )
            },
            Err(e) => RpcResponse::error(
                self.id,
                error_codes::COMMAND_FAILED,
                cat2("exec failed: ", e.as_str()),
            ),
        }
    }
}

/// The message that something cannot be done to a path: what, the path, and why.
pub open spec fn cannot(what: Seq<char>, path: Seq<char>, why: Seq<char>) -> Seq<char> {
    "Cannot "@ + what + " '"@ + path + "': "@ + why
}

/// The error response that something cannot be done to a path.
fn cannot_response<V>(id: String, what: &str, path: &str, why: &str) -> (response: RpcResponse<V>)
    ensures
        response.fails(id@, error_codes::COMMAND_FAILED, cannot(what@, path@, why@)),
{
    RpcResponse::error(
        id,
        error_codes::COMMAND_FAILED,
        cat6("Cannot ", what, " '", path, "': ", why),
    )
}

/// The error response with a message of two parts.
fn failed_response<V>(id: String, what: &str, why: &str) -> (response: RpcResponse<V>)
    ensures
        response.fails(id@, error_codes::COMMAND_FAILED, what@ + why@),
{
    RpcResponse::error(id, error_codes::COMMAND_FAILED, cat2(what, why))
}

/// The message that the settings do not permit a path.
pub open spec fn refused_path(path: Seq<char>) -> Seq<char> {
    "Path not allowed: "@ + path
}

/// The error response to a request for a path that the settings do not permit.
pub(crate) fn refuse_path<V>(id: String, path: &str) -> (response: RpcResponse<V>)
    ensures
        response.fails(id@, error_codes::COMMAND_FAILED, refused_path(path@)),
{
    failed_response(id, "Path not allowed: ", path)
}

// ---------------------------------------------------------------------------
// fs.list
// ---------------------------------------------------------------------------

/// How a directory is listed.
pub enum FsListPlan {
    /// Read the directory.
    Direct(FsListDirect),
    /// Run a command.
    Sudo(FsListSudo),
}

/// A directory to be read.
pub struct FsListDirect {
    pub id: String,
    pub path: String,
}

/// A command that lists a directory.
pub struct FsListSudo {
    pub id: String,
    pub command: CommandSpec,
}

/// A file of a directory, with its metadata where that could be had.
pub struct FoundFile {
    pub name: String,
    pub meta: Option<FileMeta>,
}

/// The entries of the files whose metadata could be had, in order.
pub open spec fn known_entries(found: Seq<FoundFile>) -> Seq<EntryView>
    decreases found.len(),
{
    if found.len() == 0 {
        Seq::empty()
    } else {
        let before = known_entries(found.drop_last());
        match found.last().meta {
            Some(meta) => before.push(meta_entry(found.last().name@, meta)),
            None => before,
        }
    }
}

/// Whether this is what [`handle_fs_list`] gives.
pub open spec fn fs_list_begins(
    id: String,
    params: Result<FsListRequest, String>,
    security: &SecurityConfig,
    r: Result<FsListPlan, RpcResponse<FsListResponse>>,
) -> bool {
    &&& r matches Err(response) ==> response.responds_to(id@)
    &&& match params {
        Ok(request) if !security.permits_path(request.path@) => r matches Err(response)
            && response.fails(
            id@,
            error_codes::COMMAND_FAILED,
            refused_path(request.path@),
        ),
        Ok(request) => if flag(request.sudo) {
            &&& r matches Ok(FsListPlan::Sudo(plan))
            &&& plan.id@ == id@
            &&& plan.command.calls(
                "sudo"@,
                seq!["ls"@, "-la"@, "--time-style=full-iso"@, request.path@],
            )
            &&& plan.command.env is None
        } else {
            &&& r matches Ok(FsListPlan::Direct(plan))
            &&& plan.id@ == id@
            &&& plan.path@ == request.path@
        },
        Err(e) => r matches Err(response) && response.rejects_params(id@, e@),
    }
}

/// Handle `fs.list`: list directory contents.
pub fn handle_fs_list(
    id: String,
    params: Result<FsListRequest, String>,
    security: &SecurityConfig,
) -> (r: Result<FsListPlan, RpcResponse<FsListResponse>>)
    ensures
        fs_list_begins(id, params, security, r),
        r matches Err(response) ==> response.responds_to(id@),
        match params {
            Ok(request) if !security.permits_path(request.path@) => r matches Err(response)
                && response.fails(
                id@,
                error_codes::COMMAND_FAILED,
                refused_path(request.path@),
            ),
            Ok(request) => if flag(request.sudo) {
                &&& r matches Ok(FsListPlan::Sudo(plan))
                &&& plan.id@ == id@
                &&& plan.command.calls(
                    "sudo"@,
                    seq!["ls"@, "-la"@, "--time-style=full-iso"@, request.path@],
                )
                &&& plan.command.env is None
            } else {
                &&& r matches Ok(FsListPlan::Direct(plan))
                &&& plan.id@ == id@
                &&& plan.path@ == request.path@
            },
            Err(e) => r matches Err(response) && response.rejects_params(id@, e@),
        },
{
    match params {
        Ok(request) => if !security.allows_path(request.path.as_str()) {
            Err(refuse_path(id, request.path.as_str()))
        } else if is_set(request.sudo) {
            Ok(FsListPlan::Sudo(handle_fs_list_sudo(id, request.path.as_str())))
        } else {
            Ok(FsListPlan::Direct(FsListDirect { id, path: request.path }))
        },
        Err(e) => Err(RpcResponse::invalid_params(id, e.as_str())),
    }
}

/// `fs.list` as root: the command whose output is read.
pub fn handle_fs_list_sudo(id: String, path: &str) -> (plan: FsListSudo)
    ensures
        plan.id@ == id@,
        plan.command.calls("sudo"@, seq!["ls"@, "-la"@, "--time-style=full-iso"@, path@]),
        plan.command.env is None,
{
    let args = vec!["ls", "-la", "--time-style=full-iso", path];
    assert(words_of(args@) =~= seq!["ls"@, "-la"@, "--time-style=full-iso"@, path@]);
    FsListSudo { id, command: CommandSpec::new("sudo", &args) }
}

impl FsListDirect {
    /// Whether this is what [`Self::on_entries`] gives.
    pub open spec fn on_entries_gives(
        self,
        found: Result<Vec<FoundFile>, String>,
        response: RpcResponse<FsListResponse>,
    ) -> bool {
        &&& response.responds_to(self.id@)
        &&& match found {
            Ok(files) => {
                &&& response.answers(self.id@)
                &&& sorted_listing(
                    known_entries(files@),
                    entry_views(response.payload().entries@),
                )
            },
            Err(e) => response.fails(
                self.id@,
                error_codes::COMMAND_FAILED,
                cannot("read directory"@, self.path@, e@),
            ),
        }
    }

    /// The response when the directory held these files, or could not be read.
    pub fn on_entries(self, found: Result<Vec<FoundFile>, String>) -> (response: RpcResponse<
        FsListResponse,
    >)
        ensures
            self.on_entries_gives(found, response),
            response.responds_to(self.id@),
            match found {
                Ok(files) => {
                    &&& response.answers(self.id@)
                    &&& sorted_listing(
                        known_entries(files@),
                        entry_views(response.payload().entries@),
                    )
                },
                Err(e) => response.fails(
                    self.id@,
                    error_codes::COMMAND_FAILED,
                    cannot("read directory"@, self.path@, e@),
                ),
            },
    {
        match found {
            Ok(files) => {
                let entries = collect_known(files);
                RpcResponse::success(self.id, FsListResponse { entries: sort_entries(&entries) })
            },
            Err(e) => cannot_response(self.id, "read directory", self.path.as_str(), e.as_str()),
        }
    }
}

/// The entries of the files whose metadata could be had, in order.
fn collect_known(files: Vec<FoundFile>) -> (r: Vec<FsEntry>)
    ensures
        entry_views(r@) == known_entries(files@),
{
    let ghost all = files@;
    let mut r: Vec<FsEntry> = Vec::new();
    assert(all.take(0) =~= Seq::empty());
    assert(entry_views(r@) =~= Seq::empty());
    for file in it: files
        invariant
            all == it.seq(),
            entry_views(r@) == known_entries(all.take(it.index() as int)),
    {
        let ghost i = it.index() as int;
        assert(all.take(i + 1).drop_last() =~= all.take(i));
        assert(all.take(i + 1).last() == file);
        let ghost before = entry_views(r@);
        match file.meta {
            Some(meta) => {
                let entry = metadata_to_entry(file.name.as_str(), meta);
                r.push(entry);
                assert(entry_views(r@) =~= before.push(entry@));
            },
            None => {},
        }
    }
    assert(all.take(all.len() as int) =~= all);
    r
}

impl FsListSudo {
    /// Whether this is what [`Self::on_output`] gives.
    pub open spec fn on_output_gives(
        self,
        output: Result<CommandOutput, String>,
        response: RpcResponse<FsListResponse>,
    ) -> bool {
        &&& response.responds_to(self.id@)
        &&& match output {
            Ok(out) => if out.success {
                &&& response.answers(self.id@)
                &&& entry_views(response.payload().entries@) == ls_entries(
                    after_total(lines_of(text_in_bytes(out.stdout@))),
                )
            } else {
                response.fails(
                    self.id@,
                    error_codes::COMMAND_FAILED,
                    "ls failed: "@ + text_in_bytes(out.stderr@),
                )
            },
            Err(e) => response.fails(
                self.id@,
                error_codes::COMMAND_FAILED,
                "exec failed: "@ + e@,
            ),
        }
    }

    /// The response when the command reported this, or could not be run.
    pub fn on_output(self, output: Result<CommandOutput, String>) -> (response: RpcResponse<
        FsListResponse,
    >)
        ensures
            self.on_output_gives(output, response),
            response.responds_to(self.id@),
            match output {
                Ok(out) => if out.success {
                    &&& response.answers(self.id@)
                    &&& entry_views(response.payload().entries@) == ls_entries(
                        after_total(lines_of(text_in_bytes(out.stdout@))),
                    )
                } else {
                    response.fails(
                        self.id@,
                        error_codes::COMMAND_FAILED,
                        "ls failed: "@ + text_in_bytes(out.stderr@),
                    )
                },
                Err(e) => response.fails(
                    self.id@,
                    error_codes::COMMAND_FAILED,
                    "exec failed: "@ + e@,
                ),
            },
    {
        match output {
            Ok(out) => if out.success {
                let stdout = bytes_to_text(&out.stdout);
                RpcResponse::success(self.id, FsListResponse { entries: parse_ls(stdout.as_str()) })
            } else {
                let stderr = bytes_to_text(&out.stderr);
                failed_response(self.id, "ls failed: ", stderr.as_str())
            },
            Err(e) => failed_response(self.id, "exec failed: ", e.as_str()),
        }
    }
}

// ---------------------------------------------------------------------------
// fs.read
// ---------------------------------------------------------------------------

/// The encoding that a request asks for; UTF-8 if it does not say.
pub open spec fn chosen(encoding: Option<FsEncoding>) -> FsEncoding {
    match encoding {
        Some(e) => e,
        None => FsEncoding::Utf8,
    }
}

fn choose_encoding(encoding: Option<FsEncoding>) -> (e: FsEncoding)
    ensures
        e == chosen(encoding),
{
    match encoding {
        Some(e) => e,
        None => FsEncoding::default(),
    }
}

/// Bytes as text, and the encoding that was used: UTF-8 if it was asked for and
/// the bytes are UTF-8, else Base64.
pub open spec fn content_text(bytes: Seq<u8>, encoding: FsEncoding) -> (Seq<char>, FsEncoding) {
    if encoding is Utf8 && vstd::utf8::valid_utf8(bytes) {
        (vstd::utf8::decode_utf8(bytes), FsEncoding::Utf8)
    } else {
        (base64_text(bytes), FsEncoding::Base64)
    }
}

/// Bytes as text, and the encoding that was used. What a later `fs.write` of the
/// text in that encoding writes is the bytes.
pub fn encode_content(data: Vec<u8>, encoding: FsEncoding) -> (r: (String, FsEncoding))
    ensures
        (r.0@, r.1) == content_text(data@, encoding),
        content_bytes(r.0@, r.1) == Ok::<Seq<u8>, Seq<char>>(data@),
{
    match encoding {
        FsEncoding::Utf8 => {
            let text = utf8_text(data.clone());
            match text {
                Some(text) => {
                    proof {
                        vstd::utf8::decode_utf8_encode_utf8(data@);
                    }
                    (text, FsEncoding::Utf8)
                },
                None => (base64_encode(&data), FsEncoding::Base64),
            }
        },
        FsEncoding::Base64 => (base64_encode(&data), FsEncoding::Base64),
    }
}

/// Whether the content of a response stands for the bytes in the encoding that
/// the response names: writing it in that encoding writes the bytes.
pub open spec fn stands_for(response: FsReadResponse, bytes: Seq<u8>) -> bool {
    content_bytes(response.content@, response.encoding) == Ok::<Seq<u8>, Seq<char>>(bytes)
}

/// How a file is read.
pub enum FsReadPlan {
    /// Ask for the size of the file.
    Direct(FsReadDirect),
    /// Run a command.
    Sudo(FsReadSudo),
}

/// A file whose size is to be asked for, to be read if it has at most `limit`
/// bytes.
pub struct FsReadDirect {
    pub id: String,
    pub path: String,
    pub encoding: FsEncoding,
    pub limit: u64,
}

/// A file to be read, of known size.
pub struct FsReadSized {
    pub id: String,
    pub path: String,
    pub encoding: FsEncoding,
    pub size: u64,
}

/// A command that prints a file.
pub struct FsReadSudo {
    pub id: String,
    pub command: CommandSpec,
    pub encoding: FsEncoding,
}

/// Whether this is what [`handle_fs_read`] gives.
pub open spec fn fs_read_begins(
    id: String,
    params: Result<FsReadRequest, String>,
    security: &SecurityConfig,
    r: Result<FsReadPlan, RpcResponse<FsReadResponse>>,
) -> bool {
    &&& r matches Err(response) ==> response.responds_to(id@)
    &&& match params {
        Ok(request) if !security.permits_path(request.path@) => r matches Err(response)
            && response.fails(
            id@,
            error_codes::COMMAND_FAILED,
            refused_path(request.path@),
        ),
        Ok(request) => if flag(request.sudo) {
            &&& r matches Ok(FsReadPlan::Sudo(plan))
            &&& plan.id@ == id@
            &&& plan.command.calls("sudo"@, seq!["cat"@, request.path@])
            &&& plan.command.env is None
            &&& plan.encoding == chosen(request.encoding)
        } else {
            &&& r matches Ok(FsReadPlan::Direct(plan))
            &&& plan.id@ == id@
            &&& plan.path@ == request.path@
            &&& plan.encoding == chosen(request.encoding)
            &&& plan.limit == security.most_bytes()
        },
        Err(e) => r matches Err(response) && response.rejects_params(id@, e@),
    }
}

/// Handle `fs.read`: read a file.
pub fn handle_fs_read(
    id: String,
    params: Result<FsReadRequest, String>,
    security: &SecurityConfig,
) -> (r: Result<FsReadPlan, RpcResponse<FsReadResponse>>)
    ensures
        fs_read_begins(id, params, security, r),
        r matches Err(response) ==> response.responds_to(id@),
        match params {
            Ok(request) if !security.permits_path(request.path@) => r matches Err(response)
                && response.fails(
                id@,
                error_codes::COMMAND_FAILED,
                refused_path(request.path@),
            ),
            Ok(request) => if flag(request.sudo) {
                &&& r matches Ok(FsReadPlan::Sudo(plan))
                &&& plan.id@ == id@
                &&& plan.command.calls("sudo"@, seq!["cat"@, request.path@])
                &&& plan.command.env is None
                &&& plan.encoding == chosen(request.encoding)
            } else {
                &&& r matches Ok(FsReadPlan::Direct(plan))
                &&& plan.id@ == id@
                &&& plan.path@ == request.path@
                &&& plan.encoding == chosen(request.encoding)
                &&& plan.limit == security.most_bytes()
            },
            Err(e) => r matches Err(response) && response.rejects_params(id@, e@),
        },
{
    match params {
        Ok(request) => {
            if !security.allows_path(request.path.as_str()) {
                return Err(refuse_path(id, request.path.as_str()));
            }
            let encoding = choose_encoding(request.encoding);
            if is_set(request.sudo) {
                Ok(FsReadPlan::Sudo(handle_fs_read_sudo(id, request.path.as_str(), encoding)))
            } else {
                let limit = security.max_file_bytes();
                Ok(FsReadPlan::Direct(FsReadDirect { id, path: request.path, encoding, limit }))
            }
        },
        Err(e) => Err(RpcResponse::invalid_params(id, e.as_str())),
    }
}

/// `fs.read` as root: the command whose output is the file.
pub fn handle_fs_read_sudo(id: String, path: &str, encoding: FsEncoding) -> (plan: FsReadSudo)
    ensures
        plan.id@ == id@,
        plan.command.calls("sudo"@, seq!["cat"@, path@]),
        plan.command.env is None,
        plan.encoding == encoding,
{
    let args = vec!["cat", path];
    assert(words_of(args@) =~= seq!["cat"@, path@]);
    FsReadSudo { id, command: CommandSpec::new("sudo", &args), encoding }
}

/// The message that data or a file is larger than the limit.
pub open spec fn too_large(what: Seq<char>, size: nat, limit: u64) -> Seq<char> {
    what + " too large: "@ + decimal(size) + " bytes (max "@ + decimal(limit as nat) + ")"@
}

fn too_large_message(what: &str, size: u64, limit: u64) -> (message: String)
    ensures
        message@ == too_large(what@, size as nat, limit),
{
    let size = to_decimal(size);
    let most = to_decimal(limit);
    cat6(what, " too large: ", size.as_str(), " bytes (max ", most.as_str(), ")")
}

impl FsReadDirect {
    /// Whether this is what [`Self::on_size`] gives.
    pub open spec fn on_size_gives(
        self,
        size: Result<u64, String>,
        r: Result<FsReadSized, RpcResponse<FsReadResponse>>,
    ) -> bool {
        &&& r matches Err(response) ==> response.responds_to(self.id@)
        &&& match size {
            Ok(size) => if size > self.limit {
                r matches Err(response) && response.fails(
                    self.id@,
                    error_codes::COMMAND_FAILED,
                    too_large("File"@, size as nat, self.limit),
                )
            } else {
                &&& r matches Ok(plan)
                &&& plan.id@ == self.id@
                &&& plan.path@ == self.path@
                &&& plan.encoding == self.encoding
                &&& plan.size == size
            },
            Err(e) => r matches Err(response) && response.fails(
                self.id@,
                error_codes::COMMAND_FAILED,
                cannot("stat"@, self.path@, e@),
            ),
        }
    }

    /// What follows when the file has this size, or its size could not be had.
    pub fn on_size(self, size: Result<u64, String>) -> (r: Result<
        FsReadSized,
        RpcResponse<FsReadResponse>,
    >)
        ensures
            self.on_size_gives(size, r),
            r matches Err(response) ==> response.responds_to(self.id@),
            match size {
                Ok(size) => if size > self.limit {
                    r matches Err(response) && response.fails(
                        self.id@,
                        error_codes::COMMAND_FAILED,
                        too_large("File"@, size as nat, self.limit),
                    )
                } else {
                    &&& r matches Ok(plan)
                    &&& plan.id@ == self.id@
                    &&& plan.path@ == self.path@
                    &&& plan.encoding == self.encoding
                    &&& plan.size == size
                },
                Err(e) => r matches Err(response) && response.fails(
                    self.id@,
                    error_codes::COMMAND_FAILED,
                    cannot("stat"@, self.path@, e@),
                ),
            },
    {
        match size {
            Ok(size) => if size > self.limit {
                Err(
                    RpcResponse::error(
                        self.id,
                        error_codes::COMMAND_FAILED,
                        too_large_message("File", size, self.limit),
                    ),
                )
            } else {
                Ok(FsReadSized { id: self.id, path: self.path, encoding: self.encoding, size })
            },
            Err(e) => Err(cannot_response(self.id, "stat", self.path.as_str(), e.as_str())),
        }
    }
}

impl FsReadSized {
    /// Whether this is what [`Self::on_data`] gives.
    pub open spec fn on_data_gives(
        self,
        data: Result<Vec<u8>, String>,
        response: RpcResponse<FsReadResponse>,
    ) -> bool {
        &&& response.responds_to(self.id@)
        &&& match data {
            Ok(data) => {
                &&& response.answers(self.id@)
                &&& (response.payload().content@, response.payload().encoding) == content_text(
                    data@,
                    self.encoding,
                )
                &&& stands_for(response.payload(), data@)
                &&& response.payload().size == self.size
            },
            Err(e) => response.fails(
                self.id@,
                error_codes::COMMAND_FAILED,
                cannot("read"@, self.path@, e@),
            ),
        }
    }

    /// The response when the file held this, or could not be read.
    pub fn on_data(self, data: Result<Vec<u8>, String>) -> (response: RpcResponse<FsReadResponse>)
        ensures
            self.on_data_gives(data, response),
            response.responds_to(self.id@),
            match data {
                Ok(data) => {
                    &&& response.answers(self.id@)
                    &&& (response.payload().content@, response.payload().encoding) == content_text(
                        data@,
                        self.encoding,
                    )
                    &&& stands_for(response.payload(), data@)
                    &&& response.payload().size == self.size
                },
                Err(e) => response.fails(
                    self.id@,
                    error_codes::COMMAND_FAILED,
                    cannot("read"@, self.path@, e@),
                ),
            },
    {
        match data {
            Ok(data) => {
                let (content, encoding) = encode_content(data, self.encoding);
                RpcResponse::success(
                    self.id,
                    FsReadResponse { content, encoding, size: self.size },
                )
            },
            Err(e) => cannot_response(self.id, "read", self.path.as_str(), e.as_str()),
        }
    }
}

impl FsReadSudo {
    /// Whether this is what [`Self::on_output`] gives.
    pub open spec fn on_output_gives(
        self,
        output: Result<CommandOutput, String>,
        response: RpcResponse<FsReadResponse>,
    ) -> bool {
        &&& response.responds_to(self.id@)
        &&& match output {
            Ok(out) => if out.success {
                &&& response.answers(self.id@)
                &&& (response.payload().content@, response.payload().encoding) == content_text(
                    out.stdout@,
                    self.encoding,
                )
                &&& stands_for(response.payload(), out.stdout@)
                &&& response.payload().size == out.stdout@.len()
            } else {
                response.fails(
                    self.id@,
                    error_codes::COMMAND_FAILED,
                    "sudo cat failed: "@ + text_in_bytes(out.stderr@),
                )
            },
            Err(e) => response.fails(
                self.id@,
                error_codes::COMMAND_FAILED,
                "exec failed: "@ + e@,
            ),
        }
    }

    /// The response when the command reported this, or could not be run.
    pub fn on_output(self, output: Result<CommandOutput, String>) -> (response: RpcResponse<
        FsReadResponse,
    >)
        ensures
            self.on_output_gives(output, response),
            response.responds_to(self.id@),
            match output {
                Ok(out) => if out.success {
                    &&& response.answers(self.id@)
                    &&& (response.payload().content@, response.payload().encoding) == content_text(
                        out.stdout@,
                        self.encoding,
                    )
                    &&& stands_for(response.payload(), out.stdout@)
                    &&& response.payload().size == out.stdout@.len()
                } else {
                    response.fails(
                        self.id@,
                        error_codes::COMMAND_FAILED,
                        "sudo cat failed: "@ + text_in_bytes(out.stderr@),
                    )
                },
                Err(e) => response.fails(
                    self.id@,
                    error_codes::COMMAND_FAILED,
                    "exec failed: "@ + e@,
                ),
            },
    {
        match output {
            Ok(out) => if out.success {
                let size = out.stdout.len() as u64;
                let (content, encoding) = encode_content(out.stdout, self.encoding);
                RpcResponse::success(self.id, FsReadResponse { content, encoding, size })
            } else {
                let stderr = bytes_to_text(&out.stderr);
                failed_response(self.id, "sudo cat failed: ", stderr.as_str())
            },
            Err(e) => failed_response(self.id, "exec failed: ", e.as_str()),
        }
    }
}

// ---------------------------------------------------------------------------
// fs.write
// ---------------------------------------------------------------------------

/// The result of writing a file.
#[derive(Debug, Clone)]
pub struct FsWriteReply {
    pub ok: bool,
    pub size: u64,
}

/// The bytes that a text stands for in an encoding, or why it stands for none.
pub open spec fn content_bytes(content: Seq<char>, encoding: FsEncoding) -> Result<
    Seq<u8>,
    Seq<char>,
> {
    match encoding {
        FsEncoding::Utf8 => Ok(vstd::utf8::encode_utf8(content)),
        FsEncoding::Base64 => base64_bytes(content),
    }
}

/// The bytes that a text stands for in an encoding, or why it stands for none.
pub fn decode_content(content: &str, encoding: FsEncoding) -> (r: Result<Vec<u8>, String>)
    ensures
        match r {
            Ok(bytes) => content_bytes(content@, encoding) == Ok::<Seq<u8>, Seq<char>>(bytes@),
            Err(e) => content_bytes(content@, encoding) == Err::<Seq<u8>, Seq<char>>(e@),
        },
{
    match encoding {
        FsEncoding::Utf8 => Ok(content.as_bytes_vec()),
        FsEncoding::Base64 => base64_decode(content),
    }
}

/// A file to be written.
pub struct FsWritePlan {
    pub id: String,
    pub path: String,
    pub data: Vec<u8>,
    pub mode: Option<String>,
    /// As root: the command that writes its input to the file.
    pub command: Option<CommandSpec>,
}

/// Whether this is what [`handle_fs_write`] gives.
pub open spec fn fs_write_begins(
    id: String,
    params: Result<FsWriteRequest, String>,
    security: &SecurityConfig,
    r: Result<FsWritePlan, RpcResponse<FsWriteReply>>,
) -> bool {
    &&& r matches Err(response) ==> response.responds_to(id@)
    &&& match params {
        Ok(request) if !security.permits_path(request.path@) => r matches Err(response)
            && response.fails(
            id@,
            error_codes::COMMAND_FAILED,
            refused_path(request.path@),
        ),
        Ok(request) => match content_bytes(request.content@, chosen(request.encoding)) {
            Ok(bytes) => if bytes.len() > security.most_bytes() {
                r matches Err(response) && response.fails(
                    id@,
                    error_codes::COMMAND_FAILED,
                    too_large("Data"@, bytes.len(), security.most_bytes()),
                )
            } else {
                &&& r matches Ok(plan)
                &&& plan.id@ == id@
                &&& plan.path@ == request.path@
                &&& plan.data@ == bytes
                &&& plan.mode == request.mode
                &&& match plan.command {
                    Some(command) => {
                        &&& flag(request.sudo)
                        &&& command.calls("sudo"@, seq!["tee"@, request.path@])
                        &&& command.env is None
                    },
                    None => !flag(request.sudo),
                }
            },
            Err(e) => r matches Err(response) && response.fails(
                id@,
                error_codes::INVALID_PARAMS,
                "Invalid base64: "@ + e,
            ),
        },
        Err(e) => r matches Err(response) && response.rejects_params(id@, e@),
    }
}

/// Handle `fs.write`: write a file.
pub fn handle_fs_write(
    id: String,
    params: Result<FsWriteRequest, String>,
    security: &SecurityConfig,
) -> (r: Result<FsWritePlan, RpcResponse<FsWriteReply>>)
    ensures
        fs_write_begins(id, params, security, r),
        r matches Err(response) ==> response.responds_to(id@),
        match params {
            Ok(request) if !security.permits_path(request.path@) => r matches Err(response)
                && response.fails(
                id@,
                error_codes::COMMAND_FAILED,
                refused_path(request.path@),
            ),
            Ok(request) => match content_bytes(request.content@, chosen(request.encoding)) {
                Ok(bytes) => if bytes.len() > security.most_bytes() {
                    r matches Err(response) && response.fails(
                        id@,
                        error_codes::COMMAND_FAILED,
                        too_large("Data"@, bytes.len(), security.most_bytes()),
                    )
                } else {
                    &&& r matches Ok(plan)
                    &&& plan.id@ == id@
                    &&& plan.path@ == request.path@
                    &&& plan.data@ == bytes
                    &&& plan.mode == request.mode
                    &&& match plan.command {
                        Some(command) => {
                            &&& flag(request.sudo)
                            &&& command.calls("sudo"@, seq!["tee"@, request.path@])
                            &&& command.env is None
                        },
                        None => !flag(request.sudo),
                    }
                },
                Err(e) => r matches Err(response) && response.fails(
                    id@,
                    error_codes::INVALID_PARAMS,
                    "Invalid base64: "@ + e,
                ),
            },
            Err(e) => r matches Err(response) && response.rejects_params(id@, e@),
        },
{
    let request = match params {
        Ok(request) => request,
        Err(e) => return Err(RpcResponse::invalid_params(id, e.as_str())),
    };
    if !security.allows_path(request.path.as_str()) {
        return Err(refuse_path(id, request.path.as_str()));
    }
    let encoding = choose_encoding(request.encoding);
    let data = match decode_content(request.content.as_str(), encoding) {
        Ok(data) => data,
        Err(e) => {
            let message = cat2("Invalid base64: ", e.as_str());
            return Err(RpcResponse::error(id, error_codes::INVALID_PARAMS, message));
        },
    };
    let limit = security.max_file_bytes();
    if data.len() as u64 > limit {
        let message = too_large_message("Data", data.len() as u64, limit);
        return Err(RpcResponse::error(id, error_codes::COMMAND_FAILED, message));
    }
    let command = if is_set(request.sudo) {
        let args = vec!["tee", request.path.as_str()];
        assert(words_of(args@) =~= seq!["tee"@, request.path@]);
        Some(CommandSpec::new("sudo", &args))
    } else {
        None
    };
    Ok(FsWritePlan { id, path: request.path, data, mode: request.mode, command })
}

/// How the command that writes a file ended.
pub enum TeeOutcome {
    /// It could not be started.
    SpawnFailed(String),
    /// It did not take its input.
    WriteFailed(String),
    /// It ended.
    Exited(ExitReport),
    /// How it ended could not be told.
    Unknown,
}

/// The mode that a text of octal digits gives, if it gives one.
pub open spec fn octal_mode(mode: Option<String>) -> Option<u32> {
    match mode {
        Some(text) => match number_in(text@, 8, u32::MAX as int) {
            Some(n) => Some(n as u32),
            None => None,
        },
        None => None,
    }
}

impl FsWritePlan {
    /// Whether the response tells that all was written.
    pub open spec fn done(self, response: RpcResponse<FsWriteReply>) -> bool {
        response.succeeds(
            self.id@,
            FsWriteReply { ok: true, size: self.data@.len() as u64 },
        )
    }

    /// Whether this is what [`Self::on_tee`] gives.
    pub open spec fn on_tee_gives(
        self,
        outcome: TeeOutcome,
        r: (RpcResponse<FsWriteReply>, Option<CommandSpec>),
    ) -> bool {
        &&& r.0.responds_to(self.id@)
        &&& match outcome {
            TeeOutcome::SpawnFailed(e) => {
                &&& r.0.fails(
                    self.id@,
                    error_codes::COMMAND_FAILED,
                    "Failed to spawn sudo tee: "@ + e@,
                )
                &&& r.1 is None
            },
            TeeOutcome::WriteFailed(e) => {
                &&& r.0.fails(
                    self.id@,
                    error_codes::COMMAND_FAILED,
                    "Write failed: "@ + e@,
                )
                &&& r.1 is None
            },
            TeeOutcome::Exited(report) if !report.success => {
                &&& r.0.fails(
                    self.id@,
                    error_codes::COMMAND_FAILED,
                    "sudo tee exited with code "@ + signed_decimal(
                        reported_code(report.code) as int,
                    ),
                )
                &&& r.1 is None
            },
            _ => {
                &&& self.done(r.0)
                &&& match r.1 {
                    Some(command) => {
                        &&& self.mode matches Some(mode)
                        &&& command.calls("sudo"@, seq!["chmod"@, mode@, self.path@])
                        &&& command.env is None
                    },
                    None => self.mode is None,
                }
            },
        }
    }

    /// As root: the response when the command that writes ended so, and before
    /// it is sent the command that sets the mode, where one is given.
    pub fn on_tee(self, outcome: TeeOutcome) -> (r: (
        RpcResponse<FsWriteReply>,
        Option<CommandSpec>,
    ))
        ensures
            self.on_tee_gives(outcome, r),
            r.0.responds_to(self.id@),
            match outcome {
                TeeOutcome::SpawnFailed(e) => {
                    &&& r.0.fails(
                        self.id@,
                        error_codes::COMMAND_FAILED,
                        "Failed to spawn sudo tee: "@ + e@,
                    )
                    &&& r.1 is None
                },
                TeeOutcome::WriteFailed(e) => {
                    &&& r.0.fails(
                        self.id@,
                        error_codes::COMMAND_FAILED,
                        "Write failed: "@ + e@,
                    )
                    &&& r.1 is None
                },
                TeeOutcome::Exited(report) if !report.success => {
                    &&& r.0.fails(
                        self.id@,
                        error_codes::COMMAND_FAILED,
                        "sudo tee exited with code "@ + signed_decimal(
                            reported_code(report.code) as int,
                        ),
                    )
                    &&& r.1 is None
                },
                _ => {
                    &&& self.done(r.0)
                    &&& match r.1 {
                        Some(command) => {
                            &&& self.mode matches Some(mode)
                            &&& command.calls("sudo"@, seq!["chmod"@, mode@, self.path@])
                            &&& command.env is None
                        },
                        None => self.mode is None,
                    }
                },
            },
    {
        match outcome {
            TeeOutcome::SpawnFailed(e) => {
                return (failed_response(self.id, "Failed to spawn sudo tee: ", e.as_str()), None);
            },
            TeeOutcome::WriteFailed(e) => {
                return (failed_response(self.id, "Write failed: ", e.as_str()), None);
            },
            TeeOutcome::Exited(report) => if !report.success {
                let code = to_signed_decimal(exit_code(report.code));
                let response = failed_response(
                    self.id,
                    "sudo tee exited with code ",
                    code.as_str(),
                );
                return (response, None);
            },
            TeeOutcome::Unknown => {},
        }
        let chmod = match &self.mode {
            Some(mode) => {
                let args = vec!["chmod", mode.as_str(), self.path.as_str()];
                assert(words_of(args@) =~= seq!["chmod"@, mode@, self.path@]);
                Some(CommandSpec::new("sudo", &args))
            },
            None => None,
        };
        let size = self.data.len() as u64;
        (RpcResponse::success(self.id, FsWriteReply { ok: true, size }), chmod)
    }

    /// Whether this is what [`Self::on_written`] gives.
    pub open spec fn on_written_gives(
        self,
        written: Result<(), String>,
        r: (RpcResponse<FsWriteReply>, Option<u32>),
    ) -> bool {
        &&& r.0.responds_to(self.id@)
        &&& match written {
            Ok(()) => self.done(r.0) && r.1 == octal_mode(self.mode),
            Err(e) => {
                &&& r.0.fails(
                    self.id@,
                    error_codes::COMMAND_FAILED,
                    cannot("write"@, self.path@, e@),
                )
                &&& r.1 is None
            },
        }
    }

    /// The response when the file was written or not, and before it is sent the
    /// mode to set, where one is given.
    pub fn on_written(self, written: Result<(), String>) -> (r: (
        RpcResponse<FsWriteReply>,
        Option<u32>,
    ))
        ensures
            self.on_written_gives(written, r),
            r.0.responds_to(self.id@),
            match written {
                Ok(()) => self.done(r.0) && r.1 == octal_mode(self.mode),
                Err(e) => {
                    &&& r.0.fails(
                        self.id@,
                        error_codes::COMMAND_FAILED,
                        cannot("write"@, self.path@, e@),
                    )
                    &&& r.1 is None
                },
            },
    {
        match written {
            Ok(()) => {
                let mode = match &self.mode {
                    Some(text) => match parse_number(text.as_str(), 8, u32::MAX as u64) {
                        Some(n) => Some(n as u32),
                        None => None,
                    },
                    None => None,
                };
                let size = self.data.len() as u64;
                (RpcResponse::success(self.id, FsWriteReply { ok: true, size }), mode)
            },
            Err(e) => (
                cannot_response(self.id, "write", self.path.as_str(), e.as_str()),
                None,
            ),
        }
    }
}

// ---------------------------------------------------------------------------
// fs.stat
// ---------------------------------------------------------------------------

/// How a file's metadata is had.
pub enum FsStatPlan {
    /// Ask for it.
    Direct(FsStatDirect),
    /// Run a command.
    Sudo(FsStatSudo),
}

/// A file whose metadata is to be asked for, of the link itself if it is one.
pub struct FsStatDirect {
    pub id: String,
    pub path: String,
}

/// A command that prints a file's metadata.
pub struct FsStatSudo {
    pub id: String,
    pub path: String,
    pub command: CommandSpec,
}

/// Why metadata could not be had.
pub enum StatFailure {
    /// There is no such file.
    NotFound,
    Other(String),
}

/// The name of the file at a path; nothing where the path ends in none.
pub open spec fn name_at(path: Seq<char>) -> Seq<char> {
    match file_name_of(path) {
        Some(name) => name,
        None => Seq::empty(),
    }
}

fn name_of(path: &str) -> (name: String)
    ensures
        name@ == name_at(path@),
{
    match file_name(path) {
        Some(name) => name,
        None => String::new(),
    }
}

/// Whether the response tells that there is this entry.
pub open spec fn tells_entry(
    response: RpcResponse<FsStatResponse>,
    id: Seq<char>,
    entry: EntryView,
) -> bool {
    &&& response.answers(id)
    &&& response.payload().exists
    &&& response.payload().entry@ == entry
}

/// Whether the response tells that there is no such file.
pub open spec fn tells_missing(response: RpcResponse<FsStatResponse>, id: Seq<char>) -> bool {
    &&& response.answers(id)
    &&& !response.payload().exists
    &&& response.payload().entry@ == no_entry()
}

/// Whether this is what [`handle_fs_stat`] gives.
pub open spec fn fs_stat_begins(
    id: String,
    params: Result<FsStatRequest, String>,
    security: &SecurityConfig,
    r: Result<FsStatPlan, RpcResponse<FsStatResponse>>,
) -> bool {
    &&& r matches Err(response) ==> response.responds_to(id@)
    &&& match params {
        Ok(request) if !security.permits_path(request.path@) => r matches Err(response)
            && response.fails(
            id@,
            error_codes::COMMAND_FAILED,
            refused_path(request.path@),
        ),
        Ok(request) => if flag(request.sudo) {
            &&& r matches Ok(FsStatPlan::Sudo(plan))
            &&& plan.id@ == id@
            &&& plan.path@ == request.path@
            &&& plan.command.calls(
                "sudo"@,
                seq!["stat"@, "--format=%F|%s|%a|%U|%G|%Y"@, request.path@],
            )
            &&& plan.command.env is None
        } else {
            &&& r matches Ok(FsStatPlan::Direct(plan))
            &&& plan.id@ == id@
            &&& plan.path@ == request.path@
        },
        Err(e) => r matches Err(response) && response.rejects_params(id@, e@),
    }
}

/// Handle `fs.stat`: get file or directory stats.
pub fn handle_fs_stat(
    id: String,
    params: Result<FsStatRequest, String>,
    security: &SecurityConfig,
) -> (r: Result<FsStatPlan, RpcResponse<FsStatResponse>>)
    ensures
        fs_stat_begins(id, params, security, r),
        r matches Err(response) ==> response.responds_to(id@),
        match params {
            Ok(request) if !security.permits_path(request.path@) => r matches Err(response)
                && response.fails(
                id@,
                error_codes::COMMAND_FAILED,
                refused_path(request.path@),
            ),
            Ok(request) => if flag(request.sudo) {
                &&& r matches Ok(FsStatPlan::Sudo(plan))
                &&& plan.id@ == id@
                &&& plan.path@ == request.path@
                &&& plan.command.calls(
                    "sudo"@,
                    seq!["stat"@, "--format=%F|%s|%a|%U|%G|%Y"@, request.path@],
                )
                &&& plan.command.env is None
            } else {
                &&& r matches Ok(FsStatPlan::Direct(plan))
                &&& plan.id@ == id@
                &&& plan.path@ == request.path@
            },
            Err(e) => r matches Err(response) && response.rejects_params(id@, e@),
        },
{
    match params {
        Ok(request) => if !security.allows_path(request.path.as_str()) {
            Err(refuse_path(id, request.path.as_str()))
        } else if is_set(request.sudo) {
            let args = vec!["stat", "--format=%F|%s|%a|%U|%G|%Y", request.path.as_str()];
            assert(words_of(args@) =~= seq![
                "stat"@,
                "--format=%F|%s|%a|%U|%G|%Y"@,
                request.path@,
            ]);
            let command = CommandSpec::new("sudo", &args);
            Ok(FsStatPlan::Sudo(FsStatSudo { id, path: request.path, command }))
        } else {
            Ok(FsStatPlan::Direct(FsStatDirect { id, path: request.path }))
        },
        Err(e) => Err(RpcResponse::invalid_params(id, e.as_str())),
    }
}

impl FsStatSudo {
    /// Whether this is what [`Self::on_output`] gives.
    pub open spec fn on_output_gives(
        self,
        output: Result<CommandOutput, String>,
        response: RpcResponse<FsStatResponse>,
    ) -> bool {
        &&& response.responds_to(self.id@)
        &&& match output {
            Ok(out) => if out.success {
                match stat_entry(name_at(self.path@), text_in_bytes(out.stdout@)) {
                    Some(entry) => tells_entry(response, self.id@, entry),
                    None => response.fails(
                        self.id@,
                        error_codes::COMMAND_FAILED,
                        "Failed to parse stat output"@,
                    ),
                }
            } else {
                tells_missing(response, self.id@)
            },
            Err(e) => response.fails(
                self.id@,
                error_codes::COMMAND_FAILED,
                "exec failed: "@ + e@,
            ),
        }
    }

    /// The response when the command reported this, or could not be run.
    pub fn on_output(self, output: Result<CommandOutput, String>) -> (response: RpcResponse<
        FsStatResponse,
    >)
        ensures
            self.on_output_gives(output, response),
            response.responds_to(self.id@),
            match output {
                Ok(out) => if out.success {
                    match stat_entry(name_at(self.path@), text_in_bytes(out.stdout@)) {
                        Some(entry) => tells_entry(response, self.id@, entry),
                        None => response.fails(
                            self.id@,
                            error_codes::COMMAND_FAILED,
                            "Failed to parse stat output"@,
                        ),
                    }
                } else {
                    tells_missing(response, self.id@)
                },
                Err(e) => response.fails(
                    self.id@,
                    error_codes::COMMAND_FAILED,
                    "exec failed: "@ + e@,
                ),
            },
    {
        match output {
            Ok(out) => if out.success {
                let stdout = bytes_to_text(&out.stdout);
                match parse_stat(name_of(self.path.as_str()), stdout.as_str()) {
                    Some(entry) => RpcResponse::success(
                        self.id,
                        FsStatResponse { exists: true, entry },
                    ),
                    None => RpcResponse::error(
                        self.id,
                        error_codes::COMMAND_FAILED,
                        String::from_str("Failed to parse stat output"),
                    ),
                }
            } else {
                RpcResponse::success(
                    self.id,
                    FsStatResponse { exists: false, entry: missing_entry() },
                )
            },
            Err(e) => failed_response(self.id, "exec failed: ", e.as_str()),
        }
    }
}

impl FsStatDirect {
    /// Whether this is what [`Self::on_metadata`] gives.
    pub open spec fn on_metadata_gives(
        self,
        meta: Result<FileMeta, StatFailure>,
        response: RpcResponse<FsStatResponse>,
    ) -> bool {
        &&& response.responds_to(self.id@)
        &&& match meta {
            Ok(meta) => tells_entry(response, self.id@, meta_entry(name_at(self.path@), meta)),
            Err(StatFailure::NotFound) => tells_missing(response, self.id@),
            Err(StatFailure::Other(e)) => response.fails(
                self.id@,
                error_codes::COMMAND_FAILED,
                cannot("stat"@, self.path@, e@),
            ),
        }
    }

    /// The response when the file has this metadata, or it could not be had.
    pub fn on_metadata(self, meta: Result<FileMeta, StatFailure>) -> (response: RpcResponse<
        FsStatResponse,
    >)
        ensures
            self.on_metadata_gives(meta, response),
            response.responds_to(self.id@),
            match meta {
                Ok(meta) => tells_entry(response, self.id@, meta_entry(name_at(self.path@), meta)),
                Err(StatFailure::NotFound) => tells_missing(response, self.id@),
                Err(StatFailure::Other(e)) => response.fails(
                    self.id@,
                    error_codes::COMMAND_FAILED,
                    cannot("stat"@, self.path@, e@),
                ),
            },
    {
        match meta {
            Ok(meta) => {
                let name = name_of(self.path.as_str());
                let entry = metadata_to_entry(name.as_str(), meta);
                RpcResponse::success(self.id, FsStatResponse { exists: true, entry })
            },
            Err(StatFailure::NotFound) => RpcResponse::success(
                self.id,
                FsStatResponse { exists: false, entry: missing_entry() },
            ),
            Err(StatFailure::Other(e)) => cannot_response(
                self.id,
                "stat",
                self.path.as_str(),
                e.as_str(),
            ),
        }
    }
}

// ---------------------------------------------------------------------------
// fs.mkdir, fs.delete, fs.rename
// ---------------------------------------------------------------------------

/// How a directory is created.
pub enum FsMkdirPlan {
    Direct(FsMkdirDirect),
    Sudo(StatusPlan),
}

/// A directory to be created, with the directories above it if `recursive`.
pub struct FsMkdirDirect {
    pub id: String,
    pub path: String,
    pub recursive: bool,
}

/// The arguments of `sudo` that create a directory.
pub open spec fn mkdir_args(path: Seq<char>, recursive: bool) -> Seq<Seq<char>> {
    if recursive {
        seq!["mkdir"@, "-p"@, path]
    } else {
        seq!["mkdir"@, path]
    }
}

/// Whether this is what [`handle_fs_mkdir`] gives.
pub open spec fn fs_mkdir_begins(
    id: String,
    params: Result<FsMkdirRequest, String>,
    security: &SecurityConfig,
    r: Result<FsMkdirPlan, RpcResponse<OkReply>>,
) -> bool {
    &&& r matches Err(response) ==> response.responds_to(id@)
    &&& match params {
        Ok(request) if !security.permits_path(request.path@) => r matches Err(response)
            && response.fails(
            id@,
            error_codes::COMMAND_FAILED,
            refused_path(request.path@),
        ),
        Ok(request) => if flag(request.sudo) {
            &&& r matches Ok(FsMkdirPlan::Sudo(plan))
            &&& plan.runs(
                id@,
                mkdir_args(request.path@, flag(request.recursive)),
                "mkdir"@,
            )
        } else {
            &&& r matches Ok(FsMkdirPlan::Direct(plan))
            &&& plan.id@ == id@
            &&& plan.path@ == request.path@
            &&& plan.recursive == flag(request.recursive)
        },
        Err(e) => r matches Err(response) && response.rejects_params(id@, e@),
    }
}

/// Handle `fs.mkdir`: create a directory.
pub fn handle_fs_mkdir(
    id: String,
    params: Result<FsMkdirRequest, String>,
    security: &SecurityConfig,
) -> (r: Result<FsMkdirPlan, RpcResponse<OkReply>>)
    ensures
        fs_mkdir_begins(id, params, security, r),
        r matches Err(response) ==> response.responds_to(id@),
        match params {
            Ok(request) if !security.permits_path(request.path@) => r matches Err(response)
                && response.fails(
                id@,
                error_codes::COMMAND_FAILED,
                refused_path(request.path@),
            ),
            Ok(request) => if flag(request.sudo) {
                &&& r matches Ok(FsMkdirPlan::Sudo(plan))
                &&& plan.runs(
                    id@,
                    mkdir_args(request.path@, flag(request.recursive)),
                    "mkdir"@,
                )
            } else {
                &&& r matches Ok(FsMkdirPlan::Direct(plan))
                &&& plan.id@ == id@
                &&& plan.path@ == request.path@
                &&& plan.recursive == flag(request.recursive)
            },
            Err(e) => r matches Err(response) && response.rejects_params(id@, e@),
        },
{
    match params {
        Ok(request) => {
            if !security.allows_path(request.path.as_str()) {
                return Err(refuse_path(id, request.path.as_str()));
            }
            let recursive = is_set(request.recursive);
            if is_set(request.sudo) {
                let args = if recursive {
                    vec!["mkdir", "-p", request.path.as_str()]
                } else {
                    vec!["mkdir", request.path.as_str()]
                };
                assert(words_of(args@) =~= mkdir_args(request.path@, recursive));
                let command = CommandSpec::new("sudo", &args);
                Ok(FsMkdirPlan::Sudo(StatusPlan { id, command, name: String::from_str("mkdir") }))
            } else {
                Ok(FsMkdirPlan::Direct(FsMkdirDirect { id, path: request.path, recursive }))
            }
        },
        Err(e) => Err(RpcResponse::invalid_params(id, e.as_str())),
    }
}

impl FsMkdirDirect {
    /// Whether this is what [`Self::finish`] gives.
    pub open spec fn finish_gives(
        self,
        created: Result<(), String>,
        response: RpcResponse<OkReply>,
    ) -> bool {
        &&& response.responds_to(self.id@)
        &&& match created {
            Ok(()) => response.succeeds(self.id@, OkReply { ok: true }),
            Err(e) => response.fails(
                self.id@,
                error_codes::COMMAND_FAILED,
                cannot("create"@, self.path@, e@),
            ),
        }
    }

    /// The response when the directory was created or not.
    pub fn finish(self, created: Result<(), String>) -> (response: RpcResponse<OkReply>)
        ensures
            self.finish_gives(created, response),
            response.responds_to(self.id@),
            match created {
                Ok(()) => response.succeeds(self.id@, OkReply { ok: true }),
                Err(e) => response.fails(
                    self.id@,
                    error_codes::COMMAND_FAILED,
                    cannot("create"@, self.path@, e@),
                ),
            },
    {
        match created {
            Ok(()) => RpcResponse::success(self.id, OkReply { ok: true }),
            Err(e) => cannot_response(self.id, "create", self.path.as_str(), e.as_str()),
        }
    }
}

/// How a file or directory is deleted.
pub enum FsDeletePlan {
    Direct(FsDeleteDirect),
    Sudo(StatusPlan),
}

/// A file or directory to be deleted, a directory with all in it if `recursive`.
pub struct FsDeleteDirect {
    pub id: String,
    pub path: String,
    pub recursive: bool,
}

/// How something is removed.
#[derive(Debug, Clone, Copy)]
pub enum Removal {
    /// A directory with all in it.
    Tree,
    /// A directory that has to be empty.
    EmptyDirectory,
    /// Anything else.
    File,
}

/// Whether this is what [`handle_fs_delete`] gives.
pub open spec fn fs_delete_begins(
    id: String,
    params: Result<FsDeleteRequest, String>,
    security: &SecurityConfig,
    r: Result<FsDeletePlan, RpcResponse<OkReply>>,
) -> bool {
    &&& r matches Err(response) ==> response.responds_to(id@)
    &&& match params {
        Ok(request) if !security.permits_path(request.path@) => r matches Err(response)
            && response.fails(
            id@,
            error_codes::COMMAND_FAILED,
            refused_path(request.path@),
        ),
        Ok(request) => if flag(request.sudo) {
            &&& r matches Ok(FsDeletePlan::Sudo(plan))
            &&& plan.runs(
                id@,
                seq![
                    "rm"@,
                    if flag(request.recursive) {
                        "-rf"@
                    } else {
                        "-f"@
                    },
                    request.path@,
                ],
                "rm"@,
            )
        } else {
            &&& r matches Ok(FsDeletePlan::Direct(plan))
            &&& plan.id@ == id@
            &&& plan.path@ == request.path@
            &&& plan.recursive == flag(request.recursive)
        },
        Err(e) => r matches Err(response) && response.rejects_params(id@, e@),
    }
}

/// Handle `fs.delete`: delete a file or directory.
pub fn handle_fs_delete(
    id: String,
    params: Result<FsDeleteRequest, String>,
    security: &SecurityConfig,
) -> (r: Result<FsDeletePlan, RpcResponse<OkReply>>)
    ensures
        fs_delete_begins(id, params, security, r),
        r matches Err(response) ==> response.responds_to(id@),
        match params {
            Ok(request) if !security.permits_path(request.path@) => r matches Err(response)
                && response.fails(
                id@,
                error_codes::COMMAND_FAILED,
                refused_path(request.path@),
            ),
            Ok(request) => if flag(request.sudo) {
                &&& r matches Ok(FsDeletePlan::Sudo(plan))
                &&& plan.runs(
                    id@,
                    seq![
                        "rm"@,
                        if flag(request.recursive) {
                            "-rf"@
                        } else {
                            "-f"@
                        },
                        request.path@,
                    ],
                    "rm"@,
                )
            } else {
                &&& r matches Ok(FsDeletePlan::Direct(plan))
                &&& plan.id@ == id@
                &&& plan.path@ == request.path@
                &&& plan.recursive == flag(request.recursive)
            },
            Err(e) => r matches Err(response) && response.rejects_params(id@, e@),
        },
{
    match params {
        Ok(request) => {
            if !security.allows_path(request.path.as_str()) {
                return Err(refuse_path(id, request.path.as_str()));
            }
            let recursive = is_set(request.recursive);
            if is_set(request.sudo) {
                let option = if recursive {
                    "-rf"
                } else {
                    "-f"
                };
                let args = vec!["rm", option, request.path.as_str()];
                assert(words_of(args@) =~= seq!["rm"@, option@, request.path@]);
                let command = CommandSpec::new("sudo", &args);
                Ok(FsDeletePlan::Sudo(StatusPlan { id, command, name: String::from_str("rm") }))
            } else {
                Ok(FsDeletePlan::Direct(FsDeleteDirect { id, path: request.path, recursive }))
            }
        },
        Err(e) => Err(RpcResponse::invalid_params(id, e.as_str())),
    }
}

impl FsDeleteDirect {
    /// Whether this is what [`Self::removal`] gives.
    pub open spec fn removal_gives(self, is_dir: bool, r: Removal) -> bool {
        &&& r == if !is_dir {
            Removal::File
        } else if self.recursive {
            Removal::Tree
        } else {
            Removal::EmptyDirectory
        }
    }

    /// How to remove what stands at the path, which is a directory or not.
    pub fn removal(&self, is_dir: bool) -> (r: Removal)
        ensures
            self.removal_gives(is_dir, r),
            r == if !is_dir {
                Removal::File
            } else if self.recursive {
                Removal::Tree
            } else {
                Removal::EmptyDirectory
            },
    {
        if is_dir && self.recursive {
            Removal::Tree
        } else if is_dir {
            Removal::EmptyDirectory
        } else {
            Removal::File
        }
    }

    /// Whether this is what [`Self::finish`] gives.
    pub open spec fn finish_gives(
        self,
        removed: Result<(), String>,
        response: RpcResponse<OkReply>,
    ) -> bool {
        &&& response.responds_to(self.id@)
        &&& match removed {
            Ok(()) => response.succeeds(self.id@, OkReply { ok: true }),
            Err(e) => response.fails(
                self.id@,
                error_codes::COMMAND_FAILED,
                cannot("delete"@, self.path@, e@),
            ),
        }
    }

    /// The response when it was removed or not.
    pub fn finish(self, removed: Result<(), String>) -> (response: RpcResponse<OkReply>)
        ensures
            self.finish_gives(removed, response),
            response.responds_to(self.id@),
            match removed {
                Ok(()) => response.succeeds(self.id@, OkReply { ok: true }),
                Err(e) => response.fails(
                    self.id@,
                    error_codes::COMMAND_FAILED,
                    cannot("delete"@, self.path@, e@),
                ),
            },
    {
        match removed {
            Ok(()) => RpcResponse::success(self.id, OkReply { ok: true }),
            Err(e) => cannot_response(self.id, "delete", self.path.as_str(), e.as_str()),
        }
    }
}

/// How a file or directory is renamed.
pub enum FsRenamePlan {
    Direct(FsRenameDirect),
    Sudo(StatusPlan),
}

/// A file or directory to be renamed.
pub struct FsRenameDirect {
    pub id: String,
    pub old_path: String,
    pub new_path: String,
}

/// Whether this is what [`handle_fs_rename`] gives.
pub open spec fn fs_rename_begins(
    id: String,
    params: Result<FsRenameRequest, String>,
    security: &SecurityConfig,
    r: Result<FsRenamePlan, RpcResponse<OkReply>>,
) -> bool {
    &&& r matches Err(response) ==> response.responds_to(id@)
    &&& match params {
        Ok(request) if !security.permits_path(request.old_path@) => r matches Err(response)
            && response.fails(
            id@,
            error_codes::COMMAND_FAILED,
            refused_path(request.old_path@),
        ),
        Ok(request) if !security.permits_path(request.new_path@) => r matches Err(response)
            && response.fails(
            id@,
            error_codes::COMMAND_FAILED,
            refused_path(request.new_path@),
        ),
        Ok(request) => if flag(request.sudo) {
            &&& r matches Ok(FsRenamePlan::Sudo(plan))
            &&& plan.runs(
                id@,
                seq!["mv"@, request.old_path@, request.new_path@],
                "mv"@,
            )
        } else {
            &&& r matches Ok(FsRenamePlan::Direct(plan))
            &&& plan.id@ == id@
            &&& plan.old_path@ == request.old_path@
            &&& plan.new_path@ == request.new_path@
        },
        Err(e) => r matches Err(response) && response.rejects_params(id@, e@),
    }
}

/// Handle `fs.rename`: rename or move a file or directory.
pub fn handle_fs_rename(
    id: String,
    params: Result<FsRenameRequest, String>,
    security: &SecurityConfig,
) -> (r: Result<FsRenamePlan, RpcResponse<OkReply>>)
    ensures
        fs_rename_begins(id, params, security, r),
        r matches Err(response) ==> response.responds_to(id@),
        match params {
            Ok(request) if !security.permits_path(request.old_path@) => r matches Err(response)
                && response.fails(
                id@,
                error_codes::COMMAND_FAILED,
                refused_path(request.old_path@),
            ),
            Ok(request) if !security.permits_path(request.new_path@) => r matches Err(response)
                && response.fails(
                id@,
                error_codes::COMMAND_FAILED,
                refused_path(request.new_path@),
            ),
            Ok(request) => if flag(request.sudo) {
                &&& r matches Ok(FsRenamePlan::Sudo(plan))
                &&& plan.runs(
                    id@,
                    seq!["mv"@, request.old_path@, request.new_path@],
                    "mv"@,
                )
            } else {
                &&& r matches Ok(FsRenamePlan::Direct(plan))
                &&& plan.id@ == id@
                &&& plan.old_path@ == request.old_path@
                &&& plan.new_path@ == request.new_path@
            },
            Err(e) => r matches Err(response) && response.rejects_params(id@, e@),
        },
{
    match params {
        Ok(request) => if !security.allows_path(request.old_path.as_str()) {
            Err(refuse_path(id, request.old_path.as_str()))
        } else if !security.allows_path(request.new_path.as_str()) {
            Err(refuse_path(id, request.new_path.as_str()))
        } else if is_set(request.sudo) {
            let args = vec!["mv", request.old_path.as_str(), request.new_path.as_str()];
            assert(words_of(args@) =~= seq!["mv"@, request.old_path@, request.new_path@]);
            let command = CommandSpec::new("sudo", &args);
            Ok(FsRenamePlan::Sudo(StatusPlan { id, command, name: String::from_str("mv") }))
        } else {
            Ok(
                FsRenamePlan::Direct(
                    FsRenameDirect { id, old_path: request.old_path, new_path: request.new_path },
                ),
            )
        },
        Err(e) => Err(RpcResponse::invalid_params(id, e.as_str())),
    }
}

impl FsRenameDirect {
    /// Whether this is what [`Self::finish`] gives.
    pub open spec fn finish_gives(
        self,
        renamed: Result<(), String>,
        response: RpcResponse<OkReply>,
    ) -> bool {
        &&& response.responds_to(self.id@)
        &&& match renamed {
            Ok(()) => response.succeeds(self.id@, OkReply { ok: true }),
            Err(e) => response.fails(
                self.id@,
                error_codes::COMMAND_FAILED,
                "Cannot rename '"@ + self.old_path@ + "' → '"@ + self.new_path@ + "': "@ + e@,
            ),
        }
    }

    /// The response when it was renamed or not.
    pub fn finish(self, renamed: Result<(), String>) -> (response: RpcResponse<OkReply>)
        ensures
            self.finish_gives(renamed, response),
            response.responds_to(self.id@),
            match renamed {
                Ok(()) => response.succeeds(self.id@, OkReply { ok: true }),
                Err(e) => response.fails(
                    self.id@,
                    error_codes::COMMAND_FAILED,
                    "Cannot rename '"@ + self.old_path@ + "' → '"@ + self.new_path@ + "': "@ + e@,
                ),
            },
    {
        match renamed {
            Ok(()) => RpcResponse::success(self.id, OkReply { ok: true }),
            Err(e) => RpcResponse::error(
                self.id,
                error_codes::COMMAND_FAILED,
                cat6(
                    "Cannot rename '",
                    self.old_path.as_str(),
                    "' → '",
                    self.new_path.as_str(),
                    "': ",
                    e.as_str(),
                ),
            ),
        }
    }
}

// ---------------------------------------------------------------------------
// fs.search
// ---------------------------------------------------------------------------

/// A command that searches for files.
pub struct FsSearchPlan {
    pub id: String,
    pub command: CommandSpec,
}

/// The arguments of `find` for a search.
pub open spec fn find_args(request: FsSearchRequest) -> Seq<Seq<char>> {
    match request.max_depth {
        Some(depth) => seq![
            request.path@,
            "-maxdepth"@,
            decimal(depth as nat),
            "-name"@,
            request.pattern@,
        ],
        None => seq![request.path@, "-name"@, request.pattern@],
    }
}

/// The paths that `find` printed.
pub open spec fn found_paths(stdout: Seq<u8>) -> Seq<Seq<char>> {
    lines_of(text_in_bytes(stdout)).filter(not_empty())
}

/// Whether this is what [`handle_fs_search`] gives.
pub open spec fn fs_search_begins(
    id: String,
    params: Result<FsSearchRequest, String>,
    security: &SecurityConfig,
    r: Result<FsSearchPlan, RpcResponse<FsSearchResponse>>,
) -> bool {
    &&& r matches Err(response) ==> response.responds_to(id@)
    &&& match params {
        Ok(request) if !security.permits_path(request.path@) => r matches Err(response)
            && response.fails(
            id@,
            error_codes::COMMAND_FAILED,
            refused_path(request.path@),
        ),
        Ok(request) => {
            &&& r matches Ok(plan)
            &&& plan.id@ == id@
            &&& plan.command.calls("find"@, find_args(request))
            &&& plan.command.env is None
        },
        Err(e) => r matches Err(response) && response.rejects_params(id@, e@),
    }
}

/// Handle `fs.search`: search for files matching a pattern using `find`.
pub fn handle_fs_search(
    id: String,
    params: Result<FsSearchRequest, String>,
    security: &SecurityConfig,
) -> (r: Result<FsSearchPlan, RpcResponse<FsSearchResponse>>)
    ensures
        fs_search_begins(id, params, security, r),
        r matches Err(response) ==> response.responds_to(id@),
        match params {
            Ok(request) if !security.permits_path(request.path@) => r matches Err(response)
                && response.fails(
                id@,
                error_codes::COMMAND_FAILED,
                refused_path(request.path@),
            ),
            Ok(request) => {
                &&& r matches Ok(plan)
                &&& plan.id@ == id@
                &&& plan.command.calls("find"@, find_args(request))
                &&& plan.command.env is None
            },
            Err(e) => r matches Err(response) && response.rejects_params(id@, e@),
        },
{
    match params {
        Ok(request) => {
            if !security.allows_path(request.path.as_str()) {
                return Err(refuse_path(id, request.path.as_str()));
            }
            let command = match request.max_depth {
                Some(depth) => {
                    let depth = to_decimal(depth as u64);
                    let args = vec![
                        request.path.as_str(),
                        "-maxdepth",
                        depth.as_str(),
                        "-name",
                        request.pattern.as_str(),
                    ];
                    assert(words_of(args@) =~= find_args(request));
                    CommandSpec::new("find", &args)
                },
                None => {
                    let args = vec![request.path.as_str(), "-name", request.pattern.as_str()];
                    assert(words_of(args@) =~= find_args(request));
                    CommandSpec::new("find", &args)
                },
            };
            Ok(FsSearchPlan { id, command })
        },
        Err(e) => Err(RpcResponse::invalid_params(id, e.as_str())),
    }
}

impl FsSearchPlan {
    /// Whether this is what [`Self::on_output`] gives.
    pub open spec fn on_output_gives(
        self,
        output: Result<CommandOutput, String>,
        response: RpcResponse<FsSearchResponse>,
    ) -> bool {
        &&& response.responds_to(self.id@)
        &&& match output {
            Ok(out) => if out.success || found_paths(out.stdout@).len() > 0 {
                &&& response.answers(self.id@)
                &&& texts(response.payload().matches@) == found_paths(out.stdout@)
            } else {
                response.fails(
                    self.id@,
                    error_codes::COMMAND_FAILED,
                    "find failed: "@ + text_in_bytes(out.stderr@),
                )
            },
            Err(e) => response.fails(
                self.id@,
                error_codes::COMMAND_FAILED,
                "exec failed: "@ + e@,
            ),
        }
    }

    /// The response when the command reported this, or could not be run. `find`
    /// reports a failure where it may not look everywhere: what it found is a
    /// result all the same.
    pub fn on_output(self, output: Result<CommandOutput, String>) -> (response: RpcResponse<
        FsSearchResponse,
    >)
        ensures
            self.on_output_gives(output, response),
            response.responds_to(self.id@),
            match output {
                Ok(out) => if out.success || found_paths(out.stdout@).len() > 0 {
                    &&& response.answers(self.id@)
                    &&& texts(response.payload().matches@) == found_paths(out.stdout@)
                } else {
                    response.fails(
                        self.id@,
                        error_codes::COMMAND_FAILED,
                        "find failed: "@ + text_in_bytes(out.stderr@),
                    )
                },
                Err(e) => response.fails(
                    self.id@,
                    error_codes::COMMAND_FAILED,
                    "exec failed: "@ + e@,
                ),
            },
    {
        match output {
            Ok(out) => {
                let stdout = bytes_to_text(&out.stdout);
                let matches = keep_nonempty(lines(stdout.as_str()));
                assert(texts(matches@).len() == matches@.len());
                if out.success || matches.len() > 0 {
                    RpcResponse::success(self.id, FsSearchResponse { matches })
                } else {
                    let stderr = bytes_to_text(&out.stderr);
                    failed_response(self.id, "find failed: ", stderr.as_str())
                }
            },
            Err(e) => failed_response(self.id, "exec failed: ", e.as_str()),
        }
    }
}

} // verus!
