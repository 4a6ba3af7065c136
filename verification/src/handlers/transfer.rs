//! Chunked transfers: uploads whose checksum is verified, and downloads that are
//! streamed back.

use crate::command::{exit_code, flag, is_set, reported_code, words_of, CommandOutput};
use crate::command::{CommandSpec, NO_EXIT_CODE};
use crate::config::SecurityConfig;
use crate::encoding::{base64_bytes, base64_decode, bytes_to_text, sha256_hex, taken_in};
use crate::encoding::{text_in_bytes, ContentHasher};
use crate::error_codes;
use crate::handlers::fs::{refuse_path, refused_path, ExitReport};
use crate::methods::{FsDownloadRequest, FsUploadChunkRequest, FsUploadEndRequest};
use crate::methods::FsUploadStartRequest;
use crate::number::{parse_or_zero, read_or_zero, signed_decimal, to_hex, to_signed_decimal};
use crate::paths::{parent, parent_of, text_in};
use crate::registry::Registry;
use crate::rpc::{RpcRequest, RpcResponse};
use crate::stream::{carries, data_notification, end_notification, ends, joined, StreamChannel};
use crate::stream::{StreamData, StreamEnd};
use crate::text::{cat2, cat4, same_text, trim, trimmed};
use vstd::prelude::*;
use vstd::string::StringExecFns;

verus! {

/// How many bytes of a file one notification carries at most.
pub const DOWNLOAD_CHUNK_SIZE: usize = 65_536;

/// An upload that is under way. `F` is the open file.
pub struct UploadTransfer<F> {
    pub path: String,
    pub file: F,
    pub total_size: u64,
    pub received: u64,
    pub hasher: ContentHasher,
    pub sudo: bool,
}

/// The result of the start of an upload.
#[derive(Debug, Clone)]
pub struct UploadStartReply {
    pub ok: bool,
    pub transfer_id: String,
}

/// The result of a chunk.
#[derive(Debug, Clone)]
pub struct UploadProgressReply {
    pub ok: bool,
    pub received: u64,
    pub total: u64,
}

/// The result of a whole upload.
#[derive(Debug, Clone)]
pub struct UploadEndReply {
    pub ok: bool,
    pub path: String,
    pub size: u64,
    pub checksum: String,
}

/// Where an upload is written: an upload as root goes to a temporary file, which
/// is moved when all is there.
pub open spec fn written_at(transfer_id: Seq<char>, path: Seq<char>, sudo: bool) -> Seq<char> {
    if sudo {
        "/tmp/.qd-upload-"@ + transfer_id
    } else {
        path
    }
}

/// Where an upload is written.
pub fn write_path(transfer_id: &str, path: &str, sudo: bool) -> (r: String)
    ensures
        r@ == written_at(transfer_id@, path@, sudo),
{
    if sudo {
        cat2("/tmp/.qd-upload-", transfer_id)
    } else {
        String::from_str(path)
    }
}

fn failure<V>(id: String, what: &str, why: &str) -> (response: RpcResponse<V>)
    ensures
        response.fails(id@, error_codes::COMMAND_FAILED, what@ + why@),
{
    RpcResponse::error(id, error_codes::COMMAND_FAILED, cat2(what, why))
}

// ---------------------------------------------------------------------------
// fs.upload.start
// ---------------------------------------------------------------------------

/// An upload that is to start: the parent directory is created where it is
/// missing, then the file.
pub struct UploadStartPlan {
    pub id: String,
    pub transfer_id: String,
    pub path: String,
    pub total_size: u64,
    pub sudo: bool,
    /// The file to create.
    pub write_path: String,
    /// The directory that has to be there.
    pub parent: Option<String>,
}

impl UploadStartPlan {
    /// Whether this is the plan for the request.
    pub open spec fn starts(self, id: Seq<char>, request: FsUploadStartRequest) -> bool {
        &&& self.id@ == id
        &&& self.transfer_id@ == request.transfer_id@
        &&& self.path@ == request.path@
        &&& self.total_size == request.total_size
        &&& self.sudo == flag(request.sudo)
        &&& self.write_path@ == written_at(
            request.transfer_id@,
            request.path@,
            flag(request.sudo),
        )
        &&& text_in(self.parent) == parent_of(self.write_path@)
    }
}

/// Whether this is what [`handle_fs_upload_start`] gives.
pub open spec fn fs_upload_start_begins(
    id: String,
    params: Result<FsUploadStartRequest, String>,
    security: &SecurityConfig,
    r: Result<UploadStartPlan, RpcResponse<UploadStartReply>>,
) -> bool {
    &&& r matches Err(response) ==> response.responds_to(id@)
    &&& match params {
        Ok(request) if !security.permits_path(request.path@) => r matches Err(response)
            && response.fails(
            id@,
            error_codes::COMMAND_FAILED,
            refused_path(request.path@),
        ),
        Ok(request) => r matches Ok(plan) && plan.starts(id@, request),
        Err(e) => r matches Err(response) && response.rejects_params(id@, e@),
    }
}

/// Handle `fs.upload.start`: begin a chunked file upload.
pub fn handle_fs_upload_start(
    id: String,
    params: Result<FsUploadStartRequest, String>,
    security: &SecurityConfig,
) -> (r: Result<UploadStartPlan, RpcResponse<UploadStartReply>>)
    ensures
        fs_upload_start_begins(id, params, security, r),
        r matches Err(response) ==> response.responds_to(id@),
        match params {
            Ok(request) if !security.permits_path(request.path@) => r matches Err(response)
                && response.fails(
                id@,
                error_codes::COMMAND_FAILED,
                refused_path(request.path@),
            ),
            Ok(request) => r matches Ok(plan) && plan.starts(id@, request),
            Err(e) => r matches Err(response) && response.rejects_params(id@, e@),
        },
{
    match params {
        Ok(request) => {
            if !security.allows_path(request.path.as_str()) {
                return Err(refuse_path(id, request.path.as_str()));
            }
            let sudo = is_set(request.sudo);
            let write_path = write_path(request.transfer_id.as_str(), request.path.as_str(), sudo);
            let parent = parent(write_path.as_str());
            Ok(
                UploadStartPlan {
                    id,
                    transfer_id: request.transfer_id,
                    path: request.path,
                    total_size: request.total_size,
                    sudo,
                    write_path,
                    parent,
                },
            )
        },
        Err(e) => Err(RpcResponse::invalid_params(id, e.as_str())),
    }
}

/// Whether this is an upload that has received nothing yet.
pub open spec fn fresh<F>(transfer: UploadTransfer<F>, plan: UploadStartPlan, file: F) -> bool {
    &&& transfer.path@ == plan.path@
    &&& transfer.file == file
    &&& transfer.total_size == plan.total_size
    &&& transfer.received == 0
    &&& taken_in(transfer.hasher) == Seq::<u8>::empty()
    &&& transfer.sudo == plan.sudo
}

impl UploadStartPlan {
    /// Whether this is what [`Self::on_parent`] gives.
    pub open spec fn on_parent_gives(
        self,
        created: Result<(), String>,
        r: Result<UploadStartPlan, RpcResponse<UploadStartReply>>,
    ) -> bool {
        &&& r matches Err(response) ==> response.responds_to(self.id@)
        &&& match created {
            Ok(()) => r matches Ok(plan) && plan == self,
            Err(e) => r matches Err(response) && response.fails(
                self.id@,
                error_codes::COMMAND_FAILED,
                "Cannot create parent directory: "@ + e@,
            ),
        }
    }

    /// What follows when the parent directory is there, or could not be created.
    pub fn on_parent(self, created: Result<(), String>) -> (r: Result<
        UploadStartPlan,
        RpcResponse<UploadStartReply>,
    >)
        ensures
            self.on_parent_gives(created, r),
            r matches Err(response) ==> response.responds_to(self.id@),
            match created {
                Ok(()) => r matches Ok(plan) && plan == self,
                Err(e) => r matches Err(response) && response.fails(
                    self.id@,
                    error_codes::COMMAND_FAILED,
                    "Cannot create parent directory: "@ + e@,
                ),
            },
    {
        match created {
            Ok(()) => Ok(self),
            Err(e) => Err(failure(self.id, "Cannot create parent directory: ", e.as_str())),
        }
    }

    /// Whether this is what [`Self::on_file`] gives.
    pub open spec fn on_file_gives<F>(
        self,
        file: Result<F, String>,
        before: Registry<UploadTransfer<F>>,
        after: Registry<UploadTransfer<F>>,
        response: RpcResponse<UploadStartReply>,
    ) -> bool {
        &&& response.responds_to(self.id@)
        &&& after.wf()
        &&& match file {
            Ok(file) => {
                &&& response.answers(self.id@)
                &&& response.payload().ok
                &&& response.payload().transfer_id@ == self.transfer_id@
                &&& after@.contains_key(self.transfer_id@)
                &&& fresh(after@[self.transfer_id@], self, file)
                &&& after@ == before@.insert(
                    self.transfer_id@,
                    after@[self.transfer_id@],
                )
            },
            Err(e) => {
                &&& response.fails(
                    self.id@,
                    error_codes::COMMAND_FAILED,
                    "Cannot create file "@ + self.write_path@ + ": "@ + e@,
                )
                &&& after@ == before@
            },
        }
    }

    /// The response when the file was created or not. An upload whose file is
    /// there is under way, in place of an earlier one with the same ID.
    pub fn on_file<F>(self, file: Result<F, String>, uploads: &mut Registry<UploadTransfer<F>>) -> (
    response: RpcResponse<UploadStartReply>)
        requires
            old(uploads).wf(),
        ensures
            self.on_file_gives(file, *old(uploads), *final(uploads), response),
            response.responds_to(self.id@),
            final(uploads).wf(),
            match file {
                Ok(file) => {
                    &&& response.answers(self.id@)
                    &&& response.payload().ok
                    &&& response.payload().transfer_id@ == self.transfer_id@
                    &&& final(uploads)@.contains_key(self.transfer_id@)
                    &&& fresh(final(uploads)@[self.transfer_id@], self, file)
                    &&& final(uploads)@ == old(uploads)@.insert(
                        self.transfer_id@,
                        final(uploads)@[self.transfer_id@],
                    )
                },
                Err(e) => {
                    &&& response.fails(
                        self.id@,
                        error_codes::COMMAND_FAILED,
                        "Cannot create file "@ + self.write_path@ + ": "@ + e@,
                    )
                    &&& final(uploads)@ == old(uploads)@
                },
            },
    {
        match file {
            Ok(file) => {
                let transfer = UploadTransfer {
                    path: self.path,
                    file,
                    total_size: self.total_size,
                    received: 0,
                    hasher: ContentHasher::new(),
                    sudo: self.sudo,
                };
                let _ = uploads.insert(self.transfer_id.clone(), transfer);
                RpcResponse::success(
                    self.id,
                    UploadStartReply { ok: true, transfer_id: self.transfer_id },
                )
            },
            Err(e) => RpcResponse::error(
                self.id,
                error_codes::COMMAND_FAILED,
                cat4("Cannot create file ", self.write_path.as_str(), ": ", e.as_str()),
            ),
        }
    }
}

// ---------------------------------------------------------------------------
// fs.upload.chunk
// ---------------------------------------------------------------------------

/// The message that no upload has this ID.
pub open spec fn no_upload(transfer_id: Seq<char>) -> Seq<char> {
    "No active upload for transfer_id: "@ + transfer_id
}

/// A chunk to be written at its place in the file.
pub struct ChunkPlan {
    pub id: String,
    pub transfer_id: String,
    pub offset: u64,
    pub data: Vec<u8>,
}

/// Whether this is what [`handle_fs_upload_chunk`] gives.
pub open spec fn fs_upload_chunk_begins<F>(
    id: String,
    params: Result<FsUploadChunkRequest, String>,
    uploads: &Registry<UploadTransfer<F>>,
    r: Result<ChunkPlan, RpcResponse<UploadProgressReply>>,
) -> bool {
    &&& r matches Err(response) ==> response.responds_to(id@)
    &&& match params {
        Ok(request) => match base64_bytes(request.data@) {
            Ok(bytes) => if uploads@.contains_key(request.transfer_id@) {
                &&& r matches Ok(plan)
                &&& plan.id@ == id@
                &&& plan.transfer_id@ == request.transfer_id@
                &&& plan.offset == request.offset
                &&& plan.data@ == bytes
            } else {
                r matches Err(response) && response.fails(
                    id@,
                    error_codes::COMMAND_FAILED,
                    no_upload(request.transfer_id@),
                )
            },
            Err(e) => r matches Err(response) && response.fails(
                id@,
                error_codes::INVALID_PARAMS,
                "Invalid base64 data: "@ + e,
            ),
        },
        Err(e) => r matches Err(response) && response.rejects_params(id@, e@),
    }
}

/// Handle `fs.upload.chunk`: receive a chunk of data for an upload that is under
/// way.
pub fn handle_fs_upload_chunk<F>(
    id: String,
    params: Result<FsUploadChunkRequest, String>,
    uploads: &Registry<UploadTransfer<F>>,
) -> (r: Result<ChunkPlan, RpcResponse<UploadProgressReply>>)
    requires
        uploads.wf(),
    ensures
        fs_upload_chunk_begins(id, params, uploads, r),
        r matches Err(response) ==> response.responds_to(id@),
        match params {
            Ok(request) => match base64_bytes(request.data@) {
                Ok(bytes) => if uploads@.contains_key(request.transfer_id@) {
                    &&& r matches Ok(plan)
                    &&& plan.id@ == id@
                    &&& plan.transfer_id@ == request.transfer_id@
                    &&& plan.offset == request.offset
                    &&& plan.data@ == bytes
                } else {
                    r matches Err(response) && response.fails(
                        id@,
                        error_codes::COMMAND_FAILED,
                        no_upload(request.transfer_id@),
                    )
                },
                Err(e) => r matches Err(response) && response.fails(
                    id@,
                    error_codes::INVALID_PARAMS,
                    "Invalid base64 data: "@ + e,
                ),
            },
            Err(e) => r matches Err(response) && response.rejects_params(id@, e@),
        },
{
    let request = match params {
        Ok(request) => request,
        Err(e) => return Err(RpcResponse::invalid_params(id, e.as_str())),
    };
    let data = match base64_decode(request.data.as_str()) {
        Ok(data) => data,
        Err(e) => {
            let message = cat2("Invalid base64 data: ", e.as_str());
            return Err(RpcResponse::error(id, error_codes::INVALID_PARAMS, message));
        },
    };
    if !uploads.contains(request.transfer_id.as_str()) {
        return Err(
            failure(id, "No active upload for transfer_id: ", request.transfer_id.as_str()),
        );
    }
    Ok(ChunkPlan { id, transfer_id: request.transfer_id, offset: request.offset, data })
}

/// What became of a chunk.
pub enum ChunkOutcome {
    Written,
    SeekFailed(String),
    WriteFailed(String),
}

/// Whether `after` is the upload `before` once it has received the bytes.
pub open spec fn receives<F>(
    before: UploadTransfer<F>,
    after: UploadTransfer<F>,
    bytes: Seq<u8>,
) -> bool {
    &&& after.path == before.path
    &&& after.file == before.file
    &&& after.total_size == before.total_size
    &&& after.received == before.received + bytes.len()
    &&& taken_in(after.hasher) == taken_in(before.hasher) + bytes
    &&& after.sudo == before.sudo
}

/// Whether an upload is under way that can count the chunk of the plan.
pub open spec fn can_count<F>(uploads: Map<Seq<char>, UploadTransfer<F>>, plan: ChunkPlan) -> bool {
    uploads.contains_key(plan.transfer_id@) ==> uploads[plan.transfer_id@].received
        + plan.data@.len() <= u64::MAX
}

impl ChunkPlan {
    /// Whether this is what [`Self::on_outcome`] gives.
    pub open spec fn on_outcome_gives<F>(
        self,
        outcome: ChunkOutcome,
        before: Registry<UploadTransfer<F>>,
        after: Registry<UploadTransfer<F>>,
        response: RpcResponse<UploadProgressReply>,
    ) -> bool {
        &&& response.responds_to(self.id@)
        &&& after.wf()
        &&& match outcome {
            ChunkOutcome::Written => if before@.contains_key(self.transfer_id@) {
                let transfer = after@[self.transfer_id@];
                &&& receives(before@[self.transfer_id@], transfer, self.data@)
                &&& after@ == before@.insert(self.transfer_id@, transfer)
                &&& response.succeeds(
                    self.id@,
                    UploadProgressReply {
                        ok: true,
                        received: transfer.received,
                        total: transfer.total_size,
                    },
                )
            } else {
                &&& response.fails(
                    self.id@,
                    error_codes::COMMAND_FAILED,
                    no_upload(self.transfer_id@),
                )
                &&& after@ == before@
            },
            ChunkOutcome::SeekFailed(e) => {
                &&& response.fails(
                    self.id@,
                    error_codes::COMMAND_FAILED,
                    "Seek error: "@ + e@,
                )
                &&& after@ == before@
            },
            ChunkOutcome::WriteFailed(e) => {
                &&& response.fails(
                    self.id@,
                    error_codes::COMMAND_FAILED,
                    "Write error: "@ + e@,
                )
                &&& after@ == before@
            },
        }
    }

    /// The response when the chunk was written or not. A written chunk counts
    /// toward the size and the checksum of the upload.
    pub fn on_outcome<F>(
        self,
        outcome: ChunkOutcome,
        uploads: &mut Registry<UploadTransfer<F>>,
    ) -> (response: RpcResponse<UploadProgressReply>)
        requires
            old(uploads).wf(),
            can_count(old(uploads)@, self),
        ensures
            self.on_outcome_gives(outcome, *old(uploads), *final(uploads), response),
            response.responds_to(self.id@),
            final(uploads).wf(),
            match outcome {
                ChunkOutcome::Written => if old(uploads)@.contains_key(self.transfer_id@) {
                    let before = old(uploads)@[self.transfer_id@];
                    let after = final(uploads)@[self.transfer_id@];
                    &&& receives(before, after, self.data@)
                    &&& final(uploads)@ == old(uploads)@.insert(self.transfer_id@, after)
                    &&& response.succeeds(
                        self.id@,
                        UploadProgressReply {
                            ok: true,
                            received: after.received,
                            total: after.total_size,
                        },
                    )
                } else {
                    &&& response.fails(
                        self.id@,
                        error_codes::COMMAND_FAILED,
                        no_upload(self.transfer_id@),
                    )
                    &&& final(uploads)@ == old(uploads)@
                },
                ChunkOutcome::SeekFailed(e) => {
                    &&& response.fails(
                        self.id@,
                        error_codes::COMMAND_FAILED,
                        "Seek error: "@ + e@,
                    )
                    &&& final(uploads)@ == old(uploads)@
                },
                ChunkOutcome::WriteFailed(e) => {
                    &&& response.fails(
                        self.id@,
                        error_codes::COMMAND_FAILED,
                        "Write error: "@ + e@,
                    )
                    &&& final(uploads)@ == old(uploads)@
                },
            },
    {
        match outcome {
            ChunkOutcome::Written => match uploads.remove(self.transfer_id.as_str()) {
                Some(transfer) => {
                    let mut transfer = transfer;
                    transfer.hasher.update(&self.data);
                    transfer.received = transfer.received + self.data.len() as u64;
                    let reply = UploadProgressReply {
                        ok: true,
                        received: transfer.received,
                        total: transfer.total_size,
                    };
                    let _ = uploads.insert(self.transfer_id.clone(), transfer);
                    assert(uploads@ =~= old(uploads)@.insert(
                        self.transfer_id@,
                        uploads@[self.transfer_id@],
                    ));
                    RpcResponse::success(self.id, reply)
                },
                None => {
                    assert(uploads@ =~= old(uploads)@);
                    failure(
                        self.id,
                        "No active upload for transfer_id: ",
                        self.transfer_id.as_str(),
                    )
                },
            },
            ChunkOutcome::SeekFailed(e) => failure(self.id, "Seek error: ", e.as_str()),
            ChunkOutcome::WriteFailed(e) => failure(self.id, "Write error: ", e.as_str()),
        }
    }
}

// ---------------------------------------------------------------------------
// fs.upload.end
// ---------------------------------------------------------------------------

/// An upload that is over. Its file is to be flushed, synced and closed.
pub struct UploadEndPlan {
    pub id: String,
    pub transfer_id: String,
    pub expected: String,
    pub path: String,
    pub received: u64,
    pub hasher: ContentHasher,
    pub sudo: bool,
}

/// Whether this is the plan that ends the upload with these parameters.
pub open spec fn closes<F>(
    plan: UploadEndPlan,
    id: Seq<char>,
    request: FsUploadEndRequest,
    transfer: UploadTransfer<F>,
) -> bool {
    &&& plan.id@ == id
    &&& plan.transfer_id@ == request.transfer_id@
    &&& plan.expected@ == request.checksum_sha256@
    &&& plan.path == transfer.path
    &&& plan.received == transfer.received
    &&& plan.hasher == transfer.hasher
    &&& plan.sudo == transfer.sudo
}

/// Whether this is what [`handle_fs_upload_end`] gives.
pub open spec fn fs_upload_end_begins<F>(
    id: String,
    params: Result<FsUploadEndRequest, String>,
    before: Registry<UploadTransfer<F>>,
    after: Registry<UploadTransfer<F>>,
    r: Result<(UploadEndPlan, F), RpcResponse<UploadEndReply>>,
) -> bool {
    &&& r matches Err(response) ==> response.responds_to(id@)
    &&& after.wf()
    &&& match params {
        Ok(request) => {
            &&& after@ == before@.remove(request.transfer_id@)
            &&& if before@.contains_key(request.transfer_id@) {
                let transfer = before@[request.transfer_id@];
                &&& r matches Ok((plan, file))
                &&& closes(plan, id@, request, transfer)
                &&& file == transfer.file
            } else {
                r matches Err(response) && response.fails(
                    id@,
                    error_codes::COMMAND_FAILED,
                    no_upload(request.transfer_id@),
                )
            }
        },
        Err(e) => {
            &&& r matches Err(response) && response.rejects_params(id@, e@)
            &&& after@ == before@
        },
    }
}

/// Handle `fs.upload.end`: finalize a chunked upload. The upload is under way no
/// longer; its file is handed out.
pub fn handle_fs_upload_end<F>(
    id: String,
    params: Result<FsUploadEndRequest, String>,
    uploads: &mut Registry<UploadTransfer<F>>,
) -> (r: Result<(UploadEndPlan, F), RpcResponse<UploadEndReply>>)
    requires
        old(uploads).wf(),
    ensures
        fs_upload_end_begins(id, params, *old(uploads), *final(uploads), r),
        r matches Err(response) ==> response.responds_to(id@),
        final(uploads).wf(),
        match params {
            Ok(request) => {
                &&& final(uploads)@ == old(uploads)@.remove(request.transfer_id@)
                &&& if old(uploads)@.contains_key(request.transfer_id@) {
                    let transfer = old(uploads)@[request.transfer_id@];
                    &&& r matches Ok((plan, file))
                    &&& closes(plan, id@, request, transfer)
                    &&& file == transfer.file
                } else {
                    r matches Err(response) && response.fails(
                        id@,
                        error_codes::COMMAND_FAILED,
                        no_upload(request.transfer_id@),
                    )
                }
            },
            Err(e) => {
                &&& r matches Err(response) && response.rejects_params(id@, e@)
                &&& final(uploads)@ == old(uploads)@
            },
        },
{
    match params {
        Ok(request) => match uploads.remove(request.transfer_id.as_str()) {
            Some(transfer) => Ok(
                (
                    UploadEndPlan {
                        id,
                        transfer_id: request.transfer_id,
                        expected: request.checksum_sha256,
                        path: transfer.path,
                        received: transfer.received,
                        hasher: transfer.hasher,
                        sudo: transfer.sudo,
                    },
                    transfer.file,
                ),
            ),
            None => Err(
                failure(id, "No active upload for transfer_id: ", request.transfer_id.as_str()),
            ),
        },
        Err(e) => Err(RpcResponse::invalid_params(id, e.as_str())),
    }
}

/// What became of the file of an upload that is over.
pub enum SyncOutcome {
    Synced,
    FlushFailed(String),
    SyncFailed(String),
}

/// What follows once the file of an upload is closed.
pub enum UploadVerdict {
    /// Send the response.
    Answer(RpcResponse<UploadEndReply>),
    /// Remove the file, then send the response.
    Discard { path: String, response: RpcResponse<UploadEndReply> },
    /// Run the command that moves the file to its place.
    Move(UploadMove),
}

/// An upload as root whose checksum is right, to be moved to its place.
pub struct UploadMove {
    pub id: String,
    pub path: String,
    pub temporary: String,
    pub received: u64,
    pub checksum: String,
    pub command: CommandSpec,
}

/// Whether the response tells that the upload is complete.
pub open spec fn completes(
    response: RpcResponse<UploadEndReply>,
    id: Seq<char>,
    path: Seq<char>,
    size: u64,
    checksum: Seq<char>,
) -> bool {
    &&& response.answers(id)
    &&& response.payload().ok
    &&& response.payload().path@ == path
    &&& response.payload().size == size
    &&& response.payload().checksum@ == checksum
}

impl UploadEndPlan {
    /// The checksum of what was received, in the order in which it was received.
    pub open spec fn actual(self) -> Seq<char> {
        sha256_hex(taken_in(self.hasher))
    }

    /// Whether this is what [`Self::on_synced`] gives.
    pub open spec fn on_synced_gives(self, outcome: SyncOutcome, r: UploadVerdict) -> bool {
        &&& match r {
            UploadVerdict::Answer(response) => response.responds_to(self.id@),
            UploadVerdict::Discard { path, response } => response.responds_to(self.id@),
            UploadVerdict::Move(plan) => plan.id@ == self.id@,
        }
        &&& match outcome {
            SyncOutcome::FlushFailed(e) => r matches UploadVerdict::Answer(response)
                && response.fails(
                self.id@,
                error_codes::COMMAND_FAILED,
                "Flush error: "@ + e@,
            ),
            SyncOutcome::SyncFailed(e) => r matches UploadVerdict::Answer(response)
                && response.fails(
                self.id@,
                error_codes::COMMAND_FAILED,
                "Sync error: "@ + e@,
            ),
            SyncOutcome::Synced => if self.actual() != self.expected@ {
                &&& r matches UploadVerdict::Discard { path, response }
                &&& path@ == written_at(self.transfer_id@, self.path@, self.sudo)
                &&& response.fails(
                    self.id@,
                    error_codes::COMMAND_FAILED,
                    "Checksum mismatch: expected "@ + self.expected@ + ", got "@
                        + self.actual(),
                )
            } else if self.sudo {
                &&& r matches UploadVerdict::Move(plan)
                &&& plan.id@ == self.id@
                &&& plan.path@ == self.path@
                &&& plan.temporary@ == written_at(self.transfer_id@, self.path@, true)
                &&& plan.received == self.received
                &&& plan.checksum@ == self.actual()
                &&& plan.command.calls(
                    "sudo"@,
                    seq!["-n"@, "mv"@, plan.temporary@, self.path@],
                )
                &&& plan.command.env is None
            } else {
                r matches UploadVerdict::Answer(response) && completes(
                    response,
                    self.id@,
                    self.path@,
                    self.received,
                    self.actual(),
                )
            },
        }
    }

    /// What follows when the file was flushed and synced or not. The upload is
    /// accepted if what was received has the checksum that the request gives;
    /// else its file is removed.
    pub fn on_synced(self, outcome: SyncOutcome) -> (r: UploadVerdict)
        ensures
            self.on_synced_gives(outcome, r),
            match r {
                UploadVerdict::Answer(response) => response.responds_to(self.id@),
                UploadVerdict::Discard { path, response } => response.responds_to(self.id@),
                UploadVerdict::Move(plan) => plan.id@ == self.id@,
            },
            match outcome {
                SyncOutcome::FlushFailed(e) => r matches UploadVerdict::Answer(response)
                    && response.fails(
                    self.id@,
                    error_codes::COMMAND_FAILED,
                    "Flush error: "@ + e@,
                ),
                SyncOutcome::SyncFailed(e) => r matches UploadVerdict::Answer(response)
                    && response.fails(
                    self.id@,
                    error_codes::COMMAND_FAILED,
                    "Sync error: "@ + e@,
                ),
                SyncOutcome::Synced => if self.actual() != self.expected@ {
                    &&& r matches UploadVerdict::Discard { path, response }
                    &&& path@ == written_at(self.transfer_id@, self.path@, self.sudo)
                    &&& response.fails(
                        self.id@,
                        error_codes::COMMAND_FAILED,
                        "Checksum mismatch: expected "@ + self.expected@ + ", got "@
                            + self.actual(),
                    )
                } else if self.sudo {
                    &&& r matches UploadVerdict::Move(plan)
                    &&& plan.id@ == self.id@
                    &&& plan.path@ == self.path@
                    &&& plan.temporary@ == written_at(self.transfer_id@, self.path@, true)
                    &&& plan.received == self.received
                    &&& plan.checksum@ == self.actual()
                    &&& plan.command.calls(
                        "sudo"@,
                        seq!["-n"@, "mv"@, plan.temporary@, self.path@],
                    )
                    &&& plan.command.env is None
                } else {
                    r matches UploadVerdict::Answer(response) && completes(
                        response,
                        self.id@,
                        self.path@,
                        self.received,
                        self.actual(),
                    )
                },
            },
    {
        match outcome {
            SyncOutcome::FlushFailed(e) => {
                return UploadVerdict::Answer(failure(self.id, "Flush error: ", e.as_str()));
            },
            SyncOutcome::SyncFailed(e) => {
                return UploadVerdict::Answer(failure(self.id, "Sync error: ", e.as_str()));
            },
            SyncOutcome::Synced => {},
        }
        let digest = self.hasher.finalize();
        let actual = to_hex(&digest);
        let written = write_path(self.transfer_id.as_str(), self.path.as_str(), self.sudo);
        if !same_text(actual.as_str(), self.expected.as_str()) {
            let message = cat4(
                "Checksum mismatch: expected ",
                self.expected.as_str(),
                ", got ",
                actual.as_str(),
            );
            let response = RpcResponse::error(self.id, error_codes::COMMAND_FAILED, message);
            return UploadVerdict::Discard { path: written, response };
        }
        if self.sudo {
            let args = vec!["-n", "mv", written.as_str(), self.path.as_str()];
            assert(words_of(args@) =~= seq!["-n"@, "mv"@, written@, self.path@]);
            let command = CommandSpec::new("sudo", &args);
            return UploadVerdict::Move(
                UploadMove {
                    id: self.id,
                    path: self.path,
                    temporary: written,
                    received: self.received,
                    checksum: actual,
                    command,
                },
            );
        }
        UploadVerdict::Answer(
            RpcResponse::success(
                self.id,
                UploadEndReply {
                    ok: true,
                    path: self.path,
                    size: self.received,
                    checksum: actual,
                },
            ),
        )
    }
}

impl UploadMove {
    /// Whether this is what [`Self::on_output`] gives.
    pub open spec fn on_output_gives(
        self,
        output: Result<CommandOutput, String>,
        r: (RpcResponse<UploadEndReply>, Option<String>),
    ) -> bool {
        &&& r.0.responds_to(self.id@)
        &&& match output {
            Ok(out) => if out.success {
                &&& completes(r.0, self.id@, self.path@, self.received, self.checksum@)
                &&& r.1 is None
            } else {
                &&& r.0.fails(
                    self.id@,
                    error_codes::COMMAND_FAILED,
                    "sudo mv failed: "@ + text_in_bytes(out.stderr@),
                )
                &&& r.1 matches Some(path) && path@ == self.temporary@
            },
            Err(e) => {
                &&& r.0.fails(
                    self.id@,
                    error_codes::COMMAND_FAILED,
                    "Failed to run sudo mv: "@ + e@,
                )
                &&& r.1 matches Some(path) && path@ == self.temporary@
            },
        }
    }

    /// The response when the command reported this, or could not be run, and the
    /// temporary file if it is to be removed.
    pub fn on_output(self, output: Result<CommandOutput, String>) -> (r: (
        RpcResponse<UploadEndReply>,
        Option<String>,
    ))
        ensures
            self.on_output_gives(output, r),
            r.0.responds_to(self.id@),
            match output {
                Ok(out) => if out.success {
                    &&& completes(r.0, self.id@, self.path@, self.received, self.checksum@)
                    &&& r.1 is None
                } else {
                    &&& r.0.fails(
                        self.id@,
                        error_codes::COMMAND_FAILED,
                        "sudo mv failed: "@ + text_in_bytes(out.stderr@),
                    )
                    &&& r.1 matches Some(path) && path@ == self.temporary@
                },
                Err(e) => {
                    &&& r.0.fails(
                        self.id@,
                        error_codes::COMMAND_FAILED,
                        "Failed to run sudo mv: "@ + e@,
                    )
                    &&& r.1 matches Some(path) && path@ == self.temporary@
                },
            },
    {
        match output {
            Ok(out) => if out.success {
                let reply = UploadEndReply {
                    ok: true,
                    path: self.path,
                    size: self.received,
                    checksum: self.checksum,
                };
                (RpcResponse::success(self.id, reply), None)
            } else {
                let stderr = bytes_to_text(&out.stderr);
                (
                    failure(self.id, "sudo mv failed: ", stderr.as_str()),
                    Some(self.temporary),
                )
            },
            Err(e) => (
                failure(self.id, "Failed to run sudo mv: ", e.as_str()),
                Some(self.temporary),
            ),
        }
    }
}

/// An upload that started and then received these chunks, one state after the
/// other.
pub open spec fn upload_history<F>(states: Seq<UploadTransfer<F>>, chunks: Seq<Seq<u8>>) -> bool {
    &&& states.len() == chunks.len() + 1
    &&& states[0].received == 0
    &&& taken_in(states[0].hasher) == Seq::<u8>::empty()
    &&& forall|i: int|
        0 <= i < chunks.len() ==> receives(#[trigger] states[i], states[i + 1], chunks[i])
}

/// An upload has received as many bytes as its chunks hold, and its end is
/// accepted exactly if the checksum in the request is the SHA-256 checksum of all
/// its chunks, joined in the order in which they came.
pub proof fn law_upload_is_accepted_by_the_checksum_of_its_chunks<F>(
    states: Seq<UploadTransfer<F>>,
    chunks: Seq<Seq<u8>>,
    plan: UploadEndPlan,
    id: Seq<char>,
    request: FsUploadEndRequest,
)
    requires
        upload_history(states, chunks),
        closes(plan, id, request, states.last()),
    ensures
        plan.received == joined(chunks).len(),
        (plan.actual() == plan.expected@) == (sha256_hex(joined(chunks))
            == request.checksum_sha256@),
{
    lemma_history(states, chunks, chunks.len() as int);
    assert(chunks.take(chunks.len() as int) =~= chunks);
}

proof fn lemma_history<F>(states: Seq<UploadTransfer<F>>, chunks: Seq<Seq<u8>>, n: int)
    requires
        upload_history(states, chunks),
        0 <= n <= chunks.len(),
    ensures
        taken_in(states[n].hasher) == joined(chunks.take(n)),
        states[n].received == joined(chunks.take(n)).len(),
    decreases n,
{
    if n > 0 {
        lemma_history(states, chunks, n - 1);
        assert(receives(states[n - 1], states[n - 1 + 1], chunks[n - 1]));
        assert(chunks.take(n).drop_last() =~= chunks.take(n - 1));
        assert(chunks.take(n).last() == chunks[n - 1]);
    } else {
        assert(joined(chunks.take(0)) =~= Seq::<u8>::empty());
    }
}

// ---------------------------------------------------------------------------
// fs.download
// ---------------------------------------------------------------------------

/// The result of the start of a download.
#[derive(Debug, Clone)]
pub struct DownloadReply {
    pub streaming: bool,
    pub transfer_id: String,
    pub size: u64,
}

/// A file to be streamed, whose size is to be asked for.
pub struct DownloadPlan {
    pub id: String,
    pub transfer_id: String,
    pub path: String,
    /// As root: the command that prints the size.
    pub stat: Option<CommandSpec>,
}

/// A file that is streamed.
pub struct DownloadStream {
    pub transfer_id: String,
    pub path: String,
    /// As root: the command that prints the file.
    pub cat: Option<CommandSpec>,
}

/// Whether this is what [`handle_fs_download`] gives.
pub open spec fn fs_download_begins(
    id: String,
    params: Result<FsDownloadRequest, String>,
    security: &SecurityConfig,
    r: Result<DownloadPlan, RpcResponse<DownloadReply>>,
) -> bool {
    &&& r matches Err(response) ==> response.responds_to(id@)
    &&& match params {
        Ok(request) if !security.permits_path(request.path@) => r matches Err(response)
            && response.fails(
            id@,
            error_codes::COMMAND_FAILED,
            refused_path(request.path@),
        ),
        Ok(request) => {
            &&& r matches Ok(plan)
            &&& plan.id@ == id@
            &&& plan.transfer_id@ == request.transfer_id@
            &&& plan.path@ == request.path@
            &&& match plan.stat {
                Some(command) => {
                    &&& flag(request.sudo)
                    &&& command.calls(
                        "sudo"@,
                        seq!["-n"@, "stat"@, "--format=%s"@, request.path@],
                    )
                    &&& command.env is None
                },
                None => !flag(request.sudo),
            }
        },
        Err(e) => r matches Err(response) && response.rejects_params(id@, e@),
    }
}

/// Handle `fs.download`: stream a file back in chunks.
pub fn handle_fs_download(
    id: String,
    params: Result<FsDownloadRequest, String>,
    security: &SecurityConfig,
) -> (r: Result<DownloadPlan, RpcResponse<DownloadReply>>)
    ensures
        fs_download_begins(id, params, security, r),
        r matches Err(response) ==> response.responds_to(id@),
        match params {
            Ok(request) if !security.permits_path(request.path@) => r matches Err(response)
                && response.fails(
                id@,
                error_codes::COMMAND_FAILED,
                refused_path(request.path@),
            ),
            Ok(request) => {
                &&& r matches Ok(plan)
                &&& plan.id@ == id@
                &&& plan.transfer_id@ == request.transfer_id@
                &&& plan.path@ == request.path@
                &&& match plan.stat {
                    Some(command) => {
                        &&& flag(request.sudo)
                        &&& command.calls(
                            "sudo"@,
                            seq!["-n"@, "stat"@, "--format=%s"@, request.path@],
                        )
                        &&& command.env is None
                    },
                    None => !flag(request.sudo),
                }
            },
            Err(e) => r matches Err(response) && response.rejects_params(id@, e@),
        },
{
    match params {
        Ok(request) => {
            if !security.allows_path(request.path.as_str()) {
                return Err(refuse_path(id, request.path.as_str()));
            }
            let stat = if is_set(request.sudo) {
                let args = vec!["-n", "stat", "--format=%s", request.path.as_str()];
                assert(words_of(args@) =~= seq!["-n"@, "stat"@, "--format=%s"@, request.path@]);
                Some(CommandSpec::new("sudo", &args))
            } else {
                None
            };
            Ok(DownloadPlan { id, transfer_id: request.transfer_id, path: request.path, stat })
        },
        Err(e) => Err(RpcResponse::invalid_params(id, e.as_str())),
    }
}

impl DownloadPlan {
    /// Whether a download of this size starts: the response says so, and the
    /// file is streamed.
    pub open spec fn begins(
        self,
        r: (RpcResponse<DownloadReply>, Option<DownloadStream>),
        size: u64,
    ) -> bool {
        &&& r.0.answers(self.id@)
        &&& r.0.payload().streaming
        &&& r.0.payload().transfer_id@ == self.transfer_id@
        &&& r.0.payload().size == size
        &&& r.1 matches Some(stream) && {
            &&& stream.transfer_id@ == self.transfer_id@
            &&& stream.path@ == self.path@
            &&& match stream.cat {
                Some(command) => {
                    &&& self.stat is Some
                    &&& command.calls("sudo"@, seq!["-n"@, "cat"@, self.path@])
                    &&& command.env is None
                },
                None => self.stat is None,
            }
        }
    }

    fn start(self, size: u64) -> (r: (RpcResponse<DownloadReply>, Option<DownloadStream>))
        ensures
            self.begins(r, size),
    {
        let cat = match self.stat {
            Some(_) => {
                let args = vec!["-n", "cat", self.path.as_str()];
                assert(words_of(args@) =~= seq!["-n"@, "cat"@, self.path@]);
                Some(CommandSpec::new("sudo", &args))
            },
            None => None,
        };
        let reply = DownloadReply { streaming: true, transfer_id: self.transfer_id.clone(), size };
        (
            RpcResponse::success(self.id, reply),
            Some(DownloadStream { transfer_id: self.transfer_id, path: self.path, cat }),
        )
    }

    /// Whether this is what [`Self::on_stat`] gives.
    pub open spec fn on_stat_gives(
        self,
        output: Result<CommandOutput, String>,
        r: (RpcResponse<DownloadReply>, Option<DownloadStream>),
    ) -> bool {
        &&& r.0.responds_to(self.id@)
        &&& match output {
            Ok(out) => if out.success {
                self.begins(
                    r,
                    read_or_zero(trimmed(text_in_bytes(out.stdout@)), u64::MAX as int) as u64,
                )
            } else {
                &&& r.0.fails(
                    self.id@,
                    error_codes::COMMAND_FAILED,
                    "stat failed: "@ + text_in_bytes(out.stderr@),
                )
                &&& r.1 is None
            },
            Err(e) => {
                &&& r.0.fails(
                    self.id@,
                    error_codes::COMMAND_FAILED,
                    "Failed to stat file: "@ + e@,
                )
                &&& r.1 is None
            },
        }
    }

    /// As root: the response when the command that prints the size reported
    /// this, or could not be run, and the stream that follows.
    pub fn on_stat(self, output: Result<CommandOutput, String>) -> (r: (
        RpcResponse<DownloadReply>,
        Option<DownloadStream>,
    ))
        ensures
            self.on_stat_gives(output, r),
            r.0.responds_to(self.id@),
            match output {
                Ok(out) => if out.success {
                    self.begins(
                        r,
                        read_or_zero(trimmed(text_in_bytes(out.stdout@)), u64::MAX as int) as u64,
                    )
                } else {
                    &&& r.0.fails(
                        self.id@,
                        error_codes::COMMAND_FAILED,
                        "stat failed: "@ + text_in_bytes(out.stderr@),
                    )
                    &&& r.1 is None
                },
                Err(e) => {
                    &&& r.0.fails(
                        self.id@,
                        error_codes::COMMAND_FAILED,
                        "Failed to stat file: "@ + e@,
                    )
                    &&& r.1 is None
                },
            },
    {
        match output {
            Ok(out) => if out.success {
                let stdout = bytes_to_text(&out.stdout);
                let line = trim(stdout.as_str());
                self.start(parse_or_zero(line.as_str()))
            } else {
                let stderr = bytes_to_text(&out.stderr);
                (failure(self.id, "stat failed: ", stderr.as_str()), None)
            },
            Err(e) => (failure(self.id, "Failed to stat file: ", e.as_str()), None),
        }
    }

    /// Whether this is what [`Self::on_size`] gives.
    pub open spec fn on_size_gives(
        self,
        size: Result<u64, String>,
        r: (RpcResponse<DownloadReply>, Option<DownloadStream>),
    ) -> bool {
        &&& r.0.responds_to(self.id@)
        &&& match size {
            Ok(size) => self.begins(r, size),
            Err(e) => {
                &&& r.0.fails(
                    self.id@,
                    error_codes::COMMAND_FAILED,
                    "File not found: "@ + e@,
                )
                &&& r.1 is None
            },
        }
    }

    /// The response when the file has this size, or its size could not be had,
    /// and the stream that follows.
    pub fn on_size(self, size: Result<u64, String>) -> (r: (
        RpcResponse<DownloadReply>,
        Option<DownloadStream>,
    ))
        ensures
            self.on_size_gives(size, r),
            r.0.responds_to(self.id@),
            match size {
                Ok(size) => self.begins(r, size),
                Err(e) => {
                    &&& r.0.fails(
                        self.id@,
                        error_codes::COMMAND_FAILED,
                        "File not found: "@ + e@,
                    )
                    &&& r.1 is None
                },
            },
    {
        match size {
            Ok(size) => self.start(size),
            Err(e) => (failure(self.id, "File not found: ", e.as_str()), None),
        }
    }
}

impl DownloadStream {
    /// Whether this is what [`Self::on_read`] gives.
    pub open spec fn on_read_gives(
        self,
        bytes: Vec<u8>,
        r: Option<RpcRequest<StreamData>>,
    ) -> bool {
        &&& if bytes@.len() > 0 {
            r matches Some(note) && carries(
                note,
                self.transfer_id@,
                StreamChannel::Stdout,
                bytes@,
            )
        } else {
            r is None
        }
    }

    /// What to send after a read from the file, if the reading is to go on: it
    /// stops where the read gives no bytes.
    pub fn on_read(&self, bytes: &Vec<u8>) -> (r: Option<RpcRequest<StreamData>>)
        ensures
            self.on_read_gives(*bytes, r),
            if bytes@.len() > 0 {
                r matches Some(note) && carries(
                    note,
                    self.transfer_id@,
                    StreamChannel::Stdout,
                    bytes@,
                )
            } else {
                r is None
            },
    {
        if bytes.len() == 0 {
            None
        } else {
            Some(data_notification(self.transfer_id.as_str(), StreamChannel::Stdout, bytes))
        }
    }

    /// Whether this is what [`Self::on_exit`] gives.
    pub open spec fn on_exit_gives(
        self,
        ended: Result<ExitReport, String>,
        r: Result<(), String>,
    ) -> bool {
        &&& match ended {
            Ok(report) => if report.success {
                r is Ok
            } else {
                r matches Err(e) && e@ == "sudo cat exited with code "@ + signed_decimal(
                    reported_code(report.code) as int,
                )
            },
            Err(why) => r matches Err(e) && e@ == why@,
        }
    }

    /// As root: whether the file was streamed whole, given how the command that
    /// prints it ended.
    pub fn on_exit(&self, ended: Result<ExitReport, String>) -> (r: Result<(), String>)
        ensures
            self.on_exit_gives(ended, r),
            match ended {
                Ok(report) => if report.success {
                    r is Ok
                } else {
                    r matches Err(e) && e@ == "sudo cat exited with code "@ + signed_decimal(
                        reported_code(report.code) as int,
                    )
                },
                Err(why) => r matches Err(e) && e@ == why@,
            },
    {
        match ended {
            Ok(report) => if report.success {
                Ok(())
            } else {
                let code = to_signed_decimal(exit_code(report.code));
                Err(cat2("sudo cat exited with code ", code.as_str()))
            },
            Err(why) => Err(why),
        }
    }

    /// Whether this is what [`Self::on_end`] gives.
    pub open spec fn on_end_gives(self, complete: bool, note: RpcRequest<StreamEnd>) -> bool {
        &&& ends(
            note,
            self.transfer_id@,
            if complete {
                0i32
            } else {
                NO_EXIT_CODE
            },
        )
    }

    /// What to send when the file was streamed whole, or the streaming failed.
    pub fn on_end(&self, complete: bool) -> (note: RpcRequest<StreamEnd>)
        ensures
            self.on_end_gives(complete, note),
            ends(
                note,
                self.transfer_id@,
                if complete {
                    0i32
                } else {
                    NO_EXIT_CODE
                },
            ),
    {
        let code: i32 = if complete {
            0
        } else {
            NO_EXIT_CODE
        };
        end_notification(self.transfer_id.as_str(), code)
    }
}

} // verus!
