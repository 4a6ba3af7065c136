//! Self-update: the latest binary is fetched from the backend, its SHA-256
//! checksum verified, and only then is the running binary replaced, in one step.

use crate::command::{words_of, CommandSpec};
use crate::encoding::{json_member, json_text_member, sha256_hex, sha256_of};
use crate::storage::{acted, held_at, FileAction};
use crate::text::{cat2, cat3, cat4, chars_of, head, same_text, take_chars, trim_end_char};
use crate::text::without_trailing;
use vstd::prelude::*;
use vstd::string::StringExecFns;

verus! {

/// Where the binary stands.
pub const BINARY_PATH: &'static str = "/usr/local/bin/nobase";

/// Where a new binary is written first.
pub const TMP_PATH: &'static str = "/tmp/nobase-update";

/// Where a new binary is copied to that cannot be moved from [`TMP_PATH`] in one
/// step: beside the binary, on the same file system.
pub const STAGED_PATH: &'static str = "/usr/local/bin/.nobase-update";

/// The mode of the binary.
pub const BINARY_MODE: u32 = 0o755;

/// How long a request to the backend may take.
pub const HTTP_TIMEOUT_SECS: u64 = 120;

/// The status of a reply that there is no such thing.
pub const NOT_FOUND: u16 = 404;

/// How many characters of a checksum are shown.
pub const SHORT_HASH: usize = 12;

/// Result of an update check.
#[derive(Debug)]
pub enum UpdateResult {
    /// Binary already matches the latest checksum.
    AlreadyUpToDate,
    /// Binary was updated and the service is restarting.
    Updated { old_hash: String, new_hash: String },
    /// The backend's URL is not configured: updates cannot be checked for.
    NotConfigured,
}

/// Whether this is a checksum in hexadecimal digits as far as it is shown.
pub open spec fn shows(hash: Seq<char>) -> bool {
    hash.len() >= SHORT_HASH && forall|i: int|
        0 <= i < SHORT_HASH ==> (#[trigger] hash[i] as u32) < 0x80
}

impl UpdateResult {
    /// Whether the checksum of a new binary can be shown.
    pub open spec fn wf(self) -> bool {
        match self {
            UpdateResult::Updated { new_hash, .. } => shows(new_hash@),
            _ => true,
        }
    }

    /// The result in words, to an agent of this version.
    pub open spec fn words(self, version: Seq<char>) -> Seq<char> {
        match self {
            UpdateResult::AlreadyUpToDate => "Already up-to-date (v"@ + version + ")"@,
            UpdateResult::Updated { new_hash, .. } => "Updated to "@ + head(
                new_hash@,
                SHORT_HASH as nat,
            ),
            UpdateResult::NotConfigured => "backend_url not configured, skipping update check"@,
        }
    }

    /// The result in words, to an agent of this version.
    pub fn message(&self, version: &str) -> (text: String)
        requires
            self.wf(),
        ensures
            text@ == self.words(version@),
    {
        match self {
            UpdateResult::AlreadyUpToDate => cat3("Already up-to-date (v", version, ")"),
            UpdateResult::Updated { new_hash, .. } => {
                let short = take_chars(new_hash.as_str(), SHORT_HASH);
                cat2("Updated to ", short.as_str())
            },
            UpdateResult::NotConfigured => String::from_str(
                "backend_url not configured, skipping update check",
            ),
        }
    }
}

/// A reply of the backend.
pub struct HttpReply {
    pub status: u16,
    /// The status as a person reads it, such as "404 Not Found".
    pub status_text: String,
    pub body: Vec<u8>,
}

/// Whether a status tells success.
pub open spec fn successful(status: u16) -> bool {
    200 <= status < 300
}

/// How a check for an update goes on.
pub enum UpdateStep<P> {
    /// It has ended with a result, or failed.
    Ended(Result<UpdateResult, String>),
    /// It goes on with this.
    Next(P),
}

impl<P> UpdateStep<P> {
    /// Whether the check has failed with this message.
    pub open spec fn failed(self, message: Seq<char>) -> bool {
        self matches UpdateStep::Ended(Err(e)) && e@ == message
    }

    /// Whether the check has ended because there is nothing newer.
    pub open spec fn up_to_date(self) -> bool {
        self matches UpdateStep::Ended(Ok(UpdateResult::AlreadyUpToDate))
    }
}

/// The checksum of the latest binary is to be fetched.
pub struct ChecksumPlan {
    pub checksum_url: String,
    pub binary_url: String,
    pub restart_service: bool,
}

/// Where the backend has the latest binary for an architecture.
pub open spec fn binary_location(backend_url: Seq<char>, arch: Seq<char>) -> Seq<char> {
    without_trailing(backend_url, '/') + "/api/agents/binary/linux-"@ + arch
}

/// Whether there are binaries for the architecture.
pub open spec fn supported(arch: Seq<char>) -> bool {
    arch == "x86_64"@ || arch == "aarch64"@
}

/// Whether this is what [`check_and_update`] gives.
pub open spec fn check_and_update_gives(
    backend_url: &str,
    arch: &str,
    restart_service: bool,
    r: UpdateStep<ChecksumPlan>,
) -> bool {
    &&& if backend_url@.len() == 0 {
        r matches UpdateStep::Ended(Ok(UpdateResult::NotConfigured))
    } else if !supported(arch@) {
        r.failed("Unsupported architecture: "@ + arch@)
    } else {
        &&& r matches UpdateStep::Next(plan)
        &&& plan.binary_url@ == binary_location(backend_url@, arch@)
        &&& plan.checksum_url@ == binary_location(backend_url@, arch@) + "/checksum"@
        &&& plan.restart_service == restart_service
    }
}

/// Check for and apply an update from the backend.
///
/// - `backend_url`: HTTP base URL of the backend
/// - `arch`: the architecture of the host
/// - `restart_service`: whether the service is restarted after replacing the
///   binary
pub fn check_and_update(backend_url: &str, arch: &str, restart_service: bool) -> (r: UpdateStep<
    ChecksumPlan,
>)
    ensures
        check_and_update_gives(backend_url, arch, restart_service, r),
        if backend_url@.len() == 0 {
            r matches UpdateStep::Ended(Ok(UpdateResult::NotConfigured))
        } else if !supported(arch@) {
            r.failed("Unsupported architecture: "@ + arch@)
        } else {
            &&& r matches UpdateStep::Next(plan)
            &&& plan.binary_url@ == binary_location(backend_url@, arch@)
            &&& plan.checksum_url@ == binary_location(backend_url@, arch@) + "/checksum"@
            &&& plan.restart_service == restart_service
        },
{
    if chars_of(backend_url).len() == 0 {
        return UpdateStep::Ended(Ok(UpdateResult::NotConfigured));
    }
    if !(same_text(arch, "x86_64") || same_text(arch, "aarch64")) {
        return UpdateStep::Ended(Err(cat2("Unsupported architecture: ", arch)));
    }
    let base = trim_end_char(backend_url, '/');
    let binary_url = cat3(base.as_str(), "/api/agents/binary/linux-", arch);
    let checksum_url = cat2(binary_url.as_str(), "/checksum");
    UpdateStep::Next(ChecksumPlan { checksum_url, binary_url, restart_service })
}

/// The binary that stands in place is to be read.
pub struct CurrentPlan {
    pub expected: String,
    pub binary_url: String,
    pub restart_service: bool,
}

impl ChecksumPlan {
    /// Whether this is what [`Self::on_checksum`] gives.
    pub open spec fn on_checksum_gives(
        self,
        reply: Result<HttpReply, String>,
        r: UpdateStep<CurrentPlan>,
    ) -> bool {
        &&& match reply {
            Ok(reply) => if reply.status == NOT_FOUND {
                r.up_to_date()
            } else if !successful(reply.status) {
                r.failed("Failed to fetch checksum (HTTP "@ + reply.status_text@ + ")"@)
            } else {
                match json_text_member(reply.body@, "sha256"@) {
                    Ok(Some(expected)) => {
                        &&& r matches UpdateStep::Next(plan)
                        &&& plan.expected@ == expected
                        &&& plan.binary_url@ == self.binary_url@
                        &&& plan.restart_service == self.restart_service
                    },
                    Ok(None) => r.failed("Invalid checksum response from backend"@),
                    Err(_) => r.failed("error decoding response body"@),
                }
            },
            Err(e) => r.failed(e@),
        }
    }

    /// What follows when the backend replied so, or gave no reply. Where it has
    /// no binary there is nothing newer.
    pub fn on_checksum(self, reply: Result<HttpReply, String>) -> (r: UpdateStep<CurrentPlan>)
        ensures
            self.on_checksum_gives(reply, r),
            match reply {
                Ok(reply) => if reply.status == NOT_FOUND {
                    r.up_to_date()
                } else if !successful(reply.status) {
                    r.failed("Failed to fetch checksum (HTTP "@ + reply.status_text@ + ")"@)
                } else {
                    match json_text_member(reply.body@, "sha256"@) {
                        Ok(Some(expected)) => {
                            &&& r matches UpdateStep::Next(plan)
                            &&& plan.expected@ == expected
                            &&& plan.binary_url@ == self.binary_url@
                            &&& plan.restart_service == self.restart_service
                        },
                        Ok(None) => r.failed("Invalid checksum response from backend"@),
                        Err(_) => r.failed("error decoding response body"@),
                    }
                },
                Err(e) => r.failed(e@),
            },
    {
        let reply = match reply {
            Ok(reply) => reply,
            Err(e) => return UpdateStep::Ended(Err(e)),
        };
        if reply.status == NOT_FOUND {
            return UpdateStep::Ended(Ok(UpdateResult::AlreadyUpToDate));
        }
        if !(200 <= reply.status && reply.status < 300) {
            return UpdateStep::Ended(
                Err(cat3("Failed to fetch checksum (HTTP ", reply.status_text.as_str(), ")")),
            );
        }
        match json_member(&reply.body, "sha256") {
            Ok(Some(expected)) => UpdateStep::Next(
                CurrentPlan {
                    expected,
                    binary_url: self.binary_url,
                    restart_service: self.restart_service,
                },
            ),
            Ok(None) => UpdateStep::Ended(
                Err(String::from_str("Invalid checksum response from backend")),
            ),
            Err(_) => UpdateStep::Ended(Err(String::from_str("error decoding response body"))),
        }
    }
}

/// The checksum of a binary; nothing where there is none.
pub open spec fn checksum(binary: Option<Vec<u8>>) -> Seq<char> {
    match binary {
        Some(bytes) => sha256_hex(bytes@),
        None => Seq::empty(),
    }
}

/// The latest binary is to be fetched.
pub struct BinaryPlan {
    pub expected: String,
    pub old_hash: String,
    pub binary_url: String,
    pub restart_service: bool,
}

impl CurrentPlan {
    /// Whether a binary is the latest.
    pub open spec fn has_latest(self, binary: Option<Vec<u8>>) -> bool {
        checksum(binary) == self.expected@
    }

    /// Whether this is what [`Self::on_current`] gives.
    pub open spec fn on_current_gives(
        self,
        current: Result<Option<Vec<u8>>, String>,
        r: UpdateStep<BinaryPlan>,
    ) -> bool {
        &&& match current {
            Ok(binary) => if self.has_latest(binary) {
                r.up_to_date()
            } else {
                &&& r matches UpdateStep::Next(plan)
                &&& plan.expected@ == self.expected@
                &&& plan.old_hash@ == checksum(binary)
                &&& plan.binary_url@ == self.binary_url@
                &&& plan.restart_service == self.restart_service
            },
            Err(e) => r.failed(e@),
        }
    }

    /// What follows when this binary stands in place, or none, or it could not
    /// be read.
    pub fn on_current(self, current: Result<Option<Vec<u8>>, String>) -> (r: UpdateStep<BinaryPlan>)
        ensures
            self.on_current_gives(current, r),
            match current {
                Ok(binary) => if self.has_latest(binary) {
                    r.up_to_date()
                } else {
                    &&& r matches UpdateStep::Next(plan)
                    &&& plan.expected@ == self.expected@
                    &&& plan.old_hash@ == checksum(binary)
                    &&& plan.binary_url@ == self.binary_url@
                    &&& plan.restart_service == self.restart_service
                },
                Err(e) => r.failed(e@),
            },
    {
        let old_hash = match current {
            Ok(Some(bytes)) => sha256_of(&bytes),
            Ok(None) => String::new(),
            Err(e) => return UpdateStep::Ended(Err(e)),
        };
        if same_text(old_hash.as_str(), self.expected.as_str()) {
            return UpdateStep::Ended(Ok(UpdateResult::AlreadyUpToDate));
        }
        UpdateStep::Next(
            BinaryPlan {
                expected: self.expected,
                old_hash,
                binary_url: self.binary_url,
                restart_service: self.restart_service,
            },
        )
    }
}

/// A verified binary is to be written, and then to be moved over the one in place.
pub struct InstallPlan {
    pub binary: Vec<u8>,
    pub old_hash: String,
    pub new_hash: String,
    pub restart_service: bool,
}

impl InstallPlan {
    /// Whether the binary has the checksum that it is to have.
    pub open spec fn verified(self) -> bool {
        sha256_hex(self.binary@) == self.new_hash@
    }
}

impl BinaryPlan {
    /// Whether this is what [`Self::on_binary`] gives.
    pub open spec fn on_binary_gives(
        self,
        reply: Result<HttpReply, String>,
        r: UpdateStep<InstallPlan>,
    ) -> bool {
        &&& match reply {
            Ok(reply) => if !successful(reply.status) {
                r.failed("Failed to download binary (HTTP "@ + reply.status_text@ + ")"@)
            } else if sha256_hex(reply.body@) != self.expected@ {
                r.failed(
                    "Checksum mismatch! expected="@ + self.expected@ + " actual="@ + sha256_hex(
                        reply.body@,
                    ),
                )
            } else {
                &&& r matches UpdateStep::Next(plan)
                &&& plan.binary@ == reply.body@
                &&& plan.old_hash@ == self.old_hash@
                &&& plan.new_hash@ == self.expected@
                &&& plan.verified()
                &&& shows(plan.new_hash@)
                &&& plan.restart_service == self.restart_service
            },
            Err(e) => r.failed(e@),
        }
    }

    /// What follows when the backend replied so, or gave no reply. A binary is
    /// installed only if it has the checksum that the backend told.
    pub fn on_binary(self, reply: Result<HttpReply, String>) -> (r: UpdateStep<InstallPlan>)
        ensures
            self.on_binary_gives(reply, r),
            match reply {
                Ok(reply) => if !successful(reply.status) {
                    r.failed("Failed to download binary (HTTP "@ + reply.status_text@ + ")"@)
                } else if sha256_hex(reply.body@) != self.expected@ {
                    r.failed(
                        "Checksum mismatch! expected="@ + self.expected@ + " actual="@ + sha256_hex(
                            reply.body@,
                        ),
                    )
                } else {
                    &&& r matches UpdateStep::Next(plan)
                    &&& plan.binary@ == reply.body@
                    &&& plan.old_hash@ == self.old_hash@
                    &&& plan.new_hash@ == self.expected@
                    &&& plan.verified()
                    &&& shows(plan.new_hash@)
                    &&& plan.restart_service == self.restart_service
                },
                Err(e) => r.failed(e@),
            },
    {
        let reply = match reply {
            Ok(reply) => reply,
            Err(e) => return UpdateStep::Ended(Err(e)),
        };
        if !(200 <= reply.status && reply.status < 300) {
            return UpdateStep::Ended(
                Err(cat3("Failed to download binary (HTTP ", reply.status_text.as_str(), ")")),
            );
        }
        let actual = sha256_of(&reply.body);
        if !same_text(actual.as_str(), self.expected.as_str()) {
            return UpdateStep::Ended(
                Err(
                    cat4(
                        "Checksum mismatch! expected=",
                        self.expected.as_str(),
                        " actual=",
                        actual.as_str(),
                    ),
                ),
            );
        }
        proof {
            crate::number::law_hex_is_ascii(crate::encoding::sha256(reply.body@));
        }
        UpdateStep::Next(
            InstallPlan {
                binary: reply.body,
                old_hash: self.old_hash,
                new_hash: actual,
                restart_service: self.restart_service,
            },
        )
    }
}

/// A binary that was written is to be moved over the one in place.
pub struct ReplacePlan {
    pub old_hash: String,
    pub new_hash: String,
    pub restart_service: bool,
}

/// A binary that could not be moved, because the two are on different file
/// systems, is to be copied first.
pub struct CopyPlan {
    pub replace: ReplacePlan,
}

/// A binary that was copied is to be moved over the one in place.
pub struct MovePlan {
    pub replace: ReplacePlan,
}

/// How a binary is moved over another.
pub enum ReplaceStep {
    /// It was moved.
    Replaced(UpdateOutcome),
    /// It is to be copied first.
    Copy(CopyPlan),
}

/// How a check for an update ended.
pub struct UpdateOutcome {
    pub result: UpdateResult,
    /// The command that restarts the service, if it is to be restarted. It ends
    /// the agent: what there is to say of the result is said before it is run.
    pub restart: Option<CommandSpec>,
}

impl UpdateOutcome {
    /// Whether this is what [`Self::without_restart`] gives.
    pub open spec fn without_restart_gives(result: UpdateResult, r: UpdateOutcome) -> bool {
        &&& r.result == result
        &&& r.restart is None
    }

    /// A check that replaced nothing ended with this result.
    pub fn without_restart(result: UpdateResult) -> (r: UpdateOutcome)
        ensures
            Self::without_restart_gives(result, r),
            r.result == result,
            r.restart is None,
    {
        UpdateOutcome { result, restart: None }
    }
}

impl ReplacePlan {
    /// Whether the binary was replaced as the plan says.
    pub open spec fn replaced(self, r: UpdateOutcome) -> bool {
        &&& r.result matches UpdateResult::Updated { old_hash, new_hash }
        &&& old_hash@ == self.old_hash@
        &&& new_hash@ == self.new_hash@
        &&& match r.restart {
            Some(command) => {
                &&& self.restart_service
                &&& command.calls("systemctl"@, seq!["restart"@, "nobase"@])
                &&& command.env is None
            },
            None => !self.restart_service,
        }
    }

    fn done(self) -> (r: UpdateOutcome)
        ensures
            self.replaced(r),
    {
        let restart = if self.restart_service {
            let args = vec!["restart", "nobase"];
            assert(words_of(args@) =~= seq!["restart"@, "nobase"@]);
            Some(CommandSpec::new("systemctl", &args))
        } else {
            None
        };
        UpdateOutcome {
            result: UpdateResult::Updated { old_hash: self.old_hash, new_hash: self.new_hash },
            restart,
        }
    }

    /// Whether this is what [`Self::action`] gives.
    pub open spec fn action_gives(self, r: FileAction) -> bool {
        &&& r.moves(TMP_PATH@, BINARY_PATH@)
    }

    /// What is to be done.
    pub fn action(&self) -> (r: FileAction)
        ensures
            self.action_gives(r),
            r.moves(TMP_PATH@, BINARY_PATH@),
    {
        FileAction::Rename {
            from: String::from_str(TMP_PATH),
            to: String::from_str(BINARY_PATH),
        }
    }

    /// Whether this is what [`Self::on_renamed`] gives.
    pub open spec fn on_renamed_gives(self, renamed: bool, r: ReplaceStep) -> bool {
        &&& if renamed {
            r matches ReplaceStep::Replaced(done) && self.replaced(done)
        } else {
            r matches ReplaceStep::Copy(plan) && plan.replace == self
        }
    }

    /// What follows when the binary was moved or not.
    pub fn on_renamed(self, renamed: bool) -> (r: ReplaceStep)
        ensures
            self.on_renamed_gives(renamed, r),
            if renamed {
                r matches ReplaceStep::Replaced(done) && self.replaced(done)
            } else {
                r matches ReplaceStep::Copy(plan) && plan.replace == self
            },
    {
        if renamed {
            ReplaceStep::Replaced(self.done())
        } else {
            ReplaceStep::Copy(CopyPlan { replace: self })
        }
    }
}

impl CopyPlan {
    /// Whether this is what [`Self::action`] gives.
    pub open spec fn action_gives(self, r: FileAction) -> bool {
        &&& r.copies(TMP_PATH@, STAGED_PATH@, BINARY_MODE)
    }

    /// What is to be done.
    pub fn action(&self) -> (r: FileAction)
        ensures
            self.action_gives(r),
            r.copies(TMP_PATH@, STAGED_PATH@, BINARY_MODE),
    {
        FileAction::Copy {
            from: String::from_str(TMP_PATH),
            to: String::from_str(STAGED_PATH),
            mode: BINARY_MODE,
        }
    }

    /// Whether this is what [`Self::on_copied`] gives.
    pub open spec fn on_copied_gives(
        self,
        copied: Result<(), String>,
        r: Result<MovePlan, String>,
    ) -> bool {
        &&& match copied {
            Ok(()) => r matches Ok(plan) && plan.replace == self.replace,
            Err(e) => r matches Err(why) && why@ == e@,
        }
    }

    /// What follows when the binary was copied and given its mode, or could not
    /// be.
    pub fn on_copied(self, copied: Result<(), String>) -> (r: Result<MovePlan, String>)
        ensures
            self.on_copied_gives(copied, r),
            match copied {
                Ok(()) => r matches Ok(plan) && plan.replace == self.replace,
                Err(e) => r matches Err(why) && why@ == e@,
            },
    {
        match copied {
            Ok(()) => Ok(MovePlan { replace: self.replace }),
            Err(e) => Err(e),
        }
    }
}

impl MovePlan {
    /// Whether this is what [`Self::action`] gives.
    pub open spec fn action_gives(self, r: FileAction) -> bool {
        &&& r.moves(STAGED_PATH@, BINARY_PATH@)
    }

    /// What is to be done.
    pub fn action(&self) -> (r: FileAction)
        ensures
            self.action_gives(r),
            r.moves(STAGED_PATH@, BINARY_PATH@),
    {
        FileAction::Rename {
            from: String::from_str(STAGED_PATH),
            to: String::from_str(BINARY_PATH),
        }
    }

    /// Whether this is what [`Self::on_moved`] gives.
    pub open spec fn on_moved_gives(
        self,
        moved: Result<(), String>,
        r: Result<UpdateOutcome, String>,
    ) -> bool {
        &&& match moved {
            Ok(()) => r matches Ok(done) && self.replace.replaced(done),
            Err(e) => r matches Err(why) && why@ == e@,
        }
    }

    /// What follows when the binary was moved, or could not be.
    pub fn on_moved(self, moved: Result<(), String>) -> (r: Result<UpdateOutcome, String>)
        ensures
            self.on_moved_gives(moved, r),
            match moved {
                Ok(()) => r matches Ok(done) && self.replace.replaced(done),
                Err(e) => r matches Err(why) && why@ == e@,
            },
    {
        match moved {
            Ok(()) => Ok(self.replace.done()),
            Err(e) => Err(e),
        }
    }
}

impl InstallPlan {
    /// Whether this is what [`Self::action`] gives.
    pub open spec fn action_gives(self, r: FileAction) -> bool {
        &&& r.writes(TMP_PATH@, Some(BINARY_MODE))
    }

    /// What is to be done.
    pub fn action(&self) -> (r: FileAction)
        ensures
            self.action_gives(r),
            r.writes(TMP_PATH@, Some(BINARY_MODE)),
    {
        FileAction::Write { path: String::from_str(TMP_PATH), mode: Some(BINARY_MODE) }
    }

    /// Whether this is what [`Self::on_written`] gives.
    pub open spec fn on_written_gives(
        self,
        written: Result<(), String>,
        r: Result<ReplacePlan, String>,
    ) -> bool {
        &&& match written {
            Ok(()) => {
                &&& r matches Ok(plan)
                &&& plan.old_hash@ == self.old_hash@
                &&& plan.new_hash@ == self.new_hash@
                &&& plan.restart_service == self.restart_service
            },
            Err(e) => r matches Err(why) && why@ == e@,
        }
    }

    /// What follows when the binary was written, with its mode, or could not be.
    pub fn on_written(self, written: Result<(), String>) -> (r: Result<ReplacePlan, String>)
        ensures
            self.on_written_gives(written, r),
            match written {
                Ok(()) => {
                    &&& r matches Ok(plan)
                    &&& plan.old_hash@ == self.old_hash@
                    &&& plan.new_hash@ == self.new_hash@
                    &&& plan.restart_service == self.restart_service
                },
                Err(e) => r matches Err(why) && why@ == e@,
            },
    {
        match written {
            Ok(()) => Ok(
                ReplacePlan {
                    old_hash: self.old_hash,
                    new_hash: self.new_hash,
                    restart_service: self.restart_service,
                },
            ),
            Err(e) => Err(e),
        }
    }
}

// ---------------------------------------------------------------------------
// Laws
// ---------------------------------------------------------------------------

/// The actions of an installation, with how each ended.
pub struct Installation {
    pub written: bool,
    pub renamed: bool,
    pub copied: bool,
    pub moved: bool,
}

impl Installation {
    /// Whether the installation succeeds: the plans end in an outcome then, and in
    /// an error else.
    pub open spec fn succeeds(self) -> bool {
        self.written && (self.renamed || (self.copied && self.moved))
    }

    /// Whether the files went through these states, from the first, as the actions
    /// of the plans were done one after the other until the installation ended,
    /// and stayed as they were from then on.
    pub open spec fn takes(
        self,
        binary: Seq<u8>,
        actions: (FileAction, FileAction, FileAction, FileAction),
        files: Seq<Map<Seq<char>, Seq<u8>>>,
    ) -> bool {
        &&& files.len() == 5
        &&& actions.0.writes(TMP_PATH@, Some(BINARY_MODE))
        &&& actions.1.moves(TMP_PATH@, BINARY_PATH@)
        &&& actions.2.copies(TMP_PATH@, STAGED_PATH@, BINARY_MODE)
        &&& actions.3.moves(STAGED_PATH@, BINARY_PATH@)
        &&& acted(actions.0, binary, files[0], files[1], self.written)
        &&& if self.written {
            acted(actions.1, binary, files[1], files[2], self.renamed)
        } else {
            files[2] == files[1]
        }
        &&& if self.written && !self.renamed {
            acted(actions.2, binary, files[2], files[3], self.copied)
        } else {
            files[3] == files[2]
        }
        &&& if self.written && !self.renamed && self.copied {
            acted(actions.3, binary, files[3], files[4], self.moved)
        } else {
            files[4] == files[3]
        }
    }
}

/// An installation replaces the binary by the new one as a whole, or leaves it as
/// it was: whatever fails, and wherever, the binary in place is never a part of
/// one.
pub proof fn law_failed_update_leaves_the_binary(
    install: Installation,
    binary: Seq<u8>,
    actions: (FileAction, FileAction, FileAction, FileAction),
    files: Seq<Map<Seq<char>, Seq<u8>>>,
)
    requires
        install.takes(binary, actions, files),
    ensures
        install.succeeds() ==> held_at(files[4], BINARY_PATH@) == Some(binary),
        !install.succeeds() ==> held_at(files[4], BINARY_PATH@) == held_at(files[0], BINARY_PATH@),
        forall|i: int|
            0 <= i < 5 ==> held_at(#[trigger] files[i], BINARY_PATH@) == held_at(
                files[0],
                BINARY_PATH@,
            ) || held_at(files[i], BINARY_PATH@) == Some(binary),
{
    reveal_strlit("/usr/local/bin/nobase");
    reveal_strlit("/tmp/nobase-update");
    reveal_strlit("/usr/local/bin/.nobase-update");
    assert(TMP_PATH@.len() != BINARY_PATH@.len() && STAGED_PATH@.len() != BINARY_PATH@.len());
    assert(TMP_PATH@.len() != STAGED_PATH@.len());
    assert(held_at(files[1], BINARY_PATH@) == held_at(files[0], BINARY_PATH@));
    assert(held_at(files[3], TMP_PATH@) == held_at(files[2], TMP_PATH@) || install.renamed
        || !install.written);
    assert(held_at(files[3], BINARY_PATH@) == held_at(files[2], BINARY_PATH@));
}

/// A binary that was installed is found to be the latest at the next check, if
/// the backend tells the same checksum then.
pub proof fn law_installed_binary_is_up_to_date(
    install: InstallPlan,
    binary: Vec<u8>,
    next: CurrentPlan,
)
    requires
        install.verified(),
        binary@ == install.binary@,
        next.expected@ == install.new_hash@,
    ensures
        next.has_latest(Some(binary)),
{
}

} // verus!
