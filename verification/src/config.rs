//! The agent's configuration: its parts, their defaults, and when it is valid.

use crate::paths::{extended, with_extension};
use crate::split::{pieces, split, Cut};
use crate::storage::{acted, held_at, FileAction};
use crate::text::{cat2, chars_of, opens_with, same_text, starts_with, texts, trim_end_char};
use crate::text::without_trailing;
use vstd::prelude::*;
use vstd::string::StringExecFns;

verus! {

/// Agent configuration.
#[derive(Debug, Clone)]
pub struct AgentConfig {
    pub connection: ConnectionConfig,
    pub heartbeat: HeartbeatConfig,
    pub metrics: MetricsConfig,
    pub security: SecurityConfig,
    pub logging: LoggingConfig,
}

#[derive(Debug, Clone)]
pub struct ConnectionConfig {
    pub gateway_url: String,
    pub api_key: String,
    pub registration_token: String,
    pub server_id: String,
    /// Backend HTTP URL for self-updates.
    pub backend_url: String,
}

#[derive(Debug, Clone)]
pub struct HeartbeatConfig {
    pub interval_secs: u64,
    pub reconnect_max_delay_secs: u64,
}

#[derive(Debug, Clone)]
pub struct MetricsConfig {
    /// How often to sample system metrics.
    pub collection_interval_secs: u64,
    /// How often to push a batch of unsent metrics to the gateway.
    pub push_interval_secs: u64,
    pub include_docker: bool,
    pub include_gpu: bool,
    /// How long to retain buffered metrics on disk, in hours.
    pub buffer_retention_hours: u64,
    /// Path to the local SQLite buffer database.
    pub buffer_path: String,
    /// Maximum data points per backfill message on reconnect.
    pub backfill_chunk_size: u64,
}

#[derive(Debug, Clone)]
pub struct SecurityConfig {
    pub allowed_commands: Vec<String>,
    pub allowed_paths: Vec<String>,
    pub max_file_size_mb: u64,
}

#[derive(Debug, Clone)]
pub struct LoggingConfig {
    pub level: String,
    /// Output format: "text" or "json".
    pub format: String,
    pub file: Option<String>,
    pub max_size_mb: u64,
    pub max_files: u32,
}

// ---------------------------------------------------------------------------
// Defaults
// ---------------------------------------------------------------------------

pub fn default_heartbeat_interval() -> (secs: u64)
    ensures
        secs == 30,
{
    30
}

pub fn default_reconnect_max_delay() -> (secs: u64)
    ensures
        secs == 300,
{
    300
}

pub fn default_collection_interval() -> (secs: u64)
    ensures
        secs == 1,
{
    1
}

pub fn default_metrics_interval() -> (secs: u64)
    ensures
        secs == 5,
{
    5
}

pub fn default_true() -> (yes: bool)
    ensures
        yes,
{
    true
}

pub fn default_buffer_retention() -> (hours: u64)
    ensures
        hours == 24,
{
    24
}

pub fn default_buffer_path() -> (path: String)
    ensures
        path@ == "/var/lib/nobase/metrics.db"@,
{
    String::from_str("/var/lib/nobase/metrics.db")
}

pub fn default_backfill_chunk() -> (size: u64)
    ensures
        size == 300,
{
    300
}

pub fn default_max_file_size() -> (mb: u64)
    ensures
        mb == 100,
{
    100
}

pub fn default_log_level() -> (level: String)
    ensures
        level@ == "info"@,
{
    String::from_str("info")
}

pub fn default_log_format() -> (format: String)
    ensures
        format@ == "text"@,
{
    String::from_str("text")
}

pub fn default_log_max_size() -> (mb: u64)
    ensures
        mb == 50,
{
    50
}

pub fn default_log_max_files() -> (files: u32)
    ensures
        files == 3,
{
    3
}

impl HeartbeatConfig {
    /// Whether these are the settings where the file says nothing of them.
    pub open spec fn is_default(self) -> bool {
        &&& self.interval_secs == 30
        &&& self.reconnect_max_delay_secs == 300
    }
}

impl Default for HeartbeatConfig {
    fn default() -> (config: Self)
        ensures
            config.is_default(),
            config.interval_secs == 30,
            config.reconnect_max_delay_secs == 300,
    {
        HeartbeatConfig {
            interval_secs: default_heartbeat_interval(),
            reconnect_max_delay_secs: default_reconnect_max_delay(),
        }
    }
}

impl MetricsConfig {
    /// Whether these are the settings where the file says nothing of them.
    pub open spec fn is_default(self) -> bool {
        &&& self.collection_interval_secs == 1
        &&& self.push_interval_secs == 5
        &&& self.include_docker
        &&& self.include_gpu
        &&& self.buffer_retention_hours == 24
        &&& self.buffer_path@ == "/var/lib/nobase/metrics.db"@
        &&& self.backfill_chunk_size == 300
    }
}

impl Default for MetricsConfig {
    fn default() -> (config: Self)
        ensures
            config.is_default(),
            config.collection_interval_secs == 1,
            config.push_interval_secs == 5,
            config.include_docker,
            config.include_gpu,
            config.buffer_retention_hours == 24,
            config.buffer_path@ == "/var/lib/nobase/metrics.db"@,
            config.backfill_chunk_size == 300,
    {
        MetricsConfig {
            collection_interval_secs: default_collection_interval(),
            push_interval_secs: default_metrics_interval(),
            include_docker: default_true(),
            include_gpu: default_true(),
            buffer_retention_hours: default_buffer_retention(),
            buffer_path: default_buffer_path(),
            backfill_chunk_size: default_backfill_chunk(),
        }
    }
}

impl SecurityConfig {
    /// Whether these are the settings where the file says nothing of them.
    pub open spec fn is_default(self) -> bool {
        &&& self.allowed_commands@.len() == 0
        &&& self.allowed_paths@.len() == 0
        &&& self.max_file_size_mb == 100
    }
}

impl Default for SecurityConfig {
    fn default() -> (config: Self)
        ensures
            config.is_default(),
            config.allowed_commands@.len() == 0,
            config.allowed_paths@.len() == 0,
            config.max_file_size_mb == 100,
    {
        SecurityConfig {
            allowed_commands: Vec::new(),
            allowed_paths: Vec::new(),
            max_file_size_mb: default_max_file_size(),
        }
    }
}

impl LoggingConfig {
    /// Whether these are the settings where the file says nothing of them.
    pub open spec fn is_default(self) -> bool {
        &&& self.level@ == "info"@
        &&& self.format@ == "text"@
        &&& self.file is None
        &&& self.max_size_mb == 50
        &&& self.max_files == 3
    }
}

impl Default for LoggingConfig {
    fn default() -> (config: Self)
        ensures
            config.is_default(),
            config.level@ == "info"@,
            config.format@ == "text"@,
            config.file is None,
            config.max_size_mb == 50,
            config.max_files == 3,
    {
        LoggingConfig {
            level: default_log_level(),
            format: default_log_format(),
            file: None,
            max_size_mb: default_log_max_size(),
            max_files: default_log_max_files(),
        }
    }
}

// ---------------------------------------------------------------------------
// What the security settings permit
// ---------------------------------------------------------------------------

/// How many bytes a megabyte of the settings has.
pub const BYTES_PER_MB: u64 = 1_048_576;

/// Whether the path is the directory or lies below it, by its text alone.
pub open spec fn lies_at_or_below(path: Seq<char>, directory: Seq<char>) -> bool {
    &&& directory.len() > 0
    &&& opens_with(path + "/"@, without_trailing(directory, '/') + "/"@)
}

/// Whether one of the parts of the path goes up to the parent directory.
pub open spec fn goes_up(path: Seq<char>) -> bool {
    pieces(path, Cut::At('/'), None).contains(".."@)
}

impl SecurityConfig {
    /// Whether the settings permit a command: an empty list permits all, any
    /// other list the commands that stand in it, word for word.
    pub open spec fn permits_command(self, command: Seq<char>) -> bool {
        self.allowed_commands@.len() == 0 || texts(self.allowed_commands@).contains(command)
    }

    /// Whether the settings permit a path: an empty list permits all, any other
    /// list its directories and what lies below them. A path that goes up
    /// somewhere is permitted by no list but the empty one.
    pub open spec fn permits_path(self, path: Seq<char>) -> bool {
        self.allowed_paths@.len() == 0 || {
            &&& !goes_up(path)
            &&& exists|i: int|
                0 <= i < self.allowed_paths@.len() && lies_at_or_below(
                    path,
                    (#[trigger] self.allowed_paths@[i])@,
                )
        }
    }

    /// The size in bytes of the largest file that is read or written whole.
    pub open spec fn most_bytes(self) -> u64 {
        if self.max_file_size_mb * BYTES_PER_MB > u64::MAX {
            u64::MAX
        } else {
            (self.max_file_size_mb * BYTES_PER_MB) as u64
        }
    }

    /// Whether the settings permit a command.
    pub fn allows_command(&self, command: &str) -> (yes: bool)
        ensures
            yes == self.permits_command(command@),
    {
        if self.allowed_commands.len() == 0 {
            return true;
        }
        holds_text(&self.allowed_commands, command)
    }

    /// Whether the settings permit a path.
    pub fn allows_path(&self, path: &str) -> (yes: bool)
        ensures
            yes == self.permits_path(path@),
    {
        let n = self.allowed_paths.len();
        if n == 0 {
            return true;
        }
        let parts = split(path, Cut::At('/'), None);
        if holds_text(&parts, "..") {
            return false;
        }
        let closed = cat2(path, "/");
        let mut i: usize = 0;
        while i < n
            invariant
                n == self.allowed_paths@.len(),
                i <= n,
                closed@ == path@ + "/"@,
                forall|j: int|
                    0 <= j < i ==> !lies_at_or_below(path@, (#[trigger] self.allowed_paths@[j])@),
                !goes_up(path@),
            decreases n - i,
        {
            let directory = self.allowed_paths[i].as_str();
            if !is_empty(directory) {
                let base = trim_end_char(directory, '/');
                let base = cat2(base.as_str(), "/");
                if starts_with(closed.as_str(), base.as_str()) {
                    assert(lies_at_or_below(path@, self.allowed_paths@[i as int]@));
                    return true;
                }
            }
            i += 1;
        }
        false
    }

    /// The size in bytes of the largest file that is read or written whole.
    pub fn max_file_bytes(&self) -> (bytes: u64)
        ensures
            bytes == self.most_bytes(),
    {
        match self.max_file_size_mb.checked_mul(BYTES_PER_MB) {
            Some(bytes) => bytes,
            None => u64::MAX,
        }
    }
}

/// Whether the text is one of the list.
fn holds_text(list: &Vec<String>, text: &str) -> (yes: bool)
    ensures
        yes == texts(list@).contains(text@),
{
    let n = list.len();
    let mut i: usize = 0;
    while i < n
        invariant
            n == list@.len(),
            i <= n,
            forall|j: int| 0 <= j < i ==> #[trigger] texts(list@)[j] != text@,
        decreases n - i,
    {
        if same_text(list[i].as_str(), text) {
            assert(texts(list@)[i as int] == text@);
            return true;
        }
        i += 1;
    }
    false
}

/// Settings that say nothing restrict no command and no path.
pub proof fn law_empty_lists_permit_everything(
    security: SecurityConfig,
    command: Seq<char>,
    path: Seq<char>,
)
    requires
        security.allowed_commands@.len() == 0,
        security.allowed_paths@.len() == 0,
    ensures
        security.permits_command(command),
        security.permits_path(path),
{
}

// ---------------------------------------------------------------------------
// Loading and saving
// ---------------------------------------------------------------------------

/// What stands at the path of the configuration.
pub enum ConfigFile {
    /// Nothing.
    Missing,
    /// A file that cannot be read, or that holds no configuration, and why.
    Unusable(String),
    /// A configuration, with the defaults where it is silent.
    Parsed(AgentConfig),
}

/// How a configuration is saved: it is written to a file beside its own, which
/// then takes the place of its own in one step.
pub struct SavePlan {
    pub temporary: String,
    pub path: String,
}

/// A configuration that was written beside its own file is to take the place of
/// that.
pub struct SaveMove {
    pub temporary: String,
    pub path: String,
}

impl SavePlan {
    /// Whether this is what [`Self::action`] gives.
    pub open spec fn action_gives(self, r: FileAction) -> bool {
        &&& r.writes(self.temporary@, None)
    }

    /// What is to be done first, with the text of the configuration at hand.
    pub fn action(&self) -> (r: FileAction)
        ensures
            self.action_gives(r),
            r.writes(self.temporary@, None),
    {
        FileAction::Write { path: self.temporary.clone(), mode: None }
    }

    /// Whether this is what [`Self::on_written`] gives.
    pub open spec fn on_written_gives(
        self,
        written: Result<(), String>,
        r: Result<SaveMove, String>,
    ) -> bool {
        &&& match written {
            Ok(()) => {
                &&& r matches Ok(plan)
                &&& plan.temporary@ == self.temporary@
                &&& plan.path@ == self.path@
            },
            Err(e) => r matches Err(why) && why@ == e@,
        }
    }

    /// What follows when the text was written, or could not be.
    pub fn on_written(&self, written: Result<(), String>) -> (r: Result<SaveMove, String>)
        ensures
            self.on_written_gives(written, r),
            match written {
                Ok(()) => {
                    &&& r matches Ok(plan)
                    &&& plan.temporary@ == self.temporary@
                    &&& plan.path@ == self.path@
                },
                Err(e) => r matches Err(why) && why@ == e@,
            },
    {
        match written {
            Ok(()) => Ok(SaveMove { temporary: self.temporary.clone(), path: self.path.clone() }),
            Err(e) => Err(e),
        }
    }
}

impl SaveMove {
    /// Whether this is what [`Self::action`] gives.
    pub open spec fn action_gives(self, r: FileAction) -> bool {
        &&& r.moves(self.temporary@, self.path@)
    }

    /// What is to be done then.
    pub fn action(&self) -> (r: FileAction)
        ensures
            self.action_gives(r),
            r.moves(self.temporary@, self.path@),
    {
        FileAction::Rename { from: self.temporary.clone(), to: self.path.clone() }
    }

    /// Whether this is what [`Self::on_moved`] gives.
    pub open spec fn on_moved_gives(
        self,
        moved: Result<(), String>,
        r: Result<(), String>,
    ) -> bool {
        &&& match moved {
            Ok(()) => r is Ok,
            Err(e) => r matches Err(why) && why@ == e@,
        }
    }

    /// How the save ended when the file was moved, or could not be.
    pub fn on_moved(self, moved: Result<(), String>) -> (r: Result<(), String>)
        ensures
            self.on_moved_gives(moved, r),
            match moved {
                Ok(()) => r is Ok,
                Err(e) => r matches Err(why) && why@ == e@,
            },
    {
        moved
    }
}

/// A save, with how each of its actions ended; the second follows only where the
/// first succeeded.
pub struct Saving {
    pub written: bool,
    pub moved: bool,
}

impl Saving {
    /// Whether the save succeeds.
    pub open spec fn succeeds(self) -> bool {
        self.written && self.moved
    }

    /// Whether the files went through these states, from the first, as the actions
    /// of the plan were done one after the other until the save ended, and stayed
    /// as they were from then on.
    pub open spec fn takes(
        self,
        plan: SavePlan,
        text: Seq<u8>,
        actions: (FileAction, FileAction),
        files: Seq<Map<Seq<char>, Seq<u8>>>,
    ) -> bool {
        &&& files.len() == 3
        &&& actions.0.writes(plan.temporary@, None)
        &&& actions.1.moves(plan.temporary@, plan.path@)
        &&& acted(actions.0, text, files[0], files[1], self.written)
        &&& if self.written {
            acted(actions.1, text, files[1], files[2], self.moved)
        } else {
            files[2] == files[1]
        }
    }
}

/// A save is atomic: at every state the file of the configuration holds what it
/// held before or the whole new text. A save that succeeds leaves it with the new
/// text and no temporary file, a save that fails leaves it as it was, and no other
/// file is touched.
pub proof fn law_save_is_atomic(
    saving: Saving,
    plan: SavePlan,
    text: Seq<u8>,
    actions: (FileAction, FileAction),
    files: Seq<Map<Seq<char>, Seq<u8>>>,
)
    requires
        saving.takes(plan, text, actions, files),
        plan.temporary@ != plan.path@,
    ensures
        forall|i: int|
            0 <= i < 3 ==> held_at(#[trigger] files[i], plan.path@) == held_at(
                files[0],
                plan.path@,
            ) || held_at(files[i], plan.path@) == Some(text),
        saving.succeeds() ==> held_at(files[2], plan.path@) == Some(text) && held_at(
            files[2],
            plan.temporary@,
        ) is None,
        !saving.succeeds() ==> held_at(files[2], plan.path@) == held_at(files[0], plan.path@),
        forall|p: Seq<char>, i: int|
            0 <= i < 3 && p != plan.path@ && p != plan.temporary@ ==> #[trigger] held_at(
                files[i],
                p,
            ) == held_at(files[0], p),
{
    assert(held_at(files[1], plan.path@) == held_at(files[0], plan.path@));
    assert forall|p: Seq<char>, i: int|
        0 <= i < 3 && p != plan.path@ && p != plan.temporary@ implies #[trigger] held_at(
        files[i],
        p,
    ) == held_at(files[0], p) by {
        assert(held_at(files[1], p) == held_at(files[0], p));
        assert(held_at(files[2], p) == held_at(files[1], p));
    }
}

fn is_empty(text: &str) -> (yes: bool)
    ensures
        yes == (text@.len() == 0),
{
    chars_of(text).len() == 0
}

impl AgentConfig {
    /// Why the configuration is not valid, if it is not: it has to name the
    /// gateway and hold a key or a token.
    pub open spec fn fault(self) -> Option<Seq<char>> {
        if self.connection.gateway_url@.len() == 0 {
            Some("connection.gateway_url is required"@)
        } else if self.connection.api_key@.len() == 0
            && self.connection.registration_token@.len() == 0 {
            Some("Either connection.api_key or connection.registration_token is required"@)
        } else {
            None
        }
    }

    /// Whether there is no API key yet.
    pub open spec fn unregistered(self) -> bool {
        self.connection.api_key@.len() == 0
    }

    /// Whether this is what [`Self::load`] gives.
    pub open spec fn load_gives(
        path: &str,
        file: ConfigFile,
        r: Result<AgentConfig, String>,
    ) -> bool {
        &&& match file {
            ConfigFile::Missing => r matches Err(e) && e@ == "Config file not found: "@ + path@,
            ConfigFile::Unusable(why) => r matches Err(e) && e@ == why@,
            ConfigFile::Parsed(config) => match config.fault() {
                Some(fault) => r matches Err(e) && e@ == fault,
                None => r matches Ok(c) && c == config,
            },
        }
    }

    /// Load the configuration at a path, given what stands there.
    pub fn load(path: &str, file: ConfigFile) -> (r: Result<AgentConfig, String>)
        ensures
            Self::load_gives(path, file, r),
            match file {
                ConfigFile::Missing => r matches Err(e) && e@ == "Config file not found: "@ + path@,
                ConfigFile::Unusable(why) => r matches Err(e) && e@ == why@,
                ConfigFile::Parsed(config) => match config.fault() {
                    Some(fault) => r matches Err(e) && e@ == fault,
                    None => r matches Ok(c) && c == config,
                },
            },
    {
        let config = match file {
            ConfigFile::Missing => return Err(cat2("Config file not found: ", path)),
            ConfigFile::Unusable(why) => return Err(why),
            ConfigFile::Parsed(config) => config,
        };
        if is_empty(config.connection.gateway_url.as_str()) {
            return Err(String::from_str("connection.gateway_url is required"));
        }
        if is_empty(config.connection.api_key.as_str()) && is_empty(
            config.connection.registration_token.as_str(),
        ) {
            return Err(
                String::from_str(
                    "Either connection.api_key or connection.registration_token is required",
                ),
            );
        }
        Ok(config)
    }

    /// Check if this is a first-time registration (no API key yet).
    pub fn needs_registration(&self) -> (yes: bool)
        ensures
            yes == self.unregistered(),
    {
        is_empty(self.connection.api_key.as_str())
    }

    /// Whether this is what [`Self::save`] gives.
    pub open spec fn save_gives(self, path: &str, plan: SavePlan) -> bool {
        &&& plan.temporary@ == extended(path@, "toml.tmp"@)
        &&& plan.path@ == path@
    }

    /// How to save the configuration at a path.
    pub fn save(&self, path: &str) -> (plan: SavePlan)
        ensures
            self.save_gives(path, plan),
            plan.temporary@ == extended(path@, "toml.tmp"@),
            plan.path@ == path@,
    {
        proof {
            reveal_strlit("toml.tmp");
        }
        SavePlan {
            temporary: with_extension(path, "toml.tmp"),
            path: String::from_str(path),
        }
    }

    /// Update connection credentials after successful registration. The one-time
    /// registration token is cleared.
    pub fn set_credentials(&mut self, server_id: String, api_key: String)
        ensures
            credentials_set(*old(self), *final(self), server_id@, api_key@),
    {
        self.connection.server_id = server_id;
        self.connection.api_key = api_key;
        self.connection.registration_token = String::new();
    }

    /// Replace the API key.
    pub fn set_api_key(&mut self, api_key: String)
        ensures
            key_set(*old(self), *final(self), api_key@),
    {
        self.connection.api_key = api_key;
    }
}

/// Whether `after` is `before` with these credentials and without a token.
pub open spec fn credentials_set(
    before: AgentConfig,
    after: AgentConfig,
    server_id: Seq<char>,
    api_key: Seq<char>,
) -> bool {
    &&& after.connection.server_id@ == server_id
    &&& after.connection.api_key@ == api_key
    &&& after.connection.registration_token@.len() == 0
    &&& after.connection.gateway_url == before.connection.gateway_url
    &&& after.connection.backend_url == before.connection.backend_url
    &&& after.heartbeat == before.heartbeat
    &&& after.metrics == before.metrics
    &&& after.security == before.security
    &&& after.logging == before.logging
}

/// Whether `after` is `before` with this API key.
pub open spec fn key_set(before: AgentConfig, after: AgentConfig, api_key: Seq<char>) -> bool {
    &&& after.connection.api_key@ == api_key
    &&& after.connection.server_id == before.connection.server_id
    &&& after.connection.registration_token == before.connection.registration_token
    &&& after.connection.gateway_url == before.connection.gateway_url
    &&& after.connection.backend_url == before.connection.backend_url
    &&& after.heartbeat == before.heartbeat
    &&& after.metrics == before.metrics
    &&& after.security == before.security
    &&& after.logging == before.logging
}

/// A valid configuration that was given credentials is valid still, holds no
/// token and needs no registration any more.
pub proof fn law_registered_configuration_stays_valid(
    before: AgentConfig,
    after: AgentConfig,
    server_id: Seq<char>,
    api_key: Seq<char>,
)
    requires
        before.fault() is None,
        credentials_set(before, after, server_id, api_key),
        api_key.len() > 0,
    ensures
        after.fault() is None,
        !after.unregistered(),
        after.connection.registration_token@ == Seq::<char>::empty(),
{
    assert(after.connection.registration_token@ =~= Seq::empty());
}

} // verus!
