//! The parameters and results of each method.
//!
//! `F` stands for a floating point number and `V` for a JSON value, which this
//! crate only carries.

use std::collections::HashMap;
use vstd::prelude::*;

verus! {

// ---------------------------------------------------------------------------
// Registration
// ---------------------------------------------------------------------------

#[derive(Debug, Clone)]
pub struct AgentRegisterRequest {
    pub registration_token: String,
    pub hostname: String,
    pub os_type: String,
    pub os_version: String,
    pub agent_version: String,
    pub arch: String,
}

#[derive(Debug, Clone)]
pub struct AgentRegisterResponse {
    pub server_id: String,
    pub api_key: String,
}

// ---------------------------------------------------------------------------
// Reconnection
// ---------------------------------------------------------------------------

#[derive(Debug, Clone)]
pub struct AgentReconnectRequest {
    pub api_key: String,
    pub server_id: String,
    pub hostname: String,
    pub agent_version: String,
}

#[derive(Debug, Clone)]
pub struct AgentReconnectResponse {
    pub ok: bool,
}

// ---------------------------------------------------------------------------
// Command Execution
// ---------------------------------------------------------------------------

#[derive(Debug, Clone)]
pub struct ExecRequest {
    pub command: String,
    pub sudo: Option<bool>,
    pub timeout_ms: Option<u64>,
    pub env: Option<HashMap<String, String>>,
}

#[derive(Debug, Clone)]
pub struct ExecResponse {
    pub stdout: String,
    pub stderr: String,
    pub exit_code: i32,
    pub duration_ms: u64,
}

// ---------------------------------------------------------------------------
// Streaming Command
// ---------------------------------------------------------------------------

#[derive(Debug, Clone)]
pub struct ExecStreamRequest {
    pub command: String,
    pub sudo: Option<bool>,
    pub stream_id: String,
}

// ---------------------------------------------------------------------------
// Interactive Shell
// ---------------------------------------------------------------------------

#[derive(Debug, Clone)]
pub struct ShellOpenRequest {
    pub shell_id: String,
    pub cols: u16,
    pub rows: u16,
    pub env: Option<HashMap<String, String>>,
}

#[derive(Debug, Clone)]
pub struct ShellOpenResponse {
    pub shell_id: String,
    pub ok: bool,
}

#[derive(Debug, Clone)]
pub struct ShellDataRequest {
    pub shell_id: String,
    /// Base64-encoded terminal input.
    pub data: String,
}

#[derive(Debug, Clone)]
pub struct ShellResizeRequest {
    pub shell_id: String,
    pub cols: u16,
    pub rows: u16,
}

#[derive(Debug, Clone)]
pub struct ShellCloseRequest {
    pub shell_id: String,
}

// ---------------------------------------------------------------------------
// File Operations
// ---------------------------------------------------------------------------

#[derive(Debug, Clone)]
pub struct FsListRequest {
    pub path: String,
    pub sudo: Option<bool>,
}

#[derive(Debug, Clone)]
pub struct FsListResponse {
    pub entries: Vec<FsEntry>,
}

#[derive(Debug, Clone)]
pub struct FsEntry {
    pub name: String,
    pub entry_type: FsEntryType,
    pub size: u64,
    pub permissions: String,
    pub modified: String,
    pub owner: String,
    pub group: String,
}

#[derive(Debug, Clone)]
pub enum FsEntryType {
    File,
    Directory,
    Symlink,
}

#[derive(Debug, Clone)]
pub struct FsReadRequest {
    pub path: String,
    pub encoding: Option<FsEncoding>,
    pub sudo: Option<bool>,
}

#[derive(Debug, Clone)]
pub struct FsReadResponse {
    pub content: String,
    pub encoding: FsEncoding,
    pub size: u64,
}

#[derive(Debug, Clone, Copy)]
pub enum FsEncoding {
    Utf8,
    Base64,
}

impl Default for FsEncoding {
    fn default() -> (encoding: Self)
        ensures
            encoding is Utf8,
    {
        FsEncoding::Utf8
    }
}

#[derive(Debug, Clone)]
pub struct FsWriteRequest {
    pub path: String,
    pub content: String,
    pub encoding: Option<FsEncoding>,
    pub sudo: Option<bool>,
    pub mode: Option<String>,
}

#[derive(Debug, Clone)]
pub struct FsStatRequest {
    pub path: String,
    pub sudo: Option<bool>,
}

#[derive(Debug, Clone)]
pub struct FsStatResponse {
    pub entry: FsEntry,
    pub exists: bool,
}

#[derive(Debug, Clone)]
pub struct FsMkdirRequest {
    pub path: String,
    pub recursive: Option<bool>,
    pub sudo: Option<bool>,
}

#[derive(Debug, Clone)]
pub struct FsDeleteRequest {
    pub path: String,
    pub recursive: Option<bool>,
    pub sudo: Option<bool>,
}

#[derive(Debug, Clone)]
pub struct FsRenameRequest {
    pub old_path: String,
    pub new_path: String,
    pub sudo: Option<bool>,
}

#[derive(Debug, Clone)]
pub struct FsSearchRequest {
    pub path: String,
    pub pattern: String,
    pub max_depth: Option<u32>,
}

#[derive(Debug, Clone)]
pub struct FsSearchResponse {
    pub matches: Vec<String>,
}

// ---------------------------------------------------------------------------
// Chunked File Transfer
// ---------------------------------------------------------------------------

#[derive(Debug, Clone)]
pub struct FsUploadStartRequest {
    pub transfer_id: String,
    pub path: String,
    pub total_size: u64,
    pub sudo: Option<bool>,
}

#[derive(Debug, Clone)]
pub struct FsUploadChunkRequest {
    pub transfer_id: String,
    pub offset: u64,
    /// Base64-encoded chunk data (~64KB chunks).
    pub data: String,
}

#[derive(Debug, Clone)]
pub struct FsUploadEndRequest {
    pub transfer_id: String,
    pub checksum_sha256: String,
}

#[derive(Debug, Clone)]
pub struct FsDownloadRequest {
    pub transfer_id: String,
    pub path: String,
    pub sudo: Option<bool>,
}

// ---------------------------------------------------------------------------
// Docker Operations
// ---------------------------------------------------------------------------

#[derive(Debug, Clone)]
pub struct DockerStatsRequest {
    pub container_ids: Vec<String>,
}

#[derive(Debug, Clone)]
pub struct DockerStatsResponse<F> {
    pub containers: Vec<ContainerStats<F>>,
}

#[derive(Debug, Clone)]
pub struct ContainerStats<F> {
    pub id: String,
    pub name: String,
    pub cpu_percent: F,
    pub memory_usage_mb: F,
    pub memory_limit_mb: F,
    pub memory_percent: F,
    pub network_rx_mb: F,
    pub network_tx_mb: F,
    pub block_read_mb: F,
    pub block_write_mb: F,
    pub pids: u32,
}

#[derive(Debug, Clone)]
pub struct DockerInspectRequest {
    pub container_id: String,
}

#[derive(Debug, Clone)]
pub struct DockerLogsRequest {
    pub container_id: String,
    pub stream_id: String,
    pub tail: Option<u32>,
    pub follow: Option<bool>,
}

#[derive(Debug, Clone)]
pub struct DockerListRequest {
    /// If true, include stopped containers. Default: false (running only).
    pub all: bool,
}

#[derive(Debug, Clone)]
pub struct DockerListResponse {
    pub containers: Vec<DockerContainerSummary>,
}

#[derive(Debug, Clone)]
pub struct DockerContainerSummary {
    pub id: String,
    pub name: String,
    pub image: String,
    pub state: String,
    pub status: String,
    pub created: i64,
    pub ports: Vec<DockerPortMapping>,
    pub networks: Vec<String>,
    pub labels: HashMap<String, String>,
}

#[derive(Debug, Clone)]
pub struct DockerPortMapping {
    pub container_port: u16,
    pub host_port: Option<u16>,
    pub protocol: String,
    pub host_ip: Option<String>,
}

// ---------------------------------------------------------------------------
// System Info
// ---------------------------------------------------------------------------

#[derive(Debug, Clone)]
pub struct SystemInfoRequest {}

#[derive(Debug, Clone)]
pub struct SystemInfoResponse {
    pub hostname: String,
    pub os_type: String,
    pub os_version: String,
    pub kernel: String,
    pub arch: String,
    pub uptime_secs: u64,
}

// ---------------------------------------------------------------------------
// Heartbeat
// ---------------------------------------------------------------------------

#[derive(Debug, Clone)]
pub struct HeartbeatRequest {
    pub timestamp: String,
}

#[derive(Debug, Clone)]
pub struct HeartbeatResponse {
    pub ok: bool,
    pub timestamp: String,
}

// ---------------------------------------------------------------------------
// Gateway and Backend messages
// ---------------------------------------------------------------------------

/// Backend to Gateway: execute an RPC on a specific agent.
#[derive(Debug, Clone)]
pub struct GatewayAgentRequest<V> {
    pub server_id: String,
    pub method: String,
    pub params: V,
}

/// Gateway to Backend: agent connection status change.
#[derive(Debug, Clone)]
pub struct AgentStatusNotification {
    pub server_id: String,
    pub status: AgentConnectionStatus,
    pub hostname: Option<String>,
    pub agent_version: Option<String>,
    pub reason: Option<String>,
}

#[derive(Debug, Clone)]
pub enum AgentConnectionStatus {
    Connected,
    Disconnected,
}

/// Gateway to Backend: list connected agents response.
#[derive(Debug, Clone)]
pub struct AgentInfo {
    pub server_id: String,
    pub hostname: String,
    pub agent_version: String,
    pub os_type: String,
    pub connected_at: String,
    pub last_heartbeat: String,
}

/// Gateway to Backend: validate registration token request.
#[derive(Debug, Clone)]
pub struct ValidateTokenRequest {
    pub registration_token: String,
    pub agent_info: AgentRegisterRequest,
}

#[derive(Debug, Clone)]
pub struct ValidateTokenResponse {
    pub valid: bool,
    pub server_id: Option<String>,
    pub api_key: Option<String>,
}

// ---------------------------------------------------------------------------
// API Key Rotation
// ---------------------------------------------------------------------------

/// Backend to Agent (via gateway): rotate the agent's API key.
#[derive(Debug, Clone)]
pub struct RotateKeyRequest {
    pub new_api_key: String,
}

#[derive(Debug, Clone)]
pub struct RotateKeyResponse {
    pub ok: bool,
}

} // verus!
