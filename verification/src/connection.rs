//! The connection to the gateway: how it is opened, what is sent over it, what
//! is done with what comes back, and when it is tried again.

use crate::clock::{is_timestamp, plain_moment, timestamp, timestamp_of, utc_text};
use crate::clock::{utc_now, within_calendar, Moment};
use crate::config::{credentials_set, AgentConfig, SavePlan};
use crate::error_codes;
use crate::methods::{AgentReconnectRequest, AgentRegisterRequest, AgentRegisterResponse};
use crate::methods::HeartbeatRequest;
use crate::metrics::{MetricsBatchPushNotification, MetricsDataPoint, MetricsPayload};
use crate::metrics_buffer::{law_stored_point_is_unsent, runs_one, told_by_clock, BufferError};
use crate::metrics_buffer::{BufferedMetric, MetricsBuffer};
use crate::paths::extended;
use crate::rpc::{RpcMessage, RpcRequest, RpcResponse};
use crate::split::{is_cut, lemma_first_piece, lemma_removed_behind, lemma_removed_keeps_first};
use crate::split::{pieces, remove_all, removed, split, Cut};
use crate::sqlite::{one_added, unsent, Given, Row, INSERT_ROW};
use crate::text::{same_text, stands_at, texts};
use vstd::arithmetic::power2::pow2;
use vstd::prelude::*;
use vstd::string::StringExecFns;

verus! {

/// The exit code of an agent whose credentials the gateway refuses.
pub const EXIT_BAD_CREDENTIALS: i32 = 78;

/// The first delay before a connection is tried again.
pub const FIRST_DELAY_SECS: u64 = 1;

/// How long a connection has to hold for the delays to begin anew.
pub const HEALTHY_NANOS: u64 = 30_000_000_000;

/// After how many samples the buffer is cleaned up.
pub const CLEANUP_TICKS: u64 = 300;

/// The least number of data points that a push may hold.
pub const MIN_PUSH_LIMIT: usize = 5;

/// How long the agent waits after connecting before it sends metrics.
pub const PUSH_SETTLE_SECS: u64 = 2;

/// How long the agent waits after connecting before it looks for an update.
pub const UPDATE_SETTLE_SECS: u64 = 5;

/// How long the agent waits between two backfill messages.
pub const BACKFILL_PAUSE_MS: u64 = 100;

/// How many messages may wait to be sent.
pub const SEND_QUEUE: usize = 256;

// ---------------------------------------------------------------------------
// Opening
// ---------------------------------------------------------------------------

/// The host in the URL of the gateway.
pub open spec fn host_in(url: Seq<char>) -> Seq<char> {
    pieces(removed(removed(url, "wss://"@), "ws://"@), Cut::At('/'), None)[0]
}

/// Whether the text can be the host of a URL: it has no slash and does not end in
/// a colon.
pub open spec fn is_host(host: Seq<char>) -> bool {
    &&& !host.contains('/')
    &&& host.len() > 0 ==> host.last() != ':'
}

/// A URL made of a scheme for WebSockets, a host, with its port or without, and a
/// path gives the host.
pub proof fn law_host_of_a_url(scheme: Seq<char>, host: Seq<char>, path: Seq<char>)
    requires
        scheme == "wss://"@ || scheme == "ws://"@,
        is_host(host),
        path.len() > 0 ==> path[0] == '/',
    ensures
        host_in(scheme + host + path) == host,
{
    reveal_strlit("wss://");
    reveal_strlit("ws://");
    let url = scheme + host + path;
    let rest = removed(path, "wss://"@);
    let end = removed(rest, "ws://"@);
    lemma_removed_keeps_first(path, "wss://"@);
    lemma_removed_keeps_first(rest, "ws://"@);
    lemma_host_stays(host, path, "wss://"@);
    lemma_host_stays(host, rest, "ws://"@);
    let behind = host + path;
    assert(url =~= scheme + behind);
    if scheme == "wss://"@ {
        assert(url.take(6) =~= scheme);
        assert(url.skip(6) =~= behind);
        assert(removed(url, "wss://"@) == host + rest);
    } else {
        assert forall|k: int| 0 <= k < scheme.len() implies !#[trigger] stands_at(
            scheme + behind,
            "wss://"@,
            k,
        ) by {
            if k + 6 <= url.len() {
                let found = url.subrange(k, k + 6);
                assert(found[0] == url[k] && found[1] == url[k + 1] && found[2] == url[k + 2]);
            }
        }
        lemma_removed_behind(scheme, behind, "wss://"@);
        let url = scheme + (host + rest);
        assert(url.take(5) =~= scheme);
        assert(url.skip(5) =~= host + rest);
    }
    assert forall|i: int| 0 <= i < host.len() implies !is_cut(Cut::At('/'), #[trigger] host[i]) by {
        assert(host.contains(host[i]));
    }
    lemma_first_piece(host, end, Cut::At('/'));
}

/// No scheme for WebSockets begins in a host with a path behind it.
proof fn lemma_host_stays(host: Seq<char>, path: Seq<char>, scheme: Seq<char>)
    requires
        scheme == "wss://"@ || scheme == "ws://"@,
        is_host(host),
        path.len() > 0 ==> path[0] == '/',
    ensures
        removed(host + path, scheme) == host + removed(path, scheme),
{
    reveal_strlit("wss://");
    reveal_strlit("ws://");
    let s = host + path;
    let m = scheme.len() as int;
    assert forall|k: int| 0 <= k < host.len() implies !#[trigger] stands_at(s, scheme, k) by {
        if stands_at(s, scheme, k) {
            let found = s.subrange(k, k + m);
            let n = host.len() as int;
            assert(found[m - 2] == '/' && found[m - 1] == '/' && found[m - 3] == ':');
            assert(found[m - 2] == s[k + m - 2] && found[m - 3] == s[k + m - 3]);
            if k + m - 2 < n {
                assert(host[k + m - 2] == '/');
                assert(host.contains(host[k + m - 2]));
            } else if k + m - 2 == n {
                assert(host[n - 1] == ':');
            } else {
                assert(s[n] == '/');
                assert(found[n - k] == s[n]);
            }
        }
    }
    lemma_removed_behind(host, path, scheme);
}

/// Extract host from a URL for the Host header.
pub fn extract_host(url: &str) -> (host: String)
    ensures
        host@ == host_in(url@),
{
    let rest = remove_all(url, "wss://");
    let rest = remove_all(rest.as_str(), "ws://");
    let parts = split(rest.as_str(), Cut::At('/'), None);
    assert(texts(parts@)[0] == parts@[0]@);
    parts[0].clone()
}

/// A header of the request that opens the connection.
pub struct Header {
    pub name: String,
    pub value: String,
}

/// What the headers say.
pub open spec fn header_texts(headers: Seq<Header>) -> Seq<(Seq<char>, Seq<char>)> {
    headers.map_values(|h: Header| (h.name@, h.value@))
}

fn header(name: &str, value: &str) -> (h: Header)
    ensures
        h.name@ == name@,
        h.value@ == value@,
{
    Header { name: String::from_str(name), value: String::from_str(value) }
}

/// Whether this is what [`upgrade_headers`] gives.
pub open spec fn upgrade_headers_gives(url: &str, key: &str, headers: Vec<Header>) -> bool {
    &&& header_texts(headers@) == seq![
        ("Host"@, host_in(url@)),
        ("Connection"@, "Upgrade"@),
        ("Upgrade"@, "websocket"@),
        ("Sec-WebSocket-Version"@, "13"@),
        ("Sec-WebSocket-Key"@, key@),
    ]
}

/// The headers of the request that opens a WebSocket to the gateway, with a key
/// made for it.
pub fn upgrade_headers(url: &str, key: &str) -> (headers: Vec<Header>)
    ensures
        upgrade_headers_gives(url, key, headers),
        header_texts(headers@) == seq![
            ("Host"@, host_in(url@)),
            ("Connection"@, "Upgrade"@),
            ("Upgrade"@, "websocket"@),
            ("Sec-WebSocket-Version"@, "13"@),
            ("Sec-WebSocket-Key"@, key@),
        ],
{
    let host = extract_host(url);
    let headers = vec![
        header("Host", host.as_str()),
        header("Connection", "Upgrade"),
        header("Upgrade", "websocket"),
        header("Sec-WebSocket-Version", "13"),
        header("Sec-WebSocket-Key", key),
    ];
    assert(header_texts(headers@) =~= seq![
        ("Host"@, host_in(url@)),
        ("Connection"@, "Upgrade"@),
        ("Upgrade"@, "websocket"@),
        ("Sec-WebSocket-Version"@, "13"@),
        ("Sec-WebSocket-Key"@, key@),
    ]);
    headers
}

// ---------------------------------------------------------------------------
// Register or reconnect
// ---------------------------------------------------------------------------

/// What the agent tells of itself and its host.
pub struct HostIdentity {
    pub hostname: String,
    pub os_type: String,
    pub os_version: String,
    pub agent_version: String,
    pub arch: String,
}

/// The first request over a connection.
pub enum Handshake {
    Register(RpcRequest<AgentRegisterRequest>),
    Reconnect(RpcRequest<AgentReconnectRequest>),
}

impl Handshake {
    /// The ID of the request.
    pub open spec fn id(self) -> Option<Seq<char>> {
        match self {
            Handshake::Register(request) => crate::paths::text_in(request.id),
            Handshake::Reconnect(request) => crate::paths::text_in(request.id),
        }
    }

    /// Whether this is the request with this ID of an agent so configured: one
    /// without an API key registers with its token, one with a key reconnects.
    pub open spec fn greets(self, config: AgentConfig, host: HostIdentity, id: Seq<char>) -> bool {
        match self {
            Handshake::Register(request) => {
                &&& config.unregistered()
                &&& request.asks(id, "agent.register"@, request.params)
                &&& request.params.registration_token@ == config.connection.registration_token@
                &&& request.params.hostname@ == host.hostname@
                &&& request.params.os_type@ == host.os_type@
                &&& request.params.os_version@ == host.os_version@
                &&& request.params.agent_version@ == host.agent_version@
                &&& request.params.arch@ == host.arch@
            },
            Handshake::Reconnect(request) => {
                &&& !config.unregistered()
                &&& request.asks(id, "agent.reconnect"@, request.params)
                &&& request.params.api_key@ == config.connection.api_key@
                &&& request.params.server_id@ == config.connection.server_id@
                &&& request.params.hostname@ == host.hostname@
                &&& request.params.agent_version@ == host.agent_version@
            },
        }
    }
}

/// Calls `uuid::Uuid::new_v4` and its `to_string`: a random ID of 36 characters.
#[verifier::external_body]
pub(crate) fn random_id() -> (id: String)
    ensures
        id@.len() == 36,
{
    uuid::Uuid::new_v4().to_string()
}

/// The first request over a connection, with this ID.
pub fn first_request(config: &AgentConfig, host: &HostIdentity, id: String) -> (r: Handshake)
    ensures
        r.greets(*config, *host, id@),
{
    if config.needs_registration() {
        Handshake::Register(
            RpcRequest::new(
                id,
                "agent.register",
                AgentRegisterRequest {
                    registration_token: config.connection.registration_token.clone(),
                    hostname: host.hostname.clone(),
                    os_type: host.os_type.clone(),
                    os_version: host.os_version.clone(),
                    agent_version: host.agent_version.clone(),
                    arch: host.arch.clone(),
                },
            ),
        )
    } else {
        Handshake::Reconnect(
            RpcRequest::new(
                id,
                "agent.reconnect",
                AgentReconnectRequest {
                    api_key: config.connection.api_key.clone(),
                    server_id: config.connection.server_id.clone(),
                    hostname: host.hostname.clone(),
                    agent_version: host.agent_version.clone(),
                },
            ),
        )
    }
}

/// The first request over a connection, with a random ID.
pub fn handshake(config: &AgentConfig, host: &HostIdentity) -> (r: Handshake)
    ensures
        r.id() matches Some(id) && id.len() == 36 && r.greets(*config, *host, id),
{
    let id = random_id();
    first_request(config, host, id)
}

/// An agent that was given credentials reconnects with them on every later
/// connection.
pub proof fn law_registered_agent_reconnects(
    before: AgentConfig,
    after: AgentConfig,
    server_id: Seq<char>,
    api_key: Seq<char>,
    host: HostIdentity,
    id: Seq<char>,
    r: Handshake,
)
    requires
        credentials_set(before, after, server_id, api_key),
        api_key.len() > 0,
        r.greets(after, host, id),
    ensures
        r matches Handshake::Reconnect(request) && request.params.api_key@ == api_key
            && request.params.server_id@ == server_id,
{
}

// ---------------------------------------------------------------------------
// Responses of the gateway
// ---------------------------------------------------------------------------

/// What follows a response of the gateway.
pub enum ResponseAction {
    /// Save the configuration, which has changed.
    Persist(SavePlan),
    /// End the agent with this exit code.
    Exit(i32),
    /// Nothing.
    Ignore,
}

/// Whether an error says that the gateway refuses the agent's credentials.
pub open spec fn auth_class(code: i32) -> bool {
    code == error_codes::AUTH_FAILED || code == error_codes::REGISTRATION_FAILED
}

/// Whether this is what [`handle_response`] gives.
pub open spec fn handle_response_gives<V>(
    response: RpcResponse<V>,
    handshake_id: &str,
    registration: Option<AgentRegisterResponse>,
    before: AgentConfig,
    after: AgentConfig,
    config_path: &str,
    action: ResponseAction,
) -> bool {
    &&& match response.error {
        Some(error) => {
            &&& after == before
            &&& if response.id@ == handshake_id@ && auth_class(error.code) {
                action matches ResponseAction::Exit(code) && code == EXIT_BAD_CREDENTIALS
            } else {
                action is Ignore
            }
        },
        None => match registration {
            Some(given) if response.result is Some => {
                &&& credentials_set(
                    before,
                    after,
                    given.server_id@,
                    given.api_key@,
                )
                &&& action matches ResponseAction::Persist(plan)
                &&& plan.path@ == config_path@
                &&& plan.temporary@ == extended(config_path@, "toml.tmp"@)
            },
            _ => after == before && action is Ignore,
        },
    }
}

/// Handle a response to one of the agent's requests. `handshake_id` is the ID of
/// the first request over the connection, and `registration` what the result
/// holds if it is that of a registration.
///
/// The credentials that a registration gives are kept and saved. An error that
/// answers the first request and says that the credentials are refused ends the
/// agent.
pub fn handle_response<V>(
    response: &RpcResponse<V>,
    handshake_id: &str,
    registration: Option<AgentRegisterResponse>,
    config: &mut AgentConfig,
    config_path: &str,
) -> (action: ResponseAction)
    ensures
        handle_response_gives(
            *response,
            handshake_id,
            registration,
            *old(config),
            *final(config),
            config_path,
            action,
        ),
        match response.error {
            Some(error) => {
                &&& *final(config) == *old(config)
                &&& if response.id@ == handshake_id@ && auth_class(error.code) {
                    action matches ResponseAction::Exit(code) && code == EXIT_BAD_CREDENTIALS
                } else {
                    action is Ignore
                }
            },
            None => match registration {
                Some(given) if response.result is Some => {
                    &&& credentials_set(
                        *old(config),
                        *final(config),
                        given.server_id@,
                        given.api_key@,
                    )
                    &&& action matches ResponseAction::Persist(plan)
                    &&& plan.path@ == config_path@
                    &&& plan.temporary@ == extended(config_path@, "toml.tmp"@)
                },
                _ => *final(config) == *old(config) && action is Ignore,
            },
        },
{
    if let Some(error) = &response.error {
        if same_text(response.id.as_str(), handshake_id) && (error.code == error_codes::AUTH_FAILED
            || error.code == error_codes::REGISTRATION_FAILED) {
            return ResponseAction::Exit(EXIT_BAD_CREDENTIALS);
        }
        return ResponseAction::Ignore;
    }
    match registration {
        Some(given) => if response.result.is_some() {
            config.set_credentials(given.server_id, given.api_key);
            ResponseAction::Persist(config.save(config_path))
        } else {
            ResponseAction::Ignore
        },
        None => ResponseAction::Ignore,
    }
}

// ---------------------------------------------------------------------------
// Frames
// ---------------------------------------------------------------------------

/// What came over the WebSocket.
pub enum Frame<V> {
    /// A text that holds a message, or why it does not.
    Text(Result<RpcMessage<V>, String>),
    Ping,
    Close,
    Failed(String),
    Other,
}

/// How a connection came to its end.
pub enum ConnectionEnd {
    /// It could not be opened, or the first request could not be sent.
    NotOpened(String),
    /// It was closed, or it failed.
    Lost,
}

/// Whether this is what [`connection_result`] gives.
pub open spec fn connection_result_gives(end: ConnectionEnd, r: Result<(), String>) -> bool {
    &&& r matches Err(e) && e@ == match end {
        ConnectionEnd::NotOpened(why) => why@,
        ConnectionEnd::Lost => "Connection lost"@,
    }
}

/// What a connection comes to: an error in any case, so that it is tried again.
pub fn connection_result(end: ConnectionEnd) -> (r: Result<(), String>)
    ensures
        connection_result_gives(end, r),
        r matches Err(e) && e@ == match end {
            ConnectionEnd::NotOpened(why) => why@,
            ConnectionEnd::Lost => "Connection lost"@,
        },
{
    match end {
        ConnectionEnd::NotOpened(why) => Err(why),
        ConnectionEnd::Lost => Err(String::from_str("Connection lost")),
    }
}

/// What follows a frame.
pub enum FrameAction<V> {
    /// Do what the request asks for and send the response.
    Dispatch(RpcRequest<V>),
    /// Do what the notification asks for, and send no response.
    Notify(RpcRequest<V>),
    /// Handle the response.
    Respond(RpcResponse<V>),
    /// Nothing.
    Ignore,
    /// The connection has come to this end.
    Stop(ConnectionEnd),
}

/// Whether this is what [`on_frame`] gives.
pub open spec fn on_frame_gives<V>(frame: Frame<V>, action: FrameAction<V>) -> bool {
    &&& match frame {
        Frame::Text(Ok(RpcMessage::Request(request))) => action == if request.id is Some {
            FrameAction::Dispatch(request)
        } else {
            FrameAction::Notify(request)
        },
        Frame::Text(Ok(RpcMessage::Response(response))) => action == FrameAction::Respond(
            response,
        ),
        Frame::Close | Frame::Failed(_) => action == FrameAction::<V>::Stop(
            ConnectionEnd::Lost,
        ),
        _ => action is Ignore,
    }
}

/// What follows a frame. A request is answered; a notification, which has no ID,
/// is not.
pub fn on_frame<V>(frame: Frame<V>) -> (action: FrameAction<V>)
    ensures
        on_frame_gives(frame, action),
        match frame {
            Frame::Text(Ok(RpcMessage::Request(request))) => action == if request.id is Some {
                FrameAction::Dispatch(request)
            } else {
                FrameAction::Notify(request)
            },
            Frame::Text(Ok(RpcMessage::Response(response))) => action == FrameAction::Respond(
                response,
            ),
            Frame::Close | Frame::Failed(_) => action == FrameAction::<V>::Stop(
                ConnectionEnd::Lost,
            ),
            _ => action is Ignore,
        },
{
    match frame {
        Frame::Text(Ok(RpcMessage::Request(request))) => if request.expects_response() {
            FrameAction::Dispatch(request)
        } else {
            FrameAction::Notify(request)
        },
        Frame::Text(Ok(RpcMessage::Response(response))) => FrameAction::Respond(response),
        Frame::Text(Err(_)) => FrameAction::Ignore,
        Frame::Ping => FrameAction::Ignore,
        Frame::Close => FrameAction::Stop(ConnectionEnd::Lost),
        Frame::Failed(_) => FrameAction::Stop(ConnectionEnd::Lost),
        Frame::Other => FrameAction::Ignore,
    }
}

// ---------------------------------------------------------------------------
// Trying again
// ---------------------------------------------------------------------------

/// How long the agent waits before it tries to connect again.
pub struct Backoff {
    next_secs: u64,
    max_secs: u64,
}

/// The lesser of two delays.
pub open spec fn at_most(secs: int, max: int) -> int {
    if secs < max {
        secs
    } else {
        max
    }
}

impl Backoff {
    /// The next delay, if the connection does not hold.
    pub closed spec fn next(self) -> u64 {
        self.next_secs
    }

    /// The delay that none but the first exceeds.
    pub closed spec fn max(self) -> u64 {
        self.max_secs
    }

    /// The delay when a connection held for so long, or could not be opened at
    /// all.
    pub open spec fn delay(self, held_nanos: u64) -> u64 {
        if held_nanos > HEALTHY_NANOS {
            FIRST_DELAY_SECS
        } else {
            self.next()
        }
    }

    /// Whether this is what [`Self::new`] gives.
    pub open spec fn begins_as(max_secs: u64, backoff: Backoff) -> bool {
        &&& backoff.next() == FIRST_DELAY_SECS
        &&& backoff.max() == max_secs
    }

    /// The delays of a connection that was not opened yet.
    pub fn new(max_secs: u64) -> (backoff: Backoff)
        ensures
            Self::begins_as(max_secs, backoff),
            backoff.next() == FIRST_DELAY_SECS,
            backoff.max() == max_secs,
    {
        Backoff { next_secs: FIRST_DELAY_SECS, max_secs }
    }

    /// Whether this is what [`Self::on_lost`] gives.
    pub open spec fn on_lost_gives(self, after: Self, held_nanos: u64, secs: u64) -> bool {
        &&& secs == self.delay(held_nanos)
        &&& after.next() == at_most(2 * secs as int, self.max() as int)
        &&& after.max() == self.max()
    }

    /// A connection that held for so long was lost, or could not be opened: the
    /// delay after which it is tried again. The delay doubles from time to time
    /// up to the limit; after a connection that held it begins anew.
    pub fn on_lost(&mut self, held_nanos: u64) -> (secs: u64)
        ensures
            old(self).on_lost_gives(*final(self), held_nanos, secs),
            secs == old(self).delay(held_nanos),
            final(self).next() == at_most(2 * secs as int, old(self).max() as int),
            final(self).max() == old(self).max(),
    {
        let secs = if held_nanos > HEALTHY_NANOS {
            FIRST_DELAY_SECS
        } else {
            self.next_secs
        };
        self.next_secs = if secs > self.max_secs / 2 {
            self.max_secs
        } else {
            secs * 2
        };
        secs
    }
}

/// The delays of connections none of which held, one after the other.
pub open spec fn failing(states: Seq<Backoff>, delays: Seq<u64>) -> bool {
    &&& states.len() == delays.len() + 1
    &&& states[0].next() == FIRST_DELAY_SECS
    &&& forall|i: int|
        0 <= i < delays.len() ==> {
            &&& #[trigger] delays[i] == states[i].next()
            &&& states[i + 1].next() == at_most(2 * delays[i] as int, states[i].max() as int)
            &&& states[i + 1].max() == states[i].max()
        }
}

/// While no connection holds, the delay is one second, then doubles each time,
/// and never exceeds the limit.
pub proof fn law_delays_double_up_to_the_limit(states: Seq<Backoff>, delays: Seq<u64>, i: int)
    requires
        failing(states, delays),
        states[0].max() >= 1,
        0 <= i < delays.len(),
    ensures
        delays[i] == at_most(pow2(i as nat) as int, states[0].max() as int),
{
    lemma_delay(states, delays, i);
    assert(delays[i] == states[i].next());
}

proof fn lemma_delay(states: Seq<Backoff>, delays: Seq<u64>, i: int)
    requires
        failing(states, delays),
        states[0].max() >= 1,
        0 <= i <= delays.len(),
    ensures
        states[i].max() == states[0].max(),
        states[i].next() == at_most(pow2(i as nat) as int, states[0].max() as int),
    decreases i,
{
    vstd::arithmetic::power2::lemma2_to64();
    if i > 0 {
        lemma_delay(states, delays, i - 1);
        assert(delays[i - 1] == states[i - 1].next());
        assert(states[i - 1 + 1].next() == at_most(
            2 * delays[i - 1] as int,
            states[i - 1].max() as int,
        ));
        vstd::arithmetic::power2::lemma_pow2_unfold(i as nat);
    }
}

/// After a connection that held long enough the delay is one second again.
pub proof fn law_delay_begins_anew_after_a_connection_that_held(backoff: Backoff, held_nanos: u64)
    requires
        held_nanos > HEALTHY_NANOS,
    ensures
        backoff.delay(held_nanos) == 1,
{
}

// ---------------------------------------------------------------------------
// Heartbeats
// ---------------------------------------------------------------------------

/// Whether this is a heartbeat.
pub open spec fn beats(note: RpcRequest<HeartbeatRequest>) -> bool {
    note.notifies("agent.heartbeat"@, note.params)
}

/// Whether this is what [`heartbeat_at`] gives.
pub open spec fn heartbeat_at_gives(moment: Moment, note: RpcRequest<HeartbeatRequest>) -> bool {
    &&& beats(note)
    &&& note.params.timestamp@ == utc_text(moment.secs, moment.nanos)
}

/// The heartbeat at a moment.
pub fn heartbeat_at(moment: Moment) -> (note: RpcRequest<HeartbeatRequest>)
    requires
        plain_moment(moment),
        within_calendar(moment.secs as int),
    ensures
        heartbeat_at_gives(moment, note),
        beats(note),
        note.params.timestamp@ == utc_text(moment.secs, moment.nanos),
{
    RpcRequest::notification(
        "agent.heartbeat",
        HeartbeatRequest { timestamp: timestamp_of(moment) },
    )
}

/// Whether this is what [`heartbeat`] gives.
pub open spec fn heartbeat_gives(note: RpcRequest<HeartbeatRequest>) -> bool {
    &&& beats(note)
    &&& is_timestamp(note.params.timestamp@)
}

/// The heartbeat at the present moment.
pub fn heartbeat() -> (note: RpcRequest<HeartbeatRequest>)
    ensures
        heartbeat_gives(note),
        beats(note),
        is_timestamp(note.params.timestamp@),
{
    RpcRequest::notification("agent.heartbeat", HeartbeatRequest { timestamp: timestamp() })
}

// ---------------------------------------------------------------------------
// Collecting and pushing metrics
// ---------------------------------------------------------------------------

/// Counts the samples that were taken.
pub struct CleanupClock {
    ticks: u64,
}

impl CleanupClock {
    /// How many samples were taken since the buffer was last due to be cleaned
    /// up.
    pub closed spec fn since(self) -> u64 {
        self.ticks
    }

    /// Whether the count has not passed the clean-up.
    pub open spec fn wf(self) -> bool {
        self.since() < CLEANUP_TICKS
    }

    /// Whether this is what [`Self::new`] gives.
    pub open spec fn begins_as(clock: CleanupClock) -> bool {
        &&& clock.wf()
        &&& clock.since() == 0
    }

    /// No samples were taken yet.
    pub fn new() -> (clock: CleanupClock)
        ensures
            Self::begins_as(clock),
            clock.wf(),
            clock.since() == 0,
    {
        CleanupClock { ticks: 0 }
    }

    /// Whether this is what [`Self::tick`] gives.
    pub open spec fn tick_gives(self, after: Self, due: bool) -> bool {
        &&& after.wf()
        &&& due == (self.since() + 1 == CLEANUP_TICKS)
        &&& after.since() == (self.since() + 1) % (CLEANUP_TICKS as int)
    }

    /// A sample was taken. Tells whether the buffer is due to be cleaned up.
    pub fn tick(&mut self) -> (due: bool)
        requires
            old(self).wf(),
        ensures
            old(self).tick_gives(*final(self), due),
            final(self).wf(),
            due == (old(self).since() + 1 == CLEANUP_TICKS),
            final(self).since() == (old(self).since() + 1) % (CLEANUP_TICKS as int),
    {
        self.ticks = self.ticks + 1;
        if self.ticks == CLEANUP_TICKS {
            self.ticks = 0;
            true
        } else {
            false
        }
    }
}

/// The clean-up is due at every 300th sample and at no other.
pub proof fn law_cleanup_is_due_every_300_samples(clocks: Seq<CleanupClock>, due: Seq<bool>, i: int)
    requires
        clocks.len() == due.len() + 1,
        clocks[0].since() == 0,
        forall|j: int|
            0 <= j < due.len() ==> {
                &&& #[trigger] due[j] == (clocks[j].since() + 1 == CLEANUP_TICKS)
                &&& clocks[j + 1].since() == (clocks[j].since() + 1) % (CLEANUP_TICKS as int)
            },
        0 <= i < due.len(),
    ensures
        due[i] == ((i + 1) % 300 == 0),
{
    lemma_since(clocks, due, i);
    assert(due[i] == (clocks[i].since() + 1 == CLEANUP_TICKS));
}

proof fn lemma_since(clocks: Seq<CleanupClock>, due: Seq<bool>, i: int)
    requires
        clocks.len() == due.len() + 1,
        clocks[0].since() == 0,
        forall|j: int|
            0 <= j < due.len() ==> {
                &&& #[trigger] due[j] == (clocks[j].since() + 1 == CLEANUP_TICKS)
                &&& clocks[j + 1].since() == (clocks[j].since() + 1) % (CLEANUP_TICKS as int)
            },
        0 <= i <= due.len(),
    ensures
        clocks[i].since() == i % 300,
    decreases i,
{
    if i > 0 {
        lemma_since(clocks, due, i - 1);
        assert(due[i - 1] == (clocks[i - 1].since() + 1 == CLEANUP_TICKS));
        assert(clocks[i - 1 + 1].since() == (clocks[i - 1].since() + 1) % (CLEANUP_TICKS as int));
    }
}

/// What became of a sample.
pub struct Sampled {
    pub stored: Result<(), BufferError>,
    /// Whether the buffer is due to be cleaned up.
    pub cleanup_due: bool,
}

/// Whether a sample taken at the moment was handed to the buffer, once, and the
/// rows that were found there are left with just this one more.
pub open spec fn samples(
    before: MetricsBuffer,
    after: MetricsBuffer,
    now: Moment,
    json: Seq<char>,
    stored: Result<(), BufferError>,
) -> bool {
    &&& runs_one(
        before,
        after,
        INSERT_ROW@,
        Given::Texts(seq![utc_text(now.secs, now.nanos), json]),
        stored,
    )
    &&& after.own_table() && stored is Ok ==> sampled(after.found(), after.rows(), now, json)
}

/// Whether `after` is `before` with one new row, unsent, for a sample taken at
/// the moment.
pub open spec fn sampled(before: Seq<Row>, after: Seq<Row>, now: Moment, json: Seq<char>) -> bool {
    one_added(before, after, utc_text(now.secs, now.nanos), json)
}

/// A tick of the collection at a moment: the sample, as JSON, is stored with the
/// moment's timestamp, and the clock is moved on, whether that succeeds or not.
/// Nothing here depends on a connection.
pub fn collect_at(
    buffer: &mut MetricsBuffer,
    clock: &mut CleanupClock,
    now: Moment,
    json: &str,
) -> (r: Sampled)
    requires
        old(clock).wf(),
        plain_moment(now),
        within_calendar(now.secs as int),
    ensures
        samples(*old(buffer), *final(buffer), now, json@, r.stored),
        old(clock).tick_gives(*final(clock), r.cleanup_due),
        final(clock).wf(),
        r.cleanup_due == (old(clock).since() + 1 == CLEANUP_TICKS),
        final(clock).since() == (old(clock).since() + 1) % (CLEANUP_TICKS as int),
{
    let text = timestamp_of(now);
    let stored = buffer.store(text.as_str(), json);
    let cleanup_due = clock.tick();
    Sampled { stored, cleanup_due }
}

/// A tick of the collection at the present moment.
pub fn collect(buffer: &mut MetricsBuffer, clock: &mut CleanupClock, json: &str) -> (r: Sampled)
    requires
        old(clock).wf(),
    ensures
        exists|now: Moment|
            told_by_clock(now) && #[trigger] samples(
                *old(buffer),
                *final(buffer),
                now,
                json@,
                r.stored,
            ),
        old(clock).tick_gives(*final(clock), r.cleanup_due),
        final(clock).wf(),
        r.cleanup_due == (old(clock).since() + 1 == CLEANUP_TICKS),
        final(clock).since() == (old(clock).since() + 1) % (CLEANUP_TICKS as int),
{
    let now = utc_now();
    assert(told_by_clock(now));
    collect_at(buffer, clock, now, json)
}

/// Every tick of the collection adds one unsent row of its own: after `n` ticks
/// that stored their samples, with nothing else written in between, the rows are
/// those from before and then one for each tick, in order, with the timestamp of
/// the tick.
pub proof fn law_every_tick_stores_one_row(
    rows: Seq<Seq<Row>>,
    moments: Seq<Moment>,
    jsons: Seq<Seq<char>>,
    n: int,
)
    requires
        0 <= n < rows.len(),
        moments.len() == rows.len() - 1,
        jsons.len() == rows.len() - 1,
        forall|i: int|
            0 <= i < moments.len() ==> sampled(
                rows[i],
                rows[i + 1],
                #[trigger] moments[i],
                jsons[i],
            ),
    ensures
        rows[n].len() == rows[0].len() + n,
        rows[n].take(rows[0].len() as int) == rows[0],
        forall|i: int|
            0 <= i < n ==> {
                let row = rows[n][rows[0].len() + i];
                &&& row.timestamp == utc_text((#[trigger] moments[i]).secs, moments[i].nanos)
                &&& row.json == jsons[i]
                &&& row.sent == 0
            },
        unsent(rows[n]).len() == unsent(rows[0]).len() + n,
    decreases n,
{
    if n > 0 {
        law_every_tick_stores_one_row(rows, moments, jsons, n - 1);
        let k = n - 1;
        assert(sampled(rows[k], rows[k + 1], moments[k], jsons[k]));
        law_stored_point_is_unsent(
            rows[k],
            rows[n],
            utc_text(moments[k].secs, moments[k].nanos),
            jsons[k],
        );
        assert(rows[n].drop_last() == rows[k]);
        assert(rows[n].take(rows[0].len() as int) =~= rows[k].take(rows[0].len() as int));
        assert forall|i: int| 0 <= i < n implies {
            let row = rows[n][rows[0].len() + i];
            &&& row.timestamp == utc_text((#[trigger] moments[i]).secs, moments[i].nanos)
            &&& row.json == jsons[i]
            &&& row.sent == 0
        } by {
            if i < k {
                assert(rows[k][rows[0].len() + i] == rows[n][rows[0].len() + i]);
            } else {
                assert(rows[n][rows[0].len() + i] == rows[n].last());
            }
        }
    } else {
        assert(rows[0].take(rows[0].len() as int) =~= rows[0]);
    }
}

/// Whether this is what [`push_limit`] gives.
pub open spec fn push_limit_gives(push_interval_secs: u64, limit: usize) -> bool {
    &&& limit == if push_interval_secs as usize > MIN_PUSH_LIMIT {
        push_interval_secs as usize
    } else {
        MIN_PUSH_LIMIT
    }
}

/// How many data points one push may hold: one for each second between two
/// pushes, and not too few.
pub fn push_limit(push_interval_secs: u64) -> (limit: usize)
    ensures
        push_limit_gives(push_interval_secs, limit),
        limit == if push_interval_secs as usize > MIN_PUSH_LIMIT {
            push_interval_secs as usize
        } else {
            MIN_PUSH_LIMIT
        },
{
    let wanted = push_interval_secs as usize;
    if wanted > MIN_PUSH_LIMIT {
        wanted
    } else {
        MIN_PUSH_LIMIT
    }
}

/// Buffered rows as a message, and their IDs.
pub struct Batch<F> {
    pub ids: Vec<i64>,
    pub note: RpcRequest<MetricsBatchPushNotification<F>>,
}

/// Whether this is the data point of a row.
pub open spec fn is_point<F>(
    point: MetricsDataPoint<F>,
    row: BufferedMetric<MetricsPayload<F>>,
) -> bool {
    point.metrics == row.metrics && point.timestamp == row.timestamp
}

/// Whether the batch holds just these rows, in order. The gateway fills in the
/// server's ID.
pub open spec fn batches<F>(
    batch: Batch<F>,
    rows: Seq<BufferedMetric<MetricsPayload<F>>>,
    is_backfill: bool,
) -> bool {
    let params = batch.note.params;
    &&& batch.note.notifies("metrics.batch_push"@, params)
    &&& params.server_id@ == Seq::<char>::empty()
    &&& params.is_backfill == is_backfill
    &&& params.data_points@.len() == rows.len()
    &&& batch.ids@.len() == rows.len()
    &&& forall|i: int| 0 <= i < rows.len() ==> #[trigger] batch.ids@[i] == rows[i].id
    &&& forall|i: int|
        0 <= i < rows.len() ==> is_point(#[trigger] params.data_points@[i], rows[i])
}

/// Whether this is what [`make_batch`] gives.
pub open spec fn make_batch_gives<F>(
    rows: Vec<BufferedMetric<MetricsPayload<F>>>,
    is_backfill: bool,
    r: Option<Batch<F>>,
) -> bool {
    &&& if rows@.len() == 0 {
        r is None
    } else {
        r matches Some(batch) && batches(batch, rows@, is_backfill)
    }
}

/// The message with the rows, if there are any.
pub fn make_batch<F>(rows: Vec<BufferedMetric<MetricsPayload<F>>>, is_backfill: bool) -> (r: Option<
    Batch<F>,
>)
    ensures
        make_batch_gives(rows, is_backfill, r),
        if rows@.len() == 0 {
            r is None
        } else {
            r matches Some(batch) && batches(batch, rows@, is_backfill)
        },
{
    if rows.len() == 0 {
        return None;
    }
    let ghost all = rows@;
    let mut ids: Vec<i64> = Vec::new();
    let mut data_points: Vec<MetricsDataPoint<F>> = Vec::new();
    for row in it: rows
        invariant
            all == it.seq(),
            ids@.len() == it.index(),
            data_points@.len() == it.index(),
            forall|i: int| 0 <= i < it.index() ==> #[trigger] ids@[i] == all[i].id,
            forall|i: int|
                0 <= i < it.index() ==> is_point(#[trigger] data_points@[i], all[i]),
    {
        ids.push(row.id);
        data_points.push(MetricsDataPoint { metrics: row.metrics, timestamp: row.timestamp });
    }
    let server_id = String::new();
    assert(server_id@ =~= Seq::empty());
    let note = RpcRequest::notification(
        "metrics.batch_push",
        MetricsBatchPushNotification { server_id, data_points, is_backfill },
    );
    Some(Batch { ids, note })
}

/// The sender of metrics over a connection. It begins with the backfill and then
/// sends what was collected since, push by push.
pub struct Pusher {
    backfilling: bool,
    chunk: usize,
    limit: usize,
}

/// What the sender of metrics does next.
pub enum PushStep<F> {
    /// Send the message, then tell how that went.
    Send(Batch<F>),
    /// The backfill is over: go on with regular pushes.
    Finished,
    /// Wait for the next push.
    Wait,
}

/// What the sender of metrics does after a message.
pub enum AfterSend {
    /// Mark the rows as sent and, during the backfill, pause.
    Mark { ids: Vec<i64>, pause: bool },
    /// The backfill is over: go on with regular pushes.
    Finished,
    /// The connection is lost.
    Stop,
}

impl Pusher {
    /// Whether the backfill is under way.
    pub closed spec fn in_backfill(self) -> bool {
        self.backfilling
    }

    /// How many rows a message of the backfill holds at most.
    pub closed spec fn chunk_size(self) -> usize {
        self.chunk
    }

    /// How many rows a regular push holds at most.
    pub closed spec fn push_size(self) -> usize {
        self.limit
    }

    /// Whether `self` is `before` apart from the backfill, which once over does
    /// not begin again.
    pub open spec fn follows(self, before: Pusher) -> bool {
        &&& self.chunk_size() == before.chunk_size()
        &&& self.push_size() == before.push_size()
        &&& self.in_backfill() ==> before.in_backfill()
    }

    /// Whether this is what [`Self::new`] gives.
    pub open spec fn begins_as(
        backfill_chunk_size: u64,
        push_interval_secs: u64,
        pusher: Pusher,
    ) -> bool {
        &&& pusher.in_backfill()
        &&& pusher.chunk_size() == backfill_chunk_size as usize
        &&& pusher.push_size() == if push_interval_secs as usize > MIN_PUSH_LIMIT {
            push_interval_secs as usize
        } else {
            MIN_PUSH_LIMIT
        }
    }

    /// The sender over a new connection: the backfill is to be done.
    pub fn new(backfill_chunk_size: u64, push_interval_secs: u64) -> (pusher: Pusher)
        ensures
            Self::begins_as(backfill_chunk_size, push_interval_secs, pusher),
            pusher.in_backfill(),
            pusher.chunk_size() == backfill_chunk_size as usize,
            pusher.push_size() == if push_interval_secs as usize > MIN_PUSH_LIMIT {
                push_interval_secs as usize
            } else {
                MIN_PUSH_LIMIT
            },
    {
        Pusher {
            backfilling: true,
            chunk: backfill_chunk_size as usize,
            limit: push_limit(push_interval_secs),
        }
    }

    /// Whether this is what [`Self::row_limit`] gives.
    pub open spec fn row_limit_gives(self, limit: usize) -> bool {
        &&& limit == if self.in_backfill() {
            self.chunk_size()
        } else {
            self.push_size()
        }
    }

    /// How many rows to read for the next message at most.
    pub fn row_limit(&self) -> (limit: usize)
        ensures
            self.row_limit_gives(limit),
            limit == if self.in_backfill() {
                self.chunk_size()
            } else {
                self.push_size()
            },
    {
        if self.backfilling {
            self.chunk
        } else {
            self.limit
        }
    }

    /// Whether this is what [`Self::on_rows`] gives.
    pub open spec fn on_rows_gives<F>(
        self,
        after: Self,
        rows: Result<Vec<BufferedMetric<MetricsPayload<F>>>, String>,
        step: PushStep<F>,
    ) -> bool {
        &&& after.follows(self)
        &&& match rows {
            Ok(list) if list@.len() > 0 => {
                &&& after.in_backfill() == self.in_backfill()
                &&& step matches PushStep::Send(batch)
                &&& batches(batch, list@, self.in_backfill())
            },
            _ => {
                &&& !after.in_backfill()
                &&& if self.in_backfill() {
                    step is Finished
                } else {
                    step is Wait
                }
            },
        }
    }

    /// What follows when the rows for a message were read or could not be. The
    /// backfill goes on until no rows are left, or they cannot be read; a
    /// regular push then waits for the next.
    pub fn on_rows<F>(
        &mut self,
        rows: Result<Vec<BufferedMetric<MetricsPayload<F>>>, String>,
    ) -> (step: PushStep<F>)
        ensures
            old(self).on_rows_gives(*final(self), rows, step),
            final(self).follows(*old(self)),
            match rows {
                Ok(list) if list@.len() > 0 => {
                    &&& final(self).in_backfill() == old(self).in_backfill()
                    &&& step matches PushStep::Send(batch)
                    &&& batches(batch, list@, old(self).in_backfill())
                },
                _ => {
                    &&& !final(self).in_backfill()
                    &&& if old(self).in_backfill() {
                        step is Finished
                    } else {
                        step is Wait
                    }
                },
            },
    {
        let is_backfill = self.backfilling;
        if let Ok(list) = rows {
            if let Some(batch) = make_batch(list, is_backfill) {
                return PushStep::Send(batch);
            }
        }
        self.backfilling = false;
        if is_backfill {
            PushStep::Finished
        } else {
            PushStep::Wait
        }
    }

    /// Whether this is what [`Self::on_sent`] gives.
    pub open spec fn on_sent_gives(
        self,
        after: Self,
        ids: Vec<i64>,
        sent: bool,
        r: AfterSend,
    ) -> bool {
        &&& after.follows(self)
        &&& if sent {
            &&& r == (AfterSend::Mark { ids, pause: self.in_backfill() })
            &&& after.in_backfill() == self.in_backfill()
        } else {
            &&& !after.in_backfill()
            &&& if self.in_backfill() {
                r is Finished
            } else {
                r is Stop
            }
        }
    }

    /// What follows when the message with the rows of these IDs was sent or not.
    /// Rows are marked only once they were sent; others are sent over a later
    /// connection.
    pub fn on_sent(&mut self, ids: Vec<i64>, sent: bool) -> (r: AfterSend)
        ensures
            old(self).on_sent_gives(*final(self), ids, sent, r),
            final(self).follows(*old(self)),
            if sent {
                &&& r == (AfterSend::Mark { ids, pause: old(self).in_backfill() })
                &&& final(self).in_backfill() == old(self).in_backfill()
            } else {
                &&& !final(self).in_backfill()
                &&& if old(self).in_backfill() {
                    r is Finished
                } else {
                    r is Stop
                }
            },
    {
        let is_backfill = self.backfilling;
        if sent {
            return AfterSend::Mark { ids, pause: is_backfill };
        }
        self.backfilling = false;
        if is_backfill {
            AfterSend::Finished
        } else {
            AfterSend::Stop
        }
    }
}

/// The backfill comes before every regular push: once a sender has left the
/// backfill it does not return to it.
pub proof fn law_backfill_comes_first(states: Seq<Pusher>, i: int, j: int)
    requires
        forall|k: int|
            0 < k < states.len() ==> (#[trigger] states[k]).follows(states[k - 1]),
        0 <= i <= j < states.len(),
        !states[i].in_backfill(),
    ensures
        !states[j].in_backfill(),
    decreases j - i,
{
    if i < j {
        law_backfill_comes_first(states, i, j - 1);
        assert(states[j].follows(states[j - 1]));
    }
}

} // verus!
