//! Docker: listing, stats, inspection and logs of containers.

use crate::command::{flag, is_set};
use crate::encoding::{bytes_to_text, text_in_bytes};
use crate::error_codes;
use crate::methods::{ContainerStats, DockerContainerSummary, DockerInspectRequest};
use crate::methods::{DockerListRequest, DockerListResponse, DockerLogsRequest, DockerPortMapping};
use crate::methods::{DockerStatsRequest, DockerStatsResponse};
use crate::number::{decimal, to_decimal};
use crate::rpc::{RpcRequest, RpcResponse};
use crate::stream::{carries, data_notification, end_notification, ends, StreamChannel, StreamData};
use crate::stream::{StreamEnd, StreamingReply};
use crate::text::{cat2, head, same_text, take_chars, texts, trim_start_char, without_leading};
use std::collections::HashMap;
use vstd::prelude::*;
use vstd::string::StringExecFns;

verus! {

/// The number of characters of a container's ID that are shown.
pub const SHORT_ID: usize = 12;

/// The message that the Docker daemon cannot be reached.
pub open spec fn no_daemon(why: Seq<char>) -> Seq<char> {
    "Failed to connect to Docker: "@ + why
}

/// Whether this is what [`connect_failed`] gives.
pub open spec fn connect_failed_gives<V>(id: String, why: &str, response: RpcResponse<V>) -> bool {
    &&& response.responds_to(id@)
    &&& response.fails(id@, error_codes::GENERAL_ERROR, no_daemon(why@))
}

/// The error response that the Docker daemon cannot be reached.
pub fn connect_failed<V>(id: String, why: &str) -> (response: RpcResponse<V>)
    ensures
        connect_failed_gives(id, why, response),
        response.responds_to(id@),
        response.fails(id@, error_codes::GENERAL_ERROR, no_daemon(why@)),
{
    RpcResponse::error(
        id,
        error_codes::GENERAL_ERROR,
        cat2("Failed to connect to Docker: ", why),
    )
}

// ---------------------------------------------------------------------------
// docker.stats
// ---------------------------------------------------------------------------

/// Containers whose stats are asked for.
pub struct DockerStatsPlan {
    pub id: String,
    /// The containers that the request names; all that run where it names none.
    pub named: Vec<String>,
}

/// Whether this is what [`handle_docker_stats`] gives.
pub open spec fn docker_stats_begins<F>(
    id: String,
    params: Result<DockerStatsRequest, String>,
    r: Result<DockerStatsPlan, RpcResponse<DockerStatsResponse<F>>>,
) -> bool {
    &&& r matches Err(response) ==> response.responds_to(id@)
    &&& match params {
        Ok(request) => {
            &&& r matches Ok(plan)
            &&& plan.id@ == id@
            &&& plan.named == request.container_ids
        },
        Err(e) => r matches Err(response) && response.rejects_params(id@, e@),
    }
}

/// Handle `docker.stats`: get resource usage stats for containers.
pub fn handle_docker_stats<F>(id: String, params: Result<DockerStatsRequest, String>) -> (r: Result<
    DockerStatsPlan,
    RpcResponse<DockerStatsResponse<F>>,
>)
    ensures
        docker_stats_begins(id, params, r),
        r matches Err(response) ==> response.responds_to(id@),
        match params {
            Ok(request) => {
                &&& r matches Ok(plan)
                &&& plan.id@ == id@
                &&& plan.named == request.container_ids
            },
            Err(e) => r matches Err(response) && response.rejects_params(id@, e@),
        },
{
    match params {
        Ok(request) => Ok(DockerStatsPlan { id, named: request.container_ids }),
        Err(e) => Err(RpcResponse::invalid_params(id, e.as_str())),
    }
}

/// The IDs that are told, in order.
pub open spec fn told_ids(listed: Seq<Option<String>>) -> Seq<Seq<char>>
    decreases listed.len(),
{
    if listed.len() == 0 {
        Seq::empty()
    } else {
        let before = told_ids(listed.drop_last());
        match listed.last() {
            Some(id) => before.push(id@),
            None => before,
        }
    }
}

impl DockerStatsPlan {
    /// Whether this is what [`Self::lists_running`] gives.
    pub open spec fn lists_running_gives(self, yes: bool) -> bool {
        &&& yes == (self.named@.len() == 0)
    }

    /// Whether the running containers have to be listed first.
    pub fn lists_running(&self) -> (yes: bool)
        ensures
            self.lists_running_gives(yes),
            yes == (self.named@.len() == 0),
    {
        self.named.len() == 0
    }

    /// Whether this is what [`Self::on_listed`] gives.
    pub open spec fn on_listed_gives<F>(
        self,
        listed: Result<Vec<Option<String>>, String>,
        r: Result<Vec<String>, RpcResponse<DockerStatsResponse<F>>>,
    ) -> bool {
        &&& r matches Err(response) ==> response.responds_to(self.id@)
        &&& if self.named@.len() > 0 {
            r matches Ok(ids) && texts(ids@) == texts(self.named@)
        } else {
            match listed {
                Ok(list) => r matches Ok(ids) && texts(ids@) == told_ids(list@),
                Err(e) => r matches Err(response) && response.fails(
                    self.id@,
                    error_codes::GENERAL_ERROR,
                    "Failed to list containers: "@ + e@,
                ),
            }
        }
    }

    /// The containers to ask for, given the running ones in so far as they were
    /// listed.
    pub fn on_listed<F>(&self, listed: Result<Vec<Option<String>>, String>) -> (r: Result<
        Vec<String>,
        RpcResponse<DockerStatsResponse<F>>,
    >)
        ensures
            self.on_listed_gives(listed, r),
            r matches Err(response) ==> response.responds_to(self.id@),
            if self.named@.len() > 0 {
                r matches Ok(ids) && texts(ids@) == texts(self.named@)
            } else {
                match listed {
                    Ok(list) => r matches Ok(ids) && texts(ids@) == told_ids(list@),
                    Err(e) => r matches Err(response) && response.fails(
                        self.id@,
                        error_codes::GENERAL_ERROR,
                        "Failed to list containers: "@ + e@,
                    ),
                }
            },
    {
        let mut ids: Vec<String> = Vec::new();
        if self.named.len() > 0 {
            let n = self.named.len();
            let mut i: usize = 0;
            while i < n
                invariant
                    n == self.named@.len(),
                    i <= n,
                    ids@.len() == i,
                    forall|j: int| 0 <= j < i ==> (#[trigger] ids@[j])@ == self.named@[j]@,
                decreases n - i,
            {
                ids.push(self.named[i].clone());
                i += 1;
            }
            assert(texts(ids@) =~= texts(self.named@));
            return Ok(ids);
        }
        match listed {
            Ok(list) => {
                let n = list.len();
                let mut i: usize = 0;
                assert(list@.take(0) =~= Seq::empty());
                assert(texts(ids@) =~= Seq::empty());
                while i < n
                    invariant
                        n == list@.len(),
                        i <= n,
                        texts(ids@) == told_ids(list@.take(i as int)),
                    decreases n - i,
                {
                    assert(list@.take(i + 1).drop_last() =~= list@.take(i as int));
                    assert(list@.take(i + 1).last() == list@[i as int]);
                    let ghost before = texts(ids@);
                    match &list[i] {
                        Some(id) => {
                            ids.push(id.clone());
                            assert(texts(ids@) =~= before.push(id@));
                        },
                        None => {},
                    }
                    i += 1;
                }
                assert(list@.take(n as int) =~= list@);
                Ok(ids)
            },
            Err(e) => Err(
                RpcResponse::error(
                    self.id.clone(),
                    error_codes::GENERAL_ERROR,
                    cat2("Failed to list containers: ", e.as_str()),
                ),
            ),
        }
    }
}

/// What one network interface of a container carried.
pub struct InterfaceBytes {
    pub rx: u64,
    pub tx: u64,
}

/// One count of block I/O.
pub struct BlockBytes {
    pub op: String,
    pub value: u64,
}

/// What the daemon tells of a container.
pub struct RawStats {
    pub name: String,
    pub cpu_total: u64,
    pub precpu_total: u64,
    pub system_cpu: Option<u64>,
    pub presystem_cpu: Option<u64>,
    pub online_cpus: Option<u64>,
    pub memory_usage: Option<u64>,
    pub memory_limit: Option<u64>,
    pub networks: Option<Vec<InterfaceBytes>>,
    pub block_io: Option<Vec<BlockBytes>>,
    pub pids: Option<u64>,
}

/// The figures from which the stats of a container are computed.
pub struct ContainerFigures {
    pub id: String,
    pub name: String,
    pub cpu_total: u64,
    pub precpu_total: u64,
    pub system_cpu: u64,
    pub presystem_cpu: u64,
    pub online_cpus: u64,
    pub memory_usage: u64,
    pub memory_limit: u64,
    pub rx_bytes: u64,
    pub tx_bytes: u64,
    pub block_read: u64,
    pub block_write: u64,
    pub pids: u32,
}

/// A number, or another where it is not told.
pub open spec fn or(value: Option<u64>, other: u64) -> u64 {
    match value {
        Some(v) => v,
        None => other,
    }
}

fn number_or(value: Option<u64>, other: u64) -> (n: u64)
    ensures
        n == or(value, other),
{
    match value {
        Some(v) => v,
        None => other,
    }
}

/// What all interfaces received.
pub open spec fn rx_total(list: Seq<InterfaceBytes>) -> int
    decreases list.len(),
{
    if list.len() == 0 {
        0
    } else {
        rx_total(list.drop_last()) + list.last().rx
    }
}

/// What all interfaces sent.
pub open spec fn tx_total(list: Seq<InterfaceBytes>) -> int
    decreases list.len(),
{
    if list.len() == 0 {
        0
    } else {
        tx_total(list.drop_last()) + list.last().tx
    }
}

/// Whether a count of block I/O is one of reads.
pub open spec fn is_read(op: Seq<char>) -> bool {
    op == "read"@ || op == "Read"@
}

/// Whether a count of block I/O is one of writes.
pub open spec fn is_write(op: Seq<char>) -> bool {
    op == "write"@ || op == "Write"@
}

/// The counts of reads together.
pub open spec fn read_total(list: Seq<BlockBytes>) -> int
    decreases list.len(),
{
    if list.len() == 0 {
        0
    } else {
        read_total(list.drop_last()) + if is_read(list.last().op@) {
            list.last().value as int
        } else {
            0
        }
    }
}

/// The counts of writes together.
pub open spec fn write_total(list: Seq<BlockBytes>) -> int
    decreases list.len(),
{
    if list.len() == 0 {
        0
    } else {
        write_total(list.drop_last()) + if is_write(list.last().op@) {
            list.last().value as int
        } else {
            0
        }
    }
}

/// What is on a list; nothing where there is no list.
pub open spec fn listed<T>(list: Option<Vec<T>>) -> Seq<T> {
    match list {
        Some(l) => l@,
        None => Seq::empty(),
    }
}

/// Whether every total of a container fits the type of the totals.
pub open spec fn totals_fit(raw: RawStats) -> bool {
    &&& rx_total(listed(raw.networks)) <= u64::MAX
    &&& tx_total(listed(raw.networks)) <= u64::MAX
    &&& read_total(listed(raw.block_io)) <= u64::MAX
    &&& write_total(listed(raw.block_io)) <= u64::MAX
}

/// The name that is shown of a container: the daemon's name for it without the
/// slashes before it, or its short ID where it has no name.
pub open spec fn shown_name(container_id: Seq<char>, name: Seq<char>) -> Seq<char> {
    if name.len() == 0 {
        head(container_id, SHORT_ID as nat)
    } else {
        without_leading(name, '/')
    }
}

/// Whether these are the figures of the container.
pub open spec fn figures_of(
    figures: ContainerFigures,
    container_id: Seq<char>,
    raw: RawStats,
) -> bool {
    &&& figures.id@ == head(container_id, SHORT_ID as nat)
    &&& figures.name@ == shown_name(container_id, raw.name@)
    &&& figures.cpu_total == raw.cpu_total
    &&& figures.precpu_total == raw.precpu_total
    &&& figures.system_cpu == or(raw.system_cpu, 0)
    &&& figures.presystem_cpu == or(raw.presystem_cpu, 0)
    &&& figures.online_cpus == or(raw.online_cpus, 1)
    &&& figures.memory_usage == or(raw.memory_usage, 0)
    &&& figures.memory_limit == or(raw.memory_limit, 1)
    &&& figures.rx_bytes == rx_total(listed(raw.networks))
    &&& figures.tx_bytes == tx_total(listed(raw.networks))
    &&& figures.block_read == read_total(listed(raw.block_io))
    &&& figures.block_write == write_total(listed(raw.block_io))
    &&& figures.pids == or(raw.pids, 0) as nat % 0x1_0000_0000
}

proof fn lemma_network_totals_grow(list: Seq<InterfaceBytes>, n: int)
    requires
        0 <= n <= list.len(),
    ensures
        0 <= rx_total(list.take(n)) <= rx_total(list),
        0 <= tx_total(list.take(n)) <= tx_total(list),
    decreases list.len(),
{
    if n == list.len() {
        assert(list.take(n) =~= list);
        if n > 0 {
            lemma_network_totals_grow(list.drop_last(), n - 1);
            assert(list.drop_last().take(n - 1) =~= list.drop_last());
        }
    } else {
        lemma_network_totals_grow(list.drop_last(), n);
        assert(list.drop_last().take(n) =~= list.take(n));
    }
}

proof fn lemma_block_totals_grow(list: Seq<BlockBytes>, n: int)
    requires
        0 <= n <= list.len(),
    ensures
        0 <= read_total(list.take(n)) <= read_total(list),
        0 <= write_total(list.take(n)) <= write_total(list),
    decreases list.len(),
{
    if n == list.len() {
        assert(list.take(n) =~= list);
        if n > 0 {
            lemma_block_totals_grow(list.drop_last(), n - 1);
            assert(list.drop_last().take(n - 1) =~= list.drop_last());
        }
    } else {
        lemma_block_totals_grow(list.drop_last(), n);
        assert(list.drop_last().take(n) =~= list.take(n));
    }
}

/// Whether this is what [`network_totals`] gives.
pub open spec fn network_totals_gives(list: Vec<InterfaceBytes>, r: Option<(u64, u64)>) -> bool {
    &&& match r {
        Some((rx, tx)) => rx == rx_total(list@) && tx == tx_total(list@),
        None => rx_total(list@) > u64::MAX || tx_total(list@) > u64::MAX,
    }
}

/// What all interfaces received and sent, if the totals fit.
pub fn network_totals(list: &Vec<InterfaceBytes>) -> (r: Option<(u64, u64)>)
    ensures
        network_totals_gives(*list, r),
        match r {
            Some((rx, tx)) => rx == rx_total(list@) && tx == tx_total(list@),
            None => rx_total(list@) > u64::MAX || tx_total(list@) > u64::MAX,
        },
{
    let n = list.len();
    let mut rx: u64 = 0;
    let mut tx: u64 = 0;
    let mut i: usize = 0;
    while i < n
        invariant
            n == list@.len(),
            i <= n,
            rx == rx_total(list@.take(i as int)),
            tx == tx_total(list@.take(i as int)),
        decreases n - i,
    {
        proof {
            lemma_network_totals_grow(list@, i + 1);
            assert(list@.take(i + 1).drop_last() =~= list@.take(i as int));
            assert(list@.take(i + 1).last() == list@[i as int]);
        }
        rx = match rx.checked_add(list[i].rx) {
            Some(sum) => sum,
            None => return None,
        };
        tx = match tx.checked_add(list[i].tx) {
            Some(sum) => sum,
            None => return None,
        };
        i += 1;
    }
    assert(list@.take(n as int) =~= list@);
    Some((rx, tx))
}

/// Whether this is what [`block_totals`] gives.
pub open spec fn block_totals_gives(list: Vec<BlockBytes>, r: Option<(u64, u64)>) -> bool {
    &&& match r {
        Some((read, write)) => read == read_total(list@) && write == write_total(list@),
        None => read_total(list@) > u64::MAX || write_total(list@) > u64::MAX,
    }
}

/// The counts of reads and of writes together, if the totals fit.
pub fn block_totals(list: &Vec<BlockBytes>) -> (r: Option<(u64, u64)>)
    ensures
        block_totals_gives(*list, r),
        match r {
            Some((read, write)) => read == read_total(list@) && write == write_total(list@),
            None => read_total(list@) > u64::MAX || write_total(list@) > u64::MAX,
        },
{
    let n = list.len();
    let mut read: u64 = 0;
    let mut write: u64 = 0;
    let mut i: usize = 0;
    proof {
        reveal_strlit("read");
        reveal_strlit("Read");
        reveal_strlit("write");
        reveal_strlit("Write");
    }
    assert("read"@.len() == 4 && "Read"@.len() == 4);
    assert("write"@.len() == 5 && "Write"@.len() == 5);
    while i < n
        invariant
            n == list@.len(),
            i <= n,
            read == read_total(list@.take(i as int)),
            write == write_total(list@.take(i as int)),
            "read"@.len() == 4 && "Read"@.len() == 4,
            "write"@.len() == 5 && "Write"@.len() == 5,
        decreases n - i,
    {
        proof {
            lemma_block_totals_grow(list@, i + 1);
            assert(list@.take(i + 1).drop_last() =~= list@.take(i as int));
            assert(list@.take(i + 1).last() == list@[i as int]);
        }
        let op = list[i].op.as_str();
        if same_text(op, "read") || same_text(op, "Read") {
            read = match read.checked_add(list[i].value) {
                Some(sum) => sum,
                None => return None,
            };
        } else if same_text(op, "write") || same_text(op, "Write") {
            write = match write.checked_add(list[i].value) {
                Some(sum) => sum,
                None => return None,
            };
        }
        i += 1;
    }
    assert(list@.take(n as int) =~= list@);
    Some((read, write))
}

/// Whether this is what [`container_figures`] gives.
pub open spec fn container_figures_gives(
    container_id: &str,
    raw: RawStats,
    r: Option<ContainerFigures>,
) -> bool {
    &&& match r {
        Some(figures) => totals_fit(raw) && figures_of(figures, container_id@, raw),
        None => !totals_fit(raw),
    }
}

/// The figures of a container, if its totals fit.
pub fn container_figures(container_id: &str, raw: RawStats) -> (r: Option<ContainerFigures>)
    ensures
        container_figures_gives(container_id, raw, r),
        match r {
            Some(figures) => totals_fit(raw) && figures_of(figures, container_id@, raw),
            None => !totals_fit(raw),
        },
{
    let (rx_bytes, tx_bytes) = match &raw.networks {
        Some(list) => match network_totals(list) {
            Some(totals) => totals,
            None => return None,
        },
        None => (0u64, 0u64),
    };
    let (block_read, block_write) = match &raw.block_io {
        Some(list) => match block_totals(list) {
            Some(totals) => totals,
            None => return None,
        },
        None => (0u64, 0u64),
    };
    let name_chars = crate::text::chars_of(raw.name.as_str());
    let name = if name_chars.len() == 0 {
        take_chars(container_id, SHORT_ID)
    } else {
        trim_start_char(raw.name.as_str(), '/')
    };
    let pids = number_or(raw.pids, 0);
    assert(pids as u32 == pids % 0x1_0000_0000) by (bit_vector);
    Some(
        ContainerFigures {
            id: take_chars(container_id, SHORT_ID),
            name,
            cpu_total: raw.cpu_total,
            precpu_total: raw.precpu_total,
            system_cpu: number_or(raw.system_cpu, 0),
            presystem_cpu: number_or(raw.presystem_cpu, 0),
            online_cpus: number_or(raw.online_cpus, 1),
            memory_usage: number_or(raw.memory_usage, 0),
            memory_limit: number_or(raw.memory_limit, 1),
            rx_bytes,
            tx_bytes,
            block_read,
            block_write,
            pids: pids as u32,
        },
    )
}

/// What is computed from the figures of a container.
pub struct ContainerRates<F> {
    pub cpu_percent: F,
    pub memory_usage_mb: F,
    pub memory_limit_mb: F,
    pub memory_percent: F,
    pub network_rx_mb: F,
    pub network_tx_mb: F,
    pub block_read_mb: F,
    pub block_write_mb: F,
}

impl ContainerFigures {
    /// Whether this is what [`Self::stats`] gives.
    pub open spec fn stats_gives<F>(
        self,
        rates: ContainerRates<F>,
        stats: ContainerStats<F>,
    ) -> bool {
        &&& stats.id == self.id
        &&& stats.name == self.name
        &&& stats.cpu_percent == rates.cpu_percent
        &&& stats.memory_usage_mb == rates.memory_usage_mb
        &&& stats.memory_limit_mb == rates.memory_limit_mb
        &&& stats.memory_percent == rates.memory_percent
        &&& stats.network_rx_mb == rates.network_rx_mb
        &&& stats.network_tx_mb == rates.network_tx_mb
        &&& stats.block_read_mb == rates.block_read_mb
        &&& stats.block_write_mb == rates.block_write_mb
        &&& stats.pids == self.pids
    }

    /// The stats of the container, with what was computed from the figures.
    pub fn stats<F>(self, rates: ContainerRates<F>) -> (stats: ContainerStats<F>)
        ensures
            self.stats_gives(rates, stats),
            stats.id == self.id,
            stats.name == self.name,
            stats.cpu_percent == rates.cpu_percent,
            stats.memory_usage_mb == rates.memory_usage_mb,
            stats.memory_limit_mb == rates.memory_limit_mb,
            stats.memory_percent == rates.memory_percent,
            stats.network_rx_mb == rates.network_rx_mb,
            stats.network_tx_mb == rates.network_tx_mb,
            stats.block_read_mb == rates.block_read_mb,
            stats.block_write_mb == rates.block_write_mb,
            stats.pids == self.pids,
    {
        ContainerStats {
            id: self.id,
            name: self.name,
            cpu_percent: rates.cpu_percent,
            memory_usage_mb: rates.memory_usage_mb,
            memory_limit_mb: rates.memory_limit_mb,
            memory_percent: rates.memory_percent,
            network_rx_mb: rates.network_rx_mb,
            network_tx_mb: rates.network_tx_mb,
            block_read_mb: rates.block_read_mb,
            block_write_mb: rates.block_write_mb,
            pids: self.pids,
        }
    }
}

/// The values that are there, in order.
pub open spec fn present<T>(list: Seq<Option<T>>) -> Seq<T>
    decreases list.len(),
{
    if list.len() == 0 {
        Seq::empty()
    } else {
        let before = present(list.drop_last());
        match list.last() {
            Some(value) => before.push(value),
            None => before,
        }
    }
}

/// Whether this is what [`keep_present`] gives.
pub open spec fn keep_present_gives<T>(list: Vec<Option<T>>, r: Vec<T>) -> bool {
    &&& r@ == present(list@)
}

/// The values that are there, in order.
pub fn keep_present<T>(list: Vec<Option<T>>) -> (r: Vec<T>)
    ensures
        keep_present_gives(list, r),
        r@ == present(list@),
{
    let ghost all = list@;
    let mut r: Vec<T> = Vec::new();
    assert(all.take(0) =~= Seq::empty());
    for item in it: list
        invariant
            all == it.seq(),
            r@ == present(all.take(it.index() as int)),
    {
        let ghost i = it.index() as int;
        assert(all.take(i + 1).drop_last() =~= all.take(i));
        assert(all.take(i + 1).last() == item);
        match item {
            Some(value) => {
                r.push(value);
            },
            None => {},
        }
    }
    assert(all.take(all.len() as int) =~= all);
    r
}

impl DockerStatsPlan {
    /// Whether this is what [`Self::finish`] gives.
    pub open spec fn finish_gives<F>(
        self,
        stats: Vec<Option<ContainerStats<F>>>,
        response: RpcResponse<DockerStatsResponse<F>>,
    ) -> bool {
        &&& response.responds_to(self.id@)
        &&& response.answers(self.id@)
        &&& response.payload().containers@ == present(stats@)
    }

    /// The response with the stats of the containers; one that gave none is left
    /// out.
    pub fn finish<F>(self, stats: Vec<Option<ContainerStats<F>>>) -> (response: RpcResponse<
        DockerStatsResponse<F>,
    >)
        ensures
            self.finish_gives(stats, response),
            response.responds_to(self.id@),
            response.answers(self.id@),
            response.payload().containers@ == present(stats@),
    {
        RpcResponse::success(self.id, DockerStatsResponse { containers: keep_present(stats) })
    }
}

// ---------------------------------------------------------------------------
// docker.inspect
// ---------------------------------------------------------------------------

/// A container to inspect.
pub struct DockerInspectPlan {
    pub id: String,
    pub container_id: String,
}

/// Whether this is what [`handle_docker_inspect`] gives.
pub open spec fn docker_inspect_begins<V>(
    id: String,
    params: Result<DockerInspectRequest, String>,
    r: Result<DockerInspectPlan, RpcResponse<V>>,
) -> bool {
    &&& r matches Err(response) ==> response.responds_to(id@)
    &&& match params {
        Ok(request) => {
            &&& r matches Ok(plan)
            &&& plan.id@ == id@
            &&& plan.container_id@ == request.container_id@
        },
        Err(e) => r matches Err(response) && response.rejects_params(id@, e@),
    }
}

/// Handle `docker.inspect`: get detailed container information.
pub fn handle_docker_inspect<V>(id: String, params: Result<DockerInspectRequest, String>) -> (r:
    Result<DockerInspectPlan, RpcResponse<V>>)
    ensures
        docker_inspect_begins(id, params, r),
        r matches Err(response) ==> response.responds_to(id@),
        match params {
            Ok(request) => {
                &&& r matches Ok(plan)
                &&& plan.id@ == id@
                &&& plan.container_id@ == request.container_id@
            },
            Err(e) => r matches Err(response) && response.rejects_params(id@, e@),
        },
{
    match params {
        Ok(request) => Ok(DockerInspectPlan { id, container_id: request.container_id }),
        Err(e) => Err(RpcResponse::invalid_params(id, e.as_str())),
    }
}

impl DockerInspectPlan {
    /// Whether this is what [`Self::finish`] gives.
    pub open spec fn finish_gives<V>(
        self,
        info: Result<V, String>,
        response: RpcResponse<V>,
    ) -> bool {
        &&& response.responds_to(self.id@)
        &&& match info {
            Ok(info) => response.succeeds(self.id@, info),
            Err(e) => response.fails(
                self.id@,
                error_codes::GENERAL_ERROR,
                "Failed to inspect container: "@ + e@,
            ),
        }
    }

    /// The response with what the daemon tells of the container.
    pub fn finish<V>(self, info: Result<V, String>) -> (response: RpcResponse<V>)
        ensures
            self.finish_gives(info, response),
            response.responds_to(self.id@),
            match info {
                Ok(info) => response.succeeds(self.id@, info),
                Err(e) => response.fails(
                    self.id@,
                    error_codes::GENERAL_ERROR,
                    "Failed to inspect container: "@ + e@,
                ),
            },
    {
        match info {
            Ok(info) => RpcResponse::success(self.id, info),
            Err(e) => RpcResponse::error(
                self.id,
                error_codes::GENERAL_ERROR,
                cat2("Failed to inspect container: ", e.as_str()),
            ),
        }
    }
}

// ---------------------------------------------------------------------------
// docker.list
// ---------------------------------------------------------------------------

/// Containers to list.
pub struct DockerListPlan {
    pub id: String,
    /// Whether stopped containers are listed too.
    pub all: bool,
}

/// What the daemon tells of a container on its list; a part that it does not
/// tell is absent.
pub struct ContainerFacts {
    pub id: Option<String>,
    pub names: Vec<String>,
    pub image: Option<String>,
    pub state: Option<String>,
    pub status: Option<String>,
    pub created: Option<i64>,
    pub ports: Vec<DockerPortMapping>,
    pub networks: Vec<String>,
    pub labels: HashMap<String, String>,
}

/// Whether this is what [`handle_docker_list`] gives.
pub open spec fn docker_list_begins(
    id: String,
    params: Result<DockerListRequest, String>,
    r: Result<DockerListPlan, RpcResponse<DockerListResponse>>,
) -> bool {
    &&& r matches Err(response) ==> response.responds_to(id@)
    &&& match params {
        Ok(request) => {
            &&& r matches Ok(plan)
            &&& plan.id@ == id@
            &&& plan.all == request.all
        },
        Err(e) => r matches Err(response) && response.rejects_params(id@, e@),
    }
}

/// Handle `docker.list`: list containers.
pub fn handle_docker_list(id: String, params: Result<DockerListRequest, String>) -> (r: Result<
    DockerListPlan,
    RpcResponse<DockerListResponse>,
>)
    ensures
        docker_list_begins(id, params, r),
        r matches Err(response) ==> response.responds_to(id@),
        match params {
            Ok(request) => {
                &&& r matches Ok(plan)
                &&& plan.id@ == id@
                &&& plan.all == request.all
            },
            Err(e) => r matches Err(response) && response.rejects_params(id@, e@),
        },
{
    match params {
        Ok(request) => Ok(DockerListPlan { id, all: request.all }),
        Err(e) => Err(RpcResponse::invalid_params(id, e.as_str())),
    }
}

/// A text; nothing where it is not told.
pub open spec fn told(text: Option<String>) -> Seq<char> {
    match text {
        Some(t) => t@,
        None => Seq::empty(),
    }
}

fn or_empty(text: Option<String>) -> (t: String)
    ensures
        t@ == told(text),
{
    match text {
        Some(t) => t,
        None => String::new(),
    }
}

/// Whether this is the summary of the container: its first name without the
/// slashes before it, and what else the daemon tells.
pub open spec fn summarizes(summary: DockerContainerSummary, facts: ContainerFacts) -> bool {
    &&& summary.id@ == told(facts.id)
    &&& summary.name@ == if facts.names@.len() > 0 {
        without_leading(facts.names@[0]@, '/')
    } else {
        Seq::empty()
    }
    &&& summary.image@ == told(facts.image)
    &&& summary.state@ == told(facts.state)
    &&& summary.status@ == told(facts.status)
    &&& summary.created == match facts.created {
        Some(at) => at,
        None => 0,
    }
    &&& summary.ports == facts.ports
    &&& summary.networks == facts.networks
    &&& summary.labels == facts.labels
}

/// The summary of a container.
pub fn container_summary(facts: ContainerFacts) -> (summary: DockerContainerSummary)
    ensures
        summarizes(summary, facts),
{
    let name = if facts.names.len() > 0 {
        trim_start_char(facts.names[0].as_str(), '/')
    } else {
        String::new()
    };
    let created = match facts.created {
        Some(at) => at,
        None => 0,
    };
    DockerContainerSummary {
        id: or_empty(facts.id),
        name,
        image: or_empty(facts.image),
        state: or_empty(facts.state),
        status: or_empty(facts.status),
        created,
        ports: facts.ports,
        networks: facts.networks,
        labels: facts.labels,
    }
}

impl DockerListPlan {
    /// Whether this is what [`Self::finish`] gives.
    pub open spec fn finish_gives(
        self,
        listed: Result<Vec<ContainerFacts>, String>,
        response: RpcResponse<DockerListResponse>,
    ) -> bool {
        &&& response.responds_to(self.id@)
        &&& match listed {
            Ok(list) => {
                &&& response.answers(self.id@)
                &&& response.payload().containers@.len() == list@.len()
                &&& forall|i: int|
                    0 <= i < list@.len() ==> summarizes(
                        #[trigger] response.payload().containers@[i],
                        list@[i],
                    )
            },
            Err(e) => response.fails(
                self.id@,
                error_codes::GENERAL_ERROR,
                "Failed to list containers: "@ + e@,
            ),
        }
    }

    /// The response with the containers that the daemon lists.
    pub fn finish(self, listed: Result<Vec<ContainerFacts>, String>) -> (response: RpcResponse<
        DockerListResponse,
    >)
        ensures
            self.finish_gives(listed, response),
            response.responds_to(self.id@),
            match listed {
                Ok(list) => {
                    &&& response.answers(self.id@)
                    &&& response.payload().containers@.len() == list@.len()
                    &&& forall|i: int|
                        0 <= i < list@.len() ==> summarizes(
                            #[trigger] response.payload().containers@[i],
                            list@[i],
                        )
                },
                Err(e) => response.fails(
                    self.id@,
                    error_codes::GENERAL_ERROR,
                    "Failed to list containers: "@ + e@,
                ),
            },
    {
        match listed {
            Ok(list) => {
                let ghost all = list@;
                let mut containers: Vec<DockerContainerSummary> = Vec::new();
                for facts in it: list
                    invariant
                        all == it.seq(),
                        containers@.len() == it.index(),
                        forall|i: int|
                            0 <= i < it.index() ==> summarizes(#[trigger] containers@[i], all[i]),
                {
                    containers.push(container_summary(facts));
                }
                RpcResponse::success(self.id, DockerListResponse { containers })
            },
            Err(e) => RpcResponse::error(
                self.id,
                error_codes::GENERAL_ERROR,
                cat2("Failed to list containers: ", e.as_str()),
            ),
        }
    }
}

// ---------------------------------------------------------------------------
// docker.logs
// ---------------------------------------------------------------------------

/// Logs that are asked for.
pub struct DockerLogsPlan {
    pub id: String,
    pub container_id: String,
    pub stream_id: String,
    pub follow: bool,
    /// How many lines from the end, or "all".
    pub tail: String,
}

/// How many lines from the end are asked for.
pub open spec fn tail_text(tail: Option<u32>) -> Seq<char> {
    match tail {
        Some(n) => decimal(n as nat),
        None => "all"@,
    }
}

/// Whether this is what [`handle_docker_logs`] gives.
pub open spec fn docker_logs_begins<V>(
    id: String,
    params: Result<DockerLogsRequest, String>,
    r: Result<DockerLogsPlan, RpcResponse<V>>,
) -> bool {
    &&& r matches Err(response) ==> response.responds_to(id@)
    &&& match params {
        Ok(request) => {
            &&& r matches Ok(plan)
            &&& plan.id@ == id@
            &&& plan.container_id@ == request.container_id@
            &&& plan.stream_id@ == request.stream_id@
            &&& plan.follow == flag(request.follow)
            &&& plan.tail@ == tail_text(request.tail)
        },
        Err(e) => r matches Err(response) && response.rejects_params(id@, e@),
    }
}

/// Handle `docker.logs`: get the logs of a container, or stream them back.
pub fn handle_docker_logs<V>(id: String, params: Result<DockerLogsRequest, String>) -> (r: Result<
    DockerLogsPlan,
    RpcResponse<V>,
>)
    ensures
        docker_logs_begins(id, params, r),
        r matches Err(response) ==> response.responds_to(id@),
        match params {
            Ok(request) => {
                &&& r matches Ok(plan)
                &&& plan.id@ == id@
                &&& plan.container_id@ == request.container_id@
                &&& plan.stream_id@ == request.stream_id@
                &&& plan.follow == flag(request.follow)
                &&& plan.tail@ == tail_text(request.tail)
            },
            Err(e) => r matches Err(response) && response.rejects_params(id@, e@),
        },
{
    match params {
        Ok(request) => {
            let tail = match request.tail {
                Some(n) => to_decimal(n as u64),
                None => String::from_str("all"),
            };
            Ok(
                DockerLogsPlan {
                    id,
                    container_id: request.container_id,
                    stream_id: request.stream_id,
                    follow: is_set(request.follow),
                    tail,
                },
            )
        },
        Err(e) => Err(RpcResponse::invalid_params(id, e.as_str())),
    }
}

/// A piece of a container's log.
pub enum LogFrame {
    Stdout(Vec<u8>),
    Stderr(Vec<u8>),
    /// From a channel that is not shown.
    Other,
}

/// The logs of a container that is followed.
pub struct LogStream {
    pub stream_id: String,
}

/// What follows a piece of a log that is followed.
pub enum LogStep {
    Send(RpcRequest<StreamData>),
    Skip,
    Stop,
}

/// The logs of a container, collected.
pub struct LogCollector {
    pub stdout: Vec<u8>,
    pub stderr: Vec<u8>,
}

/// The result of logs that are not followed.
#[derive(Debug, Clone)]
pub struct DockerLogsReply {
    pub stdout: String,
    pub stderr: String,
}

impl DockerLogsPlan {
    /// Whether this is what [`Self::follow_reply`] gives.
    pub open spec fn follow_reply_gives(self, r: (RpcResponse<StreamingReply>, LogStream)) -> bool {
        &&& r.0.responds_to(self.id@)
        &&& r.0.answers(self.id@)
        &&& r.0.payload().streaming
        &&& r.0.payload().stream_id@ == self.stream_id@
        &&& r.1.stream_id@ == self.stream_id@
    }

    /// The response when the logs are followed: they come in notifications.
    pub fn follow_reply(self) -> (r: (RpcResponse<StreamingReply>, LogStream))
        ensures
            self.follow_reply_gives(r),
            r.0.responds_to(self.id@),
            r.0.answers(self.id@),
            r.0.payload().streaming,
            r.0.payload().stream_id@ == self.stream_id@,
            r.1.stream_id@ == self.stream_id@,
    {
        let reply = StreamingReply { streaming: true, stream_id: self.stream_id.clone() };
        (RpcResponse::success(self.id, reply), LogStream { stream_id: self.stream_id })
    }

    /// Whether this is what [`Self::collected_reply`] gives.
    pub open spec fn collected_reply_gives(
        self,
        logs: LogCollector,
        response: RpcResponse<DockerLogsReply>,
    ) -> bool {
        &&& response.responds_to(self.id@)
        &&& response.answers(self.id@)
        &&& response.payload().stdout@ == text_in_bytes(logs.stdout@)
        &&& response.payload().stderr@ == text_in_bytes(logs.stderr@)
    }

    /// The response with the logs that were collected.
    pub fn collected_reply(self, logs: LogCollector) -> (response: RpcResponse<DockerLogsReply>)
        ensures
            self.collected_reply_gives(logs, response),
            response.responds_to(self.id@),
            response.answers(self.id@),
            response.payload().stdout@ == text_in_bytes(logs.stdout@),
            response.payload().stderr@ == text_in_bytes(logs.stderr@),
    {
        let reply = DockerLogsReply {
            stdout: bytes_to_text(&logs.stdout),
            stderr: bytes_to_text(&logs.stderr),
        };
        RpcResponse::success(self.id, reply)
    }
}

impl LogStream {
    /// Whether this is what [`Self::on_frame`] gives.
    pub open spec fn on_frame_gives(self, frame: Result<LogFrame, String>, r: LogStep) -> bool {
        &&& match frame {
            Ok(LogFrame::Stdout(bytes)) => r matches LogStep::Send(note) && carries(
                note,
                self.stream_id@,
                StreamChannel::Stdout,
                bytes@,
            ),
            Ok(LogFrame::Stderr(bytes)) => r matches LogStep::Send(note) && carries(
                note,
                self.stream_id@,
                StreamChannel::Stderr,
                bytes@,
            ),
            Ok(LogFrame::Other) => r is Skip,
            Err(_) => r is Stop,
        }
    }

    /// What follows this piece of the log, or a failure to get one.
    pub fn on_frame(&self, frame: Result<LogFrame, String>) -> (r: LogStep)
        ensures
            self.on_frame_gives(frame, r),
            match frame {
                Ok(LogFrame::Stdout(bytes)) => r matches LogStep::Send(note) && carries(
                    note,
                    self.stream_id@,
                    StreamChannel::Stdout,
                    bytes@,
                ),
                Ok(LogFrame::Stderr(bytes)) => r matches LogStep::Send(note) && carries(
                    note,
                    self.stream_id@,
                    StreamChannel::Stderr,
                    bytes@,
                ),
                Ok(LogFrame::Other) => r is Skip,
                Err(_) => r is Stop,
            },
    {
        let id = self.stream_id.as_str();
        match frame {
            Ok(LogFrame::Stdout(bytes)) => LogStep::Send(
                data_notification(id, StreamChannel::Stdout, &bytes),
            ),
            Ok(LogFrame::Stderr(bytes)) => LogStep::Send(
                data_notification(id, StreamChannel::Stderr, &bytes),
            ),
            Ok(LogFrame::Other) => LogStep::Skip,
            Err(_) => LogStep::Stop,
        }
    }

    /// Whether this is what [`Self::on_end`] gives.
    pub open spec fn on_end_gives(self, note: RpcRequest<StreamEnd>) -> bool {
        &&& ends(note, self.stream_id@, 0)
    }

    /// What to send when the log has ended.
    pub fn on_end(&self) -> (note: RpcRequest<StreamEnd>)
        ensures
            self.on_end_gives(note),
            ends(note, self.stream_id@, 0),
    {
        end_notification(self.stream_id.as_str(), 0)
    }
}

/// What the pieces of a log wrote to standard output.
pub open spec fn stdout_of(frames: Seq<LogFrame>) -> Seq<u8>
    decreases frames.len(),
{
    if frames.len() == 0 {
        Seq::empty()
    } else {
        stdout_of(frames.drop_last()) + match frames.last() {
            LogFrame::Stdout(bytes) => bytes@,
            _ => Seq::empty(),
        }
    }
}

/// What the pieces of a log wrote to standard error.
pub open spec fn stderr_of(frames: Seq<LogFrame>) -> Seq<u8>
    decreases frames.len(),
{
    if frames.len() == 0 {
        Seq::empty()
    } else {
        stderr_of(frames.drop_last()) + match frames.last() {
            LogFrame::Stderr(bytes) => bytes@,
            _ => Seq::empty(),
        }
    }
}

/// Whether `after` is the collector `before` once it has taken in the piece.
pub open spec fn takes(before: LogCollector, after: LogCollector, piece: LogFrame) -> bool {
    &&& after.stdout@ == before.stdout@ + match piece {
        LogFrame::Stdout(bytes) => bytes@,
        _ => Seq::empty(),
    }
    &&& after.stderr@ == before.stderr@ + match piece {
        LogFrame::Stderr(bytes) => bytes@,
        _ => Seq::empty(),
    }
}

impl LogCollector {
    /// Whether this holds what the pieces wrote, channel by channel, in order.
    pub open spec fn holds(self, frames: Seq<LogFrame>) -> bool {
        self.stdout@ == stdout_of(frames) && self.stderr@ == stderr_of(frames)
    }

    /// A collector that holds nothing.
    pub fn new() -> (logs: LogCollector)
        ensures
            logs.holds(Seq::empty()),
    {
        LogCollector { stdout: Vec::new(), stderr: Vec::new() }
    }

    /// Whether this is what [`Self::on_frame`] gives.
    pub open spec fn on_frame_gives(
        self,
        after: Self,
        frame: Result<LogFrame, String>,
        goes_on: bool,
    ) -> bool {
        &&& goes_on == (frame is Ok)
        &&& match frame {
            Ok(piece) => takes(self, after, piece),
            Err(_) => after == self,
        }
    }

    /// Take in the next piece, or a failure to get one. Tells whether the
    /// collecting goes on.
    pub fn on_frame(&mut self, frame: Result<LogFrame, String>) -> (goes_on: bool)
        ensures
            old(self).on_frame_gives(*final(self), frame, goes_on),
            goes_on == (frame is Ok),
            match frame {
                Ok(piece) => takes(*old(self), *final(self), piece),
                Err(_) => *final(self) == *old(self),
            },
    {
        match frame {
            Ok(LogFrame::Stdout(bytes)) => {
                let mut bytes = bytes;
                self.stdout.append(&mut bytes);
                true
            },
            Ok(LogFrame::Stderr(bytes)) => {
                let mut bytes = bytes;
                self.stderr.append(&mut bytes);
                true
            },
            Ok(LogFrame::Other) => true,
            Err(_) => false,
        }
    }
}

/// A collector that held nothing and then took in the pieces one after the other
/// holds all that they wrote, channel by channel, in order.
pub proof fn law_collected_logs_are_whole(states: Seq<LogCollector>, frames: Seq<LogFrame>)
    requires
        states.len() == frames.len() + 1,
        states[0].holds(Seq::empty()),
        forall|i: int|
            0 <= i < frames.len() ==> takes(#[trigger] states[i], states[i + 1], frames[i]),
    ensures
        states.last().holds(frames),
    decreases frames.len(),
{
    if frames.len() > 0 {
        let n = frames.len() - 1;
        law_collected_logs_are_whole(states.drop_last(), frames.drop_last());
        assert(takes(states[n], states[n + 1], frames[n]));
    } else {
        assert(frames =~= Seq::empty());
    }
}

} // verus!
