//! Laws of what is told of containers.

use crate::encoding::text_in_bytes;
use crate::error_codes;
use crate::handlers::docker::{
    block_totals_gives, connect_failed_gives, container_figures_gives, docker_inspect_begins,
    docker_list_begins, docker_logs_begins, docker_stats_begins, keep_present_gives,
    network_totals_gives, present, read_total, rx_total, stderr_of, stdout_of, summarizes, takes,
    told_ids, tx_total, write_total, BlockBytes, ContainerFacts, ContainerFigures, ContainerRates,
    DockerInspectPlan, DockerListPlan, DockerLogsPlan, DockerLogsReply, DockerStatsPlan,
    InterfaceBytes, LogCollector, LogFrame, LogStep, LogStream, RawStats,
};
use crate::laws::text::law_leading;
use crate::methods::{
    ContainerStats, DockerContainerSummary, DockerInspectRequest, DockerListRequest,
    DockerListResponse, DockerLogsRequest, DockerStatsRequest, DockerStatsResponse,
};
use crate::number::decimal;
use crate::rpc::{RpcRequest, RpcResponse};
use crate::stream::{carries, ends, StreamChannel, StreamEnd, StreamingReply};
use crate::text::texts;
use vstd::prelude::*;

verus! {

/// Each figure of a container is the one that the daemon told under that name. Where
/// it told none, there is one processor and one byte of memory allowed, and nothing
/// is used.
pub proof fn law_told_figures_are_taken_over(
    container_id: &str,
    raw: RawStats,
    figures: ContainerFigures,
)
    requires
        container_figures_gives(container_id, raw, Some(figures)),
    ensures
        figures.cpu_total == raw.cpu_total,
        figures.precpu_total == raw.precpu_total,
        raw.system_cpu matches Some(n) ==> figures.system_cpu == n,
        raw.system_cpu is None ==> figures.system_cpu == 0,
        raw.presystem_cpu matches Some(n) ==> figures.presystem_cpu == n,
        raw.presystem_cpu is None ==> figures.presystem_cpu == 0,
        raw.online_cpus matches Some(n) ==> figures.online_cpus == n,
        raw.online_cpus is None ==> figures.online_cpus == 1,
        raw.memory_usage matches Some(n) ==> figures.memory_usage == n,
        raw.memory_usage is None ==> figures.memory_usage == 0,
        raw.memory_limit matches Some(n) ==> figures.memory_limit == n,
        raw.memory_limit is None ==> figures.memory_limit == 1,
        raw.pids matches Some(n) ==> figures.pids as int == n as int % 0x1_0000_0000,
        raw.pids is None ==> figures.pids == 0,
        raw.networks is None ==> figures.rx_bytes == 0 && figures.tx_bytes == 0,
        raw.networks matches Some(list) ==> figures.rx_bytes == rx_total(list@)
            && figures.tx_bytes == tx_total(list@),
        raw.block_io is None ==> figures.block_read == 0 && figures.block_write == 0,
        raw.block_io matches Some(list) ==> figures.block_read == read_total(list@)
            && figures.block_write == write_total(list@),
        figures.id@ == container_id@.take(
            if container_id@.len() < 12 {
                container_id@.len() as int
            } else {
                12
            },
        ),
        raw.name@.len() == 0 ==> figures.name@ == figures.id@,
{
    assert(container_id@.take(container_id@.len() as int) =~= container_id@);
}

/// Of two readings of a container the one that tells more memory in use gives the
/// larger usage, whatever the limits are, and readings that tell the same usage give
/// the same, and so for the limit and for each other figure.
pub proof fn law_figures_go_by_their_own_readings(
    container_id: &str,
    a: RawStats,
    b: RawStats,
    x: ContainerFigures,
    y: ContainerFigures,
)
    requires
        container_figures_gives(container_id, a, Some(x)),
        container_figures_gives(container_id, b, Some(y)),
    ensures
        a.memory_usage is Some && b.memory_usage is Some ==> (a.memory_usage->0 < b.memory_usage->0
            <==> x.memory_usage < y.memory_usage),
        a.memory_usage == b.memory_usage ==> x.memory_usage == y.memory_usage,
        a.memory_limit is Some && b.memory_limit is Some ==> (a.memory_limit->0 < b.memory_limit->0
            <==> x.memory_limit < y.memory_limit),
        a.memory_limit == b.memory_limit ==> x.memory_limit == y.memory_limit,
        a.cpu_total == b.cpu_total <==> x.cpu_total == y.cpu_total,
        a.precpu_total == b.precpu_total <==> x.precpu_total == y.precpu_total,
        a.system_cpu == b.system_cpu ==> x.system_cpu == y.system_cpu,
        a.presystem_cpu == b.presystem_cpu ==> x.presystem_cpu == y.presystem_cpu,
        a.online_cpus == b.online_cpus ==> x.online_cpus == y.online_cpus,
        a.networks == b.networks ==> x.rx_bytes == y.rx_bytes && x.tx_bytes == y.tx_bytes,
        a.block_io == b.block_io ==> x.block_read == y.block_read && x.block_write
            == y.block_write,
        a.pids == b.pids ==> x.pids == y.pids,
{
}

/// A container is shown under its name without the slashes before it.
pub proof fn law_container_name_is_shown(
    container_id: &str,
    raw: RawStats,
    figures: ContainerFigures,
    slashes: Seq<char>,
    name: Seq<char>,
)
    requires
        container_figures_gives(container_id, raw, Some(figures)),
        raw.name@ == slashes + name,
        raw.name@.len() > 0,
        forall|i: int| 0 <= i < slashes.len() ==> #[trigger] slashes[i] == '/',
        name.len() > 0 ==> name[0] != '/',
    ensures
        figures.name@ == name,
{
    law_leading(slashes, name, '/');
}

/// Figures are had exactly if each of the four totals can be told in 64 bits.
pub proof fn law_figures_are_had_where_the_totals_fit(
    container_id: &str,
    raw: RawStats,
    r: Option<ContainerFigures>,
    networks: Vec<InterfaceBytes>,
    blocks: Vec<BlockBytes>,
)
    requires
        container_figures_gives(container_id, raw, r),
        raw.networks == Some(networks),
        raw.block_io == Some(blocks),
    ensures
        r is Some <==> {
            &&& rx_total(networks@) <= u64::MAX
            &&& tx_total(networks@) <= u64::MAX
            &&& read_total(blocks@) <= u64::MAX
            &&& write_total(blocks@) <= u64::MAX
        },
{
}

/// The totals of the interfaces are sums: what one more interface received adds to
/// what was received, and what it sent to what was sent.
pub proof fn law_interface_totals_are_sums(list: Seq<InterfaceBytes>, one: InterfaceBytes)
    ensures
        rx_total(Seq::empty()) == 0,
        tx_total(Seq::empty()) == 0,
        rx_total(list.push(one)) == rx_total(list) + one.rx,
        tx_total(list.push(one)) == tx_total(list) + one.tx,
{
    assert(list.push(one).drop_last() =~= list);
}

/// The totals of the block devices are sums: what is counted as read adds to what
/// was read and what is counted as written to what was written, in either spelling,
/// and nothing else counts.
pub proof fn law_block_totals_are_sums(list: Seq<BlockBytes>, one: BlockBytes)
    ensures
        read_total(Seq::empty()) == 0,
        write_total(Seq::empty()) == 0,
        one.op@ == "read"@ || one.op@ == "Read"@ ==> read_total(list.push(one)) == read_total(list)
            + one.value,
        one.op@ != "read"@ && one.op@ != "Read"@ ==> read_total(list.push(one)) == read_total(list),
        one.op@ == "write"@ || one.op@ == "Write"@ ==> write_total(list.push(one)) == write_total(
            list,
        ) + one.value,
        one.op@ != "write"@ && one.op@ != "Write"@ ==> write_total(list.push(one)) == write_total(
            list,
        ),
{
    assert(list.push(one).drop_last() =~= list);
}

/// The totals are told in their order: received and sent, read and written.
pub proof fn law_totals_are_told_in_order(
    interfaces: Vec<InterfaceBytes>,
    traffic: (u64, u64),
    blocks: Vec<BlockBytes>,
    moved: (u64, u64),
)
    ensures
        network_totals_gives(interfaces, Some(traffic)) ==> traffic.0 == rx_total(interfaces@)
            && traffic.1 == tx_total(interfaces@),
        network_totals_gives(interfaces, None) ==> rx_total(interfaces@) > u64::MAX || tx_total(
            interfaces@,
        ) > u64::MAX,
        block_totals_gives(blocks, Some(moved)) ==> moved.0 == read_total(blocks@) && moved.1
            == write_total(blocks@),
        block_totals_gives(blocks, None) ==> read_total(blocks@) > u64::MAX || write_total(blocks@)
            > u64::MAX,
{
}

/// The stats of a container hold its ID, its name, the number of its processes and
/// the rates, each in its own field.
pub proof fn law_stats_hold_the_rates<F>(
    figures: ContainerFigures,
    rates: ContainerRates<F>,
    stats: ContainerStats<F>,
)
    requires
        figures.stats_gives(rates, stats),
    ensures
        stats.id@ == figures.id@,
        stats.name@ == figures.name@,
        stats.pids == figures.pids,
        stats.cpu_percent == rates.cpu_percent,
        stats.memory_usage_mb == rates.memory_usage_mb,
        stats.memory_limit_mb == rates.memory_limit_mb,
        stats.memory_percent == rates.memory_percent,
        stats.network_rx_mb == rates.network_rx_mb,
        stats.network_tx_mb == rates.network_tx_mb,
        stats.block_read_mb == rates.block_read_mb,
        stats.block_write_mb == rates.block_write_mb,
{
}

/// What is had is kept in its order, and what is not had is left out.
pub proof fn law_present_values_are_kept<T>(
    list: Seq<Option<T>>,
    one: T,
    given: Vec<Option<T>>,
    kept: Vec<T>,
)
    ensures
        present(Seq::<Option<T>>::empty()) == Seq::<T>::empty(),
        present(list.push(None)) == present(list),
        present(list.push(Some(one))) == present(list).push(one),
        keep_present_gives(given, kept) ==> kept@ == present(given@),
{
    assert(list.push(None).drop_last() =~= list);
    assert(list.push(Some(one)).drop_last() =~= list);
}

/// The containers whose ID is told are taken in their order, and the others are
/// left out.
pub proof fn law_told_ids_are_kept(list: Seq<Option<String>>, id: String)
    ensures
        told_ids(Seq::empty()) == Seq::<Seq<char>>::empty(),
        told_ids(list.push(None)) == told_ids(list),
        told_ids(list.push(Some(id))) == told_ids(list).push(id@),
{
    assert(list.push(None).drop_last() =~= list);
    assert(list.push(Some(id)).drop_last() =~= list);
}

/// Stats are asked for of the containers that the request names, or, where it names
/// none, of all that run and tell their ID.
pub proof fn law_stats_are_of_the_named_containers<F>(
    plan: DockerStatsPlan,
    lists: bool,
    running: Result<Vec<Option<String>>, String>,
    r: Result<Vec<String>, RpcResponse<DockerStatsResponse<F>>>,
)
    requires
        plan.lists_running_gives(lists),
        plan.on_listed_gives(running, r),
    ensures
        lists <==> plan.named@.len() == 0,
        plan.named@.len() > 0 ==> r is Ok && texts(r->Ok_0@) == texts(plan.named@),
        plan.named@.len() == 0 ==> (r is Ok <==> running is Ok),
        plan.named@.len() == 0 && running is Ok ==> texts(r->Ok_0@) == told_ids(running->Ok_0@),
        r matches Err(response) ==> running is Err && response.fails(
            plan.id@,
            error_codes::GENERAL_ERROR,
            "Failed to list containers: "@ + running->Err_0@,
        ),
{
}

/// The stats that were had are answered, in their order.
pub proof fn law_stats_are_answered<F>(
    plan: DockerStatsPlan,
    stats: Vec<Option<ContainerStats<F>>>,
    response: RpcResponse<DockerStatsResponse<F>>,
)
    requires
        plan.finish_gives(stats, response),
    ensures
        response.answers(plan.id@),
        response.payload().containers@ == present(stats@),
{
}

/// The summary of a container says under each name what was told under it, and is
/// empty where nothing was.
pub proof fn law_summary_tells_the_facts(
    summary: DockerContainerSummary,
    facts: ContainerFacts,
)
    requires
        summarizes(summary, facts),
    ensures
        facts.id matches Some(t) ==> summary.id@ == t@,
        facts.id is None ==> summary.id@.len() == 0,
        facts.image matches Some(t) ==> summary.image@ == t@,
        facts.image is None ==> summary.image@.len() == 0,
        facts.state matches Some(t) ==> summary.state@ == t@,
        facts.state is None ==> summary.state@.len() == 0,
        facts.status matches Some(t) ==> summary.status@ == t@,
        facts.status is None ==> summary.status@.len() == 0,
        facts.created matches Some(at) ==> summary.created == at,
        facts.created is None ==> summary.created == 0,
        facts.names@.len() == 0 ==> summary.name@.len() == 0,
        summary.ports == facts.ports,
        summary.networks == facts.networks,
        summary.labels == facts.labels,
{
}

/// A container is listed under the first of its names, without the slashes before
/// it.
pub proof fn law_first_name_is_listed(
    summary: DockerContainerSummary,
    facts: ContainerFacts,
    slashes: Seq<char>,
    name: Seq<char>,
)
    requires
        summarizes(summary, facts),
        facts.names@.len() > 0,
        facts.names@[0]@ == slashes + name,
        forall|i: int| 0 <= i < slashes.len() ==> #[trigger] slashes[i] == '/',
        name.len() > 0 ==> name[0] != '/',
    ensures
        summary.name@ == name,
{
    law_leading(slashes, name, '/');
}

/// A listing has one summary for each container, in the daemon's order.
pub proof fn law_listing_has_every_container(
    plan: DockerListPlan,
    told: Result<Vec<ContainerFacts>, String>,
    response: RpcResponse<DockerListResponse>,
)
    requires
        plan.finish_gives(told, response),
    ensures
        told matches Ok(list) ==> {
            &&& response.answers(plan.id@)
            &&& response.payload().containers@.len() == list@.len()
            &&& forall|i: int|
                0 <= i < list@.len() ==> summarizes(
                    #[trigger] response.payload().containers@[i],
                    list@[i],
                )
        },
        told matches Err(e) ==> response.fails(
            plan.id@,
            error_codes::GENERAL_ERROR,
            "Failed to list containers: "@ + e@,
        ),
{
}

/// The information of a container is answered as it was had.
pub proof fn law_inspection_is_answered<V>(
    plan: DockerInspectPlan,
    info: Result<V, String>,
    response: RpcResponse<V>,
)
    requires
        plan.finish_gives(info, response),
    ensures
        info matches Ok(value) ==> response.succeeds(plan.id@, value),
        info matches Err(e) ==> response.fails(
            plan.id@,
            error_codes::GENERAL_ERROR,
            "Failed to inspect container: "@ + e@,
        ),
{
}

/// A request about containers is carried out as it was asked, or is refused for its
/// parameters.
pub proof fn law_container_requests_are_carried_over<F, V>(
    id: String,
    stats: DockerStatsRequest,
    stats_plan: DockerStatsPlan,
    list: DockerListRequest,
    list_plan: DockerListPlan,
    inspect: DockerInspectRequest,
    inspect_plan: DockerInspectPlan,
    logs: DockerLogsRequest,
    logs_plan: DockerLogsPlan,
)
    ensures
        docker_stats_begins::<F>(id, Ok(stats), Ok(stats_plan)) ==> stats_plan.id@ == id@
            && stats_plan.named == stats.container_ids,
        docker_list_begins(id, Ok(list), Ok(list_plan)) ==> list_plan.id@ == id@ && list_plan.all
            == list.all,
        docker_inspect_begins::<V>(id, Ok(inspect), Ok(inspect_plan)) ==> inspect_plan.id@ == id@
            && inspect_plan.container_id@ == inspect.container_id@,
        docker_logs_begins::<V>(id, Ok(logs), Ok(logs_plan)) ==> {
            &&& logs_plan.id@ == id@
            &&& logs_plan.container_id@ == logs.container_id@
            &&& logs_plan.stream_id@ == logs.stream_id@
            &&& logs_plan.follow <==> logs.follow == Some(true)
            &&& logs.tail matches Some(n) ==> logs_plan.tail@ == decimal(n as nat)
            &&& logs.tail is None ==> logs_plan.tail@ == "all"@
        },
{
}

/// A request about containers whose parameters can be read is begun, and one whose
/// parameters cannot be read is refused.
pub proof fn law_container_requests_are_begun<F, V>(
    id: String,
    stats: Result<DockerStatsRequest, String>,
    r: Result<DockerStatsPlan, RpcResponse<DockerStatsResponse<F>>>,
    list: Result<DockerListRequest, String>,
    s: Result<DockerListPlan, RpcResponse<DockerListResponse>>,
    inspect: Result<DockerInspectRequest, String>,
    t: Result<DockerInspectPlan, RpcResponse<V>>,
    logs: Result<DockerLogsRequest, String>,
    u: Result<DockerLogsPlan, RpcResponse<V>>,
)
    requires
        docker_stats_begins(id, stats, r),
        docker_list_begins(id, list, s),
        docker_inspect_begins(id, inspect, t),
        docker_logs_begins(id, logs, u),
    ensures
        r is Ok <==> stats is Ok,
        s is Ok <==> list is Ok,
        t is Ok <==> inspect is Ok,
        u is Ok <==> logs is Ok,
        r matches Err(response) ==> response.rejects_params(id@, stats->Err_0@),
        s matches Err(response) ==> response.rejects_params(id@, list->Err_0@),
        t matches Err(response) ==> response.rejects_params(id@, inspect->Err_0@),
        u matches Err(response) ==> response.rejects_params(id@, logs->Err_0@),
{
}

/// Where the daemon is not reached, the answer says why.
pub proof fn law_missing_daemon_is_told<V>(id: String, why: &str, response: RpcResponse<V>)
    requires
        connect_failed_gives(id, why, response),
    ensures
        response.fails(id@, error_codes::GENERAL_ERROR, "Failed to connect to Docker: "@ + why@),
{
}

/// A frame that is followed goes out on the channel that it came from, with all its
/// bytes; a frame of no channel is passed over, and an error ends the stream.
pub proof fn law_followed_frames_keep_their_channel(
    stream: LogStream,
    frame: Result<LogFrame, String>,
    step: LogStep,
)
    requires
        stream.on_frame_gives(frame, step),
    ensures
        frame matches Ok(LogFrame::Stdout(bytes)) ==> (step matches LogStep::Send(note) && carries(
            note,
            stream.stream_id@,
            StreamChannel::Stdout,
            bytes@,
        )),
        frame matches Ok(LogFrame::Stderr(bytes)) ==> (step matches LogStep::Send(note) && carries(
            note,
            stream.stream_id@,
            StreamChannel::Stderr,
            bytes@,
        )),
        frame matches Ok(LogFrame::Other) <==> step is Skip,
        frame is Err <==> step is Stop,
{
}

/// Followed logs are answered with their stream, and end without an error code.
pub proof fn law_followed_logs_have_their_stream(
    plan: DockerLogsPlan,
    reply: (RpcResponse<StreamingReply>, LogStream),
    stream: LogStream,
    note: RpcRequest<StreamEnd>,
)
    requires
        plan.follow_reply_gives(reply),
        stream.on_end_gives(note),
    ensures
        reply.0.answers(plan.id@),
        reply.0.payload().streaming,
        reply.0.payload().stream_id@ == plan.stream_id@,
        reply.1.stream_id@ == plan.stream_id@,
        ends(note, stream.stream_id@, 0),
{
}

/// Collected logs grow by each frame at the end of its own channel, and the other
/// channel stays as it is.
pub proof fn law_collected_frames_keep_their_channel(
    before: LogCollector,
    after: LogCollector,
    frame: LogFrame,
    frames: Seq<LogFrame>,
)
    requires
        takes(before, after, frame),
    ensures
        frame matches LogFrame::Stdout(bytes) ==> after.stdout@ == before.stdout@ + bytes@
            && after.stderr@ == before.stderr@,
        frame matches LogFrame::Stderr(bytes) ==> after.stderr@ == before.stderr@ + bytes@
            && after.stdout@ == before.stdout@,
        frame is Other ==> after.stdout@ == before.stdout@ && after.stderr@ == before.stderr@,
        stdout_of(Seq::empty()) == Seq::<u8>::empty(),
        stderr_of(Seq::empty()) == Seq::<u8>::empty(),
        before.holds(frames) <==> before.stdout@ == stdout_of(frames) && before.stderr@
            == stderr_of(frames),
        before.holds(frames) ==> after.holds(frames.push(frame)),
{
    assert(frames.push(frame).drop_last() =~= frames);
    assert(before.stdout@ + Seq::<u8>::empty() =~= before.stdout@);
    assert(before.stderr@ + Seq::<u8>::empty() =~= before.stderr@);
}

/// Collecting goes on until an error comes, which changes nothing.
pub proof fn law_collecting_stops_at_an_error(
    before: LogCollector,
    after: LogCollector,
    frame: Result<LogFrame, String>,
    goes_on: bool,
)
    requires
        before.on_frame_gives(after, frame, goes_on),
    ensures
        goes_on <==> frame is Ok,
        frame matches Ok(piece) ==> takes(before, after, piece),
        frame is Err ==> after == before,
{
}

/// The answer with collected logs holds what came on each channel, as text.
pub proof fn law_collected_logs_are_answered(
    plan: DockerLogsPlan,
    logs: LogCollector,
    response: RpcResponse<DockerLogsReply>,
)
    requires
        plan.collected_reply_gives(logs, response),
    ensures
        response.answers(plan.id@),
        response.payload().stdout@ == text_in_bytes(logs.stdout@),
        response.payload().stderr@ == text_in_bytes(logs.stderr@),
{
}

} // verus!
