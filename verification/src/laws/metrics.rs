//! Laws of the metrics of the host.

use crate::command::{CommandOutput, CommandSpec};
use crate::config::MetricsConfig;
use crate::encoding::text_in_bytes;
use crate::handlers::metrics::{
    counts, docker_command_gives, docker_sudo_command_gives, docker_told, first_speed,
    gpu_command_gives, gpu_metrics_gives, line_speed, memory_speed_command_gives,
    metrics_collect_answered, network_totals_gives, observe_network_gives, parse_memory_speed_gives,
    probe_docker_metrics_gives, probe_gpu_metrics_gives, pseudo, real_disks, received_total,
    reprobe_docker_metrics_gives, sent_total, snapshot_of, DockerProbe, GpuReading, InterfaceTotals,
    MetricsFacts, NetworkSnapshot, NetworkTotals, ProbeCache, RateWindow, DOCKER_INFO_FORMAT,
};
use crate::laws::text::{joined_by, law_joined_parts_between_white, law_lines};
use crate::laws::envelope::law_bytes_are_read_as_text;
use crate::metrics::{DiskMetrics, DockerMetrics, GpuMetrics, MetricsPayload};
use crate::number::{number_in, read_or_zero};
use crate::rpc::RpcResponse;
use crate::split::{lines_of, words};
use crate::text::{holds_part, is_white, opens_with, trimmed};
use vstd::prelude::*;
use vstd::utf8::encode_utf8;

verus! {

/// Sizes in megabytes are whole megabytes, rounded down: the memory told is not more
/// than there is and less than one megabyte short of it. What is used is told as
/// used and what there is as the total, for the memory and for the swap space.
pub proof fn law_memory_is_told_in_whole_megabytes<F>(
    payload: MetricsPayload<F>,
    facts: MetricsFacts<F>,
    config: MetricsConfig,
)
    requires
        snapshot_of(payload, facts, config),
    ensures
        payload.memory.total_mb * 1_048_576 <= facts.total_memory < (payload.memory.total_mb + 1)
            * 1_048_576,
        payload.memory.used_mb * 1_048_576 <= facts.used_memory < (payload.memory.used_mb + 1)
            * 1_048_576,
        payload.memory.available_mb * 1_048_576 <= facts.available_memory < (
        payload.memory.available_mb + 1) * 1_048_576,
        payload.memory.swap_total_mb * 1_048_576 <= facts.total_swap < (
        payload.memory.swap_total_mb + 1) * 1_048_576,
        payload.memory.swap_used_mb * 1_048_576 <= facts.used_swap < (payload.memory.swap_used_mb
            + 1) * 1_048_576,
{
}

/// Where no more is used than there is, no more is told to be used than there is.
pub proof fn law_used_memory_stays_within_the_total<F>(
    payload: MetricsPayload<F>,
    facts: MetricsFacts<F>,
    config: MetricsConfig,
)
    requires
        snapshot_of(payload, facts, config),
    ensures
        facts.used_memory <= facts.total_memory ==> payload.memory.used_mb
            <= payload.memory.total_mb,
        facts.used_swap <= facts.total_swap ==> payload.memory.swap_used_mb
            <= payload.memory.swap_total_mb,
        facts.available_memory <= facts.total_memory ==> payload.memory.available_mb
            <= payload.memory.total_mb,
{
}

/// A snapshot says under each name what the host told under it.
pub proof fn law_snapshot_tells_the_facts<F>(
    payload: MetricsPayload<F>,
    facts: MetricsFacts<F>,
    config: MetricsConfig,
)
    requires
        snapshot_of(payload, facts, config),
    ensures
        facts.hostname matches Some(t) ==> payload.hostname@ == t@,
        facts.hostname is None ==> payload.hostname@ == "unknown"@,
        facts.os_name matches Some(t) ==> payload.os.name@ == t@,
        facts.os_name is None ==> payload.os.name@ == facts.default_os@,
        facts.os_version matches Some(t) ==> payload.os.version@ == t@,
        facts.os_version is None ==> payload.os.version@ == "unknown"@,
        facts.kernel matches Some(t) ==> payload.os.kernel@ == t@,
        facts.kernel is None ==> payload.os.kernel@ == "unknown"@,
        payload.os.arch@ == facts.arch@,
        payload.uptime_secs == facts.uptime_secs,
        facts.cpu_model matches Some(t) ==> payload.cpu.model@ == t@,
        facts.cpu_model is None ==> payload.cpu.model@.len() == 0,
        payload.cpu.cores == facts.cpu_cores,
        payload.cpu.usage_percent == facts.cpu_usage,
        payload.cpu.temperature_celsius == facts.cpu_temperature,
        payload.cpu.mhz == facts.cpu_mhz,
        payload.memory.speed_mhz == facts.memory_speed,
        payload.network.interface@ == facts.network.primary@,
        payload.network.rx_bytes_per_sec == facts.rx_rate,
        payload.network.tx_bytes_per_sec == facts.tx_rate,
        payload.network.rx_total_bytes == facts.network.rx_total,
        payload.network.tx_total_bytes == facts.network.tx_total,
        payload.network.latency_ms == facts.latency_ms,
        payload.disks@ == real_disks(facts.disks@),
        config.include_gpu ==> payload.gpu == facts.gpu,
        !config.include_gpu ==> payload.gpu is None,
        config.include_docker ==> payload.docker == facts.docker,
        !config.include_docker ==> payload.docker is None,
{
}

/// Two hosts that differ only in what they received send the same totals of what was
/// sent, and two that differ only in the swap space used the same total of it.
pub proof fn law_snapshot_fields_go_by_their_own_facts<F>(
    a: MetricsFacts<F>,
    x: MetricsPayload<F>,
    b: MetricsFacts<F>,
    y: MetricsPayload<F>,
    config: MetricsConfig,
)
    requires
        snapshot_of(x, a, config),
        snapshot_of(y, b, config),
    ensures
        a.network.tx_total == b.network.tx_total <==> x.network.tx_total_bytes
            == y.network.tx_total_bytes,
        a.network.rx_total == b.network.rx_total <==> x.network.rx_total_bytes
            == y.network.rx_total_bytes,
        a.total_swap == b.total_swap ==> x.memory.swap_total_mb == y.memory.swap_total_mb,
        a.used_swap == b.used_swap ==> x.memory.swap_used_mb == y.memory.swap_used_mb,
        a.total_swap <= b.total_swap ==> x.memory.swap_total_mb <= y.memory.swap_total_mb,
        a.used_swap <= b.used_swap ==> x.memory.swap_used_mb <= y.memory.swap_used_mb,
        a.total_memory <= b.total_memory ==> x.memory.total_mb <= y.memory.total_mb,
        a.used_memory <= b.used_memory ==> x.memory.used_mb <= y.memory.used_mb,
        a.available_memory <= b.available_memory ==> x.memory.available_mb
            <= y.memory.available_mb,
{
}

/// A snapshot of a host tells as received what its counting interfaces received, and
/// as sent what they sent.
pub proof fn law_snapshot_tells_the_traffic<F>(
    list: Vec<InterfaceTotals>,
    payload: MetricsPayload<F>,
    facts: MetricsFacts<F>,
    config: MetricsConfig,
)
    requires
        network_totals_gives(list, Some(facts.network)),
        snapshot_of(payload, facts, config),
    ensures
        payload.network.rx_total_bytes == received_total(list@),
        payload.network.tx_total_bytes == sent_total(list@),
{
}

/// A snapshot that is asked for is answered as it was taken.
pub proof fn law_snapshot_is_answered<F>(
    id: String,
    metrics: MetricsPayload<F>,
    response: RpcResponse<MetricsPayload<F>>,
)
    requires
        metrics_collect_answered(id, metrics, response),
    ensures
        response.succeeds(id@, metrics),
{
}

/// An interface counts unless it is a loopback, a container's or a bridge.
pub proof fn law_counted_interfaces(name: Seq<char>, rest: Seq<char>)
    ensures
        !counts("lo"@ + rest),
        !counts("veth"@ + rest),
        !counts("docker"@ + rest),
        !counts("br-"@ + rest),
        !opens_with(name, "lo"@) && !opens_with(name, "veth"@) && !opens_with(name, "docker"@)
            && !opens_with(name, "br-"@) ==> counts(name),
{
    crate::laws::text::law_opening("lo"@, rest, name);
    crate::laws::text::law_opening("veth"@, rest, name);
    crate::laws::text::law_opening("docker"@, rest, name);
    crate::laws::text::law_opening("br-"@, rest, name);
}

/// The totals of the network are sums: what one more interface received adds to what
/// was received and what it sent to what was sent, if it counts, and nothing does if
/// it does not.
pub proof fn law_network_totals_are_sums(list: Seq<InterfaceTotals>, one: InterfaceTotals)
    ensures
        received_total(Seq::empty()) == 0,
        sent_total(Seq::empty()) == 0,
        counts(one.name@) ==> received_total(list.push(one)) == received_total(list) + one.rx
            && sent_total(list.push(one)) == sent_total(list) + one.tx,
        !counts(one.name@) ==> received_total(list.push(one)) == received_total(list)
            && sent_total(list.push(one)) == sent_total(list),
{
    assert(list.push(one).drop_last() =~= list);
}

/// What was sent does not depend on what was received, nor the other way round.
pub proof fn law_directions_are_apart(a: Seq<InterfaceTotals>, b: Seq<InterfaceTotals>)
    requires
        a.len() == b.len(),
        forall|i: int| 0 <= i < a.len() ==> (#[trigger] a[i]).name@ == b[i].name@,
    ensures
        (forall|i: int| 0 <= i < a.len() ==> (#[trigger] a[i]).tx == b[i].tx) ==> sent_total(a)
            == sent_total(b),
        (forall|i: int| 0 <= i < a.len() ==> (#[trigger] a[i]).rx == b[i].rx) ==> received_total(a)
            == received_total(b),
    decreases a.len(),
{
    if a.len() > 0 {
        let c = a.drop_last();
        let d = b.drop_last();
        assert forall|i: int| 0 <= i < c.len() implies (#[trigger] c[i]).name@ == d[i].name@ by {
            assert(c[i] == a[i]);
        }
        law_directions_are_apart(c, d);
        assert(a[a.len() - 1].name@ == b[a.len() - 1].name@);
        if forall|i: int| 0 <= i < a.len() ==> (#[trigger] a[i]).tx == b[i].tx {
            assert forall|i: int| 0 <= i < c.len() implies (#[trigger] c[i]).tx == d[i].tx by {
                assert(c[i] == a[i]);
            }
            assert(a[a.len() - 1].tx == b[a.len() - 1].tx);
        }
        if forall|i: int| 0 <= i < a.len() ==> (#[trigger] a[i]).rx == b[i].rx {
            assert forall|i: int| 0 <= i < c.len() implies (#[trigger] c[i]).rx == d[i].rx by {
                assert(c[i] == a[i]);
            }
            assert(a[a.len() - 1].rx == b[a.len() - 1].rx);
        }
    }
}

/// The primary interface carried more than each counting one before it and no less
/// than each one behind it, both directions together. There is none where nothing was
/// carried.
pub proof fn law_primary_interface_carried_the_most(
    list: Vec<InterfaceTotals>,
    totals: NetworkTotals,
    i: int,
)
    requires
        network_totals_gives(list, Some(totals)),
        0 <= i < list@.len(),
        counts(list@[i].name@),
        list@[i].rx + list@[i].tx > 0,
    ensures
        totals.rx_total == received_total(list@),
        totals.tx_total == sent_total(list@),
        exists|p: int|
            {
                &&& 0 <= p < list@.len()
                &&& (#[trigger] list@[p]).name@ == totals.primary@
                &&& counts(list@[p].name@)
                &&& list@[i].rx + list@[i].tx <= list@[p].rx + list@[p].tx
                &&& i < p ==> list@[i].rx + list@[i].tx < list@[p].rx + list@[p].tx
            },
{
    assert(crate::handlers::metrics::traffic(list@[i]) > 0);
    let p = choose|p: int|
        {
            &&& 0 <= p < list@.len()
            &&& (#[trigger] list@[p]).name@ == totals.primary@
            &&& crate::handlers::metrics::leads(list@, p)
        };
    assert(crate::handlers::metrics::traffic(list@[i]) <= crate::handlers::metrics::traffic(
        list@[p],
    ));
    assert(list@[p].name@ == totals.primary@);
}

/// Where nothing was carried there is no primary interface.
pub proof fn law_idle_host_has_no_primary_interface(
    list: Vec<InterfaceTotals>,
    totals: NetworkTotals,
)
    requires
        network_totals_gives(list, Some(totals)),
        forall|i: int|
            0 <= i < list@.len() ==> !counts((#[trigger] list@[i]).name@) || list@[i].rx
                + list@[i].tx == 0,
    ensures
        totals.primary@.len() == 0,
{
    assert forall|i: int| 0 <= i < list@.len() implies crate::handlers::metrics::traffic(
        #[trigger] list@[i],
    ) == 0 by {}
}

/// Totals are had exactly if they, and what each counting interface carried both
/// ways, can be told in 64 bits.
pub proof fn law_network_totals_are_had_where_they_fit(
    list: Vec<InterfaceTotals>,
    r: Option<NetworkTotals>,
)
    requires
        network_totals_gives(list, r),
    ensures
        r is Some <==> {
            &&& received_total(list@) <= u64::MAX
            &&& sent_total(list@) <= u64::MAX
            &&& forall|i: int|
                0 <= i < list@.len() && counts((#[trigger] list@[i]).name@) ==> list@[i].rx
                    + list@[i].tx <= u64::MAX
        },
{
    if r is Some {
        assert forall|i: int|
            0 <= i < list@.len() && counts((#[trigger] list@[i]).name@) implies list@[i].rx
            + list@[i].tx <= u64::MAX by {
            assert(crate::handlers::metrics::traffic(list@[i]) <= u64::MAX);
        }
    }
    if (forall|i: int|
        0 <= i < list@.len() && counts((#[trigger] list@[i]).name@) ==> list@[i].rx + list@[i].tx
            <= u64::MAX) {
        assert forall|i: int| 0 <= i < list@.len() implies crate::handlers::metrics::traffic(
            #[trigger] list@[i],
        ) <= u64::MAX by {}
    }
}

/// Disks of the system's own file systems are left out, and the others are kept in
/// their order.
pub proof fn law_real_disks_are_kept<F>(disks: Seq<DiskMetrics<F>>, one: DiskMetrics<F>)
    ensures
        real_disks(Seq::<DiskMetrics<F>>::empty()) == Seq::<DiskMetrics<F>>::empty(),
        pseudo(one.filesystem@) ==> real_disks(disks.push(one)) == real_disks(disks),
        !pseudo(one.filesystem@) ==> real_disks(disks.push(one)) == real_disks(disks).push(one),
        pseudo(one.filesystem@) <==> {
            ||| one.filesystem@ == "tmpfs"@
            ||| one.filesystem@ == "devtmpfs"@
            ||| one.filesystem@ == "overlay"@
            ||| one.filesystem@ == "squashfs"@
            ||| one.filesystem@ == "efivarfs"@
        },
{
    reveal(Seq::filter);
    assert(disks.push(one).drop_last() =~= disks);
    assert(disks.push(one).last() == one);
    let f = |d: DiskMetrics<F>| !pseudo(d.filesystem@);
    assert(real_disks(disks) == disks.filter(f));
    assert(real_disks(disks.push(one)) == disks.push(one).filter(f));
}

/// The first look at the network gives no rate. A later one gives what was carried
/// since the last, in each direction, if more than a tenth of a second has passed.
/// The last look is kept.
pub proof fn law_rates_are_of_what_was_carried_since(
    before: Option<NetworkSnapshot>,
    after: Option<NetworkSnapshot>,
    now: NetworkSnapshot,
    r: Option<RateWindow>,
)
    requires
        observe_network_gives(before, after, now, r),
    ensures
        after == Some(now),
        before is None ==> r is None,
        before matches Some(b) ==> {
            &&& r is Some <==> now.at_nanos - b.at_nanos > 100_000_000
            &&& r matches Some(w) ==> w.elapsed_nanos == now.at_nanos - b.at_nanos
            &&& r matches Some(w) ==> w.rx_delta == if now.rx_total >= b.rx_total {
                now.rx_total - b.rx_total
            } else {
                0
            }
            &&& r matches Some(w) ==> w.tx_delta == if now.tx_total >= b.tx_total {
                now.tx_total - b.tx_total
            } else {
                0
            }
        },
{
}

/// A result that was set is what is got for thirty seconds from then, and after that
/// nothing is.
pub proof fn law_held_result<T>(
    cache: ProbeCache<T>,
    at: u64,
    value: T,
    now: u64,
    got: Option<&T>,
)
    requires
        cache.holds_from(at, value),
        cache.get_gives(now, got),
    ensures
        now - at < 30_000_000_000 <==> cache.at(now) == Some(value),
        now - at >= 30_000_000_000 <==> cache.at(now) is None,
        got is Some <==> now - at < 30_000_000_000,
        got matches Some(v) ==> *v == value,
{
}

/// The memory speed is the number behind the label on the first line that has one.
pub proof fn law_memory_speed(line: Seq<char>, rest: Seq<Seq<char>>)
    ensures
        first_speed(Seq::empty()) is None,
        line_speed(line) is Some ==> first_speed(seq![line] + rest) == line_speed(line),
        line_speed(line) is None ==> first_speed(seq![line] + rest) == first_speed(rest),
        !holds_part(line, "Speed:"@) || holds_part(line, "Unknown"@) || words(line).len() < 2
            ==> line_speed(line) is None,
        holds_part(line, "Speed:"@) && !holds_part(line, "Unknown"@) && words(line).len() >= 2
            ==> line_speed(line) == number_in(words(line)[1], 10, u64::MAX as int),
{
    assert((seq![line] + rest)[0] == line);
    assert((seq![line] + rest).drop_first() =~= rest);
}

/// The memory speed is read off the text that the command printed.
pub proof fn law_memory_speed_is_read(stdout: Vec<u8>, r: Option<u64>)
    requires
        parse_memory_speed_gives(stdout, r),
    ensures
        r is Some <==> first_speed(lines_of(text_in_bytes(stdout@))) is Some,
        r matches Some(mhz) ==> mhz == first_speed(lines_of(text_in_bytes(stdout@)))->0,
{
}

/// The commands of the probes.
pub proof fn law_probe_commands(
    memory: CommandSpec,
    gpu: CommandSpec,
    docker: CommandSpec,
    again: CommandSpec,
)
    requires
        docker_command_gives(docker),
        docker_sudo_command_gives(again),
        memory_speed_command_gives(memory),
        gpu_command_gives(gpu),
    ensures
        memory.calls("sudo"@, seq!["dmidecode"@, "-t"@, "memory"@]),
        gpu.calls(
            "nvidia-smi"@,
            seq![
                "--query-gpu=gpu_name,memory.total,memory.used,utilization.gpu,temperature.gpu"@,
                "--format=csv,noheader,nounits"@,
            ],
        ),
        docker.calls("docker"@, seq!["info"@, "--format"@, DOCKER_INFO_FORMAT@]),
        again.calls("sudo"@, seq!["docker"@, "info"@, "--format"@, DOCKER_INFO_FORMAT@]),
        DOCKER_INFO_FORMAT@ == "{{.ServerVersion}}|{{.Containers}}|{{.ContainersRunning}}"@,
        memory.env is None,
        gpu.env is None,
        docker.env is None,
        again.env is None,
{
}

/// What the graphics card tells is read off the first line that was printed, in the
/// order in which it was asked for: the name, the memory, the memory used, the load
/// and the temperature.
pub proof fn law_gpu_line(
    front: Seq<char>,
    parts: Seq<Seq<char>>,
    back: Seq<char>,
    rest: Seq<char>,
    output: CommandOutput,
    r: Option<GpuReading>,
)
    requires
        parts.len() > 0,
        forall|k: int, i: int|
            0 <= k < parts.len() && 0 <= i < parts[k].len() ==> #[trigger] parts[k][i] != ',',
        forall|i: int| 0 <= i < front.len() ==> is_white(#[trigger] front[i]),
        forall|i: int| 0 <= i < back.len() ==> is_white(#[trigger] back[i]),
        parts[0].len() > 0 && !is_white(parts[0][0]),
        parts.last().len() > 0 && !is_white(parts.last().last()),
        forall|i: int|
            0 <= i < (front + joined_by(parts, ',') + back).len() ==> #[trigger] (front + joined_by(
                parts,
                ',',
            ) + back)[i] != '\n',
        back.len() > 0 ==> back.last() != '\r',
        output.success,
        output.stdout@ == encode_utf8(front + joined_by(parts, ',') + back + seq!['\n'] + rest),
        probe_gpu_metrics_gives(Some(output), r),
    ensures
        r is Some <==> parts.len() >= 5,
        r matches Some(reading) ==> {
            &&& reading.name@ == trimmed(parts[0])
            &&& reading.memory_total_mb == read_or_zero(trimmed(parts[1]), u64::MAX as int)
            &&& reading.memory_used_mb == read_or_zero(trimmed(parts[2]), u64::MAX as int)
            &&& reading.usage_percent@ == trimmed(parts[3])
            &&& reading.temperature_celsius@ == trimmed(parts[4])
        },
{
    let line = front + joined_by(parts, ',') + back;
    law_bytes_are_read_as_text(line + seq!['\n'] + rest, output.stdout@);
    law_joined_parts_between_white(front, parts, back, ',');
    assert(line.len() == 0 || line.last() != '\r') by {
        if back.len() > 0 {
            assert(line.last() == back.last());
        } else if line.len() > 0 {
            assert(front + joined_by(parts, ',') + back =~= front + joined_by(parts, ','));
            let empty: Seq<char> = Seq::empty();
            crate::laws::text::law_joined_ends(parts, ',');
            assert(line.last() == parts.last().last());
            assert(is_white('\r'));
        }
    }
    law_lines(line, rest);
    let all = lines_of(line + seq!['\n'] + rest);
    assert(all[0] == line);
    assert(all.len() > 0);
}

/// A probe of the graphics card that did not run, or failed, gives nothing.
pub proof fn law_failed_gpu_probe_gives_nothing(
    output: Option<CommandOutput>,
    r: Option<GpuReading>,
)
    requires
        probe_gpu_metrics_gives(output, r),
        output is None || !output->0.success,
    ensures
        r is None,
{
}

/// The metrics of the graphics card hold what was read, each in its own field.
pub proof fn law_gpu_metrics_hold_the_reading<F>(
    reading: GpuReading,
    usage: F,
    temperature: F,
    gpu: GpuMetrics<F>,
)
    requires
        gpu_metrics_gives(reading, usage, temperature, gpu),
    ensures
        gpu.name@ == reading.name@,
        gpu.memory_total_mb == reading.memory_total_mb,
        gpu.memory_used_mb == reading.memory_used_mb,
        gpu.usage_percent == usage,
        gpu.temperature_celsius == temperature,
{
}

/// What Docker tells of itself is read off in the order in which it was asked for:
/// the version, the containers and those that run.
pub proof fn law_docker_line(
    front: Seq<char>,
    parts: Seq<Seq<char>>,
    back: Seq<char>,
    metrics: Option<DockerMetrics>,
    stdout: Seq<u8>,
)
    requires
        parts.len() > 0,
        forall|k: int, i: int|
            0 <= k < parts.len() && 0 <= i < parts[k].len() ==> #[trigger] parts[k][i] != '|',
        forall|i: int| 0 <= i < front.len() ==> is_white(#[trigger] front[i]),
        forall|i: int| 0 <= i < back.len() ==> is_white(#[trigger] back[i]),
        parts[0].len() > 0 && !is_white(parts[0][0]),
        parts.last().len() > 0 && !is_white(parts.last().last()),
        stdout == encode_utf8(front + joined_by(parts, '|') + back),
        docker_told(metrics, stdout),
    ensures
        metrics is Some <==> parts.len() >= 3,
        metrics matches Some(docker) ==> {
            &&& docker.installed
            &&& docker.version@ == parts[0]
            &&& docker.containers_total == read_or_zero(parts[1], u32::MAX as int)
            &&& docker.containers_running == read_or_zero(parts[2], u32::MAX as int)
        },
{
    law_bytes_are_read_as_text(front + joined_by(parts, '|') + back, stdout);
    law_joined_parts_between_white(front, parts, back, '|');
}

/// Docker is asked again with `sudo` where it refused, and not at all where it is not
/// there; what it printed is read where it answered.
pub proof fn law_docker_is_asked_again(
    output: Option<CommandOutput>,
    probe: DockerProbe,
    again: Option<CommandOutput>,
    r: Option<DockerMetrics>,
)
    requires
        probe_docker_metrics_gives(output, probe),
        reprobe_docker_metrics_gives(again, r),
    ensures
        output is None ==> probe == DockerProbe::Done(None),
        output is Some && output->0.success ==> (probe matches DockerProbe::Done(metrics)
            && docker_told(metrics, output->0.stdout@)),
        output is Some && !output->0.success ==> (probe matches DockerProbe::Retry(command)
            && command.program@ == "sudo"@ && command.args@.len() == 4 && command.args@[0]@
            == "docker"@ && command.args@[1]@ == "info"@ && command.args@[2]@ == "--format"@
            && command.args@[3]@ == DOCKER_INFO_FORMAT@ && command.env is None),
        again is None || !again->0.success ==> r is None,
        again is Some && again->0.success ==> docker_told(r, again->0.stdout@),
{
    if output is Some && !output->0.success {
        let command = probe->Retry_0;
        crate::laws::envelope::law_command_calls(
            command,
            "sudo"@,
            seq![
                "docker"@,
                "info"@,
                "--format"@,
                crate::handlers::metrics::DOCKER_INFO_FORMAT@,
            ],
            Seq::empty(),
        );
        assert(command.args@[0]@ == "docker"@);
        assert(command.args@[1]@ == "info"@);
        assert(command.args@[2]@ == "--format"@);
        assert(command.args@[3]@ == DOCKER_INFO_FORMAT@);
    }
}

} // verus!
