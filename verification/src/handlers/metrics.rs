//! Metrics collection: what the host tells, made into a snapshot.
//!
//! `F` stands for a floating point number, which is computed elsewhere and only
//! carried here.

use crate::command::{words_of, CommandOutput, CommandSpec};
use crate::config::MetricsConfig;
use crate::encoding::{bytes_to_text, text_in_bytes};
use crate::handlers::exec::{known, or_unknown};
use crate::metrics::{CpuMetrics, DiskMetrics, DockerMetrics, GpuMetrics, MemoryMetrics};
use crate::metrics::{MetricsPayload, NetworkMetrics, OsInfo};
use crate::number::{number_in, parse_number, parse_or_zero, parse_u32_or_zero, read_or_zero};
use crate::rpc::RpcResponse;
use crate::split::{lines, lines_of, pieces, split, split_words, words, Cut};
use crate::text::{contains_text, holds_part, opens_with, same_text, starts_with, texts, trim};
use crate::text::trimmed;
use vstd::prelude::*;

verus! {

/// Nanoseconds in a second.
pub const NANOS_PER_SEC: u64 = 1_000_000_000;

/// How long the result of a probe is used again.
pub const PROBE_CACHE_TTL_SECS: u64 = 30;

/// How long two looks at the network have to lie apart for a rate.
pub const MIN_RATE_WINDOW_NANOS: u64 = 100_000_000;

/// Bytes in a megabyte.
pub const MEGABYTE: u64 = 1_048_576;

// ---------------------------------------------------------------------------
// Disks
// ---------------------------------------------------------------------------

/// Whether a file system has no disk of its own.
pub open spec fn pseudo(filesystem: Seq<char>) -> bool {
    ||| filesystem == "tmpfs"@
    ||| filesystem == "devtmpfs"@
    ||| filesystem == "overlay"@
    ||| filesystem == "squashfs"@
    ||| filesystem == "efivarfs"@
}

/// Whether a file system has no disk of its own.
pub fn is_pseudo(filesystem: &str) -> (yes: bool)
    ensures
        yes == pseudo(filesystem@),
{
    same_text(filesystem, "tmpfs") || same_text(filesystem, "devtmpfs") || same_text(
        filesystem,
        "overlay",
    ) || same_text(filesystem, "squashfs") || same_text(filesystem, "efivarfs")
}

/// The disks that are reported, in order.
pub open spec fn real_disks<F>(disks: Seq<DiskMetrics<F>>) -> Seq<DiskMetrics<F>> {
    disks.filter(|d: DiskMetrics<F>| !pseudo(d.filesystem@))
}

/// The disks that are reported, in order: those of pseudo file systems are not.
pub fn filter_disks<F>(disks: Vec<DiskMetrics<F>>) -> (r: Vec<DiskMetrics<F>>)
    ensures
        r@ == real_disks(disks@),
{
    let ghost all = disks@;
    let ghost keep = |d: DiskMetrics<F>| !pseudo(d.filesystem@);
    let mut r: Vec<DiskMetrics<F>> = Vec::new();
    proof {
        reveal(Seq::filter);
    }
    assert(all.take(0) =~= Seq::empty());
    assert(r@ =~= all.take(0).filter(keep));
    for disk in it: disks
        invariant
            all == it.seq(),
            keep == (|d: DiskMetrics<F>| !pseudo(d.filesystem@)),
            r@ == all.take(it.index() as int).filter(keep),
    {
        let ghost i = it.index() as int;
        assert(all.take(i + 1).drop_last() =~= all.take(i));
        assert(all.take(i + 1).last() == disk);
        proof {
            reveal(Seq::filter);
        }
        if !is_pseudo(disk.filesystem.as_str()) {
            r.push(disk);
        }
    }
    assert(all.take(all.len() as int) =~= all);
    r
}

// ---------------------------------------------------------------------------
// Network
// ---------------------------------------------------------------------------

/// What a network interface has carried since the host started.
pub struct InterfaceTotals {
    pub name: String,
    pub rx: u64,
    pub tx: u64,
}

/// What all interfaces that count have carried, and the name of the one with the
/// most traffic.
pub struct NetworkTotals {
    pub primary: String,
    pub rx_total: u64,
    pub tx_total: u64,
}

/// Whether an interface counts: loopback, container and bridge interfaces do
/// not.
pub open spec fn counts(name: Seq<char>) -> bool {
    &&& !opens_with(name, "lo"@)
    &&& !opens_with(name, "veth"@)
    &&& !opens_with(name, "docker"@)
    &&& !opens_with(name, "br-"@)
}

/// Whether an interface counts.
pub fn is_counted(name: &str) -> (yes: bool)
    ensures
        yes == counts(name@),
{
    !(starts_with(name, "lo") || starts_with(name, "veth") || starts_with(name, "docker")
        || starts_with(name, "br-"))
}

/// What the interfaces that count have received.
pub open spec fn received_total(list: Seq<InterfaceTotals>) -> int
    decreases list.len(),
{
    if list.len() == 0 {
        0
    } else {
        received_total(list.drop_last()) + if counts(list.last().name@) {
            list.last().rx as int
        } else {
            0
        }
    }
}

/// What the interfaces that count have sent.
pub open spec fn sent_total(list: Seq<InterfaceTotals>) -> int
    decreases list.len(),
{
    if list.len() == 0 {
        0
    } else {
        sent_total(list.drop_last()) + if counts(list.last().name@) {
            list.last().tx as int
        } else {
            0
        }
    }
}

/// The traffic of an interface; none where it does not count.
pub open spec fn traffic(one: InterfaceTotals) -> int {
    if counts(one.name@) {
        one.rx + one.tx
    } else {
        0
    }
}

/// The first interface with the most traffic, if there is any traffic.
pub open spec fn is_primary(list: Seq<InterfaceTotals>, name: Seq<char>) -> bool {
    ||| (name == Seq::<char>::empty() && forall|i: int|
        0 <= i < list.len() ==> traffic(#[trigger] list[i]) == 0)
    ||| exists|p: int|
        {
            &&& 0 <= p < list.len()
            &&& #[trigger] list[p].name@ == name
            &&& leads(list, p)
        }
}

/// Whether no interface has more traffic than the one at `p`, those before it
/// have less, and it has some.
pub open spec fn leads(list: Seq<InterfaceTotals>, p: int) -> bool {
    &&& traffic(list[p]) > 0
    &&& forall|i: int| 0 <= i < list.len() ==> traffic(#[trigger] list[i]) <= traffic(list[p])
    &&& forall|i: int| 0 <= i < p ==> traffic(#[trigger] list[i]) < traffic(list[p])
}

/// Whether the totals, and the traffic of each interface, fit their type.
pub open spec fn network_fits(list: Seq<InterfaceTotals>) -> bool {
    &&& received_total(list) <= u64::MAX
    &&& sent_total(list) <= u64::MAX
    &&& forall|i: int| 0 <= i < list.len() ==> traffic(#[trigger] list[i]) <= u64::MAX
}

proof fn lemma_totals_grow(list: Seq<InterfaceTotals>, n: int)
    requires
        0 <= n <= list.len(),
    ensures
        0 <= received_total(list.take(n)) <= received_total(list),
        0 <= sent_total(list.take(n)) <= sent_total(list),
    decreases list.len(),
{
    if n == list.len() {
        assert(list.take(n) =~= list);
        if n > 0 {
            lemma_totals_grow(list.drop_last(), n - 1);
            assert(list.drop_last().take(n - 1) =~= list.drop_last());
        }
    } else {
        lemma_totals_grow(list.drop_last(), n);
        assert(list.drop_last().take(n) =~= list.take(n));
    }
}

/// Whether this is what [`network_totals`] gives.
pub open spec fn network_totals_gives(
    list: Vec<InterfaceTotals>,
    r: Option<NetworkTotals>,
) -> bool {
    &&& match r {
        Some(totals) => {
            &&& network_fits(list@)
            &&& totals.rx_total == received_total(list@)
            &&& totals.tx_total == sent_total(list@)
            &&& is_primary(list@, totals.primary@)
        },
        None => !network_fits(list@),
    }
}

/// What the interfaces have carried and which is the primary one, if the totals
/// fit their type.
pub fn network_totals(list: &Vec<InterfaceTotals>) -> (r: Option<NetworkTotals>)
    ensures
        network_totals_gives(*list, r),
        match r {
            Some(totals) => {
                &&& network_fits(list@)
                &&& totals.rx_total == received_total(list@)
                &&& totals.tx_total == sent_total(list@)
                &&& is_primary(list@, totals.primary@)
            },
            None => !network_fits(list@),
        },
{
    let n = list.len();
    let mut rx_total: u64 = 0;
    let mut tx_total: u64 = 0;
    let mut max_traffic: u64 = 0;
    let mut best: usize = 0;
    let mut i: usize = 0;
    while i < n
        invariant
            n == list@.len(),
            i <= n,
            rx_total == received_total(list@.take(i as int)),
            tx_total == sent_total(list@.take(i as int)),
            forall|j: int| 0 <= j < i ==> traffic(#[trigger] list@[j]) <= max_traffic,
            max_traffic > 0 ==> best < i && traffic(list@[best as int]) == max_traffic,
            max_traffic > 0 ==> forall|j: int|
                0 <= j < best ==> traffic(#[trigger] list@[j]) < max_traffic,
        decreases n - i,
    {
        proof {
            lemma_totals_grow(list@, i + 1);
            assert(list@.take(i + 1).drop_last() =~= list@.take(i as int));
            assert(list@.take(i + 1).last() == list@[i as int]);
        }
        if is_counted(list[i].name.as_str()) {
            let rx = list[i].rx;
            let tx = list[i].tx;
            rx_total = match rx_total.checked_add(rx) {
                Some(sum) => sum,
                None => return None,
            };
            tx_total = match tx_total.checked_add(tx) {
                Some(sum) => sum,
                None => return None,
            };
            assert(traffic(list@[i as int]) == rx + tx);
            let one = match rx.checked_add(tx) {
                Some(sum) => sum,
                None => return None,
            };
            if one > max_traffic {
                max_traffic = one;
                best = i;
            }
        }
        i += 1;
    }
    assert(list@.take(n as int) =~= list@);
    let primary = if max_traffic > 0 {
        assert(leads(list@, best as int));
        list[best].name.clone()
    } else {
        String::new()
    };
    Some(NetworkTotals { primary, rx_total, tx_total })
}

/// The last look at the network.
pub struct NetworkSnapshot {
    pub rx_total: u64,
    pub tx_total: u64,
    /// When that was, in nanoseconds on a clock that does not go back.
    pub at_nanos: u64,
}

/// What was carried between two looks that lie far enough apart for a rate.
pub struct RateWindow {
    pub rx_delta: u64,
    pub tx_delta: u64,
    pub elapsed_nanos: u64,
}

/// `a - b`, or zero where that is less.
pub open spec fn less(a: u64, b: u64) -> u64 {
    if a > b {
        (a - b) as u64
    } else {
        0
    }
}

/// What was carried since an earlier look, if the looks lie far enough apart.
pub open spec fn window(before: Option<NetworkSnapshot>, now: NetworkSnapshot) -> Option<
    RateWindow,
> {
    match before {
        Some(b) => if less(now.at_nanos, b.at_nanos) > MIN_RATE_WINDOW_NANOS {
            Some(
                RateWindow {
                    rx_delta: less(now.rx_total, b.rx_total),
                    tx_delta: less(now.tx_total, b.tx_total),
                    elapsed_nanos: less(now.at_nanos, b.at_nanos),
                },
            )
        } else {
            None
        },
        None => None,
    }
}

/// Whether this is what [`observe_network`] gives.
pub open spec fn observe_network_gives(
    before: Option<NetworkSnapshot>,
    after: Option<NetworkSnapshot>,
    now: NetworkSnapshot,
    r: Option<RateWindow>,
) -> bool {
    &&& r == window(before, now)
    &&& after == Some(now)
}

/// Take a new look at the network: what was carried since the last one, if they
/// lie far enough apart. Without that there is no rate.
pub fn observe_network(snapshot: &mut Option<NetworkSnapshot>, now: NetworkSnapshot) -> (r: Option<
    RateWindow,
>)
    ensures
        observe_network_gives(*old(snapshot), *final(snapshot), now, r),
        r == window(*old(snapshot), now),
        *final(snapshot) == Some(now),
{
    let r = match &*snapshot {
        Some(before) => {
            let elapsed_nanos = now.at_nanos.saturating_sub(before.at_nanos);
            if elapsed_nanos > MIN_RATE_WINDOW_NANOS {
                Some(
                    RateWindow {
                        rx_delta: now.rx_total.saturating_sub(before.rx_total),
                        tx_delta: now.tx_total.saturating_sub(before.tx_total),
                        elapsed_nanos,
                    },
                )
            } else {
                None
            }
        },
        None => None,
    };
    *snapshot = Some(now);
    r
}

// ---------------------------------------------------------------------------
// Probes
// ---------------------------------------------------------------------------

/// The result of a probe, and when it was had, in nanoseconds on a clock that
/// does not go back.
pub struct ProbeCache<T> {
    pub held: Option<(u64, T)>,
}

impl<T> ProbeCache<T> {
    /// The result that is still used at a time.
    pub open spec fn at(self, now_nanos: u64) -> Option<T> {
        match self.held {
            Some((at, value)) => if less(now_nanos, at) < PROBE_CACHE_TTL_SECS * NANOS_PER_SEC {
                Some(value)
            } else {
                None
            },
            None => None,
        }
    }

    /// A cache that holds nothing.
    pub fn new() -> (cache: Self)
        ensures
            forall|now: u64| #[trigger] cache.at(now) is None,
    {
        ProbeCache { held: None }
    }

    /// Whether this is what [`Self::get`] gives.
    pub open spec fn get_gives(self, now_nanos: u64, r: Option<&T>) -> bool {
        match r {
            Some(value) => self.at(now_nanos) == Some(*value),
            None => self.at(now_nanos) is None,
        }
    }

    /// The result that is still used at this time.
    pub fn get(&self, now_nanos: u64) -> (r: Option<&T>)
        ensures
            self.get_gives(now_nanos, r),
            match r {
                Some(value) => self.at(now_nanos) == Some(*value),
                None => self.at(now_nanos) is None,
            },
    {
        match &self.held {
            Some((at, value)) => {
                let age = now_nanos.saturating_sub(*at);
                if age < PROBE_CACHE_TTL_SECS * NANOS_PER_SEC {
                    Some(value)
                } else {
                    None
                }
            },
            None => None,
        }
    }

    /// Whether this holds the result, had at this time.
    pub open spec fn holds_from(self, now_nanos: u64, value: T) -> bool {
        self.held == Some((now_nanos, value))
    }

    /// Hold a result that was had at this time.
    pub fn set(&mut self, now_nanos: u64, value: T)
        ensures
            final(self).holds_from(now_nanos, value),
            final(self).held == Some((now_nanos, value)),
    {
        self.held = Some((now_nanos, value));
    }
}

/// A result is used for so long after it was had, and not any longer.
pub proof fn law_probe_result_is_used_for_its_time<T>(
    cache: ProbeCache<T>,
    had_nanos: u64,
    value: T,
    now_nanos: u64,
)
    requires
        cache.held == Some((had_nanos, value)),
        had_nanos <= now_nanos,
    ensures
        cache.at(now_nanos) == if now_nanos - had_nanos < PROBE_CACHE_TTL_SECS * NANOS_PER_SEC {
            Some(value)
        } else {
            None
        },
{
}

/// The speed that a line of `dmidecode -t memory` tells.
pub open spec fn line_speed(line: Seq<char>) -> Option<int> {
    if holds_part(line, "Speed:"@) && !holds_part(line, "Unknown"@) && words(line).len() > 1 {
        number_in(words(line)[1], 10, u64::MAX as int)
    } else {
        None
    }
}

/// The first speed that one of the lines tells.
pub open spec fn first_speed(lines: Seq<Seq<char>>) -> Option<int>
    decreases lines.len(),
{
    if lines.len() == 0 {
        None
    } else if line_speed(lines[0]) is Some {
        line_speed(lines[0])
    } else {
        first_speed(lines.drop_first())
    }
}

/// Whether this is what [`memory_speed_command`] gives.
pub open spec fn memory_speed_command_gives(command: CommandSpec) -> bool {
    &&& command.calls("sudo"@, seq!["dmidecode"@, "-t"@, "memory"@])
    &&& command.env is None
}

/// The command that tells the speed of the memory.
pub fn memory_speed_command() -> (command: CommandSpec)
    ensures
        memory_speed_command_gives(command),
        command.calls("sudo"@, seq!["dmidecode"@, "-t"@, "memory"@]),
        command.env is None,
{
    let args = vec!["dmidecode", "-t", "memory"];
    assert(words_of(args@) =~= seq!["dmidecode"@, "-t"@, "memory"@]);
    CommandSpec::new("sudo", &args)
}

/// The speed that a line tells.
pub fn parse_speed_line(line: &str) -> (r: Option<u64>)
    ensures
        match r {
            Some(mhz) => line_speed(line@) == Some(mhz as int),
            None => line_speed(line@) is None,
        },
{
    if contains_text(line, "Speed:") && !contains_text(line, "Unknown") {
        let parts = split_words(line);
        assert(texts(parts@).len() == parts@.len());
        if parts.len() > 1 {
            assert(texts(parts@)[1] == parts@[1]@);
            return parse_number(parts[1].as_str(), 10, u64::MAX);
        }
    }
    None
}

/// Whether this is what [`parse_memory_speed`] gives.
pub open spec fn parse_memory_speed_gives(stdout: Vec<u8>, r: Option<u64>) -> bool {
    &&& match r {
        Some(mhz) => first_speed(lines_of(text_in_bytes(stdout@))) == Some(mhz as int),
        None => first_speed(lines_of(text_in_bytes(stdout@))) is None,
    }
}

/// The speed of the memory in MHz that the output of `dmidecode` tells.
pub fn parse_memory_speed(stdout: &Vec<u8>) -> (r: Option<u64>)
    ensures
        parse_memory_speed_gives(*stdout, r),
        match r {
            Some(mhz) => first_speed(lines_of(text_in_bytes(stdout@))) == Some(mhz as int),
            None => first_speed(lines_of(text_in_bytes(stdout@))) is None,
        },
{
    let text = bytes_to_text(stdout);
    let list = lines(text.as_str());
    let ghost all = lines_of(text@);
    let n = list.len();
    let mut i: usize = 0;
    assert(all.skip(0) =~= all);
    while i < n
        invariant
            n == list@.len(),
            n == all.len(),
            i <= n,
            texts(list@) == all,
            first_speed(all) == first_speed(all.skip(i as int)),
            all == lines_of(text_in_bytes(stdout@)),
        decreases n - i,
    {
        assert(all.skip(i as int)[0] == texts(list@)[i as int]);
        assert(texts(list@)[i as int] == list@[i as int]@);
        assert(all.skip(i as int).drop_first() =~= all.skip(i + 1));
        match parse_speed_line(list[i].as_str()) {
            Some(mhz) => return Some(mhz),
            None => {},
        }
        i += 1;
    }
    None
}

/// What `nvidia-smi` tells of the first GPU. The last two parts are numbers as
/// text.
pub struct GpuReading {
    pub name: String,
    pub memory_total_mb: u64,
    pub memory_used_mb: u64,
    pub usage_percent: String,
    pub temperature_celsius: String,
}

/// Whether this is what [`gpu_command`] gives.
pub open spec fn gpu_command_gives(command: CommandSpec) -> bool {
    &&& command.calls(
        "nvidia-smi"@,
        seq![
            "--query-gpu=gpu_name,memory.total,memory.used,utilization.gpu,temperature.gpu"@,
            "--format=csv,noheader,nounits"@,
        ],
    )
    &&& command.env is None
}

/// The command that tells about GPUs.
pub fn gpu_command() -> (command: CommandSpec)
    ensures
        gpu_command_gives(command),
        command.calls(
            "nvidia-smi"@,
            seq![
                "--query-gpu=gpu_name,memory.total,memory.used,utilization.gpu,temperature.gpu"@,
                "--format=csv,noheader,nounits"@,
            ],
        ),
        command.env is None,
{
    let args = vec![
        "--query-gpu=gpu_name,memory.total,memory.used,utilization.gpu,temperature.gpu",
        "--format=csv,noheader,nounits",
    ];
    assert(words_of(args@) =~= seq![
        "--query-gpu=gpu_name,memory.total,memory.used,utilization.gpu,temperature.gpu"@,
        "--format=csv,noheader,nounits"@,
    ]);
    CommandSpec::new("nvidia-smi", &args)
}

/// The fields of the first line of what `nvidia-smi` prints.
pub open spec fn gpu_fields(stdout: Seq<u8>) -> Option<Seq<Seq<char>>> {
    let all = lines_of(text_in_bytes(stdout));
    if all.len() == 0 {
        None
    } else {
        let parts = pieces(trimmed(all[0]), Cut::At(','), None);
        if parts.len() < 5 {
            None
        } else {
            Some(parts)
        }
    }
}

/// Whether this is the reading that the fields tell.
pub open spec fn reads(reading: GpuReading, fields: Seq<Seq<char>>) -> bool {
    &&& reading.name@ == trimmed(fields[0])
    &&& reading.memory_total_mb == read_or_zero(trimmed(fields[1]), u64::MAX as int)
    &&& reading.memory_used_mb == read_or_zero(trimmed(fields[2]), u64::MAX as int)
    &&& reading.usage_percent@ == trimmed(fields[3])
    &&& reading.temperature_celsius@ == trimmed(fields[4])
}

/// Whether this is what [`probe_gpu_metrics`] gives.
pub open spec fn probe_gpu_metrics_gives(
    output: Option<CommandOutput>,
    r: Option<GpuReading>,
) -> bool {
    &&& match output {
        Some(out) => if out.success {
            match gpu_fields(out.stdout@) {
                Some(fields) => r matches Some(reading) && reads(reading, fields),
                None => r is None,
            }
        } else {
            r is None
        },
        None => r is None,
    }
}

/// What `nvidia-smi` tells, if it could be run with success.
pub fn probe_gpu_metrics(output: Option<CommandOutput>) -> (r: Option<GpuReading>)
    ensures
        probe_gpu_metrics_gives(output, r),
        match output {
            Some(out) => if out.success {
                match gpu_fields(out.stdout@) {
                    Some(fields) => r matches Some(reading) && reads(reading, fields),
                    None => r is None,
                }
            } else {
                r is None
            },
            None => r is None,
        },
{
    let out = match output {
        Some(out) => out,
        None => return None,
    };
    if !out.success {
        return None;
    }
    let stdout = bytes_to_text(&out.stdout);
    let all = lines(stdout.as_str());
    assert(texts(all@).len() == all@.len());
    if all.len() == 0 {
        return None;
    }
    assert(texts(all@)[0] == all@[0]@);
    let line = trim(all[0].as_str());
    let parts = split(line.as_str(), Cut::At(','), None);
    let ghost fields = pieces(line@, Cut::At(','), None);
    assert(fields.len() == parts@.len());
    if parts.len() < 5 {
        return None;
    }
    assert(forall|i: int| 0 <= i < parts@.len() ==> fields[i] == (#[trigger] parts@[i])@);
    let total = trim(parts[1].as_str());
    let used = trim(parts[2].as_str());
    Some(
        GpuReading {
            name: trim(parts[0].as_str()),
            memory_total_mb: parse_or_zero(total.as_str()),
            memory_used_mb: parse_or_zero(used.as_str()),
            usage_percent: trim(parts[3].as_str()),
            temperature_celsius: trim(parts[4].as_str()),
        },
    )
}

/// Whether this is what [`gpu_metrics`] gives.
pub open spec fn gpu_metrics_gives<F>(
    reading: GpuReading,
    usage: F,
    temperature: F,
    gpu: GpuMetrics<F>,
) -> bool {
    &&& gpu.name == reading.name
    &&& gpu.memory_total_mb == reading.memory_total_mb
    &&& gpu.memory_used_mb == reading.memory_used_mb
    &&& gpu.usage_percent == usage
    &&& gpu.temperature_celsius == temperature
}

/// The metrics of a GPU, with its two fractions as numbers.
pub fn gpu_metrics<F>(reading: GpuReading, usage: F, temperature: F) -> (gpu: GpuMetrics<F>)
    ensures
        gpu_metrics_gives(reading, usage, temperature, gpu),
        gpu.name == reading.name,
        gpu.memory_total_mb == reading.memory_total_mb,
        gpu.memory_used_mb == reading.memory_used_mb,
        gpu.usage_percent == usage,
        gpu.temperature_celsius == temperature,
{
    GpuMetrics {
        name: reading.name,
        memory_total_mb: reading.memory_total_mb,
        memory_used_mb: reading.memory_used_mb,
        usage_percent: usage,
        temperature_celsius: temperature,
    }
}

/// How `docker info` is asked to print.
pub const DOCKER_INFO_FORMAT: &'static str =
    "{{.ServerVersion}}|{{.Containers}}|{{.ContainersRunning}}";

/// Whether this is what [`docker_command`] gives.
pub open spec fn docker_command_gives(command: CommandSpec) -> bool {
    &&& command.calls("docker"@, seq!["info"@, "--format"@, DOCKER_INFO_FORMAT@])
    &&& command.env is None
}

/// The command that tells about Docker.
pub fn docker_command() -> (command: CommandSpec)
    ensures
        docker_command_gives(command),
        command.calls("docker"@, seq!["info"@, "--format"@, DOCKER_INFO_FORMAT@]),
        command.env is None,
{
    let args = vec!["info", "--format", DOCKER_INFO_FORMAT];
    assert(words_of(args@) =~= seq!["info"@, "--format"@, DOCKER_INFO_FORMAT@]);
    CommandSpec::new("docker", &args)
}

/// Whether this is what [`docker_sudo_command`] gives.
pub open spec fn docker_sudo_command_gives(command: CommandSpec) -> bool {
    &&& command.calls("sudo"@, seq!["docker"@, "info"@, "--format"@, DOCKER_INFO_FORMAT@])
    &&& command.env is None
}

/// The command that tells about Docker, as root.
pub fn docker_sudo_command() -> (command: CommandSpec)
    ensures
        docker_sudo_command_gives(command),
        command.calls("sudo"@, seq!["docker"@, "info"@, "--format"@, DOCKER_INFO_FORMAT@]),
        command.env is None,
{
    let args = vec!["docker", "info", "--format", DOCKER_INFO_FORMAT];
    assert(words_of(args@) =~= seq!["docker"@, "info"@, "--format"@, DOCKER_INFO_FORMAT@]);
    CommandSpec::new("sudo", &args)
}

/// The fields that `docker info` prints.
pub open spec fn docker_fields(stdout: Seq<u8>) -> Seq<Seq<char>> {
    pieces(trimmed(text_in_bytes(stdout)), Cut::At('|'), None)
}

/// Whether these are the metrics that the output of `docker info` tells.
pub open spec fn docker_told(metrics: Option<DockerMetrics>, stdout: Seq<u8>) -> bool {
    let fields = docker_fields(stdout);
    if fields.len() < 3 {
        metrics is None
    } else {
        &&& metrics matches Some(docker)
        &&& docker.installed
        &&& docker.version@ == fields[0]
        &&& docker.containers_total == read_or_zero(fields[1], u32::MAX as int)
        &&& docker.containers_running == read_or_zero(fields[2], u32::MAX as int)
    }
}

/// The metrics that the output of `docker info` tells.
pub fn parse_docker_info(stdout: &Vec<u8>) -> (r: Option<DockerMetrics>)
    ensures
        docker_told(r, stdout@),
{
    let text = bytes_to_text(stdout);
    let line = trim(text.as_str());
    let parts = split(line.as_str(), Cut::At('|'), None);
    let ghost fields = docker_fields(stdout@);
    assert(fields.len() == parts@.len());
    if parts.len() < 3 {
        return None;
    }
    assert(forall|i: int| 0 <= i < parts@.len() ==> fields[i] == (#[trigger] parts@[i])@);
    Some(
        DockerMetrics {
            installed: true,
            version: parts[0].clone(),
            containers_total: parse_u32_or_zero(parts[1].as_str()),
            containers_running: parse_u32_or_zero(parts[2].as_str()),
        },
    )
}

/// What follows the first probe of Docker.
pub enum DockerProbe {
    /// The probe is done.
    Done(Option<DockerMetrics>),
    /// Run this command.
    Retry(CommandSpec),
}

/// Whether this is what [`probe_docker_metrics`] gives.
pub open spec fn probe_docker_metrics_gives(output: Option<CommandOutput>, r: DockerProbe) -> bool {
    &&& match output {
        Some(out) => if out.success {
            r matches DockerProbe::Done(metrics) && docker_told(metrics, out.stdout@)
        } else {
            &&& r matches DockerProbe::Retry(command)
            &&& command.calls(
                "sudo"@,
                seq!["docker"@, "info"@, "--format"@, DOCKER_INFO_FORMAT@],
            )
            &&& command.env is None
        },
        None => r matches DockerProbe::Done(None),
    }
}

/// What follows when `docker info` reported this, if it could be run: where it
/// failed it is tried as root.
pub fn probe_docker_metrics(output: Option<CommandOutput>) -> (r: DockerProbe)
    ensures
        probe_docker_metrics_gives(output, r),
        match output {
            Some(out) => if out.success {
                r matches DockerProbe::Done(metrics) && docker_told(metrics, out.stdout@)
            } else {
                &&& r matches DockerProbe::Retry(command)
                &&& command.calls(
                    "sudo"@,
                    seq!["docker"@, "info"@, "--format"@, DOCKER_INFO_FORMAT@],
                )
                &&& command.env is None
            },
            None => r matches DockerProbe::Done(None),
        },
{
    match output {
        Some(out) => if out.success {
            DockerProbe::Done(parse_docker_info(&out.stdout))
        } else {
            DockerProbe::Retry(docker_sudo_command())
        },
        None => DockerProbe::Done(None),
    }
}

/// Whether this is what [`reprobe_docker_metrics`] gives.
pub open spec fn reprobe_docker_metrics_gives(
    output: Option<CommandOutput>,
    r: Option<DockerMetrics>,
) -> bool {
    &&& match output {
        Some(out) => if out.success {
            docker_told(r, out.stdout@)
        } else {
            r is None
        },
        None => r is None,
    }
}

/// What the second probe of Docker tells, if it could be run with success.
pub fn reprobe_docker_metrics(output: Option<CommandOutput>) -> (r: Option<DockerMetrics>)
    ensures
        reprobe_docker_metrics_gives(output, r),
        match output {
            Some(out) => if out.success {
                docker_told(r, out.stdout@)
            } else {
                r is None
            },
            None => r is None,
        },
{
    match output {
        Some(out) => if out.success {
            parse_docker_info(&out.stdout)
        } else {
            None
        },
        None => None,
    }
}

// ---------------------------------------------------------------------------
// The snapshot
// ---------------------------------------------------------------------------

/// What the host tells for a snapshot; sizes are in bytes.
pub struct MetricsFacts<F> {
    pub hostname: Option<String>,
    pub os_name: Option<String>,
    /// The name of the operating system where the host does not tell it.
    pub default_os: String,
    pub os_version: Option<String>,
    pub kernel: Option<String>,
    pub arch: String,
    pub uptime_secs: u64,
    pub cpu_model: Option<String>,
    pub cpu_cores: u32,
    pub cpu_usage: F,
    pub cpu_temperature: Option<F>,
    pub cpu_mhz: F,
    pub total_memory: u64,
    pub used_memory: u64,
    pub available_memory: u64,
    pub total_swap: u64,
    pub used_swap: u64,
    pub memory_speed: Option<u64>,
    pub disks: Vec<DiskMetrics<F>>,
    pub network: NetworkTotals,
    pub rx_rate: u64,
    pub tx_rate: u64,
    pub latency_ms: F,
    pub gpu: Option<GpuMetrics<F>>,
    pub docker: Option<DockerMetrics>,
}

/// Whether this is the snapshot of the facts, with the parts that the settings
/// include.
pub open spec fn snapshot_of<F>(
    payload: MetricsPayload<F>,
    facts: MetricsFacts<F>,
    config: MetricsConfig,
) -> bool {
    &&& payload.hostname@ == known(facts.hostname)
    &&& payload.os.name@ == match facts.os_name {
        Some(name) => name@,
        None => facts.default_os@,
    }
    &&& payload.os.version@ == known(facts.os_version)
    &&& payload.os.kernel@ == known(facts.kernel)
    &&& payload.os.arch@ == facts.arch@
    &&& payload.uptime_secs == facts.uptime_secs
    &&& payload.cpu.model@ == match facts.cpu_model {
        Some(model) => model@,
        None => Seq::empty(),
    }
    &&& payload.cpu.cores == facts.cpu_cores
    &&& payload.cpu.usage_percent == facts.cpu_usage
    &&& payload.cpu.temperature_celsius == facts.cpu_temperature
    &&& payload.cpu.mhz == facts.cpu_mhz
    &&& payload.memory.total_mb == facts.total_memory / MEGABYTE
    &&& payload.memory.used_mb == facts.used_memory / MEGABYTE
    &&& payload.memory.available_mb == facts.available_memory / MEGABYTE
    &&& payload.memory.swap_total_mb == facts.total_swap / MEGABYTE
    &&& payload.memory.swap_used_mb == facts.used_swap / MEGABYTE
    &&& payload.memory.speed_mhz == facts.memory_speed
    &&& payload.disks@ == real_disks(facts.disks@)
    &&& payload.network.interface@ == facts.network.primary@
    &&& payload.network.rx_bytes_per_sec == facts.rx_rate
    &&& payload.network.tx_bytes_per_sec == facts.tx_rate
    &&& payload.network.rx_total_bytes == facts.network.rx_total
    &&& payload.network.tx_total_bytes == facts.network.tx_total
    &&& payload.network.latency_ms == facts.latency_ms
    &&& payload.gpu == if config.include_gpu {
        facts.gpu
    } else {
        None
    }
    &&& payload.docker == if config.include_docker {
        facts.docker
    } else {
        None
    }
}

/// Build the snapshot from what the host tells, with the parts that the settings
/// include.
pub fn build_metrics<F>(facts: MetricsFacts<F>, config: &MetricsConfig) -> (payload: MetricsPayload<
    F,
>)
    ensures
        snapshot_of(payload, facts, *config),
{
    let gpu = if config.include_gpu {
        facts.gpu
    } else {
        None
    };
    let docker = if config.include_docker {
        facts.docker
    } else {
        None
    };
    let os_name = match facts.os_name {
        Some(name) => name,
        None => facts.default_os,
    };
    let model = match facts.cpu_model {
        Some(model) => model,
        None => String::new(),
    };
    MetricsPayload {
        hostname: or_unknown(facts.hostname),
        os: OsInfo {
            name: os_name,
            version: or_unknown(facts.os_version),
            kernel: or_unknown(facts.kernel),
            arch: facts.arch,
        },
        uptime_secs: facts.uptime_secs,
        cpu: CpuMetrics {
            model,
            cores: facts.cpu_cores,
            usage_percent: facts.cpu_usage,
            temperature_celsius: facts.cpu_temperature,
            mhz: facts.cpu_mhz,
        },
        memory: MemoryMetrics {
            total_mb: facts.total_memory / MEGABYTE,
            used_mb: facts.used_memory / MEGABYTE,
            available_mb: facts.available_memory / MEGABYTE,
            swap_total_mb: facts.total_swap / MEGABYTE,
            swap_used_mb: facts.used_swap / MEGABYTE,
            speed_mhz: facts.memory_speed,
        },
        disks: filter_disks(facts.disks),
        network: NetworkMetrics {
            interface: facts.network.primary,
            rx_bytes_per_sec: facts.rx_rate,
            tx_bytes_per_sec: facts.tx_rate,
            rx_total_bytes: facts.network.rx_total,
            tx_total_bytes: facts.network.tx_total,
            latency_ms: facts.latency_ms,
        },
        gpu,
        docker,
    }
}

/// Whether this is what [`handle_metrics_collect`] gives.
pub open spec fn metrics_collect_answered<F>(
    id: String,
    metrics: MetricsPayload<F>,
    response: RpcResponse<MetricsPayload<F>>,
) -> bool {
    &&& response.responds_to(id@)
    &&& response.succeeds(id@, metrics)
}

/// Handle `metrics.collect`: the response with a snapshot.
pub fn handle_metrics_collect<F>(id: String, metrics: MetricsPayload<F>) -> (response: RpcResponse<
    MetricsPayload<F>,
>)
    ensures
        metrics_collect_answered(id, metrics, response),
        response.responds_to(id@),
        response.succeeds(id@, metrics),
{
    RpcResponse::success(id, metrics)
}

} // verus!
