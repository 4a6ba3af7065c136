//! Docker and metrics.

use nobase::command::CommandOutput;
use nobase::config::MetricsConfig;
use nobase::handlers::docker::{
    block_totals, connect_failed, container_figures, container_summary, handle_docker_inspect,
    handle_docker_list, handle_docker_logs, handle_docker_stats, BlockBytes, ContainerFacts,
    ContainerRates, DockerLogsReply, InterfaceBytes, LogCollector, LogFrame, LogStep, RawStats,
};
use nobase::handlers::metrics::{
    build_metrics, docker_command, filter_disks, gpu_command, gpu_metrics, handle_metrics_collect,
    memory_speed_command, network_totals, observe_network, parse_memory_speed, probe_docker_metrics,
    probe_gpu_metrics, reprobe_docker_metrics, DockerProbe, InterfaceTotals, MetricsFacts,
    NetworkSnapshot, ProbeCache,
};
use nobase::methods::{
    ContainerStats, DockerInspectRequest, DockerListRequest, DockerLogsRequest, DockerStatsRequest,
};
use nobase::metrics::{DiskMetrics, GpuMetrics};
use nobase::rpc::RpcResponse;
use nobase::stream::StreamChannel;
use std::collections::HashMap;

fn s(text: &str) -> String {
    text.to_string()
}

fn error_of<V>(response: &RpcResponse<V>) -> (i32, String) {
    let e = response.error.as_ref().unwrap();
    (e.code, e.message.clone())
}

fn raw(name: &str) -> RawStats {
    RawStats {
        name: s(name),
        cpu_total: 200,
        precpu_total: 100,
        system_cpu: Some(1000),
        presystem_cpu: None,
        online_cpus: None,
        memory_usage: None,
        memory_limit: None,
        networks: Some(vec![InterfaceBytes { rx: 1, tx: 2 }, InterfaceBytes { rx: 10, tx: 20 }]),
        block_io: Some(vec![
            BlockBytes { op: s("Read"), value: 5 },
            BlockBytes { op: s("write"), value: 6 },
            BlockBytes { op: s("read"), value: 7 },
            BlockBytes { op: s("Write"), value: 8 },
            BlockBytes { op: s("READ"), value: 99 },
        ]),
        pids: Some(0x1_0000_0003),
    }
}

#[test]
fn container_figures_are_summed() {
    let f = container_figures("0123456789abcdef", raw("/web")).unwrap();
    assert_eq!((f.id.as_str(), f.name.as_str()), ("0123456789ab", "web"));
    assert_eq!((f.rx_bytes, f.tx_bytes, f.block_read, f.block_write), (11, 22, 12, 14));
    assert_eq!((f.system_cpu, f.presystem_cpu, f.online_cpus), (1000, 0, 1));
    assert_eq!((f.memory_usage, f.memory_limit, f.pids), (0, 1, 3));
    let f = container_figures("0123456789abcdef", raw("")).unwrap();
    assert_eq!(f.name, "0123456789ab");
    let mut none = raw("x");
    none.networks = None;
    none.block_io = None;
    none.pids = None;
    let f = container_figures("c", none).unwrap();
    assert_eq!((f.rx_bytes, f.block_read, f.pids), (0, 0, 0));
    let mut over = raw("x");
    over.networks =
        Some(vec![InterfaceBytes { rx: u64::MAX, tx: 0 }, InterfaceBytes { rx: 1, tx: 0 }]);
    assert!(container_figures("c", over).is_none());
    assert!(block_totals(&vec![
        BlockBytes { op: s("read"), value: u64::MAX },
        BlockBytes { op: s("write"), value: u64::MAX },
    ])
    .is_some());
}

fn stats(id: &str) -> ContainerStats<f64> {
    container_figures(id, raw("n")).unwrap().stats(ContainerRates {
        cpu_percent: 1.0,
        memory_usage_mb: 2.0,
        memory_limit_mb: 3.0,
        memory_percent: 4.0,
        network_rx_mb: 5.0,
        network_tx_mb: 6.0,
        block_read_mb: 7.0,
        block_write_mb: 8.0,
    })
}

#[test]
fn docker_stats_of_named_or_running_containers() {
    let ask = |ids: Vec<String>| {
        handle_docker_stats::<f64>(s("7"), Ok(DockerStatsRequest { container_ids: ids })).ok().unwrap()
    };
    let named = ask(vec![s("a"), s("b")]);
    assert!(!named.lists_running());
    assert_eq!(named.on_listed::<f64>(Ok(vec![])).ok().unwrap(), vec!["a", "b"]);
    let all = ask(vec![]);
    assert!(all.lists_running());
    let ids = all.on_listed::<f64>(Ok(vec![Some(s("x")), None, Some(s("y"))])).ok().unwrap();
    assert_eq!(ids, vec!["x", "y"]);
    let response = all.on_listed::<f64>(Err(s("e"))).err().unwrap();
    assert_eq!(error_of(&response), (-1, s("Failed to list containers: e")));
    let r = all.finish(vec![Some(stats("a")), None, Some(stats("b"))]).result.unwrap();
    let ids: Vec<&str> = r.containers.iter().map(|c| c.id.as_str()).collect();
    assert_eq!(ids, vec!["a", "b"]);
    assert_eq!((r.containers[0].cpu_percent, r.containers[0].block_write_mb), (1.0, 8.0));
    let refused = handle_docker_stats::<f64>(s("7"), Err(s("p"))).err().unwrap();
    assert_eq!(error_of(&refused), (-32602, s("Invalid params: p")));
    let down: RpcResponse<u8> = connect_failed(s("7"), "no socket");
    assert_eq!(error_of(&down), (-1, s("Failed to connect to Docker: no socket")));
}

#[test]
fn docker_inspects() {
    let ask = || {
        let request = DockerInspectRequest { container_id: s("c") };
        handle_docker_inspect::<u8>(s("7"), Ok(request)).ok().unwrap()
    };
    assert_eq!(ask().container_id, "c");
    assert_eq!(ask().finish(Ok(9u8)).result, Some(9));
    assert_eq!(
        error_of(&ask().finish::<u8>(Err(s("gone")))),
        (-1, s("Failed to inspect container: gone"))
    );
    let refused = handle_docker_inspect::<u8>(s("7"), Err(s("p"))).err().unwrap();
    assert_eq!(error_of(&refused), (-32602, s("Invalid params: p")));
}

fn facts(names: Vec<String>) -> ContainerFacts {
    ContainerFacts {
        id: Some(s("i")),
        names,
        image: Some(s("img")),
        state: None,
        status: Some(s("Up")),
        created: None,
        ports: vec![],
        networks: vec![s("bridge")],
        labels: HashMap::new(),
    }
}

#[test]
fn docker_lists() {
    let ask = || handle_docker_list(s("7"), Ok(DockerListRequest { all: true })).ok().unwrap();
    assert!(ask().all);
    let r = ask().finish(Ok(vec![facts(vec![s("/web"), s("/w2")]), facts(vec![])])).result.unwrap();
    assert_eq!(r.containers.len(), 2);
    assert_eq!(r.containers[0].name, "web");
    assert_eq!(r.containers[1].name, "");
    let one = container_summary(facts(vec![]));
    assert_eq!((one.image.as_str(), one.state.as_str(), one.created), ("img", "", 0));
    assert_eq!(one.networks, vec!["bridge"]);
    assert_eq!(error_of(&ask().finish(Err(s("e")))), (-1, s("Failed to list containers: e")));
    let refused = handle_docker_list(s("7"), Err(s("p"))).err().unwrap();
    assert_eq!(error_of(&refused), (-32602, s("Invalid params: p")));
}

#[test]
fn docker_logs_are_followed_or_collected() {
    let ask = |tail, follow| {
        let request =
            DockerLogsRequest { container_id: s("c"), stream_id: s("st"), tail, follow };
        handle_docker_logs::<DockerLogsReply>(s("7"), Ok(request)).ok().unwrap()
    };
    assert_eq!(ask(None, None).tail, "all");
    assert_eq!(ask(Some(20), Some(true)).tail, "20");
    assert!(ask(None, Some(true)).follow && !ask(None, None).follow);
    let (response, stream) = ask(None, Some(true)).follow_reply();
    assert_eq!(response.result.unwrap().stream_id, "st");
    let LogStep::Send(note) = stream.on_frame(Ok(LogFrame::Stdout(b"o".to_vec()))) else {
        panic!("not sent")
    };
    assert_eq!((note.method.as_str(), note.params.data.as_str()), ("stream.data", "bw=="));
    assert!(matches!(note.params.channel, StreamChannel::Stdout));
    let LogStep::Send(note) = stream.on_frame(Ok(LogFrame::Stderr(b"e".to_vec()))) else {
        panic!("not sent")
    };
    assert!(matches!(note.params.channel, StreamChannel::Stderr));
    assert!(matches!(stream.on_frame(Ok(LogFrame::Other)), LogStep::Skip));
    assert!(matches!(stream.on_frame(Err(s("x"))), LogStep::Stop));
    assert_eq!(stream.on_end().params.exit_code, 0);
    let mut logs = LogCollector::new();
    assert!(logs.on_frame(Ok(LogFrame::Stdout(b"a".to_vec()))));
    assert!(logs.on_frame(Ok(LogFrame::Stderr(b"x".to_vec()))));
    assert!(logs.on_frame(Ok(LogFrame::Other)));
    assert!(logs.on_frame(Ok(LogFrame::Stdout(b"b".to_vec()))));
    assert!(!logs.on_frame(Err(s("e"))));
    let r = ask(None, None).collected_reply(logs).result.unwrap();
    assert_eq!((r.stdout.as_str(), r.stderr.as_str()), ("ab", "x"));
    let refused = handle_docker_logs::<u8>(s("7"), Err(s("p"))).err().unwrap();
    assert_eq!(error_of(&refused), (-32602, s("Invalid params: p")));
}

fn disk(filesystem: &str) -> DiskMetrics<f64> {
    DiskMetrics {
        mount: s("/"),
        filesystem: s(filesystem),
        total_gb: 1.0,
        used_gb: 0.5,
        available_gb: 0.5,
        usage_percent: 50.0,
        device: s("sda"),
    }
}

#[test]
fn pseudo_file_systems_are_left_out() {
    let all: Vec<DiskMetrics<f64>> =
        ["ext4", "tmpfs", "devtmpfs", "overlay", "xfs", "squashfs", "efivarfs"]
            .iter()
            .map(|f| disk(f))
            .collect();
    let kept: Vec<String> = filter_disks(all).into_iter().map(|d| d.filesystem).collect();
    assert_eq!(kept, vec!["ext4", "xfs"]);
}

fn iface(name: &str, rx: u64, tx: u64) -> InterfaceTotals {
    InterfaceTotals { name: s(name), rx, tx }
}

#[test]
fn the_busiest_interface_is_the_primary_one() {
    let list = vec![
        iface("lo", 900, 900),
        iface("eth0", 10, 5),
        iface("veth1", 800, 0),
        iface("eth1", 7, 8),
        iface("docker0", 1, 1),
        iface("br-1", 1, 1),
        iface("eth2", 0, 0),
    ];
    let t = network_totals(&list).unwrap();
    assert_eq!((t.primary.as_str(), t.rx_total, t.tx_total), ("eth0", 17, 13));
    let none = network_totals(&vec![iface("eth0", 0, 0)]).unwrap();
    assert_eq!(none.primary, "");
    assert!(network_totals(&vec![iface("a", u64::MAX, 1)]).is_none());
    assert!(network_totals(&vec![iface("a", u64::MAX, 0), iface("b", 1, 0)]).is_none());
}

#[test]
fn rates_need_a_window() {
    let at = |rx_total, tx_total, at_nanos| NetworkSnapshot { rx_total, tx_total, at_nanos };
    let mut last = None;
    assert!(observe_network(&mut last, at(100, 50, 0)).is_none());
    assert!(observe_network(&mut last, at(200, 60, 100_000_000)).is_none());
    let w = observe_network(&mut last, at(500, 40, 1_100_000_000)).unwrap();
    assert_eq!((w.rx_delta, w.tx_delta, w.elapsed_nanos), (300, 0, 1_000_000_000));
    assert_eq!(last.unwrap().rx_total, 500);
}

#[test]
fn probe_results_are_used_for_thirty_seconds() {
    let mut cache: ProbeCache<u8> = ProbeCache::new();
    assert!(cache.get(0).is_none());
    cache.set(1_000_000_000, 5);
    assert_eq!(cache.get(1_000_000_000), Some(&5));
    assert_eq!(cache.get(30_999_999_999), Some(&5));
    assert_eq!(cache.get(31_000_000_000), None);
}

#[test]
fn memory_speed_is_the_first_that_is_told() {
    let text = b"Memory Device\n\tSpeed: Unknown\n\tMax Speed: x\n\tSpeed: 3200 MT/s\n\tSpeed: 1 MT/s\n";
    assert_eq!(parse_memory_speed(&text.to_vec()), Some(3200));
    assert_eq!(parse_memory_speed(&b"Speed:\n".to_vec()), None);
    assert_eq!(parse_memory_speed(&vec![]), None);
    assert_eq!(memory_speed_command().args, vec!["dmidecode", "-t", "memory"]);
}

fn output(success: bool, stdout: &[u8]) -> Option<CommandOutput> {
    Some(CommandOutput { success, code: Some(0), stdout: stdout.to_vec(), stderr: vec![] })
}

#[test]
fn gpus_are_read() {
    assert_eq!(gpu_command().program, "nvidia-smi");
    let r = probe_gpu_metrics(output(true, b" RTX 4090, 24564, 1024, 37, 55 \nsecond\n")).unwrap();
    assert_eq!((r.name.as_str(), r.memory_total_mb, r.memory_used_mb), ("RTX 4090", 24564, 1024));
    assert_eq!((r.usage_percent.as_str(), r.temperature_celsius.as_str()), ("37", "55"));
    let g = gpu_metrics(r, 37.0, 55.0);
    assert_eq!((g.usage_percent, g.temperature_celsius), (37.0, 55.0));
    assert!(probe_gpu_metrics(output(true, b"a,b,c,d\n")).is_none());
    assert!(probe_gpu_metrics(output(true, b"")).is_none());
    assert!(probe_gpu_metrics(output(false, b"a,1,2,3,4\n")).is_none());
    assert!(probe_gpu_metrics(None).is_none());
}

#[test]
fn docker_is_probed_and_probed_again_as_root() {
    assert_eq!(
        docker_command().args,
        vec!["info", "--format", "{{.ServerVersion}}|{{.Containers}}|{{.ContainersRunning}}"]
    );
    let DockerProbe::Done(Some(m)) = probe_docker_metrics(output(true, b"27.1|5|x\n")) else {
        panic!("not told")
    };
    assert_eq!((m.installed, m.version.as_str()), (true, "27.1"));
    assert_eq!((m.containers_total, m.containers_running), (5, 0));
    assert!(matches!(probe_docker_metrics(output(true, b"27|5")), DockerProbe::Done(None)));
    assert!(matches!(probe_docker_metrics(None), DockerProbe::Done(None)));
    let DockerProbe::Retry(command) = probe_docker_metrics(output(false, b"")) else {
        panic!("not retried")
    };
    assert_eq!((command.program.as_str(), command.args[0].as_str()), ("sudo", "docker"));
    assert_eq!(reprobe_docker_metrics(output(true, b"27|5|2")).unwrap().containers_running, 2);
    assert!(reprobe_docker_metrics(output(false, b"27|5|2")).is_none());
    assert!(reprobe_docker_metrics(None).is_none());
}

fn snapshot_facts() -> MetricsFacts<f64> {
    MetricsFacts {
        hostname: None,
        os_name: None,
        default_os: s("linux"),
        os_version: Some(s("12")),
        kernel: None,
        arch: s("x86_64"),
        uptime_secs: 77,
        cpu_model: None,
        cpu_cores: 8,
        cpu_usage: 12.5,
        cpu_temperature: Some(40.0),
        cpu_mhz: 3000.0,
        total_memory: 8 * 1024 * 1024 * 1024,
        used_memory: 1_048_575,
        available_memory: 1_048_576,
        total_swap: 0,
        used_swap: 0,
        memory_speed: Some(3200),
        disks: vec![disk("ext4"), disk("tmpfs")],
        network: network_totals(&vec![iface("eth0", 3, 4)]).unwrap(),
        rx_rate: 1,
        tx_rate: 2,
        latency_ms: 0.0,
        gpu: Some(GpuMetrics {
            name: s("G"),
            memory_total_mb: 2,
            memory_used_mb: 1,
            usage_percent: 1.0,
            temperature_celsius: 2.0,
        }),
        docker: reprobe_docker_metrics(output(true, b"27|5|2")),
    }
}

#[test]
fn snapshots_hold_what_the_settings_include() {
    for (include_gpu, include_docker) in [(true, true), (true, false), (false, true)] {
        let mut config = MetricsConfig::default();
        config.include_gpu = include_gpu;
        config.include_docker = include_docker;
        let p = build_metrics(snapshot_facts(), &config);
        assert_eq!(p.gpu.map(|g| g.name), if include_gpu { Some(s("G")) } else { None });
        let running = p.docker.map(|d| d.containers_running);
        assert_eq!(running, if include_docker { Some(2) } else { None });
    }
}

#[test]
fn snapshots_are_built() {
    let p = build_metrics(snapshot_facts(), &MetricsConfig::default());
    assert_eq!((p.hostname.as_str(), p.os.name.as_str(), p.os.kernel.as_str()), ("unknown", "linux", "unknown"));
    assert_eq!((p.memory.total_mb, p.memory.used_mb, p.memory.available_mb), (8192, 0, 1));
    assert_eq!((p.cpu.cores, p.cpu.usage_percent, p.cpu.model.as_str()), (8, 12.5, ""));
    assert_eq!(p.disks.len(), 1);
    assert_eq!((p.network.interface.as_str(), p.network.rx_total_bytes), ("eth0", 3));
    assert_eq!((p.network.rx_bytes_per_sec, p.network.tx_bytes_per_sec), (1, 2));
    let response = handle_metrics_collect(s("7"), p);
    assert_eq!(response.result.unwrap().uptime_secs, 77);
}
