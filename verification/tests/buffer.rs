//! The metrics buffer on a database of its own.

use nobase::clock::{timestamp_of, Moment};
use nobase::metrics::{
    CpuMetrics, DiskMetrics, MemoryMetrics, MetricsPayload, NetworkMetrics, OsInfo,
};
use nobase::metrics_buffer::{
    keep_readable, BufferedMetric, MetricsBuffer, MAX_RETENTION_HOURS,
};
use serde_json::Value;

fn test_metrics() -> MetricsPayload<f64> {
    MetricsPayload {
        hostname: "test".into(),
        os: OsInfo {
            name: "Linux".into(),
            version: "6.0".into(),
            kernel: "6.0.0".into(),
            arch: "x86_64".into(),
        },
        uptime_secs: 1234,
        cpu: CpuMetrics {
            model: "Test CPU".into(),
            cores: 4,
            usage_percent: 25.0,
            temperature_celsius: Some(50.0),
            mhz: 3000.0,
        },
        memory: MemoryMetrics {
            total_mb: 8192,
            used_mb: 4096,
            available_mb: 4096,
            swap_total_mb: 2048,
            swap_used_mb: 0,
            speed_mhz: None,
        },
        disks: vec![DiskMetrics {
            mount: "/".into(),
            filesystem: "ext4".into(),
            total_gb: 100.0,
            used_gb: 50.0,
            available_gb: 50.0,
            usage_percent: 50.0,
            device: "sda1".into(),
        }],
        network: NetworkMetrics {
            interface: "eth0".into(),
            rx_bytes_per_sec: 1000,
            tx_bytes_per_sec: 500,
            rx_total_bytes: 1000000,
            tx_total_bytes: 500000,
            latency_ms: 0.0,
        },
        gpu: None,
        docker: None,
    }
}

fn object(members: Vec<(&str, Value)>) -> Value {
    let mut map = serde_json::Map::new();
    for (key, value) in members {
        map.insert(key.to_string(), value);
    }
    Value::Object(map)
}

fn to_json(m: &MetricsPayload<f64>) -> String {
    let os = object(vec![
        ("name", Value::from(m.os.name.as_str())),
        ("version", Value::from(m.os.version.as_str())),
        ("kernel", Value::from(m.os.kernel.as_str())),
        ("arch", Value::from(m.os.arch.as_str())),
    ]);
    let cpu = object(vec![
        ("model", Value::from(m.cpu.model.as_str())),
        ("cores", Value::from(m.cpu.cores)),
        ("usage_percent", Value::from(m.cpu.usage_percent)),
        ("temperature_celsius", Value::from(m.cpu.temperature_celsius)),
        ("mhz", Value::from(m.cpu.mhz)),
    ]);
    let memory = object(vec![
        ("total_mb", Value::from(m.memory.total_mb)),
        ("used_mb", Value::from(m.memory.used_mb)),
        ("available_mb", Value::from(m.memory.available_mb)),
        ("swap_total_mb", Value::from(m.memory.swap_total_mb)),
        ("swap_used_mb", Value::from(m.memory.swap_used_mb)),
    ]);
    let disks: Vec<Value> = m
        .disks
        .iter()
        .map(|d| {
            object(vec![
                ("mount", Value::from(d.mount.as_str())),
                ("filesystem", Value::from(d.filesystem.as_str())),
                ("total_gb", Value::from(d.total_gb)),
                ("used_gb", Value::from(d.used_gb)),
                ("available_gb", Value::from(d.available_gb)),
                ("usage_percent", Value::from(d.usage_percent)),
                ("device", Value::from(d.device.as_str())),
            ])
        })
        .collect();
    let network = object(vec![
        ("interface", Value::from(m.network.interface.as_str())),
        ("rx_bytes_per_sec", Value::from(m.network.rx_bytes_per_sec)),
        ("tx_bytes_per_sec", Value::from(m.network.tx_bytes_per_sec)),
        ("rx_total_bytes", Value::from(m.network.rx_total_bytes)),
        ("tx_total_bytes", Value::from(m.network.tx_total_bytes)),
        ("latency_ms", Value::from(m.network.latency_ms)),
    ]);
    object(vec![
        ("hostname", Value::from(m.hostname.as_str())),
        ("os", os),
        ("uptime_secs", Value::from(m.uptime_secs)),
        ("cpu", cpu),
        ("memory", memory),
        ("disks", Value::Array(disks)),
        ("network", network),
    ])
    .to_string()
}

fn hostname_in(json: &str) -> Option<String> {
    let value: Value = serde_json::from_str(json).ok()?;
    value["hostname"].as_str().map(|s| s.to_string())
}

#[test]
fn test_store_and_fetch() {
    let dir = tempfile::tempdir().unwrap();
    let path = dir.path().join("test.db");
    let mut buf = MetricsBuffer::new(path.to_str().unwrap()).unwrap();

    let m = to_json(&test_metrics());
    let ts = "2026-01-01T00:00:00Z";

    buf.store(ts, &m).unwrap();
    buf.store(ts, &m).unwrap();
    buf.store(ts, &m).unwrap();

    let unsent = buf.get_unsent(10).unwrap();
    assert_eq!(unsent.len(), 3);
    assert_eq!(hostname_in(&unsent[0].metrics).unwrap(), "test");

    assert_eq!(buf.unsent_count().unwrap(), 3);
}

#[test]
fn test_mark_sent() {
    let dir = tempfile::tempdir().unwrap();
    let path = dir.path().join("test.db");
    let mut buf = MetricsBuffer::new(path.to_str().unwrap()).unwrap();

    let m = to_json(&test_metrics());
    for i in 0..5 {
        buf.store(&format!("2026-01-01T00:00:0{i}Z"), &m).unwrap();
    }

    let unsent = buf.get_unsent(3).unwrap();
    assert_eq!(unsent.len(), 3);

    let ids: Vec<i64> = unsent.iter().map(|r| r.id).collect();
    buf.mark_sent(&ids).unwrap();

    assert_eq!(buf.unsent_count().unwrap(), 2);

    let remaining = buf.get_unsent(10).unwrap();
    assert_eq!(remaining.len(), 2);
}

#[test]
fn test_cleanup() {
    let dir = tempfile::tempdir().unwrap();
    let path = dir.path().join("test.db");
    let mut buf = MetricsBuffer::new(path.to_str().unwrap()).unwrap();

    let m = to_json(&test_metrics());
    // Insert with an old timestamp
    buf.store("2020-01-01T00:00:00Z", &m).unwrap();
    // Insert with a recent timestamp
    buf.store(&chrono::Utc::now().to_rfc3339(), &m).unwrap();

    let deleted = buf.cleanup(24).unwrap();
    assert_eq!(deleted, 1);
    assert_eq!(buf.total_count().unwrap(), 1);
}

#[test]
fn rows_come_oldest_first_and_as_stored() {
    let dir = tempfile::tempdir().unwrap();
    let path = dir.path().join("rows.db");
    let mut buf = MetricsBuffer::new(path.to_str().unwrap()).unwrap();
    for i in 0..4 {
        buf.store(&format!("2026-01-01T00:00:0{i}Z"), &format!("{{\"n\":{i}}}")).unwrap();
    }
    let rows = buf.get_unsent(2).unwrap();
    assert_eq!(rows.len(), 2);
    assert_eq!(rows[0].id, 1);
    assert_eq!(rows[0].timestamp, "2026-01-01T00:00:00Z");
    assert_eq!(rows[0].metrics, "{\"n\":0}");
    assert_eq!(rows[1].id, 2);
    assert_eq!(rows[1].metrics, "{\"n\":1}");
    assert!(buf.get_unsent(0).unwrap().is_empty());
}

#[test]
fn marking_keeps_the_rows_and_twice_is_as_once() {
    let dir = tempfile::tempdir().unwrap();
    let path = dir.path().join("mark.db");
    let mut buf = MetricsBuffer::new(path.to_str().unwrap()).unwrap();
    for _ in 0..3 {
        buf.store("2026-01-01T00:00:00Z", "{}").unwrap();
    }
    buf.mark_sent(&vec![]).unwrap();
    assert_eq!(buf.unsent_count().unwrap(), 3);
    buf.mark_sent(&vec![1, 3, 99]).unwrap();
    buf.mark_sent(&vec![1, 3]).unwrap();
    assert_eq!(buf.total_count().unwrap(), 3);
    let left = buf.get_unsent(10).unwrap();
    assert_eq!(left.len(), 1);
    assert_eq!(left[0].id, 2);
}

#[test]
fn backfill_drains_everything() {
    let dir = tempfile::tempdir().unwrap();
    let path = dir.path().join("drain.db");
    let mut buf = MetricsBuffer::new(path.to_str().unwrap()).unwrap();
    for _ in 0..7 {
        buf.store("2026-01-01T00:00:00Z", "{}").unwrap();
    }
    let mut seen: Vec<i64> = Vec::new();
    loop {
        let rows = buf.get_unsent(3).unwrap();
        if rows.is_empty() {
            break;
        }
        let ids: Vec<i64> = rows.iter().map(|r| r.id).collect();
        buf.mark_sent(&ids).unwrap();
        seen.extend(ids);
    }
    assert_eq!(seen, vec![1, 2, 3, 4, 5, 6, 7]);
    assert_eq!(buf.unsent_count().unwrap(), 0);
    assert_eq!(buf.total_count().unwrap(), 7);
}

#[test]
fn pruning_sent_rows_keeps_unsent_and_recent_ones() {
    let dir = tempfile::tempdir().unwrap();
    let path = dir.path().join("prune.db");
    let mut buf = MetricsBuffer::new(path.to_str().unwrap()).unwrap();
    buf.store("2020-01-01T00:00:00+00:00", "{}").unwrap();
    buf.store("2020-01-01T00:00:00+00:00", "{}").unwrap();
    buf.store("2020-01-01T00:09:00+00:00", "{}").unwrap();
    buf.mark_sent(&vec![1, 3]).unwrap();
    // 2020-01-01T00:10:00Z
    let now = Moment { secs: 1577837400, nanos: 0 };
    assert_eq!(buf.cleanup_sent_at(now).unwrap(), 1);
    let ids: Vec<i64> = buf.get_unsent(10).unwrap().iter().map(|r| r.id).collect();
    assert_eq!(ids, vec![2]);
    assert_eq!(buf.total_count().unwrap(), 2);
    assert_eq!(buf.cleanup_sent().unwrap(), 1);
}

#[test]
fn cleanup_drops_by_age_whether_sent_or_not() {
    let dir = tempfile::tempdir().unwrap();
    let path = dir.path().join("age.db");
    let mut buf = MetricsBuffer::new(path.to_str().unwrap()).unwrap();
    buf.store("2020-01-01T00:00:00+00:00", "{}").unwrap();
    buf.store("2020-01-02T00:00:00+00:00", "{}").unwrap();
    // 2020-01-02T00:10:00Z
    let now = Moment { secs: 1577923800, nanos: 0 };
    assert_eq!(buf.cleanup_at(now, 24).unwrap(), 1);
    assert_eq!(buf.get_unsent(10).unwrap()[0].id, 2);
    assert_eq!(buf.cleanup(MAX_RETENTION_HOURS).unwrap(), 0);
    assert_eq!(buf.cleanup_at(Moment { secs: 0, nanos: 0 }, MAX_RETENTION_HOURS).unwrap(), 0);
}

#[test]
fn texts_of_times_stand_in_the_order_of_the_times() {
    let dir = tempfile::tempdir().unwrap();
    let path = dir.path().join("times.db");
    let mut buf = MetricsBuffer::new(path.to_str().unwrap()).unwrap();
    let moments = [
        (-62167219200, 0),
        (-1, 999_999_999),
        (0, 0),
        (0, 1),
        (0, 1_000),
        (0, 1_001),
        (0, 1_000_000),
        (0, 1_001_000),
        (0, 500_000_000),
        (0, 999_999_999),
        (1, 0),
        (1577836800, 0),
        (253402300799, 999_999_999),
    ];
    let texts: Vec<String> =
        moments.iter().map(|&(secs, nanos)| timestamp_of(Moment { secs, nanos })).collect();
    for pair in texts.windows(2) {
        assert!(pair[0].as_bytes() < pair[1].as_bytes(), "{pair:?}");
    }
    for text in &texts {
        buf.store(text, "{}").unwrap();
    }
    // No row is older than the first; those before the cutoff go.
    assert_eq!(buf.cleanup_at(Moment { secs: -62167219200, nanos: 0 }, 0).unwrap(), 0);
    assert_eq!(buf.cleanup_at(Moment { secs: 3600, nanos: 1_001 }, 1).unwrap(), 5);
    let left = buf.get_unsent(20).unwrap();
    assert_eq!((left.len(), left[0].timestamp.as_str()), (8, texts[5].as_str()));
}

#[test]
fn reading_twice_gives_the_same() {
    let dir = tempfile::tempdir().unwrap();
    let path = dir.path().join("twice.db");
    let mut buf = MetricsBuffer::new(path.to_str().unwrap()).unwrap();
    for i in 0..5 {
        buf.store(&format!("t{i}"), "{}").unwrap();
    }
    let ids = |buf: &mut MetricsBuffer, limit| -> Vec<i64> {
        buf.get_unsent(limit).unwrap().iter().map(|r| r.id).collect()
    };
    assert_eq!(ids(&mut buf, 3), vec![1, 2, 3]);
    assert_eq!(ids(&mut buf, 3), vec![1, 2, 3]);
    assert_eq!(ids(&mut buf, 9), vec![1, 2, 3, 4, 5]);
    assert_eq!(buf.total_count().unwrap(), 5);
}

#[test]
fn rows_stay_when_the_database_is_opened_again() {
    let dir = tempfile::tempdir().unwrap();
    let path = dir.path().join("again.db");
    {
        let mut buf = MetricsBuffer::new(path.to_str().unwrap()).unwrap();
        assert_eq!(buf.total_count().unwrap(), 0);
        for _ in 0..3 {
            buf.store("2026-01-01T00:00:00Z", "{}").unwrap();
        }
        buf.mark_sent(&vec![1, 3]).unwrap();
    }
    let mut buf = MetricsBuffer::new(path.to_str().unwrap()).unwrap();
    assert_eq!(buf.total_count().unwrap(), 3);
    assert_eq!(buf.unsent_count().unwrap(), 1);
    assert_eq!(buf.get_unsent(10).unwrap()[0].id, 2);
}

#[test]
fn a_database_in_no_directory_is_an_error() {
    let dir = tempfile::tempdir().unwrap();
    let path = dir.path().join("missing").join("x.db");
    let text = path.to_str().unwrap();
    match MetricsBuffer::new(text) {
        Ok(_) => panic!("opened"),
        Err(e) => assert!(e.0.contains("unable to open database file"), "{}", e.0),
    }
    assert_eq!(MetricsBuffer::directory(text).unwrap(), dir.path().join("missing").to_str().unwrap());
    assert_eq!(MetricsBuffer::directory("/"), None);
    assert_eq!(MetricsBuffer::directory_failed("no").0, "Failed to create directory: no");
}

#[test]
fn corrupt_rows_are_left_out() {
    let rows = vec![
        BufferedMetric { id: 1, timestamp: "a".to_string(), metrics: Some(10) },
        BufferedMetric { id: 2, timestamp: "b".to_string(), metrics: None },
        BufferedMetric { id: 3, timestamp: "c".to_string(), metrics: Some(30) },
    ];
    let kept = keep_readable(rows);
    assert_eq!(kept.len(), 2);
    assert_eq!(kept[0].id, 1);
    assert_eq!(kept[1].id, 3);
    assert_eq!(kept[1].timestamp, "c");
    assert_eq!(kept[1].metrics, 30);
}
