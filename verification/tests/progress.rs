use serde_json::Value;
use synctr_engine::progress::{
    apply_log_line, display_rclone_line, format_bytes, format_eta, LogLine, RcloneStats,
    RcloneTransferring, TransferProgress,
};

const STATS: &str = r#"{"level":"info","msg":"Transferred","stats":{"bytes":100,"totalBytes":400,"speed":50.4,"eta":6,"transfers":1,"totalTransfers":4,"transferring":[{"name":"a.bin","percentage":25,"bytes":100,"size":400}]}}"#;

fn whole(v: &Value) -> Option<u64> {
    let f = v.as_f64()?;
    if f.is_finite() && f >= 0.0 {
        Some(f.round() as u64)
    } else {
        None
    }
}

/// Reads a line the way the program does: `None` when it is blank or not JSON.
fn parse(line: &str) -> Option<LogLine> {
    let t = line.trim();
    if t.is_empty() {
        return None;
    }
    let v: Value = serde_json::from_str(t).ok()?;
    let text = |k: &str| v.get(k).and_then(|x| x.as_str()).map(str::to_string);
    let stats = v.get("stats").filter(|s| s.is_object()).map(|s| RcloneStats {
        bytes: s.get("bytes").and_then(Value::as_u64).unwrap_or(0),
        total_bytes: s.get("totalBytes").and_then(Value::as_u64).unwrap_or(0),
        speed: s.get("speed").and_then(whole),
        eta: s.get("eta").and_then(whole),
        transfers: s.get("transfers").and_then(Value::as_u64).unwrap_or(0),
        total_transfers: s.get("totalTransfers").and_then(Value::as_u64).unwrap_or(0),
        transferring: s
            .get("transferring")
            .and_then(Value::as_array)
            .map(|a| {
                a.iter()
                    .map(|t| RcloneTransferring {
                        name: t.get("name").and_then(|x| x.as_str()).map(str::to_string),
                        percentage: t.get("percentage").and_then(Value::as_i64),
                    })
                    .collect()
            })
            .unwrap_or_default(),
    });
    Some(LogLine { msg: text("msg"), object: text("object"), stats })
}

fn apply(p: &mut TransferProgress, line: &str) -> bool {
    let log = parse(line);
    apply_log_line(p, log.as_ref(), 1000)
}

fn shown(line: &str) -> String {
    let log = parse(line);
    display_rclone_line(line, log.as_ref())
}

#[test]
fn parses_rclone_json_stats_line() {
    let mut p = TransferProgress::starting(Some(9), false);
    assert!(apply(&mut p, STATS));
    assert_eq!(p.bytes, 100);
    assert_eq!(p.total_bytes, 400);
    assert_eq!(p.percent, Some(25));
    assert_eq!(p.speed_bps, Some(50));
    assert_eq!(p.eta_secs, Some(6));
    assert_eq!(p.transfers, 1);
    assert_eq!(p.total_transfers, 4);
    assert_eq!(p.file.as_deref(), Some("a.bin"));
    assert_eq!(p.pid, Some(9));
}

#[test]
fn percent_from_bytes_when_no_transferring_pct() {
    let mut p = TransferProgress::starting(None, false);
    let line = r#"{"level":"info","stats":{"bytes":250,"totalBytes":1000,"transfers":2,"totalTransfers":8}}"#;
    assert!(apply(&mut p, line));
    assert_eq!(p.percent, Some(25));
    assert!(p.file.is_none());
}

#[test]
fn object_line_sets_current_file() {
    let mut p = TransferProgress::starting(None, true);
    assert!(apply(
        &mut p,
        r#"{"level":"info","msg":"Copied (new)","object":"notes.txt","size":12}"#
    ));
    assert_eq!(p.file.as_deref(), Some("notes.txt"));
    assert!(p.dry_run);
}

#[test]
fn eta_null_and_non_json_are_ignored() {
    let mut p = TransferProgress::starting(None, false);
    apply(&mut p, STATS);
    assert!(apply(
        &mut p,
        r#"{"level":"info","stats":{"bytes":100,"totalBytes":400,"eta":null,"transfers":1,"totalTransfers":4}}"#
    ));
    assert_eq!(p.eta_secs, None);
    assert!(!apply(&mut p, "not json"));
    assert_eq!(shown("plain log"), "plain log");
    let s = shown(STATS);
    assert!(s.contains("25%"), "{s}");
    assert!(s.contains("a.bin") || s.contains("100 B"));
}

#[test]
fn summary_and_bar() {
    let p = TransferProgress {
        bytes: 10 * 1024 * 1024,
        total_bytes: 40 * 1024 * 1024,
        percent: Some(25),
        speed_bps: Some(1024 * 1024),
        eta_secs: Some(90),
        transfers: 1,
        total_transfers: 4,
        file: Some("a.bin".into()),
        pid: Some(1),
        dry_run: false,
        updated_at_unix: 0,
        updated_at: "1970-01-01T00:00:00Z".into(),
    };
    assert_eq!(p.bar(4).as_deref(), Some("[#---]"));
    let s = p.summary();
    assert!(s.contains("25%"), "{s}");
    assert!(s.contains("ETA 1m"), "{s}");
    assert_eq!(format_bytes(500), "500 B");
    assert_eq!(format_eta(5), "5s");
}

#[test]
fn summary_exact_text_and_starting() {
    let p = TransferProgress {
        bytes: 10 * 1024 * 1024,
        total_bytes: 40 * 1024 * 1024,
        percent: Some(25),
        speed_bps: Some(1024 * 1024),
        eta_secs: Some(90),
        transfers: 1,
        total_transfers: 4,
        file: None,
        pid: None,
        dry_run: false,
        updated_at_unix: 0,
        updated_at: String::new(),
    };
    assert_eq!(
        p.summary(),
        "[#####---------------]  10.0 MiB / 40.0 MiB  25%  1.0 MiB/s  ETA 1m"
    );
    let idle = TransferProgress::starting_at(None, false, 0);
    assert_eq!(idle.summary(), "starting");
    assert_eq!(idle.updated_at, "1970-01-01T00:00:00Z");
    assert_eq!(idle.bar(10), None);
}

#[test]
fn format_bytes_rounds_like_one_decimal_floats() {
    assert_eq!(format_bytes(0), "0 B");
    assert_eq!(format_bytes(1023), "1023 B");
    assert_eq!(format_bytes(1024), "1.0 KiB");
    assert_eq!(format_bytes(1280), "1.2 KiB");
    assert_eq!(format_bytes(1536), "1.5 KiB");
    assert_eq!(format_bytes(1024 * 1024 * 3 / 2), "1.5 MiB");
    assert_eq!(format_bytes(1024 * 1024 * 1024 * 5 / 2), "2.5 GiB");
    assert_eq!(format_bytes(u64::MAX), "17179869184.0 GiB");
    for n in [1000u64, 1300, 99_999, 5_000_000, 123_456_789_012, 9_007_199_254_740_993] {
        let expect = if n >= 1 << 30 {
            format!("{:.1} GiB", n as f64 / (1u64 << 30) as f64)
        } else if n >= 1 << 20 {
            format!("{:.1} MiB", n as f64 / (1u64 << 20) as f64)
        } else if n >= 1 << 10 {
            format!("{:.1} KiB", n as f64 / 1024.0)
        } else {
            format!("{n} B")
        };
        assert_eq!(format_bytes(n), expect);
    }
}

#[test]
fn eta_units() {
    assert_eq!(format_eta(59), "59s");
    assert_eq!(format_eta(60), "1m");
    assert_eq!(format_eta(3599), "59m");
    assert_eq!(format_eta(7200), "2h");
}

#[test]
fn display_message_and_object() {
    assert_eq!(shown("   "), "");
    assert_eq!(
        shown(r#"{"msg":"Copied (new)","object":"notes.txt"}"#),
        "Copied (new)  notes.txt"
    );
    assert_eq!(shown(r#"{"msg":"  hello  "}"#), "hello");
    assert_eq!(shown(r#"{"object":"x.txt"}"#), "x.txt");
    assert_eq!(shown(r#" {"level":"info"} "#), r#"{"level":"info"}"#);
}

#[test]
fn bar_caps_at_width() {
    let mut p = TransferProgress::starting_at(None, false, 0);
    p.percent = Some(200);
    assert_eq!(p.bar(3).as_deref(), Some("[###]"));
    p.percent = Some(0);
    assert_eq!(p.bar(0).as_deref(), Some("[-]"));
}

#[test]
fn percent_never_passes_a_hundred() {
    let mut p = TransferProgress::starting_at(None, false, 0);
    let stats = RcloneStats {
        bytes: u64::MAX,
        total_bytes: 7,
        speed: None,
        eta: None,
        transfers: 0,
        total_transfers: 0,
        transferring: vec![],
    };
    let line = LogLine { msg: None, object: None, stats: Some(stats) };
    assert!(apply_log_line(&mut p, Some(&line), 0));
    assert_eq!(p.percent, Some(100));
}
