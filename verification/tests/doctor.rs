use synctr_engine::doctor::{
    doctor_profile, doctor_report, first_line, probe_remote, version_from, DoctorRclone, TimedRun,
};
use synctr_engine::paths::Paths;
use synctr_engine::profile::{Mode, Profile};

fn finished(code: i32, stdout: &str, stderr: &str) -> TimedRun {
    TimedRun::Finished { code, stdout: stdout.to_string(), stderr: stderr.to_string() }
}

#[test]
fn probe_remote_ok_and_timeout() {
    let p = probe_remote("docs", "b2:bucket/docs", finished(0, "listed\n", ""), 2);
    assert!(p.ok);
    assert_eq!(p.remote, "b2:bucket/docs");
    assert_eq!(p.detail, "listed");

    let p = probe_remote("docs", "b2:bucket/docs", TimedRun::TimedOut, 0);
    assert!(!p.ok);
    assert!(p.detail.contains("timeout"), "{}", p.detail);

    let p = probe_remote("docs", "b2:x", finished(3, "", "nope\n"), 2);
    assert!(!p.ok);
    assert_eq!(p.detail, "nope");
}

#[test]
fn probe_details_fall_back() {
    assert_eq!(probe_remote("d", "r:", TimedRun::TimedOut, 5).detail, "timeout after 5s");
    assert_eq!(probe_remote("d", "r:", finished(0, "", ""), 5).detail, "lsd ok");
    assert_eq!(probe_remote("d", "r:", finished(2, "\n", "  "), 5).detail, "lsd exit 2");
    let spawn = probe_remote("d", "r:", TimedRun::Spawn("no such file".into()), 5);
    assert!(!spawn.ok);
    assert_eq!(spawn.detail, "no such file");
    assert_eq!(first_line("  rclone v1.66\nmore"), Some("rclone v1.66".to_string()));
    assert_eq!(first_line(""), None);
    assert_eq!(version_from(&finished(0, "rclone v9.9.9\n", "")), Some("rclone v9.9.9".into()));
    assert_eq!(version_from(&finished(1, "rclone v9.9.9\n", "")), None);
}

#[test]
fn doctor_reports_missing_rclone_and_missing_local() {
    let paths = Paths::from_config_dir("/cfg".to_string(), None, None);
    let p = Profile::new(
        "docs".into(),
        "/no/such/synctr-local".into(),
        "b2:bucket/docs".into(),
        Mode::Sync,
        None,
        vec![],
        vec![],
        "/",
    )
    .unwrap();
    let report = doctor_report(&paths, DoctorRclone::missing(), vec![doctor_profile(p, false, false, None)]);
    assert!(!report.ok);
    assert!(!report.rclone.found);
    assert_eq!(report.profiles.len(), 1);
    assert!(!report.profiles[0].ok);
    assert!(!report.profiles[0].local_exists);
    assert!(!report.profiles[0].busy);
    assert!(report.profiles[0].issues[0].contains("local path missing"));
    let mut text = String::new();
    report.write_human(&mut text);
    assert_eq!(
        text,
        "rclone: not found\nconfig: /cfg\nstate:  /cfg/state\ndocs\tsync\t/no/such/synctr-local\t->\tb2:bucket/docs\tlocal=MISSING\tidle\tnever\n  - local path missing: /no/such/synctr-local\n"
    );
}

#[test]
fn doctor_ok_when_rclone_found_and_local_exists() {
    let paths = Paths::from_config_dir("/cfg".to_string(), None, None);
    let p = Profile::new(
        "docs".into(),
        "/tmp/docs".into(),
        "b2:x".into(),
        Mode::Copy,
        None,
        vec![],
        vec![],
        "/",
    )
    .unwrap();
    let rclone = DoctorRclone {
        found: true,
        path: Some("/bin/rclone".into()),
        source: Some("flag".into()),
        detail: Some("--rclone".into()),
        version: Some("rclone v9.9.9".into()),
    };
    let report = doctor_report(&paths, rclone, vec![doctor_profile(p, true, true, None)]);
    assert!(report.ok);
    assert!(report.profiles[0].ok);
    let mut text = String::new();
    report.write_human(&mut text);
    assert!(text.starts_with("rclone: /bin/rclone (rclone v9.9.9)\n"));
    assert!(text.contains("local=ok\tbusy\tnever\n"));
    let empty = doctor_report(&paths, DoctorRclone::missing(), vec![]);
    let mut t = String::new();
    empty.write_human(&mut t);
    assert!(t.ends_with("no profiles\n"));
}

#[test]
fn doctor_ok_when_rclone_and_local_exist() {
    let paths = Paths::from_config_dir("/cfg".to_string(), None, None);
    let bin = "/scratch/rclone".to_string();
    let p = Profile::new(
        "docs".into(),
        "/scratch/docs".into(),
        "b2:bucket/docs".into(),
        Mode::Copy,
        Some(bin.clone()),
        vec![],
        vec![],
        "/",
    )
    .unwrap();
    let found = synctr_engine::rclone::ResolvedRclone {
        path: bin,
        source: synctr_engine::rclone::ResolveSource::Flag,
    };
    let version = version_from(&finished(0, "rclone v9.9.9\n", ""));
    let rclone = DoctorRclone::from_json(synctr_engine::status::RcloneJson::from_resolved(&found), version);
    let report = doctor_report(&paths, rclone, vec![doctor_profile(p, true, false, None)]);
    assert!(report.ok);
    assert!(report.rclone.found);
    assert_eq!(report.rclone.version.as_deref(), Some("rclone v9.9.9"));
    assert!(report.profiles[0].ok);
    assert!(report.profiles[0].local_exists);
}
