use synctr_engine::error::Error;
use synctr_engine::schedule::{
    enable_hint, generate_schedule, install_dir_from, schedule_filenames, systemd_quote,
    xml_escape, ScheduleKind,
};

#[test]
fn systemd_unit_calls_synctr_sync_on_interval() {
    let spec = generate_schedule(
        ScheduleKind::Systemd,
        "docs",
        "/opt/synctr/bin/synctr",
        1800,
        None,
    )
    .unwrap();
    assert_eq!(spec.files.len(), 2);
    assert_eq!(spec.files[0].name, "synctr-docs.service");
    assert!(spec.files[0]
        .body
        .contains("ExecStart=/opt/synctr/bin/synctr sync docs"));
    assert!(spec.files[0].body.contains("Type=oneshot"));
    assert_eq!(spec.files[1].name, "synctr-docs.timer");
    assert!(spec.files[1].body.contains("OnUnitActiveSec=1800s"));
    assert!(spec.files[1].body.contains("WantedBy=timers.target"));
    assert!(!spec.files.iter().any(|f| f.body.contains("systemctl")));
}

#[test]
fn launchd_plist_uses_program_arguments_not_a_shell() {
    let spec = generate_schedule(
        ScheduleKind::Launchd,
        "docs",
        "/opt/synctr/bin/synctr",
        600,
        None,
    )
    .unwrap();
    assert_eq!(spec.files.len(), 1);
    assert_eq!(spec.files[0].name, "dev.luxus.synctr.docs.plist");
    let body = &spec.files[0].body;
    assert!(body.contains("<string>dev.luxus.synctr.docs</string>"));
    assert!(body.contains("<string>/opt/synctr/bin/synctr</string>"));
    assert!(body.contains("<string>sync</string>"));
    assert!(body.contains("<string>docs</string>"));
    assert!(body.contains("<integer>600</integer>"));
    assert!(!body.contains("launchctl"));
}

#[test]
fn rejects_zero_interval_and_bad_kind() {
    assert!(matches!(
        generate_schedule(ScheduleKind::Systemd, "docs", "/bin/synctr", 0, None),
        Err(Error::InvalidInterval)
    ));
    assert!(matches!(
        ScheduleKind::parse("cron"),
        Err(Error::InvalidScheduleKind(_))
    ));
}

#[test]
fn xml_escapes_bin_path() {
    let spec = generate_schedule(ScheduleKind::Launchd, "docs", "/tmp/syn&ctr", 60, None).unwrap();
    assert!(spec.files[0].body.contains("/tmp/syn&amp;ctr"));
}

#[test]
fn missing_home_is_an_error_not_root() {
    assert!(matches!(
        install_dir_from(ScheduleKind::Launchd, None, None),
        Err(Error::HomeNotFound)
    ));
    assert!(matches!(
        install_dir_from(ScheduleKind::Systemd, None, None),
        Err(Error::HomeNotFound)
    ));
    let systemd = install_dir_from(ScheduleKind::Systemd, Some("/xdg".to_string()), None).unwrap();
    assert_eq!(systemd, "/xdg/systemd/user");
    let launchd = install_dir_from(
        ScheduleKind::Launchd,
        None,
        Some("/Users/luxus".to_string()),
    )
    .unwrap();
    assert_eq!(launchd, "/Users/luxus/Library/LaunchAgents");
}

#[test]
fn launchd_hint_uses_the_install_dir() {
    let hint = enable_hint(ScheduleKind::Launchd, "/tmp/agents", "docs", false);
    assert!(hint.contains("launchctl load /tmp/agents/dev.luxus.synctr.docs.plist"));
    assert!(!hint.contains("~/Library/LaunchAgents"));
    let systemd = enable_hint(ScheduleKind::Systemd, "/tmp/units", "docs", false);
    assert!(systemd.contains("systemctl --user enable --now synctr-docs.timer"));
    assert!(systemd.contains("/tmp/units"));
}

#[test]
fn units_bake_config_dir_ahead_of_sync() {
    let spec = generate_schedule(
        ScheduleKind::Systemd,
        "docs",
        "/opt/synctr/bin/synctr",
        60,
        Some("/custom/synctr"),
    )
    .unwrap();
    assert!(spec.files[0]
        .body
        .contains("ExecStart=/opt/synctr/bin/synctr --config-dir /custom/synctr sync docs"));
    let spec = generate_schedule(
        ScheduleKind::Launchd,
        "docs",
        "/opt/synctr/bin/synctr",
        60,
        Some("/custom/synctr"),
    )
    .unwrap();
    let body = &spec.files[0].body;
    assert!(body.contains("<string>--config-dir</string>"));
    assert!(body.contains("<string>/custom/synctr</string>"));
    let sync_at = body.find("<string>sync</string>").unwrap();
    let cfg_at = body.find("<string>--config-dir</string>").unwrap();
    assert!(cfg_at < sync_at);
}

#[test]
fn systemd_quotes_dollar_and_spaces_in_paths() {
    let spec = generate_schedule(
        ScheduleKind::Systemd,
        "docs",
        "/opt/My Synctr/bin/synctr",
        60,
        Some("/home/user/cfg$x"),
    )
    .unwrap();
    let body = &spec.files[0].body;
    assert!(
        body.contains(
            "ExecStart=\"/opt/My Synctr/bin/synctr\" --config-dir \"/home/user/cfg$$x\" sync docs"
        ),
        "got {body}"
    );
}

#[test]
fn generated_names_match_uninstall_names() {
    for kind in [ScheduleKind::Systemd, ScheduleKind::Launchd] {
        let spec = generate_schedule(kind, "docs", "/bin/synctr", 60, None).unwrap();
        let names: Vec<String> = spec.files.iter().map(|f| f.name.clone()).collect();
        assert_eq!(names, schedule_filenames(kind, "docs"));
    }
}

#[test]
fn quoting_and_escaping_rules() {
    assert_eq!(systemd_quote("/usr/bin/synctr"), "/usr/bin/synctr");
    assert_eq!(systemd_quote("a\"b"), "\"a\\\"b\"");
    assert_eq!(systemd_quote("50%;x"), "\"50%%;x\"");
    assert_eq!(systemd_quote("a\\b"), "\"a\\\\b\"");
    assert_eq!(xml_escape("<a & 'b'>\""), "&lt;a &amp; &apos;b&apos;&gt;&quot;");
}

#[test]
fn schedule_rejects_bad_names_and_parses_kinds() {
    assert!(matches!(
        generate_schedule(ScheduleKind::Systemd, "-bad", "/bin/synctr", 60, None),
        Err(Error::InvalidName(n)) if n == "-bad"
    ));
    assert_eq!(ScheduleKind::parse("systemd").unwrap(), ScheduleKind::Systemd);
    assert_eq!(ScheduleKind::parse("launchd").unwrap(), ScheduleKind::Launchd);
    assert_eq!(ScheduleKind::Launchd.as_str(), "launchd");
    assert_eq!(ScheduleKind::default_for_host(true), ScheduleKind::Launchd);
    assert_eq!(ScheduleKind::default_for_host(false), ScheduleKind::Systemd);
    let hint = enable_hint(ScheduleKind::Systemd, "/x", "docs", true);
    assert_eq!(
        hint,
        "not enabled. to start: systemctl --user enable --now synctr-docs.timer"
    );
}

#[test]
fn timer_and_service_bodies_exactly() {
    let spec = generate_schedule(ScheduleKind::Systemd, "docs", "/bin/synctr", 90, None).unwrap();
    assert_eq!(
        spec.files[0].body,
        "[Unit]\nDescription=synctr sync docs\n\n[Service]\nType=oneshot\nExecStart=/bin/synctr sync docs\n"
    );
    assert_eq!(
        spec.files[1].body,
        "[Unit]\nDescription=synctr timer for docs\n\n[Timer]\nOnBootSec=1min\nOnUnitActiveSec=90s\nPersistent=true\n\n[Install]\nWantedBy=timers.target\n"
    );
    assert_eq!(spec.interval_secs, 90);
    assert_eq!(spec.bin, "/bin/synctr");
    assert_eq!(spec.profile, "docs");
}

#[test]
fn kind_names_read_back() {
    for k in [ScheduleKind::Systemd, ScheduleKind::Launchd] {
        assert_eq!(ScheduleKind::parse(k.as_str()).unwrap(), k);
    }
}
