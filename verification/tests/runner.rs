use synctr_engine::profile::{Mode, Profile};
use synctr_engine::runner::{build_sync_argv, exit_code_of};

fn docs(flags: Vec<String>) -> Profile {
    Profile::new(
        "docs".into(),
        "/tmp/docs".into(),
        "b2:bucket/docs".into(),
        Mode::Sync,
        None,
        flags,
        vec![],
        "/",
    )
    .unwrap()
}

#[test]
fn argv_is_separate_args_not_a_shell_string() {
    let profile = docs(vec!["--checksum".into()]);
    let argv = build_sync_argv("/usr/bin/rclone", &profile, "/tmp/docs.filter", false);
    assert_eq!(argv.program, "/usr/bin/rclone");
    let args = argv.args_lossy();
    assert_eq!(
        args,
        vec![
            "sync",
            "/tmp/docs",
            "b2:bucket/docs",
            "--filter-from",
            "/tmp/docs.filter",
            "--verbose",
            "--use-json-log",
            "--checksum",
        ]
    );
    assert!(args.iter().all(|a| !a.contains(" --")));
    assert!(!args.iter().any(|a| a == "--dry-run"));

    let dry = build_sync_argv("/usr/bin/rclone", &profile, "/tmp/docs.filter", true);
    let dry_args = dry.args_lossy();
    assert_eq!(&dry_args[..args.len()], args.as_slice());
    assert_eq!(dry_args.last().map(String::as_str), Some("--dry-run"));
}

#[test]
fn argv_uses_mode_subcommand_and_exit_code_default() {
    let mut p = docs(vec![]);
    p.mode = Mode::Bisync;
    let argv = build_sync_argv("rclone", &p, "f", true);
    assert_eq!(argv.args[0], "bisync");
    assert_eq!(argv.args.len(), 8);
    assert_eq!(exit_code_of(Some(7)), 7);
    assert_eq!(exit_code_of(None), 1);
}
