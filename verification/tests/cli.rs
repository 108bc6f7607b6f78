use synctr_engine::cli::{edit_from_flags, profile_list_line, schedule_kind};
use synctr_engine::error::Error;
use synctr_engine::profile::{Mode, Profile};
use synctr_engine::schedule::ScheduleKind;

#[test]
fn edit_flags_clear_or_replace() {
    let e = edit_from_flags(None, None, None, None, true, vec![], true, vec!["*.x".into()], false);
    assert_eq!(e.rclone, Some(None));
    assert_eq!(e.extra_flags, Some(vec![]));
    assert_eq!(e.extra_ignore, Some(vec!["*.x".to_string()]));
    let none = edit_from_flags(None, None, None, None, false, vec![], false, vec![], false);
    assert!(none.is_empty());
    let m = edit_from_flags(None, None, Some(Mode::Copy), Some("rc".into()), false, vec![], false, vec![], false);
    assert_eq!(m.rclone, Some(Some("rc".to_string())));
    assert_eq!(m.mode, Some(Mode::Copy));
}

#[test]
fn list_line_and_kind() {
    let p = Profile::new(
        "docs".into(),
        "/tmp/docs".into(),
        "b2:x".into(),
        Mode::Sync,
        None,
        vec![],
        vec![],
        "/",
    )
    .unwrap();
    assert_eq!(profile_list_line(&p), "docs\tsync\t/tmp/docs\t->\tb2:x");
    assert_eq!(schedule_kind(None, true).unwrap(), ScheduleKind::Launchd);
    assert_eq!(schedule_kind(Some("systemd"), true).unwrap(), ScheduleKind::Systemd);
    assert!(matches!(schedule_kind(Some("cron"), false), Err(Error::InvalidScheduleKind(k)) if k == "cron"));
}
