use std::collections::HashSet;

use synctr_engine::profile::{Mode, Profile};
use synctr_engine::rclone::{FsProbe, ResolveRequest, ResolveSource, ResolvedRclone};
use synctr_engine::status::{
    age_label_at, last_run_short, unix_to_rfc3339, LastRun, ProfileStatus, RcloneJson,
    StatusSnapshot,
};
use synctr_engine::Error;

struct MapFs(HashSet<String>);

impl FsProbe for MapFs {
    fn is_executable(&self, path: &str) -> bool {
        self.0.contains(path)
    }
}

#[test]
fn rfc3339_unix_epoch() {
    assert_eq!(unix_to_rfc3339(0), "1970-01-01T00:00:00Z");
    assert_eq!(unix_to_rfc3339(1), "1970-01-01T00:00:01Z");
    assert_eq!(unix_to_rfc3339(86400), "1970-01-02T00:00:00Z");
}

#[test]
fn rfc3339_known_dates() {
    assert_eq!(unix_to_rfc3339(951782400), "2000-02-29T00:00:00Z");
    assert_eq!(unix_to_rfc3339(1700000000), "2023-11-14T22:13:20Z");
    assert_eq!(unix_to_rfc3339(-5), "1970-01-01T00:00:00Z");
    assert_eq!(unix_to_rfc3339(4102444799), "2099-12-31T23:59:59Z");
}

#[test]
fn age_label_buckets() {
    assert_eq!(age_label_at(100, 100), "0s ago");
    assert_eq!(age_label_at(100, 159), "59s ago");
    assert_eq!(age_label_at(100, 160), "1m ago");
    assert_eq!(age_label_at(0, 3600), "1h ago");
    assert_eq!(age_label_at(0, 86400), "1d ago");
    assert_eq!(age_label_at(50, 10), "0s ago");
}

#[test]
fn last_run_short_ok_fail_never() {
    let ok = LastRun {
        finished_at_unix: 0,
        finished_at: "1970-01-01T00:00:00Z".into(),
        exit_code: 0,
        ok: true,
    };
    let fail = LastRun {
        finished_at_unix: 0,
        finished_at: "1970-01-01T00:00:00Z".into(),
        exit_code: 7,
        ok: false,
    };
    assert_eq!(last_run_short(Some(&ok)), "ok 1970-01-01T00:00:00Z");
    assert_eq!(last_run_short(Some(&fail)), "exit 7 1970-01-01T00:00:00Z");
    assert_eq!(last_run_short(None), "never");
}

#[test]
fn last_run_at_is_ok_only_for_exit_zero() {
    let ok = LastRun::at(0, 86400);
    assert!(ok.ok);
    assert_eq!(ok.finished_at, "1970-01-02T00:00:00Z");
    let fail = LastRun::at(-2, 0);
    assert!(!fail.ok);
    assert_eq!(fail.short_status(), "exit -2 1970-01-01T00:00:00Z");
}

#[test]
fn from_live_missing_override_is_found_false() {
    let req = ResolveRequest {
        flag: Some("/no/such/rclone-for-status-json".to_string()),
        profile: None,
        env: None,
        path_var: None,
        user: String::new(),
    };
    let json = RcloneJson::from_live(&req, &MapFs(HashSet::new())).unwrap();
    assert!(!json.found);
    assert!(json.path.is_none());
    assert!(json.source.is_none());
    assert!(json.detail.is_none());
    assert_eq!(json.human_line(), "not found");
}

#[test]
fn rclone_json_found_and_other_errors() {
    let r = ResolvedRclone { path: "/usr/bin/rclone".to_string(), source: ResolveSource::Path };
    let j = RcloneJson::from_result(Ok(r)).unwrap();
    assert!(j.found);
    assert_eq!(j.source.as_deref(), Some("PATH"));
    assert_eq!(j.human_line(), "/usr/bin/rclone (PATH)");
    assert!(!RcloneJson::from_result(Err(Error::RcloneNotFound)).unwrap().found);
    assert!(matches!(
        RcloneJson::from_result(Err(Error::HomeNotFound)),
        Err(Error::HomeNotFound)
    ));
}

#[test]
fn status_human_text_lists_profiles() {
    let p = Profile::new(
        "docs".into(),
        "/tmp/docs".into(),
        "b2:bucket/docs".into(),
        Mode::Sync,
        None,
        vec![],
        vec![],
        "/",
    )
    .unwrap();
    let snap = StatusSnapshot {
        rclone: RcloneJson::missing(),
        profiles: vec![ProfileStatus::from_profile(p, Some(LastRun::at(7, 0)))],
    };
    assert_eq!(
        snap.human_text(),
        "rclone: not found\ndocs\tsync\t/tmp/docs\t->\tb2:bucket/docs\texit 7 1970-01-01T00:00:00Z\n"
    );
    let empty = StatusSnapshot { rclone: RcloneJson::missing(), profiles: vec![] };
    assert_eq!(empty.human_text(), "rclone: not found\nno profiles\n");
}
