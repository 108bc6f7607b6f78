use std::collections::HashSet;

use synctr_engine::error::Error;
use synctr_engine::rclone::{
    pick_rclone, probe_list, resolve_rclone, well_known, FsProbe, ResolveRequest, ResolveSource,
};

struct MapFs(HashSet<String>);

impl FsProbe for MapFs {
    fn is_executable(&self, path: &str) -> bool {
        self.0.contains(path)
    }
}

fn fs(paths: &[&str]) -> MapFs {
    MapFs(paths.iter().map(|p| p.to_string()).collect())
}

fn req(path_var: Option<&str>, user: &str) -> ResolveRequest {
    ResolveRequest {
        flag: None,
        profile: None,
        env: None,
        path_var: path_var.map(str::to_string),
        user: user.to_string(),
    }
}

#[test]
fn flag_wins_over_path_and_well_known() {
    let found = resolve_rclone(
        &ResolveRequest {
            flag: Some("/custom/rclone".to_string()),
            ..req(Some("/usr/bin"), "luxus")
        },
        &fs(&["/custom/rclone", "/usr/bin/rclone", "/opt/homebrew/bin/rclone"]),
    )
    .unwrap();
    assert_eq!(found.path, "/custom/rclone");
    assert_eq!(found.source, ResolveSource::Flag);
}

#[test]
fn profile_then_env_then_path() {
    let probe = fs(&["/profile/rclone", "/env/rclone", "/usr/bin/rclone"]);
    let found = resolve_rclone(
        &ResolveRequest {
            profile: Some("/profile/rclone".to_string()),
            env: Some("/env/rclone".to_string()),
            ..req(Some("/usr/bin"), "luxus")
        },
        &probe,
    )
    .unwrap();
    assert_eq!(found.source, ResolveSource::Profile);

    let found = resolve_rclone(
        &ResolveRequest {
            env: Some("/env/rclone".to_string()),
            ..req(Some("/usr/bin"), "luxus")
        },
        &probe,
    )
    .unwrap();
    assert_eq!(found.source, ResolveSource::Env);

    let found = resolve_rclone(&req(Some("/usr/bin"), "luxus"), &probe).unwrap();
    assert_eq!(found.path, "/usr/bin/rclone");
    assert_eq!(found.source, ResolveSource::Path);
}

#[test]
fn empty_path_still_finds_nix_darwin() {
    let user = "luxus";
    let nix = format!("/etc/profiles/per-user/{user}/bin/rclone");
    let found = resolve_rclone(&req(Some(""), user), &fs(&[&nix, "/opt/homebrew/bin/rclone"])).unwrap();
    assert_eq!(found.path, nix);
    assert_eq!(found.source, ResolveSource::NixDarwinUser);
}

#[test]
fn nix_system_before_homebrew_when_path_misses() {
    let found = resolve_rclone(
        &req(Some("/usr/bin:/bin"), "luxus"),
        &fs(&[
            "/run/current-system/sw/bin/rclone",
            "/opt/homebrew/bin/rclone",
            "/usr/local/bin/rclone",
        ]),
    )
    .unwrap();
    assert_eq!(found.source, ResolveSource::NixSystem);
    assert_eq!(found.path, "/run/current-system/sw/bin/rclone");
}

#[test]
fn homebrew_opt_then_usr_local() {
    let found = resolve_rclone(
        &req(None, "luxus"),
        &fs(&["/opt/homebrew/bin/rclone", "/usr/local/bin/rclone"]),
    )
    .unwrap();
    assert_eq!(found.source, ResolveSource::HomebrewOpt);
    let found = resolve_rclone(&req(None, "luxus"), &fs(&["/usr/local/bin/rclone"])).unwrap();
    assert_eq!(found.source, ResolveSource::HomebrewUsrLocal);
}

#[test]
fn missing_override_does_not_fall_through() {
    let err = resolve_rclone(
        &ResolveRequest {
            flag: Some("/nope/rclone".to_string()),
            ..req(Some("/usr/bin"), "luxus")
        },
        &fs(&["/usr/bin/rclone"]),
    )
    .unwrap_err();
    assert!(matches!(err, Error::RcloneOverrideMissing { .. }));
    assert_eq!(
        err.message(),
        "rclone override not found (flag): /nope/rclone"
    );
}

#[test]
fn not_found_when_nothing_exists() {
    let err = resolve_rclone(&req(Some("/usr/bin:/bin"), "luxus"), &fs(&[])).unwrap_err();
    assert!(matches!(err, Error::RcloneNotFound));
}

#[test]
fn probe_order_and_pick_from_answers() {
    let r = req(Some("/a::/b/"), "me");
    let list: Vec<String> = probe_list(&r).into_iter().map(|c| c.0).collect();
    assert_eq!(
        list,
        vec![
            "/a/rclone",
            "/b/rclone",
            "/etc/profiles/per-user/me/bin/rclone",
            "/run/current-system/sw/bin/rclone",
            "/opt/homebrew/bin/rclone",
            "/usr/local/bin/rclone",
        ]
    );
    let picked = pick_rclone(&r, &vec![false, false, false, true]).unwrap();
    assert_eq!(picked.path, "/run/current-system/sw/bin/rclone");
    assert!(matches!(pick_rclone(&r, &vec![false]), Err(Error::RcloneNotFound)));
    assert_eq!(well_known("me").len(), 4);
    assert_eq!(ResolveSource::NixDarwinUser.as_str(), "nix-darwin-user");
    assert_eq!(ResolveSource::Flag.explain(), "--rclone");
}

struct Recorder {
    yes: String,
    asked: std::cell::RefCell<Vec<String>>,
}

impl FsProbe for Recorder {
    fn is_executable(&self, path: &str) -> bool {
        self.asked.borrow_mut().push(path.to_string());
        path == self.yes
    }
}

#[test]
fn probing_follows_the_order_and_stops_at_the_first_yes() {
    let probe = Recorder {
        yes: "/b/rclone".to_string(),
        asked: std::cell::RefCell::new(Vec::new()),
    };
    let found = resolve_rclone(&req(Some("/a:/b:/c"), "u"), &probe).unwrap();
    assert_eq!(found.path, "/b/rclone");
    assert_eq!(*probe.asked.borrow(), vec!["/a/rclone".to_string(), "/b/rclone".to_string()]);
}
