use synctr_engine::paths::{expand_tilde, make_absolute, DirEnv, Paths};

#[test]
fn from_config_dir_nests_state_and_cache() {
    let p = Paths::from_config_dir("/tmp/synctr-cfg".to_string(), None, None);
    assert_eq!(p.profiles_dir, "/tmp/synctr-cfg/profiles");
    assert_eq!(p.ignore_file, "/tmp/synctr-cfg/ignore");
    assert_eq!(p.profile_toml("docs"), "/tmp/synctr-cfg/profiles/docs.toml");
    assert_eq!(p.profile_ignore("docs"), "/tmp/synctr-cfg/profiles/docs.ignore");
}

#[test]
fn from_config_dir_state_and_cache_overrides() {
    let p = Paths::from_config_dir(
        "/cfg".to_string(),
        Some("/state".to_string()),
        Some(String::new()),
    );
    assert_eq!(p.state_dir, "/state");
    assert_eq!(p.cache_dir, "/cfg/cache");
    assert_eq!(p.last_run("docs"), "/state/runs/docs.toml");
    assert_eq!(p.filter_file("docs"), "/cfg/cache/filters/docs.filter");
    assert_eq!(p.progress_file("docs"), "/state/progress/docs.json");
    assert_eq!(p.lock_file("docs"), "/state/locks/docs.lock");
}

#[test]
fn from_env_prefers_own_variable_then_xdg_then_home() {
    let env = DirEnv {
        synctr_config_dir: Some("/own/config".to_string()),
        xdg_config_home: Some("/xdg/config".to_string()),
        synctr_state_dir: None,
        xdg_state_home: Some("/xdg/state".to_string()),
        synctr_cache_dir: Some(String::new()),
        xdg_cache_home: None,
    };
    let p = Paths::from_env_home(&env, "/home/u");
    assert_eq!(p.config_dir, "/own/config");
    assert_eq!(p.profiles_dir, "/own/config/profiles");
    assert_eq!(p.state_dir, "/xdg/state/synctr");
    assert_eq!(p.cache_dir, "/home/u/.cache/synctr");
}

#[test]
fn tilde_and_relative_paths() {
    assert_eq!(expand_tilde("~", "/home/u"), "/home/u");
    assert_eq!(expand_tilde("~/docs", "/home/u"), "/home/u/docs");
    assert_eq!(expand_tilde("~docs", "/home/u"), "~docs");
    assert_eq!(make_absolute("docs", "/work"), "/work/docs");
    assert_eq!(make_absolute("/abs", "/work"), "/abs");
    assert_eq!(make_absolute("bin/rclone", "/work/"), "/work/bin/rclone");
}

#[test]
fn storing_a_stored_path_changes_nothing() {
    let once = make_absolute("docs/../x", "/work");
    assert_eq!(once, "/work/docs/../x");
    assert_eq!(make_absolute(&once, "/elsewhere"), once);
    assert_eq!(make_absolute(&once, "/work"), once);
}
