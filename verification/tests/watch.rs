use synctr_engine::ignore::FilterSet;
use synctr_engine::watch::{
    is_content_change, note_event, path_should_wake, relative_to_root, watch_debouncer, ChangeKind,
    Debouncer,
};

fn defaults() -> FilterSet {
    FilterSet::from_gitignore_lines(&vec![]).with_defaults()
}

#[test]
fn debounce_fires_once_after_quiet_period() {
    let mut d = Debouncer::new(40);
    let t0: u64 = 1_000;
    d.poke(t0);
    assert!(!d.take_ready(t0));
    d.poke(t0 + 20);
    assert!(!d.take_ready(t0 + 30));
    assert!(d.take_ready(t0 + 70));
    assert!(!d.take_ready(t0 + 70));
    assert!(!d.pending());
}

#[test]
fn ignored_paths_do_not_wake_watch() {
    let filters = defaults();
    let root = "/tmp/docs";
    assert!(path_should_wake(&filters, root, "/tmp/docs/src/lib.rs"));
    assert!(!path_should_wake(&filters, root, "/tmp/docs/node_modules/left-pad/index.js"));
    assert!(!path_should_wake(&filters, root, "/tmp/docs/target/debug/synctr"));
    assert!(path_should_wake(&filters, root, root));
}

#[test]
fn ignored_directory_itself_does_not_wake() {
    let filters = defaults();
    let root = "/tmp/docs";
    assert!(
        !path_should_wake(&filters, root, "/tmp/docs/node_modules"),
        "notify reports the ignored directory with no trailing slash"
    );
    assert!(!path_should_wake(&filters, root, "/tmp/docs/.git"));
    assert!(!path_should_wake(&filters, root, "/tmp/docs/target"));
    assert!(!path_should_wake(&filters, root, "/tmp/docs/dist"));
    assert!(path_should_wake(&filters, root, "/tmp/docs/src"));
    assert!(path_should_wake(&filters, root, "/tmp/docs/notes.md"));
}

#[test]
fn path_outside_watched_root_does_not_wake() {
    let filters = defaults();
    let root = "/tmp/docs";
    assert!(!path_should_wake(&filters, root, "/tmp/other/file.txt"));
    assert!(!path_should_wake(&filters, root, "/var/log/syslog"));
    assert!(!path_should_wake(&filters, root, "/tmp/docs2/file.txt"));
}

#[test]
fn access_and_metadata_do_not_count_as_content_changes() {
    assert!(!is_content_change(ChangeKind::Access));
    assert!(!is_content_change(ChangeKind::Metadata));
    assert!(is_content_change(ChangeKind::Content));
}

#[test]
fn relative_paths_by_components() {
    assert_eq!(relative_to_root("/tmp/docs", "/tmp/docs/a/b").as_deref(), Some("a/b"));
    assert_eq!(relative_to_root("/tmp/docs/", "/tmp//docs/./a").as_deref(), Some("a"));
    assert_eq!(relative_to_root("/tmp/docs", "/tmp/docs").as_deref(), Some(""));
    assert_eq!(relative_to_root("/tmp/docs", "tmp/docs/a"), None);
    assert_eq!(relative_to_root("/tmp/docs", "/tmp/doc"), None);
}

#[test]
fn keep_rule_wakes_for_otherwise_ignored_tree() {
    let filters = FilterSet::from_gitignore_lines(&vec!["!node_modules/".to_string()]).with_defaults();
    assert!(path_should_wake(&filters, "/r", "/r/node_modules/pkg/index.js"));
    assert!(!path_should_wake(&filters, "/r", "/r/.git/HEAD"));
}

#[test]
fn debounce_poke_postpones() {
    let mut d = Debouncer::new(100);
    assert!(!d.pending());
    d.poke(0);
    d.poke(50);
    assert!(d.pending());
    assert!(!d.take_ready(120));
    assert!(d.take_ready(150));
    assert_eq!(d.wait_ms(), 100);
}

#[test]
fn watch_debouncer_waits_at_least_one_millisecond() {
    assert_eq!(watch_debouncer(0).wait_ms(), 1);
    assert_eq!(watch_debouncer(1500).wait_ms(), 1500);
    assert!(!watch_debouncer(1500).pending());
}

#[test]
fn only_content_changes_outside_ignores_restart_the_wait() {
    let filters = defaults();
    let mut d = watch_debouncer(100);
    let ignored = vec!["/w/node_modules/x.js".to_string()];
    assert!(!note_event(&mut d, &filters, "/w", ChangeKind::Content, &ignored, 10));
    assert!(!d.pending());
    let real = vec!["/w/node_modules/x.js".to_string(), "/w/src/main.rs".to_string()];
    assert!(!note_event(&mut d, &filters, "/w", ChangeKind::Metadata, &real, 10));
    assert!(!note_event(&mut d, &filters, "/w", ChangeKind::Access, &real, 10));
    assert!(!d.pending());
    assert!(note_event(&mut d, &filters, "/w", ChangeKind::Content, &real, 10));
    assert!(d.pending());
    assert!(!d.take_ready(109));
    assert!(d.take_ready(110));
    let outside = vec!["/elsewhere/file".to_string()];
    assert!(!note_event(&mut d, &filters, "/w", ChangeKind::Content, &outside, 200));
}

#[test]
fn a_leading_dot_is_a_component_of_its_own() {
    let filters = defaults();
    assert_eq!(relative_to_root("docs", "./docs/x"), None);
    assert!(!path_should_wake(&filters, "docs", "./docs/x"));
    assert_eq!(relative_to_root("./docs", "./docs/x").as_deref(), Some("x"));
    assert_eq!(relative_to_root(".", "./a/b").as_deref(), Some("a/b"));
    assert_eq!(relative_to_root("docs", "docs/./x").as_deref(), Some("x"));
    assert_eq!(relative_to_root("/w", "/./w/x").as_deref(), Some("x"));
}

#[test]
fn the_rest_of_the_path_keeps_its_text() {
    assert_eq!(relative_to_root("a", "a//b/./c").as_deref(), Some("b/./c"));
    assert_eq!(relative_to_root("a", "a/./b//").as_deref(), Some("b"));
    assert_eq!(relative_to_root("/w", "/w/x//y/").as_deref(), Some("x//y"));
    assert_eq!(relative_to_root("/w", "/w/").as_deref(), Some(""));
    assert_eq!(relative_to_root("", "./x/").as_deref(), Some("./x"));
    assert_eq!(relative_to_root("", "/a//").as_deref(), Some("/a"));
    assert_eq!(relative_to_root("", "/").as_deref(), Some("/"));
    assert_eq!(relative_to_root("/", "/./a").as_deref(), Some("a"));
}
