use synctr_engine::error::Error;
use synctr_engine::profile::{profile_files_sorted, validate_name, Mode, Profile, ProfileEdit, RenameStep};

#[test]
fn rejects_remote_without_colon() {
    let err = Profile::new(
        "x".into(),
        "/tmp".into(),
        "not-a-remote".into(),
        Mode::Copy,
        None,
        vec![],
        vec![],
        "/",
    )
    .unwrap_err();
    assert!(matches!(err, Error::InvalidRemote(_)));
}

#[test]
fn relative_local_and_rclone_are_stored_absolute() {
    let cwd = "/home/me/work";
    let p = Profile::new(
        "docs".into(),
        "docs".into(),
        "b2:bucket/docs".into(),
        Mode::Sync,
        Some("bin/rclone".into()),
        vec![],
        vec![],
        cwd,
    )
    .unwrap();
    assert_eq!(p.local, "/home/me/work/docs");
    assert_eq!(p.rclone.as_deref(), Some("/home/me/work/bin/rclone"));
    assert!(p.local.starts_with('/'));
    assert!(p.enabled);
}

#[test]
fn names_letters_digits_underscore_dash() {
    assert!(validate_name("docs").is_ok());
    assert!(validate_name("a_b-9").is_ok());
    assert!(validate_name("9lives").is_ok());
    assert!(matches!(validate_name(""), Err(Error::InvalidName(_))));
    assert!(matches!(validate_name("-x"), Err(Error::InvalidName(_))));
    assert!(matches!(validate_name("_x"), Err(Error::InvalidName(_))));
    assert!(matches!(validate_name("a/b"), Err(Error::InvalidName(_))));
    assert!(matches!(validate_name("a.toml"), Err(Error::InvalidName(_))));
    assert!(matches!(validate_name("é"), Err(Error::InvalidName(_))));
}

#[test]
fn mode_names_round_trip() {
    for m in [Mode::Copy, Mode::Sync, Mode::Bisync] {
        assert_eq!(Mode::parse(m.as_str()).unwrap(), m);
        assert_eq!(m.rclone_subcommand(), m.as_str());
    }
    assert!(matches!(Mode::parse("mirror"), Err(Error::InvalidMode(s)) if s == "mirror"));
}

fn docs() -> Profile {
    Profile::new(
        "docs".into(),
        "/tmp/docs".into(),
        "b2:bucket/docs".into(),
        Mode::Sync,
        None,
        vec!["--checksum".into()],
        vec!["*.key".into()],
        "/",
    )
    .unwrap()
}

#[test]
fn edit_replaces_named_fields_only() {
    let edited = ProfileEdit {
        remote: Some("b2:bucket/other".into()),
        mode: Some(Mode::Copy),
        extra_flags: Some(vec!["--fast-list".into()]),
        ..ProfileEdit::default()
    }
    .apply(docs(), "/")
    .unwrap();
    assert_eq!(edited.remote, "b2:bucket/other");
    assert_eq!(edited.mode, Mode::Copy);
    assert_eq!(edited.extra_flags, vec!["--fast-list"]);
    assert_eq!(edited.extra_ignore, vec!["*.key"]);
    assert_eq!(edited.local, "/tmp/docs");
    assert_eq!(edited.name, "docs");
    assert!(matches!(
        ProfileEdit::default().apply(docs(), "/"),
        Err(Error::EmptyEdit)
    ));
    assert!(matches!(
        ProfileEdit { remote: Some("nocolon".into()), ..ProfileEdit::default() }.apply(docs(), "/"),
        Err(Error::InvalidRemote(_))
    ));
    let off = ProfileEdit {
        enabled: Some(false),
        rclone: Some(Some("rc".into())),
        local: Some("elsewhere".into()),
        ..ProfileEdit::default()
    }
    .apply(docs(), "/w")
    .unwrap();
    assert!(!off.enabled);
    assert_eq!(off.rclone.as_deref(), Some("/w/rc"));
    assert_eq!(off.local, "/w/elsewhere");
    assert!(matches!(off.require_enabled(), Err(Error::ProfileDisabled(n)) if n == "docs"));
    assert!(docs().require_enabled().is_ok());
    assert!(ProfileEdit::default().is_empty());
}

fn docs_store() -> (synctr_engine::profile::ProfileStore, Profile) {
    let paths = synctr_engine::paths::Paths::from_config_dir("/cfg".into(), None, None);
    let store = synctr_engine::profile::ProfileStore::new(paths);
    let p = Profile::new(
        "docs".into(),
        "/tmp/docs".into(),
        "b2:bucket/docs".into(),
        Mode::Sync,
        None,
        vec![],
        vec![],
        "/",
    )
    .unwrap();
    (store, p)
}

#[test]
fn add_target_refuses_an_existing_profile() {
    let (store, p) = docs_store();
    assert_eq!(store.add_target(&p, false).unwrap(), "/cfg/profiles/docs.toml");
    assert!(matches!(store.add_target(&p, true), Err(Error::ProfileExists(n)) if n == "docs"));
    let mut bad = p.clone();
    bad.name = "-x".into();
    assert!(matches!(store.add_target(&bad, false), Err(Error::InvalidName(_))));
}

#[test]
fn existing_toml_needs_a_valid_name_and_the_file() {
    let (store, _) = docs_store();
    assert_eq!(store.existing_toml("docs", true).unwrap(), "/cfg/profiles/docs.toml");
    assert!(matches!(store.existing_toml("docs", false), Err(Error::ProfileNotFound(n)) if n == "docs"));
    assert!(matches!(store.existing_toml("a b", true), Err(Error::InvalidName(_))));
}

#[test]
fn rename_step_checks_names_then_files() {
    let (store, p) = docs_store();
    assert_eq!(store.rename_step("docs", "notes", true, false).unwrap(), RenameStep::Move);
    assert_eq!(store.rename_step("docs", "docs", true, true).unwrap(), RenameStep::Unchanged);
    assert!(matches!(store.rename_step("docs", "notes", false, false), Err(Error::ProfileNotFound(n)) if n == "docs"));
    assert!(matches!(store.rename_step("docs", "docs", false, false), Err(Error::ProfileNotFound(_))));
    assert!(matches!(store.rename_step("docs", "notes", true, true), Err(Error::ProfileExists(n)) if n == "notes"));
    assert!(matches!(store.rename_step("docs", "no/tes", true, false), Err(Error::InvalidName(n)) if n == "no/tes"));
    assert!(matches!(store.rename_step("", "notes", true, false), Err(Error::InvalidName(n)) if n.is_empty()));
    let renamed = p.renamed("notes");
    assert_eq!(renamed.name, "notes");
    assert_eq!(renamed.remote, "b2:bucket/docs");
}

#[test]
fn profile_files_are_the_tomls_in_name_order() {
    let entries: Vec<String> = vec![
        "zzz-bad.toml".into(),
        "docs.ignore".into(),
        "docs.toml".into(),
        ".toml".into(),
        "Music.toml".into(),
        "notes.toml".into(),
        "toml".into(),
        "a.toml.bak".into(),
    ];
    let listed = profile_files_sorted(&entries);
    assert_eq!(listed, vec!["Music.toml", "docs.toml", "notes.toml", "zzz-bad.toml"]);
    assert!(profile_files_sorted(&vec![]).is_empty());
}

#[test]
fn valid_names_are_plain_file_names() {
    assert!(validate_name("docs-2_b").is_ok());
    assert!(matches!(validate_name("a/b"), Err(Error::InvalidName(_))));
    assert!(matches!(validate_name(".hidden"), Err(Error::InvalidName(_))));
    assert!(matches!(validate_name("x.toml"), Err(Error::InvalidName(_))));
    assert!(matches!(validate_name("_x"), Err(Error::InvalidName(_))));
}

#[test]
fn the_same_edit_twice_is_the_edit_once() {
    let edit = ProfileEdit {
        local: Some("moved".into()),
        rclone: Some(Some("bin/rclone".into())),
        extra_flags: Some(vec!["--fast-list".into()]),
        ..ProfileEdit::default()
    };
    let (_, p) = docs_store();
    let once = edit.clone().apply(p, "/work").unwrap();
    let twice = edit.apply(once.clone(), "/work").unwrap();
    assert_eq!(once, twice);
    assert_eq!(once.name, "docs");
    assert_eq!(once.local, "/work/moved");
    assert_eq!(once.rclone.as_deref(), Some("/work/bin/rclone"));
    assert_eq!(once.remote, "b2:bucket/docs");
}
