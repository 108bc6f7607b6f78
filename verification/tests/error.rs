use synctr_engine::error::Error;

#[test]
fn error_messages() {
    assert_eq!(Error::ProfileNotFound("docs".into()).message(), "profile `docs` not found");
    assert_eq!(Error::EmptyEdit.message(), "nothing to change");
    assert_eq!(
        Error::ProfileDisabled("docs".into()).message(),
        "profile `docs` is disabled (synctr profile enable docs)"
    );
    assert_eq!(
        Error::ResyncNotBisync("docs".into(), "sync".into()).message(),
        "`--resync` is only for bisync profiles (profile `docs` is sync)"
    );
    assert_eq!(Error::Io("boom".into()).message(), "io: boom");
    assert_eq!(
        Error::InvalidName("a b".into()).message(),
        "invalid profile name `a b` (use letters, digits, `_`, `-`)"
    );
}
