//! The library's error type, with the message each error prints.

use vstd::prelude::*;

verus! {

/// What can go wrong in synctr.
#[derive(Clone, Debug, PartialEq, Eq)]
pub enum Error {
    ProfileNotFound(String),
    ProfileExists(String),
    InvalidName(String),
    InvalidRemote(String),
    InvalidMode(String),
    RcloneNotFound,
    RcloneOverrideMissing { origin: String, path: String },
    EmptyEdit,
    InvalidScheduleKind(String),
    InvalidInterval,
    HomeNotFound,
    ProfileBusy(String),
    ProfileDisabled(String),
    ResyncNotBisync(String, String),
    Io(String),
    TomlDe(String),
    TomlSer(String),
}

/// The plain values an error carries.
pub enum ErrorView {
    ProfileNotFound(Seq<char>),
    ProfileExists(Seq<char>),
    InvalidName(Seq<char>),
    InvalidRemote(Seq<char>),
    InvalidMode(Seq<char>),
    RcloneNotFound,
    RcloneOverrideMissing { origin: Seq<char>, path: Seq<char> },
    EmptyEdit,
    InvalidScheduleKind(Seq<char>),
    InvalidInterval,
    HomeNotFound,
    ProfileBusy(Seq<char>),
    ProfileDisabled(Seq<char>),
    ResyncNotBisync(Seq<char>, Seq<char>),
    Io(Seq<char>),
    TomlDe(Seq<char>),
    TomlSer(Seq<char>),
}

impl View for Error {
    type V = ErrorView;

    open spec fn view(&self) -> ErrorView {
        match self {
            Error::ProfileNotFound(s) => ErrorView::ProfileNotFound(s@),
            Error::ProfileExists(s) => ErrorView::ProfileExists(s@),
            Error::InvalidName(s) => ErrorView::InvalidName(s@),
            Error::InvalidRemote(s) => ErrorView::InvalidRemote(s@),
            Error::InvalidMode(s) => ErrorView::InvalidMode(s@),
            Error::RcloneNotFound => ErrorView::RcloneNotFound,
            Error::RcloneOverrideMissing { origin, path } => ErrorView::RcloneOverrideMissing {
                origin: origin@,
                path: path@,
            },
            Error::EmptyEdit => ErrorView::EmptyEdit,
            Error::InvalidScheduleKind(s) => ErrorView::InvalidScheduleKind(s@),
            Error::InvalidInterval => ErrorView::InvalidInterval,
            Error::HomeNotFound => ErrorView::HomeNotFound,
            Error::ProfileBusy(s) => ErrorView::ProfileBusy(s@),
            Error::ProfileDisabled(s) => ErrorView::ProfileDisabled(s@),
            Error::ResyncNotBisync(a, b) => ErrorView::ResyncNotBisync(a@, b@),
            Error::Io(s) => ErrorView::Io(s@),
            Error::TomlDe(s) => ErrorView::TomlDe(s@),
            Error::TomlSer(s) => ErrorView::TomlSer(s@),
        }
    }
}

/// Whether `r` is the error `e`.
pub open spec fn fails_with<T>(r: Result<T, Error>, e: ErrorView) -> bool {
    match r {
        Err(x) => x@ == e,
        Ok(_) => false,
    }
}

/// The message an error prints.
pub open spec fn message_of(e: ErrorView) -> Seq<char> {
    match e {
        ErrorView::ProfileNotFound(s) => "profile `"@ + s + "` not found"@,
        ErrorView::ProfileExists(s) => "profile `"@ + s + "` already exists"@,
        ErrorView::InvalidName(s) => "invalid profile name `"@ + s
            + "` (use letters, digits, `_`, `-`)"@,
        ErrorView::InvalidRemote(s) => "invalid remote `"@ + s + "` (want remote:path)"@,
        ErrorView::InvalidMode(s) => "unknown mode `"@ + s + "` (want copy, sync, or bisync)"@,
        ErrorView::RcloneNotFound => "rclone not found (flag, SYNCTR_RCLONE, PATH, nix-darwin, homebrew)"@,
        ErrorView::RcloneOverrideMissing { origin, path } => "rclone override not found ("@
            + origin + "): "@ + path,
        ErrorView::EmptyEdit => "nothing to change"@,
        ErrorView::InvalidScheduleKind(s) => "unknown schedule kind `"@ + s
            + "` (want systemd or launchd)"@,
        ErrorView::InvalidInterval => "interval must be greater than zero seconds"@,
        ErrorView::HomeNotFound => "home directory not found (set HOME or XDG_CONFIG_HOME, or pass --dir)"@,
        ErrorView::ProfileBusy(s) => "profile `"@ + s + "` is already running"@,
        ErrorView::ProfileDisabled(s) => "profile `"@ + s + "` is disabled (synctr profile enable "@
            + s + ")"@,
        ErrorView::ResyncNotBisync(a, b) => "`--resync` is only for bisync profiles (profile `"@
            + a + "` is "@ + b + ")"@,
        ErrorView::Io(s) => "io: "@ + s,
        ErrorView::TomlDe(s) => "toml: "@ + s,
        ErrorView::TomlSer(s) => "toml: "@ + s,
    }
}

fn cat3(a: &str, b: &str, c: &str) -> (r: String)
    ensures
        r@ == a@ + b@ + c@,
{
    let mut r = a.to_owned();
    r.append(b);
    r.append(c);
    r
}

impl Error {
    /// The message this error prints.
    pub fn message(&self) -> (m: String)
        ensures
            m@ == message_of(self@),
    {
        match self {
            Error::ProfileNotFound(s) => cat3("profile `", s.as_str(), "` not found"),
            Error::ProfileExists(s) => cat3("profile `", s.as_str(), "` already exists"),
            Error::InvalidName(s) => cat3(
                "invalid profile name `",
                s.as_str(),
                "` (use letters, digits, `_`, `-`)",
            ),
            Error::InvalidRemote(s) => cat3("invalid remote `", s.as_str(), "` (want remote:path)"),
            Error::InvalidMode(s) => cat3(
                "unknown mode `",
                s.as_str(),
                "` (want copy, sync, or bisync)",
            ),
            Error::RcloneNotFound => "rclone not found (flag, SYNCTR_RCLONE, PATH, nix-darwin, homebrew)".to_owned(),
            Error::RcloneOverrideMissing { origin, path } => {
                let mut r = cat3("rclone override not found (", origin.as_str(), "): ");
                r.append(path.as_str());
                r
            },
            Error::EmptyEdit => "nothing to change".to_owned(),
            Error::InvalidScheduleKind(s) => cat3(
                "unknown schedule kind `",
                s.as_str(),
                "` (want systemd or launchd)",
            ),
            Error::InvalidInterval => "interval must be greater than zero seconds".to_owned(),
            Error::HomeNotFound => "home directory not found (set HOME or XDG_CONFIG_HOME, or pass --dir)".to_owned(),
            Error::ProfileBusy(s) => cat3("profile `", s.as_str(), "` is already running"),
            Error::ProfileDisabled(s) => {
                let mut r = cat3(
                    "profile `",
                    s.as_str(),
                    "` is disabled (synctr profile enable ",
                );
                r.append(s.as_str());
                r.append(")");
                r
            },
            Error::ResyncNotBisync(a, b) => {
                let mut r = cat3(
                    "`--resync` is only for bisync profiles (profile `",
                    a.as_str(),
                    "` is ",
                );
                r.append(b.as_str());
                r.append(")");
                r
            },
            Error::Io(s) => crate::text::cat("io: ", s.as_str()),
            Error::TomlDe(s) => crate::text::cat("toml: ", s.as_str()),
            Error::TomlSer(s) => crate::text::cat("toml: ", s.as_str()),
        }
    }
}

} // verus!
