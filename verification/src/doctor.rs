//! `synctr doctor`: rclone, the directories and each profile checked, and a
//! remote probed with `rclone lsd`.

use vstd::prelude::*;

use crate::paths::Paths;
use crate::profile::{mode_name, Mode, Profile};
use crate::rclone::opt_view;
use crate::status::{run_view, short_text, LastRun, RcloneJson};
use crate::text::{cat, dec, dec_int, owned, push_char, push_dec, push_dec_i64, split, split_str, trim, trim_str};

verus! {

/// rclone as the doctor sees it: where it is, and its version line.
#[derive(Clone, Debug, PartialEq, Eq)]
pub struct DoctorRclone {
    pub found: bool,
    pub path: Option<String>,
    pub source: Option<String>,
    pub detail: Option<String>,
    pub version: Option<String>,
}

impl DoctorRclone {
    /// The rclone status with its version line.
    pub fn from_json(json: RcloneJson, version: Option<String>) -> (d: DoctorRclone)
        ensures
            d.found == json.found && d.path == json.path && d.source == json.source && d.detail
                == json.detail && d.version == version,
    {
        DoctorRclone {
            found: json.found,
            path: json.path,
            source: json.source,
            detail: json.detail,
            version,
        }
    }

    /// rclone not found.
    pub fn missing() -> (d: DoctorRclone)
        ensures
            !d.found && d.path is None && d.source is None && d.detail is None && d.version is None,
    {
        DoctorRclone { found: false, path: None, source: None, detail: None, version: None }
    }
}

/// One profile checked.
#[derive(Clone, Debug, PartialEq, Eq)]
pub struct DoctorProfile {
    pub name: String,
    pub ok: bool,
    pub mode: Mode,
    pub local: String,
    pub local_exists: bool,
    pub remote: String,
    pub busy: bool,
    pub last_run: Option<LastRun>,
    pub issues: Vec<String>,
}

/// The whole report: ok when rclone is found and every profile is ok.
#[derive(Clone, Debug, PartialEq, Eq)]
pub struct DoctorReport {
    pub ok: bool,
    pub rclone: DoctorRclone,
    pub config_dir: String,
    pub state_dir: String,
    pub profiles: Vec<DoctorProfile>,
}

/// The result of probing a remote.
#[derive(Clone, Debug, PartialEq, Eq)]
pub struct RemoteProbe {
    pub ok: bool,
    pub name: String,
    pub remote: String,
    pub detail: String,
}

/// How a timed rclone run ended.
#[derive(Clone, Debug, PartialEq, Eq)]
pub enum TimedRun {
    Finished { code: i32, stdout: String, stderr: String },
    TimedOut,
    Spawn(String),
}

/// The issues of a profile: only a missing local directory counts.
pub open spec fn issues_of(local: Seq<char>, local_exists: bool) -> Seq<Seq<char>> {
    if local_exists {
        Seq::empty()
    } else {
        seq!["local path missing: "@ + local]
    }
}

/// The checked profile: ok exactly when it has no issue.
pub fn doctor_profile(profile: Profile, local_exists: bool, busy: bool, last_run: Option<LastRun>) -> (d: DoctorProfile)
    ensures
        d.name@ == profile@.name && d.mode == profile@.mode && d.local@ == profile@.local
            && d.remote@ == profile@.remote,
        d.local_exists == local_exists && d.busy == busy && d.last_run == last_run,
        d.issues.deep_view() == issues_of(profile@.local, local_exists),
        d.ok == (d.issues@.len() == 0),
{
    let mut issues: Vec<String> = Vec::new();
    if !local_exists {
        issues.push(cat("local path missing: ", profile.local.as_str()));
        assert(issues.deep_view() =~= issues_of(profile@.local, local_exists));
    } else {
        assert(issues.deep_view() =~= issues_of(profile@.local, local_exists));
    }
    let ok: bool = issues.len() == 0;
    DoctorProfile {
        name: profile.name,
        ok,
        mode: profile.mode,
        local: profile.local,
        local_exists,
        remote: profile.remote,
        busy,
        last_run,
        issues,
    }
}

/// Whether every profile is ok.
pub open spec fn all_ok(ps: Seq<DoctorProfile>) -> bool {
    forall|i: int| 0 <= i < ps.len() ==> (#[trigger] ps[i]).ok
}

/// The report over `rclone` and the checked `profiles`.
pub fn doctor_report(paths: &Paths, rclone: DoctorRclone, profiles: Vec<DoctorProfile>) -> (r: DoctorReport)
    ensures
        r.ok == (rclone.found && all_ok(profiles@)),
        r.rclone == rclone && r.profiles == profiles,
        r.config_dir@ == paths@.config_dir && r.state_dir@ == paths@.state_dir,
{
    let n: usize = profiles.len();
    let mut all: bool = true;
    let mut i: usize = 0;
    while i < n
        invariant
            n == profiles@.len(),
            i <= n,
            all == forall|k: int| 0 <= k < i ==> (#[trigger] profiles@[k]).ok,
        decreases n - i,
    {
        if !profiles[i].ok {
            all = false;
        }
        i = i + 1;
    }
    let ok: bool = rclone.found && all;
    DoctorReport {
        ok,
        rclone,
        config_dir: paths.config_dir.clone(),
        state_dir: paths.state_dir.clone(),
        profiles,
    }
}

/// The first line of `s`, trimmed; `None` when `s` is empty or that line is
/// blank.
pub open spec fn first_line_of(s: Seq<char>) -> Option<Seq<char>> {
    if s.len() == 0 {
        None
    } else {
        let t = trim(split(s, '\n')[0]);
        if t.len() == 0 {
            None
        } else {
            Some(t)
        }
    }
}

proof fn lemma_split_nonempty(s: Seq<char>, sep: char, cur: Seq<char>, acc: Seq<Seq<char>>)
    ensures
        crate::text::split_acc(s, sep, cur, acc).len() >= acc.len() + 1,
    decreases s.len(),
{
    if s.len() > 0 {
        if s[0] == sep {
            lemma_split_nonempty(s.drop_first(), sep, Seq::empty(), acc.push(cur));
        } else {
            lemma_split_nonempty(s.drop_first(), sep, cur.push(s[0]), acc);
        }
    }
}

/// `s.lines().next()`, trimmed, when not blank.
pub fn first_line(s: &str) -> (r: Option<String>)
    ensures
        match r {
            Some(t) => first_line_of(s@) == Some(t@),
            None => first_line_of(s@) is None,
        },
{
    if s.unicode_len() == 0 {
        return None;
    }
    let parts = split_str(s, '\n');
    proof {
        lemma_split_nonempty(s@, '\n', Seq::empty(), Seq::empty());
    }
    let t = trim_str(parts[0].as_str());
    if t.as_str().unicode_len() == 0 {
        None
    } else {
        Some(t)
    }
}

/// The version line of `rclone version`: its first line when it exited 0.
pub fn version_from(outcome: &TimedRun) -> (v: Option<String>)
    ensures
        match outcome {
            TimedRun::Finished { code, stdout, .. } => if *code == 0 {
                opt_view(v) == first_line_of(stdout@)
            } else {
                v is None
            },
            _ => v is None,
        },
{
    match outcome {
        TimedRun::Finished { code, stdout, .. } => {
            if *code == 0 {
                first_line(stdout.as_str())
            } else {
                None
            }
        },
        _ => None,
    }
}

/// The verdict of `rclone lsd <remote>`: a timeout fails naming the seconds
/// (at least 1); a finished run is ok when it exited 0, and its detail is the
/// first line of stderr, else of stdout, else `lsd ok` / `lsd exit <code>`; a
/// run that could not start fails with the reason.
pub open spec fn probe_verdict(outcome: TimedRun, timeout_secs: u64) -> (bool, Seq<char>) {
    match outcome {
        TimedRun::TimedOut => (false, "timeout after "@ + dec(if timeout_secs < 1 {
            1
        } else {
            timeout_secs as nat
        }) + "s"@),
        TimedRun::Finished { code, stdout, stderr } => {
            let tail = match first_line_of(stderr@) {
                Some(t) => Some(t),
                None => first_line_of(stdout@),
            };
            if code == 0 {
                (true, match tail {
                    Some(t) => t,
                    None => "lsd ok"@,
                })
            } else {
                (false, match tail {
                    Some(t) => t,
                    None => "lsd exit "@ + dec_int(code as int),
                })
            }
        },
        TimedRun::Spawn(err) => (false, err@),
    }
}

/// The probe result for profile `name` and `remote`, given how the timed
/// `rclone lsd <remote>` run ended.
pub fn probe_remote(name: &str, remote: &str, outcome: TimedRun, timeout_secs: u64) -> (p: RemoteProbe)
    ensures
        (p.ok, p.detail@) == probe_verdict(outcome, timeout_secs),
        p.name@ == name@ && p.remote@ == remote@,
{
    let (ok, detail) = match outcome {
        TimedRun::TimedOut => {
            let mut d = owned("timeout after ");
            push_dec(&mut d, if timeout_secs < 1 {
                1
            } else {
                timeout_secs
            });
            d.append("s");
            (false, d)
        },
        TimedRun::Finished { code, stdout, stderr } => {
            let tail = match first_line(stderr.as_str()) {
                Some(t) => Some(t),
                None => first_line(stdout.as_str()),
            };
            if code == 0 {
                (true, match tail {
                    Some(t) => t,
                    None => owned("lsd ok"),
                })
            } else {
                (false, match tail {
                    Some(t) => t,
                    None => {
                        let mut d = owned("lsd exit ");
                        push_dec_i64(&mut d, code as i64);
                        d
                    },
                })
            }
        },
        TimedRun::Spawn(err) => (false, err),
    };
    RemoteProbe { ok, name: owned(name), remote: owned(remote), detail }
}

/// The rclone line of the doctor's text.
pub open spec fn doctor_rclone_line(r: DoctorRclone) -> Seq<char> {
    if r.found && r.path is Some && r.version is Some {
        "rclone: "@ + r.path->0@ + " ("@ + r.version->0@ + ")\n"@
    } else if r.found && r.path is Some {
        "rclone: "@ + r.path->0@ + "\n"@
    } else {
        "rclone: not found\n"@
    }
}

/// The issue lines of a profile.
pub open spec fn issue_lines(issues: Seq<Seq<char>>) -> Seq<char>
    decreases issues.len(),
{
    if issues.len() == 0 {
        Seq::empty()
    } else {
        issue_lines(issues.drop_last()) + "  - "@ + issues.last() + "\n"@
    }
}

/// The lines of one checked profile.
pub open spec fn doctor_profile_text(p: DoctorProfile) -> Seq<char> {
    p.name@ + seq!['\t'] + mode_name(p.mode) + seq!['\t'] + p.local@ + "\t->\t"@ + p.remote@
        + seq!['\t'] + (if p.local_exists {
        "local=ok"@
    } else {
        "local=MISSING"@
    }) + seq!['\t'] + (if p.busy {
        "busy"@
    } else {
        "idle"@
    }) + seq!['\t'] + short_text(run_view(p.last_run)) + seq!['\n'] + issue_lines(
        p.issues.deep_view(),
    )
}

/// The lines of several checked profiles.
pub open spec fn doctor_profiles_text(ps: Seq<DoctorProfile>) -> Seq<char>
    decreases ps.len(),
{
    if ps.len() == 0 {
        Seq::empty()
    } else {
        doctor_profiles_text(ps.drop_last()) + doctor_profile_text(ps.last())
    }
}

/// The human doctor report.
pub open spec fn doctor_text(r: DoctorReport) -> Seq<char> {
    doctor_rclone_line(r.rclone) + "config: "@ + r.config_dir@ + "\n"@ + "state:  "@ + r.state_dir@
        + "\n"@ + if r.profiles@.len() == 0 {
        "no profiles\n"@
    } else {
        doctor_profiles_text(r.profiles@)
    }
}

#[verifier::rlimit(40)]
fn write_profile(w: &mut String, p: &DoctorProfile)
    ensures
        final(w)@ == old(w)@ + doctor_profile_text(*p),
{
    let ghost before = w@;
    w.append(p.name.as_str());
    push_char(w, '\t');
    w.append(p.mode.as_str());
    push_char(w, '\t');
    w.append(p.local.as_str());
    w.append("\t->\t");
    w.append(p.remote.as_str());
    push_char(w, '\t');
    if p.local_exists {
        w.append("local=ok");
    } else {
        w.append("local=MISSING");
    }
    push_char(w, '\t');
    if p.busy {
        w.append("busy");
    } else {
        w.append("idle");
    }
    push_char(w, '\t');
    let last = match &p.last_run {
        Some(r) => r.short_status(),
        None => owned("never"),
    };
    w.append(last.as_str());
    push_char(w, '\n');
    let ghost mid = w@;
    let m: usize = p.issues.len();
    let mut j: usize = 0;
    assert(p.issues.deep_view().subrange(0, 0) =~= Seq::<Seq<char>>::empty());
    assert(mid =~= mid + issue_lines(p.issues.deep_view().subrange(0, 0)));
    while j < m
        invariant
            m == p.issues@.len(),
            j <= m,
            w@ == mid + issue_lines(p.issues.deep_view().subrange(0, j as int)),
        decreases m - j,
    {
        assert(p.issues.deep_view().subrange(0, j + 1).drop_last() =~= p.issues.deep_view().subrange(0, j as int));
        assert(p.issues.deep_view().subrange(0, j + 1).last() == p.issues@[j as int]@);
        w.append("  - ");
        w.append(p.issues[j].as_str());
        w.append("\n");
        j = j + 1;
    }
    assert(p.issues.deep_view().subrange(0, m as int) =~= p.issues.deep_view());
    assert(w@ =~= before + doctor_profile_text(*p));
}

impl DoctorReport {
    /// Appends the human report to `w`: rclone, the directories, then one line
    /// per profile with its issues below it.
    pub fn write_human(&self, w: &mut String)
        ensures
            final(w)@ == old(w)@ + doctor_text(*self),
    {
        let ghost start = w@;
        match (&self.rclone.path, &self.rclone.version) {
            (Some(path), Some(ver)) if self.rclone.found => {
                w.append("rclone: ");
                w.append(path.as_str());
                w.append(" (");
                w.append(ver.as_str());
                w.append(")\n");
            },
            (Some(path), None) if self.rclone.found => {
                w.append("rclone: ");
                w.append(path.as_str());
                w.append("\n");
            },
            _ => {
                w.append("rclone: not found\n");
            },
        }
        w.append("config: ");
        w.append(self.config_dir.as_str());
        w.append("\n");
        w.append("state:  ");
        w.append(self.state_dir.as_str());
        w.append("\n");
        let ghost head = w@;
        assert(head == start + doctor_rclone_line(self.rclone) + "config: "@ + self.config_dir@ + "\n"@ + "state:  "@ + self.state_dir@ + "\n"@);
        let n: usize = self.profiles.len();
        if n == 0 {
            w.append("no profiles\n");
            assert(w@ =~= start + doctor_text(*self));
            return;
        }
        let mut i: usize = 0;
        assert(self.profiles@.subrange(0, 0) =~= Seq::<DoctorProfile>::empty());
        assert(head =~= head + doctor_profiles_text(self.profiles@.subrange(0, 0)));
        while i < n
            invariant
                n == self.profiles@.len(),
                i <= n,
                w@ == head + doctor_profiles_text(self.profiles@.subrange(0, i as int)),
            decreases n - i,
        {
            let p = &self.profiles[i];
            assert(self.profiles@.subrange(0, i + 1).drop_last() =~= self.profiles@.subrange(0, i as int));
            assert(self.profiles@.subrange(0, i + 1).last() == *p);
            write_profile(w, p);
            i = i + 1;
        }
        assert(self.profiles@.subrange(0, n as int) =~= self.profiles@);
        assert(w@ =~= start + doctor_text(*self));
    }
}

} // verus!
