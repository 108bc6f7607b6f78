//! Last-run records, age labels, RFC 3339 timestamps, and the status snapshot
//! behind `synctr status`.

use vstd::prelude::*;

use crate::calendar::{civil_from_days, stamp_date};
use crate::error::{Error, ErrorView};
use crate::profile::{mode_name, Profile, ProfileView};
use crate::rclone::{
    resolution, resolve_rclone, result_view, source_explanation, source_name, FsProbe,
    RequestView, ResolveRequest, ResolveSource, ResolvedRclone,
};
use crate::text::{cat, dec, dec_int, owned, push_char, push_dec, push_dec_i64, push_dec_padded, zero_pad};

verus! {

#[verifier::external_type_specification]
#[verifier::external_body]
pub struct ExSystemTime(std::time::SystemTime);

#[verifier::external_type_specification]
#[verifier::external_body]
pub struct ExSystemTimeError(std::time::SystemTimeError);

/// `SystemTime::now()` from std: reads the clock, so nothing is claimed of
/// what it returns.
#[verifier::external_body]
fn clock_now() -> std::time::SystemTime {
    std::time::SystemTime::now()
}

/// `SystemTime::duration_since` from std, against `UNIX_EPOCH`: an error
/// when the time is before 1970. Nothing is claimed of the duration.
#[verifier::external_body]
fn since_epoch(t: &std::time::SystemTime) -> std::result::Result<
    std::time::Duration,
    std::time::SystemTimeError,
> {
    t.duration_since(std::time::UNIX_EPOCH)
}

/// `Duration::as_secs` from std: the whole seconds of a duration, which the
/// library does not model, so nothing is claimed of it.
#[verifier::external_body]
fn whole_secs(d: &std::time::Duration) -> u64 {
    d.as_secs()
}

/// Seconds since the Unix epoch now (0 when the clock is before 1970).
pub fn unix_now() -> i64 {
    match since_epoch(&clock_now()) {
        Ok(d) => whole_secs(&d) as i64,
        Err(_) => 0,
    }
}

/// `format!("{:04}", y)`: zero-padded to four characters, the sign counted.
pub open spec fn year_text(y: int) -> Seq<char> {
    if y < 0 {
        seq!['-'] + zero_pad(dec((-y) as nat), 3)
    } else {
        zero_pad(dec(y as nat), 4)
    }
}

/// Two digits, zero-padded.
pub open spec fn two(n: nat) -> Seq<char> {
    zero_pad(dec(n), 2)
}

/// `YYYY-MM-DDTHH:MM:SSZ` for a Unix time (times before 1970 read as 1970).
pub open spec fn rfc3339(secs: int) -> Seq<char> {
    let z = if secs < 0 {
        0
    } else {
        secs
    };
    let days = z / 86400;
    let rem = z % 86400;
    let (y, m, d) = stamp_date(days as nat);
    year_text(y) + seq!['-'] + two(m as nat) + seq!['-'] + two(d as nat) + seq!['T'] + two(
        (rem / 3600) as nat,
    ) + seq![':'] + two(((rem % 3600) / 60) as nat) + seq![':'] + two((rem % 60) as nat) + seq!['Z']
}

fn push_year(out: &mut String, y: i32)
    ensures
        final(out)@ == old(out)@ + year_text(y as int),
{
    if y < 0 {
        push_char(out, '-');
        let a: u64 = if y == i32::MIN {
            2147483648u64
        } else {
            (-y) as u64
        };
        push_dec_padded(out, a, 3);
        assert(final(out)@ =~= old(out)@ + year_text(y as int));
    } else {
        push_dec_padded(out, y as u64, 4);
    }
}

/// `YYYY-MM-DDTHH:MM:SSZ` (UTC) for Unix time `secs`; negative times read as
/// the epoch.
pub fn unix_to_rfc3339(secs: i64) -> (r: String)
    ensures
        r@ == rfc3339(secs as int),
{
    let z: u64 = if secs < 0 {
        0
    } else {
        secs as u64
    };
    let days: u64 = z / 86400;
    let rem: u64 = z % 86400;
    let (y, m, d) = civil_from_days(days);
    assert(days as int == (if secs < 0 { 0 } else { secs as int }) / 86400);
    assert(rem as int == (if secs < 0 { 0 } else { secs as int }) % 86400);
    let mut out = String::new();
    push_year(&mut out, y);
    push_char(&mut out, '-');
    push_dec_padded(&mut out, m as u64, 2);
    push_char(&mut out, '-');
    push_dec_padded(&mut out, d as u64, 2);
    push_char(&mut out, 'T');
    push_dec_padded(&mut out, rem / 3600, 2);
    push_char(&mut out, ':');
    push_dec_padded(&mut out, (rem % 3600) / 60, 2);
    push_char(&mut out, ':');
    push_dec_padded(&mut out, rem % 60, 2);
    push_char(&mut out, 'Z');
    assert(out@ =~= rfc3339(secs as int));
    out
}

/// The outcome of the last run of a profile.
#[derive(Clone, Debug, PartialEq, Eq)]
pub struct LastRun {
    pub finished_at_unix: i64,
    pub finished_at: String,
    pub exit_code: i32,
    pub ok: bool,
}

/// A last run as plain values.
pub struct LastRunView {
    pub finished_at_unix: int,
    pub finished_at: Seq<char>,
    pub exit_code: int,
    pub ok: bool,
}

impl View for LastRun {
    type V = LastRunView;

    open spec fn view(&self) -> LastRunView {
        LastRunView {
            finished_at_unix: self.finished_at_unix as int,
            finished_at: self.finished_at@,
            exit_code: self.exit_code as int,
            ok: self.ok,
        }
    }
}

/// The record of a run that exited with `exit_code` at Unix time `unix`: ok
/// exactly when the exit code is 0.
pub open spec fn run_at(exit_code: int, unix: int) -> LastRunView {
    LastRunView {
        finished_at_unix: unix,
        finished_at: rfc3339(unix),
        exit_code,
        ok: exit_code == 0,
    }
}

/// `ok <time>`, `exit <code> <time>`, or `never`.
pub open spec fn short_text(run: Option<LastRunView>) -> Seq<char> {
    match run {
        Some(r) => if r.ok {
            "ok "@ + r.finished_at
        } else {
            "exit "@ + dec_int(r.exit_code) + seq![' '] + r.finished_at
        },
        None => "never"@,
    }
}

impl LastRun {
    /// The record of a run that exited with `exit_code` at `unix`.
    pub fn at(exit_code: i32, unix: i64) -> (r: LastRun)
        ensures
            r@ == run_at(exit_code as int, unix as int),
    {
        LastRun {
            finished_at_unix: unix,
            finished_at: unix_to_rfc3339(unix),
            exit_code,
            ok: exit_code == 0,
        }
    }

    /// The record of a run that exited with `exit_code` just now.
    pub fn now(exit_code: i32) -> (r: LastRun)
        ensures
            exists|t: int| r@ == run_at(exit_code as int, t),
    {
        LastRun::at(exit_code, unix_now())
    }

    /// `ok <time>` or `exit <code> <time>`.
    pub fn short_status(&self) -> (s: String)
        ensures
            s@ == short_text(Some(self@)),
    {
        if self.ok {
            cat("ok ", self.finished_at.as_str())
        } else {
            let mut s = owned("exit ");
            push_dec_i64(&mut s, self.exit_code as i64);
            push_char(&mut s, ' ');
            s.append(self.finished_at.as_str());
            s
        }
    }
}

/// A last run as plain values, when there is one.
pub open spec fn run_view(r: Option<LastRun>) -> Option<LastRunView> {
    match r {
        Some(x) => Some(x@),
        None => None,
    }
}

/// `ok <time>`, `exit <code> <time>`, or `never` when the profile never ran.
pub fn last_run_short(run: Option<&LastRun>) -> (s: String)
    ensures
        s@ == short_text(match run {
            Some(r) => Some(r@),
            None => None,
        }),
{
    match run {
        Some(r) => r.short_status(),
        None => owned("never"),
    }
}

/// How long ago, at the coarsest unit below the next: seconds under a minute,
/// minutes under an hour, hours under a day, else days.
pub open spec fn age_text(d: nat) -> Seq<char> {
    if d < 60 {
        dec(d) + "s ago"@
    } else if d < 3600 {
        dec(d / 60) + "m ago"@
    } else if d < 86400 {
        dec(d / 3600) + "h ago"@
    } else {
        dec(d / 86400) + "d ago"@
    }
}

/// The age of `unix` at `now`; a time in the future counts as no age.
pub open spec fn age_at(unix: int, now: int) -> Seq<char> {
    age_text(if now - unix < 0 {
        0
    } else {
        (now - unix) as nat
    })
}

/// `Ns ago`, `Nm ago`, `Nh ago` or `Nd ago` for `unix` as seen at `now_unix`.
pub fn age_label_at(unix: i64, now_unix: i64) -> (s: String)
    ensures
        s@ == age_at(unix as int, now_unix as int),
{
    let diff: i128 = now_unix as i128 - unix as i128;
    let d: u64 = if diff < 0 {
        0
    } else {
        diff as u64
    };
    let mut s = String::new();
    if d < 60 {
        push_dec(&mut s, d);
        s.append("s ago");
    } else if d < 3600 {
        push_dec(&mut s, d / 60);
        s.append("m ago");
    } else if d < 86400 {
        push_dec(&mut s, d / 3600);
        s.append("h ago");
    } else {
        push_dec(&mut s, d / 86400);
        s.append("d ago");
    }
    s
}

/// The age of `unix` now.
pub fn age_label(unix: i64) -> (s: String)
    ensures
        exists|now: int| s@ == age_at(unix as int, now),
{
    age_label_at(unix, unix_now())
}

/// The rclone part of the status: whether rclone was found, and where.
#[derive(Clone, Debug, PartialEq, Eq)]
pub struct RcloneJson {
    pub found: bool,
    pub path: Option<String>,
    pub source: Option<String>,
    pub detail: Option<String>,
}

/// The rclone status as plain values.
pub struct RcloneJsonView {
    pub found: bool,
    pub path: Option<Seq<char>>,
    pub source: Option<Seq<char>>,
    pub detail: Option<Seq<char>>,
}

impl View for RcloneJson {
    type V = RcloneJsonView;

    open spec fn view(&self) -> RcloneJsonView {
        RcloneJsonView {
            found: self.found,
            path: crate::rclone::opt_view(self.path),
            source: crate::rclone::opt_view(self.source),
            detail: crate::rclone::opt_view(self.detail),
        }
    }
}

/// rclone missing: nothing but `found: false`.
pub open spec fn missing_view() -> RcloneJsonView {
    RcloneJsonView { found: false, path: None, source: None, detail: None }
}

/// rclone found at `path` through `source`.
pub open spec fn found_view(path: Seq<char>, source: ResolveSource) -> RcloneJsonView {
    RcloneJsonView {
        found: true,
        path: Some(path),
        source: Some(source_name(source)),
        detail: Some(source_explanation(source)),
    }
}

/// The status of a resolution: found, missing (no rclone, or a missing
/// override), or the error that stopped it.
pub open spec fn status_of(r: Result<(Seq<char>, ResolveSource), ErrorView>) -> Result<RcloneJsonView, ErrorView> {
    match r {
        Ok((p, s)) => Ok(found_view(p, s)),
        Err(ErrorView::RcloneNotFound) => Ok(missing_view()),
        Err(ErrorView::RcloneOverrideMissing { .. }) => Ok(missing_view()),
        Err(e) => Err(e),
    }
}

/// A status result as plain values.
pub open spec fn status_view(r: Result<RcloneJson, Error>) -> Result<RcloneJsonView, ErrorView> {
    match r {
        Ok(j) => Ok(j@),
        Err(e) => Err(e@),
    }
}

/// `<path> (<detail>)`, or `not found`.
pub open spec fn rclone_line(j: RcloneJsonView) -> Seq<char> {
    if j.found && j.path is Some && j.detail is Some {
        j.path->0 + " ("@ + j.detail->0 + ")"@
    } else {
        "not found"@
    }
}

impl RcloneJson {
    /// rclone missing.
    pub fn missing() -> (j: RcloneJson)
        ensures
            j@ == missing_view(),
    {
        RcloneJson { found: false, path: None, source: None, detail: None }
    }

    /// rclone found as `r` says.
    pub fn from_resolved(r: &ResolvedRclone) -> (j: RcloneJson)
        ensures
            j@ == found_view(r.path@, r.source),
    {
        RcloneJson {
            found: true,
            path: Some(r.path.clone()),
            source: Some(owned(r.source.as_str())),
            detail: Some(owned(r.source.explain())),
        }
    }

    /// The status for a resolution result: not finding rclone, or an override
    /// that is not there, is reported as `found: false`, not as an error.
    pub fn from_result(r: Result<ResolvedRclone, Error>) -> (j: Result<RcloneJson, Error>)
        ensures
            status_view(j) == status_of(result_view(r)),
    {
        match r {
            Ok(found) => Ok(RcloneJson::from_resolved(&found)),
            Err(Error::RcloneNotFound) => Ok(RcloneJson::missing()),
            Err(Error::RcloneOverrideMissing { .. }) => Ok(RcloneJson::missing()),
            Err(e) => Err(e),
        }
    }

    /// Resolves rclone for `req` with `fs` and reports the result.
    pub fn from_live<F: FsProbe>(req: &ResolveRequest, fs: &F) -> (j: Result<RcloneJson, Error>)
        ensures
            exists|answers: Seq<bool>|
                crate::rclone::probed_until_yes(crate::rclone::probe_order(req@).len(), answers)
                    && status_view(j) == status_of(resolution(req@, answers)),
    {
        RcloneJson::from_result(resolve_rclone(req, fs))
    }

    /// `<path> (<detail>)` when found, else `not found`.
    pub fn human_line(&self) -> (s: String)
        ensures
            s@ == rclone_line(self@),
    {
        match (self.found, &self.path, &self.detail) {
            (true, Some(path), Some(detail)) => {
                let mut s = cat(path.as_str(), " (");
                s.append(detail.as_str());
                s.append(")");
                s
            },
            _ => owned("not found"),
        }
    }
}

/// One profile in the status: its fields and its last run, if any.
#[derive(Clone, Debug, PartialEq, Eq)]
pub struct ProfileStatus {
    pub name: String,
    pub local: String,
    pub remote: String,
    pub mode: crate::profile::Mode,
    pub rclone: Option<String>,
    pub extra_flags: Vec<String>,
    pub extra_ignore: Vec<String>,
    pub last_run: Option<LastRun>,
}

impl ProfileStatus {
    /// The status of `profile` with its `last_run`.
    pub fn from_profile(profile: Profile, last_run: Option<LastRun>) -> (s: ProfileStatus)
        ensures
            s.name@ == profile@.name,
            s.local@ == profile@.local,
            s.remote@ == profile@.remote,
            s.mode == profile@.mode,
            crate::rclone::opt_view(s.rclone) == profile@.rclone,
            s.extra_flags.deep_view() == profile@.extra_flags,
            s.extra_ignore.deep_view() == profile@.extra_ignore,
            s.last_run == last_run,
    {
        ProfileStatus {
            name: profile.name,
            local: profile.local,
            remote: profile.remote,
            mode: profile.mode,
            rclone: profile.rclone,
            extra_flags: profile.extra_flags,
            extra_ignore: profile.extra_ignore,
            last_run,
        }
    }
}

/// rclone and every profile: what `synctr status` reports.
#[derive(Clone, Debug, PartialEq, Eq)]
pub struct StatusSnapshot {
    pub rclone: RcloneJson,
    pub profiles: Vec<ProfileStatus>,
}

/// The status line of one profile.
pub open spec fn profile_line(p: ProfileStatus) -> Seq<char> {
    p.name@ + seq!['\t'] + mode_name(p.mode) + seq!['\t'] + p.local@ + "\t->\t"@ + p.remote@
        + seq!['\t'] + short_text(run_view(p.last_run)) + seq!['\n']
}

/// The lines of several profiles.
pub open spec fn profile_lines(ps: Seq<ProfileStatus>) -> Seq<char>
    decreases ps.len(),
{
    if ps.len() == 0 {
        Seq::empty()
    } else {
        profile_lines(ps.drop_last()) + profile_line(ps.last())
    }
}

/// The human `synctr status` text.
pub open spec fn status_text(s: StatusSnapshot) -> Seq<char> {
    "rclone: "@ + rclone_line(s.rclone@) + seq!['\n'] + if s.profiles@.len() == 0 {
        "no profiles\n"@
    } else {
        profile_lines(s.profiles@)
    }
}

impl StatusSnapshot {
    /// The human `synctr status` text: the rclone line, then one line per
    /// profile (name, mode, local, remote, last run), or `no profiles`.
    pub fn human_text(&self) -> (t: String)
        ensures
            t@ == status_text(*self),
    {
        let mut t = cat("rclone: ", self.rclone.human_line().as_str());
        push_char(&mut t, '\n');
        let n: usize = self.profiles.len();
        if n == 0 {
            t.append("no profiles\n");
            return t;
        }
        let ghost head = t@;
        let mut i: usize = 0;
        assert(self.profiles@.subrange(0, 0) =~= Seq::<ProfileStatus>::empty());
        while i < n
            invariant
                n == self.profiles@.len(),
                i <= n,
                t@ == head + profile_lines(self.profiles@.subrange(0, i as int)),
            decreases n - i,
        {
            let p = &self.profiles[i];
            assert(self.profiles@.subrange(0, i + 1).drop_last() =~= self.profiles@.subrange(0, i as int));
            assert(self.profiles@.subrange(0, i + 1).last() == *p);
            let ghost before = t@;
            t.append(p.name.as_str());
            push_char(&mut t, '\t');
            t.append(p.mode.as_str());
            push_char(&mut t, '\t');
            t.append(p.local.as_str());
            t.append("\t->\t");
            t.append(p.remote.as_str());
            push_char(&mut t, '\t');
            let last = match &p.last_run {
                Some(r) => last_run_short(Some(r)),
                None => last_run_short(None),
            };
            t.append(last.as_str());
            push_char(&mut t, '\n');
            assert(t@ =~= before + profile_line(*p));
            i = i + 1;
        }
        assert(self.profiles@.subrange(0, n as int) =~= self.profiles@);
        t
    }
}

/// A run is ok exactly when rclone exited with 0.
pub proof fn run_ok_iff_exit_zero(exit_code: int, unix: int)
    ensures
        run_at(exit_code, unix).ok <==> exit_code == 0,
{
}


/// rclone never makes the status fail: whatever the request and whatever the
/// probes answer, the status is `found` with the path and source, or
/// `found: false` with nothing else; a missing override reads as not found.
pub proof fn status_never_fails_on_rclone(r: crate::rclone::RequestView, answers: Seq<bool>)
    ensures
        status_of(resolution(r, answers)) == match resolution(r, answers) {
            Ok((p, s)) => Ok::<RcloneJsonView, ErrorView>(found_view(p, s)),
            Err(_) => Ok::<RcloneJsonView, ErrorView>(missing_view()),
        },
{
}


/// The profile lines are one line per profile, in order: the lines of two
/// lists one after the other are the lines of the first followed by the lines
/// of the second, and one profile gives exactly its own line, which ends the
/// line with a newline.
pub proof fn profile_lines_are_one_per_profile(a: Seq<ProfileStatus>, b: Seq<ProfileStatus>)
    ensures
        profile_lines(a + b) == profile_lines(a) + profile_lines(b),
        forall|x: ProfileStatus| #[trigger] profile_lines(seq![x]) == profile_line(x),
        forall|x: ProfileStatus| #[trigger] profile_line(x).last() == '\n',
    decreases b.len(),
{
    assert forall|x: ProfileStatus| #[trigger] profile_lines(seq![x]) == profile_line(x) by {
        assert(seq![x].drop_last() =~= Seq::<ProfileStatus>::empty());
        assert(profile_lines(Seq::<ProfileStatus>::empty()) == Seq::<char>::empty());
        assert(profile_lines(seq![x]) == profile_lines(seq![x].drop_last()) + profile_line(
            seq![x].last(),
        ));
        assert(Seq::<char>::empty() + profile_line(x) =~= profile_line(x));
    }
    if b.len() == 0 {
        assert(a + b =~= a);
    } else {
        profile_lines_are_one_per_profile(a, b.drop_last());
        assert((a + b).drop_last() =~= a + b.drop_last());
        assert((a + b).last() == b.last());
    }
}

/// The status text: the rclone line, then `no profiles` or the profile lines.
pub proof fn status_text_layout(s: StatusSnapshot)
    ensures
        status_text(s) == "rclone: "@ + rclone_line(s.rclone@) + seq!['\n'] + if s.profiles@.len()
            == 0 {
            "no profiles\n"@
        } else {
            profile_lines(s.profiles@)
        },
{
}

} // verus!
