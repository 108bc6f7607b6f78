//! Which rclone binary to run.
//!
//! An explicit override (the `--rclone` flag, then the profile's `rclone`
//! field, then `SYNCTR_RCLONE`) is taken alone: if it is not executable the
//! search stops with an error. Without one, the directories of `PATH` are
//! searched in order, then the well-known nix-darwin, nix and Homebrew places.

use vstd::prelude::*;

use crate::error::{Error, ErrorView};
use crate::paths::{join, join_path};
use crate::text::{cat, owned, split, split_str};

verus! {

/// Where a resolved rclone came from.
#[derive(Clone, Copy, Debug, PartialEq, Eq, Structural)]
pub enum ResolveSource {
    Flag,
    Profile,
    Env,
    Path,
    NixDarwinUser,
    NixSystem,
    HomebrewOpt,
    HomebrewUsrLocal,
}

/// The short name of a source.
pub open spec fn source_name(s: ResolveSource) -> Seq<char> {
    match s {
        ResolveSource::Flag => "flag"@,
        ResolveSource::Profile => "profile"@,
        ResolveSource::Env => "env"@,
        ResolveSource::Path => "PATH"@,
        ResolveSource::NixDarwinUser => "nix-darwin-user"@,
        ResolveSource::NixSystem => "nix-system"@,
        ResolveSource::HomebrewOpt => "homebrew-opt"@,
        ResolveSource::HomebrewUsrLocal => "homebrew-usr-local"@,
    }
}

/// The human explanation of a source.
pub open spec fn source_explanation(s: ResolveSource) -> Seq<char> {
    match s {
        ResolveSource::Flag => "--rclone"@,
        ResolveSource::Profile => "profile rclone field"@,
        ResolveSource::Env => "SYNCTR_RCLONE"@,
        ResolveSource::Path => "PATH"@,
        ResolveSource::NixDarwinUser => "nix-darwin /etc/profiles/per-user/$USER/bin"@,
        ResolveSource::NixSystem => "nix /run/current-system/sw/bin"@,
        ResolveSource::HomebrewOpt => "homebrew /opt/homebrew/bin"@,
        ResolveSource::HomebrewUsrLocal => "homebrew /usr/local/bin"@,
    }
}

impl ResolveSource {
    /// The short name (`flag`, `PATH`, `nix-system`, ...).
    pub fn as_str(self) -> (s: &'static str)
        ensures
            s@ == source_name(self),
    {
        match self {
            ResolveSource::Flag => "flag",
            ResolveSource::Profile => "profile",
            ResolveSource::Env => "env",
            ResolveSource::Path => "PATH",
            ResolveSource::NixDarwinUser => "nix-darwin-user",
            ResolveSource::NixSystem => "nix-system",
            ResolveSource::HomebrewOpt => "homebrew-opt",
            ResolveSource::HomebrewUsrLocal => "homebrew-usr-local",
        }
    }

    /// The explanation shown to people (`--rclone`, `SYNCTR_RCLONE`, ...).
    pub fn explain(self) -> (s: &'static str)
        ensures
            s@ == source_explanation(self),
    {
        match self {
            ResolveSource::Flag => "--rclone",
            ResolveSource::Profile => "profile rclone field",
            ResolveSource::Env => "SYNCTR_RCLONE",
            ResolveSource::Path => "PATH",
            ResolveSource::NixDarwinUser => "nix-darwin /etc/profiles/per-user/$USER/bin",
            ResolveSource::NixSystem => "nix /run/current-system/sw/bin",
            ResolveSource::HomebrewOpt => "homebrew /opt/homebrew/bin",
            ResolveSource::HomebrewUsrLocal => "homebrew /usr/local/bin",
        }
    }
}

/// A resolved rclone binary.
#[derive(Clone, Debug, PartialEq, Eq)]
pub struct ResolvedRclone {
    pub path: String,
    pub source: ResolveSource,
}

impl View for ResolvedRclone {
    type V = (Seq<char>, ResolveSource);

    open spec fn view(&self) -> (Seq<char>, ResolveSource) {
        (self.path@, self.source)
    }
}

/// What rclone resolution looks at: the overrides in precedence order, the
/// `PATH` value, and the user name for the nix-darwin per-user profile.
#[derive(Clone, Debug)]
pub struct ResolveRequest {
    pub flag: Option<String>,
    pub profile: Option<String>,
    pub env: Option<String>,
    pub path_var: Option<String>,
    pub user: String,
}

/// A request as plain values.
pub struct RequestView {
    pub flag: Option<Seq<char>>,
    pub profile: Option<Seq<char>>,
    pub env: Option<Seq<char>>,
    pub path_var: Option<Seq<char>>,
    pub user: Seq<char>,
}

/// An optional string as plain text.
pub open spec fn opt_view(o: Option<String>) -> Option<Seq<char>> {
    match o {
        Some(s) => Some(s@),
        None => None,
    }
}

impl View for ResolveRequest {
    type V = RequestView;

    open spec fn view(&self) -> RequestView {
        RequestView {
            flag: opt_view(self.flag),
            profile: opt_view(self.profile),
            env: opt_view(self.env),
            path_var: opt_view(self.path_var),
            user: self.user@,
        }
    }
}

impl Default for ResolveRequest {
    fn default() -> (r: ResolveRequest)
        ensures
            r@ == (RequestView {
                flag: None,
                profile: None,
                env: None,
                path_var: None,
                user: Seq::empty(),
            }),
    {
        let r = ResolveRequest { flag: None, profile: None, env: None, path_var: None, user: String::new() };
        r
    }
}

/// The override that applies, with its source: the flag, else the profile
/// field, else the environment variable.
pub open spec fn override_of(r: RequestView) -> Option<(Seq<char>, ResolveSource)> {
    match r.flag {
        Some(p) => Some((p, ResolveSource::Flag)),
        None => match r.profile {
            Some(p) => Some((p, ResolveSource::Profile)),
            None => match r.env {
                Some(p) => Some((p, ResolveSource::Env)),
                None => None,
            },
        },
    }
}

/// `<dir>/rclone` for each non-empty directory of a `PATH` value, in order.
pub open spec fn path_candidates(dirs: Seq<Seq<char>>) -> Seq<(Seq<char>, ResolveSource)>
    decreases dirs.len(),
{
    if dirs.len() == 0 {
        Seq::empty()
    } else {
        let front = path_candidates(dirs.drop_last());
        if dirs.last().len() == 0 {
            front
        } else {
            front.push((join_path(dirs.last(), "rclone"@), ResolveSource::Path))
        }
    }
}

/// The well-known places, in search order.
pub open spec fn well_known_places(user: Seq<char>) -> Seq<(Seq<char>, ResolveSource)> {
    seq![
        ("/etc/profiles/per-user/"@ + user + "/bin/rclone"@, ResolveSource::NixDarwinUser),
        ("/run/current-system/sw/bin/rclone"@, ResolveSource::NixSystem),
        ("/opt/homebrew/bin/rclone"@, ResolveSource::HomebrewOpt),
        ("/usr/local/bin/rclone"@, ResolveSource::HomebrewUsrLocal),
    ]
}

/// Where to look when no override applies: `PATH`, then the well-known places.
pub open spec fn search_order(r: RequestView) -> Seq<(Seq<char>, ResolveSource)> {
    (match r.path_var {
        Some(pv) => path_candidates(split(pv, ':')),
        None => Seq::empty(),
    }) + well_known_places(r.user)
}

/// The paths that are probed, in order: the override alone, or the search order.
pub open spec fn probe_order(r: RequestView) -> Seq<(Seq<char>, ResolveSource)> {
    match override_of(r) {
        Some(o) => seq![o],
        None => search_order(r),
    }
}

/// The first candidate whose probe answered yes (`answers[i]` is the answer
/// for `list[i]`; a missing answer counts as no).
pub open spec fn first_yes(
    list: Seq<(Seq<char>, ResolveSource)>,
    answers: Seq<bool>,
) -> Option<(Seq<char>, ResolveSource)>
    decreases list.len(),
{
    if list.len() == 0 {
        None
    } else if answers.len() > 0 && answers[0] {
        Some(list[0])
    } else {
        first_yes(list.drop_first(), if answers.len() > 0 {
            answers.drop_first()
        } else {
            answers
        })
    }
}

/// The resolution, given whether each probed path is an executable file.
pub open spec fn resolution(r: RequestView, answers: Seq<bool>) -> Result<
    (Seq<char>, ResolveSource),
    ErrorView,
> {
    match override_of(r) {
        Some((p, s)) => if answers.len() > 0 && answers[0] {
            Ok((p, s))
        } else {
            Err(ErrorView::RcloneOverrideMissing { origin: source_name(s), path: p })
        },
        None => match first_yes(search_order(r), answers) {
            Some(found) => Ok(found),
            None => Err(ErrorView::RcloneNotFound),
        },
    }
}

/// A resolution result as plain values.
pub open spec fn result_view(r: Result<ResolvedRclone, Error>) -> Result<
    (Seq<char>, ResolveSource),
    ErrorView,
> {
    match r {
        Ok(v) => Ok(v@),
        Err(e) => Err(e@),
    }
}

/// A candidate list as plain values.
pub open spec fn candidates_view(v: Seq<(String, ResolveSource)>) -> Seq<(Seq<char>, ResolveSource)> {
    v.map_values(|c: (String, ResolveSource)| (c.0@, c.1))
}

/// The well-known places for `user`: nix-darwin per-user, nix system,
/// Homebrew `/opt`, Homebrew `/usr/local`.
pub fn well_known(user: &str) -> (v: Vec<(String, ResolveSource)>)
    ensures
        candidates_view(v@) == well_known_places(user@),
{
    let mut nix_user = cat("/etc/profiles/per-user/", user);
    nix_user.append("/bin/rclone");
    let v = vec![
        (nix_user, ResolveSource::NixDarwinUser),
        (owned("/run/current-system/sw/bin/rclone"), ResolveSource::NixSystem),
        (owned("/opt/homebrew/bin/rclone"), ResolveSource::HomebrewOpt),
        (owned("/usr/local/bin/rclone"), ResolveSource::HomebrewUsrLocal),
    ];
    assert(candidates_view(v@) =~= well_known_places(user@));
    v
}

fn push_candidates(out: &mut Vec<(String, ResolveSource)>, add: Vec<(String, ResolveSource)>)
    ensures
        candidates_view(final(out)@) == candidates_view(old(out)@) + candidates_view(add@),
{
    let n: usize = add.len();
    let mut i: usize = 0;
    while i < n
        invariant
            n == add@.len(),
            i <= n,
            candidates_view(out@) == candidates_view(old(out)@) + candidates_view(
                add@.subrange(0, i as int),
            ),
        decreases n - i,
    {
        let c = (add[i].0.clone(), add[i].1);
        let ghost before = out@;
        out.push(c);
        assert(out@ == before.push(c));
        assert(candidates_view(out@) =~= candidates_view(before).push((c.0@, c.1)));
        assert(candidates_view(add@.subrange(0, i + 1)) =~= candidates_view(
            add@.subrange(0, i as int),
        ).push((add@[i as int].0@, add@[i as int].1)));
        assert(candidates_view(out@) =~= candidates_view(old(out)@) + candidates_view(
            add@.subrange(0, i + 1),
        ));
        i = i + 1;
    }
    assert(add@.subrange(0, n as int) =~= add@);
}

/// The paths to probe, in order, with the source each would be resolved from.
pub fn probe_list(req: &ResolveRequest) -> (v: Vec<(String, ResolveSource)>)
    ensures
        candidates_view(v@) == probe_order(req@),
{
    let mut v: Vec<(String, ResolveSource)> = Vec::new();
    let o: Option<(String, ResolveSource)> = match &req.flag {
        Some(p) => Some((p.clone(), ResolveSource::Flag)),
        None => match &req.profile {
            Some(p) => Some((p.clone(), ResolveSource::Profile)),
            None => match &req.env {
                Some(p) => Some((p.clone(), ResolveSource::Env)),
                None => None,
            },
        },
    };
    if let Some(c) = o {
        v.push(c);
        assert(candidates_view(v@) =~= probe_order(req@));
        return v;
    }
    if let Some(pv) = &req.path_var {
        let dirs = split_str(pv.as_str(), ':');
        let n: usize = dirs.len();
        let mut i: usize = 0;
        assert(candidates_view(v@) =~= path_candidates(dirs.deep_view().subrange(0, 0)));
        while i < n
            invariant
                n == dirs@.len(),
                i <= n,
                candidates_view(v@) == path_candidates(dirs.deep_view().subrange(0, i as int)),
            decreases n - i,
        {
            let ghost dv = dirs.deep_view();
            assert(dv.subrange(0, i + 1).drop_last() =~= dv.subrange(0, i as int));
            assert(dv.subrange(0, i + 1).last() == dirs@[i as int]@);
            let d: &str = dirs[i].as_str();
            if d.unicode_len() > 0 {
                let c = join(d, "rclone");
                let ghost before = candidates_view(v@);
                v.push((c, ResolveSource::Path));
                assert(candidates_view(v@) =~= before.push((c@, ResolveSource::Path)));
            }
            i = i + 1;
        }
        assert(dirs.deep_view().subrange(0, n as int) =~= dirs.deep_view());
    } else {
        assert(candidates_view(v@) =~= Seq::<(Seq<char>, ResolveSource)>::empty());
    }
    let wk = well_known(req.user.as_str());
    push_candidates(&mut v, wk);
    v
}

/// The resolution for `req`, given for each path of `probe_list(req)` whether
/// it is an executable file (`answers[i]` for the `i`-th path; missing answers
/// count as no).
pub fn pick_rclone(req: &ResolveRequest, answers: &Vec<bool>) -> (r: Result<ResolvedRclone, Error>)
    ensures
        result_view(r) == resolution(req@, answers@),
{
    let list = probe_list(req);
    let has_override: bool = req.flag.is_some() || req.profile.is_some() || req.env.is_some();
    if has_override {
        assert(list@.len() == 1);
        assert(candidates_view(list@)[0] == (list@[0].0@, list@[0].1));
        assert(candidates_view(list@)[0] == override_of(req@)->0);
        let p = list[0].0.clone();
        let s = list[0].1;
        if answers.len() > 0 && answers[0] {
            return Ok(ResolvedRclone { path: p, source: s });
        }
        return Err(Error::RcloneOverrideMissing { origin: owned(s.as_str()), path: p });
    }
    let n: usize = list.len();
    let m: usize = answers.len();
    let mut i: usize = 0;
    assert(candidates_view(list@).skip(0) =~= candidates_view(list@));
    assert(answers@.skip(0) =~= answers@);
    while i < n
        invariant
            n == list@.len(),
            m == answers@.len(),
            override_of(req@) is None,
            candidates_view(list@) == search_order(req@),
            i <= n,
            first_yes(candidates_view(list@).skip(i as int), if i <= m {
                answers@.skip(i as int)
            } else {
                Seq::empty()
            }) == first_yes(search_order(req@), answers@),
        decreases n - i,
    {
        let ghost l = candidates_view(list@).skip(i as int);
        let ghost a = if i <= m {
            answers@.skip(i as int)
        } else {
            Seq::<bool>::empty()
        };
        assert(l.drop_first() =~= candidates_view(list@).skip(i + 1));
        if i < m {
            assert(a.drop_first() =~= answers@.skip(i + 1));
        } else {
            assert(a =~= Seq::<bool>::empty());
        }
        assert(l[0] == (list@[i as int].0@, list@[i as int].1));
        if i < m && answers[i] {
            assert(l[0] == (list@[i as int].0@, list@[i as int].1));
            return Ok(ResolvedRclone { path: list[i].0.clone(), source: list[i].1 });
        }
        i = i + 1;
    }
    Err(Error::RcloneNotFound)
}

/// A check of whether a path is an executable file. What it answers depends
/// on the disk, so the library assumes nothing of it.
pub trait FsProbe {
    fn is_executable(&self, path: &str) -> bool;
}

/// Answers to probing a list of `len` paths one at a time and stopping at the
/// first yes: none before the last is yes, there are no more than `len`, and
/// they stop short of `len` only on a yes.
pub open spec fn probed_until_yes(len: nat, answers: Seq<bool>) -> bool {
    &&& answers.len() <= len
    &&& forall|i: int| 0 <= i < answers.len() - 1 ==> !#[trigger] answers[i]
    &&& answers.len() < len ==> answers.len() > 0 && answers.last()
}

/// Resolves rclone for `req`, probing the paths of `probe_list(req)` with `fs`
/// and stopping at the first executable one. Whatever `fs` answers, the
/// result is the resolution for those answers.
pub fn resolve_rclone<F: FsProbe>(req: &ResolveRequest, fs: &F) -> (r: Result<ResolvedRclone, Error>)
    ensures
        exists|answers: Seq<bool>|
            probed_until_yes(probe_order(req@).len(), answers) && result_view(r) == resolution(
                req@,
                answers,
            ),
{
    let list = probe_list(req);
    let mut answers: Vec<bool> = Vec::new();
    let n: usize = list.len();
    let mut i: usize = 0;
    let mut found: bool = false;
    while i < n && !found
        invariant
            n == list@.len(),
            i <= n,
            answers@.len() == i,
            found == (i > 0 && answers@[i - 1]),
            forall|k: int| 0 <= k < i - 1 ==> !#[trigger] answers@[k],
            !found ==> forall|k: int| 0 <= k < i ==> !#[trigger] answers@[k],
        decreases n - i,
    {
        let yes = fs.is_executable(list[i].0.as_str());
        answers.push(yes);
        i = i + 1;
        found = yes;
    }
    assert(candidates_view(list@).len() == list@.len());
    let r = pick_rclone(req, &answers);
    assert(probed_until_yes(probe_order(req@).len(), answers@));
    r
}

/// An explicit override is never searched past: with the flag set, the
/// result is the flag's path or the override-missing error, whatever exists
/// elsewhere.
pub proof fn override_does_not_fall_through(r: RequestView, answers: Seq<bool>)
    requires
        r.flag is Some,
    ensures
        resolution(r, answers) == Ok::<(Seq<char>, ResolveSource), ErrorView>((r.flag->0, ResolveSource::Flag))
            || resolution(r, answers) == Err::<(Seq<char>, ResolveSource), ErrorView>(
            ErrorView::RcloneOverrideMissing { origin: "flag"@, path: r.flag->0 },
        ),
{
}

/// Precedence: the flag wins over the profile field, which wins over the
/// environment; none of them is weighed against `PATH`.
pub proof fn override_precedence(r: RequestView)
    ensures
        r.flag is Some ==> override_of(r) == Some((r.flag->0, ResolveSource::Flag)),
        r.flag is None && r.profile is Some ==> override_of(r) == Some(
            (r.profile->0, ResolveSource::Profile),
        ),
        r.flag is None && r.profile is None && r.env is Some ==> override_of(r) == Some(
            (r.env->0, ResolveSource::Env),
        ),
{
}

/// Without an override, an executable in `PATH` is taken before any
/// well-known place.
pub proof fn path_before_well_known(r: RequestView, answers: Seq<bool>, i: int)
    requires
        override_of(r) is None,
        0 <= i < answers.len(),
        i < search_order(r).len(),
        answers[i],
        forall|k: int| 0 <= k < i ==> !answers[k],
    ensures
        resolution(r, answers) == Ok::<(Seq<char>, ResolveSource), ErrorView>(search_order(r)[i]),
{
    lemma_first_yes_at(search_order(r), answers, i);
}

proof fn lemma_first_yes_at(list: Seq<(Seq<char>, ResolveSource)>, answers: Seq<bool>, i: int)
    requires
        0 <= i < answers.len(),
        i < list.len(),
        answers[i],
        forall|k: int| 0 <= k < i ==> !answers[k],
    ensures
        first_yes(list, answers) == Some(list[i]),
    decreases i,
{
    if i > 0 {
        lemma_first_yes_at(list.drop_first(), answers.drop_first(), i - 1);
    }
}

} // verus!
