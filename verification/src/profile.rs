//! Profiles: a name, a local directory, an rclone remote and a mode.

use vstd::prelude::*;

use crate::error::{fails_with, Error, ErrorView};
use crate::paths::{absolute, join_path, make_absolute, Paths};
use crate::text::{chars_of, contains_char, lemma_lex_total, lemma_lex_trans, lex_le, owned, str_eq, str_le};

verus! {

/// How a profile runs rclone.
#[derive(Clone, Copy, Debug, PartialEq, Eq, Structural)]
pub enum Mode {
    Copy,
    Sync,
    Bisync,
}

/// The name of a mode, which is also its rclone subcommand.
pub open spec fn mode_name(m: Mode) -> Seq<char> {
    match m {
        Mode::Copy => "copy"@,
        Mode::Sync => "sync"@,
        Mode::Bisync => "bisync"@,
    }
}

/// The mode a name stands for.
pub open spec fn mode_named(s: Seq<char>) -> Option<Mode> {
    if s == "copy"@ {
        Some(Mode::Copy)
    } else if s == "sync"@ {
        Some(Mode::Sync)
    } else if s == "bisync"@ {
        Some(Mode::Bisync)
    } else {
        None
    }
}

impl Mode {
    /// `copy`, `sync` or `bisync`; anything else is an invalid mode.
    pub fn parse(s: &str) -> (r: Result<Mode, Error>)
        ensures
            match mode_named(s@) {
                Some(m) => r == Ok::<Mode, Error>(m),
                None => fails_with(r, ErrorView::InvalidMode(s@)),
            },
    {
        if str_eq(s, "copy") {
            Ok(Mode::Copy)
        } else if str_eq(s, "sync") {
            Ok(Mode::Sync)
        } else if str_eq(s, "bisync") {
            Ok(Mode::Bisync)
        } else {
            Err(Error::InvalidMode(owned(s)))
        }
    }

    /// The mode's name.
    pub fn as_str(self) -> (s: &'static str)
        ensures
            s@ == mode_name(self),
    {
        match self {
            Mode::Copy => "copy",
            Mode::Sync => "sync",
            Mode::Bisync => "bisync",
        }
    }

    /// The rclone subcommand for the mode (its name).
    pub fn rclone_subcommand(self) -> (s: &'static str)
        ensures
            s@ == mode_name(self),
    {
        self.as_str()
    }
}

/// A mode's name reads back as the same mode.
pub proof fn mode_name_round_trip(m: Mode)
    ensures
        mode_named(mode_name(m)) == Some(m),
{
    reveal_strlit("copy");
    reveal_strlit("sync");
    reveal_strlit("bisync");
    match m {
        Mode::Copy => {},
        Mode::Sync => {
            assert("sync"@[0] != "copy"@[0]);
        },
        Mode::Bisync => {
            assert("bisync"@.len() != "copy"@.len());
            assert("bisync"@.len() != "sync"@.len());
        },
    }
}

/// `char::is_ascii_alphanumeric`.
pub open spec fn ascii_alnum(c: char) -> bool {
    ('0' <= c <= '9') || ('a' <= c <= 'z') || ('A' <= c <= 'Z')
}

/// A valid profile name: an ASCII letter or digit, then letters, digits,
/// `_` or `-`.
pub open spec fn valid_name(s: Seq<char>) -> bool {
    &&& s.len() > 0
    &&& ascii_alnum(s[0])
    &&& forall|i: int| 1 <= i < s.len() ==> ascii_alnum(#[trigger] s[i]) || s[i] == '_' || s[i]
        == '-'
}

fn is_ascii_alnum(c: char) -> (r: bool)
    ensures
        r == ascii_alnum(c),
{
    ('0' <= c && c <= '9') || ('a' <= c && c <= 'z') || ('A' <= c && c <= 'Z')
}

/// Accepts a valid profile name; anything else is an invalid name.
pub fn validate_name(name: &str) -> (r: Result<(), Error>)
    ensures
        valid_name(name@) ==> r is Ok,
        !valid_name(name@) ==> fails_with(r, ErrorView::InvalidName(name@)),
{
    let v = chars_of(name);
    let n: usize = v.len();
    if n == 0 || !is_ascii_alnum(v[0]) {
        return Err(Error::InvalidName(owned(name)));
    }
    let mut i: usize = 1;
    while i < n
        invariant
            n == v@.len(),
            v@ == name@,
            1 <= i <= n,
            forall|k: int| 1 <= k < i ==> ascii_alnum(#[trigger] v@[k]) || v@[k] == '_' || v@[k]
                == '-',
        decreases n - i,
    {
        let c = v[i];
        if !(is_ascii_alnum(c) || c == '_' || c == '-') {
            return Err(Error::InvalidName(owned(name)));
        }
        i = i + 1;
    }
    Ok(())
}

/// A profile: where to sync from, where to, and how.
#[derive(Clone, Debug, PartialEq, Eq)]
pub struct Profile {
    pub name: String,
    pub local: String,
    pub remote: String,
    pub mode: Mode,
    pub rclone: Option<String>,
    pub extra_flags: Vec<String>,
    pub extra_ignore: Vec<String>,
    pub enabled: bool,
}

/// A profile as plain values.
pub struct ProfileView {
    pub name: Seq<char>,
    pub local: Seq<char>,
    pub remote: Seq<char>,
    pub mode: Mode,
    pub rclone: Option<Seq<char>>,
    pub extra_flags: Seq<Seq<char>>,
    pub extra_ignore: Seq<Seq<char>>,
    pub enabled: bool,
}

impl View for Profile {
    type V = ProfileView;

    open spec fn view(&self) -> ProfileView {
        ProfileView {
            name: self.name@,
            local: self.local@,
            remote: self.remote@,
            mode: self.mode,
            rclone: match self.rclone {
                Some(r) => Some(r@),
                None => None,
            },
            extra_flags: self.extra_flags.deep_view(),
            extra_ignore: self.extra_ignore.deep_view(),
            enabled: self.enabled,
        }
    }
}

/// A remote is `remote:path`: it holds a `:`.
pub open spec fn valid_remote(s: Seq<char>) -> bool {
    s.contains(':')
}

fn abs_opt(p: Option<String>, cwd: &str) -> (r: Option<String>)
    ensures
        match p {
            Some(x) => r matches Some(y) && y@ == absolute(x@, cwd@),
            None => r is None,
        },
{
    match p {
        Some(x) => Some(make_absolute(x.as_str(), cwd)),
        None => None,
    }
}

impl Profile {
    /// A new, enabled profile. The name must be valid and the remote must be
    /// `remote:path`; `local` and `rclone` are stored absolute, against the
    /// working directory `cwd`.
    pub fn new(
        name: String,
        local: String,
        remote: String,
        mode: Mode,
        rclone: Option<String>,
        extra_flags: Vec<String>,
        extra_ignore: Vec<String>,
        cwd: &str,
    ) -> (r: Result<Profile, Error>)
        ensures
            !valid_name(name@) ==> fails_with(r, ErrorView::InvalidName(name@)),
            valid_name(name@) && !valid_remote(remote@) ==> fails_with(
                r,
                ErrorView::InvalidRemote(remote@),
            ),
            valid_name(name@) && valid_remote(remote@) ==> (r matches Ok(p) && p@ == (ProfileView {
                name: name@,
                local: absolute(local@, cwd@),
                remote: remote@,
                mode,
                rclone: match rclone {
                    Some(x) => Some(absolute(x@, cwd@)),
                    None => None,
                },
                extra_flags: extra_flags.deep_view(),
                extra_ignore: extra_ignore.deep_view(),
                enabled: true,
            })),
    {
        if let Err(e) = validate_name(name.as_str()) {
            return Err(e);
        }
        if !contains_char(remote.as_str(), ':') {
            return Err(Error::InvalidRemote(remote));
        }
        let local = make_absolute(local.as_str(), cwd);
        let rclone = abs_opt(rclone, cwd);
        Ok(Profile { name, local, remote, mode, rclone, extra_flags, extra_ignore, enabled: true })
    }

    /// Ok for an enabled profile; a disabled one is an error naming it.
    pub fn require_enabled(&self) -> (r: Result<(), Error>)
        ensures
            self.enabled ==> r is Ok,
            !self.enabled ==> fails_with(r, ErrorView::ProfileDisabled(self.name@)),
    {
        if self.enabled {
            Ok(())
        } else {
            Err(Error::ProfileDisabled(self.name.clone()))
        }
    }
}

/// Changes to some fields of a profile; `None` leaves a field as it is.
#[derive(Clone, Debug, PartialEq, Eq)]
pub struct ProfileEdit {
    pub local: Option<String>,
    pub remote: Option<String>,
    pub mode: Option<Mode>,
    pub rclone: Option<Option<String>>,
    pub extra_flags: Option<Vec<String>>,
    pub extra_ignore: Option<Vec<String>>,
    pub enabled: Option<bool>,
}

/// An edit as plain values.
pub struct EditView {
    pub local: Option<Seq<char>>,
    pub remote: Option<Seq<char>>,
    pub mode: Option<Mode>,
    pub rclone: Option<Option<Seq<char>>>,
    pub extra_flags: Option<Seq<Seq<char>>>,
    pub extra_ignore: Option<Seq<Seq<char>>>,
    pub enabled: Option<bool>,
}

impl View for ProfileEdit {
    type V = EditView;

    open spec fn view(&self) -> EditView {
        EditView {
            local: match self.local {
                Some(x) => Some(x@),
                None => None,
            },
            remote: match self.remote {
                Some(x) => Some(x@),
                None => None,
            },
            mode: self.mode,
            rclone: match self.rclone {
                Some(Some(x)) => Some(Some(x@)),
                Some(None) => Some(None),
                None => None,
            },
            extra_flags: match self.extra_flags {
                Some(v) => Some(v.deep_view()),
                None => None,
            },
            extra_ignore: match self.extra_ignore {
                Some(v) => Some(v.deep_view()),
                None => None,
            },
            enabled: self.enabled,
        }
    }
}

/// Whether an edit changes nothing.
pub open spec fn edit_empty(e: EditView) -> bool {
    e.local is None && e.remote is None && e.mode is None && e.rclone is None
        && e.extra_flags is None && e.extra_ignore is None && e.enabled is None
}

/// The profile after an edit: each field the edit names is replaced (paths
/// made absolute against `cwd`), every other field stays.
pub open spec fn edited(p: ProfileView, e: EditView, cwd: Seq<char>) -> ProfileView {
    ProfileView {
        name: p.name,
        local: match e.local {
            Some(l) => absolute(l, cwd),
            None => p.local,
        },
        remote: match e.remote {
            Some(r) => r,
            None => p.remote,
        },
        mode: match e.mode {
            Some(m) => m,
            None => p.mode,
        },
        rclone: match e.rclone {
            Some(Some(x)) => Some(absolute(x, cwd)),
            Some(None) => None,
            None => p.rclone,
        },
        extra_flags: match e.extra_flags {
            Some(f) => f,
            None => p.extra_flags,
        },
        extra_ignore: match e.extra_ignore {
            Some(f) => f,
            None => p.extra_ignore,
        },
        enabled: match e.enabled {
            Some(b) => b,
            None => p.enabled,
        },
    }
}

impl Default for ProfileEdit {
    fn default() -> (e: ProfileEdit)
        ensures
            edit_empty(e@),
    {
        ProfileEdit {
            local: None,
            remote: None,
            mode: None,
            rclone: None,
            extra_flags: None,
            extra_ignore: None,
            enabled: None,
        }
    }
}

impl ProfileEdit {
    /// Whether the edit changes nothing.
    pub fn is_empty(&self) -> (r: bool)
        ensures
            r == edit_empty(self@),
    {
        self.local.is_none() && self.remote.is_none() && self.mode.is_none()
            && self.rclone.is_none() && self.extra_flags.is_none() && self.extra_ignore.is_none()
            && self.enabled.is_none()
    }

    /// `profile` with this edit applied. An empty edit is an error, and so is
    /// a new remote without `:`.
    pub fn apply(self, profile: Profile, cwd: &str) -> (r: Result<Profile, Error>)
        ensures
            edit_empty(self@) ==> fails_with(r, ErrorView::EmptyEdit),
            !edit_empty(self@) && (self@.remote matches Some(x) && !valid_remote(x)) ==> fails_with(
                r,
                ErrorView::InvalidRemote(self@.remote->0),
            ),
            !edit_empty(self@) && !(self@.remote matches Some(x) && !valid_remote(x)) ==> (
            r matches Ok(p) && p@ == edited(profile@, self@, cwd@)),
    {
        if self.is_empty() {
            return Err(Error::EmptyEdit);
        }
        let ProfileEdit { local, remote, mode, rclone, extra_flags, extra_ignore, enabled } = self;
        let mut p = profile;
        if let Some(l) = local {
            p.local = make_absolute(l.as_str(), cwd);
        }
        if let Some(r) = remote {
            if !contains_char(r.as_str(), ':') {
                return Err(Error::InvalidRemote(r));
            }
            p.remote = r;
        }
        if let Some(m) = mode {
            p.mode = m;
        }
        if let Some(rc) = rclone {
            p.rclone = abs_opt(rc, cwd);
        }
        if let Some(f) = extra_flags {
            p.extra_flags = f;
        }
        if let Some(f) = extra_ignore {
            p.extra_ignore = f;
        }
        if let Some(b) = enabled {
            p.enabled = b;
        }
        Ok(p)
    }
}

/// The profile files under a directory layout.
#[derive(Clone, Debug)]
pub struct ProfileStore {
    paths: Paths,
}

impl ProfileStore {
    /// A store over `paths`.
    pub fn new(paths: Paths) -> (s: ProfileStore)
        ensures
            s.paths_view() == paths@,
    {
        ProfileStore { paths }
    }

    /// The layout the store uses.
    pub closed spec fn paths_view(&self) -> crate::paths::PathsView {
        self.paths@
    }

    /// The layout the store uses.
    pub fn paths(&self) -> (p: &Paths)
        ensures
            p@ == self.paths_view(),
    {
        &self.paths
    }

    /// Where adding `profile` writes its toml, given whether that file
    /// already exists. The name is checked first; an existing file is an
    /// error, since adding never overwrites a profile.
    pub fn add_target(&self, profile: &Profile, toml_exists: bool) -> (r: Result<String, Error>)
        ensures
            !valid_name(profile.name@) ==> fails_with(r, ErrorView::InvalidName(profile.name@)),
            valid_name(profile.name@) && toml_exists ==> fails_with(
                r,
                ErrorView::ProfileExists(profile.name@),
            ),
            valid_name(profile.name@) && !toml_exists ==> (r matches Ok(t) && t@ == join_path(
                self.paths_view().profiles_dir,
                profile.name@ + ".toml"@,
            )),
    {
        validate_name(profile.name.as_str())?;
        if toml_exists {
            return Err(Error::ProfileExists(profile.name.clone()));
        }
        Ok(self.paths.profile_toml(profile.name.as_str()))
    }

    /// The toml of an existing profile, given whether `<name>.toml` is a
    /// file: what reading or removing a profile starts from.
    pub fn existing_toml(&self, name: &str, toml_is_file: bool) -> (r: Result<String, Error>)
        ensures
            !valid_name(name@) ==> fails_with(r, ErrorView::InvalidName(name@)),
            valid_name(name@) && !toml_is_file ==> fails_with(
                r,
                ErrorView::ProfileNotFound(name@),
            ),
            valid_name(name@) && toml_is_file ==> (r matches Ok(t) && t@ == join_path(
                self.paths_view().profiles_dir,
                name@ + ".toml"@,
            )),
    {
        validate_name(name)?;
        if !toml_is_file {
            return Err(Error::ProfileNotFound(owned(name)));
        }
        Ok(self.paths.profile_toml(name))
    }

    /// What renaming `old` to `new` comes to, given whether `old`'s toml is a
    /// file and whether anything is at `new`'s toml.
    pub fn rename_step(&self, old: &str, new: &str, old_is_file: bool, new_exists: bool) -> (r:
        Result<RenameStep, Error>)
        ensures
            match rename_outcome(old@, new@, old_is_file, new_exists) {
                Ok(step) => r == Ok::<RenameStep, Error>(step),
                Err(e) => fails_with(r, e),
            },
    {
        validate_name(old)?;
        validate_name(new)?;
        if !old_is_file {
            return Err(Error::ProfileNotFound(owned(old)));
        }
        if str_eq(old, new) {
            return Ok(RenameStep::Unchanged);
        }
        if new_exists {
            return Err(Error::ProfileExists(owned(new)));
        }
        Ok(RenameStep::Move)
    }
}

/// What a rename does once its names are checked.
#[derive(Clone, Copy, Debug, PartialEq, Eq, Structural)]
pub enum RenameStep {
    /// Both names are the same: the profile stays where it is.
    Unchanged,
    /// The toml, the ignore file and the last run move to the new name.
    Move,
}

/// The outcome of renaming `old` to `new`: both names must be valid and the
/// old profile must exist; the same name changes nothing; otherwise the new
/// name must be free.
pub open spec fn rename_outcome(old: Seq<char>, new: Seq<char>, old_present: bool, new_present: bool) -> Result<
    RenameStep,
    ErrorView,
> {
    if !valid_name(old) {
        Err(ErrorView::InvalidName(old))
    } else if !valid_name(new) {
        Err(ErrorView::InvalidName(new))
    } else if !old_present {
        Err(ErrorView::ProfileNotFound(old))
    } else if old == new {
        Ok(RenameStep::Unchanged)
    } else if new_present {
        Err(ErrorView::ProfileExists(new))
    } else {
        Ok(RenameStep::Move)
    }
}

impl Profile {
    /// The same profile under `new`.
    pub fn renamed(self, new: &str) -> (p: Profile)
        ensures
            p@ == (ProfileView { name: new@, ..self@ }),
    {
        let mut p = self;
        p.name = owned(new);
        p
    }
}


/// A directory entry that holds a profile: its extension is `toml`, so it
/// ends in `.toml` after at least one other character.
pub open spec fn is_profile_file(name: Seq<char>) -> bool {
    name.len() > 5 && name.subrange(name.len() - 5, name.len() as int) == ".toml"@
}

/// The entries that hold profiles, in the order given.
pub open spec fn profile_files(names: Seq<Seq<char>>) -> Seq<Seq<char>>
    decreases names.len(),
{
    if names.len() == 0 {
        names
    } else {
        let rest = profile_files(names.drop_last());
        if is_profile_file(names.last()) {
            rest.push(names.last())
        } else {
            rest
        }
    }
}

/// Names in ascending order.
pub open spec fn sorted_names(s: Seq<Seq<char>>) -> bool {
    forall|i: int, j: int| 0 <= i < j < s.len() ==> lex_le(#[trigger] s[i], #[trigger] s[j])
}

fn is_toml_file(name: &str) -> (r: bool)
    ensures
        r == is_profile_file(name@),
{
    let v = chars_of(name);
    let n: usize = v.len();
    if n <= 5 {
        return false;
    }
    let r = v[n - 5] == '.' && v[n - 4] == 't' && v[n - 3] == 'o' && v[n - 2] == 'm' && v[n - 1]
        == 'l';
    proof {
        reveal_strlit(".toml");
        let tail = name@.subrange(n - 5, n as int);
        if r {
            assert(tail =~= ".toml"@);
        } else {
            assert(tail != ".toml"@) by {
                if tail == ".toml"@ {
                    assert(tail[0] == '.' && tail[1] == 't' && tail[2] == 'o' && tail[3] == 'm'
                        && tail[4] == 'l');
                }
            }
        }
    }
    r
}

/// The first position in sorted `out` whose name sorts after `name`.
fn insertion_point(out: &Vec<String>, name: &str) -> (j: usize)
    ensures
        j <= out.len(),
        forall|m: int| 0 <= m < j ==> lex_le(#[trigger] out.deep_view()[m], name@),
        j < out.len() ==> !lex_le(out.deep_view()[j as int], name@),
{
    let mut j: usize = 0;
    while j < out.len() && str_le(out[j].as_str(), name)
        invariant
            j <= out.len(),
            forall|m: int| 0 <= m < j ==> lex_le(#[trigger] out.deep_view()[m], name@),
        decreases out.len() - j,
    {
        assert(out.deep_view()[j as int] == out[j as int]@);
        j = j + 1;
    }
    if j < out.len() {
        assert(out.deep_view()[j as int] == out[j as int]@);
    }
    j
}

proof fn lemma_insert_sorted(s: Seq<Seq<char>>, j: int, x: Seq<char>)
    requires
        sorted_names(s),
        0 <= j <= s.len(),
        forall|m: int| 0 <= m < j ==> lex_le(#[trigger] s[m], x),
        j < s.len() ==> !lex_le(s[j], x),
    ensures
        sorted_names(s.insert(j, x)),
{
    let t = s.insert(j, x);
    if j < s.len() {
        lemma_lex_total(s[j], x, 0);
    }
    assert forall|a: int, b: int| 0 <= a < b < t.len() implies lex_le(#[trigger] t[a], #[trigger] t[b]) by {
        if b == j {
        } else if a == j {
            if b - 1 > j {
                lemma_lex_trans(x, s[j], s[b - 1], 0);
            }
        } else if b < j {
        } else if a < j {
        } else {
        }
    }
}

/// The entries of a directory listing that hold profiles, in name order:
/// the files that listing the profiles reads, one after another.
pub fn profile_files_sorted(entries: &Vec<String>) -> (r: Vec<String>)
    ensures
        r.deep_view().to_multiset() == profile_files(entries.deep_view()).to_multiset(),
        sorted_names(r.deep_view()),
{
    let mut out: Vec<String> = Vec::new();
    let mut k: usize = 0;
    assert(profile_files(entries.deep_view().subrange(0, 0)) =~= out.deep_view());
    while k < entries.len()
        invariant
            k <= entries.len(),
            out.deep_view().to_multiset() == profile_files(
                entries.deep_view().subrange(0, k as int),
            ).to_multiset(),
            sorted_names(out.deep_view()),
        decreases entries.len() - k,
    {
        let ghost before = entries.deep_view().subrange(0, k as int);
        let ghost now = entries.deep_view().subrange(0, k + 1);
        assert(now.drop_last() =~= before);
        assert(now.last() == entries[k as int]@);
        let e: &String = &entries[k];
        if is_toml_file(e.as_str()) {
            let j = insertion_point(&out, e.as_str());
            let ghost old_dv = out.deep_view();
            proof {
                lemma_insert_sorted(old_dv, j as int, e@);
            }
            out.insert(j, e.clone());
            assert(out.deep_view() =~= old_dv.insert(j as int, e@));
            assert(profile_files(now) == profile_files(before).push(e@));
            proof {
                vstd::seq_lib::to_multiset_insert(old_dv, j as int, e@);
                vstd::seq_lib::to_multiset_build(profile_files(before), e@);
            }
        } else {
            assert(profile_files(now) == profile_files(before));
        }
        k = k + 1;
    }
    assert(entries.deep_view().subrange(0, entries.len() as int) =~= entries.deep_view());
    out
}


/// A valid name has no `/` and does not start with `.`: the files named after
/// a profile lie directly in their directories.
pub proof fn valid_names_are_plain_file_names(name: Seq<char>)
    requires
        valid_name(name),
    ensures
        name[0] != '.',
        forall|i: int| 0 <= i < name.len() ==> #[trigger] name[i] != '/',
{
    assert forall|i: int| 0 <= i < name.len() implies #[trigger] name[i] != '/' by {
        if i > 0 {
            assert(ascii_alnum(name[i]) || name[i] == '_' || name[i] == '-');
        }
    }
}

/// Editing keeps the name, an edit that names nothing changes nothing, and
/// (with an absolute working directory) applying the same edit twice gives
/// the profile that applying it once gives.
pub proof fn edit_is_idempotent(p: ProfileView, e: EditView, cwd: Seq<char>)
    requires
        cwd.len() > 0,
        cwd[0] == '/',
    ensures
        edited(p, e, cwd).name == p.name,
        edit_empty(e) ==> edited(p, e, cwd) == p,
        edited(edited(p, e, cwd), e, cwd) == edited(p, e, cwd),
{
    if let Some(l) = e.local {
        crate::paths::stored_paths_are_absolute(l, cwd);
    }
    if let Some(Some(x)) = e.rclone {
        crate::paths::stored_paths_are_absolute(x, cwd);
    }
}


/// Each field an edit names takes the edit's value (paths made absolute
/// against `cwd`; `rclone: Some(None)` clears the override), and each field it
/// leaves out keeps the profile's value. The name never changes.
pub proof fn edit_sets_named_fields(p: ProfileView, e: EditView, cwd: Seq<char>)
    ensures
        ({
            let q = edited(p, e, cwd);
            &&& q.name == p.name
            &&& (e.local matches Some(l) ==> q.local == absolute(l, cwd))
            &&& (e.local is None ==> q.local == p.local)
            &&& (e.remote matches Some(r) ==> q.remote == r)
            &&& (e.remote is None ==> q.remote == p.remote)
            &&& (e.mode matches Some(m) ==> q.mode == m)
            &&& (e.mode is None ==> q.mode == p.mode)
            &&& (e.rclone matches Some(Some(x)) ==> q.rclone == Some(absolute(x, cwd)))
            &&& (e.rclone == Some(None::<Seq<char>>) ==> q.rclone is None)
            &&& (e.rclone is None ==> q.rclone == p.rclone)
            &&& (e.extra_flags matches Some(l) ==> q.extra_flags == l)
            &&& (e.extra_flags is None ==> q.extra_flags == p.extra_flags)
            &&& (e.extra_ignore matches Some(l) ==> q.extra_ignore == l)
            &&& (e.extra_ignore is None ==> q.extra_ignore == p.extra_ignore)
            &&& (e.enabled matches Some(b) ==> q.enabled == b)
            &&& (e.enabled is None ==> q.enabled == p.enabled)
        }),
{
}

} // verus!
