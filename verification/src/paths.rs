//! Where synctr keeps its files, and path joining.

use vstd::prelude::*;

use crate::text::{cat, owned, starts_with_char, ends_with_char};

verus! {

/// `base.join(rel)` for `/`-separated paths: an absolute `rel` replaces
/// `base`; otherwise one `/` goes between them.
pub open spec fn join_path(base: Seq<char>, rel: Seq<char>) -> Seq<char> {
    if rel.len() > 0 && rel[0] == '/' {
        rel
    } else if base.len() == 0 {
        rel
    } else if base.last() == '/' {
        base + rel
    } else {
        base + seq!['/'] + rel
    }
}

/// `base.join(rel)`.
pub fn join(base: &str, rel: &str) -> (r: String)
    ensures
        r@ == join_path(base@, rel@),
{
    if starts_with_char(rel, '/') || base.unicode_len() == 0 {
        return owned(rel);
    }
    if ends_with_char(base, '/') {
        return cat(base, rel);
    }
    let mut r = owned(base);
    crate::text::push_char(&mut r, '/');
    r.append(rel);
    r
}

/// `path` made absolute against the working directory `cwd`: an absolute
/// path stays as it is.
pub open spec fn absolute(path: Seq<char>, cwd: Seq<char>) -> Seq<char> {
    if path.len() > 0 && path[0] == '/' {
        path
    } else {
        join_path(cwd, path)
    }
}

/// `path` made absolute against `cwd`.
pub fn make_absolute(path: &str, cwd: &str) -> (r: String)
    ensures
        r@ == absolute(path@, cwd@),
{
    if starts_with_char(path, '/') {
        owned(path)
    } else {
        join(cwd, path)
    }
}

/// `~` and `~/rest` read against `home`; anything else unchanged.
pub open spec fn tilde_expanded(path: Seq<char>, home: Seq<char>) -> Seq<char> {
    if path == seq!['~'] {
        home
    } else if path.len() >= 2 && path[0] == '~' && path[1] == '/' {
        join_path(home, path.skip(2))
    } else {
        path
    }
}

/// `path` with a leading `~` read as `home`.
pub fn expand_tilde(path: &str, home: &str) -> (r: String)
    ensures
        r@ == tilde_expanded(path@, home@),
{
    let n: usize = path.unicode_len();
    if n == 1 && path.get_char(0) == '~' {
        assert(path@ =~= seq!['~']);
        return owned(home);
    }
    if n >= 2 && path.get_char(0) == '~' && path.get_char(1) == '/' {
        let rest = path.substring_char(2, n);
        assert(rest@ =~= path@.skip(2));
        return join(home, rest);
    }
    proof {
        if path@ == seq!['~'] {
            assert(path@[0] == '~');
        }
    }
    owned(path)
}

/// `dirs::home_dir()`: the user's home directory. It reads the environment
/// (`$HOME`, else the password database), so nothing is claimed of which
/// directory comes back; what is claimed is what the crate's code shows: a
/// directory it returns is never empty.
#[verifier::external_body]
fn home_dir() -> (h: Option<String>)
    ensures
        h matches Some(d) ==> d@.len() > 0,
{
    dirs::home_dir().map(|p| p.to_string_lossy().into_owned())
}

/// The home directory, or `/` when there is none.
pub fn home_or_root() -> (h: String)
    ensures
        h@.len() > 0,
{
    match home_dir() {
        Some(h) => h,
        None => {
            let r = owned("/");
            proof {
                reveal_strlit("/");
            }
            r
        },
    }
}

/// The home directory, when there is one.
pub fn home() -> (h: Option<String>)
    ensures
        h matches Some(d) ==> d@.len() > 0,
{
    home_dir()
}

/// Values of the environment variables that place synctr's directories.
#[derive(Clone, Debug, Default)]
pub struct DirEnv {
    pub synctr_config_dir: Option<String>,
    pub xdg_config_home: Option<String>,
    pub synctr_state_dir: Option<String>,
    pub xdg_state_home: Option<String>,
    pub synctr_cache_dir: Option<String>,
    pub xdg_cache_home: Option<String>,
}

/// A variable's value, counting an empty value as unset.
pub open spec fn set_value(v: Option<String>) -> Option<Seq<char>> {
    match v {
        Some(s) => if s@.len() > 0 {
            Some(s@)
        } else {
            None
        },
        None => None,
    }
}

/// The directory a variable names: the own variable, else `<xdg>/synctr`, else
/// `fallback` under `home`.
pub open spec fn dir_from(
    own: Option<String>,
    xdg: Option<String>,
    home: Seq<char>,
    fallback: Seq<char>,
) -> Seq<char> {
    match set_value(own) {
        Some(d) => d,
        None => match set_value(xdg) {
            Some(x) => join_path(x, "synctr"@),
            None => join_path(home, fallback),
        },
    }
}

fn set_value_of(v: &Option<String>) -> (r: Option<String>)
    ensures
        match r {
            Some(s) => set_value(*v) == Some(s@),
            None => set_value(*v) is None,
        },
{
    match v {
        Some(s) => if s.as_str().unicode_len() > 0 {
            Some(s.clone())
        } else {
            None
        },
        None => None,
    }
}

fn pick_dir(own: &Option<String>, xdg: &Option<String>, home: &str, fallback: &str) -> (r: String)
    ensures
        r@ == dir_from(*own, *xdg, home@, fallback@),
{
    match set_value_of(own) {
        Some(d) => d,
        None => match set_value_of(xdg) {
            Some(x) => join(x.as_str(), "synctr"),
            None => join(home, fallback),
        },
    }
}

/// synctr's directories and the files directly under them.
#[derive(Clone, Debug, PartialEq, Eq)]
pub struct Paths {
    pub config_dir: String,
    pub profiles_dir: String,
    pub ignore_file: String,
    pub state_dir: String,
    pub cache_dir: String,
}

/// The directories, as plain text.
pub struct PathsView {
    pub config_dir: Seq<char>,
    pub profiles_dir: Seq<char>,
    pub ignore_file: Seq<char>,
    pub state_dir: Seq<char>,
    pub cache_dir: Seq<char>,
}

impl View for Paths {
    type V = PathsView;

    open spec fn view(&self) -> PathsView {
        PathsView {
            config_dir: self.config_dir@,
            profiles_dir: self.profiles_dir@,
            ignore_file: self.ignore_file@,
            state_dir: self.state_dir@,
            cache_dir: self.cache_dir@,
        }
    }
}

/// The layout under `config`, with the given state and cache directories.
pub open spec fn layout(config: Seq<char>, state: Seq<char>, cache: Seq<char>) -> PathsView {
    PathsView {
        config_dir: config,
        profiles_dir: join_path(config, "profiles"@),
        ignore_file: join_path(config, "ignore"@),
        state_dir: state,
        cache_dir: cache,
    }
}

/// The directories the environment names, with `home` for what it leaves unset.
pub open spec fn env_layout(env: DirEnv, home: Seq<char>) -> PathsView {
    layout(
        dir_from(env.synctr_config_dir, env.xdg_config_home, home, ".config/synctr"@),
        dir_from(env.synctr_state_dir, env.xdg_state_home, home, ".local/state/synctr"@),
        dir_from(env.synctr_cache_dir, env.xdg_cache_home, home, ".cache/synctr"@),
    )
}

impl Paths {
    fn assemble(config_dir: String, state_dir: String, cache_dir: String) -> (p: Paths)
        ensures
            p@ == layout(config_dir@, state_dir@, cache_dir@),
    {
        Paths {
            profiles_dir: join(config_dir.as_str(), "profiles"),
            ignore_file: join(config_dir.as_str(), "ignore"),
            config_dir,
            state_dir,
            cache_dir,
        }
    }

    /// The layout for the given environment and home directory:
    /// `SYNCTR_*_DIR`, else `$XDG_*_HOME/synctr`, else the usual place under home.
    pub fn from_env_home(env: &DirEnv, home: &str) -> (p: Paths)
        ensures
            p@ == env_layout(*env, home@),
    {
        let config = pick_dir(&env.synctr_config_dir, &env.xdg_config_home, home, ".config/synctr");
        let state = pick_dir(&env.synctr_state_dir, &env.xdg_state_home, home, ".local/state/synctr");
        let cache = pick_dir(&env.synctr_cache_dir, &env.xdg_cache_home, home, ".cache/synctr");
        Paths::assemble(config, state, cache)
    }

    /// The layout for the given environment, with the user's home directory
    /// (or `/`) for what it leaves unset.
    pub fn from_env(env: &DirEnv) -> (p: Paths)
        ensures
            exists|h: Seq<char>| h.len() > 0 && p@ == env_layout(*env, h),
    {
        let h = home_or_root();
        Paths::from_env_home(env, h.as_str())
    }

    /// Everything under `config_dir`: state in `<config>/state` and cache in
    /// `<config>/cache` unless the overrides (`SYNCTR_STATE_DIR`,
    /// `SYNCTR_CACHE_DIR`) name other directories.
    pub fn from_config_dir(
        config_dir: String,
        state_override: Option<String>,
        cache_override: Option<String>,
    ) -> (p: Paths)
        ensures
            p@ == layout(
                config_dir@,
                match set_value(state_override) {
                    Some(d) => d,
                    None => join_path(config_dir@, "state"@),
                },
                match set_value(cache_override) {
                    Some(d) => d,
                    None => join_path(config_dir@, "cache"@),
                },
            ),
    {
        let state = match set_value_of(&state_override) {
            Some(d) => d,
            None => join(config_dir.as_str(), "state"),
        };
        let cache = match set_value_of(&cache_override) {
            Some(d) => d,
            None => join(config_dir.as_str(), "cache"),
        };
        Paths::assemble(config_dir, state, cache)
    }

    /// `<profiles>/<name>.toml`.
    pub fn profile_toml(&self, name: &str) -> (r: String)
        ensures
            r@ == join_path(self.profiles_dir@, name@ + ".toml"@),
    {
        join(self.profiles_dir.as_str(), cat(name, ".toml").as_str())
    }

    /// `<profiles>/<name>.ignore`.
    pub fn profile_ignore(&self, name: &str) -> (r: String)
        ensures
            r@ == join_path(self.profiles_dir@, name@ + ".ignore"@),
    {
        join(self.profiles_dir.as_str(), cat(name, ".ignore").as_str())
    }

    /// `<state>/runs/<name>.toml`.
    pub fn last_run(&self, name: &str) -> (r: String)
        ensures
            r@ == join_path(join_path(self.state_dir@, "runs"@), name@ + ".toml"@),
    {
        join(join(self.state_dir.as_str(), "runs").as_str(), cat(name, ".toml").as_str())
    }

    /// `<cache>/filters/<name>.filter`.
    pub fn filter_file(&self, name: &str) -> (r: String)
        ensures
            r@ == join_path(join_path(self.cache_dir@, "filters"@), name@ + ".filter"@),
    {
        join(join(self.cache_dir.as_str(), "filters").as_str(), cat(name, ".filter").as_str())
    }

    /// `<state>/progress/<name>.json`.
    pub fn progress_file(&self, name: &str) -> (r: String)
        ensures
            r@ == join_path(join_path(self.state_dir@, "progress"@), name@ + ".json"@),
    {
        join(join(self.state_dir.as_str(), "progress").as_str(), cat(name, ".json").as_str())
    }

    /// `<state>/locks/<name>.lock`.
    pub fn lock_file(&self, name: &str) -> (r: String)
        ensures
            r@ == join_path(join_path(self.state_dir@, "locks"@), name@ + ".lock"@),
    {
        join(join(self.state_dir.as_str(), "locks").as_str(), cat(name, ".lock").as_str())
    }
}


/// Against an absolute working directory, a path is stored absolute, and
/// storing it again changes nothing.
pub proof fn stored_paths_are_absolute(path: Seq<char>, cwd: Seq<char>)
    requires
        cwd.len() > 0,
        cwd[0] == '/',
    ensures
        absolute(path, cwd).len() > 0,
        absolute(path, cwd)[0] == '/',
        absolute(absolute(path, cwd), cwd) == absolute(path, cwd),
{
    if !(path.len() > 0 && path[0] == '/') {
        let rel = path;
        if cwd.last() == '/' {
            assert((cwd + rel)[0] == cwd[0]);
        } else {
            assert((cwd + seq!['/'] + rel)[0] == cwd[0]);
        }
    }
}

} // verus!
