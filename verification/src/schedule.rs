//! systemd user units and launchd agents that run `synctr sync <name>` on an
//! interval. They are written as text; nothing here enables or loads them.

use vstd::prelude::*;

use crate::error::{fails_with, Error, ErrorView};
use crate::paths::{join, join_path};
use crate::profile::{valid_name, validate_name};
use crate::text::{
    cat, chars_of, char_is_ws, dec, flat_map_chars, is_ws, lemma_flat_map_step, owned, push_char,
    push_dec, str_eq,
};

verus! {

/// The scheduler a unit file is for.
#[derive(Clone, Copy, Debug, PartialEq, Eq, Structural)]
pub enum ScheduleKind {
    Systemd,
    Launchd,
}

/// The name of a scheduler kind.
pub open spec fn kind_name(k: ScheduleKind) -> Seq<char> {
    match k {
        ScheduleKind::Systemd => "systemd"@,
        ScheduleKind::Launchd => "launchd"@,
    }
}

impl ScheduleKind {
    /// `systemd` or `launchd`; anything else is an invalid kind.
    pub fn parse(s: &str) -> (r: Result<ScheduleKind, Error>)
        ensures
            s@ == "systemd"@ ==> r == Ok::<ScheduleKind, Error>(ScheduleKind::Systemd),
            s@ == "launchd"@ ==> r == Ok::<ScheduleKind, Error>(ScheduleKind::Launchd),
            s@ != "systemd"@ && s@ != "launchd"@ ==> fails_with(
                r,
                ErrorView::InvalidScheduleKind(s@),
            ),
    {
        proof {
            reveal_strlit("systemd");
            reveal_strlit("launchd");
            assert("systemd"@[0] != "launchd"@[0]);
        }
        if str_eq(s, "systemd") {
            Ok(ScheduleKind::Systemd)
        } else if str_eq(s, "launchd") {
            Ok(ScheduleKind::Launchd)
        } else {
            Err(Error::InvalidScheduleKind(owned(s)))
        }
    }

    /// launchd on macOS, systemd elsewhere.
    pub open spec fn default_for_host_spec(is_macos: bool) -> ScheduleKind {
        if is_macos {
            ScheduleKind::Launchd
        } else {
            ScheduleKind::Systemd
        }
    }

    /// launchd on macOS, systemd elsewhere.
    pub fn default_for_host(is_macos: bool) -> (k: ScheduleKind)
        ensures
            k == ScheduleKind::default_for_host_spec(is_macos),
    {
        if is_macos {
            ScheduleKind::Launchd
        } else {
            ScheduleKind::Systemd
        }
    }

    /// The kind's name.
    pub fn as_str(self) -> (s: &'static str)
        ensures
            s@ == kind_name(self),
    {
        match self {
            ScheduleKind::Systemd => "systemd",
            ScheduleKind::Launchd => "launchd",
        }
    }
}

/// One generated file: its file name and contents.
#[derive(Clone, Debug, PartialEq, Eq)]
pub struct ScheduleFile {
    pub name: String,
    pub body: String,
}

impl View for ScheduleFile {
    type V = (Seq<char>, Seq<char>);

    open spec fn view(&self) -> (Seq<char>, Seq<char>) {
        (self.name@, self.body@)
    }
}

/// The files for a profile's schedule, and what they were made from.
#[derive(Clone, Debug, PartialEq, Eq)]
pub struct ScheduleSpec {
    pub kind: ScheduleKind,
    pub interval_secs: u64,
    pub bin: String,
    pub profile: String,
    pub files: Vec<ScheduleFile>,
}

/// The files as plain values.
pub open spec fn files_view(v: Seq<ScheduleFile>) -> Seq<(Seq<char>, Seq<char>)> {
    v.map_values(|f: ScheduleFile| f@)
}

/// Characters that make systemd need a quoted argument.
pub open spec fn systemd_special(c: char) -> bool {
    is_ws(c) || c == '"' || c == '\'' || c == '\\' || c == '$' || c == '%' || c == ';'
}

/// How a character is written inside a double-quoted systemd argument: `\`
/// and `"` get a backslash, `$` and `%` are doubled.
pub open spec fn systemd_escape_char(c: char) -> Seq<char> {
    if c == '\\' {
        seq!['\\', '\\']
    } else if c == '"' {
        seq!['\\', '"']
    } else if c == '$' {
        seq!['$', '$']
    } else if c == '%' {
        seq!['%', '%']
    } else {
        seq![c]
    }
}

/// An argument as systemd's `ExecStart=` reads it back: as it is when it holds
/// no special character, otherwise double-quoted and escaped.
pub open spec fn systemd_quoted(s: Seq<char>) -> Seq<char> {
    if exists|i: int| 0 <= i < s.len() && systemd_special(#[trigger] s[i]) {
        seq!['"'] + flat_map_chars(s, |c: char| systemd_escape_char(c)) + seq!['"']
    } else {
        s
    }
}

/// How a character is written in XML text.
pub open spec fn xml_escape_char(c: char) -> Seq<char> {
    if c == '&' {
        "&amp;"@
    } else if c == '<' {
        "&lt;"@
    } else if c == '>' {
        "&gt;"@
    } else if c == '"' {
        "&quot;"@
    } else if c == '\'' {
        "&apos;"@
    } else {
        seq![c]
    }
}

/// `s` with the XML special characters escaped.
pub open spec fn xml_escaped(s: Seq<char>) -> Seq<char> {
    flat_map_chars(s, |c: char| xml_escape_char(c))
}

fn is_systemd_special(c: char) -> (r: bool)
    ensures
        r == systemd_special(c),
{
    char_is_ws(c) || c == '"' || c == '\'' || c == '\\' || c == '$' || c == '%' || c == ';'
}

/// `s` quoted for a systemd `ExecStart=` line when it needs quoting.
pub fn systemd_quote(s: &str) -> (r: String)
    ensures
        r@ == systemd_quoted(s@),
{
    let v = chars_of(s);
    let n: usize = v.len();
    let mut i: usize = 0;
    let mut special: bool = false;
    while i < n
        invariant
            n == v@.len(),
            v@ == s@,
            i <= n,
            special == exists|k: int| 0 <= k < i && systemd_special(#[trigger] v@[k]),
        decreases n - i,
    {
        if is_systemd_special(v[i]) {
            special = true;
        }
        i = i + 1;
    }
    if !special {
        return owned(s);
    }
    let mut out = String::new();
    push_char(&mut out, '"');
    let mut j: usize = 0;
    assert(v@.subrange(0, 0) =~= Seq::<char>::empty());
    while j < n
        invariant
            n == v@.len(),
            v@ == s@,
            j <= n,
            out@ == seq!['"'] + flat_map_chars(v@.subrange(0, j as int), |c: char| systemd_escape_char(c)),
        decreases n - j,
    {
        let c = v[j];
        proof {
            lemma_flat_map_step(v@, |c: char| systemd_escape_char(c), j as int);
        }
        if c == '\\' {
            push_char(&mut out, '\\');
            push_char(&mut out, '\\');
        } else if c == '"' {
            push_char(&mut out, '\\');
            push_char(&mut out, '"');
        } else if c == '$' {
            push_char(&mut out, '$');
            push_char(&mut out, '$');
        } else if c == '%' {
            push_char(&mut out, '%');
            push_char(&mut out, '%');
        } else {
            push_char(&mut out, c);
        }
        j = j + 1;
        assert(out@ =~= seq!['"'] + flat_map_chars(v@.subrange(0, j as int), |c: char| systemd_escape_char(c)));
    }
    push_char(&mut out, '"');
    assert(v@.subrange(0, n as int) =~= v@);
    out
}

/// `s` with `&`, `<`, `>`, `"` and `'` written as XML entities.
pub fn xml_escape(s: &str) -> (r: String)
    ensures
        r@ == xml_escaped(s@),
{
    let v = chars_of(s);
    let n: usize = v.len();
    let mut out = String::new();
    let mut j: usize = 0;
    assert(v@.subrange(0, 0) =~= Seq::<char>::empty());
    while j < n
        invariant
            n == v@.len(),
            v@ == s@,
            j <= n,
            out@ == flat_map_chars(v@.subrange(0, j as int), |c: char| xml_escape_char(c)),
        decreases n - j,
    {
        let c = v[j];
        proof {
            lemma_flat_map_step(v@, |c: char| xml_escape_char(c), j as int);
        }
        if c == '&' {
            out.append("&amp;");
        } else if c == '<' {
            out.append("&lt;");
        } else if c == '>' {
            out.append("&gt;");
        } else if c == '"' {
            out.append("&quot;");
        } else if c == '\'' {
            out.append("&apos;");
        } else {
            push_char(&mut out, c);
        }
        j = j + 1;
    }
    assert(v@.subrange(0, n as int) =~= v@);
    out
}

/// The `ExecStart=` command: the binary, `--config-dir <dir>` when a config
/// directory is baked in, then `sync <name>`.
pub open spec fn systemd_exec_line(bin: Seq<char>, name: Seq<char>, config_dir: Option<Seq<char>>) -> Seq<char> {
    systemd_quoted(bin) + match config_dir {
        Some(d) => " --config-dir "@ + systemd_quoted(d),
        None => Seq::empty(),
    } + " sync "@ + name
}

/// The systemd service unit.
pub open spec fn service_body(name: Seq<char>, exec: Seq<char>) -> Seq<char> {
    "[Unit]\nDescription=synctr sync "@ + name + "\n\n[Service]\nType=oneshot\nExecStart="@ + exec
        + "\n"@
}

/// The systemd timer unit.
pub open spec fn timer_body(name: Seq<char>, interval: nat) -> Seq<char> {
    "[Unit]\nDescription=synctr timer for "@ + name
        + "\n\n[Timer]\nOnBootSec=1min\nOnUnitActiveSec="@ + dec(interval)
        + "s\nPersistent=true\n\n[Install]\nWantedBy=timers.target\n"@
}

/// The launchd label of a profile's agent.
pub open spec fn launchd_label(name: Seq<char>) -> Seq<char> {
    "dev.luxus.synctr."@ + name
}

/// The launchd property list.
pub open spec fn plist_body(
    name: Seq<char>,
    bin: Seq<char>,
    interval: nat,
    config_dir: Option<Seq<char>>,
) -> Seq<char> {
    "<?xml version=\"1.0\" encoding=\"UTF-8\"?>\n<!DOCTYPE plist PUBLIC \"-//Apple//DTD PLIST 1.0//EN\" \"http://www.apple.com/DTDs/PropertyList-1.0.dtd\">\n<plist version=\"1.0\">\n<dict>\n\t<key>Label</key>\n\t<string>"@
        + launchd_label(name)
        + "</string>\n\t<key>ProgramArguments</key>\n\t<array>\n\t\t<string>"@ + xml_escaped(bin)
        + "</string>"@ + match config_dir {
        Some(d) => "\n\t\t<string>--config-dir</string>\n\t\t<string>"@ + xml_escaped(d)
            + "</string>"@,
        None => Seq::empty(),
    } + "\n\t\t<string>sync</string>\n\t\t<string>"@ + xml_escaped(name)
        + "</string>\n\t</array>\n\t<key>StartInterval</key>\n\t<integer>"@ + dec(interval)
        + "</integer>\n\t<key>RunAtLoad</key>\n\t<false/>\n</dict>\n</plist>\n"@
}

/// The file names a schedule of `kind` has for profile `name`.
pub open spec fn file_names(kind: ScheduleKind, name: Seq<char>) -> Seq<Seq<char>> {
    match kind {
        ScheduleKind::Systemd => seq!["synctr-"@ + name + ".service"@, "synctr-"@ + name + ".timer"@],
        ScheduleKind::Launchd => seq![launchd_label(name) + ".plist"@],
    }
}

/// The files of a schedule.
pub open spec fn schedule_files(
    kind: ScheduleKind,
    name: Seq<char>,
    bin: Seq<char>,
    interval: nat,
    config_dir: Option<Seq<char>>,
) -> Seq<(Seq<char>, Seq<char>)> {
    match kind {
        ScheduleKind::Systemd => seq![
            (file_names(kind, name)[0], service_body(name, systemd_exec_line(bin, name, config_dir))),
            (file_names(kind, name)[1], timer_body(name, interval)),
        ],
        ScheduleKind::Launchd => seq![
            (file_names(kind, name)[0], plist_body(name, bin, interval, config_dir)),
        ],
    }
}

fn systemd_exec(bin: &str, name: &str, config_dir: Option<&str>) -> (r: String)
    ensures
        r@ == systemd_exec_line(bin@, name@, match config_dir {
            Some(d) => Some(d@),
            None => None,
        }),
{
    let mut r = systemd_quote(bin);
    if let Some(d) = config_dir {
        r.append(" --config-dir ");
        r.append(systemd_quote(d).as_str());
    } else {
        proof {
            assert(r@ =~= r@ + Seq::<char>::empty());
        }
    }
    r.append(" sync ");
    r.append(name);
    r
}

fn interval_text(n: u64) -> (r: String)
    ensures
        r@ == dec(n as nat),
{
    let mut r = String::new();
    push_dec(&mut r, n);
    r
}

fn systemd_files(name: &str, bin: &str, interval_secs: u64, config_dir: Option<&str>) -> (v: Vec<ScheduleFile>)
    ensures
        files_view(v@) == schedule_files(ScheduleKind::Systemd, name@, bin@, interval_secs as nat, match config_dir {
            Some(d) => Some(d@),
            None => None,
        }),
{
    let exec = systemd_exec(bin, name, config_dir);
    let mut service = owned("[Unit]\nDescription=synctr sync ");
    service.append(name);
    service.append("\n\n[Service]\nType=oneshot\nExecStart=");
    service.append(exec.as_str());
    service.append("\n");
    let mut timer = owned("[Unit]\nDescription=synctr timer for ");
    timer.append(name);
    timer.append("\n\n[Timer]\nOnBootSec=1min\nOnUnitActiveSec=");
    timer.append(interval_text(interval_secs).as_str());
    timer.append("s\nPersistent=true\n\n[Install]\nWantedBy=timers.target\n");
    let mut sname = cat("synctr-", name);
    sname.append(".service");
    let mut tname = cat("synctr-", name);
    tname.append(".timer");
    let v = vec![ScheduleFile { name: sname, body: service }, ScheduleFile { name: tname, body: timer }];
    assert(files_view(v@) =~= schedule_files(ScheduleKind::Systemd, name@, bin@, interval_secs as nat, match config_dir {
            Some(d) => Some(d@),
            None => None,
        }));
    v
}

fn launchd_file(name: &str, bin: &str, interval_secs: u64, config_dir: Option<&str>) -> (f: ScheduleFile)
    ensures
        f@ == schedule_files(ScheduleKind::Launchd, name@, bin@, interval_secs as nat, match config_dir {
            Some(d) => Some(d@),
            None => None,
        })[0],
{
    let label = cat("dev.luxus.synctr.", name);
    let mut body = owned("<?xml version=\"1.0\" encoding=\"UTF-8\"?>\n<!DOCTYPE plist PUBLIC \"-//Apple//DTD PLIST 1.0//EN\" \"http://www.apple.com/DTDs/PropertyList-1.0.dtd\">\n<plist version=\"1.0\">\n<dict>\n\t<key>Label</key>\n\t<string>");
    body.append(label.as_str());
    body.append("</string>\n\t<key>ProgramArguments</key>\n\t<array>\n\t\t<string>");
    body.append(xml_escape(bin).as_str());
    body.append("</string>");
    if let Some(d) = config_dir {
        body.append("\n\t\t<string>--config-dir</string>\n\t\t<string>");
        body.append(xml_escape(d).as_str());
        body.append("</string>");
    } else {
        proof {
            assert(body@ =~= body@ + Seq::<char>::empty());
        }
    }
    body.append("\n\t\t<string>sync</string>\n\t\t<string>");
    body.append(xml_escape(name).as_str());
    body.append("</string>\n\t</array>\n\t<key>StartInterval</key>\n\t<integer>");
    body.append(interval_text(interval_secs).as_str());
    body.append("</integer>\n\t<key>RunAtLoad</key>\n\t<false/>\n</dict>\n</plist>\n");
    let fname = cat(label.as_str(), ".plist");
    ScheduleFile { name: fname, body }
}

/// The unit files for running `<bin> [--config-dir <dir>] sync <name>` every
/// `interval_secs` seconds. The name must be valid and the interval positive.
pub fn generate_schedule(
    kind: ScheduleKind,
    name: &str,
    bin: &str,
    interval_secs: u64,
    config_dir: Option<&str>,
) -> (r: Result<ScheduleSpec, Error>)
    ensures
        !valid_name(name@) ==> fails_with(r, ErrorView::InvalidName(name@)),
        valid_name(name@) && interval_secs == 0 ==> fails_with(r, ErrorView::InvalidInterval),
        valid_name(name@) && interval_secs > 0 ==> (r matches Ok(s) && s.kind == kind
            && s.interval_secs == interval_secs && s.bin@ == bin@ && s.profile@ == name@
            && files_view(s.files@) == schedule_files(kind, name@, bin@, interval_secs as nat, match config_dir {
            Some(d) => Some(d@),
            None => None,
        })),
{
    if let Err(e) = validate_name(name) {
        return Err(e);
    }
    if interval_secs == 0 {
        return Err(Error::InvalidInterval);
    }
    let files = match kind {
        ScheduleKind::Systemd => systemd_files(name, bin, interval_secs, config_dir),
        ScheduleKind::Launchd => {
            let f = launchd_file(name, bin, interval_secs, config_dir);
            let v = vec![f];
            assert(files_view(v@) =~= schedule_files(kind, name@, bin@, interval_secs as nat, match config_dir {
                Some(d) => Some(d@),
                None => None,
            }));
            v
        },
    };
    Ok(ScheduleSpec { kind, interval_secs, bin: owned(bin), profile: owned(name), files })
}

/// The file names a schedule of `kind` uses for profile `name`.
pub fn schedule_filenames(kind: ScheduleKind, name: &str) -> (v: Vec<String>)
    ensures
        v.deep_view() == file_names(kind, name@),
{
    match kind {
        ScheduleKind::Systemd => {
            let mut a = cat("synctr-", name);
            a.append(".service");
            let mut b = cat("synctr-", name);
            b.append(".timer");
            let v = vec![a, b];
            assert(v.deep_view() =~= file_names(kind, name@));
            v
        },
        ScheduleKind::Launchd => {
            let mut a = cat("dev.luxus.synctr.", name);
            a.append(".plist");
            let v = vec![a];
            assert(v.deep_view() =~= file_names(kind, name@));
            v
        },
    }
}

/// Where unit files go by default: `$XDG_CONFIG_HOME/systemd/user` or
/// `~/.config/systemd/user` for systemd, `~/Library/LaunchAgents` for
/// launchd. Without a home directory (where one is needed) it is an error,
/// never `/`.
pub open spec fn install_dir(kind: ScheduleKind, xdg: Option<Seq<char>>, home: Option<Seq<char>>) -> Result<Seq<char>, ErrorView> {
    match kind {
        ScheduleKind::Systemd => match xdg {
            Some(x) => Ok(join_path(x, "systemd/user"@)),
            None => match home {
                Some(h) => Ok(join_path(h, ".config/systemd/user"@)),
                None => Err(ErrorView::HomeNotFound),
            },
        },
        ScheduleKind::Launchd => match home {
            Some(h) => Ok(join_path(h, "Library/LaunchAgents"@)),
            None => Err(ErrorView::HomeNotFound),
        },
    }
}

/// A directory result as plain values.
pub open spec fn dir_result(r: Result<String, Error>) -> Result<Seq<char>, ErrorView> {
    match r {
        Ok(s) => Ok(s@),
        Err(e) => Err(e@),
    }
}

/// The default install directory for `kind`, given `$XDG_CONFIG_HOME` (already
/// known to be non-empty) and the home directory.
pub fn install_dir_from(kind: ScheduleKind, xdg_config_home: Option<String>, home: Option<String>) -> (r: Result<String, Error>)
    ensures
        dir_result(r) == install_dir(kind, match xdg_config_home {
            Some(x) => Some(x@),
            None => None,
        }, match home {
            Some(h) => Some(h@),
            None => None,
        }),
{
    match kind {
        ScheduleKind::Systemd => {
            if let Some(x) = xdg_config_home {
                return Ok(join(x.as_str(), "systemd/user"));
            }
            match home {
                Some(h) => Ok(join(h.as_str(), ".config/systemd/user")),
                None => Err(Error::HomeNotFound),
            }
        },
        ScheduleKind::Launchd => match home {
            Some(h) => Ok(join(h.as_str(), "Library/LaunchAgents")),
            None => Err(Error::HomeNotFound),
        },
    }
}

/// The default install directory for `kind`, given the value of
/// `$XDG_CONFIG_HOME` (empty counts as unset) and the user's home directory.
pub fn default_install_dir(kind: ScheduleKind, xdg_config_home: Option<String>) -> (r: Result<String, Error>)
    ensures
        exists|home: Option<Seq<char>>|
            (home matches Some(h) ==> h.len() > 0) && dir_result(r) == install_dir(
                kind,
                crate::paths::set_value(xdg_config_home),
                home,
            ),
{
    let xdg = match xdg_config_home {
        Some(x) => if x.as_str().unicode_len() > 0 {
            Some(x)
        } else {
            None
        },
        None => None,
    };
    let h = crate::paths::home();
    let ghost hv = crate::rclone::opt_view(h);
    let r = install_dir_from(kind, xdg, h);
    assert(dir_result(r) == install_dir(kind, crate::paths::set_value(xdg_config_home), hv));
    r
}

/// The message printed after installing: how to start the units, which
/// synctr never does itself.
pub open spec fn hint_text(kind: ScheduleKind, dest: Seq<char>, name: Seq<char>, used_default: bool) -> Seq<char> {
    match kind {
        ScheduleKind::Systemd => "not enabled. to start: systemctl --user enable --now synctr-"@ + name
            + ".timer"@ + if used_default {
            Seq::empty()
        } else {
            "\nwrote under "@ + dest
                + "; systemd --user only loads from the user unit dir unless you link these files there"@
        },
        ScheduleKind::Launchd => "not loaded. to start: launchctl load "@ + join_path(
            dest,
            launchd_label(name) + ".plist"@,
        ),
    }
}

/// How to start what `install` wrote under `dest`.
pub fn enable_hint(kind: ScheduleKind, dest: &str, name: &str, used_default: bool) -> (r: String)
    ensures
        r@ == hint_text(kind, dest@, name@, used_default),
{
    match kind {
        ScheduleKind::Systemd => {
            let mut hint = cat("not enabled. to start: systemctl --user enable --now synctr-", name);
            hint.append(".timer");
            if !used_default {
                hint.append("\nwrote under ");
                hint.append(dest);
                hint.append("; systemd --user only loads from the user unit dir unless you link these files there");
            } else {
                proof {
                    assert(hint@ =~= hint@ + Seq::<char>::empty());
                }
            }
            hint
        },
        ScheduleKind::Launchd => {
            let mut f = cat("dev.luxus.synctr.", name);
            f.append(".plist");
            let plist = join(dest, f.as_str());
            cat("not loaded. to start: launchctl load ", plist.as_str())
        },
    }
}

/// What `uninstall` removes is what `install` wrote: the names of the
/// generated files are the schedule's file names.
pub proof fn generated_names_are_schedule_filenames(
    kind: ScheduleKind,
    name: Seq<char>,
    bin: Seq<char>,
    interval: nat,
    config_dir: Option<Seq<char>>,
)
    ensures
        schedule_files(kind, name, bin, interval, config_dir).map_values(
            |f: (Seq<char>, Seq<char>)| f.0,
        ) == file_names(kind, name),
{
    assert(schedule_files(kind, name, bin, interval, config_dir).map_values(
        |f: (Seq<char>, Seq<char>)| f.0,
    ) =~= file_names(kind, name));
}

/// A path without special characters goes into `ExecStart=` as it is.
pub proof fn plain_paths_are_not_quoted(s: Seq<char>)
    requires
        forall|i: int| 0 <= i < s.len() ==> !systemd_special(#[trigger] s[i]),
    ensures
        systemd_quoted(s) == s,
{
}


/// A kind's name reads back as the same kind: `parse` of `as_str` gives the
/// kind again.
pub proof fn kind_name_round_trip(k: ScheduleKind)
    ensures
        (kind_name(k) == "systemd"@) == (k == ScheduleKind::Systemd),
        (kind_name(k) == "launchd"@) == (k == ScheduleKind::Launchd),
{
    reveal_strlit("systemd");
    reveal_strlit("launchd");
    assert("systemd"@[0] != "launchd"@[0]);
}

} // verus!
