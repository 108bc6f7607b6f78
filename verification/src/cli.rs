//! Decisions of the command line: edits from flags, listing lines, the
//! scheduler kind.

use vstd::prelude::*;

use crate::error::{fails_with, Error, ErrorView};
use crate::profile::{mode_name, EditView, Mode, Profile, ProfileEdit};
use crate::schedule::{kind_name, ScheduleKind};
use crate::text::{cat, push_char};

verus! {

/// A flag list as an edit: `--clear-*` sets the list empty, a non-empty list
/// replaces it, and an empty list leaves it alone.
pub open spec fn list_edit(values: Seq<Seq<char>>, clear: bool) -> Option<Seq<Seq<char>>> {
    if clear {
        Some(Seq::empty())
    } else if values.len() == 0 {
        None
    } else {
        Some(values)
    }
}

fn list_edit_of(values: Vec<String>, clear: bool) -> (r: Option<Vec<String>>)
    ensures
        match r {
            Some(v) => list_edit(values.deep_view(), clear) == Some(v.deep_view()),
            None => list_edit(values.deep_view(), clear) is None,
        },
{
    if clear {
        let v: Vec<String> = Vec::new();
        assert(v.deep_view() =~= Seq::<Seq<char>>::empty());
        Some(v)
    } else if values.len() == 0 {
        None
    } else {
        Some(values)
    }
}

/// The edit `synctr profile edit` asks for: each given field replaced;
/// `--clear-rclone` drops the rclone override; the list flags as `list_edit`
/// says.
pub fn edit_from_flags(
    local: Option<String>,
    remote: Option<String>,
    mode: Option<Mode>,
    rclone: Option<String>,
    clear_rclone: bool,
    extra_flags: Vec<String>,
    clear_flags: bool,
    extra_ignore: Vec<String>,
    clear_ignore: bool,
) -> (e: ProfileEdit)
    ensures
        e@.local == crate::rclone::opt_view(local),
        e@.remote == crate::rclone::opt_view(remote),
        e@.mode == mode,
        e@.rclone == (if clear_rclone {
            Some(None)
        } else {
            match rclone {
                Some(r) => Some(Some(r@)),
                None => None,
            }
        }),
        e@.extra_flags == list_edit(extra_flags.deep_view(), clear_flags),
        e@.extra_ignore == list_edit(extra_ignore.deep_view(), clear_ignore),
        e@.enabled is None,
{
    let rc: Option<Option<String>> = if clear_rclone {
        Some(None)
    } else {
        match rclone {
            Some(r) => Some(Some(r)),
            None => None,
        }
    };
    ProfileEdit {
        local,
        remote,
        mode,
        rclone: rc,
        extra_flags: list_edit_of(extra_flags, clear_flags),
        extra_ignore: list_edit_of(extra_ignore, clear_ignore),
        enabled: None,
    }
}

/// `name<TAB>mode<TAB>local<TAB>-><TAB>remote`, as `profile list` prints it.
pub fn profile_list_line(p: &Profile) -> (s: String)
    ensures
        s@ == p.name@ + seq!['\t'] + mode_name(p.mode) + seq!['\t'] + p.local@ + "\t->\t"@
            + p.remote@,
{
    let mut s = p.name.clone();
    push_char(&mut s, '\t');
    s.append(p.mode.as_str());
    push_char(&mut s, '\t');
    s.append(p.local.as_str());
    s.append("\t->\t");
    s.append(p.remote.as_str());
    s
}

/// The scheduler kind: the one named with `--kind`, else the host's.
pub fn schedule_kind(kind: Option<&str>, is_macos: bool) -> (r: Result<ScheduleKind, Error>)
    ensures
        kind is None ==> r == Ok::<ScheduleKind, Error>(ScheduleKind::default_for_host_spec(is_macos)),
        kind matches Some(k) ==> (r matches Ok(x) ==> kind_name(x) == k@),
        kind matches Some(k) ==> ((k@ == "systemd"@ || k@ == "launchd"@) <==> r is Ok),
        kind matches Some(k) ==> (!(k@ == "systemd"@ || k@ == "launchd"@) ==> fails_with(
            r,
            ErrorView::InvalidScheduleKind(k@),
        )),
{
    match kind {
        Some(s) => ScheduleKind::parse(s),
        None => Ok(ScheduleKind::default_for_host(is_macos)),
    }
}

} // verus!
