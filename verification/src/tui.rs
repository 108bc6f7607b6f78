//! Decisions of the interactive view: keys, selection, the log window, and
//! the text of the marks and the state pane.

use vstd::prelude::*;

use crate::profile::{mode_name, Profile};
use crate::progress::{summary_of, TransferProgress};
use crate::status::{age_at, age_label_at, LastRun};
use crate::text::{cat, dec, dec_int, owned, push_dec, push_dec_i64};

verus! {

/// The visible slice `[start, end)` of a log of `len` lines in a pane of
/// `height` lines (at least one), scrolled `offset` lines up from the tail.
pub open spec fn window(len: nat, height: nat, offset: nat) -> (nat, nat) {
    let inner = if height < 1 {
        1
    } else {
        height
    };
    let max_off = if len > inner {
        (len - inner) as nat
    } else {
        0
    };
    let off = if offset < max_off {
        offset
    } else {
        max_off
    };
    let end = (len - off) as nat;
    let start = if end > inner {
        (end - inner) as nat
    } else {
        0
    };
    (start, end)
}

/// The log lines `[start, end)` to show.
pub fn log_window(len: usize, height: usize, offset: usize) -> (r: (usize, usize))
    ensures
        (r.0 as nat, r.1 as nat) == window(len as nat, height as nat, offset as nat),
        r.0 <= r.1 <= len,
{
    let inner: usize = if height < 1 {
        1
    } else {
        height
    };
    let max_off: usize = if len > inner {
        len - inner
    } else {
        0
    };
    let off: usize = if offset < max_off {
        offset
    } else {
        max_off
    };
    let end: usize = len - off;
    let start: usize = if end > inner {
        end - inner
    } else {
        0
    };
    (start, end)
}

/// The scroll offset after moving `pages` pages (up when positive), kept
/// between the tail (0) and the top of the log.
pub open spec fn scrolled(len: nat, height: nat, offset: nat, pages: int) -> nat {
    let inner = if height < 1 {
        1
    } else {
        height
    };
    let max_off = if len > inner {
        len - inner
    } else {
        0
    };
    let next = offset + pages * inner;
    if next < 0 {
        0
    } else if next > max_off {
        max_off as nat
    } else {
        next as nat
    }
}

/// The offset after scrolling `pages` pages.
pub fn scroll_offset(len: usize, height: usize, offset: usize, pages: i32) -> (r: usize)
    requires
        len <= i32::MAX,
        height <= i32::MAX,
        offset <= i32::MAX,
        i32::MIN <= offset + pages * (if height < 1 {
            1int
        } else {
            height as int
        }) <= i32::MAX,
        i32::MIN <= pages * (if height < 1 {
            1int
        } else {
            height as int
        }) <= i32::MAX,
    ensures
        r as nat == scrolled(len as nat, height as nat, offset as nat, pages as int),
{
    let inner: usize = if height < 1 {
        1
    } else {
        height
    };
    let max_off: usize = if len > inner {
        len - inner
    } else {
        0
    };
    let delta: i64 = (pages as i64) * (inner as i64);
    let next: i64 = offset as i64 + delta;
    if next < 0 {
        0
    } else if next > max_off as i64 {
        max_off
    } else {
        next as usize
    }
}

/// The selection after moving `delta` rows through `len` rows, wrapping
/// around; with no rows nothing changes.
pub open spec fn moved(len: nat, selected: Option<nat>, delta: int) -> Option<nat> {
    if len == 0 {
        selected
    } else {
        let cur = match selected {
            Some(s) => s as int,
            None => 0,
        };
        Some(((cur + delta) % (len as int)) as nat)
    }
}

/// The new selection after `j`/`k`.
pub fn move_selection(len: usize, selected: Option<usize>, delta: i32) -> (r: Option<usize>)
    requires
        len <= i32::MAX,
        selected matches Some(s) ==> s <= i32::MAX,
    ensures
        match r {
            Some(x) => moved(len as nat, match selected {
                Some(s) => Some(s as nat),
                None => None,
            }, delta as int) == Some(x as nat),
            None => moved(len as nat, match selected {
                Some(s) => Some(s as nat),
                None => None,
            }, delta as int) is None,
        },
        r matches Some(x) ==> len == 0 || x < len,
{
    if len == 0 {
        return selected;
    }
    let cur: i64 = match selected {
        Some(s) => s as i64,
        None => 0,
    };
    let x: i64 = cur + delta as i64;
    let l: u64 = len as u64;
    let e: u64 = if x >= 0 {
        let r: u64 = (x as u64) % l;
        proof {
            lemma_nonneg_mod(x as int, l as int, r as int);
        }
        r
    } else {
        let y: u64 = (-x) as u64;
        let r: u64 = y % l;
        proof {
            lemma_neg_mod(y as int, l as int, r as int);
        }
        if r == 0 {
            0
        } else {
            l - r
        }
    };
    Some(e as usize)
}

proof fn lemma_nonneg_mod(x: int, l: int, r: int)
    requires
        x >= 0,
        l > 0,
        r == x % l,
    ensures
        r == x % l,
{
}

proof fn lemma_neg_mod(y: int, l: int, r: int)
    requires
        y > 0,
        l > 0,
        r == y % l,
    ensures
        (-y) % l == if r == 0 {
            0
        } else {
            l - r
        },
{
    vstd::arithmetic::div_mod::lemma_fundamental_div_mod(y, l);
    let q = y / l;
    assert(0 <= r < l);
    if r == 0 {
        assert(-y == (-q) * l + 0) by (nonlinear_arith)
            requires
                y == l * q + r,
                r == 0,
        ;
        vstd::arithmetic::div_mod::lemma_fundamental_div_mod_converse(-y, l, -q, 0);
    } else {
        assert(-y == (-q - 1) * l + (l - r)) by (nonlinear_arith)
            requires
                y == l * q + r,
        ;
        vstd::arithmetic::div_mod::lemma_fundamental_div_mod_converse(-y, l, -q - 1, l - r);
    }
}

/// The log after adding `line`: the last 500 lines are kept.
pub open spec fn logged(log: Seq<Seq<char>>, line: Seq<char>) -> Seq<Seq<char>> {
    let all = log.push(line);
    if all.len() > 500 {
        all.skip(all.len() - 500)
    } else {
        all
    }
}

/// Appends `line` to the log, dropping the oldest lines beyond 500.
pub fn push_log(log: &mut Vec<String>, line: String)
    ensures
        final(log).deep_view() == logged(old(log).deep_view(), line@),
{
    let ghost all = old(log).deep_view().push(line@);
    log.push(line);
    assert(log.deep_view() =~= all);
    if log.len() > 500 {
        let extra: usize = log.len() - 500;
        let mut kept: Vec<String> = Vec::new();
        let n: usize = log.len();
        let mut i: usize = extra;
        while i < n
            invariant
                n == log@.len(),
                log.deep_view() == all,
                extra == n - 500,
                extra <= i <= n,
                kept.deep_view() == all.subrange(extra as int, i as int),
            decreases n - i,
        {
            let ghost before = kept.deep_view();
            kept.push(log[i].clone());
            assert(kept.deep_view() =~= before.push(all[i as int]));
            assert(kept.deep_view() =~= all.subrange(extra as int, i + 1));
            i = i + 1;
        }
        assert(all.subrange(extra as int, n as int) =~= all.skip(extra as int));
        *log = kept;
    }
}

/// A key the view reacts to.
#[derive(Clone, Copy, Debug, PartialEq, Eq, Structural)]
pub enum Key {
    Char(char),
    Esc,
    Up,
    Down,
    PageUp,
    PageDown,
    Enter,
    Other,
}

/// What a key asks the view to do.
#[derive(Clone, Copy, Debug, PartialEq, Eq, Structural)]
pub enum UiAction {
    Quit,
    ShowHelp(bool),
    Move(i32),
    Scroll(i32),
    Reload,
    Toggle { dry_run: bool },
    Nothing,
}

/// The action for `key`: while help shows, only quit and closing help count.
pub open spec fn action_for(help: bool, key: Key) -> UiAction {
    if key == Key::Char('q') || key == Key::Esc {
        UiAction::Quit
    } else if key == Key::Char('?') || key == Key::Char('h') {
        UiAction::ShowHelp(!help)
    } else if help {
        UiAction::Nothing
    } else if key == Key::Char('j') || key == Key::Down {
        UiAction::Move(1)
    } else if key == Key::Char('k') || key == Key::Up {
        UiAction::Move(-1i32)
    } else if key == Key::PageUp {
        UiAction::Scroll(1)
    } else if key == Key::PageDown {
        UiAction::Scroll(-1i32)
    } else if key == Key::Char('r') {
        UiAction::Reload
    } else if key == Key::Enter {
        UiAction::Toggle { dry_run: false }
    } else if key == Key::Char('d') {
        UiAction::Toggle { dry_run: true }
    } else {
        UiAction::Nothing
    }
}

/// Maps a key press to an action.
pub fn key_action(help: bool, key: Key) -> (a: UiAction)
    ensures
        a == action_for(help, key),
{
    match key {
        Key::Char('q') | Key::Esc => UiAction::Quit,
        Key::Char('?') | Key::Char('h') => UiAction::ShowHelp(!help),
        _ => {
            if help {
                return UiAction::Nothing;
            }
            match key {
                Key::Char('j') | Key::Down => UiAction::Move(1),
                Key::Char('k') | Key::Up => UiAction::Move(-1),
                Key::PageUp => UiAction::Scroll(1),
                Key::PageDown => UiAction::Scroll(-1),
                Key::Char('r') => UiAction::Reload,
                Key::Enter => UiAction::Toggle { dry_run: false },
                Key::Char('d') => UiAction::Toggle { dry_run: true },
                _ => UiAction::Nothing,
            }
        },
    }
}

/// What Enter (or `d`) does: stop the selected profile when it is the one
/// running; otherwise stop whatever runs and start the selected one.
#[derive(Clone, Copy, Debug, PartialEq, Eq, Structural)]
pub enum TogglePlan {
    Nothing,
    Stop,
    Start,
    StopThenStart,
}

/// The plan for the selected and the running profile.
pub open spec fn plan_for(selected: Option<Seq<char>>, running: Option<Seq<char>>) -> TogglePlan {
    match selected {
        None => TogglePlan::Nothing,
        Some(s) => match running {
            Some(r) => if r == s {
                TogglePlan::Stop
            } else {
                TogglePlan::StopThenStart
            },
            None => TogglePlan::Start,
        },
    }
}

/// One rclone child at a time: the plan for Enter on `selected`.
pub fn toggle_plan(selected: Option<&str>, running: Option<&str>) -> (p: TogglePlan)
    ensures
        p == plan_for(match selected {
            Some(s) => Some(s@),
            None => None,
        }, match running {
            Some(r) => Some(r@),
            None => None,
        }),
{
    match selected {
        None => TogglePlan::Nothing,
        Some(s) => match running {
            Some(r) => if crate::text::str_eq(r, s) {
                TogglePlan::Stop
            } else {
                TogglePlan::StopThenStart
            },
            None => TogglePlan::Start,
        },
    }
}

/// The mark after a profile's name: ` running 25%`, ` running`, or nothing.
pub open spec fn mark_text(running: Option<Option<u8>>) -> Seq<char> {
    match running {
        Some(Some(p)) => " running "@ + dec(p as nat) + "%"@,
        Some(None) => " running"@,
        None => Seq::empty(),
    }
}

/// The mark for a profile that runs with the given percent (`Some(None)` when
/// the percent is not known), or does not run (`None`).
pub fn running_mark(running: Option<Option<u8>>) -> (s: String)
    ensures
        s@ == mark_text(running),
{
    match running {
        Some(Some(p)) => {
            let mut s = owned(" running ");
            push_dec(&mut s, p as u64);
            s.append("%");
            s
        },
        Some(None) => owned(" running"),
        None => {
            let s = String::new();
            s
        },
    }
}

/// The `last` line of the state pane.
pub open spec fn last_text(last: Option<LastRun>, now: int) -> Seq<char> {
    match last {
        Some(r) => if r.ok {
            "ok "@ + age_at(r.finished_at_unix as int, now) + " ("@ + r.finished_at@ + ")"@
        } else {
            "exit "@ + dec_int(r.exit_code as int) + seq![' '] + age_at(r.finished_at_unix as int, now)
                + " ("@ + r.finished_at@ + ")"@
        },
        None => "never"@,
    }
}

/// The lines of the state pane for `profile`: name, mode, local, remote, the
/// rclone line, the last run (aged at `now`), running or idle, and the live
/// transfer when there is one.
pub open spec fn detail_text(
    p: Profile,
    last: Option<LastRun>,
    now: int,
    rclone: Seq<char>,
    xfer: Option<TransferProgress>,
    running: bool,
) -> Seq<Seq<char>> {
    let base = seq![
        p.name@,
        "mode    "@ + mode_name(p.mode),
        "local   "@ + p.local@,
        "remote  "@ + p.remote@,
        "rclone  "@ + rclone,
        "last    "@ + last_text(last, now),
        "state   "@ + if xfer is Some || running {
            "running"@
        } else {
            "idle"@
        },
    ];
    match xfer {
        Some(x) => {
            let with_summary = base.push(
                "xfer    "@ + summary_of(x.bytes, x.total_bytes, x.percent, x.speed_bps, x.eta_secs),
            );
            match x.file {
                Some(f) => with_summary.push("file    "@ + f@),
                None => with_summary,
            }
        },
        None => base,
    }
}

/// The lines of the state pane.
pub fn detail_lines(
    p: &Profile,
    last: Option<&LastRun>,
    now: i64,
    rclone: &str,
    xfer: Option<&TransferProgress>,
    running: bool,
) -> (v: Vec<String>)
    ensures
        v.deep_view() == detail_text(*p, match last {
            Some(l) => Some(*l),
            None => None,
        }, now as int, rclone@, match xfer {
            Some(x) => Some(*x),
            None => None,
        }, running),
{
    let last_line = match last {
        Some(r) => {
            if r.ok {
                let mut s = owned("ok ");
                s.append(age_label_at(r.finished_at_unix, now).as_str());
                s.append(" (");
                s.append(r.finished_at.as_str());
                s.append(")");
                s
            } else {
                let mut s = owned("exit ");
                push_dec_i64(&mut s, r.exit_code as i64);
                s.append(" ");
                s.append(age_label_at(r.finished_at_unix, now).as_str());
                s.append(" (");
                s.append(r.finished_at.as_str());
                s.append(")");
                proof {
                    reveal_strlit(" ");
                    assert(" "@ =~= seq![' ']);
                }
                s
            }
        },
        None => owned("never"),
    };
    let state = if xfer.is_some() || running {
        "running"
    } else {
        "idle"
    };
    let mut v: Vec<String> = vec![
        p.name.clone(),
        cat("mode    ", p.mode.as_str()),
        cat("local   ", p.local.as_str()),
        cat("remote  ", p.remote.as_str()),
        cat("rclone  ", rclone),
        cat("last    ", last_line.as_str()),
        cat("state   ", state),
    ];
    let ghost base = v.deep_view();
    if let Some(x) = xfer {
        let line = cat("xfer    ", x.summary().as_str());
        v.push(line);
        assert(v.deep_view() =~= base.push(line@));
        if let Some(f) = &x.file {
            let ghost b2 = v.deep_view();
            let fl = cat("file    ", f.as_str());
            v.push(fl);
            assert(v.deep_view() =~= b2.push(fl@));
        }
    }
    assert(v.deep_view() =~= detail_text(*p, match last {
        Some(l) => Some(*l),
        None => None,
    }, now as int, rclone@, match xfer {
        Some(x) => Some(*x),
        None => None,
    }, running));
    v
}

/// The row to select after the rows are reloaded: the first row named like
/// the profile selected before, else the first row, else none.
pub open spec fn reselected(names: Seq<Seq<char>>, previous: Option<Seq<char>>) -> Option<int> {
    let first = if names.len() > 0 {
        Some(0int)
    } else {
        None
    };
    match previous {
        Some(p) => match names.index_of_first(p) {
            Some(i) => Some(i),
            None => first,
        },
        None => first,
    }
}

/// The selection after a reload, for the reloaded profile `names`.
pub fn reselect(names: &Vec<String>, previous: Option<&str>) -> (r: Option<usize>)
    ensures
        match r {
            Some(i) => reselected(names.deep_view(), match previous {
                Some(p) => Some(p@),
                None => None,
            }) == Some(i as int),
            None => reselected(names.deep_view(), match previous {
                Some(p) => Some(p@),
                None => None,
            }) is None,
        },
{
    if let Some(p) = previous {
        let mut i: usize = 0;
        while i < names.len()
            invariant
                i <= names.len(),
                previous == Some(p),
                forall|k: int| 0 <= k < i ==> #[trigger] names.deep_view()[k] != p@,
            decreases names.len() - i,
        {
            if crate::text::str_eq(names[i].as_str(), p) {
                proof {
                    let dv = names.deep_view();
                    assert(dv[i as int] == names[i as int]@);
                    assert(dv.contains(p@));
                    dv.index_of_first_ensures(p@);
                    let idx = dv.index_of_first(p@)->0;
                    if idx < i {
                        assert(dv[idx] != p@);
                    } else if idx > i {
                        assert(dv[i as int] != p@);
                    }
                    assert(idx == i);
                    assert(dv.index_of_first(p@) == Some(i as int));
                }
                return Some(i);
            }
            assert(names.deep_view()[i as int] == names[i as int]@);
            i = i + 1;
        }
        proof {
            let dv = names.deep_view();
            dv.index_of_first_ensures(p@);
            if dv.contains(p@) {
                let k = choose|k: int| 0 <= k < dv.len() && dv[k] == p@;
                assert(dv[k] != p@);
            }
        }
    }
    if names.len() > 0 {
        Some(0)
    } else {
        None
    }
}

/// Moving down and then up returns to the same row.
pub proof fn move_down_then_up(len: nat, s: nat)
    requires
        s < len,
    ensures
        moved(len, moved(len, Some(s), 1), -1) == Some(s),
{
    let a = (s + 1) as int % (len as int);
    if s + 1 < len {
        vstd::arithmetic::div_mod::lemma_fundamental_div_mod_converse((s + 1) as int, len as int, 0, (s + 1) as int);
        assert(a == s + 1);
        vstd::arithmetic::div_mod::lemma_fundamental_div_mod_converse(s as int, len as int, 0, s as int);
    } else {
        vstd::arithmetic::div_mod::lemma_fundamental_div_mod_converse((s + 1) as int, len as int, 1, 0);
        assert(a == 0);
        vstd::arithmetic::div_mod::lemma_fundamental_div_mod_converse(-1, len as int, -1, (len - 1) as int);
    }
}

/// The window always shows at most `height` (at least one) lines, and pins
/// to the newest lines when not scrolled.
pub proof fn window_bounds(len: nat, height: nat, offset: nat)
    ensures
        window(len, height, offset).0 <= window(len, height, offset).1 <= len,
        window(len, height, offset).1 - window(len, height, offset).0 <= if height < 1 {
            1
        } else {
            height
        },
        window(len, height, 0).1 == len,
{
}


/// The log never grows past 500 lines, and its last line is the one added.
pub proof fn log_stays_bounded(log: Seq<Seq<char>>, line: Seq<char>)
    requires
        log.len() <= 500,
    ensures
        logged(log, line).len() == if log.len() < 500 {
            log.len() + 1
        } else {
            500
        },
        logged(log, line).last() == line,
{
}


/// One rclone child at a time: while a profile runs, Enter never starts a
/// second one beside it; it stops the running one, and starts the selected
/// one only after that.
pub proof fn one_child_at_a_time(selected: Option<Seq<char>>, running: Seq<char>)
    ensures
        plan_for(selected, Some(running)) != TogglePlan::Start,
        plan_for(selected, Some(running)) == TogglePlan::Stop <==> selected == Some(running),
{
}

} // verus!
