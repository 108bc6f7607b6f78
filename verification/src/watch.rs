//! Watch decisions: which changed paths wake a sync, and the debounce timer.

use vstd::prelude::*;

use crate::ignore::{excluded, FilterSet};
use crate::text::{chars_of, join, split, split_str, str_eq, ends_with_char, push_char, cat};

verus! {

/// Whether a `/`-separated piece is a path component (not empty, not `.`).
pub open spec fn keep_comp(c: Seq<char>) -> bool {
    c.len() > 0 && c != seq!['.']
}

/// The components among `parts`, in order.
pub open spec fn comps_of(parts: Seq<Seq<char>>) -> Seq<Seq<char>>
    decreases parts.len(),
{
    if parts.len() == 0 {
        Seq::empty()
    } else {
        let f = comps_of(parts.drop_last());
        if keep_comp(parts.last()) {
            f.push(parts.last())
        } else {
            f
        }
    }
}

/// A `.` that begins a relative path, which counts as a component of its own.
pub open spec fn lead_dot(parts: Seq<Seq<char>>) -> Seq<Seq<char>> {
    if parts.len() > 0 && parts[0] == seq!['.'] {
        seq![seq!['.']]
    } else {
        Seq::empty()
    }
}

/// The components of a `/`-separated path: repeated `/` and `.` do not count,
/// except a `.` that begins a relative path (`./docs` is `.` then `docs`).
pub open spec fn components(p: Seq<char>) -> Seq<Seq<char>> {
    let parts = split(p, '/');
    lead_dot(parts) + comps_of(parts)
}

/// Whether a path starts at the root.
pub open spec fn rooted(p: Seq<char>) -> bool {
    p.len() > 0 && p[0] == '/'
}

/// `\` read as `/`.
pub open spec fn slashes(s: Seq<char>) -> Seq<char> {
    s.map_values(|c: char| if c == '\\' { '/' } else { c })
}

/// Whether piece `i` of a split path is a component: any piece but an empty
/// one or `.`, and a `.` that begins the path.
pub open spec fn comp_at(parts: Seq<Seq<char>>, i: int) -> bool {
    keep_comp(parts[i]) || (i == 0 && parts[0] == seq!['.'])
}

/// The index of the piece after the `k`-th component counted from piece `i`
/// (the end when the pieces run out first).
pub open spec fn after_comps(parts: Seq<Seq<char>>, i: int, k: nat) -> int
    decreases parts.len() - i,
{
    if k == 0 {
        i
    } else if i < 0 || i >= parts.len() {
        parts.len() as int
    } else if comp_at(parts, i) {
        after_comps(parts, i + 1, (k - 1) as nat)
    } else {
        after_comps(parts, i + 1, k)
    }
}

/// The first piece from `i` on that is a component (empty pieces and `.`
/// are skipped), or the end.
pub open spec fn first_keep(parts: Seq<Seq<char>>, i: int) -> int
    decreases parts.len() - i,
{
    if i < 0 || i >= parts.len() {
        parts.len() as int
    } else if keep_comp(parts[i]) {
        i
    } else {
        first_keep(parts, i + 1)
    }
}

/// The end of the pieces `[lo, j)` once trailing empty pieces and `.` are
/// dropped.
pub open spec fn keep_end(parts: Seq<Seq<char>>, lo: int, j: int) -> int
    decreases j - lo,
{
    if j <= lo {
        lo
    } else if keep_comp(parts[j - 1]) {
        j
    } else {
        keep_end(parts, lo, j - 1)
    }
}

/// The text of `path` left once the first `k` components (and the root of a
/// rooted path) are taken off, as `Path::strip_prefix` gives it: the text is
/// kept as written, with separators and `.` trimmed at both ends only.
pub open spec fn rest_text(path: Seq<char>, k: nat) -> Seq<char> {
    let parts = split(path, '/');
    let a = first_keep(parts, after_comps(parts, 0, k));
    join(parts.subrange(a, keep_end(parts, a, parts.len() as int)), seq!['/'])
}

/// The whole of `path` with trailing separators and `.` trimmed, but never
/// its root or a leading `.`: what stripping an empty prefix gives.
pub open spec fn whole_text(path: Seq<char>) -> Seq<char> {
    let parts = split(path, '/');
    let n = parts.len() as int;
    let floor = if rooted(path) {
        if n < 2 {
            n
        } else {
            2
        }
    } else if n > 0 && parts[0] == seq!['.'] {
        1
    } else {
        0
    };
    let e = keep_end(parts, 0, n);
    join(parts.subrange(0, if e < floor { floor } else { e }), seq!['/'])
}

/// `path` relative to `root`, as `Path::strip_prefix` gives it with `\`
/// read as `/`: an empty `root` begins every path; otherwise both must be
/// rooted or both not, and `root`'s components must begin `path`'s.
pub open spec fn relative(root: Seq<char>, path: Seq<char>) -> Option<Seq<char>> {
    let rc = components(root);
    let pc = components(path);
    if !rooted(root) && rc.len() == 0 {
        Some(slashes(whole_text(path)))
    } else if rooted(root) == rooted(path) && rc.len() <= pc.len() && pc.subrange(0, rc.len() as int)
        == rc {
        Some(slashes(rest_text(path, rc.len())))
    } else {
        None
    }
}

/// Whether a change at `path` under the watched `root` wakes a sync: not when
/// the path is outside the root, not when the filters exclude it, and not when
/// it names a directory that the filters exclude.
pub open spec fn should_wake(rules: Seq<crate::ignore::RuleView>, root: Seq<char>, path: Seq<char>) -> bool {
    match relative(root, path) {
        None => false,
        Some(s) => {
            if s.len() == 0 {
                true
            } else if excluded(rules, s) {
                false
            } else if !(s.last() == '/') && excluded(rules, s.push('/')) {
                false
            } else {
                true
            }
        },
    }
}

/// The components of `p`.
pub fn path_components(p: &str) -> (r: Vec<String>)
    ensures
        r.deep_view() == components(p@),
{
    let parts = split_str(p, '/');
    let mut r: Vec<String> = Vec::new();
    let n: usize = parts.len();
    let mut i: usize = 0;
    while i < n
        invariant
            n == parts@.len(),
            parts.deep_view() == split(p@, '/'),
            i <= n,
            r.deep_view() == comps_of(parts.deep_view().subrange(0, i as int)),
        decreases n - i,
    {
        let part = &parts[i];
        let ghost dv = parts.deep_view();
        assert(dv.subrange(0, i + 1).drop_last() =~= dv.subrange(0, i as int));
        assert(dv.subrange(0, i + 1).last() == part@);
        let ps: &str = part.as_str();
        let len: usize = ps.unicode_len();
        let dot: bool = len == 1 && ps.get_char(0) == '.';
        proof {
            if len == 1 && ps@[0] == '.' {
                assert(ps@ =~= seq!['.']);
            }
            if ps@ == seq!['.'] {
                assert(ps@[0] == '.');
            }
        }
        if len > 0 && !dot {
            let ghost before = r.deep_view();
            r.push(part.clone());
            assert(r.deep_view() =~= before.push(part@));
        }
        i = i + 1;
    }
    assert(parts.deep_view().subrange(0, n as int) =~= parts.deep_view());
    let lead: bool = n > 0 && parts[0].as_str().unicode_len() == 1 && parts[0].as_str().get_char(0)
        == '.';
    proof {
        let dv = parts.deep_view();
        if n > 0 {
            assert(dv[0] == parts[0]@);
            if dv[0] == seq!['.'] {
                assert(dv[0][0] == '.');
            }
            if lead {
                assert(dv[0] =~= seq!['.']);
            }
        }
    }
    if lead {
        let ghost before = r.deep_view();
        let dot = crate::text::owned(".");
        proof {
            reveal_strlit(".");
            assert(dot@ =~= seq!['.']);
        }
        r.insert(0, dot);
        assert(r.deep_view() =~= seq![seq!['.']] + before);
    } else {
        assert(r.deep_view() =~= Seq::<Seq<char>>::empty() + r.deep_view());
    }
    r
}

fn is_keep(p: &str) -> (r: bool)
    ensures
        r == keep_comp(p@),
{
    let len: usize = p.unicode_len();
    let dot: bool = len == 1 && p.get_char(0) == '.';
    proof {
        if len == 1 && p@[0] == '.' {
            assert(p@ =~= seq!['.']);
        }
        if p@ == seq!['.'] {
            assert(p@[0] == '.');
        }
    }
    len > 0 && !dot
}

fn is_dot(p: &str) -> (r: bool)
    ensures
        r == (p@ == seq!['.']),
{
    let len: usize = p.unicode_len();
    let r = len == 1 && p.get_char(0) == '.';
    proof {
        if r {
            assert(p@ =~= seq!['.']);
        }
        if p@ == seq!['.'] {
            assert(p@[0] == '.');
        }
    }
    r
}

fn after_comps_of(parts: &Vec<String>, k: usize) -> (r: usize)
    ensures
        r as int == after_comps(parts.deep_view(), 0, k as nat),
        r <= parts.len(),
{
    let n: usize = parts.len();
    let mut i: usize = 0;
    let mut c: usize = 0;
    while c < k && i < n
        invariant
            n == parts.deep_view().len(),
            i <= n,
            c <= k,
            after_comps(parts.deep_view(), 0, k as nat) == after_comps(
                parts.deep_view(),
                i as int,
                (k - c) as nat,
            ),
        decreases n - i,
    {
        let ghost dv = parts.deep_view();
        assert(dv[i as int] == parts[i as int]@);
        let here: bool = if i == 0 {
            is_keep(parts[i].as_str()) || is_dot(parts[i].as_str())
        } else {
            is_keep(parts[i].as_str())
        };
        assert(here == comp_at(dv, i as int));
        if here {
            c = c + 1;
        }
        i = i + 1;
    }
    i
}

fn first_keep_of(parts: &Vec<String>, from: usize) -> (r: usize)
    requires
        from <= parts.len(),
    ensures
        r as int == first_keep(parts.deep_view(), from as int),
        from <= r <= parts.len(),
{
    let n: usize = parts.len();
    let mut i: usize = from;
    while i < n && !is_keep(parts[i].as_str())
        invariant
            n == parts.deep_view().len(),
            from <= i <= n,
            first_keep(parts.deep_view(), from as int) == first_keep(parts.deep_view(), i as int),
        decreases n - i,
    {
        assert(parts.deep_view()[i as int] == parts[i as int]@);
        i = i + 1;
    }
    if i < n {
        assert(parts.deep_view()[i as int] == parts[i as int]@);
    }
    i
}

fn keep_end_of(parts: &Vec<String>, lo: usize) -> (r: usize)
    requires
        lo <= parts.len(),
    ensures
        r as int == keep_end(parts.deep_view(), lo as int, parts.len() as int),
        lo <= r <= parts.len(),
{
    let mut j: usize = parts.len();
    while j > lo && !is_keep(parts[j - 1].as_str())
        invariant
            lo <= j <= parts.len(),
            keep_end(parts.deep_view(), lo as int, parts.len() as int) == keep_end(
                parts.deep_view(),
                lo as int,
                j as int,
            ),
        decreases j - lo,
    {
        assert(parts.deep_view()[j - 1] == parts[j - 1]@);
        j = j - 1;
    }
    if j > lo {
        assert(parts.deep_view()[j - 1] == parts[j - 1]@);
    }
    j
}

/// The pieces `[a, b)` joined with `/`, each `\` read as `/`.
fn joined_range(parts: &Vec<String>, a: usize, b: usize) -> (r: String)
    requires
        a <= b <= parts.len(),
    ensures
        r@ == slashes(join(parts.deep_view().subrange(a as int, b as int), seq!['/'])),
{
    let mut rest: Vec<String> = Vec::new();
    let mut j: usize = a;
    while j < b
        invariant
            a <= j <= b,
            b <= parts.len(),
            rest.deep_view() == parts.deep_view().subrange(a as int, j as int),
        decreases b - j,
    {
        let ghost before = rest.deep_view();
        rest.push(parts[j].clone());
        assert(rest.deep_view() =~= before.push(parts.deep_view()[j as int]));
        assert(rest.deep_view() =~= parts.deep_view().subrange(a as int, j + 1));
        j = j + 1;
    }
    let joined = crate::text::join_strings(&rest, "/");
    proof {
        reveal_strlit("/");
        assert("/"@ =~= seq!['/']);
    }
    let v = chars_of(joined.as_str());
    let mut out = String::new();
    let n: usize = v.len();
    let mut q: usize = 0;
    while q < n
        invariant
            n == v@.len(),
            q <= n,
            out@ == slashes(v@.subrange(0, q as int)),
        decreases n - q,
    {
        let c: char = if v[q] == '\\' {
            '/'
        } else {
            v[q]
        };
        push_char(&mut out, c);
        q = q + 1;
        assert(out@ =~= slashes(v@.subrange(0, q as int)));
    }
    assert(v@.subrange(0, n as int) =~= v@);
    out
}

/// `path` relative to `root`, as `Path::strip_prefix` gives it, or `None` when
/// `root` does not begin `path`.
pub fn relative_to_root(root: &str, path: &str) -> (r: Option<String>)
    ensures
        match r {
            Some(s) => relative(root@, path@) == Some(s@),
            None => relative(root@, path@) is None,
        },
{
    let rc = path_components(root);
    let rr: bool = root.unicode_len() > 0 && root.get_char(0) == '/';
    let pr: bool = path.unicode_len() > 0 && path.get_char(0) == '/';
    let parts = split_str(path, '/');
    let n: usize = parts.len();
    if !rr && rc.len() == 0 {
        let lead: bool = n > 0 && is_dot(parts[0].as_str());
        proof {
            if n > 0 {
                assert(parts.deep_view()[0] == parts[0]@);
            }
        }
        let floor: usize = if pr {
            if n < 2 {
                n
            } else {
                2
            }
        } else if lead {
            1
        } else {
            0
        };
        let e = keep_end_of(&parts, 0);
        let b: usize = if e < floor {
            floor
        } else {
            e
        };
        return Some(joined_range(&parts, 0, b));
    }
    let pc = path_components(path);
    if rr != pr || rc.len() > pc.len() {
        return None;
    }
    let k: usize = rc.len();
    let mut i: usize = 0;
    while i < k
        invariant
            k == rc@.len(),
            k <= pc@.len(),
            rc.deep_view() == components(root@),
            pc.deep_view() == components(path@),
            i <= k,
            forall|j: int| 0 <= j < i ==> rc.deep_view()[j] == pc.deep_view()[j],
        decreases k - i,
    {
        if !str_eq(rc[i].as_str(), pc[i].as_str()) {
            proof {
                assert(pc.deep_view().subrange(0, k as int)[i as int] != rc.deep_view()[i as int]);
            }
            return None;
        }
        i = i + 1;
    }
    assert(pc.deep_view().subrange(0, k as int) =~= rc.deep_view());
    let j = after_comps_of(&parts, k);
    let a = first_keep_of(&parts, j);
    let b = keep_end_of(&parts, a);
    Some(joined_range(&parts, a, b))
}

/// Whether a change reported at `path` should wake the watch on `root`.
pub fn path_should_wake(filters: &FilterSet, root: &str, path: &str) -> (r: bool)
    ensures
        r == should_wake(filters@, root@, path@),
{
    let s = match relative_to_root(root, path) {
        Some(s) => s,
        None => return false,
    };
    let ss: &str = s.as_str();
    if ss.unicode_len() == 0 {
        return true;
    }
    if filters.is_excluded(ss) {
        return false;
    }
    if !ends_with_char(ss, '/') {
        let mut dir = s.clone();
        push_char(&mut dir, '/');
        if filters.is_excluded(dir.as_str()) {
            return false;
        }
    }
    true
}

/// The kind of a file-system event, as far as waking is concerned.
#[derive(Clone, Copy, Debug, PartialEq, Eq, Structural)]
pub enum ChangeKind {
    /// The file was read or opened.
    Access,
    /// Only metadata (times, permissions) changed.
    Metadata,
    /// Anything else: created, data written, renamed, removed.
    Content,
}

/// Whether an event of `kind` can change what a sync would copy: reads and
/// metadata-only changes cannot.
pub fn is_content_change(kind: ChangeKind) -> (r: bool)
    ensures
        r == (kind == ChangeKind::Content),
{
    match kind {
        ChangeKind::Content => true,
        _ => false,
    }
}

/// Debounce state: the wait, and the instant (in milliseconds) at which a
/// pending change becomes ready.
pub struct DebounceView {
    pub wait: nat,
    pub deadline: Option<nat>,
}

/// The state after a change at `now`: ready `wait` after the latest change.
pub open spec fn poke_spec(d: DebounceView, now: nat) -> DebounceView {
    DebounceView { wait: d.wait, deadline: Some(now + d.wait) }
}

/// Whether the pending change is ready at `now`, and the state after asking.
pub open spec fn take_spec(d: DebounceView, now: nat) -> (bool, DebounceView) {
    match d.deadline {
        Some(t) => if now >= t {
            (true, DebounceView { wait: d.wait, deadline: None })
        } else {
            (false, d)
        },
        None => (false, d),
    }
}

/// Quiet-period timer: each change restarts the wait; the change fires once,
/// after the wait has passed without a further change.
#[derive(Clone, Debug)]
pub struct Debouncer {
    wait_ms: u64,
    deadline: Option<u64>,
}

impl View for Debouncer {
    type V = DebounceView;

    closed spec fn view(&self) -> DebounceView {
        DebounceView {
            wait: self.wait_ms as nat,
            deadline: match self.deadline {
                Some(t) => Some(t as nat),
                None => None,
            },
        }
    }
}

impl Debouncer {
    /// Nothing pending; changes wait `wait_ms` milliseconds.
    pub fn new(wait_ms: u64) -> (d: Debouncer)
        ensures
            d@ == (DebounceView { wait: wait_ms as nat, deadline: None }),
    {
        Debouncer { wait_ms, deadline: None }
    }

    /// The quiet period, in milliseconds.
    pub fn wait_ms(&self) -> (w: u64)
        ensures
            w == self@.wait,
    {
        self.wait_ms
    }

    /// Records a change at `now` (milliseconds).
    pub fn poke(&mut self, now: u64)
        requires
            now + old(self)@.wait <= u64::MAX,
        ensures
            final(self)@ == poke_spec(old(self)@, now as nat),
    {
        self.deadline = Some(now + self.wait_ms);
    }

    /// True once, when the wait after the latest change has passed by `now`.
    pub fn take_ready(&mut self, now: u64) -> (r: bool)
        ensures
            (r, final(self)@) == take_spec(old(self)@, now as nat),
    {
        match self.deadline {
            Some(d) => {
                if now >= d {
                    self.deadline = None;
                    assert(self@ == (DebounceView { wait: old(self)@.wait, deadline: None }));
                    true
                } else {
                    false
                }
            },
            None => false,
        }
    }

    /// Whether a change is waiting.
    pub fn pending(&self) -> (r: bool)
        ensures
            r == self@.deadline is Some,
    {
        self.deadline.is_some()
    }
}

/// The timer `synctr watch` uses: a quiet period of `debounce_ms`
/// milliseconds, and never less than one.
pub fn watch_debouncer(debounce_ms: u64) -> (d: Debouncer)
    ensures
        d@ == (DebounceView {
            wait: if debounce_ms == 0 {
                1nat
            } else {
                debounce_ms as nat
            },
            deadline: None,
        }),
{
    if debounce_ms == 0 {
        Debouncer::new(1)
    } else {
        Debouncer::new(debounce_ms)
    }
}

/// Whether an event of `kind` reported at `paths` wakes the watch on `root`:
/// it must be a content change, at a path that is not ignored.
pub open spec fn event_wakes(
    rules: Seq<crate::ignore::RuleView>,
    root: Seq<char>,
    kind: ChangeKind,
    paths: Seq<Seq<char>>,
) -> bool {
    kind == ChangeKind::Content && exists|i: int|
        0 <= i < paths.len() && #[trigger] should_wake(rules, root, paths[i])
}

/// Feeds one file-system event, seen at `now` (milliseconds), to the watch's
/// timer. An event that wakes the watch restarts the quiet period; any other
/// leaves the timer as it was. Returns whether the event woke the watch.
pub fn note_event(
    d: &mut Debouncer,
    filters: &FilterSet,
    root: &str,
    kind: ChangeKind,
    paths: &Vec<String>,
    now: u64,
) -> (woke: bool)
    requires
        now + old(d)@.wait <= u64::MAX,
    ensures
        woke == event_wakes(filters@, root@, kind, paths.deep_view()),
        woke ==> final(d)@ == poke_spec(old(d)@, now as nat),
        !woke ==> final(d)@ == old(d)@,
{
    if !is_content_change(kind) {
        return false;
    }
    let mut i: usize = 0;
    while i < paths.len()
        invariant
            i <= paths.len(),
            kind == ChangeKind::Content,
            *d == *old(d),
            now + d@.wait <= u64::MAX,
            forall|k: int| 0 <= k < i ==> !should_wake(filters@, root@, #[trigger] paths.deep_view()[k]),
        decreases paths.len() - i,
    {
        if path_should_wake(filters, root, paths[i].as_str()) {
            assert(paths.deep_view()[i as int] == paths[i as int]@);
            d.poke(now);
            return true;
        }
        assert(paths.deep_view()[i as int] == paths[i as int]@);
        i = i + 1;
    }
    false
}

/// A change fires exactly once: not before the quiet period after it has
/// passed, then once, then not again until the next change.
pub proof fn debounce_fires_once(d: DebounceView, poked: nat, t1: nat, t2: nat)
    requires
        t1 <= t2,
    ensures
        ({
            let p = poke_spec(d, poked);
            let (r1, d1) = take_spec(p, t1);
            let (r2, d2) = take_spec(d1, t2);
            &&& r1 <==> t1 >= poked + d.wait
            &&& r1 ==> !r2 && d1.deadline is None
            &&& !r1 ==> (r2 <==> t2 >= poked + d.wait)
        }),
{
}

/// Only the latest change counts: a later change postpones the wakeup.
pub proof fn debounce_restarts(d: DebounceView, first: nat, second: nat, t: nat)
    requires
        first <= second,
        t < second + d.wait,
    ensures
        !take_spec(poke_spec(poke_spec(d, first), second), t).0,
{
}


/// Ignored paths do not wake the watch, and neither do paths outside its root:
/// an event whose every path is one of these leaves the timer as it was.
pub proof fn ignored_paths_do_not_wake(
    rules: Seq<crate::ignore::RuleView>,
    root: Seq<char>,
    kind: ChangeKind,
    paths: Seq<Seq<char>>,
)
    requires
        forall|i: int|
            0 <= i < paths.len() ==> match #[trigger] relative(root, paths[i]) {
                None => true,
                Some(s) => s.len() > 0 && excluded(rules, s),
            },
    ensures
        !event_wakes(rules, root, kind, paths),
{
    assert forall|i: int| 0 <= i < paths.len() implies !#[trigger] should_wake(rules, root, paths[i]) by {
        assert(relative(root, paths[i]) is None || excluded(rules, relative(root, paths[i])->0));
    }
}

} // verus!
