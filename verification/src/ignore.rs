//! Gitignore-style patterns translated to rclone filter rules, and the
//! rclone matching that decides whether a path is excluded.
//!
//! Rules are tried in order and the first rule whose pattern matches decides:
//! `+` keeps, `-` excludes. A path no rule matches is included.

use vstd::prelude::*;

use crate::text::{
    cat, chars_of, ends_with_char, owned, split, split_str, starts_with_char, trim, trim_str,
};

verus! {

/// rclone glob matching of a whole string: `**` matches anything, `*` any run
/// of characters without `/`, `?` one character other than `/`, and any other
/// character itself.
pub open spec fn glob(p: Seq<char>, s: Seq<char>) -> bool
    decreases p.len(), s.len(),
{
    if p.len() == 0 {
        s.len() == 0
    } else if p.len() >= 2 && p[0] == '*' && p[1] == '*' {
        glob(p.skip(2), s) || (s.len() > 0 && glob(p, s.drop_first()))
    } else if p[0] == '*' {
        glob(p.skip(1), s) || (s.len() > 0 && s[0] != '/' && glob(p, s.drop_first()))
    } else if p[0] == '?' {
        s.len() > 0 && s[0] != '/' && glob(p.skip(1), s.drop_first())
    } else {
        s.len() > 0 && s[0] == p[0] && glob(p.skip(1), s.drop_first())
    }
}

/// Whether `pattern` matches `path` the way rclone filters match: a pattern that
/// starts with `/` is anchored at the root; any other pattern matches the whole
/// path or the part of it after any `/`.
pub open spec fn pattern_matches(pattern: Seq<char>, path: Seq<char>) -> bool {
    if pattern.len() > 0 && pattern[0] == '/' {
        glob(pattern.skip(1), path)
    } else {
        exists|j: int|
            0 <= j <= path.len() && (j == 0 || path[j - 1] == '/') && #[trigger] glob(
                pattern,
                path.skip(j),
            )
    }
}

/// One rclone filter rule: `+ pattern` when `keep`, `- pattern` otherwise.
#[derive(Clone, Debug, PartialEq, Eq)]
pub struct FilterRule {
    pub keep: bool,
    pub pattern: String,
}

/// Plain view of a rule.
pub struct RuleView {
    pub keep: bool,
    pub pattern: Seq<char>,
}

impl View for FilterRule {
    type V = RuleView;

    open spec fn view(&self) -> RuleView {
        RuleView { keep: self.keep, pattern: self.pattern@ }
    }
}

/// Ordered rclone filter rules.
#[derive(Clone, Debug, PartialEq, Eq)]
pub struct FilterSet {
    pub rules: Vec<FilterRule>,
}

impl View for FilterSet {
    type V = Seq<RuleView>;

    open spec fn view(&self) -> Seq<RuleView> {
        self.rules@.map_values(|r: FilterRule| r@)
    }
}

/// The verdict of the first rule that matches `path`: `Some(keep)`, or
/// `None` when no rule matches.
pub open spec fn first_match(rules: Seq<RuleView>, path: Seq<char>) -> Option<bool>
    decreases rules.len(),
{
    if rules.len() == 0 {
        None
    } else if pattern_matches(rules[0].pattern, path) {
        Some(rules[0].keep)
    } else {
        first_match(rules.drop_first(), path)
    }
}

/// Whether the rules exclude `path`: the first matching rule is an exclude.
pub open spec fn excluded(rules: Seq<RuleView>, path: Seq<char>) -> bool {
    first_match(rules, path) == Some(false)
}

/// The rule a gitignore line stands for: `None` for blank lines and comments;
/// `!p` keeps; a trailing `/` (a directory) matches everything below it.
pub open spec fn gitignore_rule(line: Seq<char>) -> Option<RuleView> {
    let t = trim(line);
    if t.len() == 0 || t[0] == '#' {
        None
    } else {
        let keep = t[0] == '!';
        let body = if keep {
            t.drop_first()
        } else {
            t
        };
        if body.len() == 0 {
            None
        } else if body.last() == '/' {
            Some(RuleView { keep, pattern: body + seq!['*', '*'] })
        } else {
            Some(RuleView { keep, pattern: body })
        }
    }
}

/// The rules of gitignore `lines`, in order.
pub open spec fn gitignore_rules(lines: Seq<Seq<char>>) -> Seq<RuleView>
    decreases lines.len(),
{
    if lines.len() == 0 {
        Seq::empty()
    } else {
        let front = gitignore_rules(lines.drop_last());
        match gitignore_rule(lines.last()) {
            Some(r) => front.push(r),
            None => front,
        }
    }
}

/// The default ignore patterns, gitignore syntax.
pub open spec fn default_patterns() -> Seq<Seq<char>> {
    seq![
        seq!['n', 'o', 'd', 'e', '_', 'm', 'o', 'd', 'u', 'l', 'e', 's', '/'],
        seq!['.', 'g', 'i', 't', '/'],
        seq!['t', 'a', 'r', 'g', 'e', 't', '/'],
        seq!['d', 'i', 's', 't', '/'],
        seq!['.', 'D', 'S', '_', 'S', 't', 'o', 'r', 'e'],
        seq!['.', '_', '*'],
        seq!['*', '.', 'p', 'a', 'r', 't', 'i', 'a', 'l'],
    ]
}

/// The rclone filter-file line of a rule.
pub open spec fn rule_line(r: RuleView) -> Seq<char> {
    (if r.keep {
        seq!['+', ' ']
    } else {
        seq!['-', ' ']
    }) + r.pattern + seq!['\n']
}

/// The rclone `--filter-from` text of the rules, one rule per line.
pub open spec fn filter_text(rules: Seq<RuleView>) -> Seq<char>
    decreases rules.len(),
{
    if rules.len() == 0 {
        Seq::empty()
    } else {
        filter_text(rules.drop_last()) + rule_line(rules.last())
    }
}

/// The default ignore patterns (`node_modules/`, `.git/`, `target/`, `dist/`,
/// `.DS_Store`, `._*`, `*.partial`).
pub fn default_patterns_vec() -> (v: Vec<String>)
    ensures
        v.deep_view() == default_patterns(),
{
    let v: Vec<String> = vec![
        owned("node_modules/"),
        owned(".git/"),
        owned("target/"),
        owned("dist/"),
        owned(".DS_Store"),
        owned("._*"),
        owned("*.partial"),
    ];
    proof {
        reveal_strlit("node_modules/");
        reveal_strlit(".git/");
        reveal_strlit("target/");
        reveal_strlit("dist/");
        reveal_strlit(".DS_Store");
        reveal_strlit("._*");
        reveal_strlit("*.partial");
        let dv = v.deep_view();
        let dp = default_patterns();
        assert(dv[0] =~= dp[0]);
        assert(dv[1] =~= dp[1]);
        assert(dv[2] =~= dp[2]);
        assert(dv[3] =~= dp[3]);
        assert(dv[4] =~= dp[4]);
        assert(dv[5] =~= dp[5]);
        assert(dv[6] =~= dp[6]);
        assert(dv =~= dp);
    }
    v
}

fn glob_at(p: &Vec<char>, i: usize, s: &Vec<char>, j: usize) -> (r: bool)
    requires
        i <= p@.len(),
        j <= s@.len(),
    ensures
        r == glob(p@.skip(i as int), s@.skip(j as int)),
    decreases p@.len() - i, s@.len() - j,
{
    let ghost ps = p@.skip(i as int);
    let ghost ss = s@.skip(j as int);
    proof {
        if i < p@.len() {
            assert(ps.skip(1) =~= p@.skip(i + 1));
        }
        if i + 1 < p@.len() {
            assert(ps.skip(2) =~= p@.skip(i + 2));
        }
        if j < s@.len() {
            assert(ss.drop_first() =~= s@.skip(j + 1));
        }
    }
    if i == p.len() {
        return j == s.len();
    }
    let c = p[i];
    if c == '*' && i + 1 < p.len() && p[i + 1] == '*' {
        if glob_at(p, i + 2, s, j) {
            return true;
        }
        if j < s.len() {
            return glob_at(p, i, s, j + 1);
        }
        false
    } else if c == '*' {
        if glob_at(p, i + 1, s, j) {
            return true;
        }
        if j < s.len() && s[j] != '/' {
            return glob_at(p, i, s, j + 1);
        }
        false
    } else if c == '?' {
        j < s.len() && s[j] != '/' && glob_at(p, i + 1, s, j + 1)
    } else {
        j < s.len() && s[j] == c && glob_at(p, i + 1, s, j + 1)
    }
}

/// Whether `pattern` matches `path` as an rclone filter pattern.
pub fn matches_pattern(pattern: &str, path: &str) -> (r: bool)
    ensures
        r == pattern_matches(pattern@, path@),
{
    let p = chars_of(pattern);
    let s = chars_of(path);
    if p.len() > 0 && p[0] == '/' {
        assert(s@.skip(0) =~= s@);
        return glob_at(&p, 1, &s, 0);
    }
    assert(p@.skip(0) =~= p@);
    let n: usize = s.len();
    let mut j: usize = 0;
    while j < n
        invariant
            n == s@.len(),
            p@ == pattern@,
            s@ == path@,
            p@.skip(0) == p@,
            !(pattern@.len() > 0 && pattern@[0] == '/'),
            j <= n,
            forall|k: int|
                0 <= k < j && (k == 0 || path@[k - 1] == '/') ==> !#[trigger] glob(
                    pattern@,
                    path@.skip(k),
                ),
        decreases n - j,
    {
        if j == 0 || s[j - 1] == '/' {
            if glob_at(&p, 0, &s, j) {
                assert(glob(pattern@, path@.skip(j as int)));
                return true;
            }
        }
        j = j + 1;
    }
    if n == 0 || s[n - 1] == '/' {
        if glob_at(&p, 0, &s, n) {
            assert(glob(pattern@, path@.skip(n as int)));
            return true;
        }
    }
    false
}

impl FilterSet {
    /// No rules.
    pub fn empty() -> (f: FilterSet)
        ensures
            f@ == Seq::<RuleView>::empty(),
    {
        let f = FilterSet { rules: Vec::new() };
        assert(f@ =~= Seq::<RuleView>::empty());
        f
    }

    /// Appends a rule at the end (it is tried after every earlier rule).
    pub fn push_rule(&mut self, rule: FilterRule)
        ensures
            final(self)@ == old(self)@.push(rule@),
    {
        self.rules.push(rule);
        assert(self@ =~= old(self)@.push(rule@));
    }

    /// Appends the rule of one gitignore line, if the line holds one.
    pub fn push_gitignore_line(&mut self, line: &str)
        ensures
            final(self)@ == match gitignore_rule(line@) {
                Some(r) => old(self)@.push(r),
                None => old(self)@,
            },
    {
        let t = trim_str(line);
        let ts: &str = t.as_str();
        if ts.unicode_len() == 0 || starts_with_char(ts, '#') {
            return;
        }
        let keep = starts_with_char(ts, '!');
        let n: usize = ts.unicode_len();
        let body = if keep {
            owned(ts.substring_char(1, n))
        } else {
            owned(ts)
        };
        proof {
            if keep {
                assert(ts@.subrange(1, n as int) =~= ts@.drop_first());
            }
        }
        let bs: &str = body.as_str();
        if bs.unicode_len() == 0 {
            return;
        }
        let pattern = if ends_with_char(bs, '/') {
            let p = cat(bs, "**");
            proof {
                reveal_strlit("**");
                assert(p@ =~= bs@ + seq!['*', '*']);
            }
            p
        } else {
            body
        };
        self.push_rule(FilterRule { keep, pattern });
    }

    /// Rules for gitignore `lines`, in order.
    pub fn from_gitignore_lines(lines: &Vec<String>) -> (f: FilterSet)
        ensures
            f@ == gitignore_rules(lines.deep_view()),
    {
        let mut f = FilterSet::empty();
        let n: usize = lines.len();
        let mut i: usize = 0;
        while i < n
            invariant
                n == lines@.len(),
                i <= n,
                f@ == gitignore_rules(lines.deep_view().subrange(0, i as int)),
            decreases n - i,
        {
            proof {
                let dv = lines.deep_view();
                assert(dv.subrange(0, i + 1).drop_last() =~= dv.subrange(0, i as int));
            }
            f.push_gitignore_line(lines[i].as_str());
            i = i + 1;
        }
        assert(lines.deep_view().subrange(0, n as int) =~= lines.deep_view());
        f
    }

    /// Appends the rules of gitignore `lines` after the present rules.
    pub fn extend_gitignore_lines(&mut self, lines: &Vec<String>)
        ensures
            final(self)@ == old(self)@ + gitignore_rules(lines.deep_view()),
    {
        let n: usize = lines.len();
        let mut i: usize = 0;
        assert(old(self)@ + gitignore_rules(lines.deep_view().subrange(0, 0)) =~= old(self)@);
        while i < n
            invariant
                n == lines@.len(),
                i <= n,
                self@ == old(self)@ + gitignore_rules(lines.deep_view().subrange(0, i as int)),
            decreases n - i,
        {
            proof {
                let dv = lines.deep_view();
                assert(dv.subrange(0, i + 1).drop_last() =~= dv.subrange(0, i as int));
            }
            self.push_gitignore_line(lines[i].as_str());
            proof {
                let dv = lines.deep_view();
                let g = gitignore_rules(dv.subrange(0, i as int));
                match gitignore_rule(dv[i as int]) {
                    Some(r) => {
                        assert(self@ =~= old(self)@ + g.push(r));
                    },
                    None => {},
                }
            }
            i = i + 1;
        }
        assert(lines.deep_view().subrange(0, n as int) =~= lines.deep_view());
    }

    /// These rules followed by the default ignore patterns, which therefore
    /// apply only where no earlier rule matches.
    pub fn with_defaults(self) -> (f: FilterSet)
        ensures
            f@ == self@ + gitignore_rules(default_patterns()),
    {
        let mut f = self;
        let d = default_patterns_vec();
        f.extend_gitignore_lines(&d);
        f
    }

    /// The filters of a profile: its `extra_ignore` patterns, then the lines of
    /// its own ignore file, then those of the shared ignore file, then the
    /// defaults. A missing file contributes nothing.
    pub fn for_profile(
        extra_ignore: &Vec<String>,
        profile_file: Option<&str>,
        shared_file: Option<&str>,
    ) -> (f: FilterSet)
        ensures
            f@ == gitignore_rules(extra_ignore.deep_view()) + match profile_file {
                Some(t) => gitignore_rules(split(t@, '\n')),
                None => Seq::empty(),
            } + match shared_file {
                Some(t) => gitignore_rules(split(t@, '\n')),
                None => Seq::empty(),
            } + gitignore_rules(default_patterns()),
    {
        let mut f = FilterSet::from_gitignore_lines(extra_ignore);
        let ghost a = f@;
        match profile_file {
            Some(t) => {
                let lines = split_str(t, '\n');
                f.extend_gitignore_lines(&lines);
            },
            None => {
                assert(f@ =~= a + Seq::<RuleView>::empty());
            },
        }
        let ghost b = f@;
        match shared_file {
            Some(t) => {
                let lines = split_str(t, '\n');
                f.extend_gitignore_lines(&lines);
            },
            None => {
                assert(f@ =~= b + Seq::<RuleView>::empty());
            },
        }
        f.with_defaults()
    }

    /// Whether the first rule that matches `path` excludes it.
    pub fn is_excluded(&self, path: &str) -> (r: bool)
        ensures
            r == excluded(self@, path@),
    {
        let n: usize = self.rules.len();
        let mut i: usize = 0;
        assert(self@.skip(0) =~= self@);
        while i < n
            invariant
                n == self@.len(),
                n == self.rules@.len(),
                i <= n,
                first_match(self@.skip(i as int), path@) == first_match(self@, path@),
            decreases n - i,
        {
            let rule = &self.rules[i];
            assert(self@.skip(i as int)[0] == rule@);
            assert(self@.skip(i as int).drop_first() =~= self@.skip(i + 1));
            if matches_pattern(rule.pattern.as_str(), path) {
                return !rule.keep;
            }
            i = i + 1;
        }
        false
    }

    /// The rclone `--filter-from` file text: `+ pattern` or `- pattern`, one
    /// rule per line, in order.
    pub fn to_filter_from(&self) -> (s: String)
        ensures
            s@ == filter_text(self@),
    {
        let mut s = String::new();
        let n: usize = self.rules.len();
        let mut i: usize = 0;
        while i < n
            invariant
                n == self@.len(),
                n == self.rules@.len(),
                i <= n,
                s@ == filter_text(self@.subrange(0, i as int)),
            decreases n - i,
        {
            let rule = &self.rules[i];
            proof {
                assert(self@.subrange(0, i + 1).drop_last() =~= self@.subrange(0, i as int));
                assert(self@.subrange(0, i + 1).last() == rule@);
                reveal_strlit("+ ");
                reveal_strlit("- ");
                reveal_strlit("\n");
            }
            if rule.keep {
                s.append("+ ");
            } else {
                s.append("- ");
            }
            s.append(rule.pattern.as_str());
            s.append("\n");
            i = i + 1;
        }
        assert(self@.subrange(0, n as int) =~= self@);
        s
    }
}

/// First match wins: rules placed in front decide every path they match, and
/// the rules behind them decide only the paths none of the front rules match.
pub proof fn first_match_wins(front: Seq<RuleView>, back: Seq<RuleView>, path: Seq<char>)
    ensures
        first_match(front + back, path) == match first_match(front, path) {
            Some(v) => Some(v),
            None => first_match(back, path),
        },
    decreases front.len(),
{
    if front.len() > 0 {
        assert((front + back).drop_first() =~= front.drop_first() + back);
        assert((front + back)[0] == front[0]);
        first_match_wins(front.drop_first(), back, path);
    } else {
        assert(front + back =~= back);
    }
}

/// A user keep rule placed before the defaults keeps every path it matches,
/// whatever the defaults say: `!node_modules/` syncs that tree.
pub proof fn keep_rule_overrides_defaults(user: Seq<RuleView>, path: Seq<char>)
    requires
        first_match(user, path) == Some(true),
    ensures
        !excluded(user + gitignore_rules(default_patterns()), path),
{
    first_match_wins(user, gitignore_rules(default_patterns()), path);
}


/// What rclone reads back from a rule's line: `+` exactly when the rule
/// keeps, `-` exactly when it excludes, a space, the pattern, and the end of
/// the line.
pub proof fn rule_line_reads_back(r: RuleView)
    ensures
        ({
            let l = rule_line(r);
            &&& l.len() == r.pattern.len() + 3
            &&& (l[0] == '+' <==> r.keep)
            &&& (l[0] == '-' <==> !r.keep)
            &&& l[1] == ' '
            &&& l.subrange(2, l.len() - 1) == r.pattern
            &&& l.last() == '\n'
        }),
{
    let l = rule_line(r);
    assert(l.subrange(2, l.len() - 1) =~= r.pattern);
}

/// The filter text is one line per rule, in the rules' order: the text of two
/// lists one after the other is the text of the first followed by that of the
/// second, and one rule gives exactly its own line.
pub proof fn filter_text_is_one_line_per_rule(a: Seq<RuleView>, b: Seq<RuleView>)
    ensures
        filter_text(a + b) == filter_text(a) + filter_text(b),
        forall|r: RuleView| #[trigger] filter_text(seq![r]) == rule_line(r),
    decreases b.len(),
{
    assert forall|r: RuleView| #[trigger] filter_text(seq![r]) == rule_line(r) by {
        assert(seq![r].drop_last() =~= Seq::<RuleView>::empty());
        assert(filter_text(Seq::<RuleView>::empty()) == Seq::<char>::empty());
        assert(filter_text(seq![r]) == filter_text(seq![r].drop_last()) + rule_line(seq![r].last()));
        assert(Seq::<char>::empty() + rule_line(r) =~= rule_line(r));
    }
    if b.len() == 0 {
        assert(a + b =~= a);
    } else {
        filter_text_is_one_line_per_rule(a, b.drop_last());
        assert((a + b).drop_last() =~= a + b.drop_last());
        assert((a + b).last() == b.last());
    }
}

} // verus!
