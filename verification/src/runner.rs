//! The rclone command line for a sync.

use vstd::prelude::*;

use crate::profile::{mode_name, Mode, Profile, ProfileView};
use crate::rclone::ResolvedRclone;
use crate::text::owned;

verus! {

/// A program and its arguments, each a separate argument (no shell).
#[derive(Clone, Debug, PartialEq, Eq)]
pub struct SyncArgv {
    pub program: String,
    pub args: Vec<String>,
}

/// The arguments of a sync: the mode's subcommand, local, remote,
/// `--filter-from <file>`, `--verbose`, `--use-json-log`, the profile's extra
/// flags, and `--dry-run` last when asked for.
pub open spec fn sync_args(p: ProfileView, filter_file: Seq<char>, dry_run: bool) -> Seq<Seq<char>> {
    seq![
        mode_name(p.mode),
        p.local,
        p.remote,
        "--filter-from"@,
        filter_file,
        "--verbose"@,
        "--use-json-log"@,
    ] + p.extra_flags + if dry_run {
        seq!["--dry-run"@]
    } else {
        Seq::empty()
    }
}

/// The argv rclone is run with for `profile`.
pub fn build_sync_argv(rclone: &str, profile: &Profile, filter_file: &str, dry_run: bool) -> (a: SyncArgv)
    ensures
        a.program@ == rclone@,
        a.args.deep_view() == sync_args(profile@, filter_file@, dry_run),
{
    let mut args: Vec<String> = vec![
        owned(profile.mode.rclone_subcommand()),
        profile.local.clone(),
        profile.remote.clone(),
        owned("--filter-from"),
        owned(filter_file),
        owned("--verbose"),
        owned("--use-json-log"),
    ];
    let ghost head = args.deep_view();
    let n: usize = profile.extra_flags.len();
    let mut i: usize = 0;
    while i < n
        invariant
            n == profile.extra_flags@.len(),
            i <= n,
            args.deep_view() == head + profile.extra_flags.deep_view().subrange(0, i as int),
        decreases n - i,
    {
        let ghost before = args.deep_view();
        args.push(profile.extra_flags[i].clone());
        assert(args.deep_view() =~= before.push(profile.extra_flags.deep_view()[i as int]));
        assert(profile.extra_flags.deep_view().subrange(0, i + 1) =~= profile.extra_flags.deep_view().subrange(0, i as int).push(profile.extra_flags.deep_view()[i as int]));
        i = i + 1;
    }
    assert(profile.extra_flags.deep_view().subrange(0, n as int) =~= profile.extra_flags.deep_view());
    let ghost mid = args.deep_view();
    if dry_run {
        args.push(owned("--dry-run"));
        assert(args.deep_view() =~= mid.push("--dry-run"@));
    }
    let a = SyncArgv { program: owned(rclone), args };
    assert(a.args.deep_view() =~= sync_args(profile@, filter_file@, dry_run));
    a
}

impl SyncArgv {
    /// The arguments as strings.
    pub fn args_lossy(&self) -> (v: Vec<String>)
        ensures
            v.deep_view() == self.args.deep_view(),
    {
        let mut v: Vec<String> = Vec::new();
        let n: usize = self.args.len();
        let mut i: usize = 0;
        while i < n
            invariant
                n == self.args@.len(),
                i <= n,
                v.deep_view() == self.args.deep_view().subrange(0, i as int),
            decreases n - i,
        {
            let ghost before = v.deep_view();
            v.push(self.args[i].clone());
            assert(v.deep_view() =~= before.push(self.args.deep_view()[i as int]));
            assert(v.deep_view() =~= self.args.deep_view().subrange(0, i + 1));
            i = i + 1;
        }
        assert(self.args.deep_view().subrange(0, n as int) =~= self.args.deep_view());
        v
    }
}

/// What a finished sync reports.
#[derive(Clone, Debug, PartialEq, Eq)]
pub struct SyncOutcome {
    pub exit_code: i32,
    pub rclone: ResolvedRclone,
    pub stdout: Option<Vec<u8>>,
    pub stderr: Option<Vec<u8>>,
}

/// rclone's exit code, with a run ended by a signal (no code) counted as 1.
pub fn exit_code_of(code: Option<i32>) -> (c: i32)
    ensures
        c == match code {
            Some(x) => x,
            None => 1,
        },
{
    match code {
        Some(x) => x,
        None => 1,
    }
}

/// A dry run has the argv of the real run, with `--dry-run` added at the end.
pub proof fn dry_run_is_real_argv_plus_flag(p: ProfileView, filter_file: Seq<char>)
    ensures
        sync_args(p, filter_file, true) == sync_args(p, filter_file, false).push("--dry-run"@),
{
    assert(sync_args(p, filter_file, true) =~= sync_args(p, filter_file, false).push("--dry-run"@));
}


/// The sync argv: the profile's mode as rclone's subcommand (the name `Mode`
/// reads back: `copy`, `sync` or `bisync`), local, remote, `--filter-from`
/// and the filter file, `--verbose`, `--use-json-log`, every extra flag in
/// order, and `--dry-run` last exactly when asked for.
pub proof fn sync_argv_layout(p: ProfileView, filter_file: Seq<char>, dry_run: bool)
    ensures
        ({
            let a = sync_args(p, filter_file, dry_run);
            let n = p.extra_flags.len() as int;
            &&& a.len() == 7 + n + if dry_run {
                1int
            } else {
                0int
            }
            &&& crate::profile::mode_named(a[0]) == Some(p.mode)
            &&& (p.mode == Mode::Copy ==> a[0] == "copy"@)
            &&& (p.mode == Mode::Sync ==> a[0] == "sync"@)
            &&& (p.mode == Mode::Bisync ==> a[0] == "bisync"@)
            &&& a[1] == p.local
            &&& a[2] == p.remote
            &&& a[3] == "--filter-from"@
            &&& a[4] == filter_file
            &&& a[5] == "--verbose"@
            &&& a[6] == "--use-json-log"@
            &&& (forall|i: int| 0 <= i < n ==> a[7 + i] == #[trigger] p.extra_flags[i])
            &&& (dry_run ==> a[7 + n] == "--dry-run"@)
        }),
{
    crate::profile::mode_name_round_trip(p.mode);
}

} // verus!
