//! Live transfer progress read from rclone's `--use-json-log` lines, and the
//! short text shown for it.

use vstd::prelude::*;

use crate::status::{rfc3339, unix_now, unix_to_rfc3339};
use crate::text::{
    cat, dec, digit, join, join_strings, owned, push_char, push_dec, repeat_char, trim, trim_str,
};

verus! {

/// Transfer progress of one profile's running rclone.
#[derive(Clone, Debug, PartialEq, Eq)]
pub struct TransferProgress {
    pub bytes: u64,
    pub total_bytes: u64,
    pub percent: Option<u8>,
    pub speed_bps: Option<u64>,
    pub eta_secs: Option<u64>,
    pub transfers: u64,
    pub total_transfers: u64,
    pub file: Option<String>,
    pub pid: Option<u32>,
    pub dry_run: bool,
    pub updated_at_unix: i64,
    pub updated_at: String,
}

/// One file rclone reports as in flight.
#[derive(Clone, Debug, PartialEq, Eq)]
pub struct RcloneTransferring {
    pub name: Option<String>,
    pub percentage: Option<i64>,
}

/// The `stats` object of an rclone JSON log line. `speed` and `eta` are the
/// non-negative finite values rounded to whole numbers; others are `None`.
#[derive(Clone, Debug, PartialEq, Eq)]
pub struct RcloneStats {
    pub bytes: u64,
    pub total_bytes: u64,
    pub speed: Option<u64>,
    pub eta: Option<u64>,
    pub transfers: u64,
    pub total_transfers: u64,
    pub transferring: Vec<RcloneTransferring>,
}

/// The fields of an rclone JSON log line that synctr reads.
#[derive(Clone, Debug, PartialEq, Eq)]
pub struct LogLine {
    pub msg: Option<String>,
    pub object: Option<String>,
    pub stats: Option<RcloneStats>,
}

/// Whole percent of `bytes` out of `total` (bytes capped at total, the
/// multiplication saturating); `None` when the total is 0.
pub open spec fn percent_of(bytes: u64, total: u64) -> Option<u8> {
    if total == 0 {
        None
    } else {
        let b = if bytes < total {
            bytes as int
        } else {
            total as int
        };
        let prod = if b * 100 > u64::MAX {
            u64::MAX as int
        } else {
            b * 100
        };
        Some((prod / (total as int)) as u8)
    }
}

fn percent(bytes: u64, total: u64) -> (r: Option<u8>)
    ensures
        r == percent_of(bytes, total),
{
    if total == 0 {
        return None;
    }
    let b: u64 = if bytes < total {
        bytes
    } else {
        total
    };
    let prod: u64 = if b <= u64::MAX / 100 {
        b * 100
    } else {
        u64::MAX
    };
    let q: u64 = prod / total;
    assert(q <= 100) by (nonlinear_arith)
        requires
            b <= total,
            total > 0,
            prod <= b * 100,
            q == prod / total,
    ;
    Some(q as u8)
}

/// The first name among the in-flight files.
pub open spec fn first_name(ts: Seq<RcloneTransferring>) -> Option<String>
    decreases ts.len(),
{
    if ts.len() == 0 {
        None
    } else if ts[0].name is Some {
        ts[0].name
    } else {
        first_name(ts.drop_first())
    }
}

/// The first percentage among the in-flight files.
pub open spec fn first_percentage(ts: Seq<RcloneTransferring>) -> Option<i64>
    decreases ts.len(),
{
    if ts.len() == 0 {
        None
    } else if ts[0].percentage is Some {
        ts[0].percentage
    } else {
        first_percentage(ts.drop_first())
    }
}

/// Progress after a stats report: counters, speed and ETA replaced; the file
/// set to the first in-flight name (when there is one); the percent, if not
/// yet known, set from the first in-flight percentage when it is 0 to 100.
pub open spec fn with_stats(p: TransferProgress, s: RcloneStats) -> TransferProgress {
    TransferProgress {
        bytes: s.bytes,
        total_bytes: s.total_bytes,
        transfers: s.transfers,
        total_transfers: s.total_transfers,
        speed_bps: s.speed,
        eta_secs: s.eta,
        file: match first_name(s.transferring@) {
            Some(n) => Some(n),
            None => p.file,
        },
        percent: if p.percent is None {
            match first_percentage(s.transferring@) {
                Some(pct) => if 0 <= pct <= 100 {
                    Some(pct as u8)
                } else {
                    None
                },
                None => None,
            }
        } else {
            p.percent
        },
        ..p
    }
}

/// Progress stamped at `now`, with the percent from the byte counts when the
/// total is known.
pub open spec fn touched(p: TransferProgress, now: i64) -> (TransferProgress, Seq<char>) {
    (TransferProgress {
        updated_at_unix: now,
        percent: match percent_of(p.bytes, p.total_bytes) {
            Some(x) => Some(x),
            None => p.percent,
        },
        ..p
    }, rfc3339(now as int))
}

/// `format!("{:.1}", num / den)`: the quotient rounded to one decimal, ties
/// to an even last digit.
pub open spec fn one_decimal(num: nat, den: nat) -> Seq<char> {
    let t = num * 10;
    let q = t / den;
    let r = t % den;
    let tenths = if 2 * r > den || (2 * r == den && q % 2 == 1) {
        q + 1
    } else {
        q
    };
    dec(tenths / 10) + seq!['.', digit(tenths % 10)]
}

/// 2 to the power `s`, for the shifts of a `u64`.
pub open spec fn p2(s: nat) -> nat
    decreases s,
{
    if s == 0 {
        1
    } else {
        2 * p2((s - 1) as nat)
    }
}

/// How many low bits of `n` do not fit a 53-bit significand.
pub open spec fn excess_bits(n: nat) -> nat {
    if n < p2(53) {
        0
    } else if n < p2(54) {
        1
    } else if n < p2(55) {
        2
    } else if n < p2(56) {
        3
    } else if n < p2(57) {
        4
    } else if n < p2(58) {
        5
    } else if n < p2(59) {
        6
    } else if n < p2(60) {
        7
    } else if n < p2(61) {
        8
    } else if n < p2(62) {
        9
    } else if n < p2(63) {
        10
    } else {
        11
    }
}

/// `n as f64`: `n` rounded to a 53-bit significand, ties to even.
pub open spec fn as_f64(n: nat) -> nat {
    let s = excess_bits(n);
    if s == 0 {
        n
    } else {
        let d = p2(s);
        let q = n / d;
        let r = n % d;
        let h = d / 2;
        (if r > h || (r == h && q % 2 == 1) {
            q + 1
        } else {
            q
        }) * d
    }
}

/// `format_bytes`: `B` below 1 KiB, else one decimal of KiB, MiB or GiB.
pub open spec fn bytes_text(n: u64) -> Seq<char> {
    let kib: nat = 1024;
    let mib: nat = 1024 * 1024;
    let gib: nat = 1024 * 1024 * 1024;
    if n >= gib {
        one_decimal(as_f64(n as nat), gib) + " GiB"@
    } else if n >= mib {
        one_decimal(n as nat, mib) + " MiB"@
    } else if n >= kib {
        one_decimal(n as nat, kib) + " KiB"@
    } else {
        dec(n as nat) + " B"@
    }
}

/// `Ns` under a minute, `Nm` under an hour, else `Nh`.
pub open spec fn eta_text(secs: u64) -> Seq<char> {
    if secs < 60 {
        dec(secs as nat) + "s"@
    } else if secs < 3600 {
        dec((secs / 60) as nat) + "m"@
    } else {
        dec((secs / 3600) as nat) + "h"@
    }
}

fn push_dec_u128(out: &mut String, n: u128)
    ensures
        final(out)@ == old(out)@ + dec(n as nat),
    decreases n,
{
    if n >= 10 {
        push_dec_u128(out, n / 10);
    }
    let d: u8 = (n % 10) as u8;
    push_char(out, (d + 48u8) as char);
}

fn push_one_decimal(out: &mut String, num: u128, den: u128)
    requires
        den > 0,
        den <= 0x4000_0000u128,
        num <= 0x1_0000_0000_0000_0000u128,
    ensures
        final(out)@ == old(out)@ + one_decimal(num as nat, den as nat),
{
    let t: u128 = num * 10;
    let q: u128 = t / den;
    let r: u128 = t % den;
    assert(q <= t) by (nonlinear_arith)
        requires
            den > 0,
            q == t / den,
    ;
    assert(r < den);
    let tenths: u128 = if 2 * r > den || (2 * r == den && q % 2 == 1) {
        q + 1
    } else {
        q
    };
    push_dec_u128(out, tenths / 10);
    push_char(out, '.');
    let d: u8 = (tenths % 10) as u8;
    push_char(out, (d + 48u8) as char);
}

proof fn lemma_p2_values()
    ensures
        p2(10) == 1024,
        p2(20) == 1024 * 1024,
        p2(30) == 1024 * 1024 * 1024,
        p2(53) == 0x20_0000_0000_0000,
        p2(54) == 0x40_0000_0000_0000,
        p2(55) == 0x80_0000_0000_0000,
        p2(56) == 0x100_0000_0000_0000,
        p2(57) == 0x200_0000_0000_0000,
        p2(58) == 0x400_0000_0000_0000,
        p2(59) == 0x800_0000_0000_0000,
        p2(60) == 0x1000_0000_0000_0000,
        p2(61) == 0x2000_0000_0000_0000,
        p2(62) == 0x4000_0000_0000_0000,
        p2(63) == 0x8000_0000_0000_0000,
        p2(1) == 2,
        p2(2) == 4,
        p2(3) == 8,
        p2(4) == 16,
        p2(5) == 32,
        p2(6) == 64,
        p2(7) == 128,
        p2(8) == 256,
        p2(9) == 512,
        p2(11) == 2048,
{
    assert(p2(0) == 1);
    assert(p2(1) == 0x2);
    assert(p2(2) == 0x4);
    assert(p2(3) == 0x8);
    assert(p2(4) == 0x10);
    assert(p2(5) == 0x20);
    assert(p2(6) == 0x40);
    assert(p2(7) == 0x80);
    assert(p2(8) == 0x100);
    assert(p2(9) == 0x200);
    assert(p2(10) == 0x400);
    assert(p2(11) == 0x800);
    assert(p2(12) == 0x1000);
    assert(p2(13) == 0x2000);
    assert(p2(14) == 0x4000);
    assert(p2(15) == 0x8000);
    assert(p2(16) == 0x10000);
    assert(p2(17) == 0x20000);
    assert(p2(18) == 0x40000);
    assert(p2(19) == 0x80000);
    assert(p2(20) == 0x100000);
    assert(p2(21) == 0x200000);
    assert(p2(22) == 0x400000);
    assert(p2(23) == 0x800000);
    assert(p2(24) == 0x1000000);
    assert(p2(25) == 0x2000000);
    assert(p2(26) == 0x4000000);
    assert(p2(27) == 0x8000000);
    assert(p2(28) == 0x10000000);
    assert(p2(29) == 0x20000000);
    assert(p2(30) == 0x40000000);
    assert(p2(31) == 0x80000000);
    assert(p2(32) == 0x100000000);
    assert(p2(33) == 0x200000000);
    assert(p2(34) == 0x400000000);
    assert(p2(35) == 0x800000000);
    assert(p2(36) == 0x1000000000);
    assert(p2(37) == 0x2000000000);
    assert(p2(38) == 0x4000000000);
    assert(p2(39) == 0x8000000000);
    assert(p2(40) == 0x10000000000);
    assert(p2(41) == 0x20000000000);
    assert(p2(42) == 0x40000000000);
    assert(p2(43) == 0x80000000000);
    assert(p2(44) == 0x100000000000);
    assert(p2(45) == 0x200000000000);
    assert(p2(46) == 0x400000000000);
    assert(p2(47) == 0x800000000000);
    assert(p2(48) == 0x1000000000000);
    assert(p2(49) == 0x2000000000000);
    assert(p2(50) == 0x4000000000000);
    assert(p2(51) == 0x8000000000000);
    assert(p2(52) == 0x10000000000000);
    assert(p2(53) == 0x20000000000000);
    assert(p2(54) == 0x40000000000000);
    assert(p2(55) == 0x80000000000000);
    assert(p2(56) == 0x100000000000000);
    assert(p2(57) == 0x200000000000000);
    assert(p2(58) == 0x400000000000000);
    assert(p2(59) == 0x800000000000000);
    assert(p2(60) == 0x1000000000000000);
    assert(p2(61) == 0x2000000000000000);
    assert(p2(62) == 0x4000000000000000);
    assert(p2(63) == 0x8000000000000000);
}

fn f64_round(n: u64) -> (r: u128)
    ensures
        r == as_f64(n as nat),
        r <= 0x1_0000_0000_0000_0000u128,
{
    proof {
        lemma_p2_values();
    }
    let s: u64 = if n < 0x20_0000_0000_0000 {
        0
    } else if n < 0x40_0000_0000_0000 {
        1
    } else if n < 0x80_0000_0000_0000 {
        2
    } else if n < 0x100_0000_0000_0000 {
        3
    } else if n < 0x200_0000_0000_0000 {
        4
    } else if n < 0x400_0000_0000_0000 {
        5
    } else if n < 0x800_0000_0000_0000 {
        6
    } else if n < 0x1000_0000_0000_0000 {
        7
    } else if n < 0x2000_0000_0000_0000 {
        8
    } else if n < 0x4000_0000_0000_0000 {
        9
    } else if n < 0x8000_0000_0000_0000 {
        10
    } else {
        11
    };
    assert(s == excess_bits(n as nat));
    if s == 0 {
        return n as u128;
    }
    let d: u64 = if s == 1 {
        2
    } else if s == 2 {
        4
    } else if s == 3 {
        8
    } else if s == 4 {
        16
    } else if s == 5 {
        32
    } else if s == 6 {
        64
    } else if s == 7 {
        128
    } else if s == 8 {
        256
    } else if s == 9 {
        512
    } else if s == 10 {
        1024
    } else {
        2048
    };
    assert(d == p2(s as nat));
    assert(n < 0x20_0000_0000_0000 * (d as u128));
    let q: u64 = n / d;
    let r: u64 = n % d;
    let h: u64 = d / 2;
    let up: bool = r > h || (r == h && q % 2 == 1);
    let q2: u128 = if up {
        q as u128 + 1
    } else {
        q as u128
    };
    assert(q < 0x20_0000_0000_0000) by (nonlinear_arith)
        requires
            q == n / d,
            d > 0,
            n < 0x20_0000_0000_0000 * d,
    ;
    assert(q2 * d <= 0x1_0000_0000_0000_0000u128) by (nonlinear_arith)
        requires
            d > 0,
            d <= 2048,
            q2 <= 0x20_0000_0000_0000,
    ;
    q2 * (d as u128)
}

/// `n` bytes for people: `500 B`, `1.5 KiB`, `10.0 MiB`, `2.3 GiB`.
pub fn format_bytes(n: u64) -> (s: String)
    ensures
        s@ == bytes_text(n),
{
    let mut s = String::new();
    if n >= 1024 * 1024 * 1024 {
        let m = f64_round(n);
        push_one_decimal(&mut s, m, 1024 * 1024 * 1024);
        s.append(" GiB");
    } else if n >= 1024 * 1024 {
        push_one_decimal(&mut s, n as u128, 1024 * 1024);
        s.append(" MiB");
    } else if n >= 1024 {
        push_one_decimal(&mut s, n as u128, 1024);
        s.append(" KiB");
    } else {
        push_dec(&mut s, n);
        s.append(" B");
    }
    s
}

/// A time left for people: `5s`, `1m`, `2h`.
pub fn format_eta(secs: u64) -> (s: String)
    ensures
        s@ == eta_text(secs),
{
    let mut s = String::new();
    if secs < 60 {
        push_dec(&mut s, secs);
        s.append("s");
    } else if secs < 3600 {
        push_dec(&mut s, secs / 60);
        s.append("m");
    } else {
        push_dec(&mut s, secs / 3600);
        s.append("h");
    }
    s
}

/// `[###-------]`: `width` cells (at least one), the share `pct` of them filled.
pub open spec fn bar_text(pct: nat, width: nat) -> Seq<char> {
    let w = if width < 1 {
        1
    } else {
        width
    };
    let f = pct * w / 100;
    let filled = if f < w {
        f
    } else {
        w
    };
    seq!['['] + Seq::new(filled, |i: int| '#') + Seq::new((w - filled) as nat, |i: int| '-')
        + seq![']']
}

/// The pieces of the summary, in order: the bar and the percent when the
/// percent is known, the bytes (of the total when it is known), the speed and
/// the ETA.
pub open spec fn summary_parts(
    bytes: u64,
    total: u64,
    percent: Option<u8>,
    speed: Option<u64>,
    eta: Option<u64>,
) -> Seq<Seq<char>> {
    let a: Seq<Seq<char>> = match percent {
        Some(pct) => seq![bar_text(pct as nat, 20)],
        None => Seq::empty(),
    };
    let b = if total > 0 {
        a.push(bytes_text(bytes) + " / "@ + bytes_text(total))
    } else if bytes > 0 {
        a.push(bytes_text(bytes))
    } else {
        a
    };
    let c = match percent {
        Some(pct) => b.push(dec(pct as nat) + "%"@),
        None => b,
    };
    let d = match speed {
        Some(sp) => c.push(bytes_text(sp) + "/s"@),
        None => c,
    };
    match eta {
        Some(e) => d.push("ETA "@ + eta_text(e)),
        None => d,
    }
}

/// The one-line summary: the pieces two spaces apart, or `starting`.
pub open spec fn summary_of(
    bytes: u64,
    total: u64,
    percent: Option<u8>,
    speed: Option<u64>,
    eta: Option<u64>,
) -> Seq<char> {
    let parts = summary_parts(bytes, total, percent, speed, eta);
    if parts.len() == 0 {
        "starting"@
    } else {
        join(parts, "  "@)
    }
}

/// The percent a stats report alone gives: from the byte counts when the
/// total is known, else the first in-flight percentage when it is 0 to 100.
pub open spec fn stats_percent(s: RcloneStats) -> Option<u8> {
    match percent_of(s.bytes, s.total_bytes) {
        Some(x) => Some(x),
        None => match first_percentage(s.transferring@) {
            Some(p) => if 0 <= p <= 100 {
                Some(p as u8)
            } else {
                None
            },
            None => None,
        },
    }
}

/// What the TUI log shows for an rclone output line: nothing for a blank
/// line; the trimmed line when it is not JSON; the transfer summary for a
/// stats line; else the message and the object, whichever are present.
pub open spec fn display_text(line: Seq<char>, log: Option<LogLine>) -> Seq<char> {
    let t = trim(line);
    if t.len() == 0 {
        Seq::empty()
    } else {
        match log {
            None => t,
            Some(l) => match l.stats {
                Some(s) => summary_of(s.bytes, s.total_bytes, stats_percent(s), s.speed, s.eta),
                None => {
                    let m = match l.msg {
                        Some(x) => trim(x@),
                        None => Seq::empty(),
                    };
                    if m.len() > 0 {
                        match l.object {
                            Some(o) => m + "  "@ + o@,
                            None => m,
                        }
                    } else {
                        match l.object {
                            Some(o) => o@,
                            None => t,
                        }
                    }
                },
            },
        }
    }
}

fn first_name_in(ts: &Vec<RcloneTransferring>) -> (r: Option<String>)
    ensures
        r == first_name(ts@),
{
    let n: usize = ts.len();
    let mut i: usize = 0;
    assert(ts@.skip(0) =~= ts@);
    while i < n
        invariant
            n == ts@.len(),
            i <= n,
            first_name(ts@.skip(i as int)) == first_name(ts@),
        decreases n - i,
    {
        assert(ts@.skip(i as int).drop_first() =~= ts@.skip(i + 1));
        if let Some(name) = &ts[i].name {
            return Some(name.clone());
        }
        i = i + 1;
    }
    None
}

fn first_percentage_in(ts: &Vec<RcloneTransferring>) -> (r: Option<i64>)
    ensures
        r == first_percentage(ts@),
{
    let n: usize = ts.len();
    let mut i: usize = 0;
    assert(ts@.skip(0) =~= ts@);
    while i < n
        invariant
            n == ts@.len(),
            i <= n,
            first_percentage(ts@.skip(i as int)) == first_percentage(ts@),
        decreases n - i,
    {
        assert(ts@.skip(i as int).drop_first() =~= ts@.skip(i + 1));
        if let Some(p) = ts[i].percentage {
            return Some(p);
        }
        i = i + 1;
    }
    None
}

impl TransferProgress {
    /// Nothing transferred yet, stamped at `now`.
    pub fn starting_at(pid: Option<u32>, dry_run: bool, now: i64) -> (p: TransferProgress)
        ensures
            p.bytes == 0 && p.total_bytes == 0 && p.transfers == 0 && p.total_transfers == 0,
            p.percent is None && p.speed_bps is None && p.eta_secs is None && p.file is None,
            p.pid == pid && p.dry_run == dry_run,
            p.updated_at_unix == now && p.updated_at@ == rfc3339(now as int),
    {
        TransferProgress {
            bytes: 0,
            total_bytes: 0,
            percent: None,
            speed_bps: None,
            eta_secs: None,
            transfers: 0,
            total_transfers: 0,
            file: None,
            pid,
            dry_run,
            updated_at_unix: now,
            updated_at: unix_to_rfc3339(now),
        }
    }

    /// Nothing transferred yet, stamped now.
    pub fn starting(pid: Option<u32>, dry_run: bool) -> (p: TransferProgress)
        ensures
            p.bytes == 0 && p.total_bytes == 0 && p.transfers == 0 && p.total_transfers == 0,
            p.percent is None && p.speed_bps is None && p.eta_secs is None && p.file is None,
            p.pid == pid && p.dry_run == dry_run,
            p.updated_at@ == rfc3339(p.updated_at_unix as int),
    {
        TransferProgress::starting_at(pid, dry_run, unix_now())
    }

    /// Stamps the progress at `now` and derives the percent from the byte
    /// counts when the total is known.
    pub fn touch_at(&mut self, now: i64)
        ensures
            ({
                let (t, text) = touched(*old(self), now);
                final(self).updated_at@ == text && *final(self) == TransferProgress {
                    updated_at: final(self).updated_at,
                    ..t
                }
            }),
    {
        self.updated_at_unix = now;
        self.updated_at = unix_to_rfc3339(now);
        if let Some(pct) = percent(self.bytes, self.total_bytes) {
            self.percent = Some(pct);
        }
    }

    /// Takes over a stats report.
    pub fn apply_stats(&mut self, stats: &RcloneStats)
        ensures
            *final(self) == with_stats(*old(self), *stats),
    {
        self.bytes = stats.bytes;
        self.total_bytes = stats.total_bytes;
        self.transfers = stats.transfers;
        self.total_transfers = stats.total_transfers;
        self.speed_bps = stats.speed;
        self.eta_secs = stats.eta;
        if let Some(name) = first_name_in(&stats.transferring) {
            self.file = Some(name);
        }
        if self.percent.is_none() {
            if let Some(pct) = first_percentage_in(&stats.transferring) {
                if 0 <= pct && pct <= 100 {
                    self.percent = Some(pct as u8);
                }
            }
        }
    }

    /// `[##--]`-style bar of `width` cells for the known percent.
    pub fn bar(&self, width: usize) -> (b: Option<String>)
        requires
            self.percent matches Some(p) ==> p * (if width < 1 {
                1
            } else {
                width
            }) <= usize::MAX,
        ensures
            match self.percent {
                Some(p) => b matches Some(s) && s@ == bar_text(p as nat, width as nat),
                None => b is None,
            },
    {
        let pct: u8 = match self.percent {
            Some(p) => p,
            None => return None,
        };
        let w: usize = if width < 1 {
            1
        } else {
            width
        };
        let f: usize = (pct as usize) * w / 100;
        let filled: usize = if f < w {
            f
        } else {
            w
        };
        let mut s = String::new();
        push_char(&mut s, '[');
        s.append(repeat_char('#', filled).as_str());
        s.append(repeat_char('-', w - filled).as_str());
        push_char(&mut s, ']');
        Some(s)
    }

    /// The one-line summary: bar, bytes, percent, speed and ETA, as far as
    /// known, or `starting`.
    pub fn summary(&self) -> (s: String)
        ensures
            s@ == summary_of(
                self.bytes,
                self.total_bytes,
                self.percent,
                self.speed_bps,
                self.eta_secs,
            ),
    {
        let mut parts: Vec<String> = Vec::new();
        if let Some(bar) = self.bar(20) {
            parts.push(bar);
        }
        if self.total_bytes > 0 {
            let mut t = format_bytes(self.bytes);
            t.append(" / ");
            t.append(format_bytes(self.total_bytes).as_str());
            parts.push(t);
        } else if self.bytes > 0 {
            parts.push(format_bytes(self.bytes));
        }
        if let Some(pct) = self.percent {
            let mut t = String::new();
            push_dec(&mut t, pct as u64);
            t.append("%");
            parts.push(t);
        }
        if let Some(speed) = self.speed_bps {
            let mut t = format_bytes(speed);
            t.append("/s");
            parts.push(t);
        }
        if let Some(eta) = self.eta_secs {
            let t = cat("ETA ", format_eta(eta).as_str());
            parts.push(t);
        }
        assert(parts.deep_view() =~= summary_parts(
            self.bytes,
            self.total_bytes,
            self.percent,
            self.speed_bps,
            self.eta_secs,
        ));
        if parts.len() == 0 {
            owned("starting")
        } else {
            join_strings(&parts, "  ")
        }
    }
}

/// The effect of one log line: `(changed, progress after)`. Stats replace the
/// counters; an object names the current file; a change stamps the progress.
pub open spec fn after_line(p: TransferProgress, log: LogLine, now: i64) -> (bool, TransferProgress) {
    let a = match log.stats {
        Some(s) => with_stats(p, s),
        None => p,
    };
    let (b, obj_changed) = match log.object {
        Some(o) => if crate::rclone::opt_view(a.file) == Some(o@) {
            (a, false)
        } else {
            (TransferProgress { file: Some(o), ..a }, true)
        },
        None => (a, false),
    };
    let changed = log.stats is Some || obj_changed;
    (changed, if changed {
        touched(b, now).0
    } else {
        b
    })
}

/// Applies one parsed rclone log line (`None` for a line that is empty or not
/// JSON, which changes nothing) and says whether anything changed.
pub fn apply_log_line(progress: &mut TransferProgress, log: Option<&LogLine>, now: i64) -> (changed: bool)
    ensures
        match log {
            None => !changed && *final(progress) == *old(progress),
            Some(l) => {
                let (c, q) = after_line(*old(progress), *l, now);
                &&& changed == c
                &&& *final(progress) == TransferProgress { updated_at: final(progress).updated_at, ..q }
                &&& changed ==> final(progress).updated_at@ == rfc3339(now as int)
                &&& !changed ==> final(progress).updated_at == old(progress).updated_at
            },
        },
{
    let l = match log {
        Some(l) => l,
        None => return false,
    };
    let mut changed = false;
    if let Some(stats) = &l.stats {
        progress.apply_stats(stats);
        changed = true;
    }
    if let Some(obj) = &l.object {
        let same: bool = match &progress.file {
            Some(f) => crate::text::str_eq(f.as_str(), obj.as_str()),
            None => false,
        };
        if !same {
            progress.file = Some(obj.clone());
            changed = true;
        }
    }
    if changed {
        progress.touch_at(now);
    }
    changed
}

/// The text the TUI log shows for an rclone output line, given what the line
/// parses to as an rclone JSON log record (`None` when it does not parse).
pub fn display_rclone_line(line: &str, log: Option<&LogLine>) -> (s: String)
    ensures
        s@ == display_text(line@, match log {
            Some(l) => Some(*l),
            None => None,
        }),
{
    let t = trim_str(line);
    if t.as_str().unicode_len() == 0 {
        proof {
            assert(t@ =~= Seq::<char>::empty());
        }
        return t;
    }
    let l = match log {
        Some(l) => l,
        None => return t,
    };
    if let Some(stats) = &l.stats {
        let mut tmp = TransferProgress::starting_at(None, false, 0);
        tmp.apply_stats(stats);
        tmp.touch_at(0);
        return tmp.summary();
    }
    let m = match &l.msg {
        Some(x) => trim_str(x.as_str()),
        None => String::new(),
    };
    if m.as_str().unicode_len() > 0 {
        match &l.object {
            Some(o) => {
                let mut r = cat(m.as_str(), "  ");
                r.append(o.as_str());
                r
            },
            None => m,
        }
    } else {
        match &l.object {
            Some(o) => o.clone(),
            None => t,
        }
    }
}


/// A percent of bytes is never above 100.
pub proof fn percent_at_most_hundred(bytes: u64, total: u64)
    ensures
        percent_of(bytes, total) matches Some(p) ==> p <= 100,
{
    if total > 0 {
        let b = if bytes < total {
            bytes as int
        } else {
            total as int
        };
        let prod = if b * 100 > u64::MAX {
            u64::MAX as int
        } else {
            b * 100
        };
        assert(prod / (total as int) <= 100) by (nonlinear_arith)
            requires
                0 <= b <= total,
                total > 0,
                0 <= prod <= b * 100,
        ;
    }
}


/// What one log line does to the progress. A line naming an object makes it
/// the current file, and reports a change whenever the file before was a
/// different one. A stats line sets the counters, speed and ETA from the
/// line and always reports a change. A line with neither changes nothing. A
/// change stamps the progress at `now`.
pub proof fn log_line_effects(p: TransferProgress, log: LogLine, now: i64)
    ensures
        ({
            let (changed, q) = after_line(p, log, now);
            &&& (log.object matches Some(o) ==> crate::rclone::opt_view(q.file) == Some(o@))
            &&& (log.object matches Some(o) ==> (crate::rclone::opt_view(p.file) != Some(o@)
                ==> changed))
            &&& (log.stats matches Some(s) ==> changed && q.bytes == s.bytes && q.total_bytes
                == s.total_bytes && q.transfers == s.transfers && q.total_transfers
                == s.total_transfers && q.speed_bps == s.speed && q.eta_secs == s.eta)
            &&& (log.stats is None && log.object is None ==> !changed && q == p)
            &&& (changed ==> q.updated_at_unix == now)
            &&& (changed <==> (log.stats is Some || (log.object matches Some(o)
                && crate::rclone::opt_view(with_file_of(p, log).file) != Some(o@))))
        }),
{
}

/// The progress once a line's stats (if any) are applied, before its object.
pub open spec fn with_file_of(p: TransferProgress, log: LogLine) -> TransferProgress {
    match log.stats {
        Some(s) => with_stats(p, s),
        None => p,
    }
}

} // verus!
