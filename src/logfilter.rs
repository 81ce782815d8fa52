//! Which log records are kept: records from noisy targets are dropped, and
//! records above the configured verbosity.
use vstd::prelude::*;
use crate::text::chars_of;

verus! {

/// The severity of a record, most severe first.
#[derive(Debug, Clone, Copy, PartialEq, Eq, Structural)]
pub enum LogLevel {
    Error,
    Warn,
    Info,
    Debug,
    Trace,
}

/// The most verbose level kept; `Off` keeps nothing.
#[derive(Debug, Clone, Copy, PartialEq, Eq, Structural)]
pub enum LevelFilter {
    Off,
    Error,
    Warn,
    Info,
    Debug,
    Trace,
}

pub open spec fn level_rank(l: LogLevel) -> nat {
    match l {
        LogLevel::Error => 1,
        LogLevel::Warn => 2,
        LogLevel::Info => 3,
        LogLevel::Debug => 4,
        LogLevel::Trace => 5,
    }
}

pub open spec fn filter_rank(f: LevelFilter) -> nat {
    match f {
        LevelFilter::Off => 0,
        LevelFilter::Error => 1,
        LevelFilter::Warn => 2,
        LevelFilter::Info => 3,
        LevelFilter::Debug => 4,
        LevelFilter::Trace => 5,
    }
}

/// The target prefixes whose records are dropped.
pub open spec fn ignored_prefixes() -> Seq<Seq<char>> {
    seq![
        "sled"@,
        "rustls"@,
        "net::channel"@,
        "net::message_publisher"@,
        "net::hosts"@,
        "net::protocol"@,
        "net::session"@,
        "event_graph::dag_sync"@,
    ]
}

pub open spec fn is_prefix(p: Seq<char>, s: Seq<char>) -> bool {
    p.len() <= s.len() && s.subrange(0, p.len() as int) == p
}

/// Whether records of `target` are dropped whatever their level.
pub open spec fn target_ignored(target: Seq<char>) -> bool {
    exists|k: int| 0 <= k < ignored_prefixes().len() && is_prefix(#[trigger] ignored_prefixes()[k], target)
}

/// The ignored target prefixes, in order.
pub fn ignored_targets() -> (r: Vec<&'static str>)
    ensures
        r@.len() == ignored_prefixes().len(),
        forall|k: int| 0 <= k < r@.len() ==> (#[trigger] r@[k])@ == ignored_prefixes()[k],
{
    proof {
        reveal_strlit("sled");
        reveal_strlit("rustls");
        reveal_strlit("net::channel");
        reveal_strlit("net::message_publisher");
        reveal_strlit("net::hosts");
        reveal_strlit("net::protocol");
        reveal_strlit("net::session");
        reveal_strlit("event_graph::dag_sync");
    }
    let mut r: Vec<&'static str> = Vec::new();
    r.push("sled");
    r.push("rustls");
    r.push("net::channel");
    r.push("net::message_publisher");
    r.push("net::hosts");
    r.push("net::protocol");
    r.push("net::session");
    r.push("event_graph::dag_sync");
    r
}

fn prefix_of(p: &Vec<char>, s: &Vec<char>) -> (r: bool)
    ensures
        r == is_prefix(p@, s@),
{
    if p.len() > s.len() {
        return false;
    }
    let mut i: usize = 0;
    while i < p.len()
        invariant
            p@.len() <= s@.len(),
            i <= p@.len(),
            forall|j: int| 0 <= j < i ==> p@[j] == s@[j],
        decreases p@.len() - i,
    {
        if p[i] != s[i] {
            return false;
        }
        i += 1;
    }
    assert(s@.subrange(0, p@.len() as int) =~= p@);
    true
}

/// Whether records of `target` are dropped whatever their level.
pub fn is_target_ignored(target: &str) -> (r: bool)
    ensures
        r == target_ignored(target@),
{
    let t = chars_of(target);
    let prefixes = ignored_targets();
    let mut k: usize = 0;
    while k < prefixes.len()
        invariant
            k <= prefixes@.len(),
            t@ == target@,
            prefixes@.len() == ignored_prefixes().len(),
            forall|m: int| 0 <= m < prefixes@.len() ==> (#[trigger] prefixes@[m])@ == ignored_prefixes()[m],
            forall|m: int| 0 <= m < k ==> !is_prefix(#[trigger] ignored_prefixes()[m], target@),
        decreases prefixes@.len() - k,
    {
        let p = chars_of(prefixes[k]);
        if prefix_of(&p, &t) {
            assert(is_prefix(ignored_prefixes()[k as int], target@));
            return true;
        }
        k += 1;
    }
    false
}

/// Whether a record of `target` at `level` is kept under `max`.
pub fn enabled(target: &str, level: LogLevel, max: LevelFilter) -> (r: bool)
    ensures
        r == (!target_ignored(target@) && level_rank(level) <= filter_rank(max)),
{
    if is_target_ignored(target) {
        return false;
    }
    let l: u8 = match level {
        LogLevel::Error => 1,
        LogLevel::Warn => 2,
        LogLevel::Info => 3,
        LogLevel::Debug => 4,
        LogLevel::Trace => 5,
    };
    let m: u8 = match max {
        LevelFilter::Off => 0,
        LevelFilter::Error => 1,
        LevelFilter::Warn => 2,
        LevelFilter::Info => 3,
        LevelFilter::Debug => 4,
        LevelFilter::Trace => 5,
    };
    l <= m
}

} // verus!
