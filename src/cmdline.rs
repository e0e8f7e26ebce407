//! The kernel command line: whitespace-separated `key=value` arguments, of which
//! `LOG_LEVEL` is recognised.
use vstd::prelude::*;

verus! {

/// How much the kernel logs, from least to most.
#[derive(Debug, Clone, Copy, PartialEq, Eq)]
pub enum LogLevel {
    Fatal,
    Error,
    Warn,
    Info,
    Trace,
}

/// Byte `c` separates arguments.
pub open spec fn is_space(c: u8) -> bool {
    c == 0x20 || c == 0x09 || c == 0x0a || c == 0x0b || c == 0x0c || c == 0x0d
}

/// The length of the argument at the start of `s`.
pub open spec fn token_len(s: Seq<u8>) -> int
    decreases s.len(),
{
    if s.len() == 0 || is_space(s[0]) {
        0
    } else {
        1 + token_len(s.drop_first())
    }
}

/// The arguments of `s`, in order.
pub open spec fn tokens(s: Seq<u8>) -> Seq<Seq<u8>>
    decreases s.len(),
{
    if s.len() == 0 {
        Seq::empty()
    } else if is_space(s[0]) {
        tokens(s.drop_first())
    } else {
        let n = token_len(s);
        if 0 < n <= s.len() {
            seq![s.subrange(0, n)].add(tokens(s.subrange(n, s.len() as int)))
        } else {
            Seq::empty()
        }
    }
}

/// The text `LOG_LEVEL=`.
pub open spec fn log_level_key() -> Seq<u8> {
    seq![0x4cu8, 0x4fu8, 0x47u8, 0x5fu8, 0x4cu8, 0x45u8, 0x56u8, 0x45u8, 0x4cu8, 0x3du8]
}

/// The level that the value `v` names, if it names one.
pub open spec fn level_named(v: Seq<u8>) -> Option<LogLevel> {
    if v == seq![0x54u8, 0x52u8, 0x41u8, 0x43u8, 0x45u8] {
        Some(LogLevel::Trace)
    } else if v == seq![0x49u8, 0x4eu8, 0x46u8, 0x4fu8] {
        Some(LogLevel::Info)
    } else if v == seq![0x57u8, 0x41u8, 0x52u8, 0x4eu8] {
        Some(LogLevel::Warn)
    } else if v == seq![0x45u8, 0x52u8, 0x52u8, 0x4fu8, 0x52u8] {
        Some(LogLevel::Error)
    } else if v == seq![0x46u8, 0x41u8, 0x54u8, 0x41u8, 0x4cu8] {
        Some(LogLevel::Fatal)
    } else {
        None
    }
}

/// The level after argument `t`: `LOG_LEVEL=<name>` with a known name sets it;
/// any other argument leaves it.
pub open spec fn apply_arg(t: Seq<u8>, level: LogLevel) -> LogLevel {
    if t.len() >= 10 && t.subrange(0, 10) == log_level_key() {
        match level_named(t.subrange(10, t.len() as int)) {
            Some(l) => l,
            None => level,
        }
    } else {
        level
    }
}

/// The level after the arguments `ts`, taken in order.
pub open spec fn apply_args(ts: Seq<Seq<u8>>, level: LogLevel) -> LogLevel
    decreases ts.len(),
{
    if ts.len() == 0 {
        level
    } else {
        apply_args(ts.drop_first(), apply_arg(ts[0], level))
    }
}

/// Whether `s[start..end]` is exactly `lit`.
fn bytes_equal(s: &[u8], start: usize, end: usize, lit: &[u8]) -> (r: bool)
    requires
        start <= end <= s@.len(),
    ensures
        r == (s@.subrange(start as int, end as int) == lit@),
{
    if end - start != lit.len() {
        return false;
    }
    let mut k: usize = 0;
    while k < lit.len()
        invariant
            end - start == lit@.len(),
            start <= end <= s@.len(),
            k <= lit@.len(),
            forall|j: int| 0 <= j < k ==> s@[start + j] == lit@[j],
        decreases lit@.len() - k,
    {
        if s[start + k] != lit[k] {
            assert(s@.subrange(start as int, end as int)[k as int] != lit@[k as int]);
            return false;
        }
        k = k + 1;
    }
    assert(s@.subrange(start as int, end as int) =~= lit@);
    true
}

fn is_space_byte(c: u8) -> (r: bool)
    ensures
        r == is_space(c),
{
    c == 0x20 || c == 0x09 || c == 0x0a || c == 0x0b || c == 0x0c || c == 0x0d
}

/// The level after the argument `s[start..end]`.
fn parse_arg(s: &[u8], start: usize, end: usize, level: LogLevel) -> (r: LogLevel)
    requires
        start <= end <= s@.len(),
    ensures
        r == apply_arg(s@.subrange(start as int, end as int), level),
{
    let ghost t = s@.subrange(start as int, end as int);
    if end - start < 10 {
        return level;
    }
    let key: [u8; 10] = [0x4c, 0x4f, 0x47, 0x5f, 0x4c, 0x45, 0x56, 0x45, 0x4c, 0x3d];
    assert(key@ =~= log_level_key());
    let v = start + 10;
    assert(t.subrange(0, 10) =~= s@.subrange(start as int, v as int));
    assert(t.subrange(10, t.len() as int) =~= s@.subrange(v as int, end as int));
    if !bytes_equal(s, start, v, key.as_slice()) {
        return level;
    }
    let trace: [u8; 5] = [0x54, 0x52, 0x41, 0x43, 0x45];
    let info: [u8; 4] = [0x49, 0x4e, 0x46, 0x4f];
    let warn: [u8; 4] = [0x57, 0x41, 0x52, 0x4e];
    let error: [u8; 5] = [0x45, 0x52, 0x52, 0x4f, 0x52];
    let fatal: [u8; 5] = [0x46, 0x41, 0x54, 0x41, 0x4c];
    assert(trace@ =~= seq![0x54u8, 0x52u8, 0x41u8, 0x43u8, 0x45u8]);
    assert(info@ =~= seq![0x49u8, 0x4eu8, 0x46u8, 0x4fu8]);
    assert(warn@ =~= seq![0x57u8, 0x41u8, 0x52u8, 0x4eu8]);
    assert(error@ =~= seq![0x45u8, 0x52u8, 0x52u8, 0x4fu8, 0x52u8]);
    assert(fatal@ =~= seq![0x46u8, 0x41u8, 0x54u8, 0x41u8, 0x4cu8]);
    if bytes_equal(s, v, end, trace.as_slice()) {
        LogLevel::Trace
    } else if bytes_equal(s, v, end, info.as_slice()) {
        LogLevel::Info
    } else if bytes_equal(s, v, end, warn.as_slice()) {
        LogLevel::Warn
    } else if bytes_equal(s, v, end, error.as_slice()) {
        LogLevel::Error
    } else if bytes_equal(s, v, end, fatal.as_slice()) {
        LogLevel::Fatal
    } else {
        level
    }
}

/// The log level that the command line `cmdline` selects, starting from `level`:
/// each `LOG_LEVEL=<name>` argument with a known name sets it, in order, so the last
/// one wins; unknown names and other arguments are ignored.
pub fn parse_cmdline(cmdline: &[u8], level: LogLevel) -> (r: LogLevel)
    ensures
        r == apply_args(tokens(cmdline@), level),
{
    let n = cmdline.len();
    let ghost s = cmdline@;
    let ghost level0 = level;
    let mut level = level;
    let mut i: usize = 0;
    assert(s.subrange(0, n as int) =~= s);
    while i < n
        invariant
            i <= n == s.len(),
            s == cmdline@,
            apply_args(tokens(s), level0) == apply_args(
                tokens(s.subrange(i as int, n as int)),
                level,
            ),
        decreases n - i,
    {
        if is_space_byte(cmdline[i]) {
            assert(s.subrange(i as int, n as int).drop_first() =~= s.subrange(i + 1, n as int));
            assert(s.subrange(i as int, n as int)[0] == s[i as int]);
            i = i + 1;
        } else {
            let start = i;
            while i < n && !is_space_byte(cmdline[i])
                invariant
                    start <= i <= n == s.len(),
                    s == cmdline@,
                    start < n,
                    !is_space(s[start as int]),
                    token_len(s.subrange(start as int, n as int)) == (i - start) + token_len(
                        s.subrange(i as int, n as int),
                    ),
                decreases n - i,
            {
                assert(s.subrange(i as int, n as int).drop_first() =~= s.subrange(i + 1, n as int));
                i = i + 1;
            }
            proof {
                let rest = s.subrange(start as int, n as int);
                assert(token_len(s.subrange(i as int, n as int)) == 0);
                lemma_token_len_bound(rest);
                assert(rest.subrange(0, i - start) =~= s.subrange(start as int, i as int));
                assert(rest.subrange(i - start, rest.len() as int) =~= s.subrange(i as int, n as int));
                assert(rest[0] == s[start as int]);
                assert(token_len(rest) == i - start);
                let ts = tokens(rest);
                assert(ts == seq![rest.subrange(0, i - start)].add(
                    tokens(rest.subrange(i - start, rest.len() as int)),
                ));
                assert(ts[0] == s.subrange(start as int, i as int));
                assert(ts.drop_first() =~= tokens(s.subrange(i as int, n as int)));
            }
            level = parse_arg(cmdline, start, i, level);
        }
    }
    assert(s.subrange(n as int, n as int) =~= Seq::<u8>::empty());
    level
}

proof fn lemma_token_len_bound(s: Seq<u8>)
    ensures
        0 <= token_len(s) <= s.len(),
    decreases s.len(),
{
    if s.len() > 0 && !is_space(s[0]) {
        lemma_token_len_bound(s.drop_first());
    }
}

} // verus!
