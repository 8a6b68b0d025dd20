//! Swap accounting from the lines of the memory-info pseudo-file.
use vstd::prelude::*;
use crate::report::{CheckResult, Finding, Severity};
use crate::text::{decimal, has_prefix, is_space, is_space_char, push_decimal, starts_with};

verus! {

/// The memory-info pseudo-file.
pub const MEMINFO_PATH: &'static str = "/proc/meminfo";

/// The first index at or after `i` that is not whitespace, or the length.
pub open spec fn skip_space(s: Seq<char>, i: int) -> int
    decreases s.len() - i,
{
    if 0 <= i < s.len() && is_space(s[i]) {
        skip_space(s, i + 1)
    } else {
        i
    }
}

/// The first index at or after `i` that is whitespace, or the length.
pub open spec fn skip_word(s: Seq<char>, i: int) -> int
    decreases s.len() - i,
{
    if 0 <= i < s.len() && !is_space(s[i]) {
        skip_word(s, i + 1)
    } else {
        i
    }
}

/// The second whitespace-separated token of `s`, if it has one.
pub open spec fn second_token(s: Seq<char>) -> Option<Seq<char>> {
    let a = skip_word(s, skip_space(s, 0));
    let b = skip_space(s, a);
    if b < s.len() {
        Some(s.subrange(b, skip_word(s, b)))
    } else {
        None
    }
}

/// Whether `c` is an ASCII decimal digit.
pub open spec fn is_digit(c: char) -> bool {
    '0' <= c && c <= '9'
}

/// The value of a run of decimal digits.
pub open spec fn digits_value(t: Seq<char>) -> nat
    decreases t.len(),
{
    if t.len() == 0 {
        0
    } else {
        digits_value(t.drop_last()) * 10 + ((t.last() as u32) - ('0' as u32)) as nat
    }
}

/// Whether `t` is a non-empty run of decimal digits.
pub open spec fn all_digits(t: Seq<char>) -> bool {
    t.len() > 0 && forall|i: int| 0 <= i < t.len() ==> is_digit(#[trigger] t[i])
}

/// The unsigned integer that `t` spells, as `u64`'s `FromStr` reads it: an
/// optional `+`, then decimal digits whose value fits in 64 bits.
pub open spec fn parse_unsigned(t: Seq<char>) -> Option<u64> {
    let d = if t.len() > 1 && t[0] == '+' { t.drop_first() } else { t };
    if all_digits(d) && digits_value(d) <= u64::MAX {
        Some(digits_value(d) as u64)
    } else {
        None
    }
}

/// The kilobyte figure on a line such as `SwapTotal:   2048 kB`: its second
/// token read as an unsigned integer, or 0 when that is missing or unreadable.
pub open spec fn kb_value(line: Seq<char>) -> u64 {
    match second_token(line) {
        Some(t) => match parse_unsigned(t) {
            Some(v) => v,
            None => 0,
        },
        None => 0,
    }
}

proof fn lemma_digits_prefix(t: Seq<char>, k: int)
    requires
        0 <= k <= t.len(),
    ensures
        digits_value(t.subrange(0, k)) <= digits_value(t),
    decreases t.len(),
{
    if k < t.len() {
        lemma_digits_prefix(t.drop_last(), k);
        assert(t.drop_last().subrange(0, k) =~= t.subrange(0, k));
    } else {
        assert(t.subrange(0, k) =~= t);
    }
}

/// Reads `s[from..to]` as decimal digits.
fn parse_digits(s: &str, from: usize, to: usize) -> (r: Option<u64>)
    requires
        from <= to <= s@.len(),
    ensures
        r == (if all_digits(s@.subrange(from as int, to as int)) && digits_value(
            s@.subrange(from as int, to as int),
        ) <= u64::MAX {
            Some(digits_value(s@.subrange(from as int, to as int)) as u64)
        } else {
            None::<u64>
        }),
{
    let ghost t = s@.subrange(from as int, to as int);
    if from == to {
        return None;
    }
    let mut acc: u64 = 0;
    let mut i: usize = from;
    while i < to
        invariant
            from <= i <= to <= s@.len(),
            t == s@.subrange(from as int, to as int),
            forall|j: int| from <= j < i ==> is_digit(#[trigger] s@[j]),
            acc == digits_value(s@.subrange(from as int, i as int)),
        decreases to - i,
    {
        let c = s.get_char(i);
        proof {
            assert(s@.subrange(from as int, i + 1).drop_last() =~= s@.subrange(from as int, i as int));
        }
        if !('0' <= c && c <= '9') {
            assert(!is_digit(t[i - from]));
            return None;
        }
        let d = (c as u32 - '0' as u32) as u64;
        if acc > (u64::MAX - d) / 10 {
            proof {
                lemma_digits_prefix(t, i + 1 - from);
                assert(t.subrange(0, i + 1 - from) =~= s@.subrange(from as int, i + 1));
                assert(acc * 10 + d > u64::MAX) by (nonlinear_arith)
                    requires acc > (u64::MAX - d) / 10, d < 10;
            }
            return None;
        }
        acc = acc * 10 + d;
        i = i + 1;
    }
    assert(s@.subrange(from as int, i as int) =~= t);
    Some(acc)
}

/// Returns the kilobyte figure on a memory-info line: its second
/// whitespace-separated token read as an unsigned integer, or 0 when the line
/// has no second token or it is not a number.
pub fn parse_kb_value(line: &str) -> (r: u64)
    ensures
        r == kb_value(line@),
{
    let n = line.unicode_len();
    let ghost s = line@;
    let mut i: usize = 0;
    while i < n && is_space_char(line.get_char(i))
        invariant
            s == line@,
            n == s.len(),
            i <= n,
            skip_space(s, i as int) == skip_space(s, 0),
        decreases n - i,
    {
        i = i + 1;
    }
    while i < n && !is_space_char(line.get_char(i))
        invariant
            s == line@,
            n == s.len(),
            i <= n,
            skip_word(s, i as int) == skip_word(s, skip_space(s, 0)),
        decreases n - i,
    {
        i = i + 1;
    }
    while i < n && is_space_char(line.get_char(i))
        invariant
            s == line@,
            n == s.len(),
            i <= n,
            skip_space(s, i as int) == skip_space(s, skip_word(s, skip_space(s, 0))),
        decreases n - i,
    {
        i = i + 1;
    }
    if i == n {
        return 0;
    }
    let start = i;
    while i < n && !is_space_char(line.get_char(i))
        invariant
            s == line@,
            n == s.len(),
            start <= i <= n,
            skip_word(s, i as int) == skip_word(s, start as int),
        decreases n - i,
    {
        i = i + 1;
    }
    let ghost t = s.subrange(start as int, i as int);
    assert(second_token(s) == Some(t));
    if i - start > 1 && line.get_char(start) == '+' {
        assert(t.drop_first() =~= s.subrange(start + 1, i as int));
        match parse_digits(line, start + 1, i) {
            Some(v) => v,
            None => 0,
        }
    } else {
        match parse_digits(line, start, i) {
            Some(v) => v,
            None => 0,
        }
    }
}

/// The figure of the last line that starts with `key`, or 0 when none does.
pub open spec fn last_figure(lines: Seq<Seq<char>>, key: Seq<char>) -> u64
    decreases lines.len(),
{
    if lines.len() == 0 {
        0
    } else if has_prefix(lines.last(), key) {
        kb_value(lines.last())
    } else {
        last_figure(lines.drop_last(), key)
    }
}

/// Total swap in kilobytes, as the memory-info lines give it.
pub open spec fn swap_total_of(lines: Seq<Seq<char>>) -> u64 {
    last_figure(lines, "SwapTotal:"@)
}

/// Free swap in kilobytes, as the memory-info lines give it.
pub open spec fn swap_free_of(lines: Seq<Seq<char>>) -> u64 {
    last_figure(lines, "SwapFree:"@)
}

/// Swap in use: total less free, and 0 where free exceeds total.
pub open spec fn swap_used(total: u64, free: u64) -> u64 {
    if free <= total {
        (total - free) as u64
    } else {
        0
    }
}

/// How swap figures are judged: none configured passes, any in use fails,
/// configured but empty passes.
pub open spec fn swap_finding(total: u64, free: u64) -> Finding {
    if total == 0 {
        (Severity::Pass, "Swap is disabled (Total: 0 kB)"@)
    } else if swap_used(total, free) > 0 {
        (
            Severity::Fail,
            "Swap is IN USE. Used: "@ + decimal(swap_used(total, free) as nat) + " kB / Total: "@
                + decimal(total as nat) + " kB"@,
        )
    } else {
        (Severity::Pass, "Swap exists but is empty. (Total: "@ + decimal(total as nat) + " kB)"@)
    }
}

/// What the swap check reports: an error when the memory-info file could not
/// be read, else the judgment of its figures.
pub open spec fn swap_report(meminfo: Option<Seq<Seq<char>>>) -> Finding {
    match meminfo {
        None => (Severity::Error, "Could not read /proc/meminfo"@),
        Some(lines) => swap_finding(swap_total_of(lines), swap_free_of(lines)),
    }
}

/// Reads the figure of the last line that starts with `key`.
fn figure_of(lines: &Vec<String>, key: &str) -> (r: u64)
    ensures
        r == last_figure(lines.deep_view(), key@),
{
    let mut v: u64 = 0;
    let mut i: usize = 0;
    while i < lines.len()
        invariant
            i <= lines@.len(),
            v == last_figure(lines.deep_view().subrange(0, i as int), key@),
        decreases lines@.len() - i,
    {
        proof {
            assert(lines.deep_view().subrange(0, i + 1).drop_last() =~= lines.deep_view().subrange(
                0,
                i as int,
            ));
        }
        if starts_with(lines[i].as_str(), key) {
            v = parse_kb_value(lines[i].as_str());
        }
        i = i + 1;
    }
    assert(lines.deep_view().subrange(0, i as int) =~= lines.deep_view());
    v
}

/// Judges swap figures given in kilobytes.
pub fn classify_swap(total: u64, free: u64) -> (r: CheckResult)
    ensures
        r@ == swap_finding(total, free),
{
    let used: u64 = if free <= total { total - free } else { 0 };
    if total == 0 {
        CheckResult::new(Severity::Pass, String::from_str("Swap is disabled (Total: 0 kB)"))
    } else if used > 0 {
        let mut m = String::from_str("Swap is IN USE. Used: ");
        push_decimal(&mut m, used);
        m.append(" kB / Total: ");
        push_decimal(&mut m, total);
        m.append(" kB");
        CheckResult::new(Severity::Fail, m)
    } else {
        let mut m = String::from_str("Swap exists but is empty. (Total: ");
        push_decimal(&mut m, total);
        m.append(" kB)");
        CheckResult::new(Severity::Pass, m)
    }
}

/// Checks that no swap is in use, from the lines of the memory-info file, or
/// `None` when it could not be read.
pub fn check_swap_status(meminfo: Option<&Vec<String>>) -> (r: CheckResult)
    ensures
        r@ == swap_report(
            match meminfo {
                Some(l) => Some(l.deep_view()),
                None => None,
            },
        ),
{
    match meminfo {
        None => CheckResult::new(Severity::Error, String::from_str("Could not read /proc/meminfo")),
        Some(lines) => classify_swap(figure_of(lines, "SwapTotal:"), figure_of(lines, "SwapFree:")),
    }
}

} // verus!
