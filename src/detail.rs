//! Turning the output of read-only inspection commands into repository
//! details: line counts, decimal counts, trimmed text and calendar dates.

use vstd::prelude::*;
use crate::models::RepoDetail;
use vstd::utf8::{decode_utf8, valid_utf8};

verus! {

/// The calendar day, `YYYY-MM-DD` in UTC, of a Unix timestamp in seconds,
/// or `None` where the timestamp lies outside the supported range.
pub uninterp spec fn utc_day_text(secs: i64) -> Option<Seq<char>>;

/// Relies on chrono's `DateTime::<Utc>::from_timestamp` and `format("%Y-%m-%d")`:
/// the result depends on the timestamp alone.
#[verifier::external_body]
fn format_utc_day(secs: i64) -> (r: Option<String>)
    ensures
        r is Some <==> utc_day_text(secs) is Some,
        r matches Some(t) ==> utc_day_text(secs) == Some(t@),
{
    chrono::DateTime::<chrono::Utc>::from_timestamp(secs, 0).map(
        |dt| dt.format("%Y-%m-%d").to_string(),
    )
}

/// The text `String::from_utf8_lossy` makes of `bytes`.
pub uninterp spec fn lossy_text(bytes: Seq<u8>) -> Seq<char>;

/// Relies on `String::from_utf8_lossy`: valid UTF-8 is decoded unchanged,
/// invalid sequences become replacement characters.
#[verifier::external_body]
fn text_of(bytes: &[u8]) -> (r: String)
    ensures
        r@ == lossy_text(bytes@),
        valid_utf8(bytes@) ==> r@ == decode_utf8(bytes@),
{
    String::from_utf8_lossy(bytes).into_owned()
}

/// The placeholder shown where a value could not be determined.
pub open spec fn unknown_text() -> Seq<char> {
    "未知"@
}

/// The number of newline bytes in `s`.
pub open spec fn newline_count(s: Seq<u8>) -> nat
    decreases s.len(),
{
    if s.len() == 0 {
        0
    } else {
        newline_count(s.drop_last()) + if s.last() == 10 {
            1nat
        } else {
            0nat
        }
    }
}

/// The number of lines of `s`: each newline ends one, and a last line
/// without a newline counts too.
pub open spec fn line_count(s: Seq<u8>) -> nat {
    if s.len() == 0 || s.last() == 10 {
        newline_count(s)
    } else {
        newline_count(s) + 1
    }
}

/// `n` as an `i32`, saturating at `i32::MAX`.
pub open spec fn saturate_i32(n: nat) -> i32 {
    if n <= i32::MAX {
        n as i32
    } else {
        i32::MAX
    }
}

proof fn lemma_newline_count_bound(s: Seq<u8>)
    ensures
        newline_count(s) <= s.len(),
    decreases s.len(),
{
    if s.len() > 0 {
        lemma_newline_count_bound(s.drop_last());
    }
}

/// The number of lines in a command's output, as a branch listing counts
/// branches.
pub fn count_lines(out: &[u8]) -> (r: i32)
    ensures
        r == saturate_i32(line_count(out@)),
{
    let n = out.len();
    let mut count: usize = 0;
    let mut i: usize = 0;
    while i < n
        invariant
            n == out@.len(),
            i <= n,
            count == newline_count(out@.subrange(0, i as int)),
            count <= i,
        decreases n - i,
    {
        assert(out@.subrange(0, i + 1).drop_last() =~= out@.subrange(0, i as int));
        if out[i] == 10 {
            count = count + 1;
        }
        i = i + 1;
    }
    assert(out@.subrange(0, n as int) =~= out@);
    if n > 0 && out[n - 1] != 10 {
        proof {
            lemma_newline_count_bound(out@.drop_last());
        }
        count = count + 1;
    }
    if count > 2147483647 {
        2147483647
    } else {
        count as i32
    }
}

/// Unicode `White_Space`, the set `char::is_whitespace` is documented to test.
pub open spec fn is_white(c: char) -> bool {
    let v = c as u32;
    (9 <= v && v <= 13) || v == 32 || v == 0x85 || v == 0xa0 || v == 0x1680 || (0x2000 <= v && v
        <= 0x200a) || v == 0x2028 || v == 0x2029 || v == 0x202f || v == 0x205f || v == 0x3000
}

fn is_white_char(c: char) -> (r: bool)
    ensures
        r == is_white(c),
{
    let v = c as u32;
    (9 <= v && v <= 13) || v == 32 || v == 0x85 || v == 0xa0 || v == 0x1680 || (0x2000 <= v && v
        <= 0x200a) || v == 0x2028 || v == 0x2029 || v == 0x202f || v == 0x205f || v == 0x3000
}

/// The first index at or after `i` that does not hold whitespace.
pub open spec fn skip_white(s: Seq<char>, i: int) -> int
    decreases s.len() - i,
{
    if i < 0 || i >= s.len() {
        if i < 0 { 0 } else { s.len() as int }
    } else if is_white(s[i]) {
        skip_white(s, i + 1)
    } else {
        i
    }
}

/// The end of `s` once whitespace before index `j` and at or after `lo` is cut off.
pub open spec fn cut_white(s: Seq<char>, lo: int, j: int) -> int
    decreases j - lo,
{
    if j <= lo || j > s.len() {
        if j <= lo { lo } else { s.len() as int }
    } else if is_white(s[j - 1]) {
        cut_white(s, lo, j - 1)
    } else {
        j
    }
}

/// `s` without leading and trailing whitespace, as `str::trim` cuts it.
pub open spec fn trim_white(s: Seq<char>) -> Seq<char> {
    let lo = skip_white(s, 0);
    s.subrange(lo, cut_white(s, lo, s.len() as int))
}

/// `s` without leading and trailing whitespace.
pub fn trim_text(s: &str) -> (r: &str)
    ensures
        r@ == trim_white(s@),
{
    let n = s.unicode_len();
    let mut lo: usize = 0;
    while lo < n && is_white_char(s.get_char(lo))
        invariant
            n == s@.len(),
            lo <= n,
            skip_white(s@, lo as int) == skip_white(s@, 0),
        decreases n - lo,
    {
        lo = lo + 1;
    }
    let mut hi: usize = n;
    while hi > lo && is_white_char(s.get_char(hi - 1))
        invariant
            n == s@.len(),
            lo <= hi <= n,
            lo == skip_white(s@, 0),
            cut_white(s@, lo as int, hi as int) == cut_white(s@, lo as int, n as int),
        decreases hi,
    {
        hi = hi - 1;
    }
    s.substring_char(lo, hi)
}

pub open spec fn is_digit(c: char) -> bool {
    48 <= (c as u32) && (c as u32) <= 57
}

/// The value of a sequence of decimal digits.
pub open spec fn digits_value(s: Seq<char>) -> nat
    decreases s.len(),
{
    if s.len() == 0 {
        0
    } else {
        digits_value(s.drop_last()) * 10 + ((s.last() as u32) - 48) as nat
    }
}

pub open spec fn all_digits(s: Seq<char>) -> bool {
    forall|i: int| 0 <= i < s.len() ==> is_digit(#[trigger] s[i])
}

/// A decimal `i32`: an optional `+` or `-`, then at least one digit, with a
/// value in range; `None` for anything else.
pub open spec fn parse_i32_spec(t: Seq<char>) -> Option<i32> {
    let neg = t.len() > 0 && t[0] == '-';
    let digits = if t.len() > 0 && (t[0] == '-' || t[0] == '+') {
        t.drop_first()
    } else {
        t
    };
    let v: int = if neg {
        -digits_value(digits)
    } else {
        digits_value(digits) as int
    };
    if digits.len() == 0 || !all_digits(digits) || v < i32::MIN || v > i32::MAX {
        None
    } else {
        Some(v as i32)
    }
}

/// A count printed by a command: its text, trimmed, read as an `i32`; or 0.
pub open spec fn printed_count(out: Seq<u8>) -> i32 {
    match parse_i32_spec(trim_white(lossy_text(out))) {
        Some(v) => v,
        None => 0,
    }
}

proof fn lemma_digits_value_prefix(s: Seq<char>, k: int)
    requires
        0 <= k <= s.len(),
        all_digits(s),
    ensures
        digits_value(s.subrange(0, k)) <= digits_value(s),
    decreases s.len() - k,
{
    if k < s.len() {
        let t = s.subrange(0, k + 1);
        assert(t.drop_last() =~= s.subrange(0, k));
        assert(is_digit(t.last()));
        lemma_digits_value_prefix(s, k + 1);
    } else {
        assert(s.subrange(0, k) =~= s);
    }
}

/// Reads `t` as a decimal `i32` with an optional sign.
pub fn parse_i32(t: &str) -> (r: Option<i32>)
    ensures
        r == parse_i32_spec(t@),
{
    let n = t.unicode_len();
    let mut start: usize = 0;
    let mut neg = false;
    if n > 0 {
        let c = t.get_char(0);
        if c == '-' || c == '+' {
            neg = c == '-';
            start = 1;
        }
    }
    let ghost digits = t@.subrange(start as int, n as int);
    assert(n > 0 && (t@[0] == '-' || t@[0] == '+') ==> digits =~= t@.drop_first());
    assert(!(n > 0 && (t@[0] == '-' || t@[0] == '+')) ==> digits =~= t@);
    assert(neg == (t@.len() > 0 && t@[0] == '-'));
    if start == n {
        return None;
    }
    let mut v: u64 = 0;
    let mut i: usize = start;
    while i < n
        invariant
            start <= i <= n,
            n == t@.len(),
            digits == t@.subrange(start as int, n as int),
            digits == (if t@.len() > 0 && (t@[0] == '-' || t@[0] == '+') {
                t@.drop_first()
            } else {
                t@
            }),
            v == digits_value(t@.subrange(start as int, i as int)),
            v <= 2147483648,
            forall|j: int| start <= j < i ==> is_digit(#[trigger] t@[j]),
        decreases n - i,
    {
        let c = t.get_char(i);
        let d = c as u32;
        if d < 48 || d > 57 {
            assert(digits[i - start] == c);
            assert(!all_digits(digits));
            return None;
        }
        assert(t@.subrange(start as int, i + 1).drop_last() =~= t@.subrange(start as int, i as int));
        v = v * 10 + (d - 48) as u64;
        i = i + 1;
        if v > 2147483648 {
            proof {
                assert(t@.subrange(start as int, i as int) =~= digits.subrange(0, i - start));
                if all_digits(digits) {
                    lemma_digits_value_prefix(digits, i - start);
                }
            }
            return None;
        }
    }
    assert(t@.subrange(start as int, n as int) =~= digits);
    assert(all_digits(digits));
    if neg {
        Some((0 - (v as i64)) as i32)
    } else if v > 2147483647 {
        None
    } else {
        Some(v as i32)
    }
}

/// The count a command printed, or 0 where it printed no valid `i32`.
pub fn count_from_output(out: &[u8]) -> (r: i32)
    ensures
        r == printed_count(out@),
{
    let text = text_of(out);
    match parse_i32(trim_text(text.as_str())) {
        Some(v) => v,
        None => 0,
    }
}

/// The creation day shown for a repository whose directory was created
/// `secs` seconds after the Unix epoch, where that is known.
pub open spec fn created_text(secs: Option<u64>) -> Seq<char> {
    match secs {
        Some(s) => if s <= i64::MAX {
            match utc_day_text(s as i64) {
                Some(t) => t,
                None => unknown_text(),
            }
        } else {
            unknown_text()
        },
        None => unknown_text(),
    }
}

/// The text of a command's output without surrounding whitespace, or
/// the placeholder where the command failed.
pub open spec fn output_text(out: Option<Seq<u8>>) -> Seq<char> {
    match out {
        Some(o) => trim_white(lossy_text(o)),
        None => unknown_text(),
    }
}

/// The day a repository was created, from its directory's creation time.
pub fn created_at_text(secs: Option<u64>) -> (r: String)
    ensures
        r@ == created_text(secs),
{
    match secs {
        Some(s) => {
            if s <= 9223372036854775807 {
                day_or_placeholder(format_utc_day(s as i64))
            } else {
                day_or_placeholder(None)
            }
        },
        None => day_or_placeholder(None),
    }
}

/// The formatted day where there is one, else the placeholder.
pub fn day_or_placeholder(day: Option<String>) -> (r: String)
    ensures
        r@ == match day {
            Some(d) => d@,
            None => unknown_text(),
        },
{
    match day {
        Some(d) => d,
        None => String::from_str("未知"),
    }
}

/// The trimmed text of a successful command's output, or the placeholder
/// where it failed.
pub fn trimmed_text(out: Option<&[u8]>) -> (r: String)
    ensures
        r@ == output_text(
            match out {
                Some(o) => Some(o@),
                None => None,
            },
        ),
{
    match out {
        Some(o) => {
            let text = text_of(o);
            String::from_str(trim_text(text.as_str()))
        },
        None => String::from_str("未知"),
    }
}

/// Assembles the details of repository `name` from what inspection found:
/// the directory's creation time, and the output of the last-commit, branch
/// listing and commit count commands where they succeeded.
pub fn repo_detail(
    name: String,
    created_secs: Option<u64>,
    last_commit_out: Option<Vec<u8>>,
    branches_out: Option<Vec<u8>>,
    commits_out: Option<Vec<u8>>,
) -> (r: RepoDetail)
    ensures
        r.name == name,
        r.created_at@ == created_text(created_secs),
        r.last_commit@ == output_text(
            match last_commit_out {
                Some(o) => Some(o@),
                None => None,
            },
        ),
        branches_out matches Some(o) ==> r.branch_count == saturate_i32(line_count(o@)),
        branches_out is None ==> r.branch_count == 0,
        commits_out matches Some(o) ==> r.commit_count == printed_count(o@),
        commits_out is None ==> r.commit_count == 0,
{
    let created_at = created_at_text(created_secs);
    let last_commit = match &last_commit_out {
        Some(o) => trimmed_text(Some(o.as_slice())),
        None => trimmed_text(None),
    };
    let branch_count = match &branches_out {
        Some(o) => count_lines(o.as_slice()),
        None => 0,
    };
    let commit_count = match &commits_out {
        Some(o) => count_from_output(o.as_slice()),
        None => 0,
    };
    RepoDetail { name, created_at, last_commit, branch_count, commit_count }
}

} // verus!
