//! Figures read out of `rkdeveloptool` text with the `regex` crate: the
//! progress of a running operation and the size of a storage target.
use vstd::prelude::*;
use crate::numfmt::{parse_i32, parse_i64, parse_u64, parse_signed, parse_unsigned};
use crate::text::views;

verus! {

/// The capture groups (group 0 first) of the leftmost match of the regular
/// expression `pattern` in `haystack`, as the `regex` crate finds it; `None`
/// when the pattern does not compile or nothing matches. A group that took
/// no part in the match is the empty text.
pub uninterp spec fn regex_first_captures(pattern: Seq<char>, haystack: Seq<char>) -> Option<Seq<Seq<char>>>;

/// The view of captured groups.
pub open spec fn captures_view(c: Option<Vec<String>>) -> Option<Seq<Seq<char>>> {
    match c {
        Some(v) => Some(views(v@)),
        None => None,
    }
}

/// Calls `regex::Regex::new(pattern)` and then `Regex::captures(haystack)`,
/// and hands the groups out as owned strings. Its result is named by
/// [`regex_first_captures`]; nothing more is claimed of it.
#[verifier::external_body]
fn first_captures(pattern: &str, haystack: &str) -> (res: Option<Vec<String>>)
    ensures
        captures_view(res) == regex_first_captures(pattern@, haystack@),
{
    let re = regex::Regex::new(pattern).ok()?;
    let caps = re.captures(haystack)?;
    Some(caps.iter().map(|m| m.map_or(String::new(), |m| m.as_str().to_string())).collect())
}

/// A percentage figure such as `42%` in a progress line.
pub const PERCENT_PATTERN: &'static str = r"([0-9]{1,3})%";

/// A `total N[K], current M[K]` counter in a progress line.
pub const COUNTER_PATTERN: &'static str = r"(?i)total\s+(\d+)K?,\s*current\s+(\d+)K?";

/// A `Flash Size: N MB` figure in the flash info.
pub const FLASH_MB_PATTERN: &'static str = r"(?i)Flash\s*Size\s*:\s*(\d+)\s*MB";

/// A sector count in the flash info.
pub const SECTORS_PATTERN: &'static str = r"(?i)(\d+)\s*sectors?";

/// Group `i` of a capture result, when there is one.
pub open spec fn group(c: Option<Seq<Seq<char>>>, i: int) -> Option<Seq<char>> {
    match c {
        Some(g) => if 0 <= i < g.len() {
            Some(g[i])
        } else {
            None
        },
        None => None,
    }
}

/// `v` limited to `[0, 100]`.
pub open spec fn clamp_percent(v: int) -> int {
    if v < 0 {
        0
    } else if v > 100 {
        100
    } else {
        v
    }
}

/// The progress in percent that a line reports, given the matches of
/// [`PERCENT_PATTERN`] and [`COUNTER_PATTERN`] in it: a percentage figure
/// that parses as an `i32` wins, limited to `[0, 100]`; otherwise a counter
/// whose figures both parse as `i64` and whose total is positive gives
/// `current * 100 / total`, limited to `[0, 100]`; otherwise there is none.
pub open spec fn progress_spec(percent: Option<Seq<Seq<char>>>, counter: Option<Seq<Seq<char>>>) -> Option<int> {
    let pct = match group(percent, 1) {
        Some(g) => parse_signed(g, i32::MIN as int, i32::MAX as int),
        None => None,
    };
    match pct {
        Some(n) => Some(clamp_percent(n)),
        None => match (group(counter, 1), group(counter, 2)) {
            (Some(t), Some(c)) => match (
                parse_signed(t, i64::MIN as int, i64::MAX as int),
                parse_signed(c, i64::MIN as int, i64::MAX as int),
            ) {
                (Some(total), Some(current)) => if total > 0 {
                    if current <= 0 {
                        Some(0)
                    } else {
                        Some(clamp_percent((current * 100) / total))
                    }
                } else {
                    None
                },
                _ => None,
            },
            _ => None,
        },
    }
}

/// Group `i` of `caps`, when there is one.
fn group_of(caps: &Option<Vec<String>>, i: usize) -> (res: Option<&String>)
    ensures
        match res {
            Some(s) => group(captures_view(*caps), i as int) == Some(s@),
            None => group(captures_view(*caps), i as int) is None,
        },
{
    match caps {
        Some(v) => if i < v.len() {
            Some(&v[i])
        } else {
            None
        },
        None => None,
    }
}

/// The progress that a line reports, from the captures of
/// [`PERCENT_PATTERN`] and [`COUNTER_PATTERN`] in it.
pub fn progress_from_captures(percent: &Option<Vec<String>>, counter: &Option<Vec<String>>) -> (res: Option<i32>)
    ensures
        match res {
            Some(p) => progress_spec(captures_view(*percent), captures_view(*counter)) == Some(p as int),
            None => progress_spec(captures_view(*percent), captures_view(*counter)) is None,
        },
{
    if let Some(g) = group_of(percent, 1) {
        if let Some(n) = parse_i32(g.as_str()) {
            let p = if n < 0 {
                0
            } else if n > 100 {
                100
            } else {
                n
            };
            return Some(p);
        }
    }
    let t = group_of(counter, 1);
    let c = group_of(counter, 2);
    match (t, c) {
        (Some(t), Some(c)) => {
            let total = parse_i64(t.as_str());
            let current = parse_i64(c.as_str());
            match (total, current) {
                (Some(total), Some(current)) => {
                    if total > 0 {
                        if current <= 0 {
                            Some(0)
                        } else {
                            let scaled: u128 = (current as u128) * 100;
                            let q: u128 = scaled / (total as u128);
                            if q > 100 {
                                Some(100)
                            } else {
                                Some(q as i32)
                            }
                        }
                    } else {
                        None
                    }
                },
                _ => None,
            }
        },
        _ => None,
    }
}

/// The progress in percent that an output line reports, if any.
pub fn parse_progress_percent(line: &str) -> (res: Option<i32>)
    ensures
        match res {
            Some(p) => progress_spec(
                regex_first_captures(PERCENT_PATTERN@, line@),
                regex_first_captures(COUNTER_PATTERN@, line@),
            ) == Some(p as int),
            None => progress_spec(
                regex_first_captures(PERCENT_PATTERN@, line@),
                regex_first_captures(COUNTER_PATTERN@, line@),
            ) is None,
        },
{
    let percent = first_captures(PERCENT_PATTERN, line);
    let counter = first_captures(COUNTER_PATTERN, line);
    progress_from_captures(&percent, &counter)
}

/// The size in 512-byte sectors that a flash info text gives, from the
/// matches of [`FLASH_MB_PATTERN`] and [`SECTORS_PATTERN`] in it: a size in
/// MB that parses as a `u64` gives `MB * 1024 * 1024 / 512` (no value when
/// that product does not fit in a `u64`); otherwise a sector count that
/// parses as a `u64` is taken as it is; otherwise the size is 0.
pub open spec fn flash_size_spec(mb: Option<Seq<Seq<char>>>, sectors: Option<Seq<Seq<char>>>) -> Option<nat> {
    let mb_value = match group(mb, 1) {
        Some(g) => parse_unsigned(g, u64::MAX as nat),
        None => None,
    };
    match mb_value {
        Some(m) => if m * 1048576 <= u64::MAX {
            Some(m * 1048576 / 512)
        } else {
            None
        },
        None => {
            let n = match group(sectors, 1) {
                Some(g) => parse_unsigned(g, u64::MAX as nat),
                None => None,
            };
            match n {
                Some(n) => Some(n),
                None => Some(0),
            }
        },
    }
}

/// The storage size in sectors, from the captures of [`FLASH_MB_PATTERN`]
/// and [`SECTORS_PATTERN`]; `None` when the MB figure is too large for the
/// size in bytes to fit in a `u64`.
pub fn flash_size_from_captures(mb: &Option<Vec<String>>, sectors: &Option<Vec<String>>) -> (res: Option<u64>)
    ensures
        match res {
            Some(n) => flash_size_spec(captures_view(*mb), captures_view(*sectors)) == Some(n as nat),
            None => flash_size_spec(captures_view(*mb), captures_view(*sectors)) is None,
        },
{
    if let Some(g) = group_of(mb, 1) {
        if let Some(m) = parse_u64(g.as_str()) {
            if m <= u64::MAX / 1048576 {
                return Some(m * 1048576 / 512);
            } else {
                return None;
            }
        }
    }
    if let Some(g) = group_of(sectors, 1) {
        if let Some(n) = parse_u64(g.as_str()) {
            return Some(n);
        }
    }
    Some(0)
}

/// The storage size in sectors that the flash info text `rfi` gives (see
/// [`flash_size_spec`]).
pub fn parse_flash_size_sectors(rfi: &str) -> (res: Option<u64>)
    ensures
        match res {
            Some(n) => flash_size_spec(
                regex_first_captures(FLASH_MB_PATTERN@, rfi@),
                regex_first_captures(SECTORS_PATTERN@, rfi@),
            ) == Some(n as nat),
            None => flash_size_spec(
                regex_first_captures(FLASH_MB_PATTERN@, rfi@),
                regex_first_captures(SECTORS_PATTERN@, rfi@),
            ) is None,
        },
{
    let mb = first_captures(FLASH_MB_PATTERN, rfi);
    let sectors = first_captures(SECTORS_PATTERN, rfi);
    flash_size_from_captures(&mb, &sectors)
}

} // verus!
