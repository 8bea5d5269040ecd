//! The vocabulary of `rkdeveloptool`: the commands the application runs,
//! how a finished run is reported, and what of its output is logged.
use vstd::prelude::*;
use crate::numfmt::{decimal, i32_to_decimal, signed_decimal, u64_to_decimal};
use crate::output::{is_progress_line, is_progress_spec, strip_ansi, strip_ansi_spec};
use crate::progress::{parse_progress_percent, progress_spec, regex_first_captures, COUNTER_PATTERN, PERCENT_PATTERN};
use crate::text::{contains_chars, chars_of, has_substring, join_spaced, join_with_spaces, lines_of, owned, text_lines, views};

verus! {

/// How a run of `rkdeveloptool` ended.
#[derive(Debug)]
pub struct ProcessResult {
    pub exit_code: i32,
    pub was_cancelled: bool,
    pub error_message: String,
}

/// A command of `rkdeveloptool`, with its arguments.
pub enum RkCommand {
    /// `td`: test whether the loader answers.
    TestDevice,
    /// `rci`: read the chip information.
    ReadChipInfo,
    /// `rfi`: read the flash information of the selected storage.
    ReadFlashInfo,
    /// `cs N`: select storage target `N`.
    ChangeStorage { storage: u32 },
    /// `rl BEGIN COUNT FILE`: read `COUNT` sectors from `BEGIN` into `FILE`.
    ReadLba { begin: u64, count: u64, path: String },
    /// `wl 0 FILE`: write `FILE` from sector 0.
    WriteLba { path: String },
    /// `db FILE`: download the boot loader `FILE`.
    DownloadBoot { loader: String },
    /// `rd`: reset the device.
    ResetDevice,
    /// `ef`: erase the flash.
    EraseFlash,
}

/// The arguments of a command, as `rkdeveloptool` takes them.
pub open spec fn command_args(c: RkCommand) -> Seq<Seq<char>> {
    match c {
        RkCommand::TestDevice => seq!["td"@],
        RkCommand::ReadChipInfo => seq!["rci"@],
        RkCommand::ReadFlashInfo => seq!["rfi"@],
        RkCommand::ChangeStorage { storage } => seq!["cs"@, decimal(storage as nat)],
        RkCommand::ReadLba { begin, count, path } => seq!["rl"@, decimal(begin as nat), decimal(count as nat), path@],
        RkCommand::WriteLba { path } => seq!["wl"@, "0"@, path@],
        RkCommand::DownloadBoot { loader } => seq!["db"@, loader@],
        RkCommand::ResetDevice => seq!["rd"@],
        RkCommand::EraseFlash => seq!["ef"@],
    }
}

impl RkCommand {
    /// The argument list to hand to `rkdeveloptool`.
    pub fn args(&self) -> (res: Vec<String>)
        ensures
            views(res@) == command_args(*self),
    {
        let mut v: Vec<String> = Vec::new();
        match self {
            RkCommand::TestDevice => {
                v.push(owned("td"));
            },
            RkCommand::ReadChipInfo => {
                v.push(owned("rci"));
            },
            RkCommand::ReadFlashInfo => {
                v.push(owned("rfi"));
            },
            RkCommand::ChangeStorage { storage } => {
                v.push(owned("cs"));
                v.push(u64_to_decimal(*storage as u64));
            },
            RkCommand::ReadLba { begin, count, path } => {
                v.push(owned("rl"));
                v.push(u64_to_decimal(*begin));
                v.push(u64_to_decimal(*count));
                v.push(owned(path.as_str()));
            },
            RkCommand::WriteLba { path } => {
                v.push(owned("wl"));
                v.push(owned("0"));
                v.push(owned(path.as_str()));
            },
            RkCommand::DownloadBoot { loader } => {
                v.push(owned("db"));
                v.push(owned(loader.as_str()));
            },
            RkCommand::ResetDevice => {
                v.push(owned("rd"));
            },
            RkCommand::EraseFlash => {
                v.push(owned("ef"));
            },
        }
        assert(views(v@) =~= command_args(*self));
        v
    }
}

/// Whether `rkdeveloptool` was found (`lookup` is the result of the search).
pub fn tool_available(lookup: &Result<crate::paths::PathModel, String>) -> (res: bool)
    ensures
        res == lookup is Ok,
{
    lookup.is_ok()
}

/// The command line as it is logged: the arguments joined by spaces.
pub fn format_command_line(args: &[String]) -> (res: String)
    ensures
        res@ == join_spaced(views(args@)),
{
    join_with_spaces(args)
}

/// The log line for an invocation of `rkdeveloptool` with `args`.
pub fn log_command(args: &[String]) -> (res: String)
    ensures
        res@ == "[rkdev] $ rkdeveloptool "@ + join_spaced(views(args@)),
{
    let mut s = owned("[rkdev] $ rkdeveloptool ");
    let line = format_command_line(args);
    s.append(line.as_str());
    s
}

/// Standard output and standard error of a run, in one text: the error
/// output follows the standard output on a line of its own.
pub open spec fn combined_output(out: Seq<char>, err: Seq<char>) -> Seq<char> {
    if err.len() == 0 {
        out
    } else if out.len() == 0 {
        err
    } else {
        out + seq!['\n'] + err
    }
}

/// Standard output and standard error of a run, in one text.
pub fn combine_output(out: &str, err: &str) -> (res: String)
    ensures
        res@ == combined_output(out@, err@),
{
    let mut combined = owned(out);
    if !err.is_empty() {
        if !combined.as_str().is_empty() {
            combined.push('\n');
        }
        combined.append(err);
    }
    combined
}

/// The report of a run that ended before its exit status was known (the
/// tool was not found, or waiting for it failed), with the reason.
pub fn run_failure(message: &str) -> (res: ProcessResult)
    ensures
        res.exit_code == -1,
        !res.was_cancelled,
        res.error_message@ == message@,
{
    ProcessResult { exit_code: -1, was_cancelled: false, error_message: owned(message) }
}

/// Whether a run to completion is to be killed: a time limit is set and the
/// time since the start exceeds it (both in nanoseconds).
pub fn timeout_expired(timeout_nanos: Option<u128>, elapsed_nanos: u128) -> (res: bool)
    ensures
        res == match timeout_nanos {
            Some(t) => elapsed_nanos > t,
            None => false,
        },
{
    match timeout_nanos {
        Some(t) => elapsed_nanos > t,
        None => false,
    }
}

/// The message for a run that could not be started.
pub fn spawn_failure(error_text: &str) -> (res: ProcessResult)
    ensures
        res.exit_code == -1,
        !res.was_cancelled,
        res.error_message@ == "failed to start rkdeveloptool: "@ + error_text@,
{
    let mut msg = owned("failed to start rkdeveloptool: ");
    msg.append(error_text);
    ProcessResult { exit_code: -1, was_cancelled: false, error_message: msg }
}

/// How a run to completion is reported: a timed-out run counts as
/// cancelled with code -1; otherwise a non-zero code carries the last line
/// of the output as its message (or a fixed one when there is no output).
pub open spec fn sync_result_spec(status_code: i32, timed_out: bool, combined: Seq<char>) -> (i32, bool, Seq<char>) {
    if timed_out {
        (-1i32, true, "rkdeveloptool timed out"@)
    } else if status_code == 0 {
        (0i32, false, Seq::empty())
    } else if text_lines(combined).len() == 0 {
        (status_code, false, "rkdeveloptool failed"@)
    } else {
        (status_code, false, text_lines(combined).last())
    }
}

/// The report of a finished run to completion.
pub fn sync_result(status_code: i32, timed_out: bool, combined: &str) -> (res: ProcessResult)
    ensures
        (res.exit_code, res.was_cancelled, res.error_message@) == sync_result_spec(status_code, timed_out, combined@),
{
    if timed_out {
        return ProcessResult { exit_code: -1, was_cancelled: true, error_message: owned("rkdeveloptool timed out") };
    }
    if status_code == 0 {
        return ProcessResult { exit_code: 0, was_cancelled: false, error_message: String::new() };
    }
    let lines = lines_of(combined);
    let msg = if lines.len() == 0 {
        owned("rkdeveloptool failed")
    } else {
        owned(lines[lines.len() - 1].as_str())
    };
    ProcessResult { exit_code: status_code, was_cancelled: false, error_message: msg }
}

/// The log lines of a run to completion: each output line without escape
/// sequences, unless it is empty or reports progress, behind `[rkdev] `.
pub open spec fn sync_log_spec(lines: Seq<Seq<char>>) -> Seq<Seq<char>>
    decreases lines.len(),
{
    if lines.len() == 0 {
        Seq::empty()
    } else {
        let clean = strip_ansi_spec(lines.last());
        let rest = sync_log_spec(lines.drop_last());
        if clean.len() != 0 && !is_progress_spec(clean) {
            rest.push("[rkdev] "@ + clean)
        } else {
            rest
        }
    }
}

/// What is logged of the output of a run to completion.
pub fn sync_log_lines(combined: &str) -> (res: Vec<String>)
    ensures
        views(res@) == sync_log_spec(text_lines(combined@)),
{
    let lines = lines_of(combined);
    let ghost ls = views(lines@);
    let mut res: Vec<String> = Vec::new();
    let mut i: usize = 0;
    while i < lines.len()
        invariant
            i <= lines@.len(),
            ls == views(lines@),
            ls == text_lines(combined@),
            views(res@) == sync_log_spec(ls.take(i as int)),
        decreases lines@.len() - i,
    {
        assert(ls.take(i + 1).drop_last() =~= ls.take(i as int));
        assert(ls.take(i + 1).last() == lines@[i as int]@);
        let clean = strip_ansi(lines[i].as_str());
        if !clean.as_str().is_empty() && !is_progress_line(clean.as_str()) {
            let mut l = owned("[rkdev] ");
            l.append(clean.as_str());
            let ghost before = views(res@);
            res.push(l);
            assert(views(res@) =~= before.push(l@));
        }
        i = i + 1;
    }
    assert(ls.take(lines@.len() as int) =~= ls);
    res
}

/// How a background run is reported once the process is gone: cancelled
/// and successful runs carry no message; a failed one names its exit code.
pub open spec fn task_exit_message(exit_code: i32, was_cancelled: bool) -> Seq<char> {
    if was_cancelled || exit_code == 0 {
        Seq::empty()
    } else {
        "rkdeveloptool failed with exit code "@ + signed_decimal(exit_code as int)
    }
}

/// The report of a finished background run.
pub fn task_exit_result(exit_code: i32, was_cancelled: bool) -> (res: ProcessResult)
    ensures
        res.exit_code == exit_code,
        res.was_cancelled == was_cancelled,
        res.error_message@ == task_exit_message(exit_code, was_cancelled),
{
    let error_message = if was_cancelled || exit_code == 0 {
        String::new()
    } else {
        let mut m = owned("rkdeveloptool failed with exit code ");
        let code = i32_to_decimal(exit_code);
        m.append(code.as_str());
        m
    };
    ProcessResult { exit_code, was_cancelled, error_message }
}

/// `s` in lower case, as `str::to_lowercase` maps it (Unicode case mapping).
pub uninterp spec fn lowercase(s: Seq<char>) -> Seq<char>;

/// Calls `str::to_lowercase`; its result is named by [`lowercase`].
#[verifier::external_body]
fn to_lowercase(s: &str) -> (res: String)
    ensures
        res@ == lowercase(s@),
{
    s.to_lowercase()
}

/// The chip lines of a chip-info text, as logged: each line whose lower
/// case holds `chip`, behind `[app] `.
pub open spec fn chip_lines_spec(lines: Seq<Seq<char>>) -> Seq<Seq<char>>
    decreases lines.len(),
{
    if lines.len() == 0 {
        Seq::empty()
    } else {
        let rest = chip_lines_spec(lines.drop_last());
        if has_substring(lowercase(lines.last()), "chip"@) {
            rest.push("[app] "@ + lines.last())
        } else {
            rest
        }
    }
}

/// What is logged of the output of `rci`.
pub fn chip_info_lines(rci: &str) -> (res: Vec<String>)
    ensures
        views(res@) == chip_lines_spec(text_lines(rci@)),
{
    let lines = lines_of(rci);
    let ghost ls = views(lines@);
    let chip = chars_of("chip");
    let mut res: Vec<String> = Vec::new();
    let mut i: usize = 0;
    while i < lines.len()
        invariant
            i <= lines@.len(),
            ls == views(lines@),
            ls == text_lines(rci@),
            chip@ == "chip"@,
            views(res@) == chip_lines_spec(ls.take(i as int)),
        decreases lines@.len() - i,
    {
        assert(ls.take(i + 1).drop_last() =~= ls.take(i as int));
        assert(ls.take(i + 1).last() == lines@[i as int]@);
        let lower = to_lowercase(lines[i].as_str());
        let lc = chars_of(lower.as_str());
        if contains_chars(lc.as_slice(), chip.as_slice()) {
            let mut l = owned("[app] ");
            l.append(lines[i].as_str());
            let ghost before = views(res@);
            res.push(l);
            assert(views(res@) =~= before.push(l@));
        }
        i = i + 1;
    }
    assert(ls.take(lines@.len() as int) =~= ls);
    res
}

/// A tracker that last showed `last` and then took in lines whose reported
/// percentages are `ps` (in order; `None` for a line that reports none): the
/// percentage shown last, and the updates shown, by the rule of
/// [`ProgressTracker::observe`].
pub open spec fn tracker_run(last: int, ps: Seq<Option<int>>) -> (int, Seq<int>)
    decreases ps.len(),
{
    if ps.len() == 0 {
        (last, Seq::empty())
    } else {
        let (l, shown) = tracker_run(last, ps.drop_last());
        match ps.last() {
            Some(p) => if p == l {
                (l, shown)
            } else {
                (p, shown.push(p))
            },
            None => (l, shown),
        }
    }
}

/// Law: over any run of lines, no two consecutive progress updates carry
/// the same value, the first differs from what was shown before, and the
/// tracker remembers the last update shown.
pub proof fn law_progress_updates_never_repeat(last: int, ps: Seq<Option<int>>)
    ensures
        ({
            let (l, shown) = tracker_run(last, ps);
            &&& forall|i: int| 0 <= i < shown.len() - 1 ==> #[trigger] shown[i] != shown[i + 1]
            &&& shown.len() > 0 ==> shown[0] != last && l == shown.last()
            &&& shown.len() == 0 ==> l == last
        }),
    decreases ps.len(),
{
    if ps.len() > 0 {
        law_progress_updates_never_repeat(last, ps.drop_last());
        let (l, shown) = tracker_run(last, ps.drop_last());
        match ps.last() {
            Some(p) => {
                if p != l {
                    let s2 = shown.push(p);
                    assert forall|i: int| 0 <= i < s2.len() - 1 implies #[trigger] s2[i] != s2[i + 1] by {
                        if i < shown.len() - 1 {
                            assert(s2[i] == shown[i] && s2[i + 1] == shown[i + 1]);
                        } else {
                            assert(s2[i] == shown.last());
                        }
                    }
                }
            },
            None => {},
        }
    }
}

/// The progress shown for a running operation: a new percentage is shown
/// only when it differs from the one shown last.
pub struct ProgressTracker {
    pub last: i32,
}

impl ProgressTracker {
    /// A tracker that has shown nothing yet.
    pub fn new() -> (res: Self)
        ensures
            res.last == -1,
    {
        ProgressTracker { last: -1 }
    }

    /// Takes in an output line; returns the percentage to show, if the line
    /// reports one that differs from the last one shown.
    pub fn observe(&mut self, line: &str) -> (res: Option<i32>)
        ensures
            match progress_spec(
                regex_first_captures(PERCENT_PATTERN@, line@),
                regex_first_captures(COUNTER_PATTERN@, line@),
            ) {
                Some(p) => if p == old(self).last {
                    res is None && final(self).last == old(self).last
                } else {
                    res == Some(p as i32) && final(self).last == p
                },
                None => res is None && final(self).last == old(self).last,
            },
            tracker_run(
                old(self).last as int,
                seq![progress_spec(
                    regex_first_captures(PERCENT_PATTERN@, line@),
                    regex_first_captures(COUNTER_PATTERN@, line@),
                )],
            ) == (final(self).last as int, match res {
                Some(p) => seq![p as int],
                None => Seq::<int>::empty(),
            }),
    {
        let ghost last0 = self.last as int;
        let ghost ps = seq![progress_spec(
            regex_first_captures(PERCENT_PATTERN@, line@),
            regex_first_captures(COUNTER_PATTERN@, line@),
        )];
        proof {
            assert(ps.drop_last() =~= Seq::<Option<int>>::empty());
            assert(tracker_run(last0, ps.drop_last()) == (last0, Seq::<int>::empty()));
            assert(ps.last() == ps[0]);
        }
        let res = match parse_progress_percent(line) {
            Some(p) => if p != self.last {
                self.last = p;
                Some(p)
            } else {
                None
            },
            None => None,
        };
        proof {
            if let Some(p) = res {
                assert(Seq::<int>::empty().push(p as int) =~= seq![p as int]);
            }
        }
        res
    }
}

} // verus!
