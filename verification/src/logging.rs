//! The session log: where it lives, which numbered file a session writes,
//! and where each line goes in that file. A run of progress lines keeps a
//! single line in the file: each one overwrites the one before it.
use vstd::prelude::*;
use crate::numfmt::{i32_to_decimal, parse_i32, parse_signed, signed_decimal};
use crate::paths::{path_view, HostOs, PathModel};
use crate::text::{chars_of, owned, string_from_chars};

verus! {

/// Where the next line of the log file goes.
pub struct LogState {
    /// The line written last was a progress line.
    pub last_was_progress: bool,
    /// Where the file ends, in bytes.
    pub file_end: u64,
    /// Where the last progress line starts, while it may still be replaced.
    pub replace_offset: Option<u64>,
}

/// How to write one line: cut the file at `truncate_to` first, where it is
/// given, then write `line` and a newline at `write_at`. `replace` tells the
/// live view that the line takes the place of the one before it.
pub struct LogWrite {
    pub line: String,
    pub truncate_to: Option<u64>,
    pub write_at: u64,
    pub replace: bool,
}

/// The state after planning a line, the cut, the write position and the
/// replace flag. A progress line right after a progress line replaces it:
/// the file is cut back to where that line started.
pub open spec fn plan_spec(s: LogState, progress: bool) -> (LogState, Option<u64>, u64, bool) {
    let replace = progress && s.last_was_progress;
    if replace && s.replace_offset is Some {
        let off = s.replace_offset->0;
        (LogState { file_end: off, ..s }, Some(off), off, true)
    } else {
        (s, None, s.file_end, replace)
    }
}

/// The state after a line of `byte_len` bytes was written where
/// [`plan_spec`] said.
pub open spec fn written_spec(s: LogState, progress: bool, byte_len: u64) -> LogState {
    LogState {
        last_was_progress: progress,
        file_end: (s.file_end + byte_len) as u64,
        replace_offset: if progress {
            Some(s.file_end)
        } else {
            None
        },
    }
}

impl LogState {
    /// The state of a new, empty log file.
    pub fn new() -> (res: Self)
        ensures
            res == (LogState { last_was_progress: false, file_end: 0, replace_offset: None }),
    {
        LogState { last_was_progress: false, file_end: 0, replace_offset: None }
    }

    fn plan(&mut self, line: String, progress: bool) -> (res: LogWrite)
        ensures
            (*final(self), res.truncate_to, res.write_at, res.replace) == plan_spec(*old(self), progress),
            res.line@ == line@,
    {
        let replace = progress && self.last_was_progress;
        let mut truncate_to: Option<u64> = None;
        if replace {
            if let Some(off) = self.replace_offset {
                self.file_end = off;
                truncate_to = Some(off);
            }
        }
        LogWrite { line, truncate_to, write_at: self.file_end, replace }
    }

    /// Plans an ordinary line.
    pub fn write_line(&mut self, line: &str) -> (res: LogWrite)
        ensures
            (*final(self), res.truncate_to, res.write_at, res.replace) == plan_spec(*old(self), false),
            res.line@ == line@,
    {
        self.plan(owned(line), false)
    }

    /// Plans a progress line `[category] message`.
    pub fn write_progress(&mut self, category: &str, message: &str) -> (res: LogWrite)
        ensures
            (*final(self), res.truncate_to, res.write_at, res.replace) == plan_spec(*old(self), true),
            res.line@ == seq!['['] + category@ + "] "@ + message@,
    {
        let mut line = String::new();
        line.push('[');
        line.append(category);
        line.append("] ");
        line.append(message);
        self.plan(line, true)
    }

    /// Records that the planned line, `byte_len` bytes with its newline, was
    /// written at the current end of the file. After a failed write the state
    /// stays as the plan left it.
    pub fn written(&mut self, progress: bool, byte_len: u64)
        requires
            old(self).file_end + byte_len <= u64::MAX,
        ensures
            *final(self) == written_spec(*old(self), progress, byte_len),
    {
        self.replace_offset = if progress {
            Some(self.file_end)
        } else {
            None
        };
        self.file_end = self.file_end + byte_len;
        self.last_was_progress = progress;
    }
}

/// Two progress lines in a row: the second is written where the first one
/// started, after the file is cut back there, and the live view replaces it.
pub proof fn law_progress_line_replaces_progress_line(s: LogState, len1: u64)
    requires
        s.file_end + len1 <= u64::MAX,
    ensures
        ({
            let (s1, _, at1, _) = plan_spec(s, true);
            let s2 = written_spec(s1, true, len1);
            let (_, cut2, at2, replace2) = plan_spec(s2, true);
            cut2 == Some(at1) && at2 == at1 && replace2
        }),
{
}

/// An ordinary line is never overwritten: whatever follows it is written
/// after it, and does not replace it in the live view.
pub proof fn law_plain_line_stays(s: LogState, len1: u64, progress: bool)
    requires
        s.file_end + len1 <= u64::MAX,
    ensures
        ({
            let (s1, _, at1, _) = plan_spec(s, false);
            let s2 = written_spec(s1, false, len1);
            let (_, cut2, at2, replace2) = plan_spec(s2, progress);
            cut2 is None && at2 == at1 + len1 && !replace2
        }),
{
}

/// The log file as lines: each line's text and its size in bytes, newline
/// included.
pub open spec fn file_size(f: Seq<(Seq<char>, u64)>) -> int
    decreases f.len(),
{
    if f.len() == 0 {
        0
    } else {
        file_size(f.drop_last()) + f.last().1
    }
}

/// The file cut back to `off` bytes, where `off` falls between lines: the
/// lines that end at or before it.
pub open spec fn cut_file(f: Seq<(Seq<char>, u64)>, off: int) -> Seq<(Seq<char>, u64)>
    decreases f.len(),
{
    if f.len() == 0 || file_size(f) <= off {
        f
    } else {
        cut_file(f.drop_last(), off)
    }
}

/// The bytes written by a run of writes (text, progress, bytes).
pub open spec fn bytes_of(ws: Seq<(Seq<char>, bool, u64)>) -> int
    decreases ws.len(),
{
    if ws.len() == 0 {
        0
    } else {
        bytes_of(ws.drop_last()) + ws.last().2
    }
}

/// A run of writes `(text, progress, bytes)` on a new log, each carried out
/// as [`plan_spec`] says (cut the file where the plan says, then write the
/// line) and recorded with [`written_spec`]: the state and the file after
/// it.
pub open spec fn replay(ws: Seq<(Seq<char>, bool, u64)>) -> (LogState, Seq<(Seq<char>, u64)>)
    decreases ws.len(),
{
    if ws.len() == 0 {
        (LogState { last_was_progress: false, file_end: 0, replace_offset: None }, Seq::empty())
    } else {
        let (s, f) = replay(ws.drop_last());
        let w = ws.last();
        let (s1, cut, _, _) = plan_spec(s, w.1);
        let f1 = match cut {
            Some(o) => cut_file(f, o as int),
            None => f,
        };
        (written_spec(s1, w.1, w.2), f1.push((w.0, w.2)))
    }
}

/// What the log holds after a run of writes: the lines in order, each run of
/// consecutive progress lines kept to its last line.
pub open spec fn log_lines(ws: Seq<(Seq<char>, bool, u64)>) -> Seq<Seq<char>>
    decreases ws.len(),
{
    if ws.len() == 0 {
        Seq::empty()
    } else {
        let before = log_lines(ws.drop_last());
        if ws.last().1 && ws.len() >= 2 && ws[ws.len() - 2].1 {
            before.drop_last().push(ws.last().0)
        } else {
            before.push(ws.last().0)
        }
    }
}

/// The texts of the lines of a file.
pub open spec fn file_texts(f: Seq<(Seq<char>, u64)>) -> Seq<Seq<char>> {
    f.map_values(|l: (Seq<char>, u64)| l.0)
}

/// Where the last write of a non-empty run goes: the end of the file as
/// its plan cut it.
pub open spec fn appends_at_end(ws: Seq<(Seq<char>, bool, u64)>) -> bool {
    let (s, f) = replay(ws.drop_last());
    let (_, cut, at, _) = plan_spec(s, ws.last().1);
    at == file_size(
        match cut {
            Some(o) => cut_file(f, o as int),
            None => f,
        },
    )
}

proof fn lemma_file_size_nonneg(f: Seq<(Seq<char>, u64)>)
    ensures
        file_size(f) >= 0,
    decreases f.len(),
{
    if f.len() > 0 {
        lemma_file_size_nonneg(f.drop_last());
    }
}

proof fn lemma_bytes_prefix(ws: Seq<(Seq<char>, bool, u64)>, k: int)
    requires
        0 <= k <= ws.len(),
    ensures
        bytes_of(ws.take(k)) <= bytes_of(ws),
    decreases ws.len(),
{
    if k < ws.len() {
        assert(ws.drop_last().take(k) =~= ws.take(k));
        lemma_bytes_prefix(ws.drop_last(), k);
    } else {
        assert(ws.take(k) =~= ws);
    }
}

proof fn lemma_replay(ws: Seq<(Seq<char>, bool, u64)>)
    requires
        forall|i: int| 0 <= i < ws.len() ==> #[trigger] ws[i].2 > 0,
        bytes_of(ws) <= u64::MAX,
    ensures
        ({
            let (s, f) = replay(ws);
            &&& s.file_end == file_size(f)
            &&& file_size(f) <= bytes_of(ws)
            &&& file_texts(f) == log_lines(ws)
            &&& s.last_was_progress == (ws.len() > 0 && ws.last().1)
            &&& s.last_was_progress ==> f.len() > 0 && s.replace_offset == Some(file_size(f.drop_last()) as u64)
            &&& forall|i: int| 0 <= i < f.len() ==> #[trigger] f[i].1 > 0
        }),
        ws.len() > 0 ==> appends_at_end(ws),
    decreases ws.len(),
{
    if ws.len() > 0 {
        let prev = ws.drop_last();
        assert forall|i: int| 0 <= i < prev.len() implies #[trigger] prev[i].2 > 0 by {
            assert(prev[i] == ws[i]);
        }
        assert(ws[ws.len() - 1].2 > 0);
        lemma_replay(prev);
        let (s, f) = replay(prev);
        let w = ws.last();
        let (s1, cut, at, rep) = plan_spec(s, w.1);
        let f1 = match cut {
            Some(o) => cut_file(f, o as int),
            None => f,
        };
        if w.1 && s.last_was_progress {
            let off = file_size(f.drop_last());
            lemma_file_size_nonneg(f.drop_last());
            assert(f.last().1 > 0);
            assert(f.last() == f[f.len() - 1]);
            assert(file_size(f) == off + f.last().1);
            assert(0 <= off <= u64::MAX);
            assert(cut == Some(off as u64));
            assert(cut_file(f.drop_last(), off) == f.drop_last());
            assert(f1 == f.drop_last());
            assert(file_size(f) == off + f.last().1);
        }
        let nf = f1.push((w.0, w.2));
        assert(nf.drop_last() =~= f1);
        assert(file_size(nf) == file_size(f1) + w.2);
        assert(file_size(f1) <= file_size(f));
        assert(at == file_size(f1));
        assert(forall|i: int| 0 <= i < nf.len() ==> #[trigger] nf[i].1 > 0) by {
            assert forall|i: int| 0 <= i < nf.len() implies #[trigger] nf[i].1 > 0 by {
                if i < f1.len() {
                    assert(nf[i] == f1[i]);
                    if w.1 && s.last_was_progress {
                        assert(f1[i] == f[i]);
                    }
                }
            }
        }
        let before = log_lines(prev);
        if w.1 && s.last_was_progress {
            assert(ws[ws.len() - 2] == prev.last());
            assert(file_texts(nf) =~= before.drop_last().push(w.0));
        } else {
            if ws.len() >= 2 {
                assert(ws[ws.len() - 2] == prev.last());
            }
            assert(file_texts(nf) =~= before.push(w.0));
        }
    }
}

/// Law: after any run of writes on a new log, the file holds the lines in
/// order, each followed by its newline, except that a run of consecutive
/// progress lines keeps only its last line; every line is written at the
/// end of the file as its plan cut it, and the state's end of file is the
/// file's size.
pub proof fn law_log_file_content(ws: Seq<(Seq<char>, bool, u64)>)
    requires
        forall|i: int| 0 <= i < ws.len() ==> #[trigger] ws[i].2 > 0,
        bytes_of(ws) <= u64::MAX,
    ensures
        file_texts(replay(ws).1) == log_lines(ws),
        replay(ws).0.file_end == file_size(replay(ws).1),
        forall|k: int| 0 < k <= ws.len() ==> #[trigger] appends_at_end(ws.take(k)),
{
    lemma_replay(ws);
    assert forall|k: int| 0 < k <= ws.len() implies #[trigger] appends_at_end(ws.take(k)) by {
        let p = ws.take(k);
        assert forall|i: int| 0 <= i < p.len() implies #[trigger] p[i].2 > 0 by {
            assert(p[i] == ws[i]);
        }
        lemma_bytes_prefix(ws, k);
        lemma_replay(p);
    }
}

/// The session number in a log file name `log<n>.txt`, where `<n>` is what
/// `str::parse::<i32>` accepts.
pub open spec fn log_name_number(name: Seq<char>) -> Option<int> {
    let k = name.len();
    if k >= 7 && name[0] == 'l' && name[1] == 'o' && name[2] == 'g' && name[k - 4] == '.'
        && name[k - 3] == 't' && name[k - 2] == 'x' && name[k - 1] == 't' {
        parse_signed(name.subrange(3, k - 4), i32::MIN as int, i32::MAX as int)
    } else {
        None
    }
}

/// The number for a new session: one more than the largest number among
/// the existing log files, and at least 1.
pub open spec fn next_log_spec(names: Seq<Seq<char>>) -> int
    decreases names.len(),
{
    if names.len() == 0 {
        1
    } else {
        let before = next_log_spec(names.drop_last());
        match log_name_number(names.last()) {
            Some(n) => if n + 1 > before {
                n + 1
            } else {
                before
            },
            None => before,
        }
    }
}

/// No existing log file carries the largest `i32` as its number.
pub open spec fn log_numbers_below_max(names: Seq<Seq<char>>) -> bool {
    forall|i: int| 0 <= i < names.len() ==> log_name_number(#[trigger] names[i]) != Some(i32::MAX as int)
}

proof fn lemma_next_log_range(names: Seq<Seq<char>>)
    requires
        log_numbers_below_max(names),
    ensures
        1 <= next_log_spec(names) <= i32::MAX,
    decreases names.len(),
{
    if names.len() > 0 {
        lemma_next_log_range(names.drop_last());
        assert(log_name_number(names[names.len() - 1]) != Some(i32::MAX as int));
    }
}

/// The session number in the file name `name`, if it is a log file name.
fn log_number(name: &str) -> (res: Option<i32>)
    ensures
        match res {
            Some(n) => log_name_number(name@) == Some(n as int),
            None => log_name_number(name@) is None,
        },
{
    let cs = chars_of(name);
    let k = cs.len();
    if k >= 7 && cs[0] == 'l' && cs[1] == 'o' && cs[2] == 'g' && cs[k - 4] == '.' && cs[k - 3] == 't'
        && cs[k - 2] == 'x' && cs[k - 1] == 't' {
        let mut mid: Vec<char> = Vec::new();
        let mut i: usize = 3;
        while i < k - 4
            invariant
                3 <= i <= k - 4,
                k == cs@.len(),
                k >= 7,
                mid@ == cs@.subrange(3, i as int),
            decreases k - 4 - i,
        {
            mid.push(cs[i]);
            i = i + 1;
            assert(mid@ =~= cs@.subrange(3, i as int));
        }
        let text = string_from_chars(mid.as_slice());
        parse_i32(text.as_str())
    } else {
        None
    }
}

/// Whether no log file name carries the largest `i32` as its number (the
/// condition of [`next_log_number`]).
pub fn log_numbers_ok(names: &[String]) -> (res: bool)
    ensures
        res == log_numbers_below_max(crate::text::views(names@)),
{
    let ghost ns = crate::text::views(names@);
    let mut i: usize = 0;
    while i < names.len()
        invariant
            i <= names@.len(),
            ns == crate::text::views(names@),
            forall|j: int| 0 <= j < i ==> log_name_number(#[trigger] ns[j]) != Some(i32::MAX as int),
        decreases names@.len() - i,
    {
        assert(ns[i as int] == names@[i as int]@);
        if let Some(n) = log_number(names[i].as_str()) {
            if n == i32::MAX {
                return false;
            }
        }
        i = i + 1;
    }
    true
}

/// The number of this session's log file, given the names of the files in
/// the log directory (in any order).
pub fn next_log_number(names: &[String]) -> (res: i32)
    requires
        log_numbers_below_max(crate::text::views(names@)),
    ensures
        res as int == next_log_spec(crate::text::views(names@)),
{
    let ghost ns = crate::text::views(names@);
    let mut next: i32 = 1;
    let mut i: usize = 0;
    while i < names.len()
        invariant
            i <= names@.len(),
            ns == crate::text::views(names@),
            log_numbers_below_max(ns),
            next as int == next_log_spec(ns.take(i as int)),
        decreases names@.len() - i,
    {
        assert(ns.take(i + 1).drop_last() =~= ns.take(i as int));
        assert(ns.take(i + 1).last() == names@[i as int]@);
        proof {
            assert(log_numbers_below_max(ns.take(i + 1)));
            lemma_next_log_range(ns.take(i + 1));
        }
        if let Some(n) = log_number(names[i].as_str()) {
            assert(ns[i as int] == names@[i as int]@);
            if n + 1 > next {
                next = n + 1;
            }
        }
        i = i + 1;
    }
    assert(ns.take(names@.len() as int) =~= ns);
    next
}

/// The file name `log<n>.txt` of session `n`.
pub fn log_file_name(n: i32) -> (res: String)
    ensures
        res@ == "log"@ + signed_decimal(n as int) + ".txt"@,
{
    let mut s = owned("log");
    let d = i32_to_decimal(n);
    s.append(d.as_str());
    s.append(".txt");
    s
}

/// A path given by an environment variable that is set but empty: no root
/// and no names.
pub open spec fn empty_path(p: (Seq<char>, Seq<Seq<char>>)) -> bool {
    p.0.len() == 0 && p.1.len() == 0
}

/// Where the log directory is, for portable and installed builds alike: the
/// system's place for application logs (`LOCALAPPDATA` on Windows, `HOME`
/// on macOS, `XDG_STATE_HOME` or else `HOME` elsewhere, an empty
/// `XDG_STATE_HOME` counting as unset); `log` in the executable directory
/// when the variable needed is missing.
pub open spec fn log_dir_spec(
    os: HostOs,
    home: Option<(Seq<char>, Seq<Seq<char>>)>,
    local_app_data: Option<(Seq<char>, Seq<Seq<char>>)>,
    xdg_state_home: Option<(Seq<char>, Seq<Seq<char>>)>,
    exe_dir: (Seq<char>, Seq<Seq<char>>),
) -> (Seq<char>, Seq<Seq<char>>) {
    let fallback = (exe_dir.0, exe_dir.1.push("log"@));
    if os == HostOs::MacOs {
        match home {
            Some(h) => (h.0, h.1 + seq!["Library"@, "Logs"@, "RockchipUniversalImager"@]),
            None => fallback,
        }
    } else if os == HostOs::Windows {
        match local_app_data {
            Some(l) => (l.0, l.1 + seq!["RockchipUniversalImager"@, "logs"@]),
            None => fallback,
        }
    } else {
        match xdg_state_home {
            Some(x) if !empty_path(x) => (x.0, x.1 + seq!["rockchip-universal-imager"@, "logs"@]),
            _ => match home {
                Some(h) => (h.0, h.1 + seq![".local"@, "state"@, "rockchip-universal-imager"@, "logs"@]),
                None => fallback,
            },
        }
    }
}

/// The view of an optional path.
pub open spec fn opt_path_view(p: Option<PathModel>) -> Option<(Seq<char>, Seq<Seq<char>>)> {
    match p {
        Some(q) => Some(path_view(q)),
        None => None,
    }
}

/// The log directory, from the environment the application found.
pub fn log_directory(
    os: HostOs,
    home: Option<PathModel>,
    local_app_data: Option<PathModel>,
    xdg_state_home: Option<PathModel>,
    exe_dir: &PathModel,
) -> (res: PathModel)
    ensures
        path_view(res) == log_dir_spec(
            os,
            opt_path_view(home),
            opt_path_view(local_app_data),
            opt_path_view(xdg_state_home),
            path_view(*exe_dir),
        ),
{
    if os == HostOs::MacOs {
        if let Some(h) = home {
            let p = h.join("Library").join("Logs").join("RockchipUniversalImager");
            assert(path_view(p).1 =~= path_view(h).1 + seq!["Library"@, "Logs"@, "RockchipUniversalImager"@]);
            return p;
        }
    } else if os == HostOs::Windows {
        if let Some(l) = local_app_data {
            let p = l.join("RockchipUniversalImager").join("logs");
            assert(path_view(p).1 =~= path_view(l).1 + seq!["RockchipUniversalImager"@, "logs"@]);
            return p;
        }
    } else {
        if let Some(x) = xdg_state_home {
            if !x.root.as_str().is_empty() || x.names.len() > 0 {
                let p = x.join("rockchip-universal-imager").join("logs");
                assert(path_view(p).1 =~= path_view(x).1 + seq!["rockchip-universal-imager"@, "logs"@]);
                return p;
            }
        }
        if let Some(h) = home {
            let p = h.join(".local").join("state").join("rockchip-universal-imager").join("logs");
            assert(path_view(p).1 =~= path_view(h).1 + seq![".local"@, "state"@, "rockchip-universal-imager"@, "logs"@]);
            return p;
        }
    }
    exe_dir.join("log")
}

} // verus!
