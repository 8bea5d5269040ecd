//! Cleaning and splitting of what `rkdeveloptool` prints: ANSI escape
//! sequences, progress lines, and the cutting of a growing output buffer
//! into complete lines.
use vstd::prelude::*;
use vstd::utf8::encode_utf8;
use crate::text::{chars_of, contains_char, contains_chars, has_substring, owned, string_from_chars, views};

verus! {

/// An ASCII letter.
pub open spec fn is_ascii_letter(b: u8) -> bool {
    (65 <= b && b <= 90) || (97 <= b && b <= 122)
}

/// What remains of the bytes `b[i..]` once escape sequences are removed,
/// each remaining byte read as the character with that code. `in_escape`
/// says that an escape sequence (`ESC [`) has begun and runs up to and
/// including the next ASCII letter, or to the end of the text.
pub open spec fn strip_from(b: Seq<u8>, i: int, in_escape: bool) -> Seq<char>
    decreases b.len() - i,
{
    if i >= b.len() || i < 0 {
        Seq::empty()
    } else if in_escape {
        strip_from(b, i + 1, !is_ascii_letter(b[i]))
    } else if b[i] == 0x1b && i + 1 < b.len() && b[i + 1] == 0x5b {
        strip_from(b, i + 2, true)
    } else {
        seq![b[i] as char] + strip_from(b, i + 1, false)
    }
}

/// The text of `line` without ANSI escape sequences: a line without an
/// escape character is kept as it is; otherwise the escape sequences are
/// removed from its UTF-8 bytes and each remaining byte becomes the
/// character with that code.
pub open spec fn strip_ansi_spec(line: Seq<char>) -> Seq<char> {
    if !line.contains('\u{1b}') {
        line
    } else {
        strip_from(encode_utf8(line), 0, false)
    }
}

/// `line` without ANSI escape sequences (see [`strip_ansi_spec`]).
pub fn strip_ansi(line: &str) -> (res: String)
    ensures
        res@ == strip_ansi_spec(line@),
{
    let cs = chars_of(line);
    if !contains_char(cs.as_slice(), '\u{1b}') {
        return owned(line);
    }
    let bytes = line.as_bytes();
    let ghost b = bytes@;
    assert(b == encode_utf8(line@));
    let mut out: Vec<char> = Vec::new();
    let mut i: usize = 0;
    while i < bytes.len()
        invariant
            b == bytes@,
            i <= bytes.len(),
            out@ + strip_from(b, i as int, false) == strip_from(b, 0, false),
        decreases bytes.len() - i,
    {
        if bytes[i] == 0x1b && i + 1 < bytes.len() && bytes[i + 1] == 0x5b {
            i = i + 2;
            let ghost i0 = i;
            while i < bytes.len() && !(65 <= bytes[i] && bytes[i] <= 90 || 97 <= bytes[i] && bytes[i] <= 122)
                invariant
                    b == bytes@,
                    i <= bytes.len(),
                    i >= i0,
                    out@ + strip_from(b, i as int, true) == strip_from(b, 0, false),
                decreases bytes.len() - i,
            {
                i = i + 1;
            }
            if i < bytes.len() {
                i = i + 1;
            }
        } else {
            let ghost before = out@;
            out.push(bytes[i] as char);
            assert(out@ + strip_from(b, i + 1, false) =~= before + strip_from(b, i as int, false));
            i = i + 1;
        }
    }
    assert(out@ =~= out@ + strip_from(b, i as int, false));
    string_from_chars(out.as_slice())
}

/// A progress line: it holds `%`, or both `total` and `current`.
pub open spec fn is_progress_spec(line: Seq<char>) -> bool {
    line.contains('%') || (has_substring(line, "total"@) && has_substring(line, "current"@))
}

/// Whether `line` reports progress (see [`is_progress_spec`]).
pub fn is_progress_line(line: &str) -> (res: bool)
    ensures
        res == is_progress_spec(line@),
{
    let cs = chars_of(line);
    if contains_char(cs.as_slice(), '%') {
        return true;
    }
    let total = chars_of("total");
    let current = chars_of("current");
    contains_chars(cs.as_slice(), total.as_slice()) && contains_chars(cs.as_slice(), current.as_slice())
}

/// The complete lines of `cur + s`, where `cur` is a line already begun, and
/// the text left after the last line break. A line ends at `\n`, at `\r`,
/// or at `\r\n`, which counts as one break.
pub open spec fn split_complete(s: Seq<char>, cur: Seq<char>) -> (Seq<Seq<char>>, Seq<char>)
    decreases s.len(),
{
    if s.len() == 0 {
        (Seq::empty(), cur)
    } else if s[0] == '\n' || s[0] == '\r' {
        let rest = if s[0] == '\r' && s.len() > 1 && s[1] == '\n' {
            s.skip(2)
        } else {
            s.drop_first()
        };
        let r = split_complete(rest, Seq::empty());
        (seq![cur] + r.0, r.1)
    } else {
        split_complete(s.drop_first(), cur.push(s[0]))
    }
}

/// One line of output as it is shown and logged: the text without escape
/// sequences, and whether it reports progress. A progress line is logged
/// as a progress entry of category `rkdev` (see
/// [`crate::logging::LogState::write_progress`]); any other non-empty line
/// is logged as the ordinary line `log_line`; an empty line is not logged.
pub struct EmittedLine {
    pub text: String,
    pub progress: bool,
    /// The ordinary log line, for a line that is neither progress nor empty.
    pub log_line: Option<String>,
}

/// The ordinary log line for a cleaned output line: `[rkdev] ` and the
/// text, unless the line reports progress or is empty.
pub open spec fn plain_log_line(clean: Seq<char>) -> Option<Seq<char>> {
    if !is_progress_spec(clean) && clean.len() > 0 {
        Some("[rkdev] "@ + clean)
    } else {
        None
    }
}

/// The emitted form of a raw output line: its clean text, whether it
/// reports progress, and its ordinary log line.
pub open spec fn emitted(line: Seq<char>) -> (Seq<char>, bool, Option<Seq<char>>) {
    (strip_ansi_spec(line), is_progress_spec(strip_ansi_spec(line)), plain_log_line(strip_ansi_spec(line)))
}

/// The view of an optional text.
pub open spec fn opt_text(t: Option<String>) -> Option<Seq<char>> {
    match t {
        Some(s) => Some(s@),
        None => None,
    }
}

/// The views of emitted lines.
pub open spec fn emitted_views(v: Seq<EmittedLine>) -> Seq<(Seq<char>, bool, Option<Seq<char>>)> {
    v.map_values(|e: EmittedLine| (e.text@, e.progress, opt_text(e.log_line)))
}

/// Cleans one raw output line and decides how it is logged.
pub fn emit_line(raw: &str) -> (res: EmittedLine)
    ensures
        (res.text@, res.progress, opt_text(res.log_line)) == emitted(raw@),
{
    let text = strip_ansi(raw);
    let progress = is_progress_line(text.as_str());
    let log_line = if !progress && !text.as_str().is_empty() {
        let mut l = owned("[rkdev] ");
        l.append(text.as_str());
        Some(l)
    } else {
        None
    };
    EmittedLine { text, progress, log_line }
}

/// Takes every complete line off the front of `buffer` and returns them
/// cleaned; what follows the last line break stays in `buffer`.
pub fn emit_lines(buffer: &mut String) -> (res: Vec<EmittedLine>)
    ensures
        emitted_views(res@) == split_complete(old(buffer)@, Seq::empty()).0.map_values(
            |l: Seq<char>| emitted(l),
        ),
        final(buffer)@ == split_complete(old(buffer)@, Seq::empty()).1,
{
    let cs = chars_of(buffer.as_str());
    let ghost s = cs@;
    let ghost whole = split_complete(s, Seq::empty());
    let mut res: Vec<EmittedLine> = Vec::new();
    let mut cur: Vec<char> = Vec::new();
    let mut i: usize = 0;
    assert(cs@.skip(0) =~= cs@);
    assert(cur@ =~= Seq::<char>::empty());
    while i < cs.len()
        invariant
            s == cs@,
            i <= cs.len(),
            whole == split_complete(s, Seq::empty()),
            emitted_views(res@) + split_complete(s.skip(i as int), cur@).0.map_values(
                |l: Seq<char>| emitted(l),
            ) == whole.0.map_values(|l: Seq<char>| emitted(l)),
            split_complete(s.skip(i as int), cur@).1 == whole.1,
        decreases cs.len() - i,
    {
        let ghost rest = s.skip(i as int);
        assert(rest.drop_first() =~= s.skip(i + 1));
        let c = cs[i];
        if c == '\n' || c == '\r' {
            let ghost r = split_complete(rest, cur@);
            let line = string_from_chars(cur.as_slice());
            let e = emit_line(line.as_str());
            let ghost before = emitted_views(res@);
            res.push(e);
            assert(emitted_views(res@) =~= before + seq![emitted(cur@)]);
            if c == '\r' && i + 1 < cs.len() && cs[i + 1] == '\n' {
                assert(rest.skip(2) =~= s.skip(i + 2));
                i = i + 2;
            } else {
                i = i + 1;
            }
            let ghost r2 = split_complete(s.skip(i as int), Seq::empty());
            assert(r.0 == seq![cur@] + r2.0);
            assert(r.0.map_values(|l: Seq<char>| emitted(l)) =~= seq![emitted(cur@)] + r2.0.map_values(
                |l: Seq<char>| emitted(l),
            ));
            cur = Vec::new();
            assert(cur@ =~= Seq::<char>::empty());
        } else {
            cur.push(c);
            i = i + 1;
        }
    }
    *buffer = string_from_chars(cur.as_slice());
    res
}

/// Law: cutting a buffer into complete lines leaves no line break behind.
pub proof fn law_emit_rest_has_no_break(s: Seq<char>, cur: Seq<char>)
    requires
        !cur.contains('\n'),
        !cur.contains('\r'),
    ensures
        !split_complete(s, cur).1.contains('\n'),
        !split_complete(s, cur).1.contains('\r'),
    decreases s.len(),
{
    if s.len() == 0 {
    } else if s[0] == '\n' || s[0] == '\r' {
        let rest = if s[0] == '\r' && s.len() > 1 && s[1] == '\n' {
            s.skip(2)
        } else {
            s.drop_first()
        };
        law_emit_rest_has_no_break(rest, Seq::empty());
    } else {
        assert forall|k: int| 0 <= k < cur.push(s[0]).len() implies cur.push(s[0])[k] != '\n'
            && cur.push(s[0])[k] != '\r' by {
            if k < cur.len() {
                assert(cur.push(s[0])[k] == cur[k]);
            }
        }
        law_emit_rest_has_no_break(s.drop_first(), cur.push(s[0]));
    }
}

/// Law: a line without an escape character is left unchanged by
/// [`strip_ansi`].
pub proof fn law_strip_ansi_keeps_plain_text(line: Seq<char>)
    requires
        !line.contains('\u{1b}'),
    ensures
        strip_ansi_spec(line) == line,
{
}

} // verus!
