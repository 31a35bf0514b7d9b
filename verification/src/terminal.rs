//! The slot terminal: its panel, the script that runs a command, and the
//! reading of the command's output.
use vstd::prelude::*;
use crate::html::{html_escape, html_escape_spec};
use crate::num::{int_decimal, parse_i32_chars, parse_i32_spec, push_i64};
use crate::split::{concat, pieces, split_inclusive_nl, split_inclusive_nl_of};
use crate::shared::{truncate_spec, truncate_text};
use crate::text::{
    chars_ends_with_str, chars_of, trim_str, chars_starts_with, extend_chars, extend_str, starts_with, string_of, subvec, trim,
    trim_chars,
};

verus! {

/// The route that runs terminal commands.
pub const RUN_ROUTE: &'static str = "/agents/terminal/run";

/// The terminal dialog of a slot.
pub open spec fn panel_spec(slot_id: i64, cwd: Seq<char>) -> Seq<char> {
    "<dialog class=\"terminal-panel\" id=\"terminalPanel\">\n  <header><div><strong>Terminal</strong><br><span data-terminal-cwd>"@
        + html_escape_spec(cwd)
        + "</span></div><button type=\"button\" class=\"icon\" data-terminal-close aria-label=\"Close\">x</button></header>\n  <main><pre class=\"terminal-output\" data-terminal-output>$ ready\n</pre><form class=\"terminal-form\" data-terminal-form><input name=\"slot_id\" type=\"hidden\" value=\""@
        + int_decimal(slot_id as int)
        + "\"><input name=\"command\" autocomplete=\"off\" autocapitalize=\"off\" spellcheck=\"false\" placeholder=\"Command\"><button type=\"submit\">Run</button></form></main>\n</dialog>"@
}

/// The terminal dialog of a slot: its directory and a command line.
pub fn panel_html(slot_id: i64, cwd: &str) -> (r: String)
    ensures
        r@ == panel_spec(slot_id, cwd@),
{
    let mut out = chars_of(
        "<dialog class=\"terminal-panel\" id=\"terminalPanel\">\n  <header><div><strong>Terminal</strong><br><span data-terminal-cwd>",
    );
    let c = html_escape(cwd);
    extend_str(&mut out, c.as_str());
    extend_str(
        &mut out,
        "</span></div><button type=\"button\" class=\"icon\" data-terminal-close aria-label=\"Close\">x</button></header>\n  <main><pre class=\"terminal-output\" data-terminal-output>$ ready\n</pre><form class=\"terminal-form\" data-terminal-form><input name=\"slot_id\" type=\"hidden\" value=\"",
    );
    push_i64(&mut out, slot_id);
    extend_str(
        &mut out,
        "\"><input name=\"command\" autocomplete=\"off\" autocapitalize=\"off\" spellcheck=\"false\" placeholder=\"Command\"><button type=\"submit\">Run</button></form></main>\n</dialog>",
    );
    string_of(&out)
}

/// The answer to a terminal request.
pub struct RunResult {
    pub ok: bool,
    pub status: String,
    pub output: String,
    pub cwd: String,
}

/// Builds the answer to a terminal request.
pub fn result(ok: bool, status: &str, output: &str, cwd: &str) -> (r: RunResult)
    ensures
        r.ok == ok,
        r.status@ == status@,
        r.output@ == output@,
        r.cwd@ == cwd@,
{
    RunResult {
        ok,
        status: String::from_str(status),
        output: String::from_str(output),
        cwd: String::from_str(cwd),
    }
}

/// The script that runs a command and then reports its status and final
/// directory on lines that start with `marker`.
pub open spec fn terminal_script_spec(command: Seq<char>, marker: Seq<char>) -> Seq<char> {
    "set +e\n"@ + command + "\n__mobailmux_status=$?\nprintf '\\n"@ + marker
        + "STATUS:%s\\n"@ + marker
        + "PWD:%s\\n' \"$__mobailmux_status\" \"$PWD\"\nexit \"$__mobailmux_status\""@
}

/// The `bash -lc` script of a terminal request.
pub fn terminal_script(command: &str, marker: &str) -> (r: String)
    ensures
        r@ == terminal_script_spec(command@, marker@),
{
    let mut out = chars_of("set +e\n");
    extend_str(&mut out, command);
    extend_str(&mut out, "\n__mobailmux_status=$?\nprintf '\\n");
    extend_str(&mut out, marker);
    extend_str(&mut out, "STATUS:%s\\n");
    extend_str(&mut out, marker);
    extend_str(&mut out, "PWD:%s\\n' \"$__mobailmux_status\" \"$PWD\"\nexit \"$__mobailmux_status\"");
    string_of(&out)
}

/// All trailing `\r` and `\n` removed.
pub open spec fn strip_line_end(s: Seq<char>) -> Seq<char>
    decreases s.len(),
{
    if s.len() > 0 && (s.last() == '\r' || s.last() == '\n') {
        strip_line_end(s.drop_last())
    } else {
        s
    }
}

/// Visible output, exit status and directory read so far.
pub type StdoutState = (Seq<char>, Option<i32>, Seq<char>);

/// One output line: a status or directory report updates the state, any
/// other line is shown.
pub open spec fn stdout_step(st: StdoutState, chunk: Seq<char>, marker: Seq<char>) -> StdoutState {
    let line = strip_line_end(chunk);
    let sp = marker + "STATUS:"@;
    let pp = marker + "PWD:"@;
    if starts_with(line, sp) {
        (st.0, parse_i32_spec(trim(line.skip(sp.len() as int))), st.2)
    } else if starts_with(line, pp) {
        (st.0, st.1, trim(line.skip(pp.len() as int)))
    } else {
        (st.0 + chunk, st.1, st.2)
    }
}

/// All output lines read in order.
pub open spec fn stdout_fold(chunks: Seq<Seq<char>>, marker: Seq<char>, fallback: Seq<char>) -> StdoutState
    decreases chunks.len(),
{
    if chunks.len() == 0 {
        (Seq::empty(), None, fallback)
    } else {
        stdout_step(stdout_fold(chunks.drop_last(), marker, fallback), chunks.last(), marker)
    }
}

/// The status report `MARKER STATUS:n` that the script prints sets the exit
/// code to `n` itself, whatever was read before it, and leaves the shown
/// output and the directory as they were.
pub proof fn status_report_gives_the_exit_code(
    chunks: Seq<Seq<char>>,
    marker: Seq<char>,
    fallback: Seq<char>,
    n: i32,
)
    ensures
        ({
            let before = stdout_fold(chunks, marker, fallback);
            let line = marker + "STATUS:"@ + int_decimal(n as int) + seq!['\n'];
            stdout_fold(chunks.push(line), marker, fallback) == (before.0, Some(n), before.2)
        }),
{
    let dec = int_decimal(n as int);
    let sp = marker + "STATUS:"@;
    let body = sp + dec;
    let line = body + seq!['\n'];
    assert(chunks.push(line).drop_last() =~= chunks);
    assert(chunks.push(line).last() == line);
    crate::num::lemma_int_decimal_chars(n as int);
    crate::num::parse_decimal_round_trip(n as i64);
    assert(crate::text::is_ascii_digit(dec.last()) || dec.last() == '-');
    assert(line.drop_last() =~= body);
    assert(body.last() == dec.last());
    assert(strip_line_end(body) == body);
    assert(strip_line_end(line) == body);
    assert(body.take(sp.len() as int) =~= sp);
    assert(body.skip(sp.len() as int) =~= dec);
    assert(!crate::text::is_ws(dec[0]));
    assert(!crate::text::is_ws(dec.last()));
    crate::text::lemma_trim_unchanged(dec);
}

/// Whether an output line is one of the script's own reports.
pub open spec fn is_report(chunk: Seq<char>, marker: Seq<char>) -> bool {
    starts_with(strip_line_end(chunk), marker + "STATUS:"@) || starts_with(
        strip_line_end(chunk),
        marker + "PWD:"@,
    )
}

/// The directory report `MARKER PWD:dir` sets the directory to `dir`, and
/// any line that is not a report is shown as it came, after what was shown
/// before; neither touches the exit code.
pub proof fn other_lines_keep_the_exit_code(
    chunks: Seq<Seq<char>>,
    marker: Seq<char>,
    fallback: Seq<char>,
    dir: Seq<char>,
    chunk: Seq<char>,
)
    requires
        dir.len() > 0,
        !crate::text::is_ws(dir[0]),
        !crate::text::is_ws(dir.last()),
    ensures
        ({
            let before = stdout_fold(chunks, marker, fallback);
            let line = marker + "PWD:"@ + dir + seq!['\n'];
            &&& stdout_fold(chunks.push(line), marker, fallback) == (before.0, before.1, dir)
            &&& !is_report(chunk, marker) ==> stdout_fold(chunks.push(chunk), marker, fallback)
                == (before.0 + chunk, before.1, before.2)
        }),
{
    let pp = marker + "PWD:"@;
    let sp = marker + "STATUS:"@;
    let body = pp + dir;
    let line = body + seq!['\n'];
    assert(chunks.push(line).drop_last() =~= chunks);
    assert(chunks.push(chunk).drop_last() =~= chunks);
    assert(line.drop_last() =~= body);
    assert(body.last() == dir.last());
    assert(strip_line_end(body) == body);
    assert(strip_line_end(line) == body);
    assert(body.take(pp.len() as int) =~= pp);
    assert(body.skip(pp.len() as int) =~= dir);
    reveal_strlit("PWD:");
    reveal_strlit("STATUS:");
    assert(body[marker.len() as int] == 'P');
    assert(sp[marker.len() as int] == 'S');
    assert(!starts_with(body, sp)) by {
        if starts_with(body, sp) {
            assert(body.take(sp.len() as int)[marker.len() as int] == sp[marker.len() as int]);
        }
    }
    crate::text::lemma_trim_unchanged(dir);
}

/// The output lines that are shown: all but the reports.
pub open spec fn shown_chunks(chunks: Seq<Seq<char>>, marker: Seq<char>) -> Seq<Seq<char>>
    decreases chunks.len(),
{
    if chunks.len() == 0 {
        chunks
    } else if is_report(chunks.last(), marker) {
        shown_chunks(chunks.drop_last(), marker)
    } else {
        shown_chunks(chunks.drop_last(), marker).push(chunks.last())
    }
}

/// The terminal never shows the script's own reports: what it shows is
/// exactly the other output lines, in order.
pub proof fn reports_are_never_shown(chunks: Seq<Seq<char>>, marker: Seq<char>, fallback: Seq<char>)
    ensures
        stdout_fold(chunks, marker, fallback).0 == concat(shown_chunks(chunks, marker)),
        forall|i: int|
            0 <= i < shown_chunks(chunks, marker).len() ==> !is_report(
                #[trigger] shown_chunks(chunks, marker)[i],
                marker,
            ),
    decreases chunks.len(),
{
    if chunks.len() > 0 {
        reports_are_never_shown(chunks.drop_last(), marker, fallback);
        let prev = shown_chunks(chunks.drop_last(), marker);
        if !is_report(chunks.last(), marker) {
            assert(shown_chunks(chunks, marker).drop_last() =~= prev);
            assert forall|i: int| 0 <= i < shown_chunks(chunks, marker).len() implies !is_report(
                #[trigger] shown_chunks(chunks, marker)[i],
                marker,
            ) by {
                if i < prev.len() {
                    assert(shown_chunks(chunks, marker)[i] == prev[i]);
                }
            }
        }
    }
}

fn strip_line_end_chars(v: &Vec<char>) -> (r: Vec<char>)
    ensures
        r@ == strip_line_end(v@),
{
    let mut j: usize = v.len();
    assert(v@.take(v.len() as int) == v@);
    while j > 0 && (v[j - 1] == '\r' || v[j - 1] == '\n')
        invariant
            j <= v.len(),
            strip_line_end(v@) == strip_line_end(v@.take(j as int)),
        decreases j,
    {
        assert(v@.take(j as int).drop_last() == v@.take(j - 1));
        j -= 1;
    }
    subvec(v, 0, j)
}

/// Splits command output into what is shown, the exit status and the final
/// directory that the script reported (`fallback_cwd` where none was).
pub fn visible_stdout(stdout: &str, marker: &str, fallback_cwd: &str) -> (r: (String, Option<i32>, String))
    ensures
        (r.0@, r.1, r.2@) == stdout_fold(split_inclusive_nl(stdout@), marker@, fallback_cwd@),
{
    let v = chars_of(stdout);
    let chunks = split_inclusive_nl_of(&v);
    let ghost cv = pieces(chunks@);
    let mut sp = chars_of(marker);
    extend_str(&mut sp, "STATUS:");
    let mut pp = chars_of(marker);
    extend_str(&mut pp, "PWD:");
    let mut visible: Vec<char> = Vec::new();
    let mut exit_code: Option<i32> = None;
    let mut cwd = chars_of(fallback_cwd);
    let mut i: usize = 0;
    while i < chunks.len()
        invariant
            i <= chunks.len(),
            cv == pieces(chunks@),
            cv == split_inclusive_nl(stdout@),
            sp@ == marker@ + "STATUS:"@,
            pp@ == marker@ + "PWD:"@,
            (visible@, exit_code, cwd@) == stdout_fold(cv.take(i as int), marker@, fallback_cwd@),
        decreases chunks.len() - i,
    {
        let chunk = &chunks[i];
        assert(cv.take(i + 1).drop_last() == cv.take(i as int));
        assert(cv.take(i + 1).last() == chunk@);
        let line = strip_line_end_chars(chunk);
        if chars_starts_with(&line, &sp) {
            let rest = subvec(&line, sp.len(), line.len());
            assert(rest@ == line@.skip(sp@.len() as int));
            let t = trim_chars(&rest);
            exit_code = parse_i32_chars(&t);
        } else if chars_starts_with(&line, &pp) {
            let rest = subvec(&line, pp.len(), line.len());
            assert(rest@ == line@.skip(pp@.len() as int));
            cwd = trim_chars(&rest);
        } else {
            extend_chars(&mut visible, chunk);
        }
        i += 1;
    }
    assert(cv.take(chunks.len() as int) == cv);
    (string_of(&visible), exit_code, string_of(&cwd))
}

/// The longest command the terminal runs, in characters.
pub const MAX_COMMAND_CHARS: usize = 4096;

/// The most output a terminal reply carries, in characters.
pub const MAX_OUTPUT_CHARS: usize = 65536;

/// What a terminal request asks for once its slot is known.
pub enum TerminalRequest {
    /// A blank command: answer `empty` without running anything.
    Empty,
    /// A command over [`MAX_COMMAND_CHARS`] characters: refuse it (413).
    TooLong,
    /// Run this command, trimmed.
    Run(String),
}

/// The command of a request, trimmed, checked for blankness and length.
pub open spec fn terminal_request_spec(command: Seq<char>) -> (int, Seq<char>) {
    let t = trim(command);
    if t.len() == 0 {
        (0, t)
    } else if t.len() > MAX_COMMAND_CHARS {
        (1, t)
    } else {
        (2, t)
    }
}

/// Checks the command of a terminal request.
pub fn terminal_request(command: &str) -> (r: TerminalRequest)
    ensures
        match r {
            TerminalRequest::Empty => terminal_request_spec(command@).0 == 0,
            TerminalRequest::TooLong => terminal_request_spec(command@).0 == 1,
            TerminalRequest::Run(c) => terminal_request_spec(command@) == (2int, c@),
        },
{
    let t = trim_str(command);
    if t.len() == 0 {
        TerminalRequest::Empty
    } else if t.len() > MAX_COMMAND_CHARS {
        TerminalRequest::TooLong
    } else {
        TerminalRequest::Run(string_of(&t))
    }
}

/// What a finished command's reply shows: its visible output, then its
/// standard error where that is not blank (on a line of its own); the exit
/// code the script reported, else the process's, else -1; success where the
/// process succeeded or the code is 0; the output cut to
/// [`MAX_OUTPUT_CHARS`] characters.
pub open spec fn terminal_reply_spec(
    visible: Seq<char>,
    stderr: Seq<char>,
    reported_code: Option<i32>,
    process_code: Option<i32>,
    success: bool,
) -> (bool, Seq<char>, Seq<char>) {
    let combined = if trim(stderr).len() == 0 {
        visible
    } else if visible.len() > 0 && visible.last() != '\n' {
        visible + seq!['\n'] + stderr
    } else {
        visible + stderr
    };
    let code: int = match reported_code {
        Some(c) => c as int,
        None => match process_code {
            Some(c) => c as int,
            None => -1,
        },
    };
    (success || code == 0, "exit "@ + int_decimal(code), truncate_spec(combined, MAX_OUTPUT_CHARS as nat))
}

/// The reply to a finished command, in directory `cwd`.
pub fn terminal_reply(
    visible: &str,
    stderr: &str,
    reported_code: Option<i32>,
    process_code: Option<i32>,
    success: bool,
    cwd: &str,
) -> (r: RunResult)
    ensures
        (r.ok, r.status@, r.output@) == terminal_reply_spec(
            visible@,
            stderr@,
            reported_code,
            process_code,
            success,
        ),
        r.cwd@ == cwd@,
{
    let mut combined = chars_of(visible);
    let e = trim_str(stderr);
    if e.len() > 0 {
        if combined.len() > 0 && combined[combined.len() - 1] != '\n' {
            combined.push('\n');
        }
        extend_str(&mut combined, stderr);
    }
    assert(combined@ == (if trim(stderr@).len() == 0 {
        visible@
    } else if visible@.len() > 0 && visible@.last() != '\n' {
        visible@ + seq!['\n'] + stderr@
    } else {
        visible@ + stderr@
    }));
    let code: i32 = match reported_code {
        Some(c) => c,
        None => match process_code {
            Some(c) => c,
            None => -1,
        },
    };
    let mut status = chars_of("exit ");
    push_i64(&mut status, code as i64);
    let output = truncate_text(string_of(&combined).as_str(), MAX_OUTPUT_CHARS);
    result(success || code == 0, string_of(&status).as_str(), output.as_str(), cwd)
}

} // verus!
