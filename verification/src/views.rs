//! The transcript of a slot as HTML: messages, folded runs of command
//! activity, and message bodies rendered as Markdown.
use vstd::prelude::*;
use vstd::slice::{slice_subrange, slice_to_vec};
use vstd::utf8::encode_utf8;
use pulldown_cmark::{html, CodeBlockKind, Event, Options, Parser, Tag, TagEnd};
use crate::crypto::{hex_encode, hex_spec, sha256, sha256_of};
use crate::html::{
    attr_escape_chars, attr_escape_spec, html_attr_escape, html_escape, html_escape_chars,
    html_escape_spec,
};
use crate::split::{concat, pieces, split_inclusive_nl, split_inclusive_nl_of, words, words_of};
use crate::num::{int_decimal, nat_decimal, push_decimal, push_i64, push_zero_padded, zero_padded};
use crate::shared::{string_views, truncate_chars, truncate_spec};
use crate::time::{compact_local_time, compact_time_ok};
use crate::text::{
    char_is_ascii_alnum, chars_eq_str, chars_strip_prefix, chars_ends_with_str, chars_find, chars_find_char, chars_find_str, chars_of,
    chars_starts_with_str, chars_match_count, contains, ends_with, extend_chars, is_ascii_alnum, match_count, extend_str, find, find_char,
    occurs_at, starts_with, string_of, strip_prefix, subvec, trim, trim_chars, trim_str,
};
use crate::types::{message_views, AgentMessageRow, MessageView};

verus! {

// ---------------------------------------------------------------------------
// Command activity
// ---------------------------------------------------------------------------

/// What an assistant message of command activity reports.
#[derive(Clone, Copy, Debug, PartialEq, Eq, Structural)]
pub enum AgentActivityKind {
    Start,
    Run,
    Exit,
}

/// The kind of activity that a message of `role` with `body` reports: only
/// assistant messages do, by how their trimmed body begins or ends.
pub open spec fn activity_kind_spec(role: Seq<char>, body: Seq<char>) -> Option<AgentActivityKind> {
    let b = trim(body);
    if role != "assistant"@ {
        None
    } else if starts_with(b, "running: `"@) {
        Some(AgentActivityKind::Run)
    } else if starts_with(b, "command exit "@) {
        Some(AgentActivityKind::Exit)
    } else if contains(b, " started in `"@) && ends_with(b, "`."@) {
        Some(AgentActivityKind::Start)
    } else {
        None
    }
}

/// The message reports command activity.
pub open spec fn is_activity(m: MessageView) -> bool {
    activity_kind_spec(m.1, m.2) is Some
}

fn text_eq(s: &String, t: &str) -> (r: bool)
    ensures
        r == (s@ == t@),
{
    let v = chars_of(s.as_str());
    chars_eq_str(&v, t)
}

/// Which command activity a message reports, if any.
pub fn agent_activity_kind(message: &AgentMessageRow) -> (r: Option<AgentActivityKind>)
    ensures
        r == activity_kind_spec(message.role@, message.body@),
{
    if !text_eq(&message.role, "assistant") {
        return None;
    }
    let b = trim_str(message.body.as_str());
    if chars_starts_with_str(&b, "running: `") {
        return Some(AgentActivityKind::Run);
    }
    if chars_starts_with_str(&b, "command exit ") {
        return Some(AgentActivityKind::Exit);
    }
    if chars_find_str(&b, " started in `").is_some() && chars_ends_with_str(&b, "`.") {
        return Some(AgentActivityKind::Start);
    }
    None
}

/// The text between the first two backticks.
pub open spec fn first_backtick_spec(t: Seq<char>) -> Option<Seq<char>> {
    match find_char(t, '`') {
        None => None,
        Some(i) => {
            let rest = t.skip(i + 1);
            match find_char(rest, '`') {
                None => None,
                Some(j) => Some(rest.take(j)),
            }
        },
    }
}

fn first_backtick_chars(v: &Vec<char>) -> (r: Option<Vec<char>>)
    ensures
        r matches Some(x) ==> first_backtick_spec(v@) == Some(x@),
        r is None ==> first_backtick_spec(v@) is None,
{
    match chars_find_char(v, '`') {
        None => None,
        Some(i) => {
            let rest = subvec(v, i + 1, v.len());
            assert(rest@ == v@.skip(i + 1));
            match chars_find_char(&rest, '`') {
                None => None,
                Some(j) => {
                    let x = subvec(&rest, 0, j);
                    assert(x@ == rest@.take(j as int));
                    Some(x)
                },
            }
        },
    }
}

/// The text between the first two backticks of `text`.
pub fn first_backtick_text(text: &str) -> (r: Option<String>)
    ensures
        r matches Some(x) ==> first_backtick_spec(text@) == Some(x@),
        r is None ==> first_backtick_spec(text@) is None,
{
    let v = chars_of(text);
    match first_backtick_chars(&v) {
        Some(x) => Some(string_of(&x)),
        None => None,
    }
}

/// The output that an exit report holds after ```` ```text ```` and a
/// newline, without the closing fence; empty where there is none.
pub open spec fn fenced_spec(t: Seq<char>) -> Seq<char> {
    let open = "```text\n"@;
    let close = "\n```"@;
    match find(t, open) {
        None => Seq::empty(),
        Some(i) => {
            let out = t.skip(i + open.len());
            if ends_with(out, close) {
                out.take(out.len() - close.len())
            } else {
                out
            }
        },
    }
}

fn fenced_chars(v: &Vec<char>) -> (r: Vec<char>)
    ensures
        r@ == fenced_spec(v@),
{
    let open = chars_of("```text\n");
    let found = chars_find(v, &open);
    match found {
        None => Vec::new(),
        Some(i) => {
            assert(occurs_at(v@, open@, i as int));
            let n = open.len();
            assert(i + n <= v.len());
            let out = subvec(v, i + n, v.len());
            assert(out@ == v@.skip(i + open@.len()));
            if chars_ends_with_str(&out, "\n```") {
                let close = chars_of("\n```");
                subvec(&out, 0, out.len() - close.len())
            } else {
                out
            }
        },
    }
}

/// The output that an exit report of command activity holds.
pub fn fenced_text(text: &str) -> (r: String)
    ensures
        r@ == fenced_spec(text@),
{
    let v = chars_of(text);
    let r = fenced_chars(&v);
    string_of(&r)
}

/// The exit code of an exit report: what stands between `command exit `
/// and the first colon after it, trimmed; `?` where that is missing.
pub open spec fn exit_code_spec(b: Seq<char>) -> Seq<char> {
    match strip_prefix(b, "command exit "@) {
        None => "?"@,
        Some(rest) => match find_char(rest, ':') {
            Some(k) => trim(rest.take(k)),
            None => "?"@,
        },
    }
}

/// The command of an exit report: its first backticked text.
pub open spec fn exit_command_spec(b: Seq<char>) -> Seq<char> {
    match first_backtick_spec(b) {
        Some(c) => c,
        None => "(unknown command)"@,
    }
}

/// The command of a run report: its first backticked text, else what
/// follows `running:`, else the whole report; trimmed.
pub open spec fn run_command_spec(b: Seq<char>) -> Seq<char> {
    match first_backtick_spec(b) {
        Some(c) => trim(c),
        None => match strip_prefix(b, "running:"@) {
            Some(c) => trim(c),
            None => trim(b),
        },
    }
}

fn exit_code_chars(b: &Vec<char>) -> (r: Vec<char>)
    ensures
        r@ == exit_code_spec(b@),
{
    match chars_strip_prefix(b, "command exit ") {
        None => chars_of("?"),
        Some(rest) => match chars_find_char(&rest, ':') {
            Some(k) => {
                let code = subvec(&rest, 0, k);
                assert(code@ == rest@.take(k as int));
                trim_chars(&code)
            },
            None => chars_of("?"),
        },
    }
}

fn exit_command_chars(b: &Vec<char>) -> (r: Vec<char>)
    ensures
        r@ == exit_command_spec(b@),
{
    match first_backtick_chars(b) {
        Some(c) => c,
        None => chars_of("(unknown command)"),
    }
}

fn run_command_chars(b: &Vec<char>) -> (r: Vec<char>)
    ensures
        r@ == run_command_spec(b@),
{
    match first_backtick_chars(b) {
        Some(c) => trim_chars(&c),
        None => match chars_strip_prefix(b, "running:") {
            Some(c) => trim_chars(&c),
            None => trim_chars(b),
        },
    }
}

/// The line that sums up a message of command activity: a start report as it
/// is, the command of a run, `exit CODE: COMMAND` for an exit; `None` for a
/// message that is no activity.
pub open spec fn preview_spec(m: MessageView) -> Option<Seq<char>> {
    let b = trim(m.2);
    match activity_kind_spec(m.1, m.2) {
        None => None,
        Some(AgentActivityKind::Start) => Some(b),
        Some(AgentActivityKind::Run) => match first_backtick_spec(b) {
            Some(c) => Some(trim(c)),
            None => match strip_prefix(b, "running:"@) {
                Some(c) => Some(trim(c)),
                None => None,
            },
        },
        Some(AgentActivityKind::Exit) => Some(
            "exit "@ + exit_code_spec(b) + ": "@ + exit_command_spec(b),
        ),
    }
}

/// The line that sums up a message of command activity.
pub fn agent_activity_preview(message: &AgentMessageRow) -> (r: Option<String>)
    ensures
        r matches Some(x) ==> preview_spec(message@) == Some(x@),
        r is None ==> preview_spec(message@) is None,
{
    let kind = agent_activity_kind(message);
    let b = trim_str(message.body.as_str());
    match kind {
        None => None,
        Some(AgentActivityKind::Start) => Some(string_of(&b)),
        Some(AgentActivityKind::Run) => match first_backtick_chars(&b) {
            Some(c) => Some(string_of(&trim_chars(&c))),
            None => match chars_strip_prefix(&b, "running:") {
                Some(c) => Some(string_of(&trim_chars(&c))),
                None => None,
            },
        },
        Some(AgentActivityKind::Exit) => {
            let mut out = chars_of("exit ");
            extend_chars(&mut out, &exit_code_chars(&b));
            extend_str(&mut out, ": ");
            extend_chars(&mut out, &exit_command_chars(&b));
            Some(string_of(&out))
        },
    }
}

// ---------------------------------------------------------------------------
// Fold keys
// ---------------------------------------------------------------------------

/// The bytes that identify a message that has no id yet: its creation time,
/// role and body in UTF-8, each pair parted by a zero byte.
pub open spec fn message_identity(m: MessageView) -> Seq<u8> {
    encode_utf8(m.3) + seq![0u8] + encode_utf8(m.1) + seq![0u8] + encode_utf8(m.2)
}

/// The key under which the browser remembers whether a fold is open:
/// `PREFIX-ID` for a stored message, else `PREFIX-` and the first eight bytes
/// of the SHA-256 of the message's identity in hexadecimal.
pub open spec fn fold_key_spec(prefix: Seq<char>, m: MessageView) -> Seq<char> {
    if m.0 > 0 {
        prefix + "-"@ + int_decimal(m.0 as int)
    } else {
        prefix + "-"@ + hex_spec(sha256_of(message_identity(m)).take(8))
    }
}

fn append_bytes(v: &mut Vec<u8>, b: &[u8])
    ensures
        final(v)@ == old(v)@ + b@,
{
    let mut i: usize = 0;
    while i < b.len()
        invariant
            i <= b.len(),
            v@ == old(v)@ + b@.take(i as int),
        decreases b.len() - i,
    {
        v.push(b[i]);
        i += 1;
        assert(b@.take(i as int) == b@.take(i - 1).push(b@[i - 1]));
    }
    assert(b@.take(b.len() as int) == b@);
}

/// The fold key of a message under `prefix`.
pub fn message_fold_key(prefix: &str, message: &AgentMessageRow) -> (r: String)
    ensures
        r@ == fold_key_spec(prefix@, message@),
{
    let mut out = chars_of(prefix);
    out.push('-');
    proof {
        reveal_strlit("-");
        assert(out@ == prefix@ + "-"@);
    }
    if message.id > 0 {
        push_i64(&mut out, message.id);
    } else {
        let mut data: Vec<u8> = Vec::new();
        append_bytes(&mut data, message.created_at.as_str().as_bytes());
        data.push(0u8);
        append_bytes(&mut data, message.role.as_str().as_bytes());
        data.push(0u8);
        append_bytes(&mut data, message.body.as_str().as_bytes());
        assert(data@ == message_identity(message@));
        let digest = sha256(data.as_slice());
        let head = slice_to_vec(slice_subrange(digest.as_slice(), 0, 8));
        assert(head@ == digest@.take(8));
        let h = hex_encode(head.as_slice());
        extend_str(&mut out, h.as_str());
    }
    string_of(&out)
}

// ---------------------------------------------------------------------------
// Rows of an activity fold
// ---------------------------------------------------------------------------

/// The output part of an exit row: a fold with the trimmed output, or
/// nothing where the output is blank.
pub open spec fn output_html_spec(m: MessageView) -> Seq<char> {
    let out = trim(fenced_spec(trim(m.2)));
    if out.len() == 0 {
        Seq::empty()
    } else {
        "<details class=\"tool-output\" data-fold-key=\""@ + attr_escape_spec(
            fold_key_spec("output"@, m),
        ) + "\"><summary>output</summary><pre>"@ + html_escape_spec(out) + "</pre></details>"@
    }
}

/// One row of an activity fold, numbered `index` with two digits at least;
/// nothing for a message that is no activity.
pub open spec fn row_html_spec(index: nat, m: MessageView) -> Seq<char> {
    let b = trim(m.2);
    let number = zero_padded(index, 2);
    match activity_kind_spec(m.1, m.2) {
        None => Seq::empty(),
        Some(AgentActivityKind::Start) => "<li class=\"tool-row tool-row-start\"><span class=\"tool-index\">"@
            + number + "</span><span class=\"tool-label\">start</span><code>"@ + html_escape_spec(b)
            + "</code></li>"@,
        Some(AgentActivityKind::Run) => "<li class=\"tool-row tool-row-run\"><span class=\"tool-index\">"@
            + number + "</span><span class=\"tool-label\">run</span><code>"@ + html_escape_spec(
            run_command_spec(b),
        ) + "</code></li>"@,
        Some(AgentActivityKind::Exit) => "<li class=\"tool-row tool-row-exit\"><span class=\"tool-index\">"@
            + number + "</span><span class=\"tool-label\">exit "@ + html_escape_spec(exit_code_spec(b))
            + "</span><code>"@ + html_escape_spec(exit_command_spec(b)) + "</code>"@
            + output_html_spec(m) + "</li>"@,
    }
}

fn output_html_chars(message: &AgentMessageRow, b: &Vec<char>) -> (r: Vec<char>)
    requires
        b@ == trim(message.body@),
    ensures
        r@ == output_html_spec(message@),
{
    let f = fenced_chars(b);
    let out = trim_chars(&f);
    let mut r: Vec<char> = Vec::new();
    if out.len() > 0 {
        let key = message_fold_key("output", message);
        extend_str(&mut r, "<details class=\"tool-output\" data-fold-key=\"");
        extend_str(&mut r, html_attr_escape(key.as_str()).as_str());
        extend_str(&mut r, "\"><summary>output</summary><pre>");
        extend_chars(&mut r, &html_escape_chars(&out));
        extend_str(&mut r, "</pre></details>");
    }
    r
}

/// One row of an activity fold.
pub fn agent_activity_row_html(index: usize, message: &AgentMessageRow) -> (r: String)
    ensures
        r@ == row_html_spec(index as nat, message@),
{
    let kind = agent_activity_kind(message);
    let b = trim_str(message.body.as_str());
    let mut out: Vec<char> = Vec::new();
    match kind {
        None => {},
        Some(AgentActivityKind::Start) => {
            extend_str(&mut out, "<li class=\"tool-row tool-row-start\"><span class=\"tool-index\">");
            push_zero_padded(&mut out, index as u64, 2);
            extend_str(&mut out, "</span><span class=\"tool-label\">start</span><code>");
            extend_chars(&mut out, &html_escape_chars(&b));
            extend_str(&mut out, "</code></li>");
        },
        Some(AgentActivityKind::Run) => {
            extend_str(&mut out, "<li class=\"tool-row tool-row-run\"><span class=\"tool-index\">");
            push_zero_padded(&mut out, index as u64, 2);
            extend_str(&mut out, "</span><span class=\"tool-label\">run</span><code>");
            extend_chars(&mut out, &html_escape_chars(&run_command_chars(&b)));
            extend_str(&mut out, "</code></li>");
        },
        Some(AgentActivityKind::Exit) => {
            extend_str(&mut out, "<li class=\"tool-row tool-row-exit\"><span class=\"tool-index\">");
            push_zero_padded(&mut out, index as u64, 2);
            extend_str(&mut out, "</span><span class=\"tool-label\">exit ");
            extend_chars(&mut out, &html_escape_chars(&exit_code_chars(&b)));
            extend_str(&mut out, "</span><code>");
            extend_chars(&mut out, &html_escape_chars(&exit_command_chars(&b)));
            extend_str(&mut out, "</code>");
            extend_chars(&mut out, &output_html_chars(message, &b));
            extend_str(&mut out, "</li>");
        },
    }
    string_of(&out)
}

// ---------------------------------------------------------------------------
// Markdown
// ---------------------------------------------------------------------------

/// `pulldown_cmark::Options::ENABLE_TABLES`, as the crate's source defines it.
pub const ENABLE_TABLES: u32 = 2;
/// `pulldown_cmark::Options::ENABLE_STRIKETHROUGH`.
pub const ENABLE_STRIKETHROUGH: u32 = 8;
/// `pulldown_cmark::Options::ENABLE_TASKLISTS`.
pub const ENABLE_TASKLISTS: u32 = 16;

/// The Markdown extensions that message bodies use: strikethrough, tables
/// and task lists.
pub fn markdown_options() -> (r: u32)
    ensures
        r == ENABLE_STRIKETHROUGH | ENABLE_TABLES | ENABLE_TASKLISTS,
{
    ENABLE_STRIKETHROUGH | ENABLE_TABLES | ENABLE_TASKLISTS
}

/// A character that may stand in the language name of a code block.
pub open spec fn lang_char(c: char) -> bool {
    is_ascii_alnum(c) || c == '-' || c == '_' || c == '+'
}

/// The characters of `s` that may stand in a language name.
pub open spec fn lang_filter(s: Seq<char>) -> Seq<char>
    decreases s.len(),
{
    if s.len() == 0 {
        Seq::empty()
    } else if lang_char(s.last()) {
        lang_filter(s.drop_last()).push(s.last())
    } else {
        lang_filter(s.drop_last())
    }
}

/// The language of a code block: the first word of a fence's info string,
/// cut down to the characters that may stand in a language name; empty for
/// an indented block.
pub open spec fn language_spec(info: Option<Seq<char>>) -> Seq<char> {
    match info {
        None => Seq::empty(),
        Some(i) => {
            let w = words(i);
            if w.len() == 0 {
                Seq::empty()
            } else {
                lang_filter(w[0])
            }
        },
    }
}

/// What opens a code block: a head with the language (or `code`) and a copy
/// button, then `<pre><code>` with the language's class where there is one.
pub open spec fn code_block_open_spec(info: Option<Seq<char>>) -> Seq<char> {
    let lang = language_spec(info);
    let label = if lang.len() == 0 {
        "code"@
    } else {
        lang
    };
    let class_attr = if lang.len() == 0 {
        Seq::empty()
    } else {
        " class=\"language-"@ + attr_escape_spec(lang) + "\""@
    };
    "<div class=\"message-code\"><div class=\"message-code-head\"><span>"@ + html_escape_spec(label)
        + "</span><button type=\"button\" class=\"message-copy\" data-copy-code>Copy</button></div><pre><code"@
        + class_attr + ">"@
}

fn lang_filter_chars(v: &Vec<char>) -> (r: Vec<char>)
    ensures
        r@ == lang_filter(v@),
{
    let mut r: Vec<char> = Vec::new();
    let mut i: usize = 0;
    while i < v.len()
        invariant
            i <= v.len(),
            r@ == lang_filter(v@.take(i as int)),
        decreases v.len() - i,
    {
        let c = v[i];
        if char_is_ascii_alnum(c) || c == '-' || c == '_' || c == '+' {
            r.push(c);
        }
        i += 1;
        assert(v@.take(i as int).drop_last() == v@.take(i - 1));
    }
    assert(v@.take(v.len() as int) == v@);
    r
}

/// The HTML that opens a code block whose fence has the info string `info`
/// (`None` for an indented block).
pub fn code_block_open_html(info: Option<&str>) -> (r: String)
    ensures
        r@ == code_block_open_spec(
            match info {
                Some(i) => Some(i@),
                None => None,
            },
        ),
{
    let lang = match info {
        None => Vec::new(),
        Some(i) => {
            let v = chars_of(i);
            let w = words_of(&v);
            if w.len() == 0 {
                Vec::new()
            } else {
                assert(pieces(w@)[0] == w@[0]@);
                lang_filter_chars(&w[0])
            }
        },
    };
    let mut out: Vec<char> = Vec::new();
    extend_str(&mut out, "<div class=\"message-code\"><div class=\"message-code-head\"><span>");
    if lang.len() == 0 {
        extend_str(&mut out, html_escape("code").as_str());
    } else {
        extend_chars(&mut out, &html_escape_chars(&lang));
    }
    extend_str(
        &mut out,
        "</span><button type=\"button\" class=\"message-copy\" data-copy-code>Copy</button></div><pre><code",
    );
    if lang.len() > 0 {
        extend_str(&mut out, " class=\"language-");
        extend_chars(&mut out, &attr_escape_chars(&lang));
        extend_str(&mut out, "\"");
    }
    extend_str(&mut out, ">");
    string_of(&out)
}

/// What closes a code block.
pub const CODE_BLOCK_CLOSE: &'static str = "</code></pre></div>";

/// A Markdown event, as far as the library looks into it: text, raw HTML
/// (a block line or an inline tag), the start of a code block with its info
/// string (`None` for an indented block), the end of a code block, and any
/// other event, known by its position in the parser's output.
pub enum MdEvent {
    Text(String),
    Html(String),
    InlineHtml(String),
    CodeBlockStart(Option<String>),
    CodeBlockEnd,
    Other(usize),
}

/// The plain value of a Markdown event.
pub enum MdView {
    Text(Seq<char>),
    Html(Seq<char>),
    InlineHtml(Seq<char>),
    CodeBlockStart(Option<Seq<char>>),
    CodeBlockEnd,
    Other(int),
}

impl View for MdEvent {
    type V = MdView;

    open spec fn view(&self) -> MdView {
        match self {
            MdEvent::Text(t) => MdView::Text(t@),
            MdEvent::Html(h) => MdView::Html(h@),
            MdEvent::InlineHtml(h) => MdView::InlineHtml(h@),
            MdEvent::CodeBlockStart(info) => MdView::CodeBlockStart(
                match info {
                    Some(i) => Some(i@),
                    None => None,
                },
            ),
            MdEvent::CodeBlockEnd => MdView::CodeBlockEnd,
            MdEvent::Other(k) => MdView::Other(*k as int),
        }
    }
}

/// An event handed to the HTML writer: text (which the writer escapes), HTML
/// that the library wrote, or the parser's own event at a position.
pub enum HtmlEvent {
    Text(String),
    Html(String),
    Source(usize),
}

/// The plain value of an event handed to the writer.
pub enum HtmlView {
    Text(Seq<char>),
    Html(Seq<char>),
    Source(int),
}

impl View for HtmlEvent {
    type V = HtmlView;

    open spec fn view(&self) -> HtmlView {
        match self {
            HtmlEvent::Text(t) => HtmlView::Text(t@),
            HtmlEvent::Html(h) => HtmlView::Html(h@),
            HtmlEvent::Source(k) => HtmlView::Source(*k as int),
        }
    }
}

/// The views of a list of Markdown events.
pub open spec fn md_views(v: Seq<MdEvent>) -> Seq<MdView> {
    v.map_values(|e: MdEvent| e@)
}

/// The views of a list of writer events.
pub open spec fn html_views(v: Seq<HtmlEvent>) -> Seq<HtmlView> {
    v.map_values(|e: HtmlEvent| e@)
}

/// What `pulldown_cmark::Parser::new_ext(text, options)` yields, each event
/// taken as an [`MdView`]; an event of no other kind is `Other` with its
/// position.
pub uninterp spec fn md_parsed(text: Seq<char>, options: u32) -> Seq<MdView>;

/// The events of `text` parsed as Markdown with the option bits `options`,
/// through `pulldown_cmark::Parser::new_ext`: each text, raw HTML and
/// code-block event with its content, every other event by its position.
/// The contract names the parse, and says that an `Other` event carries its
/// own position.
#[verifier::external_body]
fn markdown_events(text: &str, options: u32) -> (r: Vec<MdEvent>)
    ensures
        md_views(r@) == md_parsed(text@, options),
        forall|i: int| 0 <= i < r@.len() && (#[trigger] r@[i]) is Other ==> r@[i]->Other_0 == i,
{
    Parser::new_ext(text, Options::from_bits_truncate(options)).enumerate().map(|(k, event)| match event {
        Event::Text(t) => MdEvent::Text(t.to_string()),
        Event::Html(h) => MdEvent::Html(h.to_string()),
        Event::InlineHtml(h) => MdEvent::InlineHtml(h.to_string()),
        Event::Start(Tag::CodeBlock(CodeBlockKind::Fenced(i))) => MdEvent::CodeBlockStart(Some(i.to_string())),
        Event::Start(Tag::CodeBlock(CodeBlockKind::Indented)) => MdEvent::CodeBlockStart(None),
        Event::End(TagEnd::CodeBlock) => MdEvent::CodeBlockEnd,
        _ => MdEvent::Other(k),
    }).collect()
}

/// How a message body's Markdown event is written out: raw HTML, block or
/// inline, becomes text (so the writer escapes it); a code block opens with
/// [`code_block_open_spec`] and closes with [`CODE_BLOCK_CLOSE`]; text and
/// every other event stay as they are.
pub open spec fn md_event_spec(e: MdView) -> HtmlView {
    match e {
        MdView::Text(t) => HtmlView::Text(t),
        MdView::Html(h) => HtmlView::Text(h),
        MdView::InlineHtml(h) => HtmlView::Text(h),
        MdView::CodeBlockStart(info) => HtmlView::Html(code_block_open_spec(info)),
        MdView::CodeBlockEnd => HtmlView::Html(CODE_BLOCK_CLOSE@),
        MdView::Other(k) => HtmlView::Source(k),
    }
}

/// Rewrites one Markdown event for the writer.
pub fn markdown_event(e: MdEvent) -> (r: HtmlEvent)
    ensures
        r@ == md_event_spec(e@),
{
    match e {
        MdEvent::Text(t) => HtmlEvent::Text(t),
        MdEvent::Html(h) => HtmlEvent::Text(h),
        MdEvent::InlineHtml(h) => HtmlEvent::Text(h),
        MdEvent::CodeBlockStart(info) => {
            let open = match &info {
                Some(i) => code_block_open_html(Some(i.as_str())),
                None => code_block_open_html(None),
            };
            HtmlEvent::Html(open)
        },
        MdEvent::CodeBlockEnd => HtmlEvent::Html(String::from_str(CODE_BLOCK_CLOSE)),
        MdEvent::Other(k) => HtmlEvent::Source(k),
    }
}

/// No `<` and no `>`: text that cannot open or close markup.
pub open spec fn no_angle(s: Seq<char>) -> bool {
    forall|k: int| 0 <= k < s.len() ==> s[k] != '<' && s[k] != '>'
}

/// What `pulldown_cmark::html::push_html` writes for `events`, where a
/// `Source(k)` event is the parser's event `k` for `text` and `options`.
pub uninterp spec fn md_written(text: Seq<char>, options: u32, events: Seq<HtmlView>) -> Seq<char>;

/// Writes the events as HTML through `pulldown_cmark::html::push_html`,
/// taking each `Source(k)` from a fresh parse of `text` with `options`. The
/// contract names the output and states what the crate's writer does with
/// text: it writes the events in order, one piece each, and a text event's
/// piece is escaped (`escape_html_body_text`, or `escape_html` inside an
/// image's alt text, or nothing inside a metadata block), so it holds no `<`
/// and no `>`.
#[verifier::external_body]
fn markdown_write(text: &str, options: u32, events: Vec<HtmlEvent>) -> (r: String)
    requires
        forall|i: int|
            0 <= i < events@.len() && (#[trigger] events@[i]) is Source ==> events@[i]->Source_0
                < md_parsed(text@, options).len(),
    ensures
        r@ == md_written(text@, options, html_views(events@)),
        exists|p: Seq<Seq<char>>|
            p.len() == events@.len() && r@ == concat(p) && forall|i: int|
                0 <= i < p.len() && (#[trigger] events@[i]) is Text ==> no_angle(p[i]),
{
    let parsed: Vec<Event> = Parser::new_ext(text, Options::from_bits_truncate(options)).collect();
    let events = events.into_iter().map(|event| match event {
        HtmlEvent::Text(t) => Event::Text(t.into()),
        HtmlEvent::Html(h) => Event::Html(h.into()),
        HtmlEvent::Source(k) => parsed[k].clone(),
    });
    let mut out = String::new();
    html::push_html(&mut out, events);
    out
}

/// `text` rendered as Markdown with the option bits `options`: parsed, each
/// event rewritten by [`md_event_spec`], and written out.
pub open spec fn markdown_html(text: Seq<char>, options: u32) -> Seq<char> {
    md_written(text, options, md_parsed(text, options).map_values(|e: MdView| md_event_spec(e)))
}

/// Whether a parsed event is text or raw HTML, what the writer must escape.
pub open spec fn md_is_text_or_html(e: MdView) -> bool {
    e is Text || e is Html || e is InlineHtml
}

/// Whether `out` is the written pieces of the events that `text` parses
/// into, in order, where the piece of every text or raw-HTML event holds no
/// `<` and no `>`.
pub open spec fn escapes_raw_html(out: Seq<char>, text: Seq<char>, options: u32) -> bool {
    exists|p: Seq<Seq<char>>|
        p.len() == md_parsed(text, options).len() && out == concat(p) && forall|i: int|
            0 <= i < p.len() && md_is_text_or_html(#[trigger] md_parsed(text, options)[i])
                ==> no_angle(p[i])
}

/// Renders Markdown. The output is the written pieces of the parser's events
/// in order, and the piece of every text or raw-HTML event holds no `<` and
/// no `>`: raw HTML in the input never reaches the output as markup.
fn render_markdown(text: &str, options: u32) -> (r: String)
    ensures
        r@ == markdown_html(text@, options),
        escapes_raw_html(r@, text@, options),
{
    let events = markdown_events(text, options);
    let ghost parsed = md_views(events@);
    let ghost events_at_start = events@;
    let mut rewritten: Vec<HtmlEvent> = Vec::new();
    let mut rest = events;
    let n = rest.len();
    let mut i: usize = 0;
    while i < n
        invariant
            i <= n,
            n == parsed.len(),
            md_views(rest@) == parsed.skip(i as int),
            html_views(rewritten@) == parsed.take(i as int).map_values(|e: MdView| md_event_spec(e)),
        decreases n - i,
    {
        let ghost before = html_views(rewritten@);
        let ghost r0 = md_views(rest@);
        let ghost old_rest = rest@;
        assert(old_rest.len() == r0.len());
        let e = rest.remove(0);
        assert(e == old_rest[0]);
        assert(e@ == r0[0]);
        assert(md_views(rest@) =~= r0.drop_first());
        assert(parsed.skip(i as int).drop_first() =~= parsed.skip(i + 1));
        rewritten.push(markdown_event(e));
        assert(html_views(rewritten@) =~= before.push(md_event_spec(parsed[i as int])));
        assert(parsed.take(i + 1).map_values(|e: MdView| md_event_spec(e)) =~= parsed.take(
            i as int,
        ).map_values(|e: MdView| md_event_spec(e)).push(md_event_spec(parsed[i as int])));
        i += 1;
    }
    assert(parsed.take(n as int) =~= parsed);
    let ghost hv = html_views(rewritten@);
    assert forall|i: int|
        0 <= i < rewritten@.len() && (#[trigger] rewritten@[i]) is Source implies rewritten@[i]->Source_0
            < md_parsed(text@, options).len() by {
        assert(hv[i] == md_event_spec(parsed[i]));
        assert(parsed[i] == events_at_start[i]@);
    }
    let r = markdown_write(text, options, rewritten);
    proof {
        let p = choose|p: Seq<Seq<char>>|
            p.len() == hv.len() && r@ == concat(p) && forall|i: int|
                0 <= i < p.len() && (#[trigger] hv[i]) is Text ==> no_angle(p[i]);
        assert forall|i: int|
            0 <= i < p.len() && md_is_text_or_html(#[trigger] md_parsed(text@, options)[i]) implies no_angle(
            p[i],
        ) by {
            assert(hv[i] is Text);
        }
    }
    r
}

/// How many times `c` stands at the start of `s`.
pub open spec fn leading_count(s: Seq<char>, c: char) -> nat
    decreases s.len(),
{
    if s.len() > 0 && s[0] == c {
        1 + leading_count(s.drop_first(), c)
    } else {
        0
    }
}

/// A line that opens or closes a fence with three or more single quotes
/// after at most three spaces, rewritten to use backticks.
pub open spec fn fence_line_spec(line: Seq<char>) -> Seq<char> {
    let sp = leading_count(line, ' ');
    let rest = line.skip(sp as int);
    let q = leading_count(rest, '\'');
    if sp <= 3 && q >= 3 {
        line.take(sp as int) + "```"@ + rest.skip(q as int)
    } else {
        line
    }
}

/// The lines, each rewritten by [`fence_line_spec`], joined back.
pub open spec fn fence_lines(p: Seq<Seq<char>>) -> Seq<char>
    decreases p.len(),
{
    if p.len() == 0 {
        Seq::empty()
    } else {
        fence_lines(p.drop_last()) + fence_line_spec(p.last())
    }
}

/// Code fences written with single quotes turned into backtick fences, line
/// by line.
pub open spec fn normalize_fences_spec(value: Seq<char>) -> Seq<char> {
    fence_lines(split_inclusive_nl(value))
}

proof fn lemma_leading_count_bound(s: Seq<char>, c: char)
    ensures
        leading_count(s, c) <= s.len(),
        forall|k: int| 0 <= k < leading_count(s, c) ==> s[k] == c,
        leading_count(s, c) < s.len() ==> s[leading_count(s, c) as int] != c,
    decreases s.len(),
{
    if s.len() > 0 && s[0] == c {
        lemma_leading_count_bound(s.drop_first(), c);
        assert forall|k: int| 0 <= k < leading_count(s, c) implies s[k] == c by {
            if k > 0 {
                assert(s[k] == s.drop_first()[k - 1]);
            }
        }
    }
}

proof fn lemma_leading_count_skip(s: Seq<char>, c: char, k: int)
    requires
        0 <= k <= s.len(),
        forall|m: int| 0 <= m < k ==> s[m] == c,
    ensures
        leading_count(s, c) == k + leading_count(s.skip(k), c),
    decreases k,
{
    if k > 0 {
        assert(s.drop_first().skip(k - 1) == s.skip(k));
        lemma_leading_count_skip(s.drop_first(), c, k - 1);
    } else {
        assert(s.skip(0) == s);
    }
}

fn leading_count_chars(v: &Vec<char>, c: char) -> (n: usize)
    ensures
        n == leading_count(v@, c),
{
    let mut k: usize = 0;
    while k < v.len() && v[k] == c
        invariant
            k <= v.len(),
            forall|m: int| 0 <= m < k ==> v@[m] == c,
        decreases v.len() - k,
    {
        k += 1;
    }
    proof {
        lemma_leading_count_skip(v@, c, k as int);
        if k < v.len() {
            assert(v@.skip(k as int)[0] == v@[k as int]);
        }
    }
    k
}

fn fence_line_chars(line: &Vec<char>) -> (r: Vec<char>)
    ensures
        r@ == fence_line_spec(line@),
{
    let sp = leading_count_chars(line, ' ');
    proof {
        lemma_leading_count_bound(line@, ' ');
    }
    let rest = subvec(line, sp, line.len());
    assert(rest@ == line@.skip(sp as int));
    let q = leading_count_chars(&rest, '\'');
    proof {
        lemma_leading_count_bound(rest@, '\'');
    }
    if sp <= 3 && q >= 3 {
        let mut out = subvec(line, 0, sp);
        assert(out@ == line@.take(sp as int));
        extend_str(&mut out, "```");
        let tail = subvec(&rest, q, rest.len());
        assert(tail@ == rest@.skip(q as int));
        extend_chars(&mut out, &tail);
        out
    } else {
        line.clone()
    }
}

/// Code fences written with three or more single quotes (after at most three
/// spaces) rewritten to backtick fences, so that Markdown renders them as
/// code.
pub fn normalize_markdown_fences(value: &str) -> (r: String)
    ensures
        r@ == normalize_fences_spec(value@),
{
    let v = chars_of(value);
    let lines = split_inclusive_nl_of(&v);
    let ghost p = pieces(lines@);
    let mut out: Vec<char> = Vec::new();
    let mut i: usize = 0;
    while i < lines.len()
        invariant
            i <= lines.len(),
            p == pieces(lines@),
            p == split_inclusive_nl(v@),
            out@ == fence_lines(p.take(i as int)),
        decreases lines.len() - i,
    {
        let fixed = fence_line_chars(&lines[i]);
        extend_chars(&mut out, &fixed);
        i += 1;
        assert(p.take(i as int).drop_last() == p.take(i - 1));
    }
    assert(p.take(lines.len() as int) == p);
    string_of(&out)
}

/// A message body rendered as Markdown inside `message-content`; nothing
/// for a blank body.
pub open spec fn body_html_spec(body: Seq<char>) -> Seq<char> {
    if trim(body).len() == 0 {
        Seq::empty()
    } else {
        "<div class=\"message-content\">"@ + markdown_html(
            normalize_fences_spec(body),
            ENABLE_STRIKETHROUGH | ENABLE_TABLES | ENABLE_TASKLISTS,
        ) + "</div>"@
    }
}

/// A message body rendered as Markdown. Raw HTML in the body is never
/// written as markup: the rendered part is the written pieces of the body's
/// Markdown events, and every text or raw-HTML event's piece holds no `<`
/// and no `>`.
pub fn message_body_html(body: &str) -> (r: String)
    ensures
        r@ == body_html_spec(body@),
        trim(body@).len() > 0 ==> exists|inner: Seq<char>|
            r@ == "<div class=\"message-content\">"@ + inner + "</div>"@ && escapes_raw_html(
                inner,
                normalize_fences_spec(body@),
                ENABLE_STRIKETHROUGH | ENABLE_TABLES | ENABLE_TASKLISTS,
            ),
{
    let t = trim_str(body);
    if t.len() == 0 {
        return String::new();
    }
    let normalized = normalize_markdown_fences(body);
    let rendered = render_markdown(normalized.as_str(), markdown_options());
    let mut out = chars_of("<div class=\"message-content\">");
    extend_str(&mut out, rendered.as_str());
    extend_str(&mut out, "</div>");
    string_of(&out)
}

// ---------------------------------------------------------------------------
// Messages
// ---------------------------------------------------------------------------

/// The CSS class of a role: `user` for the user, `assistant` for anything
/// else.
pub open spec fn role_class_spec(role: Seq<char>) -> Seq<char> {
    if role == "user"@ {
        "user"@
    } else {
        "assistant"@
    }
}

/// The label shown for a role.
pub open spec fn role_label_spec(role: Seq<char>) -> Seq<char> {
    if role == "user"@ {
        "You"@
    } else {
        "Agent"@
    }
}

/// The CSS class of a role.
pub fn agent_role_class(role: &str) -> (r: &'static str)
    ensures
        r@ == role_class_spec(role@),
{
    let v = chars_of(role);
    if chars_eq_str(&v, "user") {
        "user"
    } else {
        "assistant"
    }
}

/// The label shown for a role.
pub fn agent_role_label(role: &str) -> (r: &'static str)
    ensures
        r@ == role_label_spec(role@),
{
    let v = chars_of(role);
    if chars_eq_str(&v, "user") {
        "You"
    } else {
        "Agent"
    }
}

/// One message with the time text `time`: avatar, role, time, an edit button
/// for a stored user message, and the rendered body.
pub open spec fn message_html_spec(m: MessageView, time: Seq<char>) -> Seq<char> {
    let user = m.1 == "user"@;
    let avatar = if user {
        "U"@
    } else {
        "A"@
    };
    let actions = if user && m.0 > 0 {
        "<button type=\"button\" class=\"message-edit\" data-edit-message=\""@ + int_decimal(
            m.0 as int,
        ) + "\" data-edit-body=\""@ + attr_escape_spec(m.2) + "\">Edit</button>"@
    } else {
        Seq::empty()
    };
    "<article class=\"message message-"@ + role_class_spec(m.1)
        + "\" data-message-entry>\n  <div class=\"message-avatar\">"@ + avatar
        + "</div>\n  <div class=\"message-body\">\n    <div class=\"message-meta\"><strong>"@
        + html_escape_spec(role_label_spec(m.1)) + "</strong><span class=\"message-log\">"@
        + html_escape_spec(time) + "</span>"@ + actions + "</div>\n    "@ + body_html_spec(m.2)
        + "\n  </div>\n</article>"@
}

/// One message, with `time` shown as its time.
pub fn agent_message_html_at(message: &AgentMessageRow, time: &str) -> (r: String)
    ensures
        r@ == message_html_spec(message@, time@),
{
    let user = text_eq(&message.role, "user");
    let mut out = chars_of("<article class=\"message message-");
    extend_str(&mut out, agent_role_class(message.role.as_str()));
    extend_str(&mut out, "\" data-message-entry>\n  <div class=\"message-avatar\">");
    extend_str(&mut out, if user { "U" } else { "A" });
    extend_str(&mut out, "</div>\n  <div class=\"message-body\">\n    <div class=\"message-meta\"><strong>");
    extend_str(&mut out, html_escape(agent_role_label(message.role.as_str())).as_str());
    extend_str(&mut out, "</strong><span class=\"message-log\">");
    extend_str(&mut out, html_escape(time).as_str());
    extend_str(&mut out, "</span>");
    if user && message.id > 0 {
        extend_str(&mut out, "<button type=\"button\" class=\"message-edit\" data-edit-message=\"");
        push_i64(&mut out, message.id);
        extend_str(&mut out, "\" data-edit-body=\"");
        extend_str(&mut out, html_attr_escape(message.body.as_str()).as_str());
        extend_str(&mut out, "\">Edit</button>");
    }
    extend_str(&mut out, "</div>\n    ");
    extend_str(&mut out, message_body_html(message.body.as_str()).as_str());
    extend_str(&mut out, "\n  </div>\n</article>");
    string_of(&out)
}

/// One message, its time shown as a short local time.
pub fn agent_message_html(message: &AgentMessageRow) -> (r: String)
    ensures
        exists|t: Seq<char>|
            compact_time_ok(message.created_at@, t) && r@ == #[trigger] message_html_spec(
                message@,
                t,
            ),
{
    let time = compact_local_time(message.created_at.as_str());
    agent_message_html_at(message, time.as_str())
}

// ---------------------------------------------------------------------------
// Folds of command activity
// ---------------------------------------------------------------------------

/// The rows of a fold, numbered from 1.
pub open spec fn rows_spec(ms: Seq<MessageView>) -> Seq<char>
    decreases ms.len(),
{
    if ms.len() == 0 {
        Seq::empty()
    } else {
        rows_spec(ms.drop_last()) + row_html_spec(ms.len(), ms.last())
    }
}

/// The first summary line among the messages.
pub open spec fn first_preview(ms: Seq<MessageView>) -> Option<Seq<char>>
    decreases ms.len(),
{
    if ms.len() == 0 {
        None
    } else {
        match preview_spec(ms[0]) {
            Some(p) => Some(p),
            None => first_preview(ms.drop_first()),
        }
    }
}

/// The fold key of a run of activity: that of its first message.
pub open spec fn activity_fold_key_spec(ms: Seq<MessageView>) -> Seq<char> {
    if ms.len() == 0 {
        "activity-empty"@
    } else {
        fold_key_spec("activity"@, ms[0])
    }
}

/// How many events a fold holds, in words.
pub open spec fn event_label_spec(n: nat) -> Seq<char> {
    if n == 1 {
        "1 event"@
    } else {
        nat_decimal(n) + " events"@
    }
}

/// A run of command activity folded into one entry, with `time` shown as the
/// time of its first message.
pub open spec fn stack_html_spec(ms: Seq<MessageView>, time: Seq<char>) -> Seq<char> {
    let started = if ms.len() == 0 {
        Seq::empty()
    } else {
        html_escape_spec(time)
    };
    let preview = match first_preview(ms) {
        Some(p) => p,
        None => "Agent command activity"@,
    };
    "<article class=\"message message-activity\" data-message-entry>\n  <div class=\"message-avatar\">$</div>\n  <div class=\"message-body\">\n    <div class=\"message-meta\"><strong>Activity</strong><span class=\"message-log\">"@
        + started + "</span></div>\n    <details class=\"tool-fold\" data-fold-key=\""@
        + attr_escape_spec(activity_fold_key_spec(ms)) + "\">\n      <summary><span>"@
        + html_escape_spec(event_label_spec(ms.len())) + "</span><code>"@ + html_escape_spec(
        truncate_spec(preview, 140),
    ) + "</code></summary>\n      <ol class=\"tool-stack\" aria-label=\"Agent command activity\">"@
        + rows_spec(ms) + "</ol>\n    </details>\n  </div>\n </article>"@
}

/// The fold key of a run of activity.
pub fn agent_activity_fold_key(messages: &[AgentMessageRow]) -> (r: String)
    ensures
        r@ == activity_fold_key_spec(message_views(messages@)),
{
    if messages.len() == 0 {
        String::from_str("activity-empty")
    } else {
        message_fold_key("activity", &messages[0])
    }
}

fn rows_chars(messages: &[AgentMessageRow]) -> (r: Vec<char>)
    ensures
        r@ == rows_spec(message_views(messages@)),
{
    let ghost ms = message_views(messages@);
    let mut out: Vec<char> = Vec::new();
    let mut i: usize = 0;
    while i < messages.len()
        invariant
            i <= messages.len(),
            ms == message_views(messages@),
            out@ == rows_spec(ms.take(i as int)),
        decreases messages.len() - i,
    {
        let row = agent_activity_row_html(i + 1, &messages[i]);
        extend_str(&mut out, row.as_str());
        i += 1;
        assert(ms.take(i as int).drop_last() == ms.take(i - 1));
    }
    assert(ms.take(messages.len() as int) == ms);
    out
}

fn first_preview_chars(messages: &[AgentMessageRow]) -> (r: Vec<char>)
    ensures
        r@ == match first_preview(message_views(messages@)) {
            Some(p) => p,
            None => "Agent command activity"@,
        },
{
    let ghost ms = message_views(messages@);
    assert(ms.skip(0) == ms);
    let mut i: usize = 0;
    while i < messages.len()
        invariant
            i <= messages.len(),
            ms == message_views(messages@),
            first_preview(ms) == first_preview(ms.skip(i as int)),
        decreases messages.len() - i,
    {
        assert(ms.skip(i as int)[0] == messages@[i as int]@);
        assert(ms.skip(i as int).drop_first() == ms.skip(i + 1));
        match agent_activity_preview(&messages[i]) {
            Some(p) => return chars_of(p.as_str()),
            None => {},
        }
        i += 1;
    }
    chars_of("Agent command activity")
}

/// A run of command activity folded into one entry, with `started_at` shown
/// as the time of its first message.
pub fn agent_activity_stack_html_at(messages: &[AgentMessageRow], started_at: &str) -> (r: String)
    ensures
        r@ == stack_html_spec(message_views(messages@), started_at@),
{
    let ghost ms = message_views(messages@);
    let n = messages.len();
    let mut out = chars_of(
        "<article class=\"message message-activity\" data-message-entry>\n  <div class=\"message-avatar\">$</div>\n  <div class=\"message-body\">\n    <div class=\"message-meta\"><strong>Activity</strong><span class=\"message-log\">",
    );
    if n > 0 {
        extend_str(&mut out, html_escape(started_at).as_str());
    }
    extend_str(&mut out, "</span></div>\n    <details class=\"tool-fold\" data-fold-key=\"");
    extend_str(&mut out, html_attr_escape(agent_activity_fold_key(messages).as_str()).as_str());
    extend_str(&mut out, "\">\n      <summary><span>");
    let mut label: Vec<char> = Vec::new();
    if n == 1 {
        extend_str(&mut label, "1 event");
    } else {
        push_decimal(&mut label, n as u64);
        extend_str(&mut label, " events");
    }
    extend_chars(&mut out, &html_escape_chars(&label));
    extend_str(&mut out, "</span><code>");
    let preview = first_preview_chars(messages);
    let short = truncate_chars(&preview, 140);
    extend_chars(&mut out, &html_escape_chars(&short));
    extend_str(
        &mut out,
        "</code></summary>\n      <ol class=\"tool-stack\" aria-label=\"Agent command activity\">",
    );
    extend_chars(&mut out, &rows_chars(messages));
    extend_str(&mut out, "</ol>\n    </details>\n  </div>\n </article>");
    string_of(&out)
}

/// A run of command activity folded into one entry, the time of its first
/// message shown as a short local time.
pub fn agent_activity_stack_html(messages: &[AgentMessageRow]) -> (r: String)
    ensures
        exists|t: Seq<char>|
            (messages.len() > 0 ==> compact_time_ok(messages@[0].created_at@, t)) && r@
                == #[trigger] stack_html_spec(message_views(messages@), t),
{
    if messages.len() == 0 {
        agent_activity_stack_html_at(messages, "")
    } else {
        let time = compact_local_time(messages[0].created_at.as_str());
        agent_activity_stack_html_at(messages, time.as_str())
    }
}

// ---------------------------------------------------------------------------
// The transcript
// ---------------------------------------------------------------------------

/// How many messages of command activity open `ms`.
pub open spec fn activity_run(ms: Seq<MessageView>) -> nat
    decreases ms.len(),
{
    if ms.len() > 0 && is_activity(ms[0]) {
        1 + activity_run(ms.drop_first())
    } else {
        0
    }
}

/// A run of activity is no longer than the messages it is counted in.
pub proof fn lemma_activity_run_bound(ms: Seq<MessageView>)
    ensures
        activity_run(ms) <= ms.len(),
    decreases ms.len(),
{
    if ms.len() > 0 && is_activity(ms[0]) {
        lemma_activity_run_bound(ms.drop_first());
    }
}

/// Messages in the order shown, each with its time text: every maximal run
/// of command activity folded into one entry, every other message shown by
/// itself.
pub open spec fn render_spec(ms: Seq<MessageView>, ts: Seq<Seq<char>>) -> Seq<char>
    decreases ms.len(),
{
    if ms.len() == 0 {
        Seq::empty()
    } else if is_activity(ms[0]) {
        let k = activity_run(ms);
        proof {
            lemma_activity_run_bound(ms);
        }
        stack_html_spec(ms.take(k as int), ts[0]) + render_spec(ms.skip(k as int), ts.skip(k as int))
    } else {
        message_html_spec(ms[0], ts[0]) + render_spec(ms.drop_first(), ts.drop_first())
    }
}

/// The transcript of a slot, `ts[i]` shown as the time of message `i`: the
/// oldest message first (the messages come newest first), or a note where
/// there is none.
pub open spec fn messages_html_spec(ms: Seq<MessageView>, ts: Seq<Seq<char>>) -> Seq<char> {
    if ms.len() == 0 {
        "<p class=\"empty\">No messages in this slot yet.</p>"@
    } else {
        render_spec(ms.reverse(), ts.reverse())
    }
}

fn copy_message(m: &AgentMessageRow) -> (r: AgentMessageRow)
    ensures
        r@ == m@,
{
    AgentMessageRow {
        id: m.id,
        role: m.role.clone(),
        body: m.body.clone(),
        created_at: m.created_at.clone(),
    }
}

/// The transcript of a slot, `times[i]` shown as the time of message `i`.
pub fn agent_messages_html_at(messages: &[AgentMessageRow], times: &Vec<String>) -> (r: String)
    requires
        times.len() == messages.len(),
    ensures
        r@ == messages_html_spec(message_views(messages@), string_views(times@)),
{
    let n = messages.len();
    if n == 0 {
        return String::from_str("<p class=\"empty\">No messages in this slot yet.</p>");
    }
    let ghost ms = message_views(messages@).reverse();
    let ghost ts = string_views(times@).reverse();
    let mut out: Vec<char> = Vec::new();
    let mut k: usize = 0;
    assert(ms.skip(0) == ms && ts.skip(0) == ts);
    while k < n
        invariant
            k <= n,
            n == messages.len(),
            times.len() == n,
            ms == message_views(messages@).reverse(),
            ts == string_views(times@).reverse(),
            out@ + render_spec(ms.skip(k as int), ts.skip(k as int)) == render_spec(ms, ts),
        decreases n - k,
    {
        let ghost rest = ms.skip(k as int);
        let ghost trest = ts.skip(k as int);
        assert(rest[0] == messages@[n - 1 - k]@);
        assert(trest[0] == times@[n - 1 - k]@);
        if agent_activity_kind(&messages[n - 1 - k]).is_some() {
            let start = k;
            let mut group: Vec<AgentMessageRow> = Vec::new();
            assert(ms.subrange(start as int, start as int) == Seq::<MessageView>::empty());
            while k < n && agent_activity_kind(&messages[n - 1 - k]).is_some()
                invariant
                    start <= k <= n,
                    n == messages.len(),
                    ms == message_views(messages@).reverse(),
                    message_views(group@) == ms.subrange(start as int, k as int),
                    activity_run(ms.skip(start as int)) == (k - start) + activity_run(
                        ms.skip(k as int),
                    ),
                decreases n - k,
            {
                assert(ms.skip(k as int)[0] == messages@[n - 1 - k]@);
                assert(ms.skip(k as int).drop_first() == ms.skip(k + 1));
                let ghost before = message_views(group@);
                group.push(copy_message(&messages[n - 1 - k]));
                assert(message_views(group@) == before.push(messages@[n - 1 - k]@));
                k += 1;
                assert(ms.subrange(start as int, k as int) == ms.subrange(
                    start as int,
                    k - 1,
                ).push(ms[k - 1]));
            }
            proof {
                if k < n {
                    assert(ms.skip(k as int)[0] == messages@[n - 1 - k]@);
                }
                assert(activity_run(ms.skip(k as int)) == 0);
                assert(rest.take(k - start) == ms.subrange(start as int, k as int));
                assert(rest.skip(k - start) == ms.skip(k as int));
                assert(trest.skip(k - start) == ts.skip(k as int));
            }
            let html = agent_activity_stack_html_at(group.as_slice(), times[n - 1 - start].as_str());
            extend_str(&mut out, html.as_str());
        } else {
            let html = agent_message_html_at(&messages[n - 1 - k], times[n - 1 - k].as_str());
            extend_str(&mut out, html.as_str());
            assert(rest.drop_first() == ms.skip(k + 1));
            assert(trest.drop_first() == ts.skip(k + 1));
            k += 1;
        }
    }
    assert(ms.skip(n as int).len() == 0);
    string_of(&out)
}

/// The transcript of a slot, given newest message first and shown oldest
/// first, each time shown as a
/// short local time.
pub fn agent_messages_html(messages: &[AgentMessageRow]) -> (r: String)
    ensures
        exists|ts: Seq<Seq<char>>|
            ts.len() == messages.len() && (forall|i: int|
                0 <= i < ts.len() ==> compact_time_ok(messages@[i].created_at@, #[trigger] ts[i]))
                && r@ == #[trigger] messages_html_spec(message_views(messages@), ts),
{
    let mut times: Vec<String> = Vec::new();
    let mut i: usize = 0;
    while i < messages.len()
        invariant
            i <= messages.len(),
            times.len() == i,
            forall|j: int|
                0 <= j < i ==> compact_time_ok(messages@[j].created_at@, #[trigger] times@[j]@),
        decreases messages.len() - i,
    {
        times.push(compact_local_time(messages[i].created_at.as_str()));
        i += 1;
    }
    let r = agent_messages_html_at(messages, &times);
    assert(forall|j: int|
        0 <= j < times.len() ==> #[trigger] string_views(times@)[j] == times@[j]@);
    r
}

/// How many message entries a rendered transcript holds, `None` for none.
pub fn codex_transcript_count(html: &str) -> (r: Option<usize>)
    ensures
        r matches Some(n) ==> n == match_count(html@, "data-message-entry"@) && n > 0,
        r is None ==> match_count(html@, "data-message-entry"@) == 0,
{
    let v = chars_of(html);
    let p = chars_of("data-message-entry");
    proof {
        reveal_strlit("data-message-entry");
    }
    let n = chars_match_count(&v, &p);
    if n > 0 {
        Some(n)
    } else {
        None
    }
}

} // verus!
