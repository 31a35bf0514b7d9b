//! Saved Codex sessions: the visible user and assistant messages of a JSONL
//! transcript, without the context that Codex injects and without the
//! duplicates that its event log repeats.
use vstd::prelude::*;
use crate::json::{
    json_array_len, json_as_str, json_element, json_element_text, json_len, json_member,
    json_member_text, json_str_at, json_str_path, json_str_value, opt_seq, str_views,
};
use crate::runtime::is_final_agent_phase;
use crate::split::{join, join_chars, pieces};
use crate::text::{
    chars_contains_str, chars_eq, chars_eq_str, chars_of, chars_starts_with_str, contains,
    starts_with, string_of, trim, trim_chars, trim_start, trim_start_chars,
};
use crate::time::{rfc3339_epoch, rfc3339_seconds};

verus! {

// ---------------------------------------------------------------------------
// Messages
// ---------------------------------------------------------------------------

/// A user or assistant message found in a transcript.
pub struct CodexVisibleMessage {
    pub role: String,
    pub text: String,
    pub timestamp: String,
    /// The line it was found on.
    pub order: usize,
    /// Found in an event record rather than a response item; such a copy
    /// gives way to a response item with the same message.
    pub fallback: bool,
    pub final_answer: bool,
    pub assistant_progress: bool,
}

/// Role, text, timestamp, line, and the three flags of a visible message.
pub type VisibleView = (Seq<char>, Seq<char>, Seq<char>, usize, bool, bool, bool);

impl View for CodexVisibleMessage {
    type V = VisibleView;

    open spec fn view(&self) -> VisibleView {
        (
            self.role@,
            self.text@,
            self.timestamp@,
            self.order,
            self.fallback,
            self.final_answer,
            self.assistant_progress,
        )
    }
}

/// The views of visible messages.
pub open spec fn visible_views(v: Seq<CodexVisibleMessage>) -> Seq<VisibleView> {
    v.map_values(|m: CodexVisibleMessage| m@)
}

/// Text that Codex puts in a user turn for its own context: instructions,
/// environment and mode blocks.
pub open spec fn synthetic_spec(text: Seq<char>) -> bool {
    let t = trim_start(text);
    starts_with(t, "# AGENTS.md instructions for"@) || starts_with(t, "<environment_context>"@)
        || starts_with(t, "<INSTRUCTIONS>"@) || starts_with(t, "<permissions instructions>"@)
        || starts_with(t, "<collaboration_mode>"@) || starts_with(t, "<apps_instructions>"@)
        || starts_with(t, "<skills_instructions>"@) || starts_with(t, "<plugins_instructions>"@)
        || (contains(t, "<environment_context>"@) && contains(t, "<cwd>"@))
}

/// Whether a user turn is context that Codex injected rather than what the
/// user wrote.
pub fn is_codex_synthetic_user_text(text: &str) -> (r: bool)
    ensures
        r == synthetic_spec(text@),
{
    let v = chars_of(text);
    let t = trim_start_chars(&v);
    chars_starts_with_str(&t, "# AGENTS.md instructions for") || chars_starts_with_str(
        &t,
        "<environment_context>",
    ) || chars_starts_with_str(&t, "<INSTRUCTIONS>") || chars_starts_with_str(
        &t,
        "<permissions instructions>",
    ) || chars_starts_with_str(&t, "<collaboration_mode>") || chars_starts_with_str(
        &t,
        "<apps_instructions>",
    ) || chars_starts_with_str(&t, "<skills_instructions>") || chars_starts_with_str(
        &t,
        "<plugins_instructions>",
    ) || (chars_contains_str(&t, "<environment_context>") && chars_contains_str(&t, "<cwd>"))
}

/// The seconds since the epoch of a transcript timestamp in RFC 3339.
pub fn codex_timestamp_seconds(value: &str) -> (r: Option<i64>)
    ensures
        r matches Some(t) ==> rfc3339_epoch(value@) == Some(t as int),
        r is None ==> rfc3339_epoch(value@) is None,
{
    rfc3339_seconds(value)
}

/// Two messages say the same: same role, same trimmed text, and no more than
/// two seconds apart where both times parse, else no more than two lines
/// apart.
pub open spec fn near_spec(a: VisibleView, b: VisibleView) -> bool {
    if a.0 != b.0 || trim(a.1) != trim(b.1) {
        false
    } else {
        match (rfc3339_epoch(a.2), rfc3339_epoch(b.2)) {
            (Some(x), Some(y)) => -2 <= x - y <= 2,
            _ => -2 <= a.3 - b.3 <= 2,
        }
    }
}

/// Whether two visible messages say the same thing at nearly the same time.
pub fn same_codex_visible_message_near(
    left: &CodexVisibleMessage,
    right: &CodexVisibleMessage,
) -> (r: bool)
    ensures
        r == near_spec(left@, right@),
{
    let lr = chars_of(left.role.as_str());
    let rr = chars_of(right.role.as_str());
    if !chars_eq(&lr, &rr) {
        return false;
    }
    let lt = trim_chars(&chars_of(left.text.as_str()));
    let rt = trim_chars(&chars_of(right.text.as_str()));
    if !chars_eq(&lt, &rt) {
        return false;
    }
    match (codex_timestamp_seconds(left.timestamp.as_str()), codex_timestamp_seconds(right.timestamp.as_str())) {
        (Some(x), Some(y)) => {
            let d: i128 = (x as i128) - (y as i128);
            -2 <= d && d <= 2
        },
        _ => {
            if left.order >= right.order {
                left.order - right.order <= 2
            } else {
                right.order - left.order <= 2
            }
        },
    }
}

/// Message `i` stays: it is no event copy of a response item that says the
/// same nearby.
pub open spec fn kept_spec(ms: Seq<VisibleView>, i: int) -> bool {
    !(ms[i].4 && exists|j: int|
        0 <= j < ms.len() && j != i && !ms[j].4 && #[trigger] near_spec(ms[i], ms[j]))
}

/// The messages among the first `n` that stay, in their order.
pub open spec fn dedupe_prefix(ms: Seq<VisibleView>, n: int) -> Seq<VisibleView>
    decreases n,
{
    if n <= 0 {
        Seq::empty()
    } else if kept_spec(ms, n - 1) {
        dedupe_prefix(ms, n - 1).push(ms[n - 1])
    } else {
        dedupe_prefix(ms, n - 1)
    }
}

/// The messages that stay, in their order.
pub open spec fn dedupe_spec(ms: Seq<VisibleView>) -> Seq<VisibleView> {
    dedupe_prefix(ms, ms.len() as int)
}

fn copy_visible(m: &CodexVisibleMessage) -> (r: CodexVisibleMessage)
    ensures
        r@ == m@,
{
    CodexVisibleMessage {
        role: m.role.clone(),
        text: m.text.clone(),
        timestamp: m.timestamp.clone(),
        order: m.order,
        fallback: m.fallback,
        final_answer: m.final_answer,
        assistant_progress: m.assistant_progress,
    }
}

fn has_response_item_near(messages: &Vec<CodexVisibleMessage>, i: usize) -> (r: bool)
    requires
        i < messages.len(),
    ensures
        r == exists|j: int|
            0 <= j < messages@.len() && j != i && !visible_views(messages@)[j].4
                && #[trigger] near_spec(visible_views(messages@)[i as int], visible_views(messages@)[j]),
{
    let ghost ms = visible_views(messages@);
    let mut j: usize = 0;
    while j < messages.len()
        invariant
            i < messages.len(),
            j <= messages.len(),
            ms == visible_views(messages@),
            forall|k: int|
                0 <= k < j ==> !(k != i && !ms[k].4 && #[trigger] near_spec(ms[i as int], ms[k])),
        decreases messages.len() - j,
    {
        assert(ms[j as int] == messages@[j as int]@);
        assert(ms[i as int] == messages@[i as int]@);
        if j != i && !messages[j].fallback && same_codex_visible_message_near(&messages[i], &messages[j]) {
            assert(near_spec(ms[i as int], ms[j as int]));
            return true;
        }
        j += 1;
    }
    false
}

/// Drops the event copies of messages that a response item already holds.
pub fn dedupe_codex_visible_messages(messages: Vec<CodexVisibleMessage>) -> (r: Vec<
    CodexVisibleMessage,
>)
    ensures
        visible_views(r@) == dedupe_spec(visible_views(messages@)),
{
    let ghost ms = visible_views(messages@);
    let mut out: Vec<CodexVisibleMessage> = Vec::new();
    let mut i: usize = 0;
    while i < messages.len()
        invariant
            i <= messages.len(),
            ms == visible_views(messages@),
            visible_views(out@) == dedupe_prefix(ms, i as int),
        decreases messages.len() - i,
    {
        let drop = messages[i].fallback && has_response_item_near(&messages, i);
        proof {
            assert(ms[i as int] == messages@[i as int]@);
            assert(drop == !kept_spec(ms, i as int));
        }
        if !drop {
            let ghost before = visible_views(out@);
            out.push(copy_visible(&messages[i]));
            assert(visible_views(out@) == before.push(messages@[i as int]@));
        }
        i += 1;
    }
    out
}

/// A message that is no event copy stays.
pub proof fn dedupe_keeps_response_items(ms: Seq<VisibleView>, i: int)
    requires
        0 <= i < ms.len(),
        !ms[i].4,
    ensures
        dedupe_spec(ms).contains(ms[i]),
{
    lemma_dedupe_prefix_keeps(ms, ms.len() as int, i);
}

/// `x` is a message among the first `n` that stays.
spec fn kept_among(ms: Seq<VisibleView>, x: VisibleView, n: int) -> bool {
    exists|k: int| 0 <= k < n && #[trigger] ms[k] == x && kept_spec(ms, k)
}

proof fn lemma_dedupe_prefix_from(ms: Seq<VisibleView>, n: int)
    requires
        0 <= n <= ms.len(),
    ensures
        forall|i: int|
            0 <= i < dedupe_prefix(ms, n).len() ==> kept_among(ms, #[trigger] dedupe_prefix(ms, n)[i], n),
    decreases n,
{
    if n > 0 {
        lemma_dedupe_prefix_from(ms, n - 1);
        let prev = dedupe_prefix(ms, n - 1);
        assert forall|i: int| 0 <= i < dedupe_prefix(ms, n).len() implies kept_among(
            ms,
            #[trigger] dedupe_prefix(ms, n)[i],
            n,
        ) by {
            if i < prev.len() {
                assert(dedupe_prefix(ms, n)[i] == prev[i]);
                assert(kept_among(ms, prev[i], n - 1));
                let k = choose|k: int| 0 <= k < n - 1 && #[trigger] ms[k] == prev[i] && kept_spec(ms, k);
                assert(ms[k] == dedupe_prefix(ms, n)[i]);
            } else {
                assert(kept_spec(ms, n - 1));
                assert(dedupe_prefix(ms, n)[i] == ms[n - 1]);
            }
        }
    }
}

proof fn lemma_dedupe_all_kept(d: Seq<VisibleView>, n: int)
    requires
        0 <= n <= d.len(),
        forall|i: int| 0 <= i < d.len() ==> kept_spec(d, i),
    ensures
        dedupe_prefix(d, n) == d.take(n),
    decreases n,
{
    if n > 0 {
        lemma_dedupe_all_kept(d, n - 1);
        assert(kept_spec(d, n - 1));
        assert(d.take(n - 1).push(d[n - 1]) =~= d.take(n));
    } else {
        assert(d.take(0) =~= Seq::<VisibleView>::empty());
    }
}

/// Dropping duplicate event copies twice drops nothing more: every message
/// left is kept again.
pub proof fn dedupe_is_idempotent(ms: Seq<VisibleView>)
    ensures
        dedupe_spec(dedupe_spec(ms)) == dedupe_spec(ms),
{
    let d = dedupe_spec(ms);
    lemma_dedupe_prefix_from(ms, ms.len() as int);
    assert forall|i: int| 0 <= i < d.len() implies kept_spec(d, i) by {
        assert(kept_among(ms, d[i], ms.len() as int));
        let k = choose|k: int| 0 <= k < ms.len() && #[trigger] ms[k] == d[i] && kept_spec(ms, k);
        if d[i].4 {
            assert forall|j: int| 0 <= j < d.len() && j != i && !d[j].4 implies !near_spec(
                d[i],
                #[trigger] d[j],
            ) by {
                assert(kept_among(ms, d[j], ms.len() as int));
                let k2 = choose|k2: int| 0 <= k2 < ms.len() && #[trigger] ms[k2] == d[j] && kept_spec(
                    ms,
                    k2,
                );
                assert(k2 != k);
                if near_spec(d[i], d[j]) {
                    assert(near_spec(ms[k], ms[k2]));
                    assert(!kept_spec(ms, k));
                }
            }
        }
    }
    lemma_dedupe_all_kept(d, d.len() as int);
    assert(d.take(d.len() as int) =~= d);
}

proof fn lemma_dedupe_prefix_keeps(ms: Seq<VisibleView>, n: int, i: int)
    requires
        0 <= i < n <= ms.len(),
        !ms[i].4,
    ensures
        dedupe_prefix(ms, n).contains(ms[i]),
    decreases n,
{
    if i == n - 1 {
        assert(kept_spec(ms, i));
        assert(dedupe_prefix(ms, n).last() == ms[i]);
    } else {
        lemma_dedupe_prefix_keeps(ms, n - 1, i);
        let prev = dedupe_prefix(ms, n - 1);
        let k = choose|k: int| 0 <= k < prev.len() && prev[k] == ms[i];
        if kept_spec(ms, n - 1) {
            assert(dedupe_prefix(ms, n)[k] == ms[i]);
        }
    }
}

/// A transcript that shows the assistant at work but holds no final answer
/// was cut off.
pub open spec fn interrupted_spec(ms: Seq<VisibleView>) -> bool {
    (exists|i: int| 0 <= i < ms.len() && #[trigger] ms[i].6) && !(exists|i: int|
        0 <= i < ms.len() && #[trigger] ms[i].5)
}

/// Whether a transcript ended before its final answer.
pub fn codex_transcript_interrupted(messages: &Vec<CodexVisibleMessage>) -> (r: bool)
    ensures
        r == interrupted_spec(visible_views(messages@)),
{
    let ghost ms = visible_views(messages@);
    let mut progress = false;
    let mut final_answer = false;
    let mut i: usize = 0;
    while i < messages.len()
        invariant
            i <= messages.len(),
            ms == visible_views(messages@),
            progress == exists|k: int| 0 <= k < i && #[trigger] ms[k].6,
            final_answer == exists|k: int| 0 <= k < i && #[trigger] ms[k].5,
        decreases messages.len() - i,
    {
        assert(ms[i as int] == messages@[i as int]@);
        assert(ms[i as int].6 == messages@[i as int].assistant_progress);
        assert(ms[i as int].5 == messages@[i as int].final_answer);
        if messages[i].assistant_progress {
            progress = true;
        }
        if messages[i].final_answer {
            final_answer = true;
        }
        i += 1;
    }
    progress && !final_answer
}

// ---------------------------------------------------------------------------
// Reading transcript records
// ---------------------------------------------------------------------------

/// The string of member `key` of a JSON object.
pub open spec fn str_member(text: Seq<char>, key: Seq<char>) -> Option<Seq<char>> {
    json_str_path(text, seq![key])
}

/// The string of member `first` where the object has that member, else of
/// member `second` (`get(first).or_else(|| get(second))` then `as_str`).
pub open spec fn str_member_or(text: Seq<char>, first: Seq<char>, second: Seq<char>) -> Option<
    Seq<char>,
> {
    match json_member_text(text, first) {
        Some(m) => json_str_value(m),
        None => match json_member_text(text, second) {
            Some(m) => json_str_value(m),
            None => None,
        },
    }
}

fn member_str(text: &str, key: &str) -> (r: Option<String>)
    ensures
        opt_seq(r) == str_member(text@, key@),
{
    let path: [&str; 1] = [key];
    assert(str_views(path@) =~= seq![key@]);
    json_str_at(text, &path)
}

fn member_str_or(text: &str, first: &str, second: &str) -> (r: Option<String>)
    ensures
        opt_seq(r) == str_member_or(text@, first@, second@),
{
    match json_member(text, first) {
        Some(m) => json_as_str(m.as_str()),
        None => match json_member(text, second) {
            Some(m) => json_as_str(m.as_str()),
            None => None,
        },
    }
}

/// The text of item `k` of a content array: its `text`, else its `content`,
/// where that is a string.
pub open spec fn content_item_text(c: Seq<char>, k: int) -> Option<Seq<char>> {
    match json_element_text(c, k) {
        None => None,
        Some(item) => str_member_or(item, "text"@, "content"@),
    }
}

/// The texts of the first `n` items of a content array that have one.
pub open spec fn content_item_texts(c: Seq<char>, n: int) -> Seq<Seq<char>>
    decreases n,
{
    if n <= 0 {
        Seq::empty()
    } else {
        match content_item_text(c, n - 1) {
            Some(t) => content_item_texts(c, n - 1).push(t),
            None => content_item_texts(c, n - 1),
        }
    }
}

/// The text of a message's content: the string itself, or the texts of the
/// items of an array joined by newlines; empty otherwise.
pub open spec fn content_text_spec(c: Seq<char>) -> Seq<char> {
    match json_str_value(c) {
        Some(t) => t,
        None => match json_array_len(c) {
            None => Seq::empty(),
            Some(n) => join(content_item_texts(c, n as int), seq!['\n']),
        },
    }
}

/// The text of a message's content, given as JSON text.
pub fn codex_content_text(content: &str) -> (r: String)
    ensures
        r@ == content_text_spec(content@),
{
    match json_as_str(content) {
        Some(t) => t,
        None => match json_len(content) {
            None => String::new(),
            Some(n) => {
                let mut parts: Vec<Vec<char>> = Vec::new();
                let mut k: usize = 0;
                while k < n
                    invariant
                        k <= n,
                        pieces(parts@) == content_item_texts(content@, k as int),
                    decreases n - k,
                {
                    let t = match json_element(content, k) {
                        None => None,
                        Some(item) => member_str_or(item.as_str(), "text", "content"),
                    };
                    match t {
                        Some(t) => {
                            let ghost before = pieces(parts@);
                            parts.push(chars_of(t.as_str()));
                            assert(pieces(parts@) == before.push(t@));
                        },
                        None => {},
                    }
                    k += 1;
                }
                let mut nl: Vec<char> = Vec::new();
                nl.push('\n');
                assert(nl@ == seq!['\n']);
                string_of(&join_chars(&parts, &nl))
            },
        },
    }
}

/// A phase that marks a final answer.
pub open spec fn final_phase(p: Seq<char>) -> bool {
    p == "final"@ || p == "final_answer"@
}

/// The final-answer and progress flags of a message of `role` with phase
/// `phase`: any message in a final phase is a final answer; an assistant
/// message in another phase is progress.
pub open spec fn phase_flags(role: Seq<char>, phase: Option<Seq<char>>) -> (bool, bool) {
    match phase {
        None => (false, false),
        Some(p) => (final_phase(p), role == "assistant"@ && !final_phase(p)),
    }
}

/// Role, text and flags of a `response_item` record that holds a user or
/// assistant message; `None` for any other record and for injected context.
pub open spec fn response_message_spec(v: Seq<char>) -> Option<(Seq<char>, Seq<char>, bool, bool)> {
    if str_member(v, "type"@) != Some("response_item"@) {
        None
    } else {
        match json_member_text(v, "payload"@) {
            None => None,
            Some(p) => if str_member(p, "type"@) != Some("message"@) {
                None
            } else {
                match str_member(p, "role"@) {
                    None => None,
                    Some(role) => if role != "user"@ && role != "assistant"@ {
                        None
                    } else {
                        match json_member_text(p, "content"@) {
                            None => None,
                            Some(c) => {
                                let text = content_text_spec(c);
                                if role == "user"@ && synthetic_spec(text) {
                                    None
                                } else {
                                    let f = phase_flags(role, str_member(p, "phase"@));
                                    Some((role, text, f.0, f.1))
                                }
                            },
                        }
                    },
                }
            },
        }
    }
}

fn eq_str_opt(o: &Option<String>, t: &str) -> (r: bool)
    ensures
        r == (opt_seq(*o) == Some(t@)),
{
    match o {
        None => false,
        Some(s) => chars_eq_str(&chars_of(s.as_str()), t),
    }
}

fn phase_flags_of(role: &str, payload: &str) -> (r: (bool, bool))
    ensures
        r == phase_flags(role@, str_member(payload@, "phase"@)),
{
    match member_str(payload, "phase") {
        None => (false, false),
        Some(ph) => {
            let f = is_final_agent_phase(ph.as_str());
            let assistant = chars_eq_str(&chars_of(role), "assistant");
            (f, assistant && !f)
        },
    }
}

/// Role, text and flags of a `response_item` record that holds a user or
/// assistant message.
pub fn codex_visible_message(value: &str) -> (r: Option<(String, String, bool, bool)>)
    ensures
        r matches Some((role, text, f, p)) ==> response_message_spec(value@) == Some(
            (role@, text@, f, p),
        ),
        r is None ==> response_message_spec(value@) is None,
{
    if !eq_str_opt(&member_str(value, "type"), "response_item") {
        return None;
    }
    let payload = match json_member(value, "payload") {
        None => return None,
        Some(p) => p,
    };
    if !eq_str_opt(&member_str(payload.as_str(), "type"), "message") {
        return None;
    }
    let role = match member_str(payload.as_str(), "role") {
        None => return None,
        Some(r) => r,
    };
    let rv = chars_of(role.as_str());
    let user = chars_eq_str(&rv, "user");
    if !user && !chars_eq_str(&rv, "assistant") {
        return None;
    }
    let content = match json_member(payload.as_str(), "content") {
        None => return None,
        Some(c) => c,
    };
    let text = codex_content_text(content.as_str());
    if user && is_codex_synthetic_user_text(text.as_str()) {
        return None;
    }
    let f = phase_flags_of(role.as_str(), payload.as_str());
    Some((role, text, f.0, f.1))
}

/// Role, text and flags of an event record (`event_msg`, or a bare event)
/// that reports a user or agent message.
pub open spec fn event_message_spec(v: Seq<char>) -> Option<(Seq<char>, Seq<char>, bool, bool)> {
    match str_member(v, "type"@) {
        None => None,
        Some(et) => {
            let payload = if et == "event_msg"@ {
                json_member_text(v, "payload"@)
            } else {
                Some(v)
            };
            match payload {
                None => None,
                Some(p) => match str_member(p, "type"@) {
                    None => None,
                    Some(pt) => {
                        let role = if pt == "user_message"@ {
                            Some("user"@)
                        } else if pt == "agent_message"@ {
                            Some("assistant"@)
                        } else {
                            None::<Seq<char>>
                        };
                        match role {
                            None => None,
                            Some(role) => match str_member_or(p, "message"@, "text"@) {
                                None => None,
                                Some(text) => if role == "user"@ && synthetic_spec(text) {
                                    None
                                } else {
                                    let f = phase_flags(role, str_member(p, "phase"@));
                                    Some((role, text, f.0, f.1))
                                },
                            },
                        }
                    },
                },
            }
        },
    }
}

/// Role, text and flags of an event record that reports a user or agent
/// message.
pub fn codex_event_visible_message(value: &str) -> (r: Option<(String, String, bool, bool)>)
    ensures
        r matches Some((role, text, f, p)) ==> event_message_spec(value@) == Some(
            (role@, text@, f, p),
        ),
        r is None ==> event_message_spec(value@) is None,
{
    let et = match member_str(value, "type") {
        None => return None,
        Some(t) => t,
    };
    let payload = if chars_eq_str(&chars_of(et.as_str()), "event_msg") {
        match json_member(value, "payload") {
            None => return None,
            Some(p) => p,
        }
    } else {
        String::from_str(value)
    };
    let pt = match member_str(payload.as_str(), "type") {
        None => return None,
        Some(t) => chars_of(t.as_str()),
    };
    let role = if chars_eq_str(&pt, "user_message") {
        String::from_str("user")
    } else if chars_eq_str(&pt, "agent_message") {
        String::from_str("assistant")
    } else {
        return None;
    };
    let text = match member_str_or(payload.as_str(), "message", "text") {
        None => return None,
        Some(t) => t,
    };
    if chars_eq_str(&chars_of(role.as_str()), "user") && is_codex_synthetic_user_text(text.as_str()) {
        return None;
    }
    let f = phase_flags_of(role.as_str(), payload.as_str());
    Some((role, text, f.0, f.1))
}

/// The visible message of transcript line `order`, if it holds one: from a
/// response item, else, marked as a fallback, from an event record; its
/// timestamp is the record's, or empty.
pub open spec fn visible_event_spec(v: Seq<char>, order: usize) -> Option<VisibleView> {
    let ts = match str_member(v, "timestamp"@) {
        Some(t) => t,
        None => Seq::empty(),
    };
    match response_message_spec(v) {
        Some((role, text, f, p)) => Some((role, text, ts, order, false, f, p)),
        None => match event_message_spec(v) {
            Some((role, text, f, p)) => Some((role, text, ts, order, true, f, p)),
            None => None,
        },
    }
}

/// The visible message of transcript line `order`, given as JSON text.
pub fn codex_visible_message_event(value: &str, order: usize) -> (r: Option<CodexVisibleMessage>)
    ensures
        r matches Some(m) ==> visible_event_spec(value@, order) == Some(m@),
        r is None ==> visible_event_spec(value@, order) is None,
{
    let timestamp = match member_str(value, "timestamp") {
        Some(t) => t,
        None => String::new(),
    };
    match codex_visible_message(value) {
        Some((role, text, f, p)) => Some(
            CodexVisibleMessage {
                role,
                text,
                timestamp,
                order,
                fallback: false,
                final_answer: f,
                assistant_progress: p,
            },
        ),
        None => match codex_event_visible_message(value) {
            Some((role, text, f, p)) => Some(
                CodexVisibleMessage {
                    role,
                    text,
                    timestamp,
                    order,
                    fallback: true,
                    final_answer: f,
                    assistant_progress: p,
                },
            ),
            None => None,
        },
    }
}

// ---------------------------------------------------------------------------
// Transcripts
// ---------------------------------------------------------------------------

/// The visible messages with a non-blank text among the first `n` lines of
/// a transcript, each tagged with its line.
pub open spec fn collected_prefix(lines: Seq<Seq<char>>, n: int) -> Seq<VisibleView>
    decreases n,
{
    if n <= 0 {
        Seq::empty()
    } else {
        match visible_event_spec(lines[n - 1], (n - 1) as usize) {
            Some(m) => if trim(m.1).len() > 0 {
                collected_prefix(lines, n - 1).push(m)
            } else {
                collected_prefix(lines, n - 1)
            },
            None => collected_prefix(lines, n - 1),
        }
    }
}

/// The visible messages of a transcript.
pub open spec fn collected(lines: Seq<Seq<char>>) -> Seq<VisibleView> {
    collected_prefix(lines, lines.len() as int)
}

/// The note added to a transcript that was cut off.
pub open spec fn interrupted_notice() -> Seq<char> {
    "This saved Codex transcript ended before Codex returned a final answer. The Mobailmux service or Codex process was likely interrupted; send a new message in the agent slot to continue."@
}

/// The most messages shown of a saved transcript.
pub const MAX_CODEX_TRANSCRIPT_MESSAGES: usize = 80;

/// Visible messages as transcript rows: no id, role, text and timestamp.
pub open spec fn as_rows(ms: Seq<VisibleView>) -> Seq<crate::types::MessageView>
    decreases ms.len(),
{
    if ms.len() == 0 {
        Seq::empty()
    } else {
        as_rows(ms.drop_last()).push((0i64, ms.last().0, ms.last().1, ms.last().2))
    }
}

/// A transcript as shown: its visible messages without duplicates, a note
/// at the end where it was cut off, the last
/// [`MAX_CODEX_TRANSCRIPT_MESSAGES`] of them, newest first.
pub open spec fn transcript_spec(lines: Seq<Seq<char>>) -> Seq<crate::types::MessageView> {
    let d = dedupe_spec(collected(lines));
    let full = if interrupted_spec(d) {
        d.push(
            (
                "assistant"@,
                interrupted_notice(),
                if d.len() > 0 {
                    d.last().2
                } else {
                    Seq::empty()
                },
                usize::MAX,
                false,
                false,
                false,
            ),
        )
    } else {
        d
    };
    let rows = as_rows(full);
    let tail = if rows.len() > MAX_CODEX_TRANSCRIPT_MESSAGES {
        rows.skip(rows.len() - MAX_CODEX_TRANSCRIPT_MESSAGES)
    } else {
        rows
    };
    tail.reverse()
}

proof fn lemma_as_rows(ms: Seq<VisibleView>)
    ensures
        as_rows(ms).len() == ms.len(),
        forall|i: int|
            0 <= i < ms.len() ==> #[trigger] as_rows(ms)[i] == (0i64, ms[i].0, ms[i].1, ms[i].2),
    decreases ms.len(),
{
    if ms.len() > 0 {
        lemma_as_rows(ms.drop_last());
    }
}

/// A saved transcript shows its newest messages first: the first row is the
/// last visible message of the file (or the note that the run was cut
/// off, above it), each row after it is the message before, and at most
/// [`MAX_CODEX_TRANSCRIPT_MESSAGES`] rows are kept, so a long transcript
/// loses its oldest messages, never its latest.
pub proof fn transcript_keeps_the_latest_messages(lines: Seq<Seq<char>>)
    ensures
        ({
            let d = dedupe_spec(collected(lines));
            let t = transcript_spec(lines);
            let note = if interrupted_spec(d) { 1int } else { 0int };
            let n = d.len() + note;
            &&& t.len() == if n > MAX_CODEX_TRANSCRIPT_MESSAGES { MAX_CODEX_TRANSCRIPT_MESSAGES as int } else { n }
            &&& interrupted_spec(d) ==> t[0] == (
                0i64,
                "assistant"@,
                interrupted_notice(),
                if d.len() > 0 { d.last().2 } else { Seq::empty() },
            )
            &&& forall|i: int|
                note <= i < t.len() ==> #[trigger] t[i] == (
                    0i64,
                    d[n - 1 - i].0,
                    d[n - 1 - i].1,
                    d[n - 1 - i].2,
                )
        }),
{
    let d = dedupe_spec(collected(lines));
    let full = if interrupted_spec(d) {
        d.push(
            (
                "assistant"@,
                interrupted_notice(),
                if d.len() > 0 {
                    d.last().2
                } else {
                    Seq::empty()
                },
                usize::MAX,
                false,
                false,
                false,
            ),
        )
    } else {
        d
    };
    lemma_as_rows(full);
    let rows = as_rows(full);
    let t = transcript_spec(lines);
    assert(forall|i: int| 0 <= i < d.len() ==> full[i] == d[i]);
    assert forall|i: int| 0 <= i < t.len() implies #[trigger] t[i] == rows[rows.len() - 1 - i] by {
    }
}

fn collect_visible(lines: &Vec<String>) -> (r: Vec<CodexVisibleMessage>)
    ensures
        visible_views(r@) == collected(crate::shared::string_views(lines@)),
{
    let ghost ls = crate::shared::string_views(lines@);
    let mut out: Vec<CodexVisibleMessage> = Vec::new();
    let mut k: usize = 0;
    while k < lines.len()
        invariant
            k <= lines.len(),
            ls == crate::shared::string_views(lines@),
            visible_views(out@) == collected_prefix(ls, k as int),
        decreases lines.len() - k,
    {
        assert(ls[k as int] == lines@[k as int]@);
        match codex_visible_message_event(lines[k].as_str(), k) {
            Some(m) => {
                let t = trim_chars(&chars_of(m.text.as_str()));
                if t.len() > 0 {
                    let ghost before = visible_views(out@);
                    let ghost mv = m@;
                    out.push(m);
                    assert(visible_views(out@) == before.push(mv));
                }
            },
            None => {},
        }
        k += 1;
    }
    out
}

/// The rows of a saved transcript, given its lines: visible messages
/// without duplicates, a note where it was cut off, the last
/// [`MAX_CODEX_TRANSCRIPT_MESSAGES`], newest first.
pub fn codex_transcript_messages(lines: &Vec<String>) -> (r: Vec<crate::types::AgentMessageRow>)
    ensures
        crate::types::message_views(r@) == transcript_spec(crate::shared::string_views(lines@)),
{
    let found = collect_visible(lines);
    let mut visible = dedupe_codex_visible_messages(found);
    let ghost d = visible_views(visible@);
    if codex_transcript_interrupted(&visible) {
        let timestamp = if visible.len() > 0 {
            visible[visible.len() - 1].timestamp.clone()
        } else {
            String::new()
        };
        let ghost before = visible_views(visible@);
        let note = CodexVisibleMessage {
            role: String::from_str("assistant"),
            text: String::from_str(
                "This saved Codex transcript ended before Codex returned a final answer. The Mobailmux service or Codex process was likely interrupted; send a new message in the agent slot to continue.",
            ),
            timestamp,
            order: usize::MAX,
            fallback: false,
            final_answer: false,
            assistant_progress: false,
        };
        let ghost nv = note@;
        visible.push(note);
        assert(visible_views(visible@) == before.push(nv));
    }
    let ghost full = visible_views(visible@);
    let mut rows: Vec<crate::types::AgentMessageRow> = Vec::new();
    let mut i: usize = 0;
    while i < visible.len()
        invariant
            i <= visible.len(),
            full == visible_views(visible@),
            crate::types::message_views(rows@) == as_rows(full.take(i as int)),
        decreases visible.len() - i,
    {
        let m = &visible[i];
        let ghost before = crate::types::message_views(rows@);
        rows.push(
            crate::types::AgentMessageRow {
                id: 0,
                role: m.role.clone(),
                body: m.text.clone(),
                created_at: m.timestamp.clone(),
            },
        );
        assert(full.take(i + 1).drop_last() == full.take(i as int));
        assert(full[i as int] == visible@[i as int]@);
        assert(crate::types::message_views(rows@) == before.push(
            (0i64, full[i as int].0, full[i as int].1, full[i as int].2),
        ));
        i += 1;
    }
    assert(full.take(visible.len() as int) == full);
    let ghost all_rows = as_rows(full);
    let start = if rows.len() > MAX_CODEX_TRANSCRIPT_MESSAGES {
        rows.len() - MAX_CODEX_TRANSCRIPT_MESSAGES
    } else {
        0
    };
    let mut out: Vec<crate::types::AgentMessageRow> = Vec::new();
    let mut j: usize = rows.len();
    while j > start
        invariant
            start <= j <= rows.len(),
            crate::types::message_views(rows@) == all_rows,
            crate::types::message_views(out@) == all_rows.subrange(j as int, rows.len() as int).reverse(),
        decreases j,
    {
        j -= 1;
        let r = &rows[j];
        let ghost before = crate::types::message_views(out@);
        out.push(
            crate::types::AgentMessageRow {
                id: r.id,
                role: r.role.clone(),
                body: r.body.clone(),
                created_at: r.created_at.clone(),
            },
        );
        assert(crate::types::message_views(out@) == before.push(rows@[j as int]@));
        assert(all_rows.subrange(j as int, rows.len() as int).reverse() =~= all_rows.subrange(
            j + 1,
            rows.len() as int,
        ).reverse().push(all_rows[j as int]));
    }
    proof {
        if all_rows.len() > MAX_CODEX_TRANSCRIPT_MESSAGES {
            assert(all_rows.subrange(start as int, all_rows.len() as int) == all_rows.skip(
                all_rows.len() - MAX_CODEX_TRANSCRIPT_MESSAGES,
            ));
        } else {
            assert(all_rows.subrange(0, all_rows.len() as int) == all_rows);
        }
    }
    out
}

// ---------------------------------------------------------------------------
// Conversations
// ---------------------------------------------------------------------------

/// A saved Codex conversation as listed.
pub struct CodexConversation {
    pub id: String,
    pub title: String,
    pub updated_at: String,
    pub path: String,
}

impl View for CodexConversation {
    type V = (Seq<char>, Seq<char>, Seq<char>, Seq<char>);

    open spec fn view(&self) -> (Seq<char>, Seq<char>, Seq<char>, Seq<char>) {
        (self.id@, self.title@, self.updated_at@, self.path@)
    }
}

/// A thread's title and last update as the session index records them.
pub struct CodexThreadName {
    pub id: String,
    pub title: String,
    pub updated_at: String,
}

/// Id, title and update time of an index entry.
pub type ThreadNameView = (Seq<char>, Seq<char>, Seq<char>);

impl View for CodexThreadName {
    type V = ThreadNameView;

    open spec fn view(&self) -> ThreadNameView {
        (self.id@, self.title@, self.updated_at@)
    }
}

/// The views of index entries.
pub open spec fn thread_name_views(v: Seq<CodexThreadName>) -> Seq<ThreadNameView> {
    v.map_values(|t: CodexThreadName| t@)
}

/// The entry that a line of the session index holds: its `id`, its
/// `thread_name` (else `Untitled`) and its `updated_at` (else empty).
pub open spec fn thread_name_spec(line: Seq<char>) -> Option<ThreadNameView> {
    match str_member(line, "id"@) {
        None => None,
        Some(id) => Some(
            (
                id,
                match str_member(line, "thread_name"@) {
                    Some(t) => t,
                    None => "Untitled"@,
                },
                match str_member(line, "updated_at"@) {
                    Some(u) => u,
                    None => Seq::empty(),
                },
            ),
        ),
    }
}

/// The entries of the first `n` lines of the session index.
pub open spec fn thread_names_prefix(lines: Seq<Seq<char>>, n: int) -> Seq<ThreadNameView>
    decreases n,
{
    if n <= 0 {
        Seq::empty()
    } else {
        match thread_name_spec(lines[n - 1]) {
            Some(t) => thread_names_prefix(lines, n - 1).push(t),
            None => thread_names_prefix(lines, n - 1),
        }
    }
}

/// The entries of the session index, given its lines.
pub fn load_codex_thread_names(lines: &Vec<String>) -> (r: Vec<CodexThreadName>)
    ensures
        thread_name_views(r@) == thread_names_prefix(
            crate::shared::string_views(lines@),
            lines@.len() as int,
        ),
{
    let ghost ls = crate::shared::string_views(lines@);
    let mut out: Vec<CodexThreadName> = Vec::new();
    let mut k: usize = 0;
    while k < lines.len()
        invariant
            k <= lines.len(),
            ls == crate::shared::string_views(lines@),
            thread_name_views(out@) == thread_names_prefix(ls, k as int),
        decreases lines.len() - k,
    {
        assert(ls[k as int] == lines@[k as int]@);
        let line = lines[k].as_str();
        match member_str(line, "id") {
            None => {},
            Some(id) => {
                let title = match member_str(line, "thread_name") {
                    Some(t) => t,
                    None => String::from_str("Untitled"),
                };
                let updated_at = match member_str(line, "updated_at") {
                    Some(u) => u,
                    None => String::new(),
                };
                let entry = CodexThreadName { id, title, updated_at };
                let ghost before = thread_name_views(out@);
                let ghost ev = entry@;
                out.push(entry);
                assert(thread_name_views(out@) == before.push(ev));
            },
        }
        k += 1;
    }
    out
}

/// The title and update time recorded for thread `id`: the last entry for
/// it wins.
pub open spec fn thread_lookup(names: Seq<ThreadNameView>, id: Seq<char>) -> Option<
    (Seq<char>, Seq<char>),
>
    decreases names.len(),
{
    if names.len() == 0 {
        None
    } else if names.last().0 == id {
        Some((names.last().1, names.last().2))
    } else {
        thread_lookup(names.drop_last(), id)
    }
}

/// The timestamp of the last record among the first `n` lines that has one.
pub open spec fn last_timestamp(lines: Seq<Seq<char>>, n: int) -> Option<Seq<char>>
    decreases n,
{
    if n <= 0 {
        None
    } else {
        match str_member(lines[n - 1], "timestamp"@) {
            Some(t) => Some(t),
            None => last_timestamp(lines, n - 1),
        }
    }
}

/// The line of the last `session_meta` record among the first `n` lines.
pub open spec fn last_meta(lines: Seq<Seq<char>>, n: int) -> Option<int>
    decreases n,
{
    if n <= 0 {
        None
    } else if str_member(lines[n - 1], "type"@) == Some("session_meta"@) {
        Some(n - 1)
    } else {
        last_meta(lines, n - 1)
    }
}

/// A string field of a record's `payload`.
pub open spec fn payload_field(line: Seq<char>, key: Seq<char>) -> Option<Seq<char>> {
    match json_member_text(line, "payload"@) {
        Some(p) => str_member(p, key),
        None => None,
    }
}

/// The text of the first user message.
pub open spec fn first_user_text(ms: Seq<VisibleView>) -> Option<Seq<char>>
    decreases ms.len(),
{
    if ms.len() == 0 {
        None
    } else if ms[0].0 == "user"@ {
        Some(ms[0].1)
    } else {
        first_user_text(ms.drop_first())
    }
}

/// The conversation that a saved transcript at `path` holds, given its
/// lines, the session index and the file's modification time: none for the
/// history file or a transcript without a session id. Its title is the
/// indexed one, unless that is blank or injected context, then the first
/// user message cut to 56 characters, else a placeholder; its update time is
/// the indexed one where set, else the last record's time, else the
/// session's start, else the file's modification time.
pub open spec fn conversation_spec(
    path: Seq<char>,
    lines: Seq<Seq<char>>,
    names: Seq<ThreadNameView>,
    modified_at: Seq<char>,
) -> Option<(Seq<char>, Seq<char>, Seq<char>, Seq<char>)> {
    if crate::slots::file_name_spec(path) == Some("history.jsonl"@) {
        None
    } else {
        match last_meta(lines, lines.len() as int) {
            None => None,
            Some(k) => match payload_field(lines[k], "id"@) {
                None => None,
                Some(id) => {
                    let indexed = match thread_lookup(names, id) {
                        Some(e) => e,
                        None => (Seq::empty(), Seq::empty()),
                    };
                    let it = trim(indexed.0);
                    let title = if it.len() == 0 || synthetic_spec(it) {
                        match first_user_text(dedupe_spec(collected(lines))) {
                            Some(u) => crate::shared::truncate_spec(u, 56),
                            None => "Untitled Codex conversation"@,
                        }
                    } else {
                        it
                    };
                    let updated = if trim(indexed.1).len() > 0 {
                        indexed.1
                    } else {
                        match last_timestamp(lines, lines.len() as int) {
                            Some(t) => t,
                            None => match payload_field(lines[k], "timestamp"@) {
                                Some(s) => s,
                                None => modified_at,
                            },
                        }
                    };
                    Some((id, title, updated, path))
                },
            },
        }
    }
}

fn lookup_thread(names: &Vec<CodexThreadName>, id: &Vec<char>) -> (r: Option<(String, String)>)
    ensures
        r matches Some((t, u)) ==> thread_lookup(thread_name_views(names@), id@) == Some((t@, u@)),
        r is None ==> thread_lookup(thread_name_views(names@), id@) is None,
{
    let ghost nv = thread_name_views(names@);
    let mut k = names.len();
    assert(nv.take(names.len() as int) == nv);
    while k > 0
        invariant
            k <= names.len(),
            nv == thread_name_views(names@),
            thread_lookup(nv, id@) == thread_lookup(nv.take(k as int), id@),
        decreases k,
    {
        let e = &names[k - 1];
        assert(nv.take(k as int).last() == e@);
        assert(nv.take(k as int).drop_last() == nv.take(k - 1));
        if chars_eq(&chars_of(e.id.as_str()), id) {
            return Some((e.title.clone(), e.updated_at.clone()));
        }
        k -= 1;
    }
    None
}

fn first_user_of(ms: &Vec<CodexVisibleMessage>) -> (r: Option<String>)
    ensures
        opt_seq(r) == first_user_text(visible_views(ms@)),
{
    let ghost mv = visible_views(ms@);
    assert(mv.skip(0) == mv);
    let mut i: usize = 0;
    while i < ms.len()
        invariant
            i <= ms.len(),
            mv == visible_views(ms@),
            first_user_text(mv) == first_user_text(mv.skip(i as int)),
        decreases ms.len() - i,
    {
        assert(mv.skip(i as int)[0] == ms@[i as int]@);
        assert(mv.skip(i as int).drop_first() == mv.skip(i + 1));
        if chars_eq_str(&chars_of(ms[i].role.as_str()), "user") {
            return Some(ms[i].text.clone());
        }
        i += 1;
    }
    None
}

/// The conversation that a saved transcript holds, given its path, its
/// lines, the session index and the file's modification time in RFC 3339.
pub fn codex_conversation_from_lines(
    path: &str,
    lines: &Vec<String>,
    names: &Vec<CodexThreadName>,
    modified_at: &str,
) -> (r: Option<CodexConversation>)
    ensures
        r matches Some(c) ==> conversation_spec(
            path@,
            crate::shared::string_views(lines@),
            thread_name_views(names@),
            modified_at@,
        ) == Some(c@),
        r is None ==> conversation_spec(
            path@,
            crate::shared::string_views(lines@),
            thread_name_views(names@),
            modified_at@,
        ) is None,
{
    let ghost ls = crate::shared::string_views(lines@);
    match crate::slots::path_file_name(path) {
        Some(n) => {
            if chars_eq_str(&chars_of(n.as_str()), "history.jsonl") {
                return None;
            }
        },
        None => {},
    }
    let mut updated: Option<String> = None;
    let mut meta: Option<usize> = None;
    let mut k: usize = 0;
    while k < lines.len()
        invariant
            k <= lines.len(),
            ls == crate::shared::string_views(lines@),
            opt_seq(updated) == last_timestamp(ls, k as int),
            meta matches Some(m) ==> last_meta(ls, k as int) == Some(m as int) && m < k,
            meta is None ==> last_meta(ls, k as int) is None,
        decreases lines.len() - k,
    {
        assert(ls[k as int] == lines@[k as int]@);
        let line = lines[k].as_str();
        match member_str(line, "timestamp") {
            Some(t) => {
                updated = Some(t);
            },
            None => {},
        }
        if eq_str_opt(&member_str(line, "type"), "session_meta") {
            meta = Some(k);
        }
        k += 1;
    }
    let m = match meta {
        None => return None,
        Some(m) => m,
    };
    assert(ls[m as int] == lines@[m as int]@);
    let payload_id = match json_member(lines[m].as_str(), "payload") {
        Some(p) => member_str(p.as_str(), "id"),
        None => None,
    };
    let id = match payload_id {
        None => return None,
        Some(id) => id,
    };
    let idv = chars_of(id.as_str());
    let (indexed_title, indexed_updated) = match lookup_thread(names, &idv) {
        Some(e) => e,
        None => (String::new(), String::new()),
    };
    let it = trim_chars(&chars_of(indexed_title.as_str()));
    let its = string_of(&it);
    let title = if it.len() == 0 || is_codex_synthetic_user_text(its.as_str()) {
        let visible = dedupe_codex_visible_messages(collect_visible(lines));
        match first_user_of(&visible) {
            Some(u) => crate::shared::truncate_text(u.as_str(), 56),
            None => String::from_str("Untitled Codex conversation"),
        }
    } else {
        its
    };
    let updated_at = if trim_chars(&chars_of(indexed_updated.as_str())).len() > 0 {
        indexed_updated
    } else {
        match updated {
            Some(t) => t,
            None => {
                let started = match json_member(lines[m].as_str(), "payload") {
                    Some(p) => member_str(p.as_str(), "timestamp"),
                    None => None,
                };
                match started {
                    Some(s) => s,
                    None => String::from_str(modified_at),
                }
            },
        }
    };
    Some(CodexConversation { id, title, updated_at, path: String::from_str(path) })
}

/// The conversation with id `thread_id`, if listed.
pub fn codex_conversation_by_id(conversations: &Vec<CodexConversation>, thread_id: &str) -> (r:
    Option<usize>)
    ensures
        r matches Some(i) ==> i < conversations.len() && conversations@[i as int].id@ == thread_id@
            && forall|j: int| 0 <= j < i ==> conversations@[j].id@ != thread_id@,
        r is None ==> forall|j: int|
            0 <= j < conversations.len() ==> conversations@[j].id@ != thread_id@,
{
    let mut i: usize = 0;
    while i < conversations.len()
        invariant
            i <= conversations.len(),
            forall|j: int| 0 <= j < i ==> conversations@[j].id@ != thread_id@,
        decreases conversations.len() - i,
    {
        if chars_eq_str(&chars_of(conversations[i].id.as_str()), thread_id) {
            return Some(i);
        }
        i += 1;
    }
    None
}


/// What the transcript view shows of a saved conversation, given its lines,
/// or `None` where no conversation has the id asked for.
pub open spec fn transcript_note_spec(lines: Option<Seq<Seq<char>>>) -> Option<Seq<char>> {
    match lines {
        None => Some("<p class=\"empty\">Conversation not found.</p>"@),
        Some(ls) => if transcript_spec(ls).len() == 0 {
            Some(
                "<p class=\"empty\">This Codex conversation has no visible user or assistant messages yet.</p>"@,
            )
        } else {
            None
        },
    }
}

/// The transcript view of a saved conversation: a note where it was not
/// found or shows nothing, else its messages as the slot transcript shows
/// them, each time shown as a short local time.
pub fn codex_transcript_html(lines: Option<&Vec<String>>) -> (r: String)
    ensures
        match lines {
            None => transcript_note_spec(None) == Some(r@),
            Some(ls) => {
                let ms = transcript_spec(crate::shared::string_views(ls@));
                match transcript_note_spec(Some(crate::shared::string_views(ls@))) {
                    Some(note) => r@ == note,
                    None => exists|ts: Seq<Seq<char>>|
                        ts.len() == ms.len() && (forall|i: int|
                            0 <= i < ts.len() ==> crate::time::compact_time_ok(
                                ms[i].3,
                                #[trigger] ts[i],
                            )) && r@ == #[trigger] crate::views::messages_html_spec(ms, ts),
                }
            },
        },
{
    match lines {
        None => String::from_str("<p class=\"empty\">Conversation not found.</p>"),
        Some(ls) => {
            let messages = codex_transcript_messages(ls);
            if messages.len() == 0 {
                return String::from_str(
                    "<p class=\"empty\">This Codex conversation has no visible user or assistant messages yet.</p>",
                );
            }
            let r = crate::views::agent_messages_html(messages.as_slice());
            proof {
                let ms = crate::types::message_views(messages@);
                assert forall|i: int| 0 <= i < messages@.len() implies #[trigger] messages@[i].created_at@
                    == ms[i].3 by {}
            }
            r
        },
    }
}

} // verus!
