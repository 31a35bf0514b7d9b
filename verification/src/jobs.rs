//! The decisions of a harness run: the command line it launches, what its
//! JSON output reports, and the message posted when it ends.
use vstd::prelude::*;
use crate::codex::{content_text_spec, codex_content_text, final_phase, str_member, str_member_or};
use crate::control::{apply_agent_run_settings, settings_args, settings_label_spec, agent_run_settings_label};
use crate::harness::{harness_display, AgentHarness};
use crate::json::{
    json_array_len, json_as_str, json_element, json_element_text, json_len, json_member,
    json_member_text, json_str_at, json_str_path, json_str_value, opt_seq, str_views,
};
use crate::runtime::is_final_agent_phase;
use crate::shared::{string_views, truncate_spec, truncate_text, Config};
use crate::split::{join, join_chars, lines, lines_of, pieces};
use crate::text::{chars_eq, chars_eq_str, chars_of, extend_chars, extend_str, string_of, trim, trim_chars, trim_str};
use crate::num::{int_decimal, push_i64};
use crate::types::{opt_view, AgentRunSettings, AgentSlotRow, SlotView};

verus! {

/// The longest assistant message kept from a run, in characters.
pub const MAX_AGENT_MESSAGE_CHARS: usize = 131072;

// ---------------------------------------------------------------------------
// Starting a run
// ---------------------------------------------------------------------------

/// What a retained legacy lane answers instead of running.
pub open spec fn legacy_lane_notice() -> Seq<char> {
    "This is a retained legacy Codex lane. Its messages are preserved, but Mobailmux will not resume or launch Codex. Start a new Pi or OpenCode project lane to continue."@
}

/// What a retained legacy lane answers instead of running.
pub fn agent_legacy_lane_notice() -> (r: &'static str)
    ensures
        r@ == legacy_lane_notice(),
{
    "This is a retained legacy Codex lane. Its messages are preserved, but Mobailmux will not resume or launch Codex. Start a new Pi or OpenCode project lane to continue."
}

/// The message that opens a run.
pub open spec fn start_text_spec(slot: SlotView, settings: (Option<Seq<char>>, Option<Seq<char>>)) -> Seq<char> {
    slot.1 + " started "@ + harness_display(slot.4) + " in `"@ + slot.2 + "`"@
        + settings_label_spec(settings) + "."@
}

/// The message that opens a run.
pub fn agent_start_text(slot: &AgentSlotRow, settings: &AgentRunSettings) -> (r: String)
    ensures
        r@ == start_text_spec(slot@, settings@),
{
    let mut out = chars_of(slot.name.as_str());
    extend_str(&mut out, " started ");
    extend_str(&mut out, slot.harness.display_name());
    extend_str(&mut out, " in `");
    extend_str(&mut out, slot.workdir.as_str());
    extend_str(&mut out, "`");
    extend_str(&mut out, agent_run_settings_label(settings).as_str());
    extend_str(&mut out, ".");
    string_of(&out)
}

/// The command line of a run.
pub struct HarnessCommand {
    /// The program started.
    pub program: String,
    /// Its arguments.
    pub args: Vec<String>,
    /// A session id to record for the slot before the run, where the run
    /// starts a new session.
    pub new_session: Option<String>,
}

/// A stored session continues where it belongs to the slot's working
/// directory.
pub open spec fn resumes(session: Option<(Seq<char>, Seq<char>)>, workdir: Seq<char>) -> bool {
    match session {
        Some((_, w)) => w == workdir,
        None => false,
    }
}

/// The command line of a run of a runnable harness: Pi gets its arguments,
/// JSON mode, the session id (the stored one where it continues, else
/// `fresh_id`, which is then recorded), the settings and the prompt;
/// OpenCode gets `run` in JSON mode in the working directory, its
/// arguments, the stored session where it continues, the settings and the
/// prompt.
pub open spec fn harness_command_spec(
    config: Config,
    slot: SlotView,
    settings: (Option<Seq<char>>, Option<Seq<char>>),
    session: Option<(Seq<char>, Seq<char>)>,
    fresh_id: Seq<char>,
    prompt: Seq<char>,
) -> (Seq<char>, Seq<Seq<char>>, Option<Seq<char>>) {
    let resume = resumes(session, slot.2);
    match slot.4 {
        AgentHarness::OpenCode => (
            config.opencode_bin@,
            seq!["run"@, "--format"@, "json"@, "--dir"@, slot.2] + string_views(config.opencode_args@)
                + (if resume {
                seq!["--session"@, session.unwrap().0]
            } else {
                Seq::empty()
            }) + settings_args(settings, slot.4) + seq![prompt],
            None,
        ),
        _ => {
            let sid = if resume {
                session.unwrap().0
            } else {
                fresh_id
            };
            (
                config.pi_bin@,
                string_views(config.pi_args@) + seq!["--mode"@, "json"@, "--session-id"@, sid, "--print"@]
                    + settings_args(settings, slot.4) + seq![prompt],
                if resume {
                    None
                } else {
                    Some(sid)
                },
            )
        },
    }
}

/// A run continues the stored session exactly where that session belongs
/// to the slot's working directory. Pi is then handed the stored id after
/// `--session-id` and nothing new is recorded; otherwise it is handed
/// `fresh_id`, which is recorded for the slot. OpenCode is handed
/// `--session` and the stored id after its own arguments only when it
/// continues, and never records a session.
pub proof fn runs_continue_their_own_session(
    config: Config,
    slot: SlotView,
    settings: (Option<Seq<char>>, Option<Seq<char>>),
    session: Option<(Seq<char>, Seq<char>)>,
    fresh_id: Seq<char>,
    prompt: Seq<char>,
)
    ensures
        ({
            let (program, args, recorded) = harness_command_spec(
                config,
                slot,
                settings,
                session,
                fresh_id,
                prompt,
            );
            let k = string_views(config.pi_args@).len() as int;
            let j = 5 + string_views(config.opencode_args@).len() as int;
            &&& slot.4 == AgentHarness::Pi ==> {
                &&& program == config.pi_bin@
                &&& args[k + 2] == "--session-id"@
                &&& (session is Some && session.unwrap().1 == slot.2) ==> args[k + 3]
                    == session.unwrap().0 && recorded is None
                &&& !(session is Some && session.unwrap().1 == slot.2) ==> args[k + 3] == fresh_id
                    && recorded == Some(fresh_id)
                &&& args.last() == prompt
            }
            &&& slot.4 == AgentHarness::OpenCode ==> {
                &&& program == config.opencode_bin@
                &&& recorded is None
                &&& args[4] == slot.2
                &&& (session is Some && session.unwrap().1 == slot.2) ==> args[j] == "--session"@
                    && args[j + 1] == session.unwrap().0
                &&& args.last() == prompt
            }
        }),
{
}

/// The view of an optional stored session: its id and working directory.
pub open spec fn session_view(s: Option<(String, String)>) -> Option<(Seq<char>, Seq<char>)> {
    match s {
        Some((a, b)) => Some((a@, b@)),
        None => None,
    }
}

fn push_all(args: &mut Vec<String>, more: &Vec<String>)
    ensures
        string_views(final(args)@) == string_views(old(args)@) + string_views(more@),
{
    let ghost start = string_views(args@);
    let mut i: usize = 0;
    while i < more.len()
        invariant
            i <= more.len(),
            string_views(args@) == start + string_views(more@).take(i as int),
        decreases more.len() - i,
    {
        let ghost before = string_views(args@);
        args.push(more[i].clone());
        assert(string_views(args@) == before.push(more@[i as int]@));
        assert(string_views(more@).take(i + 1) == string_views(more@).take(i as int).push(
            more@[i as int]@,
        ));
        i += 1;
    }
    assert(string_views(more@).take(more.len() as int) == string_views(more@));
}

fn push_str_arg(args: &mut Vec<String>, a: &str)
    ensures
        string_views(final(args)@) == string_views(old(args)@).push(a@),
{
    args.push(String::from_str(a));
}

/// The command line of a run; the slot's harness must be runnable.
pub fn harness_command(
    config: &Config,
    slot: &AgentSlotRow,
    settings: &AgentRunSettings,
    session: Option<(String, String)>,
    fresh_id: &str,
    prompt: &str,
) -> (r: HarnessCommand)
    requires
        slot.harness != AgentHarness::LegacyCodex,
    ensures
        (r.program@, string_views(r.args@), opt_view(r.new_session)) == harness_command_spec(
            *config,
            slot@,
            settings@,
            session_view(session),
            fresh_id@,
            prompt@,
        ),
{
    let resume = match &session {
        Some((_, w)) => chars_eq(&chars_of(w.as_str()), &chars_of(slot.workdir.as_str())),
        None => false,
    };
    let mut args: Vec<String> = Vec::new();
    match slot.harness {
        AgentHarness::OpenCode => {
            push_str_arg(&mut args, "run");
            push_str_arg(&mut args, "--format");
            push_str_arg(&mut args, "json");
            push_str_arg(&mut args, "--dir");
            push_str_arg(&mut args, slot.workdir.as_str());
            push_all(&mut args, &config.opencode_args);
            let ghost a1 = string_views(args@);
            if resume {
                match &session {
                    Some((sid, _)) => {
                        push_str_arg(&mut args, "--session");
                        push_str_arg(&mut args, sid.as_str());
                    },
                    None => {},
                }
            }
            let ghost a2 = string_views(args@);
            apply_agent_run_settings(&mut args, settings, slot.harness);
            push_str_arg(&mut args, prompt);
            assert(string_views(args@) =~= seq!["run"@, "--format"@, "json"@, "--dir"@, slot.workdir@]
                + string_views(config.opencode_args@) + (if resume {
                seq!["--session"@, session_view(session).unwrap().0]
            } else {
                Seq::<Seq<char>>::empty()
            }) + settings_args(settings@, slot.harness) + seq![prompt@]);
            HarnessCommand { program: config.opencode_bin.clone(), args, new_session: None }
        },
        _ => {
            let sid = if resume {
                match &session {
                    Some((s, _)) => s.clone(),
                    None => String::from_str(fresh_id),
                }
            } else {
                String::from_str(fresh_id)
            };
            push_all(&mut args, &config.pi_args);
            push_str_arg(&mut args, "--mode");
            push_str_arg(&mut args, "json");
            push_str_arg(&mut args, "--session-id");
            push_str_arg(&mut args, sid.as_str());
            push_str_arg(&mut args, "--print");
            apply_agent_run_settings(&mut args, settings, slot.harness);
            push_str_arg(&mut args, prompt);
            assert(string_views(args@) =~= string_views(config.pi_args@) + seq![
                "--mode"@,
                "json"@,
                "--session-id"@,
                sid@,
                "--print"@,
            ] + settings_args(settings@, slot.harness) + seq![prompt@]);
            let new_session = if resume {
                None
            } else {
                Some(sid.clone())
            };
            HarnessCommand { program: config.pi_bin.clone(), args, new_session }
        },
    }
}

// ---------------------------------------------------------------------------
// What a harness prints
// ---------------------------------------------------------------------------

/// The session that a line of harness output announces: Pi's `session`
/// record's `id`, OpenCode's `sessionID`.
pub open spec fn session_id_spec(harness: AgentHarness, line: Seq<char>) -> Option<Seq<char>> {
    match harness {
        AgentHarness::Pi => if str_member(line, "type"@) == Some("session"@) {
            str_member(line, "id"@)
        } else {
            None
        },
        AgentHarness::OpenCode => str_member(line, "sessionID"@),
        AgentHarness::LegacyCodex => None,
    }
}

fn member_str(text: &str, key: &str) -> (r: Option<String>)
    ensures
        opt_seq(r) == str_member(text@, key@),
{
    let path: [&str; 1] = [key];
    assert(str_views(path@) =~= seq![key@]);
    json_str_at(text, &path)
}

fn eq_str_opt(o: &Option<String>, t: &str) -> (r: bool)
    ensures
        r == (opt_seq(*o) == Some(t@)),
{
    match o {
        None => false,
        Some(s) => chars_eq_str(&chars_of(s.as_str()), t),
    }
}

/// The session that a line of harness output announces.
pub fn harness_session_id(harness: AgentHarness, line: &str) -> (r: Option<String>)
    ensures
        opt_seq(r) == session_id_spec(harness, line@),
{
    match harness {
        AgentHarness::Pi => if eq_str_opt(&member_str(line, "type"), "session") {
            member_str(line, "id")
        } else {
            None
        },
        AgentHarness::OpenCode => member_str(line, "sessionID"),
        AgentHarness::LegacyCodex => None,
    }
}

/// The text of item `k` of a Pi content array, where the item is of type
/// `text` or `output_text`.
pub open spec fn pi_item_text(c: Seq<char>, k: int) -> Option<Seq<char>> {
    match json_element_text(c, k) {
        None => None,
        Some(item) => {
            let t = str_member(item, "type"@);
            if t == Some("text"@) || t == Some("output_text"@) {
                str_member(item, "text"@)
            } else {
                None
            }
        },
    }
}

/// The texts of the first `n` items of a Pi content array that have one.
pub open spec fn pi_item_texts(c: Seq<char>, n: int) -> Seq<Seq<char>>
    decreases n,
{
    if n <= 0 {
        Seq::empty()
    } else {
        match pi_item_text(c, n - 1) {
            Some(t) => pi_item_texts(c, n - 1).push(t),
            None => pi_item_texts(c, n - 1),
        }
    }
}

/// The text of a Pi message's content: the string itself, or the text
/// items of an array joined by newlines; empty otherwise.
pub open spec fn pi_content_spec(c: Seq<char>) -> Seq<char> {
    match json_str_value(c) {
        Some(t) => t,
        None => match json_array_len(c) {
            None => Seq::empty(),
            Some(n) => join(pi_item_texts(c, n as int), seq!['\n']),
        },
    }
}

/// The text of a Pi message's content, given as JSON text.
pub fn json_content_text(content: &str) -> (r: String)
    ensures
        r@ == pi_content_spec(content@),
{
    match json_as_str(content) {
        Some(t) => t,
        None => match json_len(content) {
            None => String::new(),
            Some(n) => {
                let mut parts: Vec<Vec<char>> = Vec::new();
                let mut k: usize = 0;
                while k < n
                    invariant
                        k <= n,
                        pieces(parts@) == pi_item_texts(content@, k as int),
                    decreases n - k,
                {
                    let t = match json_element(content, k) {
                        None => None,
                        Some(item) => {
                            let ty = member_str(item.as_str(), "type");
                            if eq_str_opt(&ty, "text") || eq_str_opt(&ty, "output_text") {
                                member_str(item.as_str(), "text")
                            } else {
                                None
                            }
                        },
                    };
                    match t {
                        Some(t) => {
                            let ghost before = pieces(parts@);
                            parts.push(chars_of(t.as_str()));
                            assert(pieces(parts@) == before.push(t@));
                        },
                        None => {},
                    }
                    k += 1;
                }
                let mut nl: Vec<char> = Vec::new();
                nl.push('\n');
                assert(nl@ == seq!['\n']);
                string_of(&join_chars(&parts, &nl))
            },
        },
    }
}

/// The assistant message that a line of harness output reports, and
/// whether it is the final answer: Pi's `message_end` of an assistant
/// message (always final), OpenCode's `text` part (final where its OpenAI
/// phase says so).
pub open spec fn stdout_message_spec(harness: AgentHarness, line: Seq<char>) -> Option<(Seq<char>, bool)> {
    match harness {
        AgentHarness::Pi => if str_member(line, "type"@) != Some("message_end"@) {
            None
        } else {
            match json_member_text(line, "message"@) {
                None => None,
                Some(m) => if str_member(m, "role"@) != Some("assistant"@) {
                    None
                } else {
                    match json_member_text(m, "content"@) {
                        None => None,
                        Some(c) => Some((pi_content_spec(c), true)),
                    }
                },
            }
        },
        AgentHarness::OpenCode => if str_member(line, "type"@) != Some("text"@) {
            None
        } else {
            match json_member_text(line, "part"@) {
                None => None,
                Some(part) => match str_member(part, "text"@) {
                    None => None,
                    Some(text) => Some(
                        (
                            text,
                            match json_str_path(part, seq!["metadata"@, "openai"@, "phase"@]) {
                                Some(ph) => final_phase(ph),
                                None => false,
                            },
                        ),
                    ),
                },
            }
        },
        AgentHarness::LegacyCodex => None,
    }
}

/// The assistant message that a line of harness output reports.
pub fn harness_stdout_agent_message(harness: AgentHarness, line: &str) -> (r: Option<(String, bool)>)
    ensures
        r matches Some((t, f)) ==> stdout_message_spec(harness, line@) == Some((t@, f)),
        r is None ==> stdout_message_spec(harness, line@) is None,
{
    match harness {
        AgentHarness::Pi => {
            if !eq_str_opt(&member_str(line, "type"), "message_end") {
                return None;
            }
            let m = match json_member(line, "message") {
                None => return None,
                Some(m) => m,
            };
            if !eq_str_opt(&member_str(m.as_str(), "role"), "assistant") {
                return None;
            }
            match json_member(m.as_str(), "content") {
                None => None,
                Some(c) => Some((json_content_text(c.as_str()), true)),
            }
        },
        AgentHarness::OpenCode => {
            if !eq_str_opt(&member_str(line, "type"), "text") {
                return None;
            }
            let part = match json_member(line, "part") {
                None => return None,
                Some(p) => p,
            };
            let text = match member_str(part.as_str(), "text") {
                None => return None,
                Some(t) => t,
            };
            let path: [&str; 3] = ["metadata", "openai", "phase"];
            assert(str_views(path@) =~= seq!["metadata"@, "openai"@, "phase"@]);
            let f = match json_str_at(part.as_str(), &path) {
                Some(ph) => is_final_agent_phase(ph.as_str()),
                None => false,
            };
            Some((text, f))
        },
        AgentHarness::LegacyCodex => None,
    }
}

/// The assistant message that a line of Codex output reports, and whether
/// it is the final answer: a `response_item` assistant message, or an
/// `agent_message` event.
pub open spec fn codex_stdout_spec(line: Seq<char>) -> Option<(Seq<char>, bool)> {
    match str_member(line, "type"@) {
        None => None,
        Some(et) => if et == "response_item"@ {
            match json_member_text(line, "payload"@) {
                None => None,
                Some(p) => if str_member(p, "type"@) != Some("message"@) || str_member(p, "role"@)
                    != Some("assistant"@) {
                    None
                } else {
                    match json_member_text(p, "content"@) {
                        None => None,
                        Some(c) => Some(
                            (
                                content_text_spec(c),
                                match str_member(p, "phase"@) {
                                    Some(ph) => final_phase(ph),
                                    None => false,
                                },
                            ),
                        ),
                    }
                },
            }
        } else {
            let payload = if et == "event_msg"@ {
                json_member_text(line, "payload"@)
            } else {
                Some(line)
            };
            match payload {
                None => None,
                Some(p) => {
                    let pt = match str_member(p, "type"@) {
                        Some(t) => t,
                        None => et,
                    };
                    if pt != "agent_message"@ {
                        None
                    } else {
                        match str_member_or(p, "message"@, "text"@) {
                            None => None,
                            Some(text) => Some(
                                (
                                    text,
                                    match str_member(p, "phase"@) {
                                        Some(ph) => final_phase(ph),
                                        None => false,
                                    },
                                ),
                            ),
                        }
                    }
                },
            }
        },
    }
}

fn phase_is_final(payload: &str) -> (r: bool)
    ensures
        r == match str_member(payload@, "phase"@) {
            Some(ph) => final_phase(ph),
            None => false,
        },
{
    match member_str(payload, "phase") {
        Some(ph) => is_final_agent_phase(ph.as_str()),
        None => false,
    }
}

fn member_str_or(text: &str, first: &str, second: &str) -> (r: Option<String>)
    ensures
        opt_seq(r) == str_member_or(text@, first@, second@),
{
    match json_member(text, first) {
        Some(m) => json_as_str(m.as_str()),
        None => match json_member(text, second) {
            Some(m) => json_as_str(m.as_str()),
            None => None,
        },
    }
}

/// The assistant message that a line of Codex output reports.
pub fn codex_stdout_agent_message(line: &str) -> (r: Option<(String, bool)>)
    ensures
        r matches Some((t, f)) ==> codex_stdout_spec(line@) == Some((t@, f)),
        r is None ==> codex_stdout_spec(line@) is None,
{
    let et = match member_str(line, "type") {
        None => return None,
        Some(t) => t,
    };
    if chars_eq_str(&chars_of(et.as_str()), "response_item") {
        let p = match json_member(line, "payload") {
            None => return None,
            Some(p) => p,
        };
        if !eq_str_opt(&member_str(p.as_str(), "type"), "message") || !eq_str_opt(
            &member_str(p.as_str(), "role"),
            "assistant",
        ) {
            return None;
        }
        return match json_member(p.as_str(), "content") {
            None => None,
            Some(c) => Some((codex_content_text(c.as_str()), phase_is_final(p.as_str()))),
        };
    }
    let p = if chars_eq_str(&chars_of(et.as_str()), "event_msg") {
        match json_member(line, "payload") {
            None => return None,
            Some(p) => p,
        }
    } else {
        String::from_str(line)
    };
    let pt = match member_str(p.as_str(), "type") {
        Some(t) => t,
        None => et,
    };
    if !chars_eq_str(&chars_of(pt.as_str()), "agent_message") {
        return None;
    }
    match member_str_or(p.as_str(), "message", "text") {
        None => None,
        Some(text) => Some((text, phase_is_final(p.as_str()))),
    }
}

// ---------------------------------------------------------------------------
// Following a run
// ---------------------------------------------------------------------------

/// What a run has said so far.
pub struct AgentStdoutSummary {
    pub last_assistant_text: Option<String>,
    pub final_text: Option<String>,
}

/// What a line of output changes.
pub struct StdoutUpdate {
    /// A session to record for the slot.
    pub session: Option<String>,
    /// The new status of the job (`finishing` or `responding`), whose
    /// current step is then cleared.
    pub status: Option<&'static str>,
}

/// The last message and the final answer of a summary.
pub open spec fn summary_view(s: AgentStdoutSummary) -> (Option<Seq<char>>, Option<Seq<char>>) {
    (opt_view(s.last_assistant_text), opt_view(s.final_text))
}

/// How a line of output changes what a run has said, and the job's status:
/// a new, non-blank message (cut to [`MAX_AGENT_MESSAGE_CHARS`]) becomes the
/// last one, and the final answer where it is one.
pub open spec fn stdout_step_spec(
    harness: AgentHarness,
    s: (Option<Seq<char>>, Option<Seq<char>>),
    line: Seq<char>,
) -> ((Option<Seq<char>>, Option<Seq<char>>), Option<Seq<char>>) {
    match stdout_message_spec(harness, line) {
        None => (s, None),
        Some((message, f)) => {
            let m = truncate_spec(message, MAX_AGENT_MESSAGE_CHARS as nat);
            if trim(m).len() > 0 && s.0 != Some(m) {
                (
                    (Some(m), if f {
                        Some(m)
                    } else {
                        s.1
                    }),
                    Some(
                        if f {
                            "finishing"@
                        } else {
                            "responding"@
                        },
                    ),
                )
            } else {
                (s, None)
            }
        },
    }
}

/// Reads one line of harness output into the summary of the run.
pub fn agent_stdout_line(summary: &mut AgentStdoutSummary, harness: AgentHarness, line: &str) -> (r:
    StdoutUpdate)
    ensures
        opt_seq(r.session) == session_id_spec(harness, line@),
        (summary_view(*final(summary)), match r.status {
            Some(t) => Some(t@),
            None => None,
        }) == stdout_step_spec(harness, summary_view(*old(summary)), line@),
{
    let session = harness_session_id(harness, line);
    let status = match harness_stdout_agent_message(harness, line) {
        None => None,
        Some((message, f)) => {
            let m = truncate_text(message.as_str(), MAX_AGENT_MESSAGE_CHARS);
            let same = match &summary.last_assistant_text {
                Some(last) => chars_eq(&chars_of(last.as_str()), &chars_of(m.as_str())),
                None => false,
            };
            if trim_str(m.as_str()).len() > 0 && !same {
                if f {
                    summary.final_text = Some(m.clone());
                }
                summary.last_assistant_text = Some(m);
                if f {
                    Some("finishing")
                } else {
                    Some("responding")
                }
            } else {
                None
            }
        },
    };
    StdoutUpdate { session, status }
}

/// The most lines of standard error kept from a run.
pub const STDERR_TAIL_LINES: usize = 80;

/// The tail after a line of standard error: a non-blank line, trimmed, is
/// added and only the last [`STDERR_TAIL_LINES`] are kept.
pub open spec fn stderr_step_spec(tail: Seq<Seq<char>>, line: Seq<char>) -> Seq<Seq<char>> {
    let t = trim(line);
    if t.len() == 0 {
        tail
    } else {
        let n = tail.push(t);
        if n.len() > STDERR_TAIL_LINES {
            n.skip(n.len() - STDERR_TAIL_LINES)
        } else {
            n
        }
    }
}

/// Adds a line of standard error to the tail kept of a run.
pub fn agent_stderr_line(tail: &mut Vec<String>, line: &str)
    ensures
        string_views(final(tail)@) == stderr_step_spec(string_views(old(tail)@), line@),
{
    let t = trim_str(line);
    if t.len() == 0 {
        return;
    }
    let ghost before = string_views(tail@);
    tail.push(string_of(&t));
    let ghost n = string_views(tail@);
    assert(n == before.push(t@));
    if tail.len() > STDERR_TAIL_LINES {
        let extra = tail.len() - STDERR_TAIL_LINES;
        let mut kept: Vec<String> = Vec::new();
        let mut i: usize = extra;
        while i < tail.len()
            invariant
                extra <= i <= tail.len(),
                n == string_views(tail@),
                string_views(kept@) == n.subrange(extra as int, i as int),
            decreases tail.len() - i,
        {
            let ghost k0 = string_views(kept@);
            kept.push(tail[i].clone());
            assert(string_views(kept@) == k0.push(tail@[i as int]@));
            assert(n.subrange(extra as int, i + 1) == n.subrange(extra as int, i as int).push(n[i as int]));
            i += 1;
        }
        *tail = kept;
        assert(n.subrange(extra as int, n.len() as int) == n.skip(n.len() - STDERR_TAIL_LINES));
    }
}

/// The kept tail of standard error never grows past [`STDERR_TAIL_LINES`]
/// lines, and its last line is the newest non-blank one, trimmed.
pub proof fn stderr_tail_stays_bounded(tail: Seq<Seq<char>>, line: Seq<char>)
    requires
        tail.len() <= STDERR_TAIL_LINES,
    ensures
        stderr_step_spec(tail, line).len() <= STDERR_TAIL_LINES,
        trim(line).len() > 0 ==> stderr_step_spec(tail, line).last() == trim(line),
{
}

/// The notes posted from the progress file's new text: each non-blank line,
/// trimmed and cut to 1200 characters, after `note: `.
pub open spec fn progress_notes_spec(text: Seq<char>) -> Seq<Seq<char>> {
    notes_of(lines(text))
}

/// The notes of the given lines.
pub open spec fn notes_of(ls: Seq<Seq<char>>) -> Seq<Seq<char>>
    decreases ls.len(),
{
    if ls.len() == 0 {
        Seq::empty()
    } else if trim(ls.last()).len() == 0 {
        notes_of(ls.drop_last())
    } else {
        notes_of(ls.drop_last()).push("note: "@ + truncate_spec(trim(ls.last()), 1200))
    }
}

/// The notes to post from new text of the progress file.
pub fn agent_progress_notes(text: &str) -> (r: Vec<String>)
    ensures
        string_views(r@) == progress_notes_spec(text@),
{
    let ls = lines_of(&chars_of(text));
    let ghost lv = pieces(ls@);
    let mut out: Vec<String> = Vec::new();
    let mut i: usize = 0;
    while i < ls.len()
        invariant
            i <= ls.len(),
            lv == pieces(ls@),
            lv == lines(text@),
            string_views(out@) == notes_of(lv.take(i as int)),
        decreases ls.len() - i,
    {
        assert(lv.take(i + 1).drop_last() == lv.take(i as int));
        assert(lv.take(i + 1).last() == ls@[i as int]@);
        let t = trim_chars(&ls[i]);
        if t.len() > 0 {
            let mut note = chars_of("note: ");
            extend_str(&mut note, truncate_text(string_of(&t).as_str(), 1200).as_str());
            let ghost before = string_views(out@);
            out.push(string_of(&note));
            assert(string_views(out@) == before.push(note@));
        }
        i += 1;
    }
    assert(lv.take(ls.len() as int) == lv);
    out
}

// ---------------------------------------------------------------------------
// Ending a run
// ---------------------------------------------------------------------------

/// How a run's process ended.
pub enum RunExit {
    /// It exited successfully.
    Success,
    /// It exited with a failure, with its exit code where it has one.
    Failed(Option<i32>),
    /// Waiting for it failed, for this reason.
    WaitError(String),
}

/// The message posted when a run ends, `elapsed` seconds after it started
/// (never counted below zero): a stop, the final answer (else the last
/// message, else a note that there was none), the failure with the tail of
/// standard error, or the failed wait.
pub open spec fn outcome_text_spec(
    slot: SlotView,
    stopped: bool,
    elapsed: i64,
    exit: RunExit,
    said: (Option<Seq<char>>, Option<Seq<char>>),
    stderr_tail: Seq<Seq<char>>,
) -> Seq<char> {
    let secs = if elapsed < 0 {
        0
    } else {
        elapsed as int
    };
    if stopped {
        slot.1 + " stopped after "@ + int_decimal(secs) + "s."@
    } else {
        match exit {
            RunExit::Success => {
                let text = trim(
                    match said.1 {
                        Some(f) => f,
                        None => match said.0 {
                            Some(l) => l,
                            None => Seq::empty(),
                        },
                    },
                );
                if text.len() == 0 {
                    "("@ + harness_display(slot.4) + " completed without a final message.)"@
                } else {
                    text
                }
            },
            RunExit::Failed(code) => slot.1 + " failed with exit code "@ + int_decimal(
                match code {
                    Some(c) => c as int,
                    None => -1,
                },
            ) + " after "@ + int_decimal(secs) + "s.\n\n```text\n"@ + truncate_spec(
                join(stderr_tail, seq!['\n']),
                2400,
            ) + "\n```"@,
            RunExit::WaitError(err) => slot.1 + " wait failed after "@ + int_decimal(secs)
                + "s: "@ + err@,
        }
    }
}

/// The message posted when a run ends.
pub fn agent_outcome_text(
    slot: &AgentSlotRow,
    stopped: bool,
    elapsed: i64,
    exit: &RunExit,
    said: &AgentStdoutSummary,
    stderr_tail: &Vec<String>,
) -> (r: String)
    ensures
        r@ == outcome_text_spec(slot@, stopped, elapsed, *exit, summary_view(*said), string_views(stderr_tail@)),
{
    let secs: i64 = if elapsed < 0 {
        0
    } else {
        elapsed
    };
    let mut out = chars_of(slot.name.as_str());
    if stopped {
        extend_str(&mut out, " stopped after ");
        push_i64(&mut out, secs);
        extend_str(&mut out, "s.");
        return string_of(&out);
    }
    match exit {
        RunExit::Success => {
            let chosen = match &said.final_text {
                Some(f) => chars_of(f.as_str()),
                None => match &said.last_assistant_text {
                    Some(l) => chars_of(l.as_str()),
                    None => Vec::new(),
                },
            };
            let text = trim_chars(&chosen);
            if text.len() == 0 {
                let mut note = chars_of("(");
                extend_str(&mut note, slot.harness.display_name());
                extend_str(&mut note, " completed without a final message.)");
                string_of(&note)
            } else {
                string_of(&text)
            }
        },
        RunExit::Failed(code) => {
            extend_str(&mut out, " failed with exit code ");
            let c: i64 = match code {
                Some(c) => *c as i64,
                None => -1,
            };
            push_i64(&mut out, c);
            extend_str(&mut out, " after ");
            push_i64(&mut out, secs);
            extend_str(&mut out, "s.\n\n```text\n");
            let parts = crate::shared::pieces_of(stderr_tail);
            let mut nl: Vec<char> = Vec::new();
            nl.push('\n');
            assert(nl@ == seq!['\n']);
            let joined = string_of(&join_chars(&parts, &nl));
            extend_str(&mut out, truncate_text(joined.as_str(), 2400).as_str());
            extend_str(&mut out, "\n```");
            string_of(&out)
        },
        RunExit::WaitError(err) => {
            extend_str(&mut out, " wait failed after ");
            push_i64(&mut out, secs);
            extend_str(&mut out, "s: ");
            extend_str(&mut out, err.as_str());
            string_of(&out)
        },
    }
}

// ---------------------------------------------------------------------------
// The life of a job
// ---------------------------------------------------------------------------

/// What a queued job does once it looks up its slot.
pub enum JobStart {
    /// The slot is gone: drop the job.
    Drop,
    /// A retained legacy lane: post this notice and drop the job.
    Notice(&'static str),
    /// Launch the slot's harness.
    Launch,
}

/// What a queued job does: drop itself where its slot is gone, answer with
/// the legacy notice on a retained legacy lane, and launch otherwise.
pub fn job_start(slot: Option<&AgentSlotRow>) -> (r: JobStart)
    ensures
        match r {
            JobStart::Drop => slot is None,
            JobStart::Notice(t) => slot matches Some(s) && s.harness == AgentHarness::LegacyCodex
                && t@ == legacy_lane_notice(),
            JobStart::Launch => slot matches Some(s) && s.harness != AgentHarness::LegacyCodex,
        },
{
    match slot {
        None => JobStart::Drop,
        Some(s) => if s.harness.is_runnable() {
            JobStart::Launch
        } else {
            JobStart::Notice(agent_legacy_lane_notice())
        },
    }
}

/// How a finished process ended: success where its status says so, else a
/// failure with its exit code where it has one.
pub fn run_exit(success: bool, code: Option<i32>) -> (r: RunExit)
    ensures
        success ==> r is Success,
        !success ==> r == RunExit::Failed(code),
{
    if success {
        RunExit::Success
    } else {
        RunExit::Failed(code)
    }
}

/// What a job posts when its harness cannot be started; the job is then
/// dropped.
pub fn spawn_failed_text(program: &str, err: &str) -> (r: String)
    ensures
        r@ == "Could not start `"@ + program@ + "`: "@ + err@,
{
    let mut out = chars_of("Could not start `");
    extend_str(&mut out, program);
    extend_str(&mut out, "`: ");
    extend_str(&mut out, err);
    string_of(&out)
}

} // verus!
