//! The agents page: the slot rail, the open slot's transcript and composer,
//! the terminal panel and the new-project dialog.
use vstd::prelude::*;
use crate::harness::{harness_display, AgentHarness};
use crate::html::{html_escape, html_escape_spec};
use crate::num::{int_decimal, nat_decimal, push_decimal, push_i64};
use crate::text::{
    chars_find_from, chars_of, extend_chars, extend_str, find_from, lemma_find_from_bounds,
    occurs_at, string_of, subvec, trim, trim_str,
};
use crate::types::{slot_views, AgentSlotRow, SlotView};

verus! {

/// The error shown in the new-project dialog, where there is one.
pub open spec fn project_error_spec(error: Option<Seq<char>>) -> Seq<char> {
    match error {
        Some(e) => if trim(e).len() > 0 {
            "<p class=\"error\">"@ + html_escape_spec(e) + "</p>"@
        } else {
            Seq::empty()
        },
        None => Seq::empty(),
    }
}

fn project_error_chars(error: Option<&str>) -> (r: Vec<char>)
    ensures
        r@ == project_error_spec(crate::auth::opt_str(error)),
{
    match error {
        Some(e) => if trim_str(e).len() > 0 {
            let mut out = chars_of("<p class=\"error\">");
            extend_str(&mut out, html_escape(e).as_str());
            extend_str(&mut out, "</p>");
            out
        } else {
            Vec::new()
        },
        None => Vec::new(),
    }
}

/// The navigation, the slot rail and the transcript of the agents page.
pub open spec fn page_head_spec(slot: SlotView, runtime_label: Seq<char>, slot_rail: Seq<char>, messages_html: Seq<char>, message_count: usize) -> Seq<char> {
    "\n<nav><a href=\"/\">Mobailmux</a><div class=\"nav-actions\"><button type=\"button\" class=\"ghost nav-icon\" data-project-open aria-label=\"Start another project\" title=\"Start another project\">＋</button><button type=\"button\" class=\"ghost nav-icon\" data-terminal-open aria-label=\"Terminal\" title=\"Terminal\">⌨</button><form action=\"/agents\" method=\"get\" data-refresh-form><input type=\"hidden\" name=\"slot\" value=\""@
        + int_decimal(slot.0 as int)
        + "\"><input type=\"hidden\" name=\"refresh\" value=\"1\"><button type=\"submit\" class=\"ghost nav-icon\" aria-label=\"Refresh\" title=\"Refresh\" data-refresh-button>↻</button></form><strong>Agents</strong></div></nav>\n<main class=\"chat-shell agent-shell\">\n  "@
        + slot_rail
        + "\n  <section class=\"chat-pane agent-pane\">\n    <header class=\"chat-head\">\n      <div class=\"chat-title\"><strong>"@
        + html_escape_spec(slot.1)
        + "</strong><span data-active-cwd>"@
        + html_escape_spec(slot.2)
        + "</span></div>\n      <div class=\"chat-stats\"><span data-agent-count>"@
        + nat_decimal(message_count as nat)
        + " messages</span><span class=\"agent-status\" data-agent-status>"@
        + html_escape_spec(runtime_label)
        + "</span></div>\n    </header>\n    <div class=\"message-list\" data-agent-messages>"@
        + messages_html
}

fn page_head(slot: &AgentSlotRow, runtime_label: &str, slot_rail: &str, messages_html: &str, message_count: usize) -> (r: Vec<char>)
    ensures
        r@ == page_head_spec(slot@, runtime_label@, slot_rail@, messages_html@, message_count),
{
    let mut out: Vec<char> = Vec::new();
    extend_str(&mut out, "\n<nav><a href=\"/\">Mobailmux</a><div class=\"nav-actions\"><button type=\"button\" class=\"ghost nav-icon\" data-project-open aria-label=\"Start another project\" title=\"Start another project\">＋</button><button type=\"button\" class=\"ghost nav-icon\" data-terminal-open aria-label=\"Terminal\" title=\"Terminal\">⌨</button><form action=\"/agents\" method=\"get\" data-refresh-form><input type=\"hidden\" name=\"slot\" value=\"");
    push_i64(&mut out, slot.id);
    extend_str(&mut out, "\"><input type=\"hidden\" name=\"refresh\" value=\"1\"><button type=\"submit\" class=\"ghost nav-icon\" aria-label=\"Refresh\" title=\"Refresh\" data-refresh-button>↻</button></form><strong>Agents</strong></div></nav>\n<main class=\"chat-shell agent-shell\">\n  ");
    extend_str(&mut out, slot_rail);
    extend_str(&mut out, "\n  <section class=\"chat-pane agent-pane\">\n    <header class=\"chat-head\">\n      <div class=\"chat-title\"><strong>");
    extend_str(&mut out, html_escape(slot.name.as_str()).as_str());
    extend_str(&mut out, "</strong><span data-active-cwd>");
    extend_str(&mut out, html_escape(slot.workdir.as_str()).as_str());
    extend_str(&mut out, "</span></div>\n      <div class=\"chat-stats\"><span data-agent-count>");
    push_decimal(&mut out, message_count as u64);
    extend_str(&mut out, " messages</span><span class=\"agent-status\" data-agent-status>");
    extend_str(&mut out, html_escape(runtime_label).as_str());
    extend_str(&mut out, "</span></div>\n    </header>\n    <div class=\"message-list\" data-agent-messages>");
    extend_str(&mut out, messages_html);
    out
}

/// The composer of the agents page, and the terminal panel after it.
pub open spec fn page_composer_spec(slot: SlotView, execution_mode: Seq<char>, active_running: bool, terminal_panel: Seq<char>) -> Seq<char> {
    "</div>\n    <section class=\"agent-compose-wrap\">\n      <form action=\"/agents\" method=\"post\" class=\"agent-composer\">\n        <input name=\"slot_id\" type=\"hidden\" value=\""@
        + int_decimal(slot.0 as int)
        + "\">\n        <input name=\"edit_message_id\" id=\"editMessageId\" type=\"hidden\" value=\"\">\n        <textarea id=\"agentBody\" name=\"body\" maxlength=\""@
        + "131072"@
        + "\" placeholder=\"Message "@
        + harness_display(slot.4)
        + "\"></textarea>\n        <div class=\"command-suggestions\" id=\"commandSuggestions\" role=\"listbox\" hidden></div>\n        <div class=\"edit-strip\" id=\"editStrip\" hidden><span>Editing message</span><button type=\"button\" class=\"ghost\" data-edit-clear>Discard</button></div>\n        <div class=\"agent-settings\" data-agent-settings>\n          "@
        + execution_mode
        + "\n        </div>\n        <button type=\"submit\" name=\"control\" value=\"stop\" class=\"ghost cancel-button\" data-cancel-button"@
        + (if active_running { Seq::empty() } else { " disabled"@ })
        + ">Cancel</button>\n        <button type=\"submit\" data-send-button>Send</button>\n      </form>\n    </section>\n  </section>\n</main>\n"@
        + terminal_panel
}

fn page_composer(slot: &AgentSlotRow, execution_mode: &str, active_running: bool, terminal_panel: &str) -> (r: Vec<char>)
    ensures
        r@ == page_composer_spec(slot@, execution_mode@, active_running, terminal_panel@),
{
    let mut out: Vec<char> = Vec::new();
    extend_str(&mut out, "</div>\n    <section class=\"agent-compose-wrap\">\n      <form action=\"/agents\" method=\"post\" class=\"agent-composer\">\n        <input name=\"slot_id\" type=\"hidden\" value=\"");
    push_i64(&mut out, slot.id);
    extend_str(&mut out, "\">\n        <input name=\"edit_message_id\" id=\"editMessageId\" type=\"hidden\" value=\"\">\n        <textarea id=\"agentBody\" name=\"body\" maxlength=\"");
    extend_str(&mut out, "131072");
    extend_str(&mut out, "\" placeholder=\"Message ");
    extend_str(&mut out, slot.harness.display_name());
    extend_str(&mut out, "\"></textarea>\n        <div class=\"command-suggestions\" id=\"commandSuggestions\" role=\"listbox\" hidden></div>\n        <div class=\"edit-strip\" id=\"editStrip\" hidden><span>Editing message</span><button type=\"button\" class=\"ghost\" data-edit-clear>Discard</button></div>\n        <div class=\"agent-settings\" data-agent-settings>\n          ");
    extend_str(&mut out, execution_mode);
    extend_str(&mut out, "\n        </div>\n        <button type=\"submit\" name=\"control\" value=\"stop\" class=\"ghost cancel-button\" data-cancel-button");
    if !active_running {
        extend_str(&mut out, " disabled");
    }
    extend_str(&mut out, ">Cancel</button>\n        <button type=\"submit\" data-send-button>Send</button>\n      </form>\n    </section>\n  </section>\n</main>\n");
    extend_str(&mut out, terminal_panel);
    out
}

/// The new-project dialog of the agents page, and its script.
pub open spec fn page_project_spec(slot: SlotView, project_error: Option<Seq<char>>, default_harness: AgentHarness, agent_script: Seq<char>) -> Seq<char> {
    "\n<dialog class=\"project-panel\" id=\"projectPanel\">\n  <header><strong>Start another project</strong><button type=\"button\" class=\"icon\" data-project-close aria-label=\"Close\">x</button></header>\n  <main>\n    <p class=\"muted\">Each project gets its own lane, transcript, and harness session, so it can run independently.</p>\n    "@
        + project_error_spec(project_error)
        + "\n    <form action=\"/agents/projects\" method=\"post\" class=\"project-form\" data-project-form>\n      <input name=\"slot_id\" type=\"hidden\" value=\""@
        + int_decimal(slot.0 as int)
        + "\">\n      <label><span>Harness</span><select name=\"harness\"><option value=\"pi\""@
        + (if default_harness == AgentHarness::Pi { " selected"@ } else { Seq::empty() })
        + ">Pi</option><option value=\"opencode\""@
        + (if default_harness == AgentHarness::OpenCode { " selected"@ } else { Seq::empty() })
        + ">OpenCode</option></select></label>\n      <label><span>Project folder</span><input name=\"workdir\" required autocomplete=\"off\" autocapitalize=\"off\" spellcheck=\"false\" placeholder=\"/path/to/project\"></label>\n      <label><span>Lane name <em>(optional)</em></span><input name=\"name\" maxlength=\""@
        + "32"@
        + "\" autocomplete=\"off\" placeholder=\"defaults to the folder name\"></label>\n      <label><span>First task <em>(optional)</em></span><textarea name=\"body\" maxlength=\""@
        + "131072"@
        + "\" placeholder=\"Tell the harness what to do now, or open an empty lane.\"></textarea></label>\n      <div class=\"project-form-actions\"><button type=\"submit\">Open project</button></div>\n    </form>\n  </main>\n</dialog>\n<script>\n"@
        + agent_script
        + "</script>\n"@
}

fn page_project(slot: &AgentSlotRow, project_error: Option<&str>, default_harness: AgentHarness, agent_script: &str) -> (r: Vec<char>)
    ensures
        r@ == page_project_spec(slot@, crate::auth::opt_str(project_error), default_harness, agent_script@),
{
    let mut out: Vec<char> = Vec::new();
    extend_str(&mut out, "\n<dialog class=\"project-panel\" id=\"projectPanel\">\n  <header><strong>Start another project</strong><button type=\"button\" class=\"icon\" data-project-close aria-label=\"Close\">x</button></header>\n  <main>\n    <p class=\"muted\">Each project gets its own lane, transcript, and harness session, so it can run independently.</p>\n    ");
    extend_chars(&mut out, &project_error_chars(project_error));
    extend_str(&mut out, "\n    <form action=\"/agents/projects\" method=\"post\" class=\"project-form\" data-project-form>\n      <input name=\"slot_id\" type=\"hidden\" value=\"");
    push_i64(&mut out, slot.id);
    extend_str(&mut out, "\">\n      <label><span>Harness</span><select name=\"harness\"><option value=\"pi\"");
    if default_harness == AgentHarness::Pi {
        extend_str(&mut out, " selected");
    }
    extend_str(&mut out, ">Pi</option><option value=\"opencode\"");
    if default_harness == AgentHarness::OpenCode {
        extend_str(&mut out, " selected");
    }
    extend_str(&mut out, ">OpenCode</option></select></label>\n      <label><span>Project folder</span><input name=\"workdir\" required autocomplete=\"off\" autocapitalize=\"off\" spellcheck=\"false\" placeholder=\"/path/to/project\"></label>\n      <label><span>Lane name <em>(optional)</em></span><input name=\"name\" maxlength=\"");
    extend_str(&mut out, "32");
    extend_str(&mut out, "\" autocomplete=\"off\" placeholder=\"defaults to the folder name\"></label>\n      <label><span>First task <em>(optional)</em></span><textarea name=\"body\" maxlength=\"");
    extend_str(&mut out, "131072");
    extend_str(&mut out, "\" placeholder=\"Tell the harness what to do now, or open an empty lane.\"></textarea></label>\n      <div class=\"project-form-actions\"><button type=\"submit\">Open project</button></div>\n    </form>\n  </main>\n</dialog>\n<script>\n");
    extend_str(&mut out, agent_script);
    extend_str(&mut out, "</script>\n");
    out
}

/// The body of the agents page for the open `slot`: `runtime_label` says
/// what it does, `active_running` whether its job runs, and `agent_script`
/// is the page's script.
pub open spec fn agents_page_spec(
    slot: SlotView,
    runtime_label: Seq<char>,
    slot_rail: Seq<char>,
    messages_html: Seq<char>,
    message_count: usize,
    execution_mode: Seq<char>,
    active_running: bool,
    terminal_panel: Seq<char>,
    project_error: Option<Seq<char>>,
    default_harness: AgentHarness,
    agent_script: Seq<char>,
) -> Seq<char> {
    page_head_spec(slot, runtime_label, slot_rail, messages_html, message_count)
        + page_composer_spec(slot, execution_mode, active_running, terminal_panel)
        + page_project_spec(slot, project_error, default_harness, agent_script)
}

/// The body of the agents page.
pub fn agents_page_body(
    slot: &AgentSlotRow,
    runtime_label: &str,
    slot_rail: &str,
    messages_html: &str,
    message_count: usize,
    execution_mode: &str,
    active_running: bool,
    terminal_panel: &str,
    project_error: Option<&str>,
    default_harness: AgentHarness,
    agent_script: &str,
) -> (r: String)
    ensures
        r@ == agents_page_spec(
            slot@,
            runtime_label@,
            slot_rail@,
            messages_html@,
            message_count,
            execution_mode@,
            active_running,
            terminal_panel@,
            crate::auth::opt_str(project_error),
            default_harness,
            agent_script@,
        ),
{
    let mut out = page_head(slot, runtime_label, slot_rail, messages_html, message_count);
    extend_chars(&mut out, &page_composer(slot, execution_mode, active_running, terminal_panel));
    extend_chars(&mut out, &page_project(slot, project_error, default_harness, agent_script));
    string_of(&out)
}

/// The index of the slot the page opens.
pub fn select_active_slot(slots: &Vec<AgentSlotRow>, requested: Option<i64>) -> (r: Option<usize>)
    ensures
        r matches Some(i) ==> i < slots.len() && (match requested {
            Some(id) => (slots@[i as int].id == id && forall|j: int|
                0 <= j < i ==> slots@[j].id != id) || (i == 0 && forall|j: int|
                0 <= j < slots.len() ==> slots@[j].id != id),
            None => i == 0,
        }),
        r is None ==> slots.len() == 0,
{
    match requested {
        Some(id) => {
            let mut i: usize = 0;
            while i < slots.len()
                invariant
                    i <= slots.len(),
                    requested == Some(id),
                    forall|j: int| 0 <= j < i ==> slots@[j].id != id,
                decreases slots.len() - i,
            {
                if slots[i].id == id {
                    return Some(i);
                }
                i += 1;
            }
        },
        None => {},
    }
    if slots.len() > 0 {
        Some(0)
    } else {
        None
    }
}

// ---------------------------------------------------------------------------
// The page's script
// ---------------------------------------------------------------------------

/// `str::replace`: every occurrence of a non-empty `p` from index `i` on,
/// left to right without overlap, replaced by `r`.
pub open spec fn replace_from(s: Seq<char>, p: Seq<char>, r: Seq<char>, i: int) -> Seq<char>
    decreases s.len() + 1 - i,
{
    if p.len() == 0 || i < 0 || i > s.len() {
        Seq::empty()
    } else {
        match find_from(s, p, i) {
            None => s.skip(i),
            Some(k) => {
                proof {
                    lemma_find_from_bounds(s, p, i);
                }
                s.subrange(i, k) + r + replace_from(s, p, r, k + p.len())
            },
        }
    }
}

/// `s.replace(p, r)` for a non-empty `p`.
pub open spec fn replace_all(s: Seq<char>, p: Seq<char>, r: Seq<char>) -> Seq<char> {
    replace_from(s, p, r, 0)
}

/// `s.replace(p, r)` for a non-empty pattern.
pub fn replace_text(s: &str, p: &str, r: &str) -> (out: String)
    requires
        p@.len() > 0,
    ensures
        out@ == replace_all(s@, p@, r@),
{
    let v = chars_of(s);
    let pv = chars_of(p);
    let mut out: Vec<char> = Vec::new();
    let mut i: usize = 0;
    loop
        invariant
            i <= v.len(),
            v@ == s@,
            pv@ == p@,
            pv.len() > 0,
            out@ + replace_from(v@, pv@, r@, i as int) == replace_all(s@, p@, r@),
        decreases v.len() + 1 - i,
    {
        match chars_find_from(&v, &pv, i) {
            None => {
                let rest = subvec(&v, i, v.len());
                assert(rest@ == v@.skip(i as int));
                extend_chars(&mut out, &rest);
                return string_of(&out);
            },
            Some(k) => {
                proof {
                    lemma_find_from_bounds(v@, pv@, i as int);
                }
                let mid = subvec(&v, i, k);
                extend_chars(&mut out, &mid);
                extend_str(&mut out, r);
                i = k + pv.len();
            },
        }
    }
}

/// The page's script: the template with the composer's suggestions, the
/// model catalog, the open slot's id and the two page flags filled in.
pub open spec fn agents_script_spec(
    template: Seq<char>,
    composer_json: Seq<char>,
    model_catalog_json: Seq<char>,
    slot_id: i64,
    viewing_transcript: bool,
    reopen_project: bool,
) -> Seq<char> {
    replace_all(
        replace_all(
            replace_all(
                replace_all(
                    replace_all(template, "{composer_suggestions_json}"@, composer_json),
                    "{model_catalog_json}"@,
                    model_catalog_json,
                ),
                "{active_slot_id}"@,
                int_decimal(slot_id as int),
            ),
            "{viewing_transcript}"@,
            if viewing_transcript {
                "true"@
            } else {
                "false"@
            },
        ),
        "{reopen_project}"@,
        if reopen_project {
            "true"@
        } else {
            "false"@
        },
    )
}

/// Fills in the page's script template.
pub fn agents_script(
    template: &str,
    composer_json: &str,
    model_catalog_json: &str,
    slot_id: i64,
    viewing_transcript: bool,
    reopen_project: bool,
) -> (r: String)
    ensures
        r@ == agents_script_spec(
            template@,
            composer_json@,
            model_catalog_json@,
            slot_id,
            viewing_transcript,
            reopen_project,
        ),
{
    proof {
        reveal_strlit("{composer_suggestions_json}");
        reveal_strlit("{model_catalog_json}");
        reveal_strlit("{active_slot_id}");
        reveal_strlit("{viewing_transcript}");
        reveal_strlit("{reopen_project}");
    }
    let a = replace_text(template, "{composer_suggestions_json}", composer_json);
    let b = replace_text(a.as_str(), "{model_catalog_json}", model_catalog_json);
    let id = string_of(&crate::num::i64_chars(slot_id));
    let c = replace_text(b.as_str(), "{active_slot_id}", id.as_str());
    let d = replace_text(c.as_str(), "{viewing_transcript}", if viewing_transcript { "true" } else { "false" });
    replace_text(d.as_str(), "{reopen_project}", if reopen_project { "true" } else { "false" })
}

} // verus!
