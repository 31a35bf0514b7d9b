//! Slash commands sent to a slot: what each asks for, and the replies that
//! the slot posts.
use vstd::prelude::*;
use crate::composer::{
    agent_control_text, byte_len, command_arg, command_arg_spec, control_text_spec,
    is_char_boundary, normalize_agent_command_text, normalize_command_spec, utf8_width,
};
use crate::harness::{harness_display, harness_str, AgentHarness};
use crate::html::{html_escape, html_escape_spec};
use crate::num::{int_decimal, nat_decimal, push_decimal, push_i64};
use crate::shared::{
    agent_command_label, command_label_spec, truncate_spec, truncate_text, Config,
};
use crate::text::{
    chars_eq_str, chars_of, extend_chars, extend_str, lower, lower_chars, string_of, trim,
    trim_chars, trim_str,
};
use crate::types::{slot_views, AgentSlotRow, SlotView};

verus! {

/// The longest goal kept for a slot, in characters.
pub const MAX_AGENT_GOAL_CHARS: usize = 4000;

// ---------------------------------------------------------------------------
// Where reading a command would cut a character in two
// ---------------------------------------------------------------------------

proof fn lemma_byte_len_grows(s: Seq<char>, k: int, j: int)
    requires
        0 <= k <= j <= s.len(),
    ensures
        byte_len(s.take(j)) >= byte_len(s.take(k)) + (j - k),
    decreases j - k,
{
    if k < j {
        lemma_byte_len_grows(s, k, j - 1);
        assert(s.take(j).drop_last() == s.take(j - 1));
    }
}

fn utf8_width_of(c: char) -> (w: u128)
    ensures
        w == utf8_width(c),
{
    let u = c as u32;
    if u < 0x80 {
        1
    } else if u < 0x800 {
        2
    } else if u < 0x10000 {
        3
    } else {
        4
    }
}

fn byte_len_of(v: &Vec<char>) -> (n: u128)
    ensures
        n == byte_len(v@),
{
    let mut acc: u128 = 0;
    let mut k: usize = 0;
    while k < v.len()
        invariant
            k <= v.len(),
            acc == byte_len(v@.take(k as int)),
            acc <= 4 * k,
        decreases v.len() - k,
    {
        assert(v@.take(k + 1).drop_last() == v@.take(k as int));
        acc = acc + utf8_width_of(v[k]);
        k += 1;
    }
    assert(v@.take(v.len() as int) == v@);
    acc
}

/// Whether byte offset `n` of `text` falls between two characters.
pub fn char_boundary_at(text: &str, n: usize) -> (r: bool)
    ensures
        r == is_char_boundary(text@, n as nat),
{
    let v = chars_of(text);
    let mut acc: u128 = 0;
    let mut k: usize = 0;
    loop
        invariant
            k <= v.len(),
            v@ == text@,
            acc == byte_len(v@.take(k as int)),
            acc <= n,
            forall|m: int| 0 <= m < k ==> byte_len(#[trigger] v@.take(m)) < n,
        decreases v.len() - k,
    {
        if acc == n as u128 {
            assert(byte_len(v@.take(k as int)) == n);
            return true;
        }
        if k == v.len() {
            assert forall|m: int| 0 <= m <= v@.len() implies byte_len(#[trigger] v@.take(m)) != n by {
                if m == k {
                } else {
                }
            }
            assert(v@ == text@);
            return false;
        }
        let c = v[k];
        let w = utf8_width_of(c);
        assert(v@.take(k + 1).drop_last() == v@.take(k as int));
        assert(v@.take(k + 1).last() == c);
        if acc + w > n as u128 {
            assert forall|m: int| 0 <= m <= v@.len() implies byte_len(#[trigger] v@.take(m)) != n by {
                if m > k {
                    lemma_byte_len_grows(v@, k + 1, m);
                }
            }
            assert(v@ == text@);
            return false;
        }
        acc = acc + w;
        k += 1;
    }
}

/// Whether a slash command can be read: where its text runs past four
/// bytes, the fifth byte starts a character. Reading the command as `/goal`
/// slices its text at byte four, which panics inside a character.
pub open spec fn control_request_ok(body: Seq<char>) -> bool {
    match control_text_spec(trim(body)) {
        None => true,
        Some((_, raw)) => {
            let t = trim(normalize_command_spec(raw));
            byte_len(t) > 4 ==> is_char_boundary(t, 4)
        },
    }
}

/// Whether a control request can be read without cutting a character.
pub fn agent_control_request_ok(body: &str) -> (r: bool)
    ensures
        r == control_request_ok(body@),
{
    let trimmed = string_of(&trim_str(body));
    match agent_control_text(trimmed.as_str()) {
        None => true,
        Some((_, raw)) => {
            let text = normalize_agent_command_text(raw.as_str());
            let t = string_of(&trim_str(text.as_str()));
            if byte_len_of(&trim_str(text.as_str())) > 4 {
                char_boundary_at(t.as_str(), 4)
            } else {
                true
            }
        },
    }
}

// ---------------------------------------------------------------------------
// What a command asks for
// ---------------------------------------------------------------------------

/// What a slash command asks of the service.
pub enum AgentControl {
    /// Post this reply.
    Reply(String),
    /// Store this goal (empty clears it), then post the reply.
    SetGoal(String, String),
    /// Post the command list, which counts the slots.
    Help,
    /// Post the state of every slot.
    Slots,
    /// Post what the slot is doing.
    Status,
    /// Reset the slot's chat, stopping its job, and say so.
    Fresh,
    /// Stop the slot's job and say whether there was one.
    Stop,
}

/// The plan of a slash command, over character sequences.
pub enum ControlPlan {
    Reply(Seq<char>),
    SetGoal(Seq<char>, Seq<char>),
    Help,
    Slots,
    Status,
    Fresh,
    Stop,
}

impl View for AgentControl {
    type V = ControlPlan;

    open spec fn view(&self) -> ControlPlan {
        match self {
            AgentControl::Reply(r) => ControlPlan::Reply(r@),
            AgentControl::SetGoal(g, r) => ControlPlan::SetGoal(g@, r@),
            AgentControl::Help => ControlPlan::Help,
            AgentControl::Slots => ControlPlan::Slots,
            AgentControl::Status => ControlPlan::Status,
            AgentControl::Fresh => ControlPlan::Fresh,
            AgentControl::Stop => ControlPlan::Stop,
        }
    }
}

/// A word that clears the goal when given as `/goal WORD`.
pub open spec fn clears_goal(goal: Seq<char>) -> bool {
    let l = lower(goal);
    l == "clear"@ || l == "none"@ || l == "unset"@ || l == "off"@
}

/// The reply to `/goal` without an argument.
pub open spec fn show_goal_spec(current: Seq<char>) -> Seq<char> {
    let c = trim(current);
    if c.len() == 0 {
        "No goal is set for this slot. Use `/goal <objective>` to set one."@
    } else {
        "Current goal:\n```text\n"@ + truncate_spec(c, 2000) + "\n```"@
    }
}

/// The plan of `/goal ARG`.
pub open spec fn goal_plan(current: Seq<char>, arg: Seq<char>) -> ControlPlan {
    let goal = trim(arg);
    if goal.len() == 0 {
        ControlPlan::Reply(show_goal_spec(current))
    } else if clears_goal(goal) {
        ControlPlan::SetGoal(Seq::empty(), "Goal cleared for this slot."@)
    } else {
        let g = truncate_spec(goal, MAX_AGENT_GOAL_CHARS as nat);
        ControlPlan::SetGoal(
            g,
            "Goal set for this slot. Future harness messages will include:\n```text\n"@ + g
                + "\n```"@,
        )
    }
}

/// The plan of a command word `l` (lowercased) other than help and goal.
pub open spec fn word_plan(
    config: Config,
    slot: SlotView,
    l: Seq<char>,
    prefix: char,
    raw: Seq<char>,
) -> ControlPlan {
    if l == "clear-goal"@ {
        ControlPlan::SetGoal(Seq::empty(), "Goal cleared for this slot."@)
    } else if l == "slots"@ || l == "list"@ || l == "overview"@ {
        ControlPlan::Slots
    } else if l == "status"@ {
        ControlPlan::Status
    } else if l == "usage"@ || l == "limits"@ {
        ControlPlan::Reply(
            harness_display(slot.4)
                + " owns subscription usage and limit reporting. Mobailmux does not poll or reset provider credits."@,
        )
    } else if l == "model"@ || l == "settings"@ {
        ControlPlan::Reply(
            "Choose a model and thinking difficulty in the composer. Agent command: `"@
                + command_label_spec(config, slot.4) + "`"@,
        )
    } else if l == "fresh"@ || l == "new"@ {
        ControlPlan::Fresh
    } else if l == "stop"@ {
        ControlPlan::Stop
    } else {
        ControlPlan::Reply(
            "Unknown command: `"@ + seq![prefix] + raw + "`. Type `/help` for commands."@,
        )
    }
}

/// What a message to `slot` asks for, where it is a slash (or `!`)
/// command: the command word may be an unambiguous prefix and is read
/// without regard to ASCII case.
pub open spec fn control_spec(config: Config, slot: SlotView, body: Seq<char>) -> Option<ControlPlan> {
    match control_text_spec(trim(body)) {
        None => None,
        Some((prefix, raw)) => {
            let text = normalize_command_spec(raw);
            let l = lower(text);
            if l == "help"@ || l == "commands"@ {
                Some(ControlPlan::Help)
            } else {
                match command_arg_spec(text, "goal"@) {
                    Some(arg) => Some(goal_plan(slot.3, arg)),
                    None => Some(word_plan(config, slot, l, prefix, raw)),
                }
            }
        },
    }
}

fn is_one_of(v: &Vec<char>, a: &str, b: &str) -> (r: bool)
    ensures
        r == (v@ == a@ || v@ == b@),
{
    chars_eq_str(v, a) || chars_eq_str(v, b)
}

fn goal_control(slot: &AgentSlotRow, arg: &str) -> (r: AgentControl)
    ensures
        r@ == goal_plan(slot.goal@, arg@),
{
    let goal = trim_str(arg);
    if goal.len() == 0 {
        let current = trim_str(slot.goal.as_str());
        let reply = if current.len() == 0 {
            String::from_str("No goal is set for this slot. Use `/goal <objective>` to set one.")
        } else {
            let mut out = chars_of("Current goal:\n```text\n");
            let cut = truncate_text(string_of(&current).as_str(), 2000);
            extend_str(&mut out, cut.as_str());
            extend_str(&mut out, "\n```");
            string_of(&out)
        };
        return AgentControl::Reply(reply);
    }
    let gl = lower_chars(&goal);
    if is_one_of(&gl, "clear", "none") || is_one_of(&gl, "unset", "off") {
        return AgentControl::SetGoal(String::new(), String::from_str("Goal cleared for this slot."));
    }
    let goal_text = string_of(&goal);
    let g = truncate_text(goal_text.as_str(), MAX_AGENT_GOAL_CHARS);
    let mut out = chars_of("Goal set for this slot. Future harness messages will include:\n```text\n");
    extend_str(&mut out, g.as_str());
    extend_str(&mut out, "\n```");
    AgentControl::SetGoal(g, string_of(&out))
}

fn word_control(config: &Config, slot: &AgentSlotRow, l: &Vec<char>, prefix: char, raw: &str) -> (r:
    AgentControl)
    ensures
        r@ == word_plan(*config, slot@, l@, prefix, raw@),
{
    if chars_eq_str(l, "clear-goal") {
        AgentControl::SetGoal(String::new(), String::from_str("Goal cleared for this slot."))
    } else if is_one_of(l, "slots", "list") || chars_eq_str(l, "overview") {
        AgentControl::Slots
    } else if chars_eq_str(l, "status") {
        AgentControl::Status
    } else if is_one_of(l, "usage", "limits") {
        let mut out = chars_of(slot.harness.display_name());
        extend_str(
            &mut out,
            " owns subscription usage and limit reporting. Mobailmux does not poll or reset provider credits.",
        );
        assert(out@ =~= harness_display(slot.harness)
            + " owns subscription usage and limit reporting. Mobailmux does not poll or reset provider credits."@);
        AgentControl::Reply(string_of(&out))
    } else if is_one_of(l, "model", "settings") {
        let mut out = chars_of("Choose a model and thinking difficulty in the composer. Agent command: `");
        extend_str(&mut out, agent_command_label(config, slot.harness).as_str());
        extend_str(&mut out, "`");
        assert(out@ =~= "Choose a model and thinking difficulty in the composer. Agent command: `"@
            + command_label_spec(*config, slot.harness) + "`"@);
        AgentControl::Reply(string_of(&out))
    } else if is_one_of(l, "fresh", "new") {
        AgentControl::Fresh
    } else if chars_eq_str(l, "stop") {
        AgentControl::Stop
    } else {
        let mut out = chars_of("Unknown command: `");
        out.push(prefix);
        extend_str(&mut out, raw);
        extend_str(&mut out, "`. Type `/help` for commands.");
        assert(out@ =~= "Unknown command: `"@ + seq![prefix] + raw@ + "`. Type `/help` for commands."@);
        AgentControl::Reply(string_of(&out))
    }
}

/// What a message to `slot` asks for, where it is a slash command; `None`
/// for a prompt.
pub fn agent_control(config: &Config, slot: &AgentSlotRow, body: &str) -> (r: Option<AgentControl>)
    requires
        control_request_ok(body@),
    ensures
        r matches Some(c) ==> control_spec(*config, slot@, body@) == Some(c@),
        r is None ==> control_spec(*config, slot@, body@) is None,
{
    let trimmed = string_of(&trim_str(body));
    let (prefix, raw) = match agent_control_text(trimmed.as_str()) {
        None => return None,
        Some(p) => p,
    };
    let text = normalize_agent_command_text(raw.as_str());
    let l = lower_chars(&chars_of(text.as_str()));
    if is_one_of(&l, "help", "commands") {
        return Some(AgentControl::Help);
    }
    proof {
        reveal_strlit("goal");
        let g = "goal"@;
        assert(g.len() == 4 && g[0] == 'g' && g[1] == 'o' && g[2] == 'a' && g[3] == 'l');
        crate::composer::lemma_ascii_byte_len(g);
    }
    match command_arg(text.as_str(), "goal") {
        Some(arg) => Some(goal_control(slot, arg.as_str())),
        None => Some(word_control(config, slot, &l, prefix, raw.as_str())),
    }
}

// ---------------------------------------------------------------------------
// Replies
// ---------------------------------------------------------------------------

/// The command list, up to the slot count.
pub open spec fn help_head() -> Seq<char> {
    "Agent commands:\nUse `/` in the web chatbox. The old `!` prefix still works.\n- `/goal <objective>` sets a goal that is included in future harness prompts\n- `/goal` shows the current goal\n- `/goal clear` or `/clear-goal` clears it\n- `/slots`\n- `/fresh`\n- `/status`\n- `/usage`\n- `/stop`\n- `/model`\n- `/help` or `/commands`\n\n"@
}

/// The reply to `/help`: the commands, then how many slots there are.
pub open spec fn help_text_spec(slot_count: nat) -> Seq<char> {
    help_head() + nat_decimal(slot_count) + " slots configured."@
}

/// The reply to `/help` when `slot_count` slots are configured.
pub fn agent_help_text(slot_count: usize) -> (r: String)
    ensures
        r@ == help_text_spec(slot_count as nat),
{
    let mut out = chars_of(
        "Agent commands:\nUse `/` in the web chatbox. The old `!` prefix still works.\n- `/goal <objective>` sets a goal that is included in future harness prompts\n- `/goal` shows the current goal\n- `/goal clear` or `/clear-goal` clears it\n- `/slots`\n- `/fresh`\n- `/status`\n- `/usage`\n- `/stop`\n- `/model`\n- `/help` or `/commands`\n\n",
    );
    push_decimal(&mut out, slot_count as u64);
    extend_str(&mut out, " slots configured.");
    string_of(&out)
}

/// One line of the `/slots` reply.
pub open spec fn slot_line_spec(slot: SlotView, running: bool) -> Seq<char> {
    let status = if running {
        "running"@
    } else {
        "idle"@
    };
    let head = slot.1 + " ["@ + harness_str(slot.4) + "]: "@ + status;
    let goal = trim(slot.3);
    if goal.len() == 0 {
        head
    } else {
        head + " | goal: "@ + truncate_spec(goal, 120)
    }
}

/// The lines of the `/slots` reply for the first `n` slots.
pub open spec fn slot_lines(slots: Seq<SlotView>, running: Seq<i64>, n: int) -> Seq<char>
    decreases n,
{
    if n <= 0 {
        Seq::empty()
    } else if n == 1 {
        slot_line_spec(slots[0], running.contains(slots[0].0))
    } else {
        slot_lines(slots, running, n - 1) + seq!['\n'] + slot_line_spec(
            slots[n - 1],
            running.contains(slots[n - 1].0),
        )
    }
}

/// The reply to `/slots`: each slot with its harness, whether it runs, and
/// its goal.
pub open spec fn slots_text_spec(slots: Seq<SlotView>, running: Seq<i64>) -> Seq<char> {
    "Slots:\n```text\n"@ + slot_lines(slots, running, slots.len() as int) + "\n```"@
}

fn contains_id(ids: &Vec<i64>, id: i64) -> (r: bool)
    ensures
        r == ids@.contains(id),
{
    let mut i: usize = 0;
    while i < ids.len()
        invariant
            i <= ids.len(),
            forall|j: int| 0 <= j < i ==> ids@[j] != id,
        decreases ids.len() - i,
    {
        if ids[i] == id {
            assert(ids@[i as int] == id);
            return true;
        }
        i += 1;
    }
    false
}

fn slot_line(slot: &AgentSlotRow, running: bool) -> (r: Vec<char>)
    ensures
        r@ == slot_line_spec(slot@, running),
{
    let mut out = chars_of(slot.name.as_str());
    extend_str(&mut out, " [");
    extend_str(&mut out, slot.harness.as_str());
    extend_str(&mut out, "]: ");
    extend_str(&mut out, if running { "running" } else { "idle" });
    let goal = trim_str(slot.goal.as_str());
    if goal.len() > 0 {
        extend_str(&mut out, " | goal: ");
        extend_str(&mut out, truncate_text(string_of(&goal).as_str(), 120).as_str());
    }
    out
}

/// The reply to `/slots`, given the slots and the ids of those running.
pub fn agent_slots_status_text(slots: &Vec<AgentSlotRow>, running: &Vec<i64>) -> (r: String)
    ensures
        r@ == slots_text_spec(slot_views(slots@), running@),
{
    let ghost sv = slot_views(slots@);
    let mut lines: Vec<char> = Vec::new();
    let mut i: usize = 0;
    while i < slots.len()
        invariant
            i <= slots.len(),
            sv == slot_views(slots@),
            lines@ == slot_lines(sv, running@, i as int),
        decreases slots.len() - i,
    {
        assert(sv[i as int] == slots@[i as int]@);
        if i > 0 {
            lines.push('\n');
        }
        let line = slot_line(&slots[i], contains_id(running, slots[i].id));
        extend_chars(&mut lines, &line);
        i += 1;
    }
    let mut out = chars_of("Slots:\n```text\n");
    extend_chars(&mut out, &lines);
    extend_str(&mut out, "\n```");
    string_of(&out)
}

/// A job that runs in a slot.
pub struct AgentRun {
    pub status: String,
    pub current: String,
    pub started_at: String,
}

/// What a slot is doing: the current step of its job, else the job's
/// status; `idle` without a job.
pub open spec fn runtime_label_spec(run: Option<(Seq<char>, Seq<char>)>) -> Seq<char> {
    match run {
        None => "idle"@,
        Some((status, current)) => if trim(current).len() == 0 {
            status
        } else {
            current
        },
    }
}

/// The status and current step of an optional job.
pub open spec fn run_view(run: Option<&AgentRun>) -> Option<(Seq<char>, Seq<char>)> {
    match run {
        None => None,
        Some(r) => Some((r.status@, r.current@)),
    }
}

/// What a slot is doing, given its job if it has one.
pub fn agent_slot_runtime(run: Option<&AgentRun>) -> (r: String)
    ensures
        r@ == runtime_label_spec(run_view(run)),
{
    match run {
        None => String::from_str("idle"),
        Some(job) => if trim_str(job.current.as_str()).len() == 0 {
            job.status.clone()
        } else {
            job.current.clone()
        },
    }
}

/// The reply to `/status`.
pub open spec fn status_text_spec(slot: SlotView, label: Seq<char>) -> Seq<char> {
    slot.1 + " is "@ + label + " using "@ + harness_display(slot.4) + "."@
}

/// The reply to `/status`, given what the slot is doing.
pub fn agent_status_text(slot: &AgentSlotRow, label: &str) -> (r: String)
    ensures
        r@ == status_text_spec(slot@, label@),
{
    let mut out = chars_of(slot.name.as_str());
    extend_str(&mut out, " is ");
    extend_str(&mut out, label);
    extend_str(&mut out, " using ");
    extend_str(&mut out, slot.harness.display_name());
    extend_str(&mut out, ".");
    string_of(&out)
}

/// The reply to `/fresh`.
pub open spec fn fresh_text_spec(slot: SlotView, stopped: bool) -> Seq<char> {
    slot.1 + " chat reset."@ + (if stopped {
        " Stopped the current job."@
    } else {
        Seq::empty()
    }) + " Your next message starts a new agent chat."@
}

/// The reply to `/fresh`, given whether a job was stopped.
pub fn agent_fresh_text(slot: &AgentSlotRow, stopped: bool) -> (r: String)
    ensures
        r@ == fresh_text_spec(slot@, stopped),
{
    let mut out = chars_of(slot.name.as_str());
    extend_str(&mut out, " chat reset.");
    if stopped {
        extend_str(&mut out, " Stopped the current job.");
    }
    extend_str(&mut out, " Your next message starts a new agent chat.");
    string_of(&out)
}

/// The reply to `/stop`, given whether a job was stopped.
pub fn agent_stop_text(stopped: bool) -> (r: &'static str)
    ensures
        r@ == if stopped {
            "Stop requested."@
        } else {
            "This slot is not running."@
        },
{
    if stopped {
        "Stop requested."
    } else {
        "This slot is not running."
    }
}

// ---------------------------------------------------------------------------
// The slot rail
// ---------------------------------------------------------------------------

/// What the page shows of a slot.
pub struct AgentSlotSummary {
    pub id: i64,
    pub name: String,
    pub running: bool,
    pub current: String,
    pub status: String,
    pub harness: AgentHarness,
}

/// Id, name, running, current step, status and harness of a summary.
pub type SummaryView = (i64, Seq<char>, bool, Seq<char>, Seq<char>, AgentHarness);

impl View for AgentSlotSummary {
    type V = SummaryView;

    open spec fn view(&self) -> SummaryView {
        (self.id, self.name@, self.running, self.current@, self.status@, self.harness)
    }
}

/// A slot's summary: with a job, running and labelled by what the job does;
/// otherwise idle.
pub open spec fn summary_spec(slot: SlotView, run: Option<(Seq<char>, Seq<char>)>) -> SummaryView {
    match run {
        Some(_) => {
            let label = runtime_label_spec(run);
            (slot.0, slot.1, true, label, label, slot.4)
        },
        None => (slot.0, slot.1, false, Seq::empty(), "idle"@, slot.4),
    }
}

/// A slot's summary, given its job if it has one.
pub fn agent_slot_summary(slot: &AgentSlotRow, run: Option<&AgentRun>) -> (r: AgentSlotSummary)
    ensures
        r@ == summary_spec(slot@, run_view(run)),
{
    match run {
        Some(_) => {
            let label = agent_slot_runtime(run);
            AgentSlotSummary {
                id: slot.id,
                name: slot.name.clone(),
                running: true,
                current: label.clone(),
                status: label,
                harness: slot.harness,
            }
        },
        None => AgentSlotSummary {
            id: slot.id,
            name: slot.name.clone(),
            running: false,
            current: String::new(),
            status: String::from_str("idle"),
            harness: slot.harness,
        },
    }
}

/// One row of the slot rail.
pub open spec fn rail_row_spec(s: SummaryView, active_id: i64) -> Seq<char> {
    "<div class=\"channel-row"@ + (if s.0 == active_id {
        " active"@
    } else {
        Seq::empty()
    }) + (if s.2 {
        " running"@
    } else {
        Seq::empty()
    }) + "\" data-slot-row data-slot-id=\""@ + int_decimal(s.0 as int)
        + "\" data-slot-running=\""@ + (if s.2 {
        "true"@
    } else {
        "false"@
    }) + "\"><a class=\"channel-link\" href=\"/agents?slot="@ + int_decimal(s.0 as int)
        + "\" aria-label=\"Open "@ + html_escape_spec(s.1) + "\"><strong>"@ + html_escape_spec(s.1)
        + "</strong><span data-slot-status>"@ + html_escape_spec(harness_str(s.5)) + " · "@
        + html_escape_spec(s.4)
        + "</span><span class=\"slot-badge\" data-slot-badge hidden></span></a></div>"@
}

/// The rows of the rail for the first `n` slots.
pub open spec fn rail_rows(slots: Seq<SlotView>, runs: Seq<Option<(Seq<char>, Seq<char>)>>, active_id: i64, n: int) -> Seq<char>
    decreases n,
{
    if n <= 0 {
        Seq::empty()
    } else {
        rail_rows(slots, runs, active_id, n - 1) + rail_row_spec(
            summary_spec(slots[n - 1], runs[n - 1]),
            active_id,
        )
    }
}

/// The views of optional jobs.
pub open spec fn run_views(runs: Seq<Option<AgentRun>>) -> Seq<Option<(Seq<char>, Seq<char>)>> {
    runs.map_values(|r: Option<AgentRun>| match r {
        None => None,
        Some(j) => Some((j.status@, j.current@)),
    })
}

/// The rail of slots, the active one marked.
pub open spec fn rail_spec(slots: Seq<SlotView>, runs: Seq<Option<(Seq<char>, Seq<char>)>>, active_id: i64) -> Seq<char> {
    "<aside class=\"channel-rail\" aria-label=\"Agent projects\"><div class=\"rail-title\">Projects</div><div class=\"channel-list\">"@
        + rail_rows(slots, runs, active_id, slots.len() as int) + "</div></aside>"@
}

fn rail_row(s: &AgentSlotSummary, active_id: i64) -> (r: Vec<char>)
    ensures
        r@ == rail_row_spec(s@, active_id),
{
    let mut out = chars_of("<div class=\"channel-row");
    if s.id == active_id {
        extend_str(&mut out, " active");
    }
    if s.running {
        extend_str(&mut out, " running");
    }
    extend_str(&mut out, "\" data-slot-row data-slot-id=\"");
    push_i64(&mut out, s.id);
    extend_str(&mut out, "\" data-slot-running=\"");
    extend_str(&mut out, if s.running { "true" } else { "false" });
    extend_str(&mut out, "\"><a class=\"channel-link\" href=\"/agents?slot=");
    push_i64(&mut out, s.id);
    extend_str(&mut out, "\" aria-label=\"Open ");
    let name = html_escape(s.name.as_str());
    extend_str(&mut out, name.as_str());
    extend_str(&mut out, "\"><strong>");
    extend_str(&mut out, name.as_str());
    extend_str(&mut out, "</strong><span data-slot-status>");
    extend_str(&mut out, html_escape(s.harness.as_str()).as_str());
    extend_str(&mut out, " · ");
    extend_str(&mut out, html_escape(s.status.as_str()).as_str());
    extend_str(&mut out, "</span><span class=\"slot-badge\" data-slot-badge hidden></span></a></div>");
    out
}

/// The rail of slots, given each slot's job where it has one and the id of
/// the open slot.
pub fn agent_slot_rail_html(slots: &Vec<AgentSlotRow>, runs: &Vec<Option<AgentRun>>, active_id: i64) -> (r: String)
    requires
        runs.len() == slots.len(),
    ensures
        r@ == rail_spec(slot_views(slots@), run_views(runs@), active_id),
{
    let ghost sv = slot_views(slots@);
    let ghost rv = run_views(runs@);
    let mut rows: Vec<char> = Vec::new();
    let mut i: usize = 0;
    while i < slots.len()
        invariant
            i <= slots.len(),
            runs.len() == slots.len(),
            sv == slot_views(slots@),
            rv == run_views(runs@),
            rows@ == rail_rows(sv, rv, active_id, i as int),
        decreases slots.len() - i,
    {
        assert(sv[i as int] == slots@[i as int]@);
        let run = match &runs[i] {
            Some(j) => Some(j),
            None => None,
        };
        assert(run_view(run) == rv[i as int]);
        let summary = agent_slot_summary(&slots[i], run);
        extend_chars(&mut rows, &rail_row(&summary, active_id));
        i += 1;
    }
    let mut out = chars_of(
        "<aside class=\"channel-rail\" aria-label=\"Agent projects\"><div class=\"rail-title\">Projects</div><div class=\"channel-list\">",
    );
    extend_chars(&mut out, &rows);
    extend_str(&mut out, "</div></aside>");
    string_of(&out)
}

} // verus!
