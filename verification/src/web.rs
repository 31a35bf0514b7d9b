//! The decisions of the web handlers: what a posted message or project form
//! asks for, where the browser goes next, and the notes a slot posts.
use vstd::prelude::*;
use vstd::utf8::encode_utf8;
use crate::commands::control_request_ok;
use crate::composer::{
    agent_control_text, agent_location, byte_len, control_text_spec, eq_ignore_case,
    location_spec,
};
use crate::harness::{harness_display, harness_named, AgentHarness};
use crate::num::int_decimal;
use crate::text::{
    chars_contains_str, chars_eq, chars_of, contains, extend_str, lower, lower_chars, string_of,
    trim, trim_str,
};
use crate::types::{AgentMessageRow, AgentSlotRow, MessageView, SlotView};
use crate::views::{activity_kind_spec, agent_activity_kind};

verus! {

/// The longest message accepted, in bytes.
pub const MAX_AGENT_MESSAGE_BYTES: usize = 131072;

// ---------------------------------------------------------------------------
// A posted message
// ---------------------------------------------------------------------------

/// What a message posted to a slot asks for.
pub enum MessageRoute {
    /// No slot was named: answer 400 `agent slot is required`.
    MissingSlot,
    /// The Cancel button: stop the slot's job.
    Stop,
    /// A blank or too long message: go back to the slot.
    Ignore,
    /// Replace user message `message_id` with `body`, drop what followed it
    /// and the harness session, then handle `body` as a command or a prompt.
    Edit(i64, String),
    /// Record `body` as a user message and handle it as a slash command.
    Control(String),
    /// Record `body` and run it.
    Prompt(String),
}

/// The plan of a posted message, over character sequences.
pub enum MessagePlan {
    MissingSlot,
    Stop,
    Ignore,
    Edit(i64, Seq<char>),
    Control(Seq<char>),
    Prompt(Seq<char>),
}

impl View for MessageRoute {
    type V = MessagePlan;

    open spec fn view(&self) -> MessagePlan {
        match self {
            MessageRoute::MissingSlot => MessagePlan::MissingSlot,
            MessageRoute::Stop => MessagePlan::Stop,
            MessageRoute::Ignore => MessagePlan::Ignore,
            MessageRoute::Edit(id, b) => MessagePlan::Edit(*id, b@),
            MessageRoute::Control(b) => MessagePlan::Control(b@),
            MessageRoute::Prompt(b) => MessagePlan::Prompt(b@),
        }
    }
}

/// What a posted message asks for: a positive slot id is needed; the Cancel
/// button (`control` of `stop`, any ASCII case) stops the job; the trimmed
/// body must be non-empty and at most [`MAX_AGENT_MESSAGE_BYTES`] bytes; a
/// positive `edit_message_id` edits; a slash command is a command; anything
/// else is a prompt.
pub open spec fn message_route_spec(
    slot_id: Option<i64>,
    control: Seq<char>,
    body: Seq<char>,
    edit_message_id: Option<i64>,
) -> MessagePlan {
    let b = trim(body);
    if !(slot_id matches Some(id) && id > 0) {
        MessagePlan::MissingSlot
    } else if eq_ignore_case(trim(control), "stop"@) {
        MessagePlan::Stop
    } else if byte_len(b) > MAX_AGENT_MESSAGE_BYTES || b.len() == 0 {
        MessagePlan::Ignore
    } else if edit_message_id matches Some(m) && m > 0 {
        MessagePlan::Edit(edit_message_id.unwrap(), b)
    } else if control_text_spec(b) is Some {
        MessagePlan::Control(b)
    } else {
        MessagePlan::Prompt(b)
    }
}

fn byte_len_of(v: &Vec<char>) -> (n: u128)
    ensures
        n == byte_len(v@),
{
    let mut acc: u128 = 0;
    let mut k: usize = 0;
    while k < v.len()
        invariant
            k <= v.len(),
            acc == byte_len(v@.take(k as int)),
            acc <= 4 * k,
        decreases v.len() - k,
    {
        assert(v@.take(k + 1).drop_last() == v@.take(k as int));
        let u = v[k] as u32;
        let w: u128 = if u < 0x80 {
            1
        } else if u < 0x800 {
            2
        } else if u < 0x10000 {
            3
        } else {
            4
        };
        acc = acc + w;
        k += 1;
    }
    assert(v@.take(v.len() as int) == v@);
    acc
}

/// What a posted message asks for.
pub fn agent_message_route(
    slot_id: Option<i64>,
    control: &str,
    body: &str,
    edit_message_id: Option<i64>,
) -> (r: MessageRoute)
    ensures
        r@ == message_route_spec(slot_id, control@, body@, edit_message_id),
{
    match slot_id {
        Some(id) if id > 0 => {},
        _ => return MessageRoute::MissingSlot,
    }
    let c = trim_str(control);
    if c.len() == 4 && chars_eq(&lower_chars(&c), &chars_of("stop")) {
        proof {
            reveal_strlit("stop");
            assert(lower("stop"@) =~= "stop"@);
        }
        return MessageRoute::Stop;
    }
    proof {
        reveal_strlit("stop");
        assert(lower("stop"@) =~= "stop"@);
    }
    let b = trim_str(body);
    if byte_len_of(&b) > MAX_AGENT_MESSAGE_BYTES as u128 || b.len() == 0 {
        return MessageRoute::Ignore;
    }
    let text = string_of(&b);
    match edit_message_id {
        Some(m) if m > 0 => return MessageRoute::Edit(m, text),
        _ => {},
    }
    if agent_control_text(text.as_str()).is_some() {
        MessageRoute::Control(text)
    } else {
        MessageRoute::Prompt(text)
    }
}

/// The next step for a posted message, once the handler knows whether the
/// slot's job is running.
pub enum MessageAction {
    /// Answer 400 `agent slot is required`.
    Reject,
    /// Go back to the slot and do nothing else.
    Back,
    /// Stop the slot's job and say whether one was running.
    Stop,
    /// Say `Cancel the running job before editing.` and go back: the job
    /// keeps running and the history stays as it was.
    RefuseEdit,
    /// Where user message `message_id` exists: replace it with `body`,
    /// drop what followed it and the harness session, then handle `body` as
    /// a command, or else run it in the slot.
    Edit(i64, String),
    /// Record `body` and handle it as a slash command.
    Control(String),
    /// Record `body` in the slot and run it there.
    RunHere(String),
    /// Open a parallel lane beside the busy slot, record `body` there and
    /// run it in the lane; the running job is left alone.
    RunInNewLane(String),
}

/// The next step of a posted message, over character sequences.
pub enum ActionPlan {
    Reject,
    Back,
    Stop,
    RefuseEdit,
    Edit(i64, Seq<char>),
    Control(Seq<char>),
    RunHere(Seq<char>),
    RunInNewLane(Seq<char>),
}

impl View for MessageAction {
    type V = ActionPlan;

    open spec fn view(&self) -> ActionPlan {
        match self {
            MessageAction::Reject => ActionPlan::Reject,
            MessageAction::Back => ActionPlan::Back,
            MessageAction::Stop => ActionPlan::Stop,
            MessageAction::RefuseEdit => ActionPlan::RefuseEdit,
            MessageAction::Edit(id, b) => ActionPlan::Edit(*id, b@),
            MessageAction::Control(b) => ActionPlan::Control(b@),
            MessageAction::RunHere(b) => ActionPlan::RunHere(b@),
            MessageAction::RunInNewLane(b) => ActionPlan::RunInNewLane(b@),
        }
    }
}

/// The step that a message plan takes when the slot's job is, or is not,
/// `running`.
pub open spec fn message_action_spec(plan: MessagePlan, running: bool) -> ActionPlan {
    match plan {
        MessagePlan::MissingSlot => ActionPlan::Reject,
        MessagePlan::Ignore => ActionPlan::Back,
        MessagePlan::Stop => ActionPlan::Stop,
        MessagePlan::Edit(id, b) => if running {
            ActionPlan::RefuseEdit
        } else {
            ActionPlan::Edit(id, b)
        },
        MessagePlan::Control(b) => ActionPlan::Control(b),
        MessagePlan::Prompt(b) => if running {
            ActionPlan::RunInNewLane(b)
        } else {
            ActionPlan::RunHere(b)
        },
    }
}

/// Decides the next step of a posted message from its route and whether
/// the slot's job is running.
pub fn message_action(route: MessageRoute, running: bool) -> (r: MessageAction)
    ensures
        r@ == message_action_spec(route@, running),
{
    match route {
        MessageRoute::MissingSlot => MessageAction::Reject,
        MessageRoute::Ignore => MessageAction::Back,
        MessageRoute::Stop => MessageAction::Stop,
        MessageRoute::Edit(id, body) => if running {
            MessageAction::RefuseEdit
        } else {
            MessageAction::Edit(id, body)
        },
        MessageRoute::Control(body) => MessageAction::Control(body),
        MessageRoute::Prompt(body) => if running {
            MessageAction::RunInNewLane(body)
        } else {
            MessageAction::RunHere(body)
        },
    }
}

/// A busy slot is never rewritten and never given a second job: while its
/// job runs, an edit is refused and a prompt goes to a new lane; a prompt
/// runs in the slot itself only when it is idle.
pub proof fn busy_slot_keeps_its_job(plan: MessagePlan)
    ensures
        !(message_action_spec(plan, true) is Edit),
        !(message_action_spec(plan, true) is RunHere),
        !(message_action_spec(plan, false) is RefuseEdit),
        !(message_action_spec(plan, false) is RunInNewLane),
        plan is Edit ==> message_action_spec(plan, true) == ActionPlan::RefuseEdit,
{
}

/// What a slot says when an edit comes in while its job runs.
pub fn cancel_before_editing_text() -> (r: &'static str)
    ensures
        r@ == "Cancel the running job before editing."@,
{
    "Cancel the running job before editing."
}

/// What a busy slot says when a new prompt runs in a parallel lane.
pub open spec fn parallel_lane_text_spec(slot_name: Seq<char>, lane_name: Seq<char>) -> Seq<char> {
    slot_name + " is still running. Started this request in `"@ + lane_name
        + "` as a separate lane."@
}

/// What a busy slot says when a new prompt runs in a parallel lane.
pub fn parallel_lane_text(slot_name: &str, lane_name: &str) -> (r: String)
    ensures
        r@ == parallel_lane_text_spec(slot_name@, lane_name@),
{
    let mut out = chars_of(slot_name);
    extend_str(&mut out, " is still running. Started this request in `");
    extend_str(&mut out, lane_name);
    extend_str(&mut out, "` as a separate lane.");
    string_of(&out)
}

/// What a busy slot says when no parallel lane could be made.
pub open spec fn lane_failed_text_spec(err: Seq<char>) -> Seq<char> {
    "Could not start a separate lane for this request: "@ + err
        + ". The running lane was left unchanged."@
}

/// What a busy slot says when no parallel lane could be made.
pub fn lane_failed_text(err: &str) -> (r: String)
    ensures
        r@ == lane_failed_text_spec(err@),
{
    let mut out = chars_of("Could not start a separate lane for this request: ");
    extend_str(&mut out, err);
    extend_str(&mut out, ". The running lane was left unchanged.");
    string_of(&out)
}

// ---------------------------------------------------------------------------
// A new project
// ---------------------------------------------------------------------------

/// A byte that `application/x-www-form-urlencoded` keeps as it is.
pub open spec fn urlencode_keeps(b: u8) -> bool {
    b == 42 || b == 45 || b == 46 || b == 95 || (48 <= b <= 57) || (65 <= b <= 90) || (97 <= b
        <= 122)
}

/// The uppercase hexadecimal digit of a value below 16.
pub open spec fn upper_hex(n: int) -> char {
    if n < 10 {
        (n + 48) as char
    } else {
        (n + 55) as char
    }
}

/// How `form_urlencoded::byte_serialize` writes one byte: kept, `+` for a
/// space, else `%` and two uppercase hexadecimal digits.
pub open spec fn urlencode_byte(b: u8) -> Seq<char> {
    if urlencode_keeps(b) {
        seq![b as char]
    } else if b == 32 {
        seq!['+']
    } else {
        seq!['%', upper_hex(b as int / 16), upper_hex(b as int % 16)]
    }
}

/// `form_urlencoded::byte_serialize` of a byte string.
pub open spec fn urlencode_spec(bytes: Seq<u8>) -> Seq<char>
    decreases bytes.len(),
{
    if bytes.len() == 0 {
        Seq::empty()
    } else {
        urlencode_spec(bytes.drop_last()) + urlencode_byte(bytes.last())
    }
}

/// The UTF-8 bytes of `text` in `application/x-www-form-urlencoded` form,
/// through `url::form_urlencoded::byte_serialize`. The contract states the
/// crate's whole rule, from its source: `*-._`, digits and ASCII letters
/// stay, a space becomes `+`, every other byte `%XX` in uppercase.
#[verifier::external_body]
fn form_urlencode(text: &str) -> (r: String)
    ensures
        r@ == urlencode_spec(encode_utf8(text@)),
{
    url::form_urlencoded::byte_serialize(text.as_bytes()).collect()
}

/// Where the browser goes back to the project form with an error.
pub open spec fn project_form_location_spec(slot_id: Option<i64>, error: Seq<char>) -> Seq<char> {
    let l = location_spec(slot_id);
    l + seq![
        if contains(l, "?"@) {
            '&'
        } else {
            '?'
        },
    ] + "new_project=1&project_error="@ + urlencode_spec(encode_utf8(error))
}

/// Where the browser goes back to the project form with an error.
pub fn project_form_location(slot_id: Option<i64>, error: &str) -> (r: String)
    ensures
        r@ == project_form_location_spec(slot_id, error@),
{
    let l = agent_location(slot_id);
    let mut out = chars_of(l.as_str());
    if chars_contains_str(&out, "?") {
        out.push('&');
    } else {
        out.push('?');
    }
    extend_str(&mut out, "new_project=1&project_error=");
    extend_str(&mut out, form_urlencode(error).as_str());
    string_of(&out)
}

/// What a slot says when it opens without a first task.
pub open spec fn lane_ready_text_spec(slot: SlotView) -> Seq<char> {
    "`"@ + slot.1 + "` is ready in `"@ + slot.2 + "`."@
}

/// What a slot says when it opens without a first task.
pub fn lane_ready_text(slot: &AgentSlotRow) -> (r: String)
    ensures
        r@ == lane_ready_text_spec(slot@),
{
    let mut out = chars_of("`");
    extend_str(&mut out, slot.name.as_str());
    extend_str(&mut out, "` is ready in `");
    extend_str(&mut out, slot.workdir.as_str());
    extend_str(&mut out, "`.");
    string_of(&out)
}

// ---------------------------------------------------------------------------
// Stored slots
// ---------------------------------------------------------------------------

/// The harness of a stored slot: the one its name parses to, else the
/// legacy one.
pub open spec fn stored_harness_spec(text: Seq<char>) -> AgentHarness {
    match harness_named(text) {
        Some(h) => h,
        None => AgentHarness::LegacyCodex,
    }
}

/// The harness of a stored slot.
pub fn stored_harness(text: &str) -> (r: AgentHarness)
    ensures
        r == stored_harness_spec(text@),
{
    match AgentHarness::parse(text) {
        Some(h) => h,
        None => AgentHarness::LegacyCodex,
    }
}

/// What a slot says after a restart cut off its run: where its last message
/// was command activity, a note that the run ended early.
pub open spec fn interrupted_notice_spec(slot: SlotView, last: Option<MessageView>) -> Option<Seq<char>> {
    match last {
        Some(m) => if activity_kind_spec(m.1, m.2) is Some {
            Some(
                "Mobailmux restarted while `"@ + slot.1
                    + "` was running, so this local web transcript ended before "@
                    + harness_display(slot.4)
                    + " returned a final answer. Send a new message to continue from the saved harness session."@,
            )
        } else {
            None
        },
        None => None,
    }
}

/// What a slot says after a restart, given its last message.
pub fn interrupted_run_notice(slot: &AgentSlotRow, last: Option<&AgentMessageRow>) -> (r: Option<
    String,
>)
    ensures
        crate::types::opt_view(r) == interrupted_notice_spec(
            slot@,
            match last {
                Some(m) => Some(m@),
                None => None,
            },
        ),
{
    match last {
        None => None,
        Some(m) => if agent_activity_kind(m).is_some() {
            let mut out = chars_of("Mobailmux restarted while `");
            extend_str(&mut out, slot.name.as_str());
            extend_str(&mut out, "` was running, so this local web transcript ended before ");
            extend_str(&mut out, slot.harness.display_name());
            extend_str(
                &mut out,
                " returned a final answer. Send a new message to continue from the saved harness session.",
            );
            Some(string_of(&out))
        } else {
            None
        },
    }
}

/// The note after a restart is given once: once it is the slot's last
/// message, no second note follows.
pub proof fn restart_notice_given_once(slot: SlotView, last: Option<MessageView>, id: i64, created_at: Seq<char>)
    ensures
        interrupted_notice_spec(slot, last) matches Some(n) ==> interrupted_notice_spec(
            slot,
            Some((id, "assistant"@, n, created_at)),
        ) is None,
{
    if let Some(n) = interrupted_notice_spec(slot, last) {
        reveal_strlit("Mobailmux restarted while `");
        reveal_strlit(" returned a final answer. Send a new message to continue from the saved harness session.");
        reveal_strlit("running: `");
        reveal_strlit("command exit ");
        reveal_strlit("`.");
        let head = "Mobailmux restarted while `"@;
        let tail = " returned a final answer. Send a new message to continue from the saved harness session."@;
        assert(n[0] == head[0]);
        assert(n.last() == tail.last());
        assert(n[n.len() - 2] == tail[tail.len() - 2]);
        crate::text::lemma_trim_unchanged(n);
        assert(!crate::text::starts_with(n, "running: `"@)) by {
            assert(n[0] != "running: `"@[0]);
        }
        assert(!crate::text::starts_with(n, "command exit "@)) by {
            assert(n[0] != "command exit "@[0]);
        }
        assert(!crate::text::ends_with(n, "`."@)) by {
            assert(n[n.len() - 2] != "`."@[0]);
        }
    }
}

/// The harness a new project lane runs: the one asked for where it is
/// known and runnable, else the configured default.
pub open spec fn project_harness_spec(requested: Seq<char>, default: AgentHarness) -> AgentHarness {
    match harness_named(requested) {
        Some(x) => if x != AgentHarness::LegacyCodex {
            x
        } else {
            default
        },
        None => default,
    }
}

/// The harness a new project lane runs.
pub fn project_harness(requested: &str, default: AgentHarness) -> (h: AgentHarness)
    ensures
        h == project_harness_spec(requested@, default),
{
    match AgentHarness::parse(requested) {
        Some(x) => if x.is_runnable() {
            x
        } else {
            default
        },
        None => default,
    }
}

/// The first task of a new project lane: the trimmed text, refused with
/// its error where it runs past [`MAX_AGENT_MESSAGE_BYTES`] bytes of UTF-8.
pub open spec fn project_task_spec(body: Seq<char>) -> Result<Seq<char>, Seq<char>> {
    let b = trim(body);
    if byte_len(b) > MAX_AGENT_MESSAGE_BYTES {
        Err("The first message is too long."@)
    } else {
        Ok(b)
    }
}

/// The first task of a new project lane, or the error shown on the form.
pub fn project_first_task(body: &str) -> (r: Result<String, &'static str>)
    ensures
        match r {
            Ok(t) => project_task_spec(body@) == Ok::<Seq<char>, Seq<char>>(t@),
            Err(e) => project_task_spec(body@) == Err::<Seq<char>, Seq<char>>(e@),
        },
{
    let b = trim_str(body);
    if byte_len_of(&b) > MAX_AGENT_MESSAGE_BYTES as u128 {
        Err("The first message is too long.")
    } else {
        Ok(string_of(&b))
    }
}

} // verus!
