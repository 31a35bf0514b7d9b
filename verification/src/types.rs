//! Rows and settings shared by the agent features.
use vstd::prelude::*;
use crate::harness::AgentHarness;

verus! {

/// An agent slot as stored.
pub struct AgentSlotRow {
    pub id: i64,
    pub name: String,
    pub workdir: String,
    pub goal: String,
    pub harness: AgentHarness,
}

/// Id, name, working directory, goal and harness of a slot.
pub type SlotView = (i64, Seq<char>, Seq<char>, Seq<char>, AgentHarness);

impl View for AgentSlotRow {
    type V = SlotView;

    open spec fn view(&self) -> SlotView {
        (self.id, self.name@, self.workdir@, self.goal@, self.harness)
    }
}

/// The views of slots.
pub open spec fn slot_views(v: Seq<AgentSlotRow>) -> Seq<SlotView> {
    v.map_values(|s: AgentSlotRow| s@)
}

/// A message of a slot's transcript.
pub struct AgentMessageRow {
    pub id: i64,
    pub role: String,
    pub body: String,
    pub created_at: String,
}

/// Id, role, body and creation time of a message.
pub type MessageView = (i64, Seq<char>, Seq<char>, Seq<char>);

impl View for AgentMessageRow {
    type V = MessageView;

    open spec fn view(&self) -> MessageView {
        (self.id, self.role@, self.body@, self.created_at@)
    }
}

/// The views of a vector of messages.
pub open spec fn message_views(v: Seq<AgentMessageRow>) -> Seq<MessageView> {
    v.map_values(|m: AgentMessageRow| m@)
}

/// The model and thinking level asked for a run.
#[derive(Clone, Debug, Default, PartialEq, Eq)]
pub struct AgentRunSettings {
    pub model: Option<String>,
    pub reasoning_effort: Option<String>,
}

/// The view of an optional string.
pub open spec fn opt_view(o: Option<String>) -> Option<Seq<char>> {
    match o {
        Some(s) => Some(s@),
        None => None,
    }
}

impl View for AgentRunSettings {
    type V = (Option<Seq<char>>, Option<Seq<char>>);

    open spec fn view(&self) -> (Option<Seq<char>>, Option<Seq<char>>) {
        (opt_view(self.model), opt_view(self.reasoning_effort))
    }
}

/// A thinking level that a model supports.
pub struct CodexReasoningEffort {
    pub effort: String,
    pub description: String,
}

/// A model of the catalog.
pub struct CodexModel {
    pub model: String,
    pub display_name: String,
    pub description: String,
    pub default_reasoning_effort: String,
    pub supported_reasoning_efforts: Vec<CodexReasoningEffort>,
    pub is_default: bool,
}

} // verus!
