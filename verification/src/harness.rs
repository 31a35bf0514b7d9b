//! The agent harnesses that a slot can run.
use vstd::prelude::*;
use crate::text::{chars_eq_str, lower, lower_chars, trim, trim_str};

verus! {

/// The command-line agent behind a slot.
#[derive(Copy, Clone, Debug, PartialEq, Eq, Structural)]
pub enum AgentHarness {
    Pi,
    OpenCode,
    LegacyCodex,
}

impl Default for AgentHarness {
    fn default() -> (h: Self)
        ensures
            h == AgentHarness::Pi,
    {
        AgentHarness::Pi
    }
}

/// The harness that a configuration word names: trimmed, compared without
/// regard to ASCII case.
pub open spec fn harness_named(s: Seq<char>) -> Option<AgentHarness> {
    let k = lower(trim(s));
    if k == "pi"@ {
        Some(AgentHarness::Pi)
    } else if k == "opencode"@ {
        Some(AgentHarness::OpenCode)
    } else if k == "legacy-codex"@ || k == "codex"@ {
        Some(AgentHarness::LegacyCodex)
    } else {
        None
    }
}

/// The stored name of a harness.
pub open spec fn harness_str(h: AgentHarness) -> Seq<char> {
    match h {
        AgentHarness::Pi => "pi"@,
        AgentHarness::OpenCode => "opencode"@,
        AgentHarness::LegacyCodex => "legacy-codex"@,
    }
}

/// The name shown to people.
pub open spec fn harness_display(h: AgentHarness) -> Seq<char> {
    match h {
        AgentHarness::Pi => "Pi"@,
        AgentHarness::OpenCode => "OpenCode"@,
        AgentHarness::LegacyCodex => "Legacy Codex"@,
    }
}

impl AgentHarness {
    /// Reads a harness name; `codex` names the legacy harness.
    pub fn parse(value: &str) -> (r: Option<AgentHarness>)
        ensures
            r == harness_named(value@),
    {
        let t = trim_str(value);
        let k = lower_chars(&t);
        if chars_eq_str(&k, "pi") {
            Some(AgentHarness::Pi)
        } else if chars_eq_str(&k, "opencode") {
            Some(AgentHarness::OpenCode)
        } else if chars_eq_str(&k, "legacy-codex") || chars_eq_str(&k, "codex") {
            Some(AgentHarness::LegacyCodex)
        } else {
            None
        }
    }

    /// The stored name.
    pub fn as_str(self) -> (r: &'static str)
        ensures
            r@ == harness_str(self),
    {
        match self {
            AgentHarness::Pi => "pi",
            AgentHarness::OpenCode => "opencode",
            AgentHarness::LegacyCodex => "legacy-codex",
        }
    }

    /// The name shown to people.
    pub fn display_name(self) -> (r: &'static str)
        ensures
            r@ == harness_display(self),
    {
        match self {
            AgentHarness::Pi => "Pi",
            AgentHarness::OpenCode => "OpenCode",
            AgentHarness::LegacyCodex => "Legacy Codex",
        }
    }

    /// Whether the service launches this harness; the legacy one is read-only.
    pub fn is_runnable(self) -> (r: bool)
        ensures
            r == (self != AgentHarness::LegacyCodex),
    {
        !matches!(self, AgentHarness::LegacyCodex)
    }
}

/// A harness read back from its stored name is the same harness.
pub proof fn harness_name_round_trip(h: AgentHarness)
    ensures
        harness_named(harness_str(h)) == Some(h),
{
    reveal_strlit("pi");
    reveal_strlit("opencode");
    reveal_strlit("legacy-codex");
    reveal_strlit("codex");
    let s = harness_str(h);
    assert(!crate::text::is_ws(s[0]));
    assert(crate::text::trim_start(s) == s);
    assert(!crate::text::is_ws(s.last()));
    assert(crate::text::trim_end(s) == s);
    assert(lower(s) =~= s);
    if h == AgentHarness::Pi {
        assert(s != "opencode"@);
    }
}

} // verus!
