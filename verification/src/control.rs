//! The model and thinking level of a run, as asked and as passed to the harness.
use vstd::prelude::*;
use crate::harness::AgentHarness;
use crate::split::{join, join_chars, pieces};
use crate::shared::string_views;
use crate::text::{chars_eq, chars_eq_str, chars_of, char_is_ascii_alnum, extend_chars, extend_str, is_ascii_alnum, string_of, trim, trim_str};
use crate::types::{AgentRunSettings, AgentSlotRow, CodexModel};

verus! {

/// Characters allowed in a model name.
pub open spec fn model_char(c: char) -> bool {
    is_ascii_alnum(c) || c == '-' || c == '_' || c == '.' || c == '/' || c == ':'
}

/// Thinking levels that the harnesses take.
pub open spec fn known_effort(e: Seq<char>) -> bool {
    e == "off"@ || e == "minimal"@ || e == "low"@ || e == "medium"@ || e == "high"@ || e
        == "xhigh"@ || e == "max"@
}

/// The settings asked for a run: a trimmed model name of allowed characters,
/// a known thinking level; nothing for a harness that is not launched.
pub open spec fn requested_settings_spec(
    runnable: bool,
    model: Seq<char>,
    effort: Seq<char>,
) -> (Option<Seq<char>>, Option<Seq<char>>) {
    if !runnable {
        (None, None)
    } else {
        let m = trim(model);
        let e = trim(effort);
        (
            if m.len() > 0 && forall|i: int| 0 <= i < m.len() ==> model_char(#[trigger] m[i]) {
                Some(m)
            } else {
                None
            },
            if known_effort(e) {
                Some(e)
            } else {
                None
            },
        )
    }
}

/// Reads the model and thinking level asked in a form.
pub fn requested_agent_run_settings(
    slot: &AgentSlotRow,
    requested_model: &str,
    requested_reasoning_effort: &str,
) -> (r: AgentRunSettings)
    ensures
        r@ == requested_settings_spec(
            slot.harness != AgentHarness::LegacyCodex,
            requested_model@,
            requested_reasoning_effort@,
        ),
{
    if !slot.harness.is_runnable() {
        return AgentRunSettings { model: None, reasoning_effort: None };
    }
    let m = trim_str(requested_model);
    let mut ok = true;
    let mut i: usize = 0;
    while i < m.len()
        invariant
            i <= m.len(),
            ok == forall|k: int| 0 <= k < i ==> model_char(#[trigger] m@[k]),
        decreases m.len() - i,
    {
        let c = m[i];
        if !(char_is_ascii_alnum(c) || c == '-' || c == '_' || c == '.' || c == '/' || c == ':') {
            ok = false;
        }
        i += 1;
    }
    let model = if ok && m.len() > 0 {
        Some(string_of(&m))
    } else {
        None
    };
    let e = trim_str(requested_reasoning_effort);
    let known = chars_eq_str(&e, "off") || chars_eq_str(&e, "minimal") || chars_eq_str(&e, "low")
        || chars_eq_str(&e, "medium") || chars_eq_str(&e, "high") || chars_eq_str(&e, "xhigh")
        || chars_eq_str(&e, "max");
    let reasoning_effort = if known {
        Some(string_of(&e))
    } else {
        None
    };
    AgentRunSettings { model, reasoning_effort }
}

/// The index of the first catalog model with the given name.
pub open spec fn first_model(models: Seq<CodexModel>, name: Seq<char>) -> Option<int>
    decreases models.len(),
{
    if models.len() == 0 {
        None
    } else {
        match first_model(models.drop_last(), name) {
            Some(i) => Some(i),
            None => if models.last().model@ == name {
                Some(models.len() - 1)
            } else {
                None
            },
        }
    }
}

/// The settings that the catalog allows: the asked model where the catalog
/// has it, and the asked thinking level where that model supports it.
pub open spec fn validated_settings_spec(
    models: Seq<CodexModel>,
    model: Seq<char>,
    effort: Seq<char>,
) -> (Option<Seq<char>>, Option<Seq<char>>) {
    let m = trim(model);
    let e = trim(effort);
    match first_model(models, m) {
        None => (None, None),
        Some(i) => (
            Some(models[i].model@),
            if exists|k: int|
                0 <= k < models[i].supported_reasoning_efforts@.len()
                    && (#[trigger] models[i].supported_reasoning_efforts@[k]).effort@ == e {
                Some(e)
            } else {
                None
            },
        ),
    }
}

proof fn lemma_first_model(models: Seq<CodexModel>, name: Seq<char>)
    ensures
        first_model(models, name) matches Some(i) ==> 0 <= i < models.len() && models[i].model@
            == name,
    decreases models.len(),
{
    if models.len() > 0 {
        lemma_first_model(models.drop_last(), name);
    }
}

/// Keeps only the model and thinking level that the catalog offers.
pub fn validate_agent_run_settings(
    models: &Vec<CodexModel>,
    requested_model: &str,
    requested_reasoning_effort: &str,
) -> (r: AgentRunSettings)
    ensures
        r@ == validated_settings_spec(models@, requested_model@, requested_reasoning_effort@),
{
    let m = trim_str(requested_model);
    let e = trim_str(requested_reasoning_effort);
    let mut i: usize = 0;
    let mut hit = false;
    while i < models.len() && !hit
        invariant
            i <= models.len(),
            first_model(models@.take(i as int), m@) is None,
            hit ==> i < models.len() && models@[i as int].model@ == m@,
        decreases models.len() - i, if hit { 0int } else { 1int },
    {
        let name = chars_of(models[i].model.as_str());
        assert(models@.take(i + 1).drop_last() == models@.take(i as int));
        if chars_eq(&name, &m) {
            hit = true;
        } else {
            i += 1;
        }
    }
    proof {
        lemma_first_model(models@, m@);
    }
    if i == models.len() {
        assert(models@.take(i as int) == models@);
        return AgentRunSettings { model: None, reasoning_effort: None };
    }
    let model = &models[i];
    proof {
        assert(models@.take(i + 1).drop_last() == models@.take(i as int));
        assert(models@.take(i + 1).last() == models@[i as int]);
        assert(first_model(models@.take(i + 1), m@) == Some(i as int));
        lemma_first_model_prefix(models@, m@, i + 1);
    }
    let efforts = &model.supported_reasoning_efforts;
    let mut found = false;
    let mut k: usize = 0;
    while k < efforts.len()
        invariant
            k <= efforts.len(),
            found == exists|j: int| 0 <= j < k && (#[trigger] efforts@[j]).effort@ == e@,
        decreases efforts.len() - k,
    {
        let ev = chars_of(efforts[k].effort.as_str());
        if chars_eq(&ev, &e) {
            found = true;
        }
        k += 1;
    }
    AgentRunSettings {
        model: Some(model.model.clone()),
        reasoning_effort: if found {
            Some(string_of(&e))
        } else {
            None
        },
    }
}

proof fn lemma_first_model_prefix(models: Seq<CodexModel>, name: Seq<char>, n: int)
    requires
        0 <= n <= models.len(),
        first_model(models.take(n), name) is Some,
    ensures
        first_model(models, name) == first_model(models.take(n), name),
    decreases models.len() - n,
{
    if n < models.len() {
        assert(models.take(n) == models.drop_last().take(n));
        lemma_first_model_prefix(models.drop_last(), name, n);
    } else {
        assert(models.take(n) == models);
    }
}

/// The parts of a settings label.
pub open spec fn settings_parts(s: (Option<Seq<char>>, Option<Seq<char>>)) -> Seq<Seq<char>> {
    (match s.0 {
        Some(m) => seq!["model `"@ + m + "`"@],
        None => Seq::empty(),
    }) + (match s.1 {
        Some(e) => seq!["thinking `"@ + e + "`"@],
        None => Seq::empty(),
    })
}

/// ` (model `m`, thinking `e`)`, or nothing where no setting is given.
pub open spec fn settings_label_spec(s: (Option<Seq<char>>, Option<Seq<char>>)) -> Seq<char> {
    let p = settings_parts(s);
    if p.len() == 0 {
        Seq::empty()
    } else {
        " ("@ + join(p, ", "@) + ")"@
    }
}

/// Describes the settings of a run for its start message.
pub fn agent_run_settings_label(settings: &AgentRunSettings) -> (r: String)
    ensures
        r@ == settings_label_spec(settings@),
{
    let mut parts: Vec<Vec<char>> = Vec::new();
    if let Some(m) = &settings.model {
        let mut p = chars_of("model `");
        extend_str(&mut p, m.as_str());
        extend_str(&mut p, "`");
        parts.push(p);
    }
    if let Some(e) = &settings.reasoning_effort {
        let mut p = chars_of("thinking `");
        extend_str(&mut p, e.as_str());
        extend_str(&mut p, "`");
        parts.push(p);
    }
    assert(pieces(parts@) =~= settings_parts(settings@));
    if parts.len() == 0 {
        return String::new();
    }
    let sep = chars_of(", ");
    let j = join_chars(&parts, &sep);
    let mut out = chars_of(" (");
    extend_chars(&mut out, &j);
    extend_str(&mut out, ")");
    string_of(&out)
}

/// The command-line arguments that carry the settings to a harness.
pub open spec fn settings_args(
    s: (Option<Seq<char>>, Option<Seq<char>>),
    harness: AgentHarness,
) -> Seq<Seq<char>> {
    (match s.0 {
        Some(m) => seq!["--model"@, m],
        None => Seq::empty(),
    }) + (match s.1 {
        Some(e) => match harness {
            AgentHarness::Pi => seq!["--thinking"@, e],
            AgentHarness::OpenCode => seq!["--variant"@, e],
            AgentHarness::LegacyCodex => Seq::empty(),
        },
        None => Seq::empty(),
    })
}

/// Appends the settings of a run to a harness command line.
pub fn apply_agent_run_settings(
    args: &mut Vec<String>,
    settings: &AgentRunSettings,
    harness: AgentHarness,
)
    ensures
        string_views(final(args)@) == string_views(old(args)@) + settings_args(settings@, harness),
{
    let ghost start = string_views(args@);
    if let Some(model) = &settings.model {
        args.push(String::from_str("--model"));
        args.push(model.clone());
    }
    assert(string_views(args@) =~= start + (match settings@.0 {
        Some(m) => seq!["--model"@, m],
        None => Seq::<Seq<char>>::empty(),
    }));
    let ghost mid = string_views(args@);
    if let Some(effort) = &settings.reasoning_effort {
        match harness {
            AgentHarness::Pi => {
                args.push(String::from_str("--thinking"));
                args.push(effort.clone());
            },
            AgentHarness::OpenCode => {
                args.push(String::from_str("--variant"));
                args.push(effort.clone());
            },
            AgentHarness::LegacyCodex => {},
        }
    }
    assert(string_views(args@) =~= mid + (match settings@.1 {
        Some(e) => match harness {
            AgentHarness::Pi => seq!["--thinking"@, e],
            AgentHarness::OpenCode => seq!["--variant"@, e],
            AgentHarness::LegacyCodex => Seq::<Seq<char>>::empty(),
        },
        None => Seq::<Seq<char>>::empty(),
    }));
}

/// Run settings only take what the catalog offers: a model kept is one the
/// catalog lists, and a thinking level kept is one that model supports.
pub proof fn validated_settings_come_from_catalog(
    models: Seq<CodexModel>,
    model: Seq<char>,
    effort: Seq<char>,
)
    ensures
        validated_settings_spec(models, model, effort).0 matches Some(m) ==> exists|i: int|
            0 <= i < models.len() && (#[trigger] models[i]).model@ == m,
        validated_settings_spec(models, model, effort).1 matches Some(e) ==> exists|i: int, k: int|
            0 <= i < models.len() && 0 <= k < models[i].supported_reasoning_efforts@.len()
                && Some(models[i].model@) == validated_settings_spec(models, model, effort).0
                && (#[trigger] models[i].supported_reasoning_efforts@[k]).effort@ == e,
{
    lemma_first_model(models, trim(model));
    match first_model(models, trim(model)) {
        Some(i) => {
            assert(models[i].model@ == trim(model));
        },
        None => {},
    }
}

} // verus!
