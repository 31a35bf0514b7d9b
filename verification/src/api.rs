//! What the Codex app server and saved sessions report about models,
//! usage, limits and reset credits, read from their JSON.
use vstd::prelude::*;
use crate::codex::{str_member, str_member_or};
use crate::json::{
    json_array_len, json_as_bool, json_as_i64, json_as_str, json_bool_value, json_element,
    json_element_text, json_i64_value, json_is_null, json_len, json_member, json_member_text,
    json_null_value, json_str_at, json_str_value, json_string, json_quote, opt_seq, str_views,
};
use crate::runtime::{shell_quote_spec, shell_single_quote};
use crate::shared::{string_views, Config};
use crate::split::{join, join_chars, pieces};
use crate::text::{chars_eq_str, chars_of, extend_chars, extend_str, string_of, trim, trim_chars, trim_str};
use crate::types::{opt_view, CodexModel, CodexReasoningEffort};

verus! {

pub(crate) fn member_str(text: &str, key: &str) -> (r: Option<String>)
    ensures
        opt_seq(r) == str_member(text@, key@),
{
    let path: [&str; 1] = [key];
    assert(str_views(path@) =~= seq![key@]);
    json_str_at(text, &path)
}

fn member_str_or(text: &str, first: &str, second: &str) -> (r: Option<String>)
    ensures
        opt_seq(r) == str_member_or(text@, first@, second@),
{
    match json_member(text, first) {
        Some(m) => json_as_str(m.as_str()),
        None => match json_member(text, second) {
            Some(m) => json_as_str(m.as_str()),
            None => None,
        },
    }
}

/// Member `first` where the object has it, else member `second`, as JSON
/// text (`get(first).or_else(|| get(second))`).
pub open spec fn member_or(text: Seq<char>, first: Seq<char>, second: Seq<char>) -> Option<Seq<char>> {
    match json_member_text(text, first) {
        Some(m) => Some(m),
        None => json_member_text(text, second),
    }
}

fn member_or_of(text: &str, first: &str, second: &str) -> (r: Option<String>)
    ensures
        opt_seq(r) == member_or(text@, first@, second@),
{
    match json_member(text, first) {
        Some(m) => Some(m),
        None => json_member(text, second),
    }
}

/// The integer of an optional JSON text.
pub open spec fn opt_i64(t: Option<Seq<char>>) -> Option<i64> {
    match t {
        Some(v) => json_i64_value(v),
        None => None,
    }
}

fn opt_i64_of(t: &Option<String>) -> (r: Option<i64>)
    ensures
        r == opt_i64(opt_seq(*t)),
{
    match t {
        Some(v) => json_as_i64(v.as_str()),
        None => None,
    }
}

/// Text or a default.
pub open spec fn or_default(o: Option<Seq<char>>, d: Seq<char>) -> Seq<char> {
    match o {
        Some(s) => s,
        None => d,
    }
}

// ---------------------------------------------------------------------------
// The model catalog
// ---------------------------------------------------------------------------

/// A thinking level: its name and description.
pub type EffortView = (Seq<char>, Seq<char>);

/// A model: name, shown name, description, default thinking level, the
/// levels it supports, and whether it is the default model.
pub type ModelView = (Seq<char>, Seq<char>, Seq<char>, Seq<char>, Seq<EffortView>, bool);

/// The views of thinking levels.
pub open spec fn effort_views(v: Seq<CodexReasoningEffort>) -> Seq<EffortView> {
    v.map_values(|e: CodexReasoningEffort| (e.effort@, e.description@))
}

/// The view of a model.
pub open spec fn model_view(m: CodexModel) -> ModelView {
    (
        m.model@,
        m.display_name@,
        m.description@,
        m.default_reasoning_effort@,
        effort_views(m.supported_reasoning_efforts@),
        m.is_default,
    )
}

/// The views of models.
pub open spec fn model_views(v: Seq<CodexModel>) -> Seq<ModelView> {
    v.map_values(|m: CodexModel| model_view(m))
}

/// A supported thinking level, from its JSON: a non-blank
/// `reasoningEffort`, trimmed, with its trimmed description (else empty).
pub open spec fn effort_of(option: Seq<char>) -> Option<EffortView> {
    match str_member(option, "reasoningEffort"@) {
        None => None,
        Some(e) => if trim(e).len() == 0 {
            None
        } else {
            Some((trim(e), trim(or_default(str_member(option, "description"@), Seq::empty()))))
        },
    }
}

/// The thinking levels among the first `n` elements of an array.
pub open spec fn efforts_prefix(list: Seq<char>, n: int) -> Seq<EffortView>
    decreases n,
{
    if n <= 0 {
        Seq::empty()
    } else {
        match json_element_text(list, n - 1) {
            Some(o) => match effort_of(o) {
                Some(e) => efforts_prefix(list, n - 1).push(e),
                None => efforts_prefix(list, n - 1),
            },
            None => efforts_prefix(list, n - 1),
        }
    }
}

/// The thinking levels of an optional JSON array; none where it is no array.
pub open spec fn efforts_of(list: Option<Seq<char>>) -> Seq<EffortView> {
    match list {
        None => Seq::empty(),
        Some(l) => match json_array_len(l) {
            None => Seq::empty(),
            Some(n) => efforts_prefix(l, n as int),
        },
    }
}

/// A model of the catalog, from its JSON: it needs a non-blank `model`
/// (else `id`); the shown name falls back to the model name, the other
/// texts to empty, and the default flag to false; all texts are trimmed.
pub open spec fn model_of(item: Seq<char>) -> Option<ModelView> {
    match str_member_or(item, "model"@, "id"@) {
        None => None,
        Some(raw) => {
            let model = trim(raw);
            if model.len() == 0 {
                None
            } else {
                Some(
                    (
                        model,
                        trim(or_default(str_member(item, "displayName"@), model)),
                        trim(or_default(str_member(item, "description"@), Seq::empty())),
                        trim(or_default(str_member(item, "defaultReasoningEffort"@), Seq::empty())),
                        efforts_of(json_member_text(item, "supportedReasoningEfforts"@)),
                        match json_member_text(item, "isDefault"@) {
                            Some(b) => match json_bool_value(b) {
                                Some(v) => v,
                                None => false,
                            },
                            None => false,
                        },
                    ),
                )
            }
        },
    }
}

/// The models among the first `n` elements of the catalog's `data`.
pub open spec fn models_prefix(data: Seq<char>, n: int) -> Seq<ModelView>
    decreases n,
{
    if n <= 0 {
        Seq::empty()
    } else {
        match json_element_text(data, n - 1) {
            Some(item) => match model_of(item) {
                Some(m) => models_prefix(data, n - 1).push(m),
                None => models_prefix(data, n - 1),
            },
            None => models_prefix(data, n - 1),
        }
    }
}

/// The models of a `model/list` result: the usable elements of its `data`
/// array, in order.
pub open spec fn models_spec(payload: Seq<char>) -> Seq<ModelView> {
    match json_member_text(payload, "data"@) {
        None => Seq::empty(),
        Some(d) => match json_array_len(d) {
            None => Seq::empty(),
            Some(n) => models_prefix(d, n as int),
        },
    }
}

fn trimmed(s: &str) -> (r: String)
    ensures
        r@ == trim(s@),
{
    string_of(&trim_str(s))
}

fn efforts_from(list: Option<String>) -> (r: Vec<CodexReasoningEffort>)
    ensures
        effort_views(r@) == efforts_of(opt_seq(list)),
{
    let l = match list {
        None => return Vec::new(),
        Some(l) => l,
    };
    let n = match json_len(l.as_str()) {
        None => return Vec::new(),
        Some(n) => n,
    };
    let mut out: Vec<CodexReasoningEffort> = Vec::new();
    let mut k: usize = 0;
    while k < n
        invariant
            k <= n,
            effort_views(out@) == efforts_prefix(l@, k as int),
        decreases n - k,
    {
        match json_element(l.as_str(), k) {
            Some(o) => match member_str(o.as_str(), "reasoningEffort") {
                Some(e) => {
                    let ev = trim_str(e.as_str());
                    if ev.len() > 0 {
                        let effort = string_of(&ev);
                        let d = match member_str(o.as_str(), "description") {
                            Some(d) => trimmed(d.as_str()),
                            None => String::new(),
                        };
                        let item = CodexReasoningEffort { effort, description: d };
                        let ghost before = effort_views(out@);
                        let ghost iv = (item.effort@, item.description@);
                        out.push(item);
                        assert(effort_views(out@) == before.push(iv));
                    }
                },
                None => {},
            },
            None => {},
        }
        k += 1;
    }
    out
}

fn model_from(item: &str) -> (r: Option<CodexModel>)
    ensures
        r matches Some(m) ==> model_of(item@) == Some(model_view(m)),
        r is None ==> model_of(item@) is None,
{
    let raw = match member_str_or(item, "model", "id") {
        None => return None,
        Some(raw) => raw,
    };
    let mv = trim_str(raw.as_str());
    if mv.len() == 0 {
        return None;
    }
    let model = string_of(&mv);
    let display_name = match member_str(item, "displayName") {
        Some(d) => trimmed(d.as_str()),
        None => trimmed(model.as_str()),
    };
    let description = match member_str(item, "description") {
        Some(d) => trimmed(d.as_str()),
        None => String::new(),
    };
    let default_reasoning_effort = match member_str(item, "defaultReasoningEffort") {
        Some(d) => trimmed(d.as_str()),
        None => String::new(),
    };
    let supported_reasoning_efforts = efforts_from(json_member(item, "supportedReasoningEfforts"));
    let is_default = match json_member(item, "isDefault") {
        Some(b) => match json_as_bool(b.as_str()) {
            Some(v) => v,
            None => false,
        },
        None => false,
    };
    proof {
        assert(trim(Seq::<char>::empty()) == Seq::<char>::empty());
    }
    Some(
        CodexModel {
            model,
            display_name,
            description,
            default_reasoning_effort,
            supported_reasoning_efforts,
            is_default,
        },
    )
}

/// The models of a `model/list` result, given as JSON text.
pub fn codex_models_from_payload(payload: &str) -> (r: Vec<CodexModel>)
    ensures
        model_views(r@) == models_spec(payload@),
{
    let d = match json_member(payload, "data") {
        None => return Vec::new(),
        Some(d) => d,
    };
    let n = match json_len(d.as_str()) {
        None => return Vec::new(),
        Some(n) => n,
    };
    let mut out: Vec<CodexModel> = Vec::new();
    let mut k: usize = 0;
    while k < n
        invariant
            k <= n,
            model_views(out@) == models_prefix(d@, k as int),
        decreases n - k,
    {
        match json_element(d.as_str(), k) {
            Some(item) => match model_from(item.as_str()) {
                Some(m) => {
                    let ghost before = model_views(out@);
                    let ghost mv = model_view(m);
                    out.push(m);
                    assert(model_views(out@) == before.push(mv));
                },
                None => {},
            },
            None => {},
        }
        k += 1;
    }
    out
}

// ---------------------------------------------------------------------------
// Usage and limits
// ---------------------------------------------------------------------------

/// Member `key` of an optional JSON object.
pub open spec fn member_in(t: Option<Seq<char>>, key: Seq<char>) -> Option<Seq<char>> {
    match t {
        Some(x) => json_member_text(x, key),
        None => None,
    }
}

fn member_in_of(t: &Option<String>, key: &str) -> (r: Option<String>)
    ensures
        opt_seq(r) == member_in(opt_seq(*t), key@),
{
    match t {
        Some(x) => json_member(x.as_str(), key),
        None => None,
    }
}

/// A rate-limit window.
pub struct CodexRateWindow {
    pub label: String,
    /// The JSON number reported as the used percentage, where there is one.
    pub used_percent: Option<String>,
    pub window_minutes: i64,
    pub resets_at: Option<i64>,
}

/// Label, used percentage (as JSON), length in minutes and reset time of a
/// window.
pub type WindowView = (Seq<char>, Option<Seq<char>>, i64, Option<i64>);

impl View for CodexRateWindow {
    type V = WindowView;

    open spec fn view(&self) -> WindowView {
        (self.label@, opt_view(self.used_percent), self.window_minutes, self.resets_at)
    }
}

/// A rate-limit window from its JSON, under either spelling of its fields;
/// the length defaults to 0.
pub open spec fn window_spec(label: Seq<char>, value: Option<Seq<char>>) -> Option<WindowView> {
    match value {
        None => None,
        Some(v) => Some(
            (
                label,
                member_or(v, "used_percent"@, "usedPercent"@),
                match opt_i64(member_or(v, "window_minutes"@, "windowDurationMins"@)) {
                    Some(m) => m,
                    None => 0,
                },
                opt_i64(member_or(v, "resets_at"@, "resetsAt"@)),
            ),
        ),
    }
}

/// A rate-limit window from its JSON, if reported.
pub fn codex_rate_window(label: &str, value: Option<&str>) -> (r: Option<CodexRateWindow>)
    ensures
        r matches Some(w) ==> window_spec(label@, crate::auth::opt_str(value)) == Some(w@),
        r is None ==> window_spec(label@, crate::auth::opt_str(value)) is None,
{
    let v = match value {
        None => return None,
        Some(v) => v,
    };
    let used_percent = member_or_of(v, "used_percent", "usedPercent");
    let window_minutes = match opt_i64_of(&member_or_of(v, "window_minutes", "windowDurationMins")) {
        Some(m) => m,
        None => 0,
    };
    let resets_at = opt_i64_of(&member_or_of(v, "resets_at", "resetsAt"));
    Some(CodexRateWindow { label: String::from_str(label), used_percent, window_minutes, resets_at })
}

/// The add-on credits reported: nothing for `null`, a string as it is, a
/// balance (or `unlimited`), else the JSON as written.
pub open spec fn credits_spec(value: Option<Seq<char>>) -> Option<Seq<char>> {
    match value {
        None => None,
        Some(v) => if json_null_value(v) {
            None
        } else {
            match json_str_value(v) {
                Some(t) => Some(t),
                None => match str_member(v, "balance"@) {
                    Some(b) => {
                        let unlimited = match json_member_text(v, "unlimited"@) {
                            Some(u) => json_bool_value(u) == Some(true),
                            None => false,
                        };
                        if unlimited {
                            Some("unlimited"@)
                        } else {
                            Some(b)
                        }
                    },
                    None => Some(v),
                },
            }
        },
    }
}

/// The add-on credits reported, from their JSON.
pub fn codex_credits_text(value: Option<&str>) -> (r: Option<String>)
    ensures
        opt_seq(r) == credits_spec(crate::auth::opt_str(value)),
{
    let v = match value {
        None => return None,
        Some(v) => v,
    };
    if json_is_null(v) {
        return None;
    }
    match json_as_str(v) {
        Some(t) => Some(t),
        None => match member_str(v, "balance") {
            Some(b) => {
                let unlimited = match json_member(v, "unlimited") {
                    Some(u) => match json_as_bool(u.as_str()) {
                        Some(x) => x,
                        None => false,
                    },
                    None => false,
                };
                if unlimited {
                    Some(String::from_str("unlimited"))
                } else {
                    Some(b)
                }
            },
            None => Some(String::from_str(v)),
        },
    }
}

/// A usage reset credit.
pub struct CodexResetCredit {
    pub title: String,
    pub expires_at: Option<i64>,
}

/// What the service has tracked locally of reset credits.
pub struct ResetCreditEstimate {
    pub tracked_available_count: i64,
    pub untracked_available_count: i64,
    pub next_expires_at: Option<String>,
}

/// The reset credits reported.
pub struct CodexResetCreditsSummary {
    pub available_count: i64,
    pub credits: Vec<CodexResetCredit>,
    pub estimate: Option<ResetCreditEstimate>,
}

/// Title and expiry of a credit.
pub type CreditView = (Seq<char>, Option<i64>);

/// The views of credits.
pub open spec fn credit_views(v: Seq<CodexResetCredit>) -> Seq<CreditView> {
    v.map_values(|c: CodexResetCredit| (c.title@, c.expires_at))
}

/// A credit that counts: one whose status is missing or `available`.
pub open spec fn credit_of(c: Seq<char>) -> Option<CreditView> {
    let status = str_member(c, "status"@);
    if status is None || status == Some("available"@) {
        Some(
            (
                or_default(str_member(c, "title"@), "Reset credit"@),
                opt_i64(member_or(c, "expiresAt"@, "expires_at"@)),
            ),
        )
    } else {
        None
    }
}

/// The counting credits among the first `n` elements of an array.
pub open spec fn credits_prefix(list: Seq<char>, n: int) -> Seq<CreditView>
    decreases n,
{
    if n <= 0 {
        Seq::empty()
    } else {
        match json_element_text(list, n - 1) {
            Some(c) => match credit_of(c) {
                Some(x) => credits_prefix(list, n - 1).push(x),
                None => credits_prefix(list, n - 1),
            },
            None => credits_prefix(list, n - 1),
        }
    }
}

/// The reset credits reported: none for `null` or without an available
/// count; else that count and the credits that count, with nothing tracked
/// locally yet.
pub open spec fn reset_summary_spec(value: Option<Seq<char>>) -> Option<ResetView> {
    match value {
        None => None,
        Some(v) => if json_null_value(v) {
            None
        } else {
            match opt_i64(member_or(v, "available_count"@, "availableCount"@)) {
                None => None,
                Some(count) => Some(
                    (
                        count,
                        match json_member_text(v, "credits"@) {
                            None => Seq::empty(),
                            Some(l) => match json_array_len(l) {
                                None => Seq::empty(),
                                Some(n) => credits_prefix(l, n as int),
                            },
                        },
                        None,
                    ),
                ),
            }
        },
    }
}

/// Tracked, untracked and next expiry of an estimate.
pub type EstimateView = (i64, i64, Option<Seq<char>>);

/// The view of an optional estimate.
pub open spec fn estimate_opt(e: Option<ResetCreditEstimate>) -> Option<EstimateView> {
    match e {
        Some(x) => Some((x.tracked_available_count, x.untracked_available_count, opt_view(x.next_expires_at))),
        None => None,
    }
}

/// Count, credits and local estimate of a summary.
pub type ResetView = (i64, Seq<CreditView>, Option<EstimateView>);

/// The view of a summary.
pub open spec fn reset_view(s: CodexResetCreditsSummary) -> ResetView {
    (s.available_count, credit_views(s.credits@), estimate_opt(s.estimate))
}

/// The reset credits reported, from their JSON; nothing is tracked yet.
pub fn codex_reset_credits_summary(value: Option<&str>) -> (r: Option<CodexResetCreditsSummary>)
    ensures
        r matches Some(s) ==> reset_summary_spec(crate::auth::opt_str(value)) == Some(reset_view(s)),
        r is None ==> reset_summary_spec(crate::auth::opt_str(value)) is None,
{
    let v = match value {
        None => return None,
        Some(v) => v,
    };
    if json_is_null(v) {
        return None;
    }
    let available_count = match opt_i64_of(&member_or_of(v, "available_count", "availableCount")) {
        None => return None,
        Some(c) => c,
    };
    let mut credits: Vec<CodexResetCredit> = Vec::new();
    match json_member(v, "credits") {
        None => {},
        Some(l) => match json_len(l.as_str()) {
            None => {},
            Some(n) => {
                let mut k: usize = 0;
                while k < n
                    invariant
                        k <= n,
                        credit_views(credits@) == credits_prefix(l@, k as int),
                    decreases n - k,
                {
                    match json_element(l.as_str(), k) {
                        Some(c) => {
                            let status = member_str(c.as_str(), "status");
                            let counts = match &status {
                                None => true,
                                Some(st) => chars_eq_str(&chars_of(st.as_str()), "available"),
                            };
                            if counts {
                                let title = match member_str(c.as_str(), "title") {
                                    Some(t) => t,
                                    None => String::from_str("Reset credit"),
                                };
                                let expires_at = opt_i64_of(&member_or_of(c.as_str(), "expiresAt", "expires_at"));
                                let credit = CodexResetCredit { title, expires_at };
                                let ghost before = credit_views(credits@);
                                let ghost cv = (credit.title@, credit.expires_at);
                                credits.push(credit);
                                assert(credit_views(credits@) == before.push(cv));
                            }
                        },
                        None => {},
                    }
                    k += 1;
                }
            },
        },
    }
    Some(CodexResetCreditsSummary { available_count, credits, estimate: None })
}

/// What a saved usage event or the app server reports.
pub struct CodexUsageSnapshot {
    pub observed_at: String,
    pub plan_type: String,
    pub total_units: i64,
    pub last_units: i64,
    pub cached_input_units: i64,
    pub context_window: i64,
    pub primary: Option<CodexRateWindow>,
    pub secondary: Option<CodexRateWindow>,
    pub credits: Option<String>,
    pub reset_credits: Option<CodexResetCreditsSummary>,
}

/// The view of an optional window.
pub open spec fn window_opt(w: Option<CodexRateWindow>) -> Option<WindowView> {
    match w {
        Some(x) => Some(x@),
        None => None,
    }
}

/// The view of an optional reset summary.
pub open spec fn reset_opt(s: Option<CodexResetCreditsSummary>) -> Option<ResetView> {
    match s {
        Some(x) => Some(reset_view(x)),
        None => None,
    }
}

/// Observation time, plan, token counts, windows, credits and reset credits
/// of a snapshot.
pub type UsageView = (
    Seq<char>,
    Seq<char>,
    (i64, i64, i64, i64),
    Option<WindowView>,
    Option<WindowView>,
    Option<Seq<char>>,
    Option<ResetView>,
);

/// The view of a snapshot.
pub open spec fn usage_view(u: CodexUsageSnapshot) -> UsageView {
    (
        u.observed_at@,
        u.plan_type@,
        (u.total_units, u.last_units, u.cached_input_units, u.context_window),
        window_opt(u.primary),
        window_opt(u.secondary),
        opt_view(u.credits),
        reset_opt(u.reset_credits),
    )
}

/// An integer at `key` of an optional object, 0 where missing.
pub open spec fn count_at(t: Option<Seq<char>>, key: Seq<char>) -> i64 {
    match opt_i64(member_in(t, key)) {
        Some(n) => n,
        None => 0,
    }
}

fn count_at_of(t: &Option<String>, key: &str) -> (r: i64)
    ensures
        r == count_at(opt_seq(*t), key@),
{
    match opt_i64_of(&member_in_of(t, key)) {
        Some(n) => n,
        None => 0,
    }
}

/// What a `token_count` event reports, observed at `observed_at`: the plan
/// (else `unknown`), total, last-turn and cached-input tokens, the context
/// window (each 0 where missing), both rate-limit windows, add-on credits,
/// and reset credits (looked for under four keys).
pub open spec fn usage_spec(observed_at: Seq<char>, payload: Seq<char>) -> UsageView {
    let info = json_member_text(payload, "info"@);
    let rl = json_member_text(payload, "rate_limits"@);
    let total = member_in(info, "total_token_usage"@);
    let last = member_in(info, "last_token_usage"@);
    let resets = match member_in(rl, "rate_limit_reset_credits"@) {
        Some(x) => Some(x),
        None => match member_in(rl, "rateLimitResetCredits"@) {
            Some(x) => Some(x),
            None => member_or(payload, "rate_limit_reset_credits"@, "rateLimitResetCredits"@),
        },
    };
    (
        observed_at,
        or_default(
            match member_in(rl, "plan_type"@) {
                Some(p) => json_str_value(p),
                None => None,
            },
            "unknown"@,
        ),
        (
            count_at(total, "total_tokens"@),
            count_at(last, "total_tokens"@),
            count_at(total, "cached_input_tokens"@),
            count_at(info, "model_context_window"@),
        ),
        window_spec("Primary"@, member_in(rl, "primary"@)),
        window_spec("Secondary"@, member_in(rl, "secondary"@)),
        credits_spec(member_in(rl, "credits"@)),
        reset_summary_spec(resets),
    )
}

fn opt_as_str(o: &Option<String>) -> (r: Option<&str>)
    ensures
        crate::auth::opt_str(r) == opt_seq(*o),
{
    match o {
        Some(s) => Some(s.as_str()),
        None => None,
    }
}

/// What a `token_count` event reports, given its payload as JSON text.
pub fn codex_usage_from_payload(observed_at: &str, payload: &str) -> (r: CodexUsageSnapshot)
    ensures
        usage_view(r) == usage_spec(observed_at@, payload@),
{
    let info = json_member(payload, "info");
    let rl = json_member(payload, "rate_limits");
    let total = member_in_of(&info, "total_token_usage");
    let last = member_in_of(&info, "last_token_usage");
    let resets = match member_in_of(&rl, "rate_limit_reset_credits") {
        Some(x) => Some(x),
        None => match member_in_of(&rl, "rateLimitResetCredits") {
            Some(x) => Some(x),
            None => member_or_of(payload, "rate_limit_reset_credits", "rateLimitResetCredits"),
        },
    };
    let plan_type = match member_in_of(&rl, "plan_type") {
        Some(p) => match json_as_str(p.as_str()) {
            Some(t) => t,
            None => String::from_str("unknown"),
        },
        None => String::from_str("unknown"),
    };
    let primary_json = member_in_of(&rl, "primary");
    let secondary_json = member_in_of(&rl, "secondary");
    let credits_json = member_in_of(&rl, "credits");
    CodexUsageSnapshot {
        observed_at: String::from_str(observed_at),
        plan_type,
        total_units: count_at_of(&total, "total_tokens"),
        last_units: count_at_of(&last, "total_tokens"),
        cached_input_units: count_at_of(&total, "cached_input_tokens"),
        context_window: count_at_of(&info, "model_context_window"),
        primary: codex_rate_window("Primary", opt_as_str(&primary_json)),
        secondary: codex_rate_window("Secondary", opt_as_str(&secondary_json)),
        credits: codex_credits_text(opt_as_str(&credits_json)),
        reset_credits: codex_reset_credits_summary(opt_as_str(&resets)),
    }
}

/// The first of two optional values that is present.
pub open spec fn or_opt<A>(a: Option<A>, b: Option<A>) -> Option<A> {
    match a {
        Some(x) => Some(x),
        None => b,
    }
}

/// A snapshot with what the app server's rate-limit answer `result`
/// reports laid over it, observed at `now`: a new snapshot where there was
/// none; each window, the credits and the reset credits replaced where
/// reported; the plan replaced where named.
pub open spec fn merge_spec(usage: Option<UsageView>, result: Option<Seq<char>>, now: Seq<char>) -> Option<UsageView> {
    match result {
        None => usage,
        Some(r) => {
            let rl = member_or(r, "rateLimits"@, "rate_limits"@);
            let base = match usage {
                Some(u) => u,
                None => (now, "unknown"@, (0i64, 0i64, 0i64, 0i64), None, None, None, None),
            };
            let plan = match rl {
                Some(x) => str_member_or(x, "planType"@, "plan_type"@),
                None => None,
            };
            Some(
                (
                    now,
                    or_default(plan, base.1),
                    base.2,
                    or_opt(window_spec("Primary"@, member_in(rl, "primary"@)), base.3),
                    or_opt(window_spec("Secondary"@, member_in(rl, "secondary"@)), base.4),
                    or_opt(credits_spec(member_in(rl, "credits"@)), base.5),
                    or_opt(
                        reset_summary_spec(
                            member_or(r, "rateLimitResetCredits"@, "rate_limit_reset_credits"@),
                        ),
                        base.6,
                    ),
                ),
            )
        },
    }
}

/// The app server's answer fills each window from its own member: the
/// primary window from `rateLimits.primary` and the secondary one from
/// `rateLimits.secondary` (or the `rate_limits` spelling), each read as a
/// `token_count` event's window is; a window the answer does not report is
/// kept from the earlier snapshot.
pub proof fn merged_windows_come_from_their_members(
    usage: Option<UsageView>,
    result: Seq<char>,
    now: Seq<char>,
    limits: Seq<char>,
)
    requires
        json_member_text(result, "rateLimits"@) == Some(limits) || (json_member_text(
            result,
            "rateLimits"@,
        ) is None && json_member_text(result, "rate_limits"@) == Some(limits)),
    ensures
        merge_spec(usage, Some(result), now) is Some,
        ({
            let m = merge_spec(usage, Some(result), now).unwrap();
            &&& json_member_text(limits, "primary"@) is Some ==> m.3 == window_spec(
                "Primary"@,
                json_member_text(limits, "primary"@),
            )
            &&& json_member_text(limits, "secondary"@) is Some ==> m.4 == window_spec(
                "Secondary"@,
                json_member_text(limits, "secondary"@),
            )
            &&& json_member_text(limits, "primary"@) is None && usage is Some ==> m.3
                == usage.unwrap().3
            &&& json_member_text(limits, "secondary"@) is None && usage is Some ==> m.4
                == usage.unwrap().4
            &&& m.0 == now
        }),
{
}

/// The view of an optional snapshot.
pub open spec fn usage_opt(u: Option<CodexUsageSnapshot>) -> Option<UsageView> {
    match u {
        Some(x) => Some(usage_view(x)),
        None => None,
    }
}

/// Lays the app server's rate-limit answer (JSON text) over a snapshot,
/// observed at `now` (RFC 3339).
pub fn merge_codex_rate_limit_status(
    usage: Option<CodexUsageSnapshot>,
    result: Option<&str>,
    now: &str,
) -> (r: Option<CodexUsageSnapshot>)
    ensures
        usage_opt(r) == merge_spec(usage_opt(usage), crate::auth::opt_str(result), now@),
{
    let res = match result {
        None => return usage,
        Some(x) => x,
    };
    let rl = member_or_of(res, "rateLimits", "rate_limits");
    let mut u = match usage {
        Some(u) => u,
        None => CodexUsageSnapshot {
            observed_at: String::from_str(now),
            plan_type: String::from_str("unknown"),
            total_units: 0,
            last_units: 0,
            cached_input_units: 0,
            context_window: 0,
            primary: None,
            secondary: None,
            credits: None,
            reset_credits: None,
        },
    };
    u.observed_at = String::from_str(now);
    let plan = match &rl {
        Some(x) => member_str_or(x.as_str(), "planType", "plan_type"),
        None => None,
    };
    match plan {
        Some(p) => {
            u.plan_type = p;
        },
        None => {},
    }
    let primary_json = member_in_of(&rl, "primary");
    match codex_rate_window("Primary", opt_as_str(&primary_json)) {
        Some(w) => {
            u.primary = Some(w);
        },
        None => {},
    }
    let secondary_json = member_in_of(&rl, "secondary");
    match codex_rate_window("Secondary", opt_as_str(&secondary_json)) {
        Some(w) => {
            u.secondary = Some(w);
        },
        None => {},
    }
    let credits_json = member_in_of(&rl, "credits");
    match codex_credits_text(opt_as_str(&credits_json)) {
        Some(c) => {
            u.credits = Some(c);
        },
        None => {},
    }
    let resets = member_or_of(res, "rateLimitResetCredits", "rate_limit_reset_credits");
    match codex_reset_credits_summary(opt_as_str(&resets)) {
        Some(s) => {
            u.reset_credits = Some(s);
        },
        None => {},
    }
    Some(u)
}

} // verus!
