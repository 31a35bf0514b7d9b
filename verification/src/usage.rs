//! Codex usage as shown to people: reset windows, reset credits, and what a
//! request to use a reset credit is answered.
use vstd::prelude::*;
use crate::api::{
    credit_views, estimate_opt, reset_view, usage_view, window_opt, CodexRateWindow,
    CodexResetCreditsSummary, CodexUsageSnapshot, CreditView, EstimateView, ResetView, UsageView,
    WindowView,
};
use crate::harness::AgentHarness;
use crate::shared::{agent_command_label, command_label_spec, format_number, number_spec, Config};
use crate::split::join as join_lines;
use crate::time::{epoch_rfc3339, epoch_to_rfc3339};
use crate::html::{html_escape, html_escape_spec};
use crate::num::{int_decimal, push_i64};
use crate::shared::{
    truncate_spec, truncate_text, usage_window_duration, window_duration_spec,
};
use crate::split::{join, join_chars, pieces};
use crate::text::{chars_eq_str, chars_of, extend_chars, extend_str, string_of, trim, trim_str};
use crate::time::{
    epoch_date_spec, format_epoch_date_at, short_time_at, short_time_spec, utc_now_seconds,
};

verus! {

/// The reset time of a window against `now`: its date where reported, else
/// `unknown`.
pub open spec fn window_reset_spec(resets_at: Option<i64>, now: i64) -> Seq<char> {
    match resets_at {
        Some(t) => epoch_date_spec(t, now),
        None => "unknown"@,
    }
}

/// The reset line of a window against `now`; where the window is not
/// reported, its fallback label says so.
pub open spec fn reset_line_spec(fallback_label: Seq<char>, window: Option<WindowView>, now: i64) -> Seq<char> {
    match window {
        None => "<span>"@ + fallback_label + ": not reported</span>"@,
        Some(w) => "<span>"@ + html_escape_spec(w.0) + ": "@ + html_escape_spec(
            window_duration_spec(w.2 as int),
        ) + " window resets "@ + html_escape_spec(window_reset_spec(w.3, now)) + "</span>"@,
    }
}

/// The view of an optional window reference.
pub open spec fn window_ref(w: Option<&CodexRateWindow>) -> Option<WindowView> {
    match w {
        Some(x) => Some(x@),
        None => None,
    }
}

/// The reset line of a window against `now` (seconds since the epoch).
pub fn usage_reset_line_at(fallback_label: &str, window: Option<&CodexRateWindow>, now: i64) -> (r:
    String)
    requires
        -0x1000_0000_0000 < now < 0x1000_0000_0000,
    ensures
        r@ == reset_line_spec(fallback_label@, window_ref(window), now),
{
    match window {
        None => {
            let mut out = chars_of("<span>");
            extend_str(&mut out, fallback_label);
            extend_str(&mut out, ": not reported</span>");
            string_of(&out)
        },
        Some(w) => {
            let reset = match w.resets_at {
                Some(t) => format_epoch_date_at(t, now),
                None => String::from_str("unknown"),
            };
            let mut out = chars_of("<span>");
            extend_str(&mut out, html_escape(w.label.as_str()).as_str());
            extend_str(&mut out, ": ");
            extend_str(&mut out, html_escape(usage_window_duration(w.window_minutes).as_str()).as_str());
            extend_str(&mut out, " window resets ");
            extend_str(&mut out, html_escape(reset.as_str()).as_str());
            extend_str(&mut out, "</span>");
            string_of(&out)
        },
    }
}

/// The reset line of a window, against the current time.
pub fn usage_reset_line(fallback_label: &str, window: Option<&CodexRateWindow>) -> (r: String)
    ensures
        exists|now: i64|
            -0x1000_0000_0000 < now < 0x1000_0000_0000 && r@ == #[trigger] reset_line_spec(
                fallback_label@,
                window_ref(window),
                now,
            ),
{
    let now = utc_now_seconds();
    usage_reset_line_at(fallback_label, window, now)
}

/// `credit` or `credits`, after a count.
pub open spec fn credit_word(count: i64) -> Seq<char> {
    if count == 1 {
        "credit"@
    } else {
        "credits"@
    }
}

/// One reset credit, numbered from 1, with its expiry against `now`.
pub open spec fn credit_part(index: int, c: CreditView, now: i64) -> Seq<char> {
    int_decimal(index) + seq![' '] + c.0 + " · expires "@ + match c.1 {
        Some(t) => epoch_date_spec(t, now),
        None => "expiry unknown"@,
    }
}

/// The parts for the first `n` credits.
pub open spec fn credit_parts(credits: Seq<CreditView>, n: int, now: i64) -> Seq<Seq<char>>
    decreases n,
{
    if n <= 0 {
        Seq::empty()
    } else {
        credit_parts(credits, n - 1, now).push(credit_part(n, credits[n - 1], now))
    }
}

/// What the local tracking of credits adds where Codex lists none.
pub open spec fn estimate_parts(e: EstimateView, now: i64) -> Seq<Seq<char>> {
    let known = if e.0 > 0 {
        seq![
            int_decimal(e.0 as int) + seq![' '] + (if e.0 == 1 {
                "tracked credit"@
            } else {
                "tracked credits"@
            }) + match e.2 {
                Some(n) => " · next expires "@ + short_time_spec(n, now),
                None => Seq::empty(),
            },
        ]
    } else {
        Seq::empty()
    };
    let unknown_count = if e.1 > 0 {
        seq![
            int_decimal(e.1 as int) + seq![' '] + (if e.1 == 1 {
                "existing credit"@
            } else {
                "existing credits"@
            }) + " from before tracking; expiry unknown"@,
        ]
    } else {
        Seq::empty()
    };
    let none = if e.0 == 0 && e.1 == 0 {
        seq!["tracking future grants"@]
    } else {
        Seq::empty()
    };
    known + unknown_count + none
}

/// The reset credits in words against `now`: how many are available, then
/// each listed credit with its expiry, or else what local tracking knows.
pub open spec fn reset_credit_text_spec(credits: Option<ResetView>, now: i64) -> Seq<char> {
    match credits {
        None => "not reported by Codex"@,
        Some(s) => {
            let head = int_decimal(s.0 as int) + seq![' '] + credit_word(s.0) + " available"@;
            match s.2 {
                None => head + " · local expiry tracking not initialized yet"@,
                Some(e) => if s.1.len() > 0 {
                    join(seq![head] + credit_parts(s.1, s.1.len() as int, now), " · "@)
                } else {
                    join(seq![head] + estimate_parts(e, now), " · "@)
                },
            }
        },
    }
}

/// The view of an optional summary reference.
pub open spec fn summary_ref(s: Option<&CodexResetCreditsSummary>) -> Option<ResetView> {
    match s {
        Some(x) => Some(reset_view(*x)),
        None => None,
    }
}

fn push_part(parts: &mut Vec<Vec<char>>, part: Vec<char>)
    ensures
        pieces(final(parts)@) == pieces(old(parts)@).push(part@),
{
    parts.push(part);
}

/// The reset credits in words, against `now` (seconds since the epoch).
pub fn codex_reset_credit_text_at(credits: Option<&CodexResetCreditsSummary>, now: i64) -> (r: String)
    requires
        -0x1000_0000_0000 < now < 0x1000_0000_0000,
    ensures
        r@ == reset_credit_text_spec(summary_ref(credits), now),
{
    let s = match credits {
        None => return String::from_str("not reported by Codex"),
        Some(s) => s,
    };
    let mut head: Vec<char> = Vec::new();
    push_i64(&mut head, s.available_count);
    head.push(' ');
    extend_str(&mut head, if s.available_count == 1 { "credit" } else { "credits" });
    extend_str(&mut head, " available");
    let e = match &s.estimate {
        None => {
            extend_str(&mut head, " · local expiry tracking not initialized yet");
            return string_of(&head);
        },
        Some(e) => e,
    };
    let ghost cv = credit_views(s.credits@);
    let mut parts: Vec<Vec<char>> = Vec::new();
    let ghost head_view = head@;
    assert(head_view == int_decimal(s.available_count as int) + seq![' '] + credit_word(
        s.available_count,
    ) + " available"@);
    push_part(&mut parts, head);
    let ghost first = pieces(parts@);
    assert(first =~= seq![head_view]);
    if s.credits.len() > 0 {
        let mut i: usize = 0;
        while i < s.credits.len()
            invariant
                i <= s.credits.len(),
                cv == credit_views(s.credits@),
                -0x1000_0000_0000 < now < 0x1000_0000_0000,
                pieces(parts@) == first + credit_parts(cv, i as int, now),
            decreases s.credits.len() - i,
        {
            let c = &s.credits[i];
            assert(cv[i as int] == (c.title@, c.expires_at));
            let mut p: Vec<char> = Vec::new();
            crate::num::push_decimal(&mut p, (i + 1) as u64);
            assert(int_decimal((i + 1) as int) == crate::num::nat_decimal((i + 1) as nat));
            p.push(' ');
            extend_str(&mut p, c.title.as_str());
            extend_str(&mut p, " · expires ");
            match c.expires_at {
                Some(t) => extend_str(&mut p, format_epoch_date_at(t, now).as_str()),
                None => extend_str(&mut p, "expiry unknown"),
            }
            let ghost before = pieces(parts@);
            push_part(&mut parts, p);
            assert(credit_parts(cv, i + 1, now) == credit_parts(cv, i as int, now).push(
                credit_part(i + 1, cv[i as int], now),
            ));
            assert(p@ == credit_part(i + 1, cv[i as int], now));
            assert(pieces(parts@) =~= first + credit_parts(cv, i + 1, now));
            i += 1;
        }
        let sep = chars_of(" · ");
        assert(cv == reset_view(*s).1);
        assert(pieces(parts@) == seq![head_view] + credit_parts(cv, cv.len() as int, now));
        let r = string_of(&join_chars(&parts, &sep));
        assert(r@ == join(seq![head_view] + credit_parts(cv, cv.len() as int, now), " · "@));
        return r;
    }
    let known = e.tracked_available_count;
    let unknown_count = e.untracked_available_count;
    let ghost ev = (known, unknown_count, crate::types::opt_view(e.next_expires_at));
    assert(ev == estimate_opt(s.estimate).unwrap());
    if known > 0 {
        let mut p: Vec<char> = Vec::new();
        push_i64(&mut p, known);
        p.push(' ');
        extend_str(&mut p, if known == 1 { "tracked credit" } else { "tracked credits" });
        let ghost p0 = p@;
        assert(p0 == int_decimal(ev.0 as int) + seq![' '] + (if ev.0 == 1 {
            "tracked credit"@
        } else {
            "tracked credits"@
        }));
        match &e.next_expires_at {
            Some(n) => {
                extend_str(&mut p, " · next expires ");
                extend_str(&mut p, short_time_at(n.as_str(), now).as_str());
                assert(p@ == p0 + " · next expires "@ + short_time_spec(n@, now));
                assert(ev.2 == Some(n@));
            },
            None => {
                assert(p@ == p0 + Seq::<char>::empty());
                assert(ev.2 is None);
            },
        }
        let ghost pv = p@;
        assert(pv == int_decimal(ev.0 as int) + seq![' '] + (if ev.0 == 1 {
            "tracked credit"@
        } else {
            "tracked credits"@
        }) + match ev.2 {
            Some(n) => " · next expires "@ + short_time_spec(n, now),
            None => Seq::empty(),
        });
        push_part(&mut parts, p);
        assert(pieces(parts@) =~= first.push(pv));
    }
    let ghost after_known = pieces(parts@);
    assert(after_known =~= first + (if ev.0 > 0 {
        seq![
            int_decimal(ev.0 as int) + seq![' '] + (if ev.0 == 1 {
                "tracked credit"@
            } else {
                "tracked credits"@
            }) + match ev.2 {
                Some(n) => " · next expires "@ + short_time_spec(n, now),
                None => Seq::empty(),
            },
        ]
    } else {
        Seq::empty()
    }));
    if unknown_count > 0 {
        let mut p: Vec<char> = Vec::new();
        push_i64(&mut p, unknown_count);
        p.push(' ');
        extend_str(&mut p, if unknown_count == 1 { "existing credit" } else { "existing credits" });
        extend_str(&mut p, " from before tracking; expiry unknown");
        assert(p@ == int_decimal(ev.1 as int) + seq![' '] + (if ev.1 == 1 {
            "existing credit"@
        } else {
            "existing credits"@
        }) + " from before tracking; expiry unknown"@);
        push_part(&mut parts, p);
    }
    let ghost after_unknown = pieces(parts@);
    assert(after_unknown =~= after_known + (if ev.1 > 0 {
        seq![
            int_decimal(ev.1 as int) + seq![' '] + (if ev.1 == 1 {
                "existing credit"@
            } else {
                "existing credits"@
            }) + " from before tracking; expiry unknown"@,
        ]
    } else {
        Seq::empty()
    }));
    if known == 0 && unknown_count == 0 {
        push_part(&mut parts, chars_of("tracking future grants"));
    }
    assert(pieces(parts@) =~= first + estimate_parts(ev, now));
    let sep = chars_of(" · ");
    string_of(&join_chars(&parts, &sep))
}

/// The reset credits in words, against the current time.
pub fn codex_reset_credit_text(credits: Option<&CodexResetCreditsSummary>) -> (r: String)
    ensures
        exists|now: i64|
            -0x1000_0000_0000 < now < 0x1000_0000_0000 && r@ == #[trigger] reset_credit_text_spec(
                summary_ref(credits),
                now,
            ),
{
    let now = utc_now_seconds();
    codex_reset_credit_text_at(credits, now)
}

// ---------------------------------------------------------------------------
// Using a reset credit
// ---------------------------------------------------------------------------

/// Whether the form confirms the use of a reset credit.
pub fn codex_reset_confirmed(confirm: &str) -> (r: bool)
    ensures
        r == (trim(confirm@) == "USE_RESET"@),
{
    chars_eq_str(&trim_str(confirm), "USE_RESET")
}

/// Where the browser goes after a reset: the slot's page, refreshed, with
/// the usage panel open.
pub open spec fn reset_location_spec(slot_id: Option<i64>) -> Seq<char> {
    "/agents?slot="@ + int_decimal(
        match slot_id {
            Some(id) => id as int,
            None => 0,
        },
    ) + "&refresh=1&usage=1"@
}

/// Where the browser goes after a reset.
pub fn codex_reset_location(slot_id: Option<i64>) -> (r: String)
    ensures
        r@ == reset_location_spec(slot_id),
{
    let mut out = chars_of("/agents?slot=");
    push_i64(&mut out, match slot_id {
        Some(id) => id,
        None => 0,
    });
    extend_str(&mut out, "&refresh=1&usage=1");
    string_of(&out)
}

/// How a request to use a reset credit is answered.
pub enum ResetReply {
    /// Refresh the usage and send the browser back.
    Done,
    /// Answer with this HTTP status and text.
    Refused(u16, String),
}

/// The reply to what Codex answered a reset request: `reset` and
/// `alreadyRedeemed` succeed; nothing to reset and no credit are conflicts;
/// anything else, and no answer, are errors.
pub open spec fn reset_reply_spec(outcome: Option<Seq<char>>) -> (bool, u16, Seq<char>) {
    match outcome {
        Some(o) => if o == "reset"@ || o == "alreadyRedeemed"@ {
            (true, 303, Seq::empty())
        } else if o == "nothingToReset"@ {
            (false, 409, "no current Codex limit window is eligible for reset"@)
        } else if o == "noCredit"@ {
            (false, 409, "Codex reports no reset credits available"@)
        } else {
            (false, 500, "unexpected Codex reset outcome: "@ + o)
        },
        None => (false, 500, "could not ask Codex to use a reset credit"@),
    }
}

/// Whether a reply succeeds, and otherwise its status and text.
pub open spec fn reset_reply_view(r: ResetReply) -> (bool, u16, Seq<char>) {
    match r {
        ResetReply::Done => (true, 303, Seq::empty()),
        ResetReply::Refused(code, text) => (false, code, text@),
    }
}

/// The reply to what Codex answered a reset request.
pub fn codex_reset_reply(outcome: Option<&str>) -> (r: ResetReply)
    ensures
        reset_reply_view(r) == reset_reply_spec(crate::auth::opt_str(outcome)),
{
    match outcome {
        None => ResetReply::Refused(500, String::from_str("could not ask Codex to use a reset credit")),
        Some(o) => {
            let v = chars_of(o);
            if chars_eq_str(&v, "reset") || chars_eq_str(&v, "alreadyRedeemed") {
                ResetReply::Done
            } else if chars_eq_str(&v, "nothingToReset") {
                ResetReply::Refused(409, String::from_str("no current Codex limit window is eligible for reset"))
            } else if chars_eq_str(&v, "noCredit") {
                ResetReply::Refused(409, String::from_str("Codex reports no reset credits available"))
            } else {
                let mut out = chars_of("unexpected Codex reset outcome: ");
                extend_str(&mut out, o);
                ResetReply::Refused(500, string_of(&out))
            }
        },
    }
}

/// The reply where the configured reset command failed, with its standard
/// error cut to 1000 characters.
pub fn reset_command_failed_text(stderr: &str) -> (r: String)
    ensures
        r@ == "reset command failed: "@ + truncate_spec(stderr@, 1000),
{
    let mut out = chars_of("reset command failed: ");
    extend_str(&mut out, truncate_text(stderr, 1000).as_str());
    string_of(&out)
}

// ---------------------------------------------------------------------------
// The usage dialog and the usage reply
// ---------------------------------------------------------------------------

/// A window's card, with its remaining and used percentages given as text;
/// where the window is not reported, its fallback label says so.
pub open spec fn window_card_spec(
    fallback_label: Seq<char>,
    window: Option<WindowView>,
    remaining: Seq<char>,
    used: Seq<char>,
    now: i64,
) -> Seq<char> {
    match window {
        None => "<section class=\"usage-card\"><strong>"@ + fallback_label
            + "</strong><span class=\"muted\">not reported</span></section>"@,
        Some(w) => "<section class=\"usage-card\"><strong>"@ + html_escape_spec(w.0)
            + "</strong><span>"@ + remaining + "% remaining · "@ + used
            + "% used</span><div class=\"meter\" title=\""@ + remaining
            + "% remaining\"><span style=\"width:"@ + remaining
            + "%\"></span></div><span class=\"muted\">"@ + html_escape_spec(
            window_duration_spec(w.2 as int),
        ) + " window · resets "@ + html_escape_spec(window_reset_spec(w.3, now))
            + "</span></section>"@,
    }
}

/// A window's card against `now`, its percentages already written out.
pub fn usage_window_card_at(
    fallback_label: &str,
    window: Option<&CodexRateWindow>,
    remaining: &str,
    used: &str,
    now: i64,
) -> (r: String)
    requires
        -0x1000_0000_0000 < now < 0x1000_0000_0000,
    ensures
        r@ == window_card_spec(fallback_label@, window_ref(window), remaining@, used@, now),
{
    match window {
        None => {
            let mut out = chars_of("<section class=\"usage-card\"><strong>");
            extend_str(&mut out, fallback_label);
            extend_str(&mut out, "</strong><span class=\"muted\">not reported</span></section>");
            string_of(&out)
        },
        Some(w) => {
            let reset = match w.resets_at {
                Some(t) => format_epoch_date_at(t, now),
                None => String::from_str("unknown"),
            };
            let mut out = chars_of("<section class=\"usage-card\"><strong>");
            extend_str(&mut out, html_escape(w.label.as_str()).as_str());
            extend_str(&mut out, "</strong><span>");
            extend_str(&mut out, remaining);
            extend_str(&mut out, "% remaining · ");
            extend_str(&mut out, used);
            extend_str(&mut out, "% used</span><div class=\"meter\" title=\"");
            extend_str(&mut out, remaining);
            extend_str(&mut out, "% remaining\"><span style=\"width:");
            extend_str(&mut out, remaining);
            extend_str(&mut out, "%\"></span></div><span class=\"muted\">");
            extend_str(&mut out, html_escape(usage_window_duration(w.window_minutes).as_str()).as_str());
            extend_str(&mut out, " window · resets ");
            extend_str(&mut out, html_escape(reset.as_str()).as_str());
            extend_str(&mut out, "</span></section>");
            string_of(&out)
        },
    }
}

/// A window's card against the current time, its percentages already
/// written out.
pub fn usage_window_card(
    fallback_label: &str,
    window: Option<&CodexRateWindow>,
    remaining: &str,
    used: &str,
) -> (r: String)
    ensures
        exists|now: i64|
            -0x1000_0000_0000 < now < 0x1000_0000_0000 && r@ == #[trigger] window_card_spec(
                fallback_label@,
                window_ref(window),
                remaining@,
                used@,
                now,
            ),
{
    let now = utc_now_seconds();
    usage_window_card_at(fallback_label, window, remaining, used, now)
}

/// The dialog's reset control: a form that asks to use a reset credit where
/// a reset command is configured or Codex reports credits, else a disabled
/// button.
pub open spec fn reset_control_spec(offered: bool, slot_id: i64) -> Seq<char> {
    if offered {
        "<form class=\"reset-form\" action=\"/agents/codex/reset\" method=\"post\" data-reset-form>\n  <input type=\"hidden\" name=\"confirm\" value=\"USE_RESET\">\n  <input type=\"hidden\" name=\"slot_id\" value=\""@
            + int_decimal(slot_id as int)
            + "\">\n  <button type=\"submit\" class=\"danger-icon ghost\">Use reset</button>\n</form>"@
    } else {
        "<button type=\"button\" class=\"ghost\" disabled title=\"No Codex reset credits are currently reported.\">Use reset</button>"@
    }
}

/// Whether the reset control is offered.
pub open spec fn reset_offered(config: Config, usage: Option<UsageView>) -> bool {
    config.legacy_codex_reset_command is Some || match usage {
        Some(u) => match u.6 {
            Some(c) => c.0 > 0,
            None => false,
        },
        None => false,
    }
}

/// The dialog's body for a snapshot: launcher, totals, the two window cards
/// as given, the reset windows, when it was observed, and the reset control.
pub open spec fn usage_body_spec(
    command: Seq<char>,
    u: UsageView,
    primary_card: Seq<char>,
    secondary_card: Seq<char>,
    reset: Seq<char>,
    now: i64,
) -> Seq<char> {
    "<p class=\"muted\">Launcher: <strong>"@ + command
        + "</strong></p>\n<section class=\"usage-total\">\n  <strong>Total usage</strong>\n  <span>Plan: "@
        + html_escape_spec(u.1) + "</span>\n  <span>Total tokens recorded: "@ + number_spec(
        u.2.0 as int,
    ) + "</span>\n  <span>Last turn: "@ + number_spec(u.2.1 as int) + " · cached input: "@
        + number_spec(u.2.2 as int) + "</span>\n  <span>Context window: "@ + number_spec(
        u.2.3 as int,
    ) + "</span>\n  <span>Add-on credits: "@ + html_escape_spec(
        match u.5 {
            Some(c) => c,
            None => "not reported"@,
        },
    ) + "</span>\n  <span>Usage reset credits: "@ + reset_credit_text_spec(u.6, now)
        + "</span>\n</section>\n<div class=\"usage-grid\">"@ + primary_card + secondary_card
        + "</div>\n<section class=\"usage-total\"><strong>Reset windows</strong>"@
        + reset_line_spec("Primary"@, u.3, now) + reset_line_spec("Secondary"@, u.4, now)
        + "</section>\n<p class=\"muted\">Observed "@ + html_escape_spec(
        short_time_spec(u.0, now),
    ) + "</p>\n            "@ + reset
}

/// The usage dialog against `now`: the snapshot where there is one, else
/// whether it is still loading; the window cards are given.
pub open spec fn usage_dialog_spec(
    config: Config,
    usage: Option<UsageView>,
    loaded: bool,
    slot_id: i64,
    primary_card: Seq<char>,
    secondary_card: Seq<char>,
    now: i64,
) -> Seq<char> {
    let command = html_escape_spec(command_label_spec(config, AgentHarness::LegacyCodex));
    let reset = reset_control_spec(reset_offered(config, usage), slot_id);
    let body = match usage {
        Some(u) => usage_body_spec(command, u, primary_card, secondary_card, reset, now),
        None => if loaded {
            "<p class=\"muted\">No Codex usage event has been recorded yet. Open `/status` in Codex once and Mobailmux will show the saved rate-limit data here.</p><p>Launcher: <strong>"@
                + command + "</strong></p>"@ + reset
        } else {
            "<p class=\"muted\">Loading Codex usage from saved sessions...</p><p>Launcher: <strong>"@
                + command + "</strong></p>"@ + reset
        },
    };
    "<dialog class=\"codex-panel\" id=\"codexPanel\">\n  <header><strong>Codex Usage</strong><div class=\"usage-head-actions\"><form action=\"/agents\" method=\"get\" data-refresh-form><input type=\"hidden\" name=\"slot\" value=\""@
        + int_decimal(slot_id as int)
        + "\"><input type=\"hidden\" name=\"refresh\" value=\"1\"><input type=\"hidden\" name=\"usage\" value=\"1\"><button type=\"submit\" class=\"ghost nav-icon usage-refresh\" aria-label=\"Refresh Codex usage\" title=\"Refresh Codex usage\" data-refresh-button>↻</button></form><button type=\"button\" class=\"icon\" data-codex-close aria-label=\"Close\">x</button></div></header>\n  <main>"@
        + body + "</main>\n</dialog>"@
}

/// The view of an optional snapshot reference.
pub open spec fn usage_ref(u: Option<&CodexUsageSnapshot>) -> Option<UsageView> {
    match u {
        Some(x) => Some(usage_view(*x)),
        None => None,
    }
}

/// Whether the counts of a snapshot can be written out.
pub open spec fn counts_writable(u: Option<&CodexUsageSnapshot>) -> bool {
    match u {
        Some(x) => x.total_units != i64::MIN && x.last_units != i64::MIN && x.cached_input_units
            != i64::MIN && x.context_window != i64::MIN,
        None => true,
    }
}

fn reset_control(offered: bool, slot_id: i64) -> (r: Vec<char>)
    ensures
        r@ == reset_control_spec(offered, slot_id),
{
    if offered {
        let mut out = chars_of(
            "<form class=\"reset-form\" action=\"/agents/codex/reset\" method=\"post\" data-reset-form>\n  <input type=\"hidden\" name=\"confirm\" value=\"USE_RESET\">\n  <input type=\"hidden\" name=\"slot_id\" value=\"",
        );
        push_i64(&mut out, slot_id);
        extend_str(
            &mut out,
            "\">\n  <button type=\"submit\" class=\"danger-icon ghost\">Use reset</button>\n</form>",
        );
        out
    } else {
        chars_of(
            "<button type=\"button\" class=\"ghost\" disabled title=\"No Codex reset credits are currently reported.\">Use reset</button>",
        )
    }
}

fn usage_body(
    command: &str,
    u: &CodexUsageSnapshot,
    primary_card: &str,
    secondary_card: &str,
    reset: &Vec<char>,
    now: i64,
) -> (r: Vec<char>)
    requires
        -0x1000_0000_0000 < now < 0x1000_0000_0000,
        counts_writable(Some(u)),
    ensures
        r@ == usage_body_spec(command@, usage_view(*u), primary_card@, secondary_card@, reset@, now),
{
    let mut out = chars_of("<p class=\"muted\">Launcher: <strong>");
    extend_str(&mut out, command);
    extend_str(
        &mut out,
        "</strong></p>\n<section class=\"usage-total\">\n  <strong>Total usage</strong>\n  <span>Plan: ",
    );
    extend_str(&mut out, html_escape(u.plan_type.as_str()).as_str());
    extend_str(&mut out, "</span>\n  <span>Total tokens recorded: ");
    extend_str(&mut out, format_number(u.total_units).as_str());
    extend_str(&mut out, "</span>\n  <span>Last turn: ");
    extend_str(&mut out, format_number(u.last_units).as_str());
    extend_str(&mut out, " · cached input: ");
    extend_str(&mut out, format_number(u.cached_input_units).as_str());
    extend_str(&mut out, "</span>\n  <span>Context window: ");
    extend_str(&mut out, format_number(u.context_window).as_str());
    extend_str(&mut out, "</span>\n  <span>Add-on credits: ");
    let credits = match &u.credits {
        Some(c) => html_escape(c.as_str()),
        None => html_escape("not reported"),
    };
    extend_str(&mut out, credits.as_str());
    extend_str(&mut out, "</span>\n  <span>Usage reset credits: ");
    extend_str(&mut out, codex_reset_credit_text_at(u.reset_credits.as_ref(), now).as_str());
    extend_str(&mut out, "</span>\n</section>\n<div class=\"usage-grid\">");
    extend_str(&mut out, primary_card);
    extend_str(&mut out, secondary_card);
    extend_str(&mut out, "</div>\n<section class=\"usage-total\"><strong>Reset windows</strong>");
    extend_str(&mut out, usage_reset_line_at("Primary", u.primary.as_ref(), now).as_str());
    extend_str(&mut out, usage_reset_line_at("Secondary", u.secondary.as_ref(), now).as_str());
    extend_str(&mut out, "</section>\n<p class=\"muted\">Observed ");
    extend_str(&mut out, html_escape(short_time_at(u.observed_at.as_str(), now).as_str()).as_str());
    extend_str(&mut out, "</p>\n            ");
    extend_chars(&mut out, reset);
    out
}

/// The usage dialog against `now` (seconds since the epoch), with the two
/// window cards already written.
pub fn codex_usage_dialog_at(
    config: &Config,
    usage: Option<&CodexUsageSnapshot>,
    loaded: bool,
    slot_id: i64,
    primary_card: &str,
    secondary_card: &str,
    now: i64,
) -> (r: String)
    requires
        -0x1000_0000_0000 < now < 0x1000_0000_0000,
        counts_writable(usage),
    ensures
        r@ == usage_dialog_spec(*config, usage_ref(usage), loaded, slot_id, primary_card@, secondary_card@, now),
{
    let command = html_escape(agent_command_label(config, AgentHarness::LegacyCodex).as_str());
    let available = match usage {
        Some(u) => match &u.reset_credits {
            Some(c) => c.available_count > 0,
            None => false,
        },
        None => false,
    };
    let reset = reset_control(config.legacy_codex_reset_command.is_some() || available, slot_id);
    let body = match usage {
        Some(u) => usage_body(command.as_str(), u, primary_card, secondary_card, &reset, now),
        None => {
            let mut out = if loaded {
                chars_of(
                    "<p class=\"muted\">No Codex usage event has been recorded yet. Open `/status` in Codex once and Mobailmux will show the saved rate-limit data here.</p><p>Launcher: <strong>",
                )
            } else {
                chars_of(
                    "<p class=\"muted\">Loading Codex usage from saved sessions...</p><p>Launcher: <strong>",
                )
            };
            extend_str(&mut out, command.as_str());
            extend_str(&mut out, "</strong></p>");
            extend_chars(&mut out, &reset);
            out
        },
    };
    let mut out = chars_of(
        "<dialog class=\"codex-panel\" id=\"codexPanel\">\n  <header><strong>Codex Usage</strong><div class=\"usage-head-actions\"><form action=\"/agents\" method=\"get\" data-refresh-form><input type=\"hidden\" name=\"slot\" value=\"",
    );
    push_i64(&mut out, slot_id);
    extend_str(
        &mut out,
        "\"><input type=\"hidden\" name=\"refresh\" value=\"1\"><input type=\"hidden\" name=\"usage\" value=\"1\"><button type=\"submit\" class=\"ghost nav-icon usage-refresh\" aria-label=\"Refresh Codex usage\" title=\"Refresh Codex usage\" data-refresh-button>↻</button></form><button type=\"button\" class=\"icon\" data-codex-close aria-label=\"Close\">x</button></div></header>\n  <main>",
    );
    extend_chars(&mut out, &body);
    extend_str(&mut out, "</main>\n</dialog>");
    string_of(&out)
}

/// The usage dialog against the current time.
pub fn codex_usage_dialog(
    config: &Config,
    usage: Option<&CodexUsageSnapshot>,
    loaded: bool,
    slot_id: i64,
    primary_card: &str,
    secondary_card: &str,
) -> (r: String)
    requires
        counts_writable(usage),
    ensures
        exists|now: i64|
            -0x1000_0000_0000 < now < 0x1000_0000_0000 && r@ == #[trigger] usage_dialog_spec(
                *config,
                usage_ref(usage),
                loaded,
                slot_id,
                primary_card@,
                secondary_card@,
                now,
            ),
{
    let now = utc_now_seconds();
    codex_usage_dialog_at(config, usage, loaded, slot_id, primary_card, secondary_card, now)
}

/// When a window resets, as a relative time against `now`; `unknown` where
/// it is not reported or cannot be written.
pub open spec fn window_resets_spec(resets_at: Option<i64>, now: i64) -> Seq<char> {
    match resets_at {
        Some(t) => match epoch_rfc3339(t) {
            Some(v) => short_time_spec(v, now),
            None => "unknown"@,
        },
        None => "unknown"@,
    }
}

/// A window's line of the usage reply, its remaining and used percentages
/// given as text.
pub open spec fn window_line_spec(name: Seq<char>, w: WindowView, percents: (Seq<char>, Seq<char>), now: i64) -> Seq<char> {
    "- "@ + name + ": "@ + percents.0 + "% left, "@ + percents.1 + "% used, resets "@
        + window_resets_spec(w.3, now)
}

/// The lines of the usage reply for a snapshot.
pub open spec fn usage_lines_spec(
    u: UsageView,
    primary: (Seq<char>, Seq<char>),
    secondary: (Seq<char>, Seq<char>),
    now: i64,
) -> Seq<Seq<char>> {
    let head = seq![
        "Codex usage:"@,
        "- observed: "@ + short_time_spec(u.0, now),
        "- plan: "@ + u.1,
        "- total tokens: "@ + number_spec(u.2.0 as int),
        "- last turn: "@ + number_spec(u.2.1 as int),
        "- cached input: "@ + number_spec(u.2.2 as int),
        "- context window: "@ + number_spec(u.2.3 as int),
        "- add-on credits: "@ + match u.5 {
            Some(c) => c,
            None => "not reported"@,
        },
        "- usage reset credits: "@ + reset_credit_text_spec(u.6, now),
    ];
    let p = match u.3 {
        Some(w) => seq![window_line_spec("primary"@, w, primary, now)],
        None => Seq::empty(),
    };
    let s = match u.4 {
        Some(w) => seq![window_line_spec("secondary"@, w, secondary, now)],
        None => Seq::empty(),
    };
    head + p + s
}

/// The usage reply against `now`: one line per fact of the snapshot, or
/// word that none is saved.
pub open spec fn usage_text_spec(
    usage: Option<UsageView>,
    primary: (Seq<char>, Seq<char>),
    secondary: (Seq<char>, Seq<char>),
    now: i64,
) -> Seq<char> {
    match usage {
        None => "Codex usage: no saved `/status` data found yet."@,
        Some(u) => join_lines(usage_lines_spec(u, primary, secondary, now), seq!['\n']),
    }
}

fn window_resets(resets_at: Option<i64>, now: i64) -> (r: String)
    requires
        -0x1000_0000_0000 < now < 0x1000_0000_0000,
    ensures
        r@ == window_resets_spec(resets_at, now),
{
    match resets_at {
        Some(t) => match epoch_to_rfc3339(t) {
            Some(v) => short_time_at(v.as_str(), now),
            None => String::from_str("unknown"),
        },
        None => String::from_str("unknown"),
    }
}

fn window_line(name: &str, w: &CodexRateWindow, percents: (&str, &str), now: i64) -> (r: Vec<char>)
    requires
        -0x1000_0000_0000 < now < 0x1000_0000_0000,
    ensures
        r@ == window_line_spec(name@, w@, (percents.0@, percents.1@), now),
{
    let mut out = chars_of("- ");
    extend_str(&mut out, name);
    extend_str(&mut out, ": ");
    extend_str(&mut out, percents.0);
    extend_str(&mut out, "% left, ");
    extend_str(&mut out, percents.1);
    extend_str(&mut out, "% used, resets ");
    extend_str(&mut out, window_resets(w.resets_at, now).as_str());
    out
}

fn labelled(label: &str, value: &str) -> (r: Vec<char>)
    ensures
        r@ == label@ + value@,
{
    let mut out = chars_of(label);
    extend_str(&mut out, value);
    out
}

/// The usage reply against `now` (seconds since the epoch), with the
/// percentages of each window already written as (remaining, used).
pub fn codex_usage_text_at(
    usage: Option<&CodexUsageSnapshot>,
    primary: (&str, &str),
    secondary: (&str, &str),
    now: i64,
) -> (r: String)
    requires
        -0x1000_0000_0000 < now < 0x1000_0000_0000,
        counts_writable(usage),
    ensures
        r@ == usage_text_spec(
            usage_ref(usage),
            (primary.0@, primary.1@),
            (secondary.0@, secondary.1@),
            now,
        ),
{
    let u = match usage {
        None => return String::from_str("Codex usage: no saved `/status` data found yet."),
        Some(u) => u,
    };
    let mut lines: Vec<Vec<char>> = Vec::new();
    lines.push(chars_of("Codex usage:"));
    lines.push(labelled("- observed: ", short_time_at(u.observed_at.as_str(), now).as_str()));
    lines.push(labelled("- plan: ", u.plan_type.as_str()));
    lines.push(labelled("- total tokens: ", format_number(u.total_units).as_str()));
    lines.push(labelled("- last turn: ", format_number(u.last_units).as_str()));
    lines.push(labelled("- cached input: ", format_number(u.cached_input_units).as_str()));
    lines.push(labelled("- context window: ", format_number(u.context_window).as_str()));
    let credits = match &u.credits {
        Some(c) => labelled("- add-on credits: ", c.as_str()),
        None => labelled("- add-on credits: ", "not reported"),
    };
    lines.push(credits);
    lines.push(
        labelled(
            "- usage reset credits: ",
            codex_reset_credit_text_at(u.reset_credits.as_ref(), now).as_str(),
        ),
    );
    match &u.primary {
        Some(w) => lines.push(window_line("primary", w, primary, now)),
        None => {},
    }
    match &u.secondary {
        Some(w) => lines.push(window_line("secondary", w, secondary, now)),
        None => {},
    }
    let ghost uv = usage_view(*u);
    assert(pieces(lines@) =~= usage_lines_spec(
        uv,
        (primary.0@, primary.1@),
        (secondary.0@, secondary.1@),
        now,
    ));
    let sep = chars_of("\n");
    proof {
        reveal_strlit("\n");
        assert(sep@ =~= seq!['\n']);
    }
    string_of(&join_chars(&lines, &sep))
}

/// The usage reply against the current time.
pub fn codex_usage_text(
    usage: Option<&CodexUsageSnapshot>,
    primary: (&str, &str),
    secondary: (&str, &str),
) -> (r: String)
    requires
        counts_writable(usage),
    ensures
        exists|now: i64|
            -0x1000_0000_0000 < now < 0x1000_0000_0000 && r@ == #[trigger] usage_text_spec(
                usage_ref(usage),
                (primary.0@, primary.1@),
                (secondary.0@, secondary.1@),
                now,
            ),
{
    let now = utc_now_seconds();
    codex_usage_text_at(usage, primary, secondary, now)
}

} // verus!
