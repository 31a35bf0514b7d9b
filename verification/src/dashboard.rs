//! Talking to Codex's app server over standard input and output, and the
//! latest usage that saved sessions report.
use vstd::prelude::*;
use crate::api::{
    member_str, codex_models_from_payload, codex_usage_from_payload, model_views, models_spec, usage_spec,
    usage_view, CodexUsageSnapshot, ModelView, UsageView,
};
use crate::codex::str_member;
use crate::json::{
    json_as_i64, json_i64_value, json_member, json_member_text, json_quote, json_str_at,
    json_str_path, json_string, opt_seq, str_views,
};
use crate::runtime::{shell_quote_spec, shell_single_quote};
use crate::shared::{string_views, Config};
use crate::split::{join, join_chars, lines, lines_of, pieces};
use crate::text::{chars_of, extend_chars, extend_str, string_of};
use crate::types::CodexModel;

verus! {

/// At most this many session files are read for usage.
pub const CODEX_SESSION_SCAN_LIMIT: usize = 180;

// ---------------------------------------------------------------------------
// Requests
// ---------------------------------------------------------------------------

/// The request that opens a session, as `serde_json` writes it (keys in
/// order).
pub open spec fn initialize_request() -> Seq<char> {
    "{\"id\":0,\"method\":\"initialize\",\"params\":{\"capabilities\":{\"experimentalApi\":true},\"clientInfo\":{\"name\":\"mobailmux\",\"version\":\"0.1.0\"}}}"@
}

/// What the app server is sent for one request: the opening request, the
/// `initialized` notice, then the request, each on a line of its own.
pub open spec fn app_server_input_spec(request: Seq<char>) -> Seq<char> {
    initialize_request() + "\n{\"method\":\"initialized\"}\n"@ + request + "\n"@
}

/// The input for `request`.
pub fn app_server_input(request: &str) -> (r: String)
    ensures
        r@ == app_server_input_spec(request@),
{
    let mut out = chars_of(
        "{\"id\":0,\"method\":\"initialize\",\"params\":{\"capabilities\":{\"experimentalApi\":true},\"clientInfo\":{\"name\":\"mobailmux\",\"version\":\"0.1.0\"}}}",
    );
    extend_str(&mut out, "\n{\"method\":\"initialized\"}\n");
    extend_str(&mut out, request);
    extend_str(&mut out, "\n");
    string_of(&out)
}

/// The request that reads the rate limits.
pub fn rate_limits_request() -> (r: &'static str)
    ensures
        r@ == "{\"id\":1,\"method\":\"account/rateLimits/read\",\"params\":null}"@,
{
    "{\"id\":1,\"method\":\"account/rateLimits/read\",\"params\":null}"
}

/// The request that lists the models that are not hidden.
pub fn model_list_request() -> (r: &'static str)
    ensures
        r@ == "{\"id\":1,\"method\":\"model/list\",\"params\":{\"includeHidden\":false}}"@,
{
    "{\"id\":1,\"method\":\"model/list\",\"params\":{\"includeHidden\":false}}"
}

/// The request that uses a reset credit, under an idempotency key.
pub open spec fn consume_request_spec(key: Seq<char>) -> Seq<char> {
    "{\"id\":1,\"method\":\"account/rateLimitResetCredit/consume\",\"params\":{\"idempotencyKey\":"@
        + json_quote(key) + "}}"@
}

/// The request that uses a reset credit.
pub fn consume_request(idempotency_key: &str) -> (r: String)
    ensures
        r@ == consume_request_spec(idempotency_key@),
{
    let mut out = chars_of(
        "{\"id\":1,\"method\":\"account/rateLimitResetCredit/consume\",\"params\":{\"idempotencyKey\":",
    );
    extend_str(&mut out, json_string(idempotency_key).as_str());
    extend_str(&mut out, "}}");
    string_of(&out)
}

/// The command that starts the app server: the legacy Codex binary, its
/// arguments, then `app-server --stdio`.
pub open spec fn app_server_command(config: Config) -> Seq<Seq<char>> {
    seq![config.legacy_codex_bin@] + string_views(config.legacy_codex_args@) + seq![
        "app-server"@,
        "--stdio"@,
    ]
}

/// Each word single-quoted.
pub open spec fn quoted_words(w: Seq<Seq<char>>) -> Seq<Seq<char>> {
    w.map_values(|s: Seq<char>| shell_quote_spec(s))
}

/// The `bash -lc` script that feeds `input` to the app server and keeps its
/// standard input open for five seconds while it answers.
pub open spec fn app_server_script_spec(config: Config, input: Seq<char>) -> Seq<char> {
    "{ printf '%s' "@ + shell_quote_spec(input) + "; sleep 5; } | "@ + join(
        quoted_words(app_server_command(config)),
        seq![' '],
    )
}

fn push_quoted(words: &mut Vec<Vec<char>>, w: &str)
    ensures
        pieces(final(words)@) == pieces(old(words)@).push(shell_quote_spec(w@)),
{
    let q = shell_single_quote(w);
    let ghost before = pieces(words@);
    words.push(chars_of(q.as_str()));
    assert(pieces(words@) =~= before.push(shell_quote_spec(w@)));
}

/// The script that runs one exchange with the app server.
pub fn app_server_script(config: &Config, input: &str) -> (r: String)
    ensures
        r@ == app_server_script_spec(*config, input@),
{
    let mut words: Vec<Vec<char>> = Vec::new();
    push_quoted(&mut words, config.legacy_codex_bin.as_str());
    let mut i: usize = 0;
    while i < config.legacy_codex_args.len()
        invariant
            i <= config.legacy_codex_args.len(),
            pieces(words@) == quoted_words(
                seq![config.legacy_codex_bin@] + string_views(config.legacy_codex_args@).take(
                    i as int,
                ),
            ),
        decreases config.legacy_codex_args.len() - i,
    {
        push_quoted(&mut words, config.legacy_codex_args[i].as_str());
        i += 1;
        assert(string_views(config.legacy_codex_args@).take(i as int) =~= string_views(
            config.legacy_codex_args@,
        ).take(i - 1).push(config.legacy_codex_args@[i - 1]@));
        assert(pieces(words@) =~= quoted_words(
            seq![config.legacy_codex_bin@] + string_views(config.legacy_codex_args@).take(i as int),
        ));
    }
    assert(string_views(config.legacy_codex_args@).take(i as int) =~= string_views(
        config.legacy_codex_args@,
    ));
    push_quoted(&mut words, "app-server");
    push_quoted(&mut words, "--stdio");
    assert(pieces(words@) =~= quoted_words(app_server_command(*config)));
    let mut out = chars_of("{ printf '%s' ");
    extend_str(&mut out, shell_single_quote(input).as_str());
    extend_str(&mut out, "; sleep 5; } | ");
    let sep = chars_of(" ");
    proof {
        reveal_strlit(" ");
    }
    let joined = join_chars(&words, &sep);
    assert(sep@ =~= seq![' ']);
    extend_chars(&mut out, &joined);
    string_of(&out)
}

// ---------------------------------------------------------------------------
// Replies
// ---------------------------------------------------------------------------

/// Whether a line of output is the JSON reply to the request with id 1.
pub open spec fn is_reply_one(line: Seq<char>) -> bool {
    match json_member_text(line, "id"@) {
        Some(t) => json_i64_value(t) == Some(1i64),
        None => false,
    }
}

/// The first reply to the request with id 1 among `ls`.
pub open spec fn first_reply(ls: Seq<Seq<char>>) -> Option<Seq<char>>
    decreases ls.len(),
{
    if ls.len() == 0 {
        None
    } else if is_reply_one(ls[0]) {
        Some(ls[0])
    } else {
        first_reply(ls.drop_first())
    }
}

fn reply_is_one(line: &str) -> (r: bool)
    ensures
        r == is_reply_one(line@),
{
    match json_member(line, "id") {
        Some(t) => match json_as_i64(t.as_str()) {
            Some(n) => n == 1,
            None => false,
        },
        None => false,
    }
}

/// The line of the app server's output that answers the request with id 1.
pub fn app_server_reply(output: &str) -> (r: Option<String>)
    ensures
        opt_seq(r) == first_reply(lines(output@)),
{
    let ls = lines_of(&chars_of(output));
    let ghost all = pieces(ls@);
    assert(all.skip(0) =~= all);
    let mut i: usize = 0;
    while i < ls.len()
        invariant
            i <= ls.len(),
            all == pieces(ls@),
            all == lines(output@),
            first_reply(all) == first_reply(all.skip(i as int)),
        decreases ls.len() - i,
    {
        let line = string_of(&ls[i]);
        assert(all.skip(i as int)[0] == all[i as int]);
        if reply_is_one(line.as_str()) {
            assert(line@ == all[i as int]);
            assert(first_reply(all.skip(i as int)) == Some(line@));
            return Some(line);
        }
        assert(all.skip(i as int).drop_first() =~= all.skip(i + 1));
        i += 1;
    }
    assert(all.skip(i as int).len() == 0);
    None
}

/// The `result` of the reply to the request with id 1, as JSON text.
pub open spec fn app_server_result_spec(output: Seq<char>) -> Option<Seq<char>> {
    match first_reply(lines(output)) {
        Some(l) => json_member_text(l, "result"@),
        None => None,
    }
}

/// The `result` of the reply to the request with id 1.
pub fn app_server_result(output: &str) -> (r: Option<String>)
    ensures
        opt_seq(r) == app_server_result_spec(output@),
{
    match app_server_reply(output) {
        Some(l) => json_member(l.as_str(), "result"),
        None => None,
    }
}

/// The outcome that the reply to a reset request reports.
pub open spec fn reset_outcome_spec(output: Seq<char>) -> Option<Seq<char>> {
    match first_reply(lines(output)) {
        Some(l) => json_str_path(l, seq!["result"@, "outcome"@]),
        None => None,
    }
}

/// The outcome that the reply to a reset request reports.
pub fn app_server_reset_outcome(output: &str) -> (r: Option<String>)
    ensures
        opt_seq(r) == reset_outcome_spec(output@),
{
    match app_server_reply(output) {
        Some(l) => {
            let path: [&str; 2] = ["result", "outcome"];
            assert(str_views(path@) =~= seq!["result"@, "outcome"@]);
            json_str_at(l.as_str(), &path)
        },
        None => None,
    }
}

/// The models that the reply to a model list reports; none without one.
pub open spec fn listed_models_spec(output: Seq<char>) -> Seq<ModelView> {
    match app_server_result_spec(output) {
        Some(p) => models_spec(p),
        None => Seq::empty(),
    }
}

/// The models that the reply to a model list reports.
pub fn app_server_models(output: &str) -> (r: Vec<CodexModel>)
    ensures
        model_views(r@) == listed_models_spec(output@),
{
    match app_server_result(output) {
        Some(p) => codex_models_from_payload(p.as_str()),
        None => {
            let r: Vec<CodexModel> = Vec::new();
            assert(model_views(r@) =~= Seq::<ModelView>::empty());
            r
        },
    }
}

// ---------------------------------------------------------------------------
// Usage from saved sessions
// ---------------------------------------------------------------------------

/// `a < b` as `str` orders them: byte by byte, which for UTF-8 is code
/// point by code point, a proper prefix first.
pub open spec fn text_less(a: Seq<char>, b: Seq<char>) -> bool
    decreases a.len(),
{
    if b.len() == 0 {
        false
    } else if a.len() == 0 {
        true
    } else if (a[0] as int) < (b[0] as int) {
        true
    } else if (a[0] as int) > (b[0] as int) {
        false
    } else {
        text_less(a.drop_first(), b.drop_first())
    }
}

/// Whether `a < b` as `str` orders them.
pub fn str_less(a: &str, b: &str) -> (r: bool)
    ensures
        r == text_less(a@, b@),
{
    let x = chars_of(a);
    let y = chars_of(b);
    assert(a@.skip(0) =~= a@);
    assert(b@.skip(0) =~= b@);
    let mut i: usize = 0;
    while i < x.len() && i < y.len()
        invariant
            i <= x.len(),
            i <= y.len(),
            x@ == a@,
            y@ == b@,
            text_less(a@, b@) == text_less(a@.skip(i as int), b@.skip(i as int)),
        decreases x.len() - i,
    {
        let cx: char = x[i];
        let cy: char = y[i];
        assert(a@.skip(i as int)[0] == x@[i as int]);
        assert(b@.skip(i as int)[0] == y@[i as int]);
        if cx < cy {
            return true;
        }
        if cx > cy {
            return false;
        }
        assert(a@.skip(i as int).drop_first() =~= a@.skip(i + 1));
        assert(b@.skip(i as int).drop_first() =~= b@.skip(i + 1));
        i += 1;
    }
    i < y.len()
}

/// The timestamp and payload of a `token_count` event line; the timestamp is
/// empty where missing.
pub open spec fn token_event(line: Seq<char>) -> Option<(Seq<char>, Seq<char>)> {
    if str_member(line, "type"@) == Some("event_msg"@) {
        match json_member_text(line, "payload"@) {
            Some(p) => if str_member(p, "type"@) == Some("token_count"@) {
                Some(
                    (
                        match str_member(line, "timestamp"@) {
                            Some(t) => t,
                            None => Seq::empty(),
                        },
                        p,
                    ),
                )
            } else {
                None
            },
            None => None,
        }
    } else {
        None
    }
}

/// The latest usage seen after one more line: a `token_count` event
/// replaces it where nothing is seen yet or its timestamp sorts after.
pub open spec fn usage_step(acc: Option<(Seq<char>, UsageView)>, line: Seq<char>) -> Option<
    (Seq<char>, UsageView),
> {
    match token_event(line) {
        None => acc,
        Some((ts, payload)) => match acc {
            None => Some((ts, usage_spec(ts, payload))),
            Some((t, u)) => if text_less(t, ts) {
                Some((ts, usage_spec(ts, payload)))
            } else {
                acc
            },
        },
    }
}

/// The latest usage after the first `n` lines, starting from `acc`.
pub open spec fn usage_fold(acc: Option<(Seq<char>, UsageView)>, ls: Seq<Seq<char>>, n: int) -> Option<
    (Seq<char>, UsageView),
>
    decreases n,
{
    if n <= 0 {
        acc
    } else {
        usage_step(usage_fold(acc, ls, n - 1), ls[n - 1])
    }
}

/// The latest usage after the first `i` files.
pub open spec fn usage_files(files: Seq<Seq<Seq<char>>>, i: int) -> Option<(Seq<char>, UsageView)>
    decreases i,
{
    if i <= 0 {
        None
    } else {
        usage_fold(usage_files(files, i - 1), files[i - 1], files[i - 1].len() as int)
    }
}

/// The lines of each file.
pub open spec fn file_views(files: Seq<Vec<String>>) -> Seq<Seq<Seq<char>>> {
    files.map_values(|f: Vec<String>| string_views(f@))
}

/// The latest usage that the first 180 session files report, by the order
/// of the event timestamps; the first of equal ones.
pub open spec fn latest_usage_spec(files: Seq<Seq<Seq<char>>>) -> Option<UsageView> {
    let n = if files.len() < 180 {
        files.len() as int
    } else {
        180
    };
    match usage_files(files, n) {
        Some((_, u)) => Some(u),
        None => None,
    }
}

/// The view of the latest usage seen: its timestamp and snapshot.
pub open spec fn seen_view(l: Option<(String, CodexUsageSnapshot)>) -> Option<(Seq<char>, UsageView)> {
    match l {
        Some((t, s)) => Some((t@, usage_view(s))),
        None => None,
    }
}

fn text_is(t: &Option<String>, word: &str) -> (r: bool)
    ensures
        r == (opt_seq(*t) == Some(word@)),
{
    match t {
        Some(t) => {
            let v = chars_of(t.as_str());
            crate::text::chars_eq_str(&v, word)
        },
        None => false,
    }
}

fn usage_line_step(latest: &mut Option<(String, CodexUsageSnapshot)>, line: &str)
    ensures
        seen_view(*final(latest)) == usage_step(seen_view(*old(latest)), line@),
{
    if !text_is(&member_str(line, "type"), "event_msg") {
        return;
    }
    let p = match json_member(line, "payload") {
        Some(p) => p,
        None => return,
    };
    if !text_is(&member_str(p.as_str(), "type"), "token_count") {
        return;
    }
    let observed = match member_str(line, "timestamp") {
        Some(t) => t,
        None => String::from_str(""),
    };
    proof {
        reveal_strlit("");
    }
    let newer = match &*latest {
        None => true,
        Some((t, _)) => str_less(t.as_str(), observed.as_str()),
    };
    if newer {
        let snap = codex_usage_from_payload(observed.as_str(), p.as_str());
        *latest = Some((observed, snap));
    }
}

/// The latest usage that saved session files report, given the lines of
/// each file.
pub fn latest_codex_usage(files: &Vec<Vec<String>>) -> (r: Option<CodexUsageSnapshot>)
    ensures
        match r {
            Some(s) => latest_usage_spec(file_views(files@)) == Some(usage_view(s)),
            None => latest_usage_spec(file_views(files@)) is None,
        },
{
    let ghost fv = file_views(files@);
    let n = if files.len() < CODEX_SESSION_SCAN_LIMIT {
        files.len()
    } else {
        CODEX_SESSION_SCAN_LIMIT
    };
    let mut latest: Option<(String, CodexUsageSnapshot)> = None;
    let mut i: usize = 0;
    while i < n
        invariant
            i <= n,
            n <= files.len(),
            fv == file_views(files@),
            seen_view(latest) == usage_files(fv, i as int),
        decreases n - i,
    {
        let file = &files[i];
        let ghost start = usage_files(fv, i as int);
        assert(fv[i as int] == string_views(file@));
        let mut j: usize = 0;
        while j < file.len()
            invariant
                i < n,
                n <= files.len(),
                file == &files@[i as int],
                fv == file_views(files@),
                fv[i as int] == string_views(file@),
                j <= file.len(),
                seen_view(latest) == usage_fold(start, fv[i as int], j as int),
            decreases file.len() - j,
        {
            assert(fv[i as int][j as int] == file@[j as int]@);
            usage_line_step(&mut latest, file[j].as_str());
            j += 1;
        }
        i += 1;
    }
    match latest {
        Some((_, s)) => Some(s),
        None => None,
    }
}

} // verus!
