//! The chat composer: slash commands, their names and suggestions, and the
//! skill and plugin suggestions read from the Codex home.
use vstd::prelude::*;
use crate::html::{json_for_inline_script, script_escape_spec};
use crate::json::{json_quote, json_str_at, json_str_path, json_string, opt_seq, str_views};
use crate::num::{int_decimal, push_i64};
use crate::shared::{compact_spec, compact_text};
use crate::split::{join, join_chars, lines, lines_of, pieces};
use crate::text::{
    chars_eq, chars_eq_str, chars_of, chars_starts_with, extend_chars, extend_str, is_ascii_char,
    is_whitespace, is_ws, lemma_trim_ends, lower, lower_chars, starts_with, string_of, subvec, trim, trim_chars,
    trim_start, trim_start_chars, trim_str, push_str,
};

verus! {

// ---------------------------------------------------------------------------
// Locations and control requests
// ---------------------------------------------------------------------------

/// The agents page, focused on a slot where the id is positive.
pub open spec fn location_spec(slot_id: Option<i64>) -> Seq<char> {
    match slot_id {
        Some(id) if id > 0 => "/agents?slot="@ + int_decimal(id as int),
        _ => "/agents"@,
    }
}

/// Where to send the browser after acting on a slot.
pub fn agent_location(slot_id: Option<i64>) -> (r: String)
    ensures
        r@ == location_spec(slot_id),
{
    match slot_id {
        Some(id) if id > 0 => {
            let mut v = chars_of("/agents?slot=");
            push_i64(&mut v, id);
            string_of(&v)
        },
        _ => String::from_str("/agents"),
    }
}

/// Number of bytes that UTF-8 takes for a character.
pub open spec fn utf8_width(c: char) -> nat {
    let u = c as u32;
    if u < 0x80 {
        1
    } else if u < 0x800 {
        2
    } else if u < 0x10000 {
        3
    } else {
        4
    }
}

/// Number of bytes that UTF-8 takes for a text.
pub open spec fn byte_len(s: Seq<char>) -> nat
    decreases s.len(),
{
    if s.len() == 0 {
        0
    } else {
        byte_len(s.drop_last()) + utf8_width(s.last())
    }
}

/// A text of ASCII characters takes one byte per character.
pub proof fn lemma_ascii_byte_len(s: Seq<char>)
    requires
        forall|i: int| 0 <= i < s.len() ==> (#[trigger] s[i] as u32) < 0x80,
    ensures
        byte_len(s) == s.len(),
    decreases s.len(),
{
    if s.len() > 0 {
        assert forall|i: int| 0 <= i < s.drop_last().len() implies (#[trigger] s.drop_last()[i] as u32) < 0x80 by {
            assert(s.drop_last()[i] == s[i]);
        }
        lemma_ascii_byte_len(s.drop_last());
        assert(s.last() == s[s.len() - 1]);
    }
}

/// Byte offset `n` falls between two characters of `s`.
pub open spec fn is_char_boundary(s: Seq<char>, n: nat) -> bool {
    exists|k: int| 0 <= k <= s.len() && byte_len(#[trigger] s.take(k)) == n
}

/// Equality without regard to ASCII case.
pub open spec fn eq_ignore_case(a: Seq<char>, b: Seq<char>) -> bool {
    a.len() == b.len() && lower(a) == lower(b)
}

/// The argument of a command word: empty where the trimmed text is the
/// command itself, the trimmed rest where the command is followed by
/// whitespace, `None` otherwise (ASCII case is ignored).
pub open spec fn command_arg_spec(text: Seq<char>, command: Seq<char>) -> Option<Seq<char>> {
    let t = trim(text);
    let n = command.len();
    if eq_ignore_case(t, command) {
        Some(Seq::empty())
    } else if t.len() > n && eq_ignore_case(t.take(n as int), command) && is_ws(t[n as int]) {
        Some(trim(t.skip(n as int)))
    } else {
        None
    }
}

fn eq_ignore_case_chars(a: &Vec<char>, b: &Vec<char>) -> (r: bool)
    ensures
        r == eq_ignore_case(a@, b@),
{
    if a.len() != b.len() {
        return false;
    }
    let la = lower_chars(a);
    let lb = lower_chars(b);
    chars_eq(&la, &lb)
}

/// The argument that follows `command` in `text`. Where the trimmed text
/// is longer than the command, reading it cuts it at the command's byte
/// length, which must fall between two characters. The contract compares
/// characters: ASCII case folding keeps each character's UTF-8 width, so
/// comparing the text's first bytes with the command without regard to ASCII
/// case is comparing its first characters.
pub fn command_arg(text: &str, command: &str) -> (r: Option<String>)
    requires
        byte_len(trim(text@)) > byte_len(command@) ==> is_char_boundary(
            trim(text@),
            byte_len(command@),
        ),
    ensures
        r matches Some(s) ==> command_arg_spec(text@, command@) == Some(s@),
        r is None ==> command_arg_spec(text@, command@) is None,
{
    let t = trim_str(text);
    let c = chars_of(command);
    if eq_ignore_case_chars(&t, &c) {
        return Some(String::new());
    }
    let n = c.len();
    if t.len() > n {
        let head = subvec(&t, 0, n);
        if eq_ignore_case_chars(&head, &c) && is_whitespace(t[n]) {
            let rest = subvec(&t, n, t.len());
            let a = trim_chars(&rest);
            return Some(string_of(&a));
        }
    }
    None
}

/// The prefix character and the trimmed request of a `/command` or
/// `!command` message.
pub open spec fn control_text_spec(text: Seq<char>) -> Option<(char, Seq<char>)> {
    let t = trim(text);
    if t.len() > 0 && (t[0] == '!' || t[0] == '/') {
        Some((t[0], trim(t.drop_first())))
    } else {
        None
    }
}

/// Splits a control message into its prefix and request.
pub fn agent_control_text(text: &str) -> (r: Option<(char, String)>)
    ensures
        r matches Some((c, s)) ==> control_text_spec(text@) == Some((c, s@)),
        r is None ==> control_text_spec(text@) is None,
{
    let t = trim_str(text);
    if t.len() == 0 {
        return None;
    }
    let prefix = t[0];
    if !(prefix == '!' || prefix == '/') {
        return None;
    }
    let rest = subvec(&t, 1, t.len());
    assert(rest@ == t@.drop_first());
    let a = trim_chars(&rest);
    Some((prefix, string_of(&a)))
}

/// Whether a message is a control request rather than a prompt.
pub fn looks_like_agent_control_request(body: &str) -> (r: bool)
    ensures
        r == control_text_spec(body@) is Some,
{
    agent_control_text(body).is_some()
}

// ---------------------------------------------------------------------------
// Command names
// ---------------------------------------------------------------------------

/// A slash command of the composer.
pub struct AgentCommandSpec {
    pub name: &'static str,
    pub usage: &'static str,
    pub description: &'static str,
    pub takes_arg: bool,
}

/// The slash commands: name, usage, description and whether they take an argument.
pub open spec fn command_table() -> Seq<(Seq<char>, Seq<char>, Seq<char>, bool)> {
    seq![
        ("goal"@, "/goal <objective>"@, "Set or show this slot's goal"@, true),
        ("clear-goal"@, "/clear-goal"@, "Clear this slot's goal"@, false),
        ("status"@, "/status"@, "Show slot status and Codex usage"@, false),
        ("usage"@, "/usage"@, "Show Codex usage and limits"@, false),
        ("model"@, "/model"@, "Open the model picker"@, false),
        ("slots"@, "/slots"@, "Show all slots"@, false),
        ("stop"@, "/stop"@, "Stop the running Codex job"@, false),
        ("fresh"@, "/fresh"@, "Reset chat and saved Codex thread"@, false),
        ("help"@, "/help"@, "Show commands"@, false),
    ]
}

/// Names that stand for a command.
pub open spec fn command_aliases() -> Seq<Seq<char>> {
    seq!["commands"@, "list"@, "overview"@, "limits"@, "settings"@, "new"@]
}

/// Every name the composer knows: the commands, then the aliases.
pub open spec fn known_names_spec() -> Seq<Seq<char>> {
    command_table().map_values(|e: (Seq<char>, Seq<char>, Seq<char>, bool)| e.0)
        + command_aliases()
}

/// The views of a table of command specifications.
pub open spec fn spec_views(v: Seq<AgentCommandSpec>) -> Seq<(Seq<char>, Seq<char>, Seq<char>, bool)> {
    v.map_values(|c: AgentCommandSpec| (c.name@, c.usage@, c.description@, c.takes_arg))
}

/// The slash commands.
pub fn agent_command_specs() -> (r: Vec<AgentCommandSpec>)
    ensures
        spec_views(r@) == command_table(),
{
    let r = vec![
        AgentCommandSpec { name: "goal", usage: "/goal <objective>", description: "Set or show this slot's goal", takes_arg: true },
        AgentCommandSpec { name: "clear-goal", usage: "/clear-goal", description: "Clear this slot's goal", takes_arg: false },
        AgentCommandSpec { name: "status", usage: "/status", description: "Show slot status and Codex usage", takes_arg: false },
        AgentCommandSpec { name: "usage", usage: "/usage", description: "Show Codex usage and limits", takes_arg: false },
        AgentCommandSpec { name: "model", usage: "/model", description: "Open the model picker", takes_arg: false },
        AgentCommandSpec { name: "slots", usage: "/slots", description: "Show all slots", takes_arg: false },
        AgentCommandSpec { name: "stop", usage: "/stop", description: "Stop the running Codex job", takes_arg: false },
        AgentCommandSpec { name: "fresh", usage: "/fresh", description: "Reset chat and saved Codex thread", takes_arg: false },
        AgentCommandSpec { name: "help", usage: "/help", description: "Show commands", takes_arg: false },
    ];
    assert(spec_views(r@) =~= command_table());
    r
}

/// The command names, then the aliases.
pub fn known_agent_command_names() -> (r: Vec<&'static str>)
    ensures
        str_views(r@) == known_names_spec(),
{
    let specs = agent_command_specs();
    let mut names: Vec<&'static str> = Vec::new();
    let mut i: usize = 0;
    while i < specs.len()
        invariant
            i <= specs.len(),
            spec_views(specs@) == command_table(),
            str_views(names@) == command_table().take(i as int).map_values(
                |e: (Seq<char>, Seq<char>, Seq<char>, bool)| e.0,
            ),
        decreases specs.len() - i,
    {
        let ghost before = str_views(names@);
        names.push(specs[i].name);
        assert(spec_views(specs@)[i as int].0 == specs@[i as int].name@);
        assert(str_views(names@) =~= before.push(specs@[i as int].name@));
        assert(command_table().take(i + 1).map_values(
            |e: (Seq<char>, Seq<char>, Seq<char>, bool)| e.0,
        ) =~= command_table().take(i as int).map_values(
            |e: (Seq<char>, Seq<char>, Seq<char>, bool)| e.0,
        ).push(command_table()[i as int].0));
        i += 1;
    }
    assert(command_table().take(9) == command_table());
    let aliases = vec!["commands", "list", "overview", "limits", "settings", "new"];
    let ghost mid = str_views(names@);
    let mut j: usize = 0;
    while j < aliases.len()
        invariant
            j <= aliases.len(),
            aliases@.len() == 6,
            str_views(aliases@) == command_aliases(),
            str_views(names@) == mid + command_aliases().take(j as int),
        decreases aliases.len() - j,
    {
        let ghost before = str_views(names@);
        names.push(aliases[j]);
        assert(str_views(names@) =~= before.push(aliases@[j as int]@));
        assert(command_aliases().take(j + 1) =~= command_aliases().take(j as int).push(
            command_aliases()[j as int],
        ));
        j += 1;
    }
    assert(command_aliases().take(6) == command_aliases());
    names
}

/// Index of the first whitespace character.
pub open spec fn first_ws(s: Seq<char>) -> Option<int>
    decreases s.len(),
{
    if s.len() == 0 {
        None
    } else {
        match first_ws(s.drop_last()) {
            Some(k) => Some(k),
            None => if is_ws(s.last()) {
                Some(s.len() - 1)
            } else {
                None
            },
        }
    }
}

/// The known names that start with `p`, in order.
pub open spec fn names_with_prefix(names: Seq<Seq<char>>, p: Seq<char>) -> Seq<Seq<char>>
    decreases names.len(),
{
    if names.len() == 0 {
        Seq::empty()
    } else if starts_with(names.last(), p) {
        names_with_prefix(names.drop_last(), p).push(names.last())
    } else {
        names_with_prefix(names.drop_last(), p)
    }
}

/// The trimmed command text with an unambiguous prefix of a command name
/// completed to the name; anything else is left as it is.
pub open spec fn normalize_command_spec(text: Seq<char>) -> Seq<char> {
    let t = trim(text);
    let name = match first_ws(t) {
        Some(k) => t.take(k),
        None => t,
    };
    let l = lower(name);
    let m = names_with_prefix(known_names_spec(), l);
    if t.len() == 0 {
        Seq::empty()
    } else if known_names_spec().contains(l) {
        t
    } else if m.len() != 1 {
        t
    } else {
        match first_ws(t) {
            Some(k) if trim_start(t.skip(k + 1)).len() > 0 => m[0] + seq![' '] + trim_start(
                t.skip(k + 1),
            ),
            _ => m[0],
        }
    }
}

/// A character of a command name: a lowercase ASCII letter or `-`.
pub open spec fn name_char(c: char) -> bool {
    ('a' <= c <= 'z') || c == '-'
}

/// A non-empty word of name characters.
pub open spec fn name_word(x: Seq<char>) -> bool {
    x.len() > 0 && forall|k: int| 0 <= k < x.len() ==> name_char(#[trigger] x[k])
}

proof fn lemma_word(x: &str)
    requires
        x@ == "goal"@ || x@ == "clear-goal"@ || x@ == "status"@ || x@ == "usage"@ || x@ == "model"@
            || x@ == "slots"@ || x@ == "stop"@ || x@ == "fresh"@ || x@ == "help"@ || x@
            == "commands"@ || x@ == "list"@ || x@ == "overview"@ || x@ == "limits"@ || x@
            == "settings"@ || x@ == "new"@,
    ensures
        name_word(x@),
{
    reveal_strlit("goal");
    reveal_strlit("clear-goal");
    reveal_strlit("status");
    reveal_strlit("usage");
    reveal_strlit("model");
    reveal_strlit("slots");
    reveal_strlit("stop");
    reveal_strlit("fresh");
    reveal_strlit("help");
    reveal_strlit("commands");
    reveal_strlit("list");
    reveal_strlit("overview");
    reveal_strlit("limits");
    reveal_strlit("settings");
    reveal_strlit("new");
}

proof fn lemma_known_names()
    ensures
        forall|i: int| 0 <= i < known_names_spec().len() ==> name_word(#[trigger] known_names_spec()[i]),
{
    lemma_word("goal");
    lemma_word("clear-goal");
    lemma_word("status");
    lemma_word("usage");
    lemma_word("model");
    lemma_word("slots");
    lemma_word("stop");
    lemma_word("fresh");
    lemma_word("help");
    lemma_word("commands");
    lemma_word("list");
    lemma_word("overview");
    lemma_word("limits");
    lemma_word("settings");
    lemma_word("new");
    let k = known_names_spec();
    assert(k =~= seq![
        "goal"@, "clear-goal"@, "status"@, "usage"@, "model"@, "slots"@, "stop"@, "fresh"@,
        "help"@, "commands"@, "list"@, "overview"@, "limits"@, "settings"@, "new"@,
    ]);
}

proof fn lemma_names_with_prefix(names: Seq<Seq<char>>, p: Seq<char>)
    ensures
        forall|i: int|
            0 <= i < names_with_prefix(names, p).len() ==> names.contains(
                #[trigger] names_with_prefix(names, p)[i],
            ),
    decreases names.len(),
{
    if names.len() > 0 {
        let d = names.drop_last();
        lemma_names_with_prefix(d, p);
        let prev = names_with_prefix(d, p);
        assert forall|i: int| 0 <= i < names_with_prefix(names, p).len() implies names.contains(
            #[trigger] names_with_prefix(names, p)[i],
        ) by {
            if i < prev.len() {
                assert(names_with_prefix(names, p)[i] == prev[i]);
                let j = choose|j: int| 0 <= j < d.len() && d[j] == prev[i];
                assert(names[j] == d[j]);
            } else {
                assert(names[names.len() - 1] == names.last());
            }
        }
    }
}

proof fn lemma_name_word_facts(x: Seq<char>)
    requires
        name_word(x),
    ensures
        lower(x) == x,
        forall|k: int| 0 <= k < x.len() ==> !is_ws(#[trigger] x[k]),
{
    assert forall|k: int| 0 <= k < x.len() implies !is_ws(#[trigger] x[k]) by {
        assert(name_char(x[k]));
    }
    assert forall|k: int| 0 <= k < x.len() implies #[trigger] lower(x)[k] == x[k] by {
        assert(name_char(x[k]));
    }
    assert(lower(x) =~= x);
}

/// A known name normalizes to itself.
proof fn lemma_known_name_fixed(x: Seq<char>)
    requires
        known_names_spec().contains(x),
    ensures
        normalize_command_spec(x) == x,
{
    lemma_known_names();
    let i = choose|i: int| 0 <= i < known_names_spec().len() && known_names_spec()[i] == x;
    assert(name_word(known_names_spec()[i]));
    lemma_name_word_facts(x);
    crate::text::lemma_trim_unchanged(x);
    lemma_first_ws(x);
}

/// Normalizing a command's text twice gives what normalizing it once gives.
pub proof fn command_normalizing_is_idempotent(text: Seq<char>)
    ensures
        normalize_command_spec(normalize_command_spec(text)) == normalize_command_spec(text),
{
    let t = trim(text);
    lemma_trim_ends(text);
    let out = normalize_command_spec(text);
    let name = match first_ws(t) {
        Some(k) => t.take(k),
        None => t,
    };
    let m = names_with_prefix(known_names_spec(), lower(name));
    if t.len() == 0 {
        assert(out.len() == 0);
        assert(trim(out) =~= out);
    } else if known_names_spec().contains(lower(name)) || m.len() != 1 {
        assert(out == t);
    } else {
        lemma_names_with_prefix(known_names_spec(), lower(name));
        assert(known_names_spec().contains(m[0]));
        lemma_known_names();
        let i = choose|i: int| 0 <= i < known_names_spec().len() && known_names_spec()[i] == m[0];
        assert(name_word(known_names_spec()[i]));
        let m0 = m[0];
        lemma_name_word_facts(m0);
        match first_ws(t) {
            Some(k) => {
                lemma_first_ws(t);
                let rest = trim_start(t.skip(k + 1));
                if rest.len() > 0 {
                    crate::text::lemma_trim_start_suffix(t.skip(k + 1));
                    assert(rest.last() == t.last());
                    assert(out == m0 + seq![' '] + rest);
                    assert(out[0] == m0[0]);
                    assert(out.last() == rest.last());
                    crate::text::lemma_trim_unchanged(out);
                    lemma_first_ws(out);
                    assert(is_ws(out[m0.len() as int]));
                    assert forall|j: int| 0 <= j < m0.len() implies !is_ws(#[trigger] out[j]) by {
                        assert(out[j] == m0[j]);
                    }
                    assert(first_ws(out) == Some(m0.len() as int));
                    assert(out.take(m0.len() as int) =~= m0);
                } else {
                    assert(out == m0);
                    lemma_known_name_fixed(m0);
                }
            },
            None => {
                assert(out == m0);
                lemma_known_name_fixed(m0);
            },
        }
    }
}

proof fn lemma_first_ws(s: Seq<char>)
    ensures
        first_ws(s) matches Some(k) ==> 0 <= k < s.len() && is_ws(s[k]) && forall|j: int|
            0 <= j < k ==> !is_ws(#[trigger] s[j]),
        first_ws(s) is None ==> forall|j: int| 0 <= j < s.len() ==> !is_ws(#[trigger] s[j]),
    decreases s.len(),
{
    if s.len() > 0 {
        let d = s.drop_last();
        lemma_first_ws(d);
        assert forall|j: int| 0 <= j < d.len() implies d[j] == s[j] by {}
        if first_ws(d) is None && !is_ws(s.last()) {
            assert forall|j: int| 0 <= j < s.len() implies !is_ws(#[trigger] s[j]) by {
                if j < d.len() {
                    assert(d[j] == s[j]);
                }
            }
        }
    }
}

fn find_first_ws(t: &Vec<char>) -> (r: Option<usize>)
    ensures
        r matches Some(k) ==> first_ws(t@) == Some(k as int) && k < t.len(),
        r is None ==> first_ws(t@) is None,
{
    let mut i: usize = 0;
    while i < t.len()
        invariant
            i <= t.len(),
            forall|j: int| 0 <= j < i ==> !is_ws(#[trigger] t@[j]),
        decreases t.len() - i,
    {
        if is_whitespace(t[i]) {
            proof {
                lemma_first_ws(t@);
                if first_ws(t@) is None {
                    assert(!is_ws(t@[i as int]));
                } else {
                    let k = first_ws(t@).unwrap();
                    if k > i {
                        assert(!is_ws(t@[i as int]));
                    }
                }
            }
            return Some(i);
        }
        i += 1;
    }
    proof {
        lemma_first_ws(t@);
    }
    None
}

/// Completes an unambiguous prefix of a command name, keeping the argument.
pub fn normalize_agent_command_text(text: &str) -> (r: String)
    ensures
        r@ == normalize_command_spec(text@),
{
    let t = trim_str(text);
    if t.len() == 0 {
        return String::new();
    }
    let ws = find_first_ws(&t);
    let name = match ws {
        Some(k) => subvec(&t, 0, k),
        None => t.clone(),
    };
    let l = lower_chars(&name);
    let names = known_agent_command_names();
    let ghost kn = known_names_spec();
    let mut m: Vec<Vec<char>> = Vec::new();
    let mut known = false;
    let mut i: usize = 0;
    while i < names.len()
        invariant
            i <= names.len(),
            str_views(names@) == kn,
            kn == known_names_spec(),
            pieces(m@) == names_with_prefix(kn.take(i as int), l@),
            known == kn.take(i as int).contains(l@),
        decreases names.len() - i,
    {
        let cand = chars_of(names[i]);
        assert(cand@ == kn[i as int]);
        assert(kn.take(i + 1).drop_last() == kn.take(i as int));
        assert(kn.take(i + 1).last() == kn[i as int]);
        if chars_eq(&cand, &l) {
            known = true;
            assert(kn.take(i + 1)[i as int] == l@);
        } else {
            proof {
                if known {
                    let kp = kn.take(i as int);
                    let w = choose|w: int| 0 <= w < kp.len() && #[trigger] kp[w] == l@;
                    assert(kn.take(i + 1)[w] == l@);
                }
                let ki = kn.take(i + 1);
                if ki.contains(l@) {
                    let w = choose|w: int| 0 <= w < ki.len() && #[trigger] ki[w] == l@;
                    if w < i {
                        assert(kn.take(i as int)[w] == l@);
                    }
                }
            }
        }
        if chars_starts_with(&cand, &l) {
            let ghost before = pieces(m@);
            m.push(cand);
            assert(pieces(m@) =~= before.push(kn[i as int]));
        }
        i += 1;
    }
    assert(kn.take(names.len() as int) == kn);
    if known || m.len() != 1 {
        return string_of(&t);
    }
    assert(pieces(m@)[0] == m@[0]@);
    let mut out = m[0].clone();
    if let Some(k) = ws {
        let after = subvec(&t, k + 1, t.len());
        let rest = trim_start_chars(&after);
        if rest.len() > 0 {
            out.push(' ');
            extend_chars(&mut out, &rest);
        }
    }
    string_of(&out)
}


// ---------------------------------------------------------------------------
// Suggestions
// ---------------------------------------------------------------------------

/// Sort rank of a suggestion kind: commands, then skills, then plugins.
pub open spec fn kind_rank_spec(kind: Seq<char>) -> nat {
    if kind == "command"@ {
        0
    } else if kind == "skill"@ {
        1
    } else if kind == "plugin"@ {
        2
    } else {
        3
    }
}

/// The sort rank of a suggestion kind.
pub fn suggestion_kind_rank(kind: &str) -> (r: usize)
    ensures
        r == kind_rank_spec(kind@),
{
    let k = chars_of(kind);
    if chars_eq_str(&k, "command") {
        0
    } else if chars_eq_str(&k, "skill") {
        1
    } else if chars_eq_str(&k, "plugin") {
        2
    } else {
        3
    }
}

/// An entry of the composer's suggestion list.
pub struct ComposerSuggestion {
    pub kind: String,
    pub name: String,
    pub insert: String,
    pub description: String,
    pub takes_arg: bool,
}

/// Kind, name, inserted text, description, and whether an argument follows.
pub type SuggestionView = (Seq<char>, Seq<char>, Seq<char>, Seq<char>, bool);

impl View for ComposerSuggestion {
    type V = SuggestionView;

    open spec fn view(&self) -> SuggestionView {
        (self.kind@, self.name@, self.insert@, self.description@, self.takes_arg)
    }
}

/// The views of a vector of suggestions.
pub open spec fn suggestion_views(v: Seq<ComposerSuggestion>) -> Seq<SuggestionView> {
    v.map_values(|s: ComposerSuggestion| s@)
}

/// The suggestions for the slash commands.
pub open spec fn command_suggestions_spec() -> Seq<SuggestionView> {
    command_table().map_values(
        |e: (Seq<char>, Seq<char>, Seq<char>, bool)|
            ("command"@, e.0, seq!['/'] + e.0, e.2, e.3),
    )
}

/// Two suggestions count as one where kind and lowercased name agree.
pub open spec fn same_suggestion(a: SuggestionView, b: SuggestionView) -> bool {
    a.0 == b.0 && lower(a.1) == lower(b.1)
}

/// Whether `s` holds a suggestion that counts as `x`.
pub open spec fn has_same(s: Seq<SuggestionView>, x: SuggestionView) -> bool {
    exists|i: int| 0 <= i < s.len() && same_suggestion(#[trigger] s[i], x)
}

/// The first suggestion of each kind and lowercased name, in order.
pub open spec fn dedupe_spec(s: Seq<SuggestionView>) -> Seq<SuggestionView>
    decreases s.len(),
{
    if s.len() == 0 {
        s
    } else if has_same(s.drop_last(), s.last()) {
        dedupe_spec(s.drop_last())
    } else {
        dedupe_spec(s.drop_last()).push(s.last())
    }
}

/// Lexicographic order of character sequences, which is the order of
/// `String` (UTF-8 keeps the order of code points).
pub open spec fn seq_lt(a: Seq<char>, b: Seq<char>) -> bool
    decreases a.len(),
{
    if a.len() == 0 {
        b.len() > 0
    } else if b.len() == 0 {
        false
    } else if a[0] != b[0] {
        a[0] < b[0]
    } else {
        seq_lt(a.drop_first(), b.drop_first())
    }
}

/// Suggestion `a` sorts strictly before `b`: by kind rank, then lowercased name.
pub open spec fn sorts_before(a: SuggestionView, b: SuggestionView) -> bool {
    kind_rank_spec(a.0) < kind_rank_spec(b.0) || (kind_rank_spec(a.0) == kind_rank_spec(b.0)
        && seq_lt(lower(a.1), lower(b.1)))
}

/// `x` put into `s` behind every element that does not sort after it.
pub open spec fn insert_sorted(s: Seq<SuggestionView>, x: SuggestionView) -> Seq<SuggestionView>
    decreases s.len(),
{
    if s.len() > 0 && sorts_before(x, s.last()) {
        insert_sorted(s.drop_last(), x).push(s.last())
    } else {
        s.push(x)
    }
}

/// Stable sort by [`sorts_before`], as `slice::sort_by` does it.
pub open spec fn sort_spec(s: Seq<SuggestionView>) -> Seq<SuggestionView>
    decreases s.len(),
{
    if s.len() == 0 {
        s
    } else {
        insert_sorted(sort_spec(s.drop_last()), s.last())
    }
}

fn seq_lt_exec(a: &Vec<char>, b: &Vec<char>) -> (r: bool)
    ensures
        r == seq_lt(a@, b@),
{
    let mut i: usize = 0;
    assert(a@.skip(0) == a@ && b@.skip(0) == b@);
    while i < a.len() && i < b.len() && a[i] == b[i]
        invariant
            i <= a.len(),
            i <= b.len(),
            seq_lt(a@, b@) == seq_lt(a@.skip(i as int), b@.skip(i as int)),
        decreases a.len() - i,
    {
        assert(a@.skip(i as int).drop_first() == a@.skip(i + 1));
        assert(b@.skip(i as int).drop_first() == b@.skip(i + 1));
        i += 1;
    }
    if i == a.len() {
        i < b.len()
    } else if i == b.len() {
        false
    } else {
        a[i] < b[i]
    }
}

fn sorts_before_exec(a: &ComposerSuggestion, b: &ComposerSuggestion) -> (r: bool)
    ensures
        r == sorts_before(a@, b@),
{
    let ra = suggestion_kind_rank(a.kind.as_str());
    let rb = suggestion_kind_rank(b.kind.as_str());
    if ra < rb {
        return true;
    }
    if ra > rb {
        return false;
    }
    let na = chars_of(a.name.as_str());
    let nb = chars_of(b.name.as_str());
    let la = lower_chars(&na);
    let lb = lower_chars(&nb);
    seq_lt_exec(&la, &lb)
}

proof fn lemma_insert_at(s: Seq<SuggestionView>, x: SuggestionView, j: int)
    requires
        0 <= j <= s.len(),
        forall|k: int| j <= k < s.len() ==> sorts_before(x, #[trigger] s[k]),
        j == 0 || !sorts_before(x, s[j - 1]),
    ensures
        insert_sorted(s, x) == s.insert(j, x),
    decreases s.len(),
{
    if s.len() > 0 && sorts_before(x, s.last()) {
        assert(j < s.len());
        let d = s.drop_last();
        assert forall|k: int| j <= k < d.len() implies sorts_before(x, #[trigger] d[k]) by {
            assert(d[k] == s[k]);
        }
        if j > 0 {
            assert(d[j - 1] == s[j - 1]);
        }
        lemma_insert_at(d, x, j);
        assert(d.insert(j, x).push(s.last()) =~= s.insert(j, x));
    } else {
        assert(j == s.len());
        assert(s.push(x) =~= s.insert(j, x));
    }
}

fn sort_suggestions(v: &Vec<ComposerSuggestion>) -> (r: Vec<ComposerSuggestion>)
    ensures
        suggestion_views(r@) == sort_spec(suggestion_views(v@)),
{
    let ghost vs = suggestion_views(v@);
    let mut r: Vec<ComposerSuggestion> = Vec::new();
    let ghost n = vs.len();
    let mut i: usize = 0;
    let len = v.len();
    while i < len
        invariant
            i <= len,
            len == n,
            vs.len() == n,
            vs == suggestion_views(v@),
            suggestion_views(r@) == sort_spec(vs.take(i as int)),
        decreases len - i,
    {
        let x = clone_suggestion(&v[i]);
        assert(x@ == vs[i as int]);
        let ghost sorted = suggestion_views(r@);
        let mut j: usize = r.len();
        while j > 0 && sorts_before_exec(&x, &r[j - 1])
            invariant
                j <= r.len(),
                sorted == suggestion_views(r@),
                forall|k: int| j <= k < r.len() ==> sorts_before(x@, #[trigger] sorted[k]),
            decreases j,
        {
            j -= 1;
        }
        proof {
            lemma_insert_at(sorted, x@, j as int);
            assert(vs.take(i + 1).drop_last() == vs.take(i as int));
        }
        r.insert(j, x);
        assert(suggestion_views(r@) =~= sorted.insert(j as int, x@));
        i += 1;
    }
    assert(vs.take(n as int) == vs);
    r
}

fn same_suggestion_exec(a: &ComposerSuggestion, b: &ComposerSuggestion) -> (r: bool)
    ensures
        r == same_suggestion(a@, b@),
{
    let ka = chars_of(a.kind.as_str());
    let kb = chars_of(b.kind.as_str());
    if !chars_eq(&ka, &kb) {
        return false;
    }
    let na = chars_of(a.name.as_str());
    let nb = chars_of(b.name.as_str());
    let la = lower_chars(&na);
    let lb = lower_chars(&nb);
    chars_eq(&la, &lb)
}

fn clone_suggestion(s: &ComposerSuggestion) -> (r: ComposerSuggestion)
    ensures
        r@ == s@,
{
    ComposerSuggestion {
        kind: s.kind.clone(),
        name: s.name.clone(),
        insert: s.insert.clone(),
        description: s.description.clone(),
        takes_arg: s.takes_arg,
    }
}

fn dedupe_suggestions(v: &Vec<ComposerSuggestion>) -> (r: Vec<ComposerSuggestion>)
    ensures
        suggestion_views(r@) == dedupe_spec(suggestion_views(v@)),
{
    let ghost vs = suggestion_views(v@);
    let mut r: Vec<ComposerSuggestion> = Vec::new();
    let mut i: usize = 0;
    while i < v.len()
        invariant
            i <= v.len(),
            vs == suggestion_views(v@),
            suggestion_views(r@) == dedupe_spec(vs.take(i as int)),
        decreases v.len() - i,
    {
        let mut seen = false;
        let mut k: usize = 0;
        while k < i
            invariant
                k <= i,
                i < v.len(),
                vs == suggestion_views(v@),
                seen == exists|m: int| 0 <= m < k && same_suggestion(#[trigger] vs[m], vs[i as int]),
            decreases i - k,
        {
            assert(v@[k as int]@ == vs[k as int] && v@[i as int]@ == vs[i as int]);
            if same_suggestion_exec(&v[k], &v[i]) {
                seen = true;
                assert(same_suggestion(vs[k as int], vs[i as int]));
            } else {
                assert(!same_suggestion(vs[k as int], vs[i as int]));
            }
            k += 1;
        }
        let ghost pre = vs.take(i as int);
        assert(vs.take(i + 1).drop_last() == pre);
        assert(vs.take(i + 1).last() == vs[i as int]);
        assert(seen == has_same(pre, vs[i as int])) by {
            if seen {
                let m = choose|m: int| 0 <= m < i && same_suggestion(#[trigger] vs[m], vs[i as int]);
                assert(pre[m] == vs[m]);
            }
            if has_same(pre, vs[i as int]) {
                let m = choose|m: int| 0 <= m < pre.len() && same_suggestion(#[trigger] pre[m], vs[i as int]);
                assert(pre[m] == vs[m]);
            }
        }
        if !seen {
            let c = clone_suggestion(&v[i]);
            let ghost before = suggestion_views(r@);
            r.push(c);
            assert(suggestion_views(r@) =~= before.push(vs[i as int]));
        }
        i += 1;
    }
    assert(vs.take(v.len() as int) == vs);
    r
}

/// The command suggestions.
pub fn command_suggestions() -> (r: Vec<ComposerSuggestion>)
    ensures
        suggestion_views(r@) == command_suggestions_spec(),
{
    let specs = agent_command_specs();
    let mut r: Vec<ComposerSuggestion> = Vec::new();
    let mut i: usize = 0;
    while i < specs.len()
        invariant
            i <= specs.len(),
            spec_views(specs@) == command_table(),
            suggestion_views(r@) == command_suggestions_spec().take(i as int),
        decreases specs.len() - i,
    {
        let c = &specs[i];
        let mut ins = chars_of("/");
        let nm = chars_of(c.name);
        extend_chars(&mut ins, &nm);
        proof {
            reveal_strlit("/");
        }
        let s = ComposerSuggestion {
            kind: String::from_str("command"),
            name: String::from_str(c.name),
            insert: string_of(&ins),
            description: String::from_str(c.description),
            takes_arg: c.takes_arg,
        };
        assert(spec_views(specs@)[i as int] == (c.name@, c.usage@, c.description@, c.takes_arg));
        assert(ins@ == seq!['/'] + c.name@);
        assert(command_suggestions_spec()[i as int] == ("command"@, c.name@, seq!['/'] + c.name@, c.description@, c.takes_arg));
        let ghost before = suggestion_views(r@);
        r.push(s);
        assert(suggestion_views(r@) =~= before.push(command_suggestions_spec()[i as int]));
        assert(command_suggestions_spec().take(i + 1) =~= command_suggestions_spec().take(
            i as int,
        ).push(command_suggestions_spec()[i as int]));
        i += 1;
    }
    assert(command_suggestions_spec().take(9) == command_suggestions_spec());
    r
}

/// A suggestion written as a JSON object, fields in declaration order.
pub open spec fn suggestion_json(s: SuggestionView) -> Seq<char> {
    "{\"kind\":"@ + json_quote(s.0) + ",\"name\":"@ + json_quote(s.1) + ",\"insert\":"@
        + json_quote(s.2) + ",\"description\":"@ + json_quote(s.3) + ",\"takes_arg\":"@ + (if s.4 {
        "true"@
    } else {
        "false"@
    }) + "}"@
}

/// Suggestions written as a JSON array.
pub open spec fn suggestions_json(v: Seq<SuggestionView>) -> Seq<char> {
    seq!['['] + join(v.map_values(|s: SuggestionView| suggestion_json(s)), seq![',']) + seq![']']
}

fn suggestion_json_exec(s: &ComposerSuggestion) -> (r: Vec<char>)
    ensures
        r@ == suggestion_json(s@),
{
    let mut out = chars_of("{\"kind\":");
    let k = json_string(s.kind.as_str());
    extend_str(&mut out, k.as_str());
    extend_str(&mut out, ",\"name\":");
    let n = json_string(s.name.as_str());
    extend_str(&mut out, n.as_str());
    extend_str(&mut out, ",\"insert\":");
    let i = json_string(s.insert.as_str());
    extend_str(&mut out, i.as_str());
    extend_str(&mut out, ",\"description\":");
    let d = json_string(s.description.as_str());
    extend_str(&mut out, d.as_str());
    extend_str(&mut out, ",\"takes_arg\":");
    if s.takes_arg {
        extend_str(&mut out, "true");
    } else {
        extend_str(&mut out, "false");
    }
    extend_str(&mut out, "}");
    out
}

/// Writes suggestions as a JSON array.
pub fn suggestions_to_json(v: &Vec<ComposerSuggestion>) -> (r: String)
    ensures
        r@ == suggestions_json(suggestion_views(v@)),
{
    let ghost objs = suggestion_views(v@).map_values(|s: SuggestionView| suggestion_json(s));
    let mut parts: Vec<Vec<char>> = Vec::new();
    let mut i: usize = 0;
    while i < v.len()
        invariant
            i <= v.len(),
            objs == suggestion_views(v@).map_values(|s: SuggestionView| suggestion_json(s)),
            pieces(parts@) == objs.take(i as int),
        decreases v.len() - i,
    {
        let o = suggestion_json_exec(&v[i]);
        let ghost before = pieces(parts@);
        parts.push(o);
        assert(pieces(parts@) =~= before.push(objs[i as int]));
        assert(objs.take(i + 1) =~= objs.take(i as int).push(objs[i as int]));
        i += 1;
    }
    assert(objs.take(v.len() as int) == objs);
    let mut comma: Vec<char> = Vec::new();
    comma.push(',');
    assert(comma@ == seq![',']);
    let body = join_chars(&parts, &comma);
    let mut out: Vec<char> = Vec::new();
    out.push('[');
    extend_chars(&mut out, &body);
    out.push(']');
    assert(out@ =~= seq!['['] + body@ + seq![']']);
    string_of(&out)
}

/// The composer's suggestions as JSON for an inline script: the command
/// suggestions, first of each kind and lowercased name, stably sorted by kind
/// rank and lowercased name.
pub open spec fn composer_json_spec() -> Seq<char> {
    script_escape_spec(suggestions_json(sort_spec(dedupe_spec(command_suggestions_spec()))))
}

/// The suggestion list of the composer, ready for an inline script.
pub fn agent_composer_suggestions_json(_config: &crate::shared::Config) -> (r: String)
    ensures
        r@ == composer_json_spec(),
{
    let s = command_suggestions();
    let d = dedupe_suggestions(&s);
    let sorted = sort_suggestions(&d);
    let json = suggestions_to_json(&sorted);
    json_for_inline_script(json.as_str())
}

// ---------------------------------------------------------------------------
// Skills and plugins
// ---------------------------------------------------------------------------

/// All leading `c` removed.
pub open spec fn strip_leading(s: Seq<char>, c: char) -> Seq<char>
    decreases s.len(),
{
    if s.len() > 0 && s[0] == c {
        strip_leading(s.drop_first(), c)
    } else {
        s
    }
}

/// All trailing `c` removed.
pub open spec fn strip_trailing(s: Seq<char>, c: char) -> Seq<char>
    decreases s.len(),
{
    if s.len() > 0 && s.last() == c {
        strip_trailing(s.drop_last(), c)
    } else {
        s
    }
}

/// `str::trim_matches` with a character.
pub open spec fn trim_matches(s: Seq<char>, c: char) -> Seq<char> {
    strip_trailing(strip_leading(s, c), c)
}

fn trim_matches_chars(v: &Vec<char>, c: char) -> (r: Vec<char>)
    ensures
        r@ == trim_matches(v@, c),
{
    let mut i: usize = 0;
    assert(v@.skip(0) == v@);
    while i < v.len() && v[i] == c
        invariant
            i <= v.len(),
            strip_leading(v@, c) == strip_leading(v@.skip(i as int), c),
        decreases v.len() - i,
    {
        assert(v@.skip(i as int).drop_first() == v@.skip(i + 1));
        i += 1;
    }
    let a = subvec(v, i, v.len());
    assert(strip_leading(a@, c) == a@);
    let mut j: usize = a.len();
    assert(a@.take(a.len() as int) == a@);
    while j > 0 && a[j - 1] == c
        invariant
            j <= a.len(),
            strip_trailing(a@, c) == strip_trailing(a@.take(j as int), c),
        decreases j,
    {
        assert(a@.take(j as int).drop_last() == a@.take(j - 1));
        j -= 1;
    }
    subvec(&a, 0, j)
}

/// The value of a `field: value` line of a YAML header, trimmed of quotes and
/// whitespace; `None` where the line is another field or the value is empty.
pub open spec fn yaml_field_spec(line: Seq<char>, field: Seq<char>) -> Option<Seq<char>> {
    let t = trim(line);
    let p = field + seq![':'];
    if starts_with(t, p) && trim(t.skip(p.len() as int)).len() > 0 {
        Some(trim(trim_matches(trim_matches(trim(t.skip(p.len() as int)), '"'), '\'')))
    } else {
        None
    }
}

/// Reads `field: value` from one line of a YAML header.
pub fn yaml_string_field(line: &str, field: &str) -> (r: Option<String>)
    ensures
        r matches Some(s) ==> yaml_field_spec(line@, field@) == Some(s@),
        r is None ==> yaml_field_spec(line@, field@) is None,
{
    let t = trim_str(line);
    let mut p = chars_of(field);
    p.push(':');
    assert(p@ == field@ + seq![':']);
    if !chars_starts_with(&t, &p) {
        return None;
    }
    let rest = subvec(&t, p.len(), t.len());
    assert(rest@ == t@.skip(p@.len() as int));
    assert(p@ == field@ + seq![':']);
    let v = trim_chars(&rest);
    if v.len() == 0 {
        return None;
    }
    let a = trim_matches_chars(&v, '"');
    let b = trim_matches_chars(&a, '\'');
    let c = trim_chars(&b);
    Some(string_of(&c))
}

/// The first `description:` value among the lines of a skill file.
pub open spec fn first_description(ls: Seq<Seq<char>>) -> Option<Seq<char>>
    decreases ls.len(),
{
    if ls.len() == 0 {
        None
    } else {
        match yaml_field_spec(ls[0], "description"@) {
            Some(d) => Some(d),
            None => first_description(ls.drop_first()),
        }
    }
}

/// The description that a `SKILL.md` text declares in its header.
pub fn skill_description_from_file(raw: &str) -> (r: Option<String>)
    ensures
        r matches Some(s) ==> first_description(lines(raw@)) == Some(s@),
        r is None ==> first_description(lines(raw@)) is None,
{
    let v = chars_of(raw);
    let ls = lines_of(&v);
    let ghost lv = pieces(ls@);
    let mut i: usize = 0;
    assert(lv.skip(0) == lv);
    while i < ls.len()
        invariant
            i <= ls.len(),
            lv == pieces(ls@),
            lv == lines(v@),
            v@ == raw@,
            first_description(lv) == first_description(lv.skip(i as int)),
        decreases ls.len() - i,
    {
        let line = string_of(&ls[i]);
        assert(lv.skip(i as int)[0] == ls@[i as int]@);
        assert(lv.skip(i as int).drop_first() == lv.skip(i + 1));
        let f = yaml_string_field(line.as_str(), "description");
        let ghost rest = lv.skip(i as int);
        assert(rest.len() > 0);
        assert(line@ == rest[0]);
        if f.is_some() {
            assert(yaml_field_spec(rest[0], "description"@) == Some(f.unwrap()@));
            assert(first_description(rest) == Some(f.unwrap()@));
            return f;
        }
        i += 1;
    }
    None
}

/// A string field at the top level of a plugin manifest.
pub fn plugin_manifest_field(manifest: &str, field: &str) -> (r: Option<String>)
    ensures
        opt_seq(r) == json_str_path(manifest@, seq![field@]),
{
    let path: [&str; 1] = [field];
    assert(str_views(path@) =~= seq![field@]);
    json_str_at(manifest, &path)
}

/// The short description of a plugin manifest, else its description.
pub open spec fn manifest_description_spec(manifest: Seq<char>) -> Option<Seq<char>> {
    match json_str_path(manifest, seq!["interface"@, "shortDescription"@]) {
        Some(d) => Some(d),
        None => json_str_path(manifest, seq!["description"@]),
    }
}

/// The description that a plugin manifest declares.
pub fn plugin_manifest_description(manifest: &str) -> (r: Option<String>)
    ensures
        opt_seq(r) == manifest_description_spec(manifest@),
{
    let path: [&str; 2] = ["interface", "shortDescription"];
    assert(str_views(path@) =~= seq!["interface"@, "shortDescription"@]);
    let first = json_str_at(manifest, &path);
    if first.is_some() {
        return first;
    }
    let path2: [&str; 1] = ["description"];
    assert(str_views(path2@) =~= seq!["description"@]);
    json_str_at(manifest, &path2)
}

/// What the service found about one `SKILL.md` file under the Codex home.
pub struct SkillFile {
    /// Name of the directory that holds the file.
    pub dir_name: Option<String>,
    /// `None` where no ancestor is a plugin root; else the text of that
    /// plugin's manifest, where it could be read.
    pub plugin_manifest: Option<Option<String>>,
    /// The text of the file, where it could be read.
    pub text: Option<String>,
}

/// The suggestion for a skill file, if it has a name.
pub open spec fn skill_suggestion_spec(
    dir_name: Option<Seq<char>>,
    plugin_manifest: Option<Option<Seq<char>>>,
    text: Option<Seq<char>>,
) -> Option<SuggestionView> {
    match dir_name {
        None => None,
        Some(dir) => {
            let name = match plugin_manifest {
                None => Some(dir),
                Some(None) => None,
                Some(Some(m)) => match json_str_path(m, seq!["name"@]) {
                    Some(p) => Some(p + seq![':'] + dir),
                    None => None,
                },
            };
            let desc = match text {
                Some(t) => match first_description(lines(t)) {
                    Some(d) => d,
                    None => "Codex skill"@,
                },
                None => "Codex skill"@,
            };
            match name {
                Some(n) => Some(("skill"@, n, seq!['$'] + n, compact_spec(desc, 120), false)),
                None => None,
            }
        },
    }
}

/// The view of what was found about a skill file.
pub open spec fn skill_file_view(f: SkillFile) -> (
    Option<Seq<char>>,
    Option<Option<Seq<char>>>,
    Option<Seq<char>>,
) {
    (
        match f.dir_name {
            Some(s) => Some(s@),
            None => None,
        },
        match f.plugin_manifest {
            None => None,
            Some(None) => Some(None),
            Some(Some(m)) => Some(Some(m@)),
        },
        match f.text {
            Some(s) => Some(s@),
            None => None,
        },
    )
}


/// The skill suggestions, in the order of the files.
pub open spec fn skills_spec(
    files: Seq<(Option<Seq<char>>, Option<Option<Seq<char>>>, Option<Seq<char>>)>,
) -> Seq<SuggestionView>
    decreases files.len(),
{
    if files.len() == 0 {
        Seq::empty()
    } else {
        let f = files.last();
        match skill_suggestion_spec(f.0, f.1, f.2) {
            Some(x) => skills_spec(files.drop_last()).push(x),
            None => skills_spec(files.drop_last()),
        }
    }
}

fn skill_suggestion(f: &SkillFile) -> (r: Option<ComposerSuggestion>)
    ensures
        r matches Some(x) ==> skill_suggestion_spec(
            skill_file_view(*f).0,
            skill_file_view(*f).1,
            skill_file_view(*f).2,
        ) == Some(x@),
        r is None ==> skill_suggestion_spec(
            skill_file_view(*f).0,
            skill_file_view(*f).1,
            skill_file_view(*f).2,
        ) is None,
{
    let dir = match &f.dir_name {
        Some(d) => chars_of(d.as_str()),
        None => return None,
    };
    let name: Vec<char> = match &f.plugin_manifest {
        None => dir.clone(),
        Some(None) => return None,
        Some(Some(m)) => match plugin_manifest_field(m.as_str(), "name") {
            Some(p) => {
                let mut n = chars_of(p.as_str());
                n.push(':');
                extend_chars(&mut n, &dir);
                n
            },
            None => return None,
        },
    };
    let desc: String = match &f.text {
        Some(t) => match skill_description_from_file(t.as_str()) {
            Some(d) => d,
            None => String::from_str("Codex skill"),
        },
        None => String::from_str("Codex skill"),
    };
    let mut ins: Vec<char> = Vec::new();
    ins.push('$');
    extend_chars(&mut ins, &name);
    let s = ComposerSuggestion {
        kind: String::from_str("skill"),
        name: string_of(&name),
        insert: string_of(&ins),
        description: compact_text(desc.as_str(), 120),
        takes_arg: false,
    };
    Some(s)
}

/// The skill suggestions of the `SKILL.md` files found under the Codex home:
/// `$name` or, inside a plugin, `$plugin:name`, with the header's description.
pub fn discover_codex_skill_suggestions(files: &Vec<SkillFile>) -> (r: Vec<ComposerSuggestion>)
    ensures
        suggestion_views(r@) == skills_spec(files@.map_values(|f: SkillFile| skill_file_view(f))),
{
    let ghost fv = files@.map_values(|f: SkillFile| skill_file_view(f));
    let mut r: Vec<ComposerSuggestion> = Vec::new();
    let mut i: usize = 0;
    while i < files.len()
        invariant
            i <= files.len(),
            fv == files@.map_values(|f: SkillFile| skill_file_view(f)),
            suggestion_views(r@) == skills_spec(fv.take(i as int)),
        decreases files.len() - i,
    {
        assert(fv.take(i + 1).drop_last() == fv.take(i as int));
        assert(fv.take(i + 1).last() == skill_file_view(files@[i as int]));
        match skill_suggestion(&files[i]) {
            Some(x) => {
                let ghost before = suggestion_views(r@);
                r.push(x);
                assert(suggestion_views(r@) =~= before.push(x@));
            },
            None => {},
        }
        i += 1;
    }
    assert(fv.take(files.len() as int) == fv);
    r
}

/// The suggestion for a plugin manifest, if it names the plugin.
pub open spec fn plugin_suggestion_spec(manifest: Option<Seq<char>>) -> Option<SuggestionView> {
    match manifest {
        None => None,
        Some(m) => match json_str_path(m, seq!["name"@]) {
            None => None,
            Some(n) => {
                let desc = match manifest_description_spec(m) {
                    Some(d) => d,
                    None => "Codex plugin"@,
                };
                Some(("plugin"@, n, seq!['#'] + n, compact_spec(desc, 120), false))
            },
        },
    }
}

/// The plugin suggestions, in the order of the manifests.
pub open spec fn plugins_spec(manifests: Seq<Option<Seq<char>>>) -> Seq<SuggestionView>
    decreases manifests.len(),
{
    if manifests.len() == 0 {
        Seq::empty()
    } else {
        match plugin_suggestion_spec(manifests.last()) {
            Some(x) => plugins_spec(manifests.drop_last()).push(x),
            None => plugins_spec(manifests.drop_last()),
        }
    }
}

/// The views of optional strings.
pub open spec fn opt_views(v: Seq<Option<String>>) -> Seq<Option<Seq<char>>> {
    v.map_values(
        |o: Option<String>|
            match o {
                Some(s) => Some(s@),
                None => None,
            },
    )
}

fn plugin_suggestion(m: &Option<String>) -> (r: Option<ComposerSuggestion>)
    ensures
        r matches Some(x) ==> plugin_suggestion_spec(
            match m {
                Some(s) => Some(s@),
                None => None,
            },
        ) == Some(x@),
        r is None ==> plugin_suggestion_spec(
            match m {
                Some(s) => Some(s@),
                None => None,
            },
        ) is None,
{
    let text = match m {
        Some(t) => t,
        None => return None,
    };
    let name = match plugin_manifest_field(text.as_str(), "name") {
        Some(n) => n,
        None => return None,
    };
    let desc = match plugin_manifest_description(text.as_str()) {
        Some(d) => d,
        None => String::from_str("Codex plugin"),
    };
    let mut ins: Vec<char> = Vec::new();
    ins.push('#');
    let nv = chars_of(name.as_str());
    extend_chars(&mut ins, &nv);
    Some(
        ComposerSuggestion {
            kind: String::from_str("plugin"),
            name,
            insert: string_of(&ins),
            description: compact_text(desc.as_str(), 120),
            takes_arg: false,
        },
    )
}

/// The plugin suggestions: `#name` for each plugin manifest found under the
/// Codex home (`None` where a manifest could not be read).
pub fn discover_codex_plugin_suggestions(manifests: &Vec<Option<String>>) -> (r: Vec<
    ComposerSuggestion,
>)
    ensures
        suggestion_views(r@) == plugins_spec(opt_views(manifests@)),
{
    let ghost mv = opt_views(manifests@);
    let mut r: Vec<ComposerSuggestion> = Vec::new();
    let mut i: usize = 0;
    while i < manifests.len()
        invariant
            i <= manifests.len(),
            mv == opt_views(manifests@),
            suggestion_views(r@) == plugins_spec(mv.take(i as int)),
        decreases manifests.len() - i,
    {
        assert(mv.take(i + 1).drop_last() == mv.take(i as int));
        assert(mv.take(i + 1).last() == mv[i as int]);
        match plugin_suggestion(&manifests[i]) {
            Some(x) => {
                let ghost before = suggestion_views(r@);
                r.push(x);
                assert(suggestion_views(r@) =~= before.push(x@));
            },
            None => {},
        }
        i += 1;
    }
    assert(mv.take(manifests.len() as int) == mv);
    r
}

} // verus!
