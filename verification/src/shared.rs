//! Small text helpers used across the service: truncation, names, paths,
//! durations, numbers and the page frame.
use vstd::prelude::*;
use crate::harness::{AgentHarness, harness_display};
use crate::html::{attr_escape_spec, html_attr_escape, html_escape, html_escape_spec};
use crate::num::{int_decimal, nat_decimal, push_decimal, push_i64};
use crate::split::{join, join_chars, pieces, split_on, split_on_char, words, words_of};
use crate::text::{
    char_is_ascii_alnum, chars_eq_str, chars_find_char, chars_of, chars_starts_with_str,
    extend_chars, extend_str, find_char, is_ascii_alnum, lower, lower_chars, starts_with,
    string_of, subvec, trim, trim_chars, trim_str, ascii_lower, char_to_ascii_lower, is_ascii_digit, is_ascii_lower, is_ascii_upper,
};

verus! {

/// Longest slot name, in characters.
pub const MAX_AGENT_SLOT_CHARS: usize = 32;

/// The suffix that marks truncated text.
pub open spec fn truncated_marker() -> Seq<char> {
    "\n...[truncated]"@
}

/// `value` trimmed; where longer than `max` characters, its first `max - 20`
/// characters (none where `max < 20`) followed by the truncation marker.
pub open spec fn truncate_spec(value: Seq<char>, max: nat) -> Seq<char> {
    let v = trim(value);
    if v.len() <= max {
        v
    } else {
        v.take(
            if max >= 20 {
                max - 20
            } else {
                0
            },
        ) + truncated_marker()
    }
}

/// [`truncate_text`] on characters.
pub fn truncate_chars(value: &Vec<char>, max_chars: usize) -> (r: Vec<char>)
    ensures
        r@ == truncate_spec(value@, max_chars as nat),
{
    let v = trim_chars(value);
    if v.len() <= max_chars {
        return v;
    }
    let keep = if max_chars >= 20 {
        max_chars - 20
    } else {
        0
    };
    let mut r = subvec(&v, 0, keep);
    extend_str(&mut r, "\n...[truncated]");
    r
}

/// Trims `value` and cuts it to at most about `max_chars` characters.
pub fn truncate_text(value: &str, max_chars: usize) -> (r: String)
    ensures
        r@ == truncate_spec(value@, max_chars as nat),
{
    let v = chars_of(value);
    let r = truncate_chars(&v, max_chars);
    string_of(&r)
}

/// Truncated text is never longer than the limit, once the limit leaves room
/// for the marker; text that fits comes back trimmed and whole.
pub proof fn truncate_respects_limit(value: Seq<char>, max: nat)
    requires
        max >= 15,
    ensures
        truncate_spec(value, max).len() <= max,
        trim(value).len() <= max ==> truncate_spec(value, max) == trim(value),
{
    reveal_strlit("\n...[truncated]");
}

/// Every newline replaced by a space.
pub open spec fn newlines_to_spaces(s: Seq<char>) -> Seq<char> {
    s.map_values(|c: char| if c == '\n' { ' ' } else { c })
}

/// The words of `value` joined by single spaces, truncated, on one line.
pub open spec fn compact_spec(value: Seq<char>, max: nat) -> Seq<char> {
    newlines_to_spaces(truncate_spec(join(words(value), seq![' ']), max))
}

/// Collapses whitespace runs to single spaces and truncates to one line.
pub fn compact_text(value: &str, max_chars: usize) -> (r: String)
    ensures
        r@ == compact_spec(value@, max_chars as nat),
{
    let v = chars_of(value);
    let w = words_of(&v);
    let mut sp: Vec<char> = Vec::new();
    sp.push(' ');
    assert(sp@ == seq![' ']);
    let joined = join_chars(&w, &sp);
    let t = truncate_chars(&joined, max_chars);
    let mut out: Vec<char> = Vec::new();
    let mut i: usize = 0;
    while i < t.len()
        invariant
            i <= t.len(),
            out@ == newlines_to_spaces(t@.take(i as int)),
        decreases t.len() - i,
    {
        out.push(if t[i] == '\n' { ' ' } else { t[i] });
        i += 1;
        assert(newlines_to_spaces(t@.take(i as int)) =~= newlines_to_spaces(t@.take(i - 1)).push(
            if t@[i - 1] == '\n' { ' ' } else { t@[i - 1] },
        ));
    }
    assert(t@.take(t.len() as int) == t@);
    string_of(&out)
}

/// The character sequences of a vector of strings.
pub open spec fn string_views(v: Seq<String>) -> Seq<Seq<char>> {
    v.map_values(|s: String| s@)
}

/// Converts pieces of characters to strings.
pub fn strings_of(p: &Vec<Vec<char>>) -> (r: Vec<String>)
    ensures
        string_views(r@) == pieces(p@),
{
    let mut r: Vec<String> = Vec::new();
    let mut i: usize = 0;
    while i < p.len()
        invariant
            i <= p.len(),
            string_views(r@) == pieces(p@.take(i as int)),
        decreases p.len() - i,
    {
        let s = string_of(&p[i]);
        let ghost before = string_views(r@);
        r.push(s);
        assert(string_views(r@) =~= before.push(s@));
        assert(pieces(p@.take(i + 1)) =~= pieces(p@.take(i as int)).push(p@[i as int]@));
        i += 1;
    }
    assert(p@.take(p.len() as int) == p@);
    r
}

/// Converts strings to pieces of characters.
pub fn pieces_of(v: &Vec<String>) -> (r: Vec<Vec<char>>)
    ensures
        pieces(r@) == string_views(v@),
{
    let mut r: Vec<Vec<char>> = Vec::new();
    let mut i: usize = 0;
    while i < v.len()
        invariant
            i <= v.len(),
            pieces(r@) == string_views(v@.take(i as int)),
        decreases v.len() - i,
    {
        let c = chars_of(v[i].as_str());
        let ghost before = pieces(r@);
        r.push(c);
        assert(pieces(r@) =~= before.push(c@));
        assert(string_views(v@.take(i + 1)) =~= string_views(v@.take(i as int)).push(
            v@[i as int]@,
        ));
        i += 1;
    }
    assert(v@.take(v.len() as int) == v@);
    r
}

/// Splits a configuration value into whitespace-separated arguments.
pub fn split_env_args(value: &str) -> (r: Vec<String>)
    ensures
        string_views(r@) == words(value@),
{
    let v = chars_of(value);
    let w = words_of(&v);
    strings_of(&w)
}

/// The slot-name characters kept, lowercased: ASCII letters and digits, `-`, `_`.
pub open spec fn slot_name_spec(s: Seq<char>) -> Seq<char>
    decreases s.len(),
{
    if s.len() == 0 {
        Seq::empty()
    } else {
        let c = s.last();
        if is_ascii_alnum(c) || c == '-' || c == '_' {
            slot_name_spec(s.drop_last()).push(ascii_lower(c))
        } else {
            slot_name_spec(s.drop_last())
        }
    }
}

/// A character that a normalized slot name may hold.
pub open spec fn slot_char(c: char) -> bool {
    is_ascii_digit(c) || is_ascii_lower(c) || c == '-' || c == '_'
}

proof fn lemma_slot_name_chars(s: Seq<char>)
    ensures
        forall|k: int| 0 <= k < slot_name_spec(s).len() ==> slot_char(#[trigger] slot_name_spec(s)[k]),
    decreases s.len(),
{
    if s.len() > 0 {
        lemma_slot_name_chars(s.drop_last());
        let c = s.last();
        let prev = slot_name_spec(s.drop_last());
        if is_ascii_alnum(c) || c == '-' || c == '_' {
            if is_ascii_upper(c) {
                assert('a' <= ascii_lower(c) <= 'z');
            }
            assert(slot_char(ascii_lower(c)));
            assert forall|k: int| 0 <= k < slot_name_spec(s).len() implies slot_char(
                #[trigger] slot_name_spec(s)[k],
            ) by {
                if k < prev.len() {
                    assert(slot_name_spec(s)[k] == prev[k]);
                }
            }
        }
    }
}

proof fn lemma_slot_name_fixed(s: Seq<char>)
    requires
        forall|k: int| 0 <= k < s.len() ==> slot_char(#[trigger] s[k]),
    ensures
        slot_name_spec(s) == s,
    decreases s.len(),
{
    if s.len() > 0 {
        lemma_slot_name_fixed(s.drop_last());
        assert(slot_char(s.last()));
        assert(s.drop_last().push(s.last()) =~= s);
    }
}

/// Normalizing a slot name twice gives what normalizing it once gives, and a
/// normalized name holds only ASCII lowercase letters, digits, `-` and `_`.
pub proof fn slot_name_normalizing_is_idempotent(v: Seq<char>)
    ensures
        slot_name_spec(trim(slot_name_spec(trim(v)))) == slot_name_spec(trim(v)),
        forall|k: int|
            0 <= k < slot_name_spec(trim(v)).len() ==> slot_char(#[trigger] slot_name_spec(trim(v))[k]),
{
    let n = slot_name_spec(trim(v));
    lemma_slot_name_chars(trim(v));
    if n.len() > 0 {
        assert(slot_char(n[0]) && slot_char(n.last()));
        crate::text::lemma_trim_unchanged(n);
    } else {
        assert(trim(n) =~= n);
    }
    lemma_slot_name_fixed(n);
}

/// [`normalize_agent_slot_name`] on characters.
pub fn slot_name_chars(v: &Vec<char>) -> (r: Vec<char>)
    ensures
        r@ == slot_name_spec(trim(v@)),
{
    let t = trim_chars(v);
    let mut r: Vec<char> = Vec::new();
    let mut i: usize = 0;
    while i < t.len()
        invariant
            i <= t.len(),
            r@ == slot_name_spec(t@.take(i as int)),
        decreases t.len() - i,
    {
        let c = t[i];
        if char_is_ascii_alnum(c) || c == '-' || c == '_' {
            r.push(char_to_ascii_lower(c));
        }
        i += 1;
        assert(t@.take(i as int).drop_last() == t@.take(i - 1));
    }
    assert(t@.take(t.len() as int) == t@);
    r
}

/// Keeps ASCII letters, digits, `-` and `_` of the trimmed value, lowercased.
pub fn normalize_agent_slot_name(value: &str) -> (r: String)
    ensures
        r@ == slot_name_spec(trim(value@)),
{
    let v = chars_of(value);
    let r = slot_name_chars(&v);
    string_of(&r)
}

/// `PathBuf::join` on Unix: an absolute `rest` replaces `base`; otherwise a
/// `/` separates them unless `base` is empty or ends with one.
pub open spec fn path_join(base: Seq<char>, rest: Seq<char>) -> Seq<char> {
    if rest.len() > 0 && rest[0] == '/' {
        rest
    } else if base.len() == 0 || base.last() == '/' {
        base + rest
    } else {
        base + seq!['/'] + rest
    }
}

/// `~`, `~/…` and `$HOME/…` read against the home directory `home`; any other
/// value trimmed and kept.
pub open spec fn expand_spec(value: Seq<char>, home: Seq<char>) -> Seq<char> {
    let t = trim(value);
    if t == "~"@ {
        home
    } else if starts_with(t, "~/"@) {
        path_join(home, t.skip(2))
    } else if starts_with(t, "$HOME/"@) {
        path_join(home, t.skip(6))
    } else {
        t
    }
}

fn path_join_chars(base: &Vec<char>, rest: &Vec<char>) -> (r: Vec<char>)
    ensures
        r@ == path_join(base@, rest@),
{
    if rest.len() > 0 && rest[0] == '/' {
        return rest.clone();
    }
    let mut r = base.clone();
    if !(base.len() == 0 || base[base.len() - 1] == '/') {
        r.push('/');
    }
    extend_chars(&mut r, rest);
    r
}

fn expand_chars(value: &Vec<char>, home: &Vec<char>) -> (r: Vec<char>)
    ensures
        r@ == expand_spec(value@, home@),
{
    let t = trim_chars(value);
    if chars_eq_str(&t, "~") {
        return home.clone();
    }
    if chars_starts_with_str(&t, "~/") {
        proof {
            reveal_strlit("~/");
        }
        let rest = subvec(&t, 2, t.len());
        return path_join_chars(home, &rest);
    }
    if chars_starts_with_str(&t, "$HOME/") {
        proof {
            reveal_strlit("$HOME/");
        }
        let rest = subvec(&t, 6, t.len());
        return path_join_chars(home, &rest);
    }
    t
}

/// Reads `~`, `~/path` and `$HOME/path` against the home directory `home`.
pub fn expand_local_path(value: &str, home: &str) -> (r: String)
    ensures
        r@ == expand_spec(value@, home@),
{
    let v = chars_of(value);
    let h = chars_of(home);
    let r = expand_chars(&v, &h);
    string_of(&r)
}

/// A configured agent slot: its name and working directory.
pub struct AgentSlotSeed {
    pub name: String,
    pub workdir: String,
}

/// The seed that one comma-separated item describes, if any: `name` or
/// `name:workdir`, the name normalized and at most 32 characters long.
pub open spec fn seed_of(item: Seq<char>, default_workdir: Seq<char>, home: Seq<char>) -> Option<
    (Seq<char>, Seq<char>),
> {
    let it = trim(item);
    if it.len() == 0 {
        None
    } else {
        let name = match find_char(it, ':') {
            Some(k) => it.take(k),
            None => it,
        };
        let workdir = match find_char(it, ':') {
            Some(k) => expand_spec(it.skip(k + 1), home),
            None => default_workdir,
        };
        let n = slot_name_spec(trim(name));
        if n.len() == 0 || n.len() > MAX_AGENT_SLOT_CHARS {
            None
        } else {
            Some((n, workdir))
        }
    }
}

/// An item `name:workdir` names a slot working in `workdir` read against
/// the home directory, and a bare `name` one working in the default
/// directory: the text after the first colon, not the default, decides
/// where the slot works.
pub proof fn seed_workdir_is_the_named_directory(
    name: Seq<char>,
    workdir: Seq<char>,
    default_workdir: Seq<char>,
    home: Seq<char>,
)
    requires
        name.len() > 0,
        !crate::text::is_ws(name[0]),
        forall|i: int| 0 <= i < name.len() ==> name[i] != ':',
        workdir.len() == 0 || !crate::text::is_ws(workdir.last()),
    ensures
        seed_of(name + seq![':'] + workdir, default_workdir, home) matches Some(s) ==> s.1
            == expand_spec(workdir, home),
        seed_of(name + seq![':'] + workdir, default_workdir, home) matches Some(s) ==> s.0
            == slot_name_spec(trim(name)),
        name.len() > 0 && !crate::text::is_ws(name.last()) ==> (
        seed_of(name, default_workdir, home) matches Some(s) ==> s.1 == default_workdir),
{
    let item = name + seq![':'] + workdir;
    assert(item[0] == name[0]);
    assert(item.last() == if workdir.len() == 0 { ':' } else { workdir.last() });
    crate::text::lemma_trim_unchanged(item);
    assert forall|m: int| 0 <= m < name.len() implies item[m] != ':' by {
        assert(item[m] == name[m]);
    }
    assert(item[name.len() as int] == ':');
    crate::text::lemma_find_char_first(item, ':', name.len() as int);
    assert(item.take(name.len() as int) =~= name);
    assert(item.skip(name.len() as int + 1) =~= workdir);
    if name.len() > 0 && !crate::text::is_ws(name.last()) {
        crate::text::lemma_trim_unchanged(name);
        crate::text::lemma_find_char_first(name, ':', name.len() as int);
    }
}

/// The seeds of all items, in order.
pub open spec fn seeds_of(items: Seq<Seq<char>>, default_workdir: Seq<char>, home: Seq<char>) -> Seq<
    (Seq<char>, Seq<char>),
>
    decreases items.len(),
{
    if items.len() == 0 {
        Seq::empty()
    } else {
        let w = seeds_of(items.drop_last(), default_workdir, home);
        match seed_of(items.last(), default_workdir, home) {
            Some(s) => w.push(s),
            None => w,
        }
    }
}

/// The name and working directory of each seed.
pub open spec fn seed_views(v: Seq<AgentSlotSeed>) -> Seq<(Seq<char>, Seq<char>)> {
    v.map_values(|s: AgentSlotSeed| (s.name@, s.workdir@))
}

/// The slot list that a configuration value describes; `codex` where none is configured.
pub open spec fn slot_seeds_spec(raw: Option<Seq<char>>, default_workdir: Seq<char>, home: Seq<char>) -> Seq<
    (Seq<char>, Seq<char>),
> {
    let r = match raw {
        Some(s) => s,
        None => "codex"@,
    };
    seeds_of(split_on(r, ','), default_workdir, home)
}

/// Reads the comma-separated slot list `name[:workdir],...`; `home` is the
/// home directory against which `~` is read.
pub fn parse_agent_slot_seeds(raw: Option<&str>, default_workdir: &str, home: &str) -> (r: Vec<
    AgentSlotSeed,
>)
    ensures
        seed_views(r@) == slot_seeds_spec(
            match raw {
                Some(s) => Some(s@),
                None => None,
            },
            default_workdir@,
            home@,
        ),
{
    let text = match raw {
        Some(s) => chars_of(s),
        None => chars_of("codex"),
    };
    let dw = chars_of(default_workdir);
    let h = chars_of(home);
    let items = split_on_char(&text, ',');
    let ghost iv = pieces(items@);
    let mut r: Vec<AgentSlotSeed> = Vec::new();
    let mut i: usize = 0;
    while i < items.len()
        invariant
            i <= items.len(),
            iv == pieces(items@),
            iv == split_on(text@, ','),
            seed_views(r@) == seeds_of(iv.take(i as int), dw@, h@),
        decreases items.len() - i,
    {
        let it = trim_chars(&items[i]);
        assert(iv.take(i + 1).drop_last() == iv.take(i as int));
        assert(iv.take(i + 1).last() == items@[i as int]@);
        if it.len() > 0 {
            let (name, workdir) = match chars_find_char(&it, ':') {
                Some(k) => {
                    let rest = subvec(&it, k + 1, it.len());
                    (subvec(&it, 0, k), expand_chars(&rest, &h))
                },
                None => (it.clone(), dw.clone()),
            };
            let n = slot_name_chars(&name);
            if !(n.len() == 0 || n.len() > MAX_AGENT_SLOT_CHARS) {
                let seed = AgentSlotSeed { name: string_of(&n), workdir: string_of(&workdir) };
                let ghost before = seed_views(r@);
                r.push(seed);
                assert(seed_views(r@) =~= before.push((n@, workdir@)));
            }
        }
        i += 1;
    }
    assert(iv.take(items.len() as int) == iv);
    r
}

/// Whether a flag value reads as on: `1`, `true`, `yes` or `on`, trimmed and
/// without regard to ASCII case; `default` where unset.
pub open spec fn flag_spec(value: Option<Seq<char>>, default: bool) -> bool {
    match value {
        Some(v) => {
            let k = lower(trim(v));
            k == "1"@ || k == "true"@ || k == "yes"@ || k == "on"@
        },
        None => default,
    }
}

/// Reads a boolean setting from the value of its environment variable.
pub fn env_flag(value: Option<&str>, default: bool) -> (r: bool)
    ensures
        r == flag_spec(
            match value {
                Some(s) => Some(s@),
                None => None,
            },
            default,
        ),
{
    match value {
        Some(v) => {
            let t = trim_str(v);
            let k = lower_chars(&t);
            chars_eq_str(&k, "1") || chars_eq_str(&k, "true") || chars_eq_str(&k, "yes")
                || chars_eq_str(&k, "on")
        },
        None => default,
    }
}

/// Whole minutes under an hour, whole hours under two days, else whole days.
pub open spec fn duration_spec(seconds: int, prefix: Seq<char>) -> Seq<char> {
    let s = if seconds < 0 {
        0
    } else {
        seconds
    };
    let m = s / 60;
    let h = m / 60;
    if m < 60 {
        prefix + nat_decimal(m as nat) + "m"@
    } else if h < 48 {
        prefix + nat_decimal(h as nat) + "h"@
    } else {
        prefix + nat_decimal((h / 24) as nat) + "d"@
    }
}

/// Writes a duration in seconds as `Nm`, `Nh` or `Nd` after `prefix`.
pub fn format_duration(seconds: i64, prefix: &str) -> (r: String)
    ensures
        r@ == duration_spec(seconds as int, prefix@),
{
    let s: u64 = if seconds < 0 {
        0
    } else {
        seconds as u64
    };
    let m = s / 60;
    let h = m / 60;
    let mut out = chars_of(prefix);
    if m < 60 {
        push_decimal(&mut out, m);
        extend_str(&mut out, "m");
    } else if h < 48 {
        push_decimal(&mut out, h);
        extend_str(&mut out, "h");
    } else {
        push_decimal(&mut out, h / 24);
        extend_str(&mut out, "d");
    }
    string_of(&out)
}

/// Digits grouped by three from the right with commas.
pub open spec fn group_thousands(d: Seq<char>) -> Seq<char>
    decreases d.len(),
{
    if d.len() <= 3 {
        d
    } else {
        group_thousands(d.take(d.len() - 3)) + seq![','] + d.skip(d.len() - 3)
    }
}

/// The decimal form of `value` with thousands separators.
pub open spec fn number_spec(value: int) -> Seq<char> {
    let a = if value < 0 {
        -value
    } else {
        value
    };
    let g = group_thousands(nat_decimal(a as nat));
    if value < 0 {
        seq!['-'] + g
    } else {
        g
    }
}

fn group_chars(d: &Vec<char>) -> (r: Vec<char>)
    ensures
        r@ == group_thousands(d@),
    decreases d.len(),
{
    if d.len() <= 3 {
        return d.clone();
    }
    let head = subvec(d, 0, d.len() - 3);
    let mut r = group_chars(&head);
    r.push(',');
    let tail = subvec(d, d.len() - 3, d.len());
    extend_chars(&mut r, &tail);
    r
}

/// Writes `value` with thousands separators, e.g. `-1,234,567`.
pub fn format_number(value: i64) -> (r: String)
    requires
        value != i64::MIN,
    ensures
        r@ == number_spec(value as int),
{
    let a: u64 = if value < 0 {
        (-value) as u64
    } else {
        value as u64
    };
    let mut d: Vec<char> = Vec::new();
    push_decimal(&mut d, a);
    let g = group_chars(&d);
    let mut out: Vec<char> = Vec::new();
    if value < 0 {
        out.push('-');
    }
    extend_chars(&mut out, &g);
    string_of(&out)
}

/// Whole days or whole hours where the minutes divide evenly, else minutes.
pub open spec fn window_duration_spec(minutes: int) -> Seq<char> {
    if minutes >= 1440 && minutes % 1440 == 0 {
        int_decimal(minutes / 1440) + "d"@
    } else if minutes >= 60 && minutes % 60 == 0 {
        int_decimal(minutes / 60) + "h"@
    } else {
        int_decimal(minutes) + "m"@
    }
}

/// Writes a rate-limit window length given in minutes.
pub fn usage_window_duration(minutes: i64) -> (r: String)
    ensures
        r@ == window_duration_spec(minutes as int),
{
    let mut out: Vec<char> = Vec::new();
    if minutes >= 1440 && minutes % 1440 == 0 {
        push_i64(&mut out, minutes / 1440);
        extend_str(&mut out, "d");
    } else if minutes >= 60 && minutes % 60 == 0 {
        push_i64(&mut out, minutes / 60);
        extend_str(&mut out, "h");
    } else {
        push_i64(&mut out, minutes);
        extend_str(&mut out, "m");
    }
    string_of(&out)
}

/// The HTML page frame around `body`, with the escaped `title` and the
/// stylesheet `css`.
pub open spec fn page_spec(title: Seq<char>, body: Seq<char>, css: Seq<char>) -> Seq<char> {
    "<!doctype html>\n<html lang=\"en\">\n<head>\n<meta charset=\"utf-8\">\n<meta name=\"viewport\" content=\"width=device-width, initial-scale=1, maximum-scale=1, viewport-fit=cover\">\n<title>"@
        + html_escape_spec(title) + "</title>\n<style>\n"@ + css + "\n</style>\n</head>\n<body>"@
        + body + "</body>\n</html>"@
}

/// Wraps a page body in the document frame.
pub fn page(title: &str, body: &str, css: &str) -> (r: String)
    ensures
        r@ == page_spec(title@, body@, css@),
{
    let mut out: Vec<char> = Vec::new();
    extend_str(
        &mut out,
        "<!doctype html>\n<html lang=\"en\">\n<head>\n<meta charset=\"utf-8\">\n<meta name=\"viewport\" content=\"width=device-width, initial-scale=1, maximum-scale=1, viewport-fit=cover\">\n<title>",
    );
    let t = html_escape(title);
    extend_str(&mut out, t.as_str());
    extend_str(&mut out, "</title>\n<style>\n");
    extend_str(&mut out, css);
    extend_str(&mut out, "\n</style>\n</head>\n<body>");
    extend_str(&mut out, body);
    extend_str(&mut out, "</body>\n</html>");
    string_of(&out)
}

/// The service settings.
pub struct Config {
    pub bind: String,
    pub db_path: String,
    pub agent_default_workdir: String,
    pub default_harness: AgentHarness,
    pub pi_bin: String,
    pub pi_args: Vec<String>,
    pub opencode_bin: String,
    pub opencode_args: Vec<String>,
    pub agent_progress_notes: bool,
    pub legacy_codex_bin: String,
    pub legacy_codex_args: Vec<String>,
    pub legacy_codex_home: String,
    pub legacy_codex_reset_command: Option<Vec<String>>,
    pub agent_slots: Vec<AgentSlotSeed>,
    pub user: String,
    pub password_hash: Option<String>,
    pub cookie_secret: Vec<u8>,
    pub auth_disabled: bool,
}

/// The command line that launches a harness, as shown to people.
pub open spec fn command_label_spec(config: Config, harness: AgentHarness) -> Seq<char> {
    match harness {
        AgentHarness::Pi => join(seq![config.pi_bin@] + string_views(config.pi_args@), seq![' ']),
        AgentHarness::OpenCode => join(
            seq![config.opencode_bin@] + string_views(config.opencode_args@),
            seq![' '],
        ),
        AgentHarness::LegacyCodex => "legacy-codex (read-only)"@,
    }
}

fn label_of(bin: &String, args: &Vec<String>) -> (r: Vec<char>)
    ensures
        r@ == join(seq![bin@] + string_views(args@), seq![' ']),
{
    let mut parts: Vec<Vec<char>> = Vec::new();
    parts.push(chars_of(bin.as_str()));
    let rest = pieces_of(args);
    let mut i: usize = 0;
    while i < rest.len()
        invariant
            i <= rest.len(),
            pieces(parts@) == seq![bin@] + pieces(rest@).take(i as int),
        decreases rest.len() - i,
    {
        let ghost before = pieces(parts@);
        parts.push(rest[i].clone());
        assert(pieces(parts@) =~= before.push(rest@[i as int]@));
        assert(pieces(rest@).take(i + 1) =~= pieces(rest@).take(i as int).push(rest@[i as int]@));
        i += 1;
    }
    assert(pieces(rest@).take(rest.len() as int) == pieces(rest@));
    let mut sp: Vec<char> = Vec::new();
    sp.push(' ');
    assert(sp@ == seq![' ']);
    join_chars(&parts, &sp)
}

/// The command line that launches `harness`: its binary and arguments.
pub fn agent_command_label(config: &Config, harness: AgentHarness) -> (r: String)
    ensures
        r@ == command_label_spec(*config, harness),
{
    let v = match harness {
        AgentHarness::Pi => label_of(&config.pi_bin, &config.pi_args),
        AgentHarness::OpenCode => label_of(&config.opencode_bin, &config.opencode_args),
        AgentHarness::LegacyCodex => chars_of("legacy-codex (read-only)"),
    };
    string_of(&v)
}

/// The harness badge of the composer.
pub open spec fn execution_mode_spec(config: Config, harness: AgentHarness) -> Seq<char> {
    let label = harness_display(harness);
    "<span class=\"agent-execution-mode\" title=\""@ + attr_escape_spec(
        command_label_spec(config, harness),
    ) + "\" aria-label=\""@ + label + " harness\"><span>Harness</span><strong>"@ + label
        + "</strong></span>"@
}

/// Shows which harness a slot runs and, in its title, the command line.
pub fn agent_execution_mode_html(config: &Config, harness: AgentHarness) -> (r: String)
    ensures
        r@ == execution_mode_spec(*config, harness),
{
    let label = harness.display_name();
    let cmd = agent_command_label(config, harness);
    let command = html_attr_escape(cmd.as_str());
    let mut out: Vec<char> = Vec::new();
    extend_str(&mut out, "<span class=\"agent-execution-mode\" title=\"");
    extend_str(&mut out, command.as_str());
    extend_str(&mut out, "\" aria-label=\"");
    extend_str(&mut out, label);
    extend_str(&mut out, " harness\"><span>Harness</span><strong>");
    extend_str(&mut out, label);
    extend_str(&mut out, "</strong></span>");
    string_of(&out)
}

} // verus!
