//! Escaping text for HTML and for JSON inside a `<script>` element.
use vstd::prelude::*;
use crate::text::{chars_of, extend_str, string_of};

verus! {

/// What `html_escape` writes for one character.
pub open spec fn html_escape_char(c: char) -> Seq<char> {
    if c == '&' {
        "&amp;"@
    } else if c == '<' {
        "&lt;"@
    } else if c == '>' {
        "&gt;"@
    } else if c == '"' {
        "&quot;"@
    } else {
        seq![c]
    }
}

/// `&`, `<`, `>` and `"` replaced by their entities.
pub open spec fn html_escape_spec(s: Seq<char>) -> Seq<char>
    decreases s.len(),
{
    if s.len() == 0 {
        Seq::empty()
    } else {
        html_escape_spec(s.drop_last()) + html_escape_char(s.last())
    }
}

/// Reads escaped text back: each of `&amp;`, `&lt;`, `&gt;` and `&quot;`
/// becomes its character, every other character stays.
pub open spec fn html_unescape(s: Seq<char>) -> Seq<char>
    decreases s.len(),
{
    if s.len() == 0 {
        s
    } else if s.len() >= 5 && s.take(5) == "&amp;"@ {
        seq!['&'] + html_unescape(s.skip(5))
    } else if s.len() >= 4 && s.take(4) == "&lt;"@ {
        seq!['<'] + html_unescape(s.skip(4))
    } else if s.len() >= 4 && s.take(4) == "&gt;"@ {
        seq!['>'] + html_unescape(s.skip(4))
    } else if s.len() >= 6 && s.take(6) == "&quot;"@ {
        seq!['"'] + html_unescape(s.skip(6))
    } else {
        seq![s[0]] + html_unescape(s.drop_first())
    }
}

proof fn lemma_escape_front(s: Seq<char>)
    requires
        s.len() > 0,
    ensures
        html_escape_spec(s) == html_escape_char(s[0]) + html_escape_spec(s.drop_first()),
    decreases s.len(),
{
    if s.len() > 1 {
        lemma_escape_front(s.drop_last());
        assert(s.drop_last()[0] == s[0]);
        assert(s.drop_last().drop_first() =~= s.drop_first().drop_last());
        assert(s.drop_first().last() == s.last());
        assert(html_escape_spec(s.drop_first()) == html_escape_spec(s.drop_first().drop_last())
            + html_escape_char(s.drop_first().last()));
        assert(html_escape_spec(s) =~= html_escape_char(s[0]) + html_escape_spec(s.drop_first()));
    } else {
        assert(s.drop_last() =~= Seq::<char>::empty());
        assert(s.drop_first() =~= Seq::<char>::empty());
        assert(s.last() == s[0]);
        assert(html_escape_spec(s) =~= html_escape_char(s[0]) + html_escape_spec(s.drop_first()));
    }
}

proof fn lemma_unescape_char(c: char, rest: Seq<char>)
    ensures
        html_unescape(html_escape_char(c) + rest) == seq![c] + html_unescape(rest),
{
    reveal_strlit("&amp;");
    reveal_strlit("&lt;");
    reveal_strlit("&gt;");
    reveal_strlit("&quot;");
    let x = html_escape_char(c) + rest;
    if c == '&' {
        assert(x.take(5) =~= "&amp;"@);
        assert(x.skip(5) =~= rest);
    } else if c == '<' {
        assert(!(x.len() >= 5 && x.take(5) == "&amp;"@)) by {
            if x.len() >= 5 {
                assert(x.take(5)[1] != "&amp;"@[1]);
            }
        }
        assert(x.take(4) =~= "&lt;"@);
        assert(x.skip(4) =~= rest);
    } else if c == '>' {
        assert(!(x.len() >= 5 && x.take(5) == "&amp;"@)) by {
            if x.len() >= 5 {
                assert(x.take(5)[1] != "&amp;"@[1]);
            }
        }
        assert(!(x.len() >= 4 && x.take(4) == "&lt;"@)) by {
            if x.len() >= 4 {
                assert(x.take(4)[1] != "&lt;"@[1]);
            }
        }
        assert(x.take(4) =~= "&gt;"@);
        assert(x.skip(4) =~= rest);
    } else if c == '"' {
        assert(!(x.len() >= 5 && x.take(5) == "&amp;"@)) by {
            if x.len() >= 5 {
                assert(x.take(5)[1] != "&amp;"@[1]);
            }
        }
        assert(!(x.len() >= 4 && x.take(4) == "&lt;"@)) by {
            if x.len() >= 4 {
                assert(x.take(4)[1] != "&lt;"@[1]);
            }
        }
        assert(!(x.len() >= 4 && x.take(4) == "&gt;"@)) by {
            if x.len() >= 4 {
                assert(x.take(4)[1] != "&gt;"@[1]);
            }
        }
        assert(x.take(6) =~= "&quot;"@);
        assert(x.skip(6) =~= rest);
    } else {
        assert(x[0] == c);
        assert(x.len() >= 5 ==> x.take(5) != "&amp;"@) by {
            if x.len() >= 5 {
                assert(x.take(5)[0] != "&amp;"@[0]);
            }
        }
        assert(x.len() >= 4 ==> x.take(4) != "&lt;"@) by {
            if x.len() >= 4 {
                assert(x.take(4)[0] != "&lt;"@[0]);
            }
        }
        assert(x.len() >= 4 ==> x.take(4) != "&gt;"@) by {
            if x.len() >= 4 {
                assert(x.take(4)[0] != "&gt;"@[0]);
            }
        }
        assert(x.len() >= 6 ==> x.take(6) != "&quot;"@) by {
            if x.len() >= 6 {
                assert(x.take(6)[0] != "&quot;"@[0]);
            }
        }
        assert(x.drop_first() =~= rest);
    }
}

/// Escaped text reads back to what was escaped, so different texts never
/// escape to the same HTML.
pub proof fn html_escape_round_trip(s: Seq<char>)
    ensures
        html_unescape(html_escape_spec(s)) == s,
    decreases s.len(),
{
    if s.len() > 0 {
        lemma_escape_front(s);
        html_escape_round_trip(s.drop_first());
        lemma_unescape_char(s[0], html_escape_spec(s.drop_first()));
        assert(seq![s[0]] + s.drop_first() =~= s);
    }
}

/// HTML escaping is one-to-one.
pub proof fn html_escape_is_one_to_one(a: Seq<char>, b: Seq<char>)
    requires
        html_escape_spec(a) == html_escape_spec(b),
    ensures
        a == b,
{
    html_escape_round_trip(a);
    html_escape_round_trip(b);
}

/// What `html_attr_escape` writes for one character.
pub open spec fn attr_escape_char(c: char) -> Seq<char> {
    if c == '\r' {
        Seq::empty()
    } else if c == '\n' {
        "&#10;"@
    } else {
        html_escape_char(c)
    }
}

/// [`html_escape_spec`], then carriage returns dropped and newlines written as `&#10;`.
pub open spec fn attr_escape_spec(s: Seq<char>) -> Seq<char>
    decreases s.len(),
{
    if s.len() == 0 {
        Seq::empty()
    } else {
        attr_escape_spec(s.drop_last()) + attr_escape_char(s.last())
    }
}

/// What `json_for_inline_script` writes for one character.
pub open spec fn script_escape_char(c: char) -> Seq<char> {
    if c == '&' {
        "\\u0026"@
    } else if c == '<' {
        "\\u003c"@
    } else if c == '>' {
        "\\u003e"@
    } else if c == '\u{2028}' {
        "\\u2028"@
    } else if c == '\u{2029}' {
        "\\u2029"@
    } else {
        seq![c]
    }
}

/// `&`, `<`, `>`, U+2028 and U+2029 written as JSON `\u` escapes.
pub open spec fn script_escape_spec(s: Seq<char>) -> Seq<char>
    decreases s.len(),
{
    if s.len() == 0 {
        Seq::empty()
    } else {
        script_escape_spec(s.drop_last()) + script_escape_char(s.last())
    }
}

/// The three escapes of this module.
enum Escape {
    Html,
    Attr,
    Script,
}

spec fn escape_spec(kind: Escape, s: Seq<char>) -> Seq<char> {
    match kind {
        Escape::Html => html_escape_spec(s),
        Escape::Attr => attr_escape_spec(s),
        Escape::Script => script_escape_spec(s),
    }
}

spec fn escape_char_spec(kind: Escape, c: char) -> Seq<char> {
    match kind {
        Escape::Html => html_escape_char(c),
        Escape::Attr => attr_escape_char(c),
        Escape::Script => script_escape_char(c),
    }
}

fn push_escaped_char(out: &mut Vec<char>, c: char, kind: &Escape)
    ensures
        final(out)@ == old(out)@ + escape_char_spec(*kind, c),
{
    match kind {
        Escape::Attr if c == '\r' => {
            assert(old(out)@ + Seq::<char>::empty() == old(out)@);
        },
        Escape::Attr if c == '\n' => extend_str(out, "&#10;"),
        Escape::Html | Escape::Attr => {
            if c == '&' {
                extend_str(out, "&amp;");
            } else if c == '<' {
                extend_str(out, "&lt;");
            } else if c == '>' {
                extend_str(out, "&gt;");
            } else if c == '"' {
                extend_str(out, "&quot;");
            } else {
                out.push(c);
            }
        },
        Escape::Script => {
            if c == '&' {
                extend_str(out, "\\u0026");
            } else if c == '<' {
                extend_str(out, "\\u003c");
            } else if c == '>' {
                extend_str(out, "\\u003e");
            } else if c == '\u{2028}' {
                extend_str(out, "\\u2028");
            } else if c == '\u{2029}' {
                extend_str(out, "\\u2029");
            } else {
                out.push(c);
            }
        },
    }
}

fn escape_chars(v: &Vec<char>, kind: Escape) -> (r: Vec<char>)
    ensures
        r@ == escape_spec(kind, v@),
{
    let mut out: Vec<char> = Vec::new();
    let mut i: usize = 0;
    while i < v.len()
        invariant
            i <= v.len(),
            out@ == escape_spec(kind, v@.take(i as int)),
        decreases v.len() - i,
    {
        push_escaped_char(&mut out, v[i], &kind);
        i += 1;
        assert(v@.take(i as int).drop_last() == v@.take(i - 1));
    }
    assert(v@.take(v.len() as int) == v@);
    out
}

/// `&`, `<`, `>` and `"` replaced by `&amp;`, `&lt;`, `&gt;` and `&quot;`.
pub fn html_escape(value: &str) -> (r: String)
    ensures
        r@ == html_escape_spec(value@),
{
    let v = chars_of(value);
    let e = escape_chars(&v, Escape::Html);
    string_of(&e)
}

/// [`html_escape`] for an attribute value: carriage returns are dropped and
/// newlines written as `&#10;`.
pub fn html_attr_escape(value: &str) -> (r: String)
    ensures
        r@ == attr_escape_spec(value@),
{
    let v = chars_of(value);
    let e = escape_chars(&v, Escape::Attr);
    string_of(&e)
}

/// [`html_escape`] of a character vector.
pub fn html_escape_chars(v: &Vec<char>) -> (r: Vec<char>)
    ensures
        r@ == html_escape_spec(v@),
{
    escape_chars(v, Escape::Html)
}

/// [`html_attr_escape`] of a character vector.
pub fn attr_escape_chars(v: &Vec<char>) -> (r: Vec<char>)
    ensures
        r@ == attr_escape_spec(v@),
{
    escape_chars(v, Escape::Attr)
}

/// Makes JSON text safe to embed in an inline `<script>`: `&`, `<`, `>`,
/// U+2028 and U+2029 are written as `\u` escapes, which JSON reads back as
/// the same characters.
pub fn json_for_inline_script(json: &str) -> (r: String)
    ensures
        r@ == script_escape_spec(json@),
{
    let v = chars_of(json);
    let e = escape_chars(&v, Escape::Script);
    string_of(&e)
}

/// Text escaped by [`html_escape`] holds no `<`, `>` or `"`, and every `&` in
/// it starts an entity, so it cannot open a tag or close an attribute.
pub proof fn html_escape_leaves_no_markup(s: Seq<char>)
    ensures
        !html_escape_spec(s).contains('<'),
        !html_escape_spec(s).contains('>'),
        !html_escape_spec(s).contains('"'),
    decreases s.len(),
{
    reveal_strlit("&amp;");
    reveal_strlit("&lt;");
    reveal_strlit("&gt;");
    reveal_strlit("&quot;");
    if s.len() > 0 {
        html_escape_leaves_no_markup(s.drop_last());
        let a = html_escape_spec(s.drop_last());
        let b = html_escape_char(s.last());
        assert(!b.contains('<') && !b.contains('>') && !b.contains('"'));
        assert forall|x: char| (a + b).contains(x) implies a.contains(x) || b.contains(x) by {
            let k = choose|k: int| 0 <= k < (a + b).len() && (a + b)[k] == x;
            if k < a.len() {
                assert(a[k] == x);
            } else {
                assert(b[k - a.len()] == x);
            }
        }
    }
}

/// Text escaped by [`json_for_inline_script`] holds no `<`, `>`, `&`, U+2028 or
/// U+2029, so it can neither end the script element nor break the line.
pub proof fn script_escape_leaves_no_terminator(s: Seq<char>)
    ensures
        !script_escape_spec(s).contains('<'),
        !script_escape_spec(s).contains('>'),
        !script_escape_spec(s).contains('&'),
        !script_escape_spec(s).contains('\u{2028}'),
        !script_escape_spec(s).contains('\u{2029}'),
    decreases s.len(),
{
    reveal_strlit("\\u0026");
    reveal_strlit("\\u003c");
    reveal_strlit("\\u003e");
    reveal_strlit("\\u2028");
    reveal_strlit("\\u2029");
    if s.len() > 0 {
        script_escape_leaves_no_terminator(s.drop_last());
        let a = script_escape_spec(s.drop_last());
        let b = script_escape_char(s.last());
        assert(!b.contains('<') && !b.contains('>') && !b.contains('&') && !b.contains('\u{2028}')
            && !b.contains('\u{2029}'));
        assert forall|x: char| (a + b).contains(x) implies a.contains(x) || b.contains(x) by {
            let k = choose|k: int| 0 <= k < (a + b).len() && (a + b)[k] == x;
            if k < a.len() {
                assert(a[k] == x);
            } else {
                assert(b[k - a.len()] == x);
            }
        }
    }
}

} // verus!
