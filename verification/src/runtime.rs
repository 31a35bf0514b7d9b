//! What a run hands to the shell and to the harness: quoting, the prompt,
//! and the progress-note helper.
use vstd::prelude::*;
use crate::split::{join, join_chars, pieces};
use crate::text::{chars_eq_str, chars_of, extend_chars, extend_str, string_of, trim, trim_str};
use crate::types::AgentSlotRow;

verus! {

/// What `'` becomes inside a single-quoted shell word.
pub open spec fn quote_piece(c: char) -> Seq<char> {
    if c == '\'' {
        seq!['\'', '\\', '\'', '\'']
    } else {
        seq![c]
    }
}

/// The body of a single-quoted shell word.
pub open spec fn quote_body(s: Seq<char>) -> Seq<char>
    decreases s.len(),
{
    if s.len() == 0 {
        Seq::empty()
    } else {
        quote_body(s.drop_last()) + quote_piece(s.last())
    }
}

/// `value` as one single-quoted shell word.
pub open spec fn shell_quote_spec(s: Seq<char>) -> Seq<char> {
    seq!['\''] + quote_body(s) + seq!['\'']
}

/// Quotes `value` for `sh`/`bash`: in single quotes, each `'` written as `'\''`.
pub fn shell_single_quote(value: &str) -> (r: String)
    ensures
        r@ == shell_quote_spec(value@),
{
    let v = chars_of(value);
    let mut out: Vec<char> = Vec::new();
    out.push('\'');
    let mut i: usize = 0;
    while i < v.len()
        invariant
            i <= v.len(),
            out@ == seq!['\''] + quote_body(v@.take(i as int)),
        decreases v.len() - i,
    {
        if v[i] == '\'' {
            out.push('\'');
            out.push('\\');
            out.push('\'');
            out.push('\'');
        } else {
            out.push(v[i]);
        }
        i += 1;
        assert(v@.take(i as int).drop_last() == v@.take(i - 1));
        assert(out@ =~= seq!['\''] + quote_body(v@.take(i as int)));
    }
    assert(v@.take(v.len() as int) == v@);
    out.push('\'');
    string_of(&out)
}

/// How the shell reads a word made of single-quoted runs and `\`-escaped
/// characters (`quoted`: inside single quotes); `None` where the word holds
/// anything else or a quote is left open.
pub open spec fn shell_read(t: Seq<char>, quoted: bool) -> Option<Seq<char>>
    decreases t.len(),
{
    if t.len() == 0 {
        if quoted {
            None
        } else {
            Some(Seq::empty())
        }
    } else if quoted {
        if t[0] == '\'' {
            shell_read(t.drop_first(), false)
        } else {
            match shell_read(t.drop_first(), true) {
                Some(r) => Some(seq![t[0]] + r),
                None => None,
            }
        }
    } else if t[0] == '\'' {
        shell_read(t.drop_first(), true)
    } else if t[0] == '\\' && t.len() >= 2 {
        match shell_read(t.skip(2), false) {
            Some(r) => Some(seq![t[1]] + r),
            None => None,
        }
    } else {
        None
    }
}

proof fn lemma_quote_body_front(s: Seq<char>)
    requires
        s.len() > 0,
    ensures
        quote_body(s) == quote_piece(s[0]) + quote_body(s.drop_first()),
    decreases s.len(),
{
    if s.len() == 1 {
        assert(s.drop_first() =~= Seq::<char>::empty());
        assert(s.drop_last() =~= Seq::<char>::empty());
    } else {
        lemma_quote_body_front(s.drop_last());
        assert(s.drop_last().drop_first() =~= s.drop_first().drop_last());
        assert(s.drop_first().last() == s.last());
    }
}

proof fn lemma_read_body(v: Seq<char>)
    ensures
        shell_read(quote_body(v) + seq!['\''], true) == Some(v),
    decreases v.len(),
{
    if v.len() == 0 {
        assert(quote_body(v) + seq!['\''] =~= seq!['\'']);
        assert(seq!['\''].drop_first() =~= Seq::<char>::empty());
        assert(shell_read(seq!['\''], true) == shell_read(Seq::<char>::empty(), false));
        assert(v =~= Seq::<char>::empty());
    } else {
        lemma_quote_body_front(v);
        let rest = v.drop_first();
        lemma_read_body(rest);
        let tail = quote_body(rest) + seq!['\''];
        let t = quote_body(v) + seq!['\''];
        assert(t =~= quote_piece(v[0]) + tail);
        if v[0] == '\'' {
            let t1 = seq!['\\', '\'', '\''] + tail;
            let t2 = seq!['\''] + tail;
            assert(t.drop_first() =~= t1);
            assert(t1.skip(2) =~= t2);
            assert(t2.drop_first() =~= tail);
            assert(shell_read(t2, false) == Some(rest));
            assert(shell_read(t1, false) == Some(seq!['\''] + rest));
            assert(seq![v[0]] + rest =~= v);
            assert(shell_read(t, true) == Some(v));
        } else {
            assert(t.drop_first() =~= tail);
            assert(seq![v[0]] + rest =~= v);
            assert(shell_read(t, true) == Some(v));
        }
    }
}

/// The shell reads a quoted value back as exactly that value, whatever
/// characters it holds.
pub proof fn shell_quote_round_trip(v: Seq<char>)
    ensures
        shell_read(shell_quote_spec(v), false) == Some(v),
{
    lemma_read_body(v);
    assert(shell_quote_spec(v).drop_first() =~= quote_body(v) + seq!['\'']);
}

/// Whether a harness phase marks its final answer.
pub fn is_final_agent_phase(value: &str) -> (r: bool)
    ensures
        r == (value@ == "final"@ || value@ == "final_answer"@),
{
    let v = chars_of(value);
    chars_eq_str(&v, "final") || chars_eq_str(&v, "final_answer")
}

/// The note about the progress helper that a prompt may carry.
pub open spec fn progress_note() -> Seq<char> {
    "Mobailmux has an optional `aiprogress 'message'` command for short human progress notes. Use it only when useful."@
}

/// The sections of a prompt: the slot's goal where set, the progress note
/// where enabled, then the request.
pub open spec fn prompt_sections(goal: Seq<char>, body: Seq<char>, progress: bool) -> Seq<Seq<char>> {
    let g = trim(goal);
    (if g.len() > 0 {
        seq!["Current slot goal:\n"@ + g]
    } else {
        Seq::empty()
    }) + (if progress {
        seq![progress_note()]
    } else {
        Seq::empty()
    }) + seq![body]
}

/// The prompt sent to the harness: its sections separated by blank lines.
pub fn build_agent_prompt(slot: &AgentSlotRow, request_body: &str, progress_notes_enabled: bool) -> (r:
    String)
    ensures
        r@ == join(prompt_sections(slot.goal@, request_body@, progress_notes_enabled), "\n\n"@),
{
    let goal = trim_str(slot.goal.as_str());
    let mut sections: Vec<Vec<char>> = Vec::new();
    if goal.len() > 0 {
        let mut s = chars_of("Current slot goal:\n");
        extend_chars(&mut s, &goal);
        sections.push(s);
    }
    if progress_notes_enabled {
        sections.push(
            chars_of(
                "Mobailmux has an optional `aiprogress 'message'` command for short human progress notes. Use it only when useful.",
            ),
        );
    }
    sections.push(chars_of(request_body));
    assert(pieces(sections@) =~= prompt_sections(slot.goal@, request_body@, progress_notes_enabled));
    let sep = chars_of("\n\n");
    let j = join_chars(&sections, &sep);
    string_of(&j)
}

/// The helper script that appends its arguments, as one line, to the
/// progress file.
pub open spec fn progress_script_spec(file: Seq<char>) -> Seq<char> {
    "#!/usr/bin/env bash\nset -euo pipefail\nprintf '%s\\n' \"$*\" >> "@ + shell_quote_spec(file)
        + "\n"@
}

/// The text of the `aiprogress` helper for a progress file.
pub fn progress_helper_script(file: &str) -> (r: String)
    ensures
        r@ == progress_script_spec(file@),
{
    let mut out = chars_of("#!/usr/bin/env bash\nset -euo pipefail\nprintf '%s\\n' \"$*\" >> ");
    let q = shell_single_quote(file);
    extend_str(&mut out, q.as_str());
    extend_str(&mut out, "\n");
    string_of(&out)
}

/// The name of the directory that holds a run's progress notes and helper:
/// the slot and a fresh unique key.
pub open spec fn progress_dir_spec(slot_id: i64, key: Seq<char>) -> Seq<char> {
    "mobailmux-agent-progress-"@ + crate::num::int_decimal(slot_id as int) + "-"@ + key
}

/// The progress directory's name for `slot_id` and the unique `key`.
pub fn progress_dir_name(slot_id: i64, key: &str) -> (r: String)
    ensures
        r@ == progress_dir_spec(slot_id, key@),
{
    let mut out = chars_of("mobailmux-agent-progress-");
    crate::num::push_i64(&mut out, slot_id);
    extend_str(&mut out, "-");
    extend_str(&mut out, key);
    string_of(&out)
}

} // verus!
