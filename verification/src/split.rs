//! Splitting text into pieces, and joining pieces back.
use vstd::prelude::*;
use crate::text::{is_ws, is_whitespace};

verus! {

/// The character sequences of a vector of character vectors.
pub open spec fn pieces(v: Seq<Vec<char>>) -> Seq<Seq<char>> {
    v.map_values(|x: Vec<char>| x@)
}

/// The separator test: whitespace where `ws` holds, else the character `sep`.
pub open spec fn is_sep(c: char, ws: bool, sep: char) -> bool {
    if ws {
        is_ws(c)
    } else {
        c == sep
    }
}

/// `str::split` with a character or with `char::is_whitespace`: the pieces
/// between the separators (always at least one piece).
pub open spec fn split_pred(s: Seq<char>, ws: bool, sep: char) -> Seq<Seq<char>>
    decreases s.len(),
{
    if s.len() == 0 {
        seq![Seq::empty()]
    } else {
        let w = split_pred(s.drop_last(), ws, sep);
        if is_sep(s.last(), ws, sep) {
            w.push(Seq::empty())
        } else {
            w.update(w.len() - 1, w.last().push(s.last()))
        }
    }
}

/// `str::split` with a character.
pub open spec fn split_on(s: Seq<char>, sep: char) -> Seq<Seq<char>> {
    split_pred(s, false, sep)
}

/// The pieces that are not empty.
pub open spec fn non_empty(p: Seq<Seq<char>>) -> Seq<Seq<char>>
    decreases p.len(),
{
    if p.len() == 0 {
        p
    } else if p.last().len() == 0 {
        non_empty(p.drop_last())
    } else {
        non_empty(p.drop_last()).push(p.last())
    }
}

/// `str::split_whitespace`: the maximal runs of non-whitespace characters.
pub open spec fn words(s: Seq<char>) -> Seq<Seq<char>> {
    non_empty(split_pred(s, true, ' '))
}

/// Removes one trailing carriage return.
pub open spec fn strip_cr(l: Seq<char>) -> Seq<char> {
    if l.len() > 0 && l.last() == '\r' {
        l.drop_last()
    } else {
        l
    }
}

/// `str::lines`: the lines without their `\n` or `\r\n` ending; a final empty
/// line is not a line.
pub open spec fn lines(s: Seq<char>) -> Seq<Seq<char>> {
    let p = split_on(s, '\n');
    let body = p.drop_last().map_values(|l: Seq<char>| strip_cr(l));
    if p.last().len() == 0 {
        body
    } else {
        body.push(p.last())
    }
}

/// `str::split_inclusive('\n')`: the lines with their `\n`, the last one
/// without it where the text does not end with one; no empty piece.
pub open spec fn split_inclusive_nl(s: Seq<char>) -> Seq<Seq<char>> {
    let p = split_on(s, '\n');
    let body = p.drop_last().map_values(|l: Seq<char>| l.push('\n'));
    if p.last().len() == 0 {
        body
    } else {
        body.push(p.last())
    }
}

/// `[..].join(sep)`.
pub open spec fn join(parts: Seq<Seq<char>>, sep: Seq<char>) -> Seq<char>
    decreases parts.len(),
{
    if parts.len() == 0 {
        Seq::empty()
    } else if parts.len() == 1 {
        parts[0]
    } else {
        join(parts.drop_last(), sep) + sep + parts.last()
    }
}

/// Concatenation of pieces.
pub open spec fn concat(parts: Seq<Seq<char>>) -> Seq<char>
    decreases parts.len(),
{
    if parts.len() == 0 {
        Seq::empty()
    } else {
        concat(parts.drop_last()) + parts.last()
    }
}

pub proof fn lemma_split_pred_len(s: Seq<char>, ws: bool, sep: char)
    ensures
        split_pred(s, ws, sep).len() >= 1,
    decreases s.len(),
{
    if s.len() > 0 {
        lemma_split_pred_len(s.drop_last(), ws, sep);
    }
}

/// Splits at the characters equal to `sep` (`split_ws` false) or at the
/// whitespace characters (`split_ws` true).
fn split_impl(v: &Vec<char>, sep: char, split_ws: bool) -> (r: Vec<Vec<char>>)
    ensures
        pieces(r@) == split_pred(v@, split_ws, sep),
{
    let mut done: Vec<Vec<char>> = Vec::new();
    let mut cur: Vec<char> = Vec::new();
    let mut i: usize = 0;
    assert(v@.take(0) == Seq::<char>::empty());
    while i < v.len()
        invariant
            i <= v.len(),
            split_pred(v@.take(i as int), split_ws, sep) == pieces(done@).push(cur@),
        decreases v.len() - i,
    {
        let c = v[i];
        let ghost prefix = v@.take(i + 1);
        assert(prefix.drop_last() == v@.take(i as int));
        assert(prefix.last() == c);
        let sep_here = if split_ws {
            is_whitespace(c)
        } else {
            c == sep
        };
        assert(sep_here == is_sep(c, split_ws, sep));
        if sep_here {
            let old_cur = cur;
            cur = Vec::new();
            let ghost before = pieces(done@);
            done.push(old_cur);
            assert(pieces(done@) =~= before.push(old_cur@));
        } else {
            let ghost before = pieces(done@);
            cur.push(c);
            assert(pieces(done@) =~= before);
        }
        i += 1;
    }
    assert(v@.take(v.len() as int) == v@);
    let ghost before = pieces(done@);
    done.push(cur);
    assert(pieces(done@) =~= before.push(cur@));
    done
}

/// `str::split` with a character.
pub fn split_on_char(v: &Vec<char>, sep: char) -> (r: Vec<Vec<char>>)
    ensures
        pieces(r@) == split_on(v@, sep),
{
    split_impl(v, sep, false)
}

/// Keeps the non-empty pieces.
fn keep_non_empty(p: Vec<Vec<char>>) -> (r: Vec<Vec<char>>)
    ensures
        pieces(r@) == non_empty(pieces(p@)),
{
    let mut r: Vec<Vec<char>> = Vec::new();
    let mut i: usize = 0;
    let ghost pv = pieces(p@);
    while i < p.len()
        invariant
            i <= p.len(),
            pv == pieces(p@),
            pieces(r@) == non_empty(pv.take(i as int)),
        decreases p.len() - i,
    {
        let piece = p[i].clone();
        assert(pv.take(i + 1).drop_last() == pv.take(i as int));
        assert(pv.take(i + 1).last() == pv[i as int]);
        assert(pv[i as int] == p[i as int]@);
        if piece.len() > 0 {
            let ghost before = pieces(r@);
            r.push(piece);
            assert(pieces(r@) =~= before.push(piece@));
        }
        i += 1;
    }
    assert(pv.take(p.len() as int) == pv);
    r
}

/// `str::split_whitespace`.
pub fn words_of(v: &Vec<char>) -> (r: Vec<Vec<char>>)
    ensures
        pieces(r@) == words(v@),
{
    let p = split_impl(v, ' ', true);
    keep_non_empty(p)
}

/// `[..].join(sep)` of character vectors.
pub fn join_chars(parts: &Vec<Vec<char>>, sep: &Vec<char>) -> (r: Vec<char>)
    ensures
        r@ == join(pieces(parts@), sep@),
{
    let ghost pv = pieces(parts@);
    let mut r: Vec<char> = Vec::new();
    let mut i: usize = 0;
    while i < parts.len()
        invariant
            i <= parts.len(),
            pv == pieces(parts@),
            r@ == join(pv.take(i as int), sep@),
        decreases parts.len() - i,
    {
        assert(pv.take(i + 1).drop_last() == pv.take(i as int));
        assert(pv[i as int] == parts[i as int]@);
        if i > 0 {
            crate::text::extend_chars(&mut r, sep);
        } else {
            assert(pv.take(1) == seq![pv[0]]);
        }
        crate::text::extend_chars(&mut r, &parts[i]);
        i += 1;
    }
    assert(pv.take(parts.len() as int) == pv);
    r
}

/// Concatenation of character vectors.
pub fn concat_chars(parts: &Vec<Vec<char>>) -> (r: Vec<char>)
    ensures
        r@ == concat(pieces(parts@)),
{
    let ghost pv = pieces(parts@);
    let mut r: Vec<char> = Vec::new();
    let mut i: usize = 0;
    while i < parts.len()
        invariant
            i <= parts.len(),
            pv == pieces(parts@),
            r@ == concat(pv.take(i as int)),
        decreases parts.len() - i,
    {
        assert(pv.take(i + 1).drop_last() == pv.take(i as int));
        assert(pv[i as int] == parts[i as int]@);
        crate::text::extend_chars(&mut r, &parts[i]);
        i += 1;
    }
    assert(pv.take(parts.len() as int) == pv);
    r
}

/// `str::lines`.
pub fn lines_of(v: &Vec<char>) -> (r: Vec<Vec<char>>)
    ensures
        pieces(r@) == lines(v@),
{
    let p = split_on_char(v, '\n');
    let ghost pv = pieces(p@);
    proof {
        lemma_split_pred_len(v@, false, '\n');
        assert(pieces(p@).len() == p@.len());
    }
    let n = p.len() - 1;
    let mut r: Vec<Vec<char>> = Vec::new();
    let mut i: usize = 0;
    while i < n
        invariant
            i <= n,
            n == p.len() - 1,
            pv == pieces(p@),
            pieces(r@) == pv.take(i as int).map_values(|l: Seq<char>| strip_cr(l)),
        decreases n - i,
    {
        let mut line = p[i].clone();
        assert(line@ == pv[i as int]);
        if line.len() > 0 && line[line.len() - 1] == '\r' {
            line.pop();
        }
        let ghost before = pieces(r@);
        r.push(line);
        assert(pieces(r@) =~= before.push(strip_cr(pv[i as int])));
        assert(pv.take(i + 1).map_values(|l: Seq<char>| strip_cr(l)) == pv.take(
            i as int,
        ).map_values(|l: Seq<char>| strip_cr(l)).push(strip_cr(pv[i as int])));
        i += 1;
    }
    assert(pv.take(n as int) == pv.drop_last());
    let last = p[n].clone();
    assert(last@ == pv.last());
    if last.len() > 0 {
        let ghost before = pieces(r@);
        r.push(last);
        assert(pieces(r@) =~= before.push(last@));
    }
    r
}

/// `str::split_inclusive('\n')`.
pub fn split_inclusive_nl_of(v: &Vec<char>) -> (r: Vec<Vec<char>>)
    ensures
        pieces(r@) == split_inclusive_nl(v@),
{
    let p = split_on_char(v, '\n');
    let ghost pv = pieces(p@);
    proof {
        lemma_split_pred_len(v@, false, '\n');
        assert(pieces(p@).len() == p@.len());
    }
    let n = p.len() - 1;
    let mut r: Vec<Vec<char>> = Vec::new();
    let mut i: usize = 0;
    while i < n
        invariant
            i <= n,
            n == p.len() - 1,
            pv == pieces(p@),
            pieces(r@) == pv.take(i as int).map_values(|l: Seq<char>| l.push('\n')),
        decreases n - i,
    {
        let mut line = p[i].clone();
        assert(line@ == pv[i as int]);
        line.push('\n');
        let ghost before = pieces(r@);
        r.push(line);
        assert(pieces(r@) =~= before.push(pv[i as int].push('\n')));
        assert(pv.take(i + 1).map_values(|l: Seq<char>| l.push('\n')) == pv.take(
            i as int,
        ).map_values(|l: Seq<char>| l.push('\n')).push(pv[i as int].push('\n')));
        i += 1;
    }
    assert(pv.take(n as int) == pv.drop_last());
    let last = p[n].clone();
    assert(last@ == pv.last());
    if last.len() > 0 {
        let ghost before = pieces(r@);
        r.push(last);
        assert(pieces(r@) =~= before.push(last@));
    }
    r
}

/// A text without the separator splits into itself alone.
pub proof fn lemma_split_on_absent(s: Seq<char>, c: char)
    requires
        forall|i: int| 0 <= i < s.len() ==> s[i] != c,
    ensures
        split_on(s, c) == seq![s],
    decreases s.len(),
{
    if s.len() > 0 {
        lemma_split_on_absent(s.drop_last(), c);
        assert(s.drop_last().push(s.last()) == s);
        assert(s[s.len() - 1] != c);
        let w = split_on(s.drop_last(), c);
        assert(w.update(w.len() - 1, w.last().push(s.last())) =~= seq![s]);
    } else {
        assert(s =~= Seq::<char>::empty());
    }
}

} // verus!
