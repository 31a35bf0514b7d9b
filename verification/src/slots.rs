//! Names of agent slots: the name a new slot gets from what was asked or
//! from its working directory, and a free name for a parallel slot.
use vstd::prelude::*;
use crate::num::{all_digits, nat_decimal, push_decimal};
use crate::shared::{
    seed_views, slot_name_chars, slot_name_spec, string_views, AgentSlotSeed, MAX_AGENT_SLOT_CHARS,
};
use crate::types::opt_view;
use crate::split::{pieces, split_on, split_on_char};
use crate::text::{chars_eq, chars_eq_str, chars_of, char_is_ascii_digit, extend_chars, extend_str, is_ascii_digit, string_of, subvec, trim};

verus! {

/// The path's components other than empty ones and `.`.
pub open spec fn path_parts(p: Seq<Seq<char>>) -> Seq<Seq<char>>
    decreases p.len(),
{
    if p.len() == 0 {
        p
    } else if p.last().len() == 0 || p.last() == "."@ {
        path_parts(p.drop_last())
    } else {
        path_parts(p.drop_last()).push(p.last())
    }
}

/// `Path::file_name` on Unix: the last component, unless the path has none
/// or ends in `..`.
pub open spec fn file_name_spec(path: Seq<char>) -> Option<Seq<char>> {
    let parts = path_parts(split_on(path, '/'));
    if parts.len() == 0 || parts.last() == ".."@ {
        None
    } else {
        Some(parts.last())
    }
}

/// The last component of a path, as `Path::file_name` gives it.
pub fn path_file_name(path: &str) -> (r: Option<String>)
    ensures
        r matches Some(n) ==> file_name_spec(path@) == Some(n@),
        r is None ==> file_name_spec(path@) is None,
{
    let v = chars_of(path);
    let segs = split_on_char(&v, '/');
    let ghost p = pieces(segs@);
    let mut parts: Vec<Vec<char>> = Vec::new();
    let mut i: usize = 0;
    while i < segs.len()
        invariant
            i <= segs.len(),
            p == pieces(segs@),
            pieces(parts@) == path_parts(p.take(i as int)),
        decreases segs.len() - i,
    {
        assert(p.take(i + 1).drop_last() == p.take(i as int));
        assert(p.take(i + 1).last() == segs@[i as int]@);
        if segs[i].len() > 0 && !chars_eq_str(&segs[i], ".") {
            let ghost before = pieces(parts@);
            parts.push(segs[i].clone());
            assert(pieces(parts@) == before.push(segs@[i as int]@));
        }
        i += 1;
    }
    assert(p.take(segs.len() as int) == p);
    if parts.len() == 0 {
        return None;
    }
    let last = &parts[parts.len() - 1];
    assert(pieces(parts@).last() == last@);
    if chars_eq_str(last, "..") {
        None
    } else {
        Some(string_of(last))
    }
}

/// The first `n` characters of `s` (`chars().take(n)`).
pub open spec fn take_chars(s: Seq<char>, n: nat) -> Seq<char> {
    if s.len() <= n {
        s
    } else {
        s.take(n as int)
    }
}

fn take_chars_of(v: &Vec<char>, n: usize) -> (r: Vec<char>)
    ensures
        r@ == take_chars(v@, n as nat),
{
    if v.len() <= n {
        v.clone()
    } else {
        subvec(v, 0, n)
    }
}

/// The name a new slot gets: the requested name, normalized, else its
/// working directory's name, normalized, else `project`; at most
/// [`MAX_AGENT_SLOT_CHARS`] characters.
pub open spec fn base_name_spec(requested: Seq<char>, workdir: Seq<char>) -> Seq<char> {
    let r = slot_name_spec(trim(requested));
    if r.len() > 0 {
        take_chars(r, MAX_AGENT_SLOT_CHARS as nat)
    } else {
        let d = match file_name_spec(workdir) {
            Some(n) => slot_name_spec(trim(n)),
            None => Seq::empty(),
        };
        if d.len() == 0 {
            "project"@
        } else {
            take_chars(d, MAX_AGENT_SLOT_CHARS as nat)
        }
    }
}

/// The name a new slot gets from the requested name and its working
/// directory.
pub fn agent_slot_base_name(requested_name: &str, workdir: &str) -> (r: String)
    ensures
        r@ == base_name_spec(requested_name@, workdir@),
        r@.len() <= MAX_AGENT_SLOT_CHARS,
{
    let requested = slot_name_chars(&chars_of(requested_name));
    if requested.len() > 0 {
        return string_of(&take_chars_of(&requested, MAX_AGENT_SLOT_CHARS));
    }
    let d = match path_file_name(workdir) {
        Some(n) => slot_name_chars(&chars_of(n.as_str())),
        None => Vec::new(),
    };
    if d.len() == 0 {
        proof {
            reveal_strlit("project");
        }
        String::from_str("project")
    } else {
        string_of(&take_chars_of(&d, MAX_AGENT_SLOT_CHARS))
    }
}

/// The index of the last `c` in `s`.
pub open spec fn rfind_char(s: Seq<char>, c: char) -> Option<int>
    decreases s.len(),
{
    if s.len() == 0 {
        None
    } else if s.last() == c {
        Some(s.len() - 1)
    } else {
        rfind_char(s.drop_last(), c)
    }
}

proof fn lemma_rfind_char(s: Seq<char>, c: char)
    ensures
        rfind_char(s, c) matches Some(k) ==> 0 <= k < s.len() && s[k] == c,
    decreases s.len(),
{
    if s.len() > 0 && s.last() != c {
        lemma_rfind_char(s.drop_last(), c);
    }
}

/// The name family of a slot: its normalized name without a trailing
/// `-NUMBER`, or `agent` where nothing is left.
pub open spec fn parallel_base_spec(name: Seq<char>) -> Seq<char> {
    let n = slot_name_spec(trim(name));
    let base = match rfind_char(n, '-') {
        Some(k) => if all_digits(n.skip(k + 1)) {
            n.take(k)
        } else {
            n
        },
        None => n,
    };
    if base.len() == 0 {
        "agent"@
    } else {
        base
    }
}

/// The name family of a slot, for naming a parallel one.
pub fn parallel_agent_slot_base(name: &str) -> (r: String)
    ensures
        r@ == parallel_base_spec(name@),
{
    let n = slot_name_chars(&chars_of(name));
    let mut k = n.len();
    let ghost s = n@;
    assert(s.take(n.len() as int) == s);
    while k > 0 && n[k - 1] != '-'
        invariant
            k <= n.len(),
            s == n@,
            rfind_char(s, '-') == rfind_char(s.take(k as int), '-'),
        decreases k,
    {
        assert(s.take(k as int).drop_last() == s.take(k - 1));
        k -= 1;
    }
    let base = if k == 0 {
        assert(s.take(0).len() == 0);
        n.clone()
    } else {
        assert(s.take(k as int).last() == '-');
        let suffix = subvec(&n, k, n.len());
        assert(suffix@ == s.skip(k as int));
        let mut all = true;
        let mut i: usize = 0;
        while i < suffix.len()
            invariant
                i <= suffix.len(),
                all == (forall|j: int| 0 <= j < i ==> is_ascii_digit(#[trigger] suffix@[j])),
            decreases suffix.len() - i,
        {
            if !char_is_ascii_digit(suffix[i]) {
                all = false;
            }
            i += 1;
        }
        if all {
            subvec(&n, 0, k - 1)
        } else {
            n.clone()
        }
    };
    if base.len() == 0 {
        proof {
            reveal_strlit("agent");
        }
        String::from_str("agent")
    } else {
        string_of(&base)
    }
}

/// The name tried for a parallel slot with `number`: the base cut short
/// enough that `-NUMBER` still fits in [`MAX_AGENT_SLOT_CHARS`] characters.
pub open spec fn candidate_spec(base: Seq<char>, number: nat) -> Seq<char> {
    let suffix = seq!['-'] + nat_decimal(number);
    let stem_len = if suffix.len() < MAX_AGENT_SLOT_CHARS {
        (MAX_AGENT_SLOT_CHARS - suffix.len()) as nat
    } else {
        1
    };
    take_chars(base, stem_len) + suffix
}

/// The first candidate from `number` up to 9999 that no slot holds yet.
pub open spec fn first_free(base: Seq<char>, existing: Seq<Seq<char>>, number: nat) -> Option<
    Seq<char>,
>
    decreases 10000 - number,
{
    if number >= 10000 {
        None
    } else if !existing.contains(candidate_spec(base, number)) {
        Some(candidate_spec(base, number))
    } else {
        first_free(base, existing, number + 1)
    }
}

/// The name for a new slot in the family `base` when the slots `existing`
/// are taken: the base itself, cut to [`MAX_AGENT_SLOT_CHARS`] characters,
/// if free, else the first free `BASE-2` to `BASE-9999`; `None` when all
/// are taken.
pub open spec fn next_name_spec(base: Seq<char>, existing: Seq<Seq<char>>) -> Option<Seq<char>> {
    let b = take_chars(base, MAX_AGENT_SLOT_CHARS as nat);
    if !existing.contains(b) {
        Some(b)
    } else {
        first_free(b, existing, 2)
    }
}

proof fn lemma_first_free(base: Seq<char>, existing: Seq<Seq<char>>, number: nat)
    ensures
        first_free(base, existing, number) matches Some(n) ==> !existing.contains(n),
    decreases 10000 - number,
{
    if number < 10000 && existing.contains(candidate_spec(base, number)) {
        lemma_first_free(base, existing, number + 1);
    }
}

/// A name chosen for a new slot is held by no existing slot.
pub proof fn next_name_is_free(base: Seq<char>, existing: Seq<Seq<char>>)
    ensures
        next_name_spec(base, existing) matches Some(n) ==> !existing.contains(n),
{
    lemma_first_free(take_chars(base, MAX_AGENT_SLOT_CHARS as nat), existing, 2);
}

proof fn lemma_decimal_len4(n: nat)
    requires
        n < 10000,
    ensures
        nat_decimal(n).len() <= 4,
{
    if n >= 10 {
        let a = n / 10;
        if a >= 10 {
            let b = a / 10;
            if b >= 10 {
                let c = b / 10;
                assert(nat_decimal(c).len() == 1);
                assert(nat_decimal(b).len() == 2);
            }
            assert(nat_decimal(b).len() <= 2);
            assert(nat_decimal(a).len() <= 3);
        }
        assert(nat_decimal(a).len() <= 3);
    }
}

/// A name chosen for a new slot fits in [`MAX_AGENT_SLOT_CHARS`] characters.
pub proof fn next_name_fits(base: Seq<char>, existing: Seq<Seq<char>>)
    ensures
        next_name_spec(base, existing) matches Some(n) ==> n.len() <= MAX_AGENT_SLOT_CHARS,
{
    let b = take_chars(base, MAX_AGENT_SLOT_CHARS as nat);
    lemma_first_free_fits(b, existing, 2);
}

proof fn lemma_first_free_fits(base: Seq<char>, existing: Seq<Seq<char>>, number: nat)
    ensures
        first_free(base, existing, number) matches Some(n) ==> n.len() <= MAX_AGENT_SLOT_CHARS,
    decreases 10000 - number,
{
    if number < 10000 {
        lemma_decimal_len4(number);
        if existing.contains(candidate_spec(base, number)) {
            lemma_first_free_fits(base, existing, number + 1);
        }
    }
}

fn name_taken(existing: &Vec<String>, name: &Vec<char>) -> (r: bool)
    ensures
        r == string_views(existing@).contains(name@),
{
    let ghost ex = string_views(existing@);
    let mut i: usize = 0;
    while i < existing.len()
        invariant
            i <= existing.len(),
            ex == string_views(existing@),
            forall|j: int| 0 <= j < i ==> ex[j] != name@,
        decreases existing.len() - i,
    {
        assert(ex[i as int] == existing@[i as int]@);
        if chars_eq(&chars_of(existing[i].as_str()), name) {
            return true;
        }
        i += 1;
    }
    false
}

fn candidate_of(base: &Vec<char>, number: u64) -> (r: Vec<char>)
    ensures
        r@ == candidate_spec(base@, number as nat),
{
    let mut suffix: Vec<char> = Vec::new();
    suffix.push('-');
    push_decimal(&mut suffix, number);
    let stem_len = if suffix.len() < MAX_AGENT_SLOT_CHARS {
        MAX_AGENT_SLOT_CHARS - suffix.len()
    } else {
        1
    };
    let mut r = take_chars_of(base, stem_len);
    extend_chars(&mut r, &suffix);
    r
}

/// The name for a new slot in the family `base`, given the names that slots
/// already hold.
pub fn next_agent_slot_name(base: &str, existing: &Vec<String>) -> (r: Option<String>)
    ensures
        opt_view(r) == next_name_spec(base@, string_views(existing@)),
{
    let b = take_chars_of(&chars_of(base), MAX_AGENT_SLOT_CHARS);
    if !name_taken(existing, &b) {
        return Some(string_of(&b));
    }
    let ghost ex = string_views(existing@);
    let mut number: u64 = 2;
    while number < 10000
        invariant
            2 <= number <= 10000,
            ex == string_views(existing@),
            ex.contains(b@),
            b@ == take_chars(base@, MAX_AGENT_SLOT_CHARS as nat),
            first_free(b@, ex, 2) == first_free(b@, ex, number as nat),
        decreases 10000 - number,
    {
        let cand = candidate_of(&b, number);
        if !name_taken(existing, &cand) {
            assert(first_free(b@, ex, number as nat) == Some(cand@));
            return Some(string_of(&cand));
        }
        number += 1;
    }
    None
}

/// The slots that are made sure to exist at start: the configured ones, or
/// where none is configured the default slot `codex` in the default working
/// directory.
pub open spec fn seed_plan_spec(seeds: Seq<(Seq<char>, Seq<char>)>, default_workdir: Seq<char>) -> Seq<
    (Seq<char>, Seq<char>),
> {
    if seeds.len() == 0 {
        seq![("codex"@, default_workdir)]
    } else {
        seeds
    }
}

/// The slots to make sure of at start.
pub fn agent_slot_seed_plan(seeds: &Vec<AgentSlotSeed>, default_workdir: &str) -> (r: Vec<AgentSlotSeed>)
    ensures
        seed_views(r@) == seed_plan_spec(seed_views(seeds@), default_workdir@),
{
    let mut r: Vec<AgentSlotSeed> = Vec::new();
    if seeds.len() == 0 {
        r.push(AgentSlotSeed { name: String::from_str("codex"), workdir: String::from_str(default_workdir) });
        assert(seed_views(r@) =~= seq![("codex"@, default_workdir@)]);
        return r;
    }
    let mut i: usize = 0;
    while i < seeds.len()
        invariant
            i <= seeds.len(),
            seed_views(r@) == seed_views(seeds@).take(i as int),
        decreases seeds.len() - i,
    {
        let ghost before = seed_views(r@);
        r.push(
            AgentSlotSeed { name: seeds[i].name.clone(), workdir: seeds[i].workdir.clone() },
        );
        assert(seed_views(r@) =~= before.push((seeds@[i as int].name@, seeds@[i as int].workdir@)));
        assert(seed_views(seeds@).take(i + 1) =~= seed_views(seeds@).take(i as int).push(
            (seeds@[i as int].name@, seeds@[i as int].workdir@),
        ));
        i += 1;
    }
    assert(seed_views(seeds@).take(i as int) =~= seed_views(seeds@));
    r
}

} // verus!
