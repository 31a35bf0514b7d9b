//! The list of Codex conversations: newest first, at most 120.
use vstd::prelude::*;
use crate::codex::CodexConversation;
use crate::dashboard::{str_less, text_less};

verus! {

/// At most this many conversations are listed.
pub const MAX_CODEX_CONVERSATIONS: usize = 120;

/// Id, title, update time and path of a conversation.
pub type ConversationView = (Seq<char>, Seq<char>, Seq<char>, Seq<char>);

/// The views of a list of conversations.
pub open spec fn conversation_views(v: Seq<CodexConversation>) -> Seq<ConversationView> {
    v.map_values(|c: CodexConversation| c@)
}

/// Where a conversation updated at `key` goes in a list ordered newest
/// first: before the first one updated earlier, after all the others.
pub open spec fn newer_pos(s: Seq<ConversationView>, key: Seq<char>) -> int
    decreases s.len(),
{
    if s.len() == 0 {
        0
    } else if text_less(s[0].2, key) {
        0
    } else {
        1 + newer_pos(s.drop_first(), key)
    }
}

/// The list ordered newest first by update time; of equal times the first
/// stays first (a stable sort).
pub open spec fn newest_first(s: Seq<ConversationView>) -> Seq<ConversationView>
    decreases s.len(),
{
    if s.len() == 0 {
        s
    } else {
        let rest = newest_first(s.drop_last());
        rest.insert(newer_pos(rest, s.last().2), s.last())
    }
}

/// The conversations listed: newest first, at most 120.
pub open spec fn conversation_list_spec(s: Seq<ConversationView>) -> Seq<ConversationView> {
    let sorted = newest_first(s);
    if sorted.len() <= 120 {
        sorted
    } else {
        sorted.take(120)
    }
}

/// Whether no conversation of `s` was updated before a later one.
pub open spec fn ordered_newest_first(s: Seq<ConversationView>) -> bool {
    forall|i: int, j: int| 0 <= i < j < s.len() ==> !text_less(#[trigger] s[i].2, #[trigger] s[j].2)
}

proof fn lemma_newer_pos(s: Seq<ConversationView>, key: Seq<char>)
    ensures
        0 <= newer_pos(s, key) <= s.len(),
        forall|k: int| 0 <= k < newer_pos(s, key) ==> !text_less(#[trigger] s[k].2, key),
        newer_pos(s, key) < s.len() ==> text_less(s[newer_pos(s, key)].2, key),
    decreases s.len(),
{
    if s.len() > 0 && !text_less(s[0].2, key) {
        lemma_newer_pos(s.drop_first(), key);
        assert forall|k: int| 0 <= k < newer_pos(s, key) implies !text_less(#[trigger] s[k].2, key) by {
            if k > 0 {
                assert(s[k] == s.drop_first()[k - 1]);
            }
        }
    }
}

proof fn lemma_less_asym(a: Seq<char>, b: Seq<char>)
    ensures
        !(text_less(a, b) && text_less(b, a)),
    decreases a.len(),
{
    if a.len() > 0 && b.len() > 0 {
        if a[0] == b[0] {
            lemma_less_asym(a.drop_first(), b.drop_first());
            assert(text_less(a, b) == text_less(a.drop_first(), b.drop_first()));
            assert(text_less(b, a) == text_less(b.drop_first(), a.drop_first()));
        } else {
            assert((a[0] as int) != (b[0] as int));
        }
    }
}

proof fn lemma_less_total(a: Seq<char>, b: Seq<char>)
    ensures
        text_less(a, b) || text_less(b, a) || a == b,
    decreases a.len(),
{
    if a.len() > 0 && b.len() > 0 && (a[0] as int) == (b[0] as int) {
        lemma_less_total(a.drop_first(), b.drop_first());
        if a.drop_first() == b.drop_first() {
            assert(a[0] == b[0]) by {
                if a[0] != b[0] {
                    assert((a[0] as int) != (b[0] as int));
                }
            }
            assert(a =~= seq![a[0]] + a.drop_first());
            assert(b =~= seq![b[0]] + b.drop_first());
        }
    } else if a.len() == 0 && b.len() == 0 {
        assert(a =~= b);
    }
}

proof fn lemma_less_trans(a: Seq<char>, b: Seq<char>, c: Seq<char>)
    requires
        text_less(a, b),
        text_less(b, c),
    ensures
        text_less(a, c),
    decreases a.len(),
{
    if a.len() > 0 && b.len() > 0 && c.len() > 0 && (a[0] as int) == (b[0] as int) && (b[0] as int)
        == (c[0] as int) {
        lemma_less_trans(a.drop_first(), b.drop_first(), c.drop_first());
    }
}

proof fn lemma_insert_keeps_order(s: Seq<ConversationView>, x: ConversationView)
    requires
        ordered_newest_first(s),
    ensures
        ordered_newest_first(s.insert(newer_pos(s, x.2), x)),
{
    lemma_newer_pos(s, x.2);
    let p = newer_pos(s, x.2);
    let t = s.insert(p, x);
    assert forall|i: int, j: int| 0 <= i < j < t.len() implies !text_less(
        #[trigger] t[i].2,
        #[trigger] t[j].2,
    ) by {
        if j < p {
            assert(t[i] == s[i] && t[j] == s[j]);
        } else if j == p {
            assert(t[i] == s[i]);
        } else if i == p {
            // x was updated after s[p], and s[p] no earlier than s[j - 1].
            assert(t[j] == s[j - 1]);
            if j - 1 == p {
                lemma_less_asym(s[p].2, x.2);
            } else {
                assert(!text_less(s[p].2, s[j - 1].2));
                lemma_less_total(s[p].2, s[j - 1].2);
                if text_less(s[j - 1].2, s[p].2) {
                    lemma_less_trans(s[j - 1].2, s[p].2, x.2);
                } else {
                    assert(s[j - 1].2 == s[p].2);
                }
                lemma_less_asym(s[j - 1].2, x.2);
            }
        } else if i < p {
            assert(t[i] == s[i] && t[j] == s[j - 1]);
        } else {
            assert(t[i] == s[i - 1] && t[j] == s[j - 1]);
        }
    }
}

/// The conversation list is ordered newest first: no conversation listed
/// before another was updated earlier than it.
pub proof fn conversations_listed_newest_first(s: Seq<ConversationView>)
    ensures
        ordered_newest_first(conversation_list_spec(s)),
    decreases s.len(),
{
    lemma_newest_first_ordered(s);
}

proof fn lemma_newest_first_ordered(s: Seq<ConversationView>)
    ensures
        ordered_newest_first(newest_first(s)),
        newest_first(s).len() == s.len(),
    decreases s.len(),
{
    if s.len() > 0 {
        lemma_newest_first_ordered(s.drop_last());
        let rest = newest_first(s.drop_last());
        lemma_newer_pos(rest, s.last().2);
        lemma_insert_keeps_order(rest, s.last());
    }
}

fn copy_conversation(c: &CodexConversation) -> (r: CodexConversation)
    ensures
        r@ == c@,
{
    CodexConversation {
        id: c.id.clone(),
        title: c.title.clone(),
        updated_at: c.updated_at.clone(),
        path: c.path.clone(),
    }
}

fn newer_pos_of(v: &Vec<CodexConversation>, key: &str) -> (p: usize)
    ensures
        p == newer_pos(conversation_views(v@), key@),
{
    let ghost s = conversation_views(v@);
    let mut i: usize = 0;
    assert(s.skip(0) =~= s);
    while i < v.len()
        invariant
            i <= v.len(),
            s == conversation_views(v@),
            forall|k: int| 0 <= k < i ==> !text_less(#[trigger] s[k].2, key@),
            newer_pos(s, key@) == i + newer_pos(s.skip(i as int), key@),
        decreases v.len() - i,
    {
        assert(s.skip(i as int)[0] == s[i as int]);
        if str_less(v[i].updated_at.as_str(), key) {
            return i;
        }
        assert(s.skip(i as int).drop_first() =~= s.skip(i + 1));
        i += 1;
    }
    i
}

/// The conversations to list: ordered newest first by update time (of
/// equal times, in the order given), at most 120.
pub fn order_conversations(conversations: &Vec<CodexConversation>) -> (r: Vec<CodexConversation>)
    ensures
        conversation_views(r@) == conversation_list_spec(conversation_views(conversations@)),
{
    let ghost input = conversation_views(conversations@);
    let mut out: Vec<CodexConversation> = Vec::new();
    let mut i: usize = 0;
    while i < conversations.len()
        invariant
            i <= conversations.len(),
            input == conversation_views(conversations@),
            conversation_views(out@) == newest_first(input.take(i as int)),
        decreases conversations.len() - i,
    {
        let c = copy_conversation(&conversations[i]);
        let p = newer_pos_of(&out, c.updated_at.as_str());
        proof {
            lemma_newer_pos(conversation_views(out@), c.updated_at@);
        }
        let ghost before = conversation_views(out@);
        out.insert(p, c);
        proof {
            assert(input.take(i + 1).drop_last() =~= input.take(i as int));
            assert(input.take(i + 1).last() == c@);
            assert(conversation_views(out@) =~= before.insert(p as int, c@));
        }
        i += 1;
    }
    assert(input.take(i as int) =~= input);
    proof {
        lemma_newest_first_ordered(input);
    }
    if out.len() > MAX_CODEX_CONVERSATIONS {
        out.truncate(MAX_CODEX_CONVERSATIONS);
        assert(conversation_views(out@) =~= newest_first(input).take(120));
    }
    out
}

} // verus!
