//! The sidebar's list of conversations: newest first, one entry per id.
use vstd::prelude::*;
use crate::backend::{Conversation, ConversationView};
use crate::chat_state::conversations_view;

verus! {

/// `c` placed before the first entry of `s` that was updated strictly
/// earlier, or at the end.
pub open spec fn insert_desc(s: Seq<ConversationView>, c: ConversationView) -> Seq<ConversationView>
    decreases s.len(),
{
    if s.len() == 0 {
        seq![c]
    } else if s[0].updated_at_us < c.updated_at_us {
        seq![c] + s
    } else {
        seq![s[0]] + insert_desc(s.drop_first(), c)
    }
}

/// The conversations ordered by `updated_at` from newest to oldest; those
/// updated at the same time keep their order (a stable sort).
pub open spec fn sort_desc(s: Seq<ConversationView>) -> Seq<ConversationView>
    decreases s.len(),
{
    if s.len() == 0 {
        s
    } else {
        insert_desc(sort_desc(s.drop_last()), s.last())
    }
}

/// Newest first.
pub open spec fn sorted_desc(s: Seq<ConversationView>) -> bool {
    forall|i: int, j: int| 0 <= i < j < s.len() ==> s[j].updated_at_us <= s[i].updated_at_us
}

/// The conversations of `s` whose id is not `id`, in order.
pub open spec fn without_id(s: Seq<ConversationView>, id: Seq<char>) -> Seq<ConversationView>
    decreases s.len(),
{
    if s.len() == 0 {
        s
    } else {
        let rest = without_id(s.drop_last(), id);
        if s.last().id == id {
            rest
        } else {
            rest.push(s.last())
        }
    }
}

/// The first position of a conversation with id `id`.
pub open spec fn first_with_id(s: Seq<ConversationView>, id: Seq<char>) -> Option<int> {
    if exists|i: int| 0 <= i < s.len() && s[i].id == id {
        Some(
            choose|i: int|
                0 <= i < s.len() && s[i].id == id && (forall|j: int| 0 <= j < i ==> s[j].id != id),
        )
    } else {
        None
    }
}

/// Where `insert_desc` puts `c`: the first position whose entry was updated
/// strictly earlier.
pub proof fn lemma_insert_desc_at(s: Seq<ConversationView>, c: ConversationView, p: int)
    requires
        0 <= p <= s.len(),
        forall|j: int| 0 <= j < p ==> s[j].updated_at_us >= c.updated_at_us,
        p < s.len() ==> s[p].updated_at_us < c.updated_at_us,
    ensures
        insert_desc(s, c) == s.take(p) + seq![c] + s.skip(p),
    decreases s.len(),
{
    if s.len() == 0 {
        assert(s.take(p) + seq![c] + s.skip(p) =~= seq![c]);
    } else if p == 0 {
        assert(s.take(p) + seq![c] + s.skip(p) =~= seq![c] + s);
    } else {
        let t = s.drop_first();
        assert forall|j: int| 0 <= j < p - 1 implies t[j].updated_at_us >= c.updated_at_us by {
            assert(t[j] == s[j + 1]);
        }
        lemma_insert_desc_at(t, c, p - 1);
        assert(s.take(p) + seq![c] + s.skip(p) =~= seq![s[0]] + (t.take(p - 1) + seq![c] + t.skip(p - 1)));
    }
}

/// Inserting into a list that is newest first keeps it so, and adds exactly
/// the one entry.
pub proof fn lemma_insert_desc_sorted(s: Seq<ConversationView>, c: ConversationView)
    requires
        sorted_desc(s),
    ensures
        sorted_desc(insert_desc(s, c)),
        insert_desc(s, c).to_multiset() == s.to_multiset().insert(c),
    decreases s.len(),
{
    broadcast use vstd::seq_lib::group_to_multiset_ensures;
    if s.len() == 0 {
        assert(seq![c] =~= Seq::<ConversationView>::empty().push(c));
    } else if s[0].updated_at_us < c.updated_at_us {
        assert(seq![c] + s =~= s.insert(0, c));
        vstd::seq_lib::lemma_seq_union_to_multiset_commutative(seq![c], s);
        assert(seq![c] =~= Seq::<ConversationView>::empty().push(c));
    } else {
        let t = s.drop_first();
        assert(sorted_desc(t)) by {
            assert forall|i: int, j: int| 0 <= i < j < t.len() implies t[j].updated_at_us <= t[i].updated_at_us by {
                assert(t[i] == s[i + 1] && t[j] == s[j + 1]);
            }
        }
        lemma_insert_desc_sorted(t, c);
        let r = insert_desc(t, c);
        assert(insert_desc(s, c) == seq![s[0]] + r);
        assert forall|i: int, j: int| 0 <= i < j < r.len() + 1 implies (seq![s[0]] + r)[j].updated_at_us <= (
        seq![s[0]] + r)[i].updated_at_us by {
            if i == 0 {
                let x = r[j - 1];
                assert(r.to_multiset().count(x) > 0);
                assert(t.to_multiset().insert(c).count(x) > 0);
                if x != c {
                    assert(t.to_multiset().count(x) > 0);
                    assert(t.contains(x));
                    let k = choose|k: int| 0 <= k < t.len() && t[k] == x;
                    assert(t[k] == s[k + 1]);
                }
            }
        }
        assert(seq![s[0]] + r =~= r.insert(0, s[0]));
        assert(s =~= t.insert(0, s[0]));
    }
}

/// The sorted list is newest first and holds the same conversations.
pub proof fn lemma_sort_desc(s: Seq<ConversationView>)
    ensures
        sorted_desc(sort_desc(s)),
        sort_desc(s).to_multiset() == s.to_multiset(),
        sort_desc(s).len() == s.len(),
    decreases s.len(),
{
    broadcast use vstd::seq_lib::group_to_multiset_ensures;
    if s.len() > 0 {
        lemma_sort_desc(s.drop_last());
        lemma_insert_desc_sorted(sort_desc(s.drop_last()), s.last());
        assert(s =~= s.drop_last().push(s.last()));
    }
    assert(sort_desc(s).to_multiset().len() == sort_desc(s).len());
    assert(s.to_multiset().len() == s.len());
}

/// Sorting the conversations (`sort_conversations_desc`) lists them from the
/// most recently updated to the least and keeps exactly the same
/// conversations.
pub proof fn law_sort_newest_first(s: Seq<ConversationView>)
    ensures
        sorted_desc(sort_desc(s)),
        sort_desc(s).to_multiset() == s.to_multiset(),
{
    lemma_sort_desc(s);
}

/// `without_id` keeps every entry but those with the id, in order.
pub proof fn lemma_without_id(s: Seq<ConversationView>, id: Seq<char>)
    ensures
        forall|i: int| 0 <= i < without_id(s, id).len() ==> #[trigger] without_id(s, id)[i].id != id,
        forall|i: int| 0 <= i < without_id(s, id).len() ==> s.contains(#[trigger] without_id(s, id)[i]),
        forall|c: ConversationView| s.contains(c) && c.id != id ==> without_id(s, id).contains(c),
    decreases s.len(),
{
    if s.len() > 0 {
        let t = s.drop_last();
        lemma_without_id(t, id);
        let rest = without_id(t, id);
        assert forall|i: int| 0 <= i < without_id(s, id).len() implies s.contains(#[trigger] without_id(s, id)[i]) by {
            if i < rest.len() {
                assert(t.contains(rest[i]));
                let k = choose|k: int| 0 <= k < t.len() && t[k] == rest[i];
                assert(s[k] == t[k]);
            } else {
                assert(s[s.len() - 1] == s.last());
            }
        }
        assert forall|c: ConversationView| s.contains(c) && c.id != id implies without_id(s, id).contains(c) by {
            let k = choose|k: int| 0 <= k < s.len() && s[k] == c;
            if k < s.len() - 1 {
                assert(t[k] == c);
                assert(t.contains(c));
                assert(rest.contains(c));
                let m = choose|m: int| 0 <= m < rest.len() && rest[m] == c;
                if s.last().id != id {
                    assert(rest.push(s.last())[m] == c);
                }
            } else {
                assert(rest.push(s.last())[rest.len() as int] == c);
            }
        }
    }
}

impl Conversation {
    /// The id of the conversation.
    pub fn id_str(&self) -> (r: &str)
        ensures
            r@ == self@.id,
    {
        self.id.as_str()
    }
}

/// `sort_conversations_desc`: a stable sort from the most recently updated
/// conversation to the least.
pub fn sort_conversations_desc(list: &mut Vec<Conversation>)
    ensures
        conversations_view(final(list)@) == sort_desc(conversations_view(old(list)@)),
{
    let ghost src = conversations_view(list@);
    let mut out: Vec<Conversation> = Vec::new();
    let mut i: usize = 0;
    while i < list.len()
        invariant
            i <= list@.len(),
            conversations_view(list@) == src,
            conversations_view(out@) == sort_desc(src.take(i as int)),
        decreases list.len() - i,
    {
        let c = list[i].copy();
        let ghost before = conversations_view(out@);
        let mut p: usize = 0;
        while p < out.len() && out[p].updated_at_us >= c.updated_at_us
            invariant
                p <= out@.len(),
                conversations_view(out@) == before,
                forall|j: int| 0 <= j < p ==> before[j].updated_at_us >= c.updated_at_us,
            decreases out.len() - p,
        {
            p += 1;
        }
        proof {
            lemma_insert_desc_at(before, c@, p as int);
            assert(src.take(i + 1).drop_last() =~= src.take(i as int));
            assert(src.take(i + 1).last() == c@);
        }
        out.insert(p, c);
        assert(conversations_view(out@) =~= before.take(p as int) + seq![c@] + before.skip(p as int));
        i += 1;
    }
    assert(src.take(list@.len() as int) =~= src);
    *list = out;
}

/// Drops every conversation with id `id` (`retain(|c| c.id != id)`).
pub fn retain_other_ids(list: &mut Vec<Conversation>, id: &str)
    ensures
        conversations_view(final(list)@) == without_id(conversations_view(old(list)@), id@),
{
    let ghost src = conversations_view(list@);
    let mut out: Vec<Conversation> = Vec::new();
    let mut i: usize = 0;
    while i < list.len()
        invariant
            i <= list@.len(),
            conversations_view(list@) == src,
            conversations_view(out@) == without_id(src.take(i as int), id@),
        decreases list.len() - i,
    {
        let c = list[i].copy();
        proof {
            assert(src.take(i + 1).drop_last() =~= src.take(i as int));
            assert(src.take(i + 1).last() == c@);
        }
        if !crate::session::same_str(c.id.as_str(), id) {
            out.push(c);
            assert(conversations_view(out@) =~= without_id(src.take(i as int), id@).push(c@));
        }
        i += 1;
    }
    assert(src.take(list@.len() as int) =~= src);
    *list = out;
}

/// The first position of a conversation with id `id`.
pub fn find_conversation(list: &Vec<Conversation>, id: &str) -> (r: Option<usize>)
    ensures
        match r {
            Some(i) => i < list@.len() && first_with_id(conversations_view(list@), id@) == Some(i as int),
            None => first_with_id(conversations_view(list@), id@) is None,
        },
{
    let ghost s = conversations_view(list@);
    let mut i: usize = 0;
    while i < list.len()
        invariant
            i <= list@.len(),
            s == conversations_view(list@),
            forall|j: int| 0 <= j < i ==> s[j].id != id@,
        decreases list.len() - i,
    {
        if crate::session::same_str(list[i].id.as_str(), id) {
            assert(s[i as int].id == id@);
            let ghost w = choose|k: int| 0 <= k < s.len() && s[k].id == id@ && (forall|j: int| 0 <= j < k ==> s[j].id != id@);
            assert(w == i) by {
                if w < i {
                } else if w > i {
                }
            }
            return Some(i);
        }
        i += 1;
    }
    None
}

} // verus!
