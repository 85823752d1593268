//! The key-value map of the encrypted secrets file: a list of entries with
//! distinct keys.
use vstd::prelude::*;
use crate::session::same_str;

verus! {

/// The entries as pairs of texts.
pub open spec fn entries_view(es: Seq<(String, String)>) -> Seq<(Seq<char>, Seq<char>)> {
    Seq::new(es.len(), |i: int| (es[i].0@, es[i].1@))
}

/// No key occurs twice.
pub open spec fn keys_distinct(es: Seq<(Seq<char>, Seq<char>)>) -> bool {
    forall|i: int, j: int| 0 <= i < j < es.len() ==> es[i].0 != es[j].0
}

/// The value stored under `key`, if any.
pub open spec fn lookup(es: Seq<(Seq<char>, Seq<char>)>, key: Seq<char>) -> Option<Seq<char>>
    decreases es.len(),
{
    if es.len() == 0 {
        None
    } else if es.last().0 == key {
        Some(es.last().1)
    } else {
        lookup(es.drop_last(), key)
    }
}

/// The entries with `key` set to `value` (`HashMap::insert`): the entry for
/// `key` is replaced in place, or a new one is added at the end.
pub open spec fn insert_spec(es: Seq<(Seq<char>, Seq<char>)>, key: Seq<char>, value: Seq<char>) -> Seq<
    (Seq<char>, Seq<char>),
> {
    if exists|i: int| 0 <= i < es.len() && es[i].0 == key {
        es.update(first_key(es, key), (key, value))
    } else {
        es.push((key, value))
    }
}

/// The first position holding `key`.
pub open spec fn first_key(es: Seq<(Seq<char>, Seq<char>)>, key: Seq<char>) -> int {
    choose|i: int| 0 <= i < es.len() && es[i].0 == key && forall|j: int| 0 <= j < i ==> es[j].0 != key
}

/// The entries without `key` (`HashMap::remove`).
pub open spec fn remove_spec(es: Seq<(Seq<char>, Seq<char>)>, key: Seq<char>) -> Seq<(Seq<char>, Seq<char>)>
    decreases es.len(),
{
    if es.len() == 0 {
        es
    } else {
        let rest = remove_spec(es.drop_last(), key);
        if es.last().0 == key {
            rest
        } else {
            rest.push(es.last())
        }
    }
}

/// What `remove_spec` keeps is among the entries.
pub proof fn lemma_remove_subset(es: Seq<(Seq<char>, Seq<char>)>, key: Seq<char>)
    ensures
        forall|i: int| 0 <= i < remove_spec(es, key).len() ==> es.contains(#[trigger] remove_spec(es, key)[i]),
    decreases es.len(),
{
    if es.len() > 0 {
        let t = es.drop_last();
        lemma_remove_subset(t, key);
        let rest = remove_spec(t, key);
        assert forall|i: int| 0 <= i < remove_spec(es, key).len() implies es.contains(#[trigger] remove_spec(es, key)[i]) by {
            if i < rest.len() {
                assert(t.contains(rest[i]));
                let k = choose|k: int| 0 <= k < t.len() && t[k] == rest[i];
                assert(es[k] == t[k]);
            } else {
                assert(es[es.len() - 1] == es.last());
            }
        }
    }
}

/// Two entry lists that store the same value under every key.
pub open spec fn same_entries(a: Seq<(Seq<char>, Seq<char>)>, b: Seq<(Seq<char>, Seq<char>)>) -> bool {
    forall|k: Seq<char>| #[trigger] lookup(a, k) == lookup(b, k)
}

/// With distinct keys, `lookup` finds the entry at `i`.
pub proof fn lemma_lookup_at(es: Seq<(Seq<char>, Seq<char>)>, i: int)
    requires
        keys_distinct(es),
        0 <= i < es.len(),
    ensures
        lookup(es, es[i].0) == Some(es[i].1),
    decreases es.len(),
{
    if i < es.len() - 1 {
        assert(es.last().0 != es[i].0);
        assert(es.drop_last()[i] == es[i]);
        lemma_lookup_at(es.drop_last(), i);
    }
}

/// `lookup` finds nothing for a key no entry has.
pub proof fn lemma_lookup_absent(es: Seq<(Seq<char>, Seq<char>)>, key: Seq<char>)
    requires
        forall|i: int| 0 <= i < es.len() ==> es[i].0 != key,
    ensures
        lookup(es, key) is None,
    decreases es.len(),
{
    if es.len() > 0 {
        assert forall|i: int| 0 <= i < es.drop_last().len() implies es.drop_last()[i].0 != key by {
            assert(es.drop_last()[i] == es[i]);
        }
        lemma_lookup_absent(es.drop_last(), key);
    }
}

/// Any entry that `lookup` returns is one of the entries.
pub proof fn lemma_lookup_found(es: Seq<(Seq<char>, Seq<char>)>, key: Seq<char>)
    requires
        lookup(es, key) is Some,
    ensures
        exists|i: int| 0 <= i < es.len() && es[i].0 == key && es[i].1 == lookup(es, key)->0,
    decreases es.len(),
{
    if es.last().0 != key {
        lemma_lookup_found(es.drop_last(), key);
        let i = choose|i: int| 0 <= i < es.drop_last().len() && es.drop_last()[i].0 == key && es.drop_last()[i].1
            == lookup(es.drop_last(), key)->0;
        assert(es[i] == es.drop_last()[i]);
    } else {
        assert(es[es.len() - 1] == es.last());
    }
}

/// Reading a key after setting it gives the value set, every other key
/// keeps its value, and the keys stay distinct.
pub proof fn law_lookup_after_insert(es: Seq<(Seq<char>, Seq<char>)>, key: Seq<char>, value: Seq<char>)
    requires
        keys_distinct(es),
    ensures
        keys_distinct(insert_spec(es, key, value)),
        lookup(insert_spec(es, key, value), key) == Some(value),
        forall|k: Seq<char>| k != key ==> #[trigger] lookup(insert_spec(es, key, value), k) == lookup(es, k),
{
    let r = insert_spec(es, key, value);
    if exists|i: int| 0 <= i < es.len() && es[i].0 == key {
        let w = choose|i: int| 0 <= i < es.len() && es[i].0 == key;
        assert(forall|j: int| 0 <= j < w ==> es[j].0 != key);
        let i = first_key(es, key);
        assert(i == w) by {
            if i < w {
            } else if i > w {
            }
        }
        assert(keys_distinct(r));
        lemma_lookup_at(r, i);
        assert forall|k: Seq<char>| k != key implies #[trigger] lookup(r, k) == lookup(es, k) by {
            if exists|j: int| 0 <= j < es.len() && es[j].0 == k {
                let j = choose|j: int| 0 <= j < es.len() && es[j].0 == k;
                lemma_lookup_at(es, j);
                lemma_lookup_at(r, j);
            } else {
                lemma_lookup_absent(es, k);
                assert forall|j: int| 0 <= j < r.len() implies r[j].0 != k by {
                    if j != i {
                        assert(r[j] == es[j]);
                    }
                }
                lemma_lookup_absent(r, k);
            }
        }
    } else {
        assert(keys_distinct(r));
        assert(r.last() == (key, value));
        assert(r.drop_last() =~= es);
    }
}

/// After removing a key, reading it finds nothing and every other key keeps
/// its value.
pub proof fn law_lookup_after_remove(es: Seq<(Seq<char>, Seq<char>)>, key: Seq<char>)
    requires
        keys_distinct(es),
    ensures
        keys_distinct(remove_spec(es, key)),
        lookup(remove_spec(es, key), key) is None,
        forall|k: Seq<char>| k != key ==> #[trigger] lookup(remove_spec(es, key), k) == lookup(es, k),
    decreases es.len(),
{
    if es.len() > 0 {
        let t = es.drop_last();
        assert(keys_distinct(t)) by {
            assert forall|i: int, j: int| 0 <= i < j < t.len() implies t[i].0 != t[j].0 by {
                assert(t[i] == es[i] && t[j] == es[j]);
            }
        }
        law_lookup_after_remove(t, key);
        let rt = remove_spec(t, key);
        assert forall|k: Seq<char>| k != es.last().0 implies #[trigger] lookup(es, k) == lookup(t, k) by {}
        if es.last().0 != key {
            let r0 = rt.push(es.last());
            assert(r0.drop_last() =~= rt);
            assert(r0.last() == es.last());
            assert forall|k: Seq<char>| k != key implies #[trigger] lookup(remove_spec(es, key), k) == lookup(es, k) by {
                assert(remove_spec(es, key) == r0);
                if k == es.last().0 {
                    assert(lookup(r0, k) == Some(r0.last().1));
                } else {
                    assert(lookup(r0, k) == lookup(r0.drop_last(), k));
                    assert(lookup(rt, k) == lookup(t, k));
                }
            }
            let r = rt.push(es.last());
            assert(r.drop_last() =~= rt);
            lemma_remove_subset(t, key);
            assert(keys_distinct(r)) by {
                assert forall|i: int, j: int| 0 <= i < j < r.len() implies r[i].0 != r[j].0 by {
                    if j == r.len() - 1 {
                        assert(t.contains(rt[i]));
                        let m = choose|m: int| 0 <= m < t.len() && t[m] == rt[i];
                        assert(es[m] == t[m]);
                        assert(es[es.len() - 1] == es.last());
                    }
                }
            }
        }
    }
}

/// `map.get(key).cloned()`.
pub fn lookup_entry(es: &Vec<(String, String)>, key: &str) -> (r: Option<String>)
    requires
        keys_distinct(entries_view(es@)),
    ensures
        match r {
            Some(v) => lookup(entries_view(es@), key@) == Some(v@),
            None => lookup(entries_view(es@), key@) is None,
        },
{
    let ghost ev = entries_view(es@);
    let mut i: usize = 0;
    while i < es.len()
        invariant
            i <= es@.len(),
            ev == entries_view(es@),
            keys_distinct(ev),
            forall|j: int| 0 <= j < i ==> ev[j].0 != key@,
        decreases es.len() - i,
    {
        if same_str(es[i].0.as_str(), key) {
            proof {
                lemma_lookup_at(ev, i as int);
            }
            return Some(es[i].1.clone());
        }
        i += 1;
    }
    proof {
        lemma_lookup_absent(ev, key@);
    }
    None
}

/// `map.insert(key, value)`.
pub fn insert_entry(es: &mut Vec<(String, String)>, key: String, value: String)
    ensures
        entries_view(final(es)@) == insert_spec(entries_view(old(es)@), key@, value@),
{
    let ghost ev = entries_view(es@);
    let mut i: usize = 0;
    while i < es.len()
        invariant
            i <= es@.len(),
            ev == entries_view(es@),
            es@ == old(es)@,
            forall|j: int| 0 <= j < i ==> ev[j].0 != key@,
        decreases es.len() - i,
    {
        if same_str(es[i].0.as_str(), key.as_str()) {
            assert(ev[i as int].0 == key@);
            assert(0 <= i < ev.len() && ev[i as int].0 == key@ && forall|m: int| 0 <= m < i ==> ev[m].0 != key@);
            let ghost w = first_key(ev, key@);
            assert(w == i) by {
                if w < i {
                } else if w > i {
                    assert(ev[i as int].0 == key@);
                }
            }
            let ghost kv = key@;
            let ghost vv = value@;
            es.set(i, (key, value));
            assert(entries_view(es@) =~= ev.update(i as int, (kv, vv)));
            return;
        }
        i += 1;
    }
    es.push((key, value));
    assert(entries_view(es@) =~= ev.push((key@, value@)));
}

/// `map.remove(key)`.
pub fn remove_entry(es: &mut Vec<(String, String)>, key: &str)
    ensures
        entries_view(final(es)@) == remove_spec(entries_view(old(es)@), key@),
{
    let ghost ev = entries_view(es@);
    let mut out: Vec<(String, String)> = Vec::new();
    let mut i: usize = 0;
    while i < es.len()
        invariant
            i <= es@.len(),
            ev == entries_view(es@),
            entries_view(out@) == remove_spec(ev.take(i as int), key@),
        decreases es.len() - i,
    {
        proof {
            assert(ev.take(i + 1).drop_last() =~= ev.take(i as int));
            assert(ev.take(i + 1).last() == ev[i as int]);
        }
        if !same_str(es[i].0.as_str(), key) {
            let ghost before = out@;
            out.push((es[i].0.clone(), es[i].1.clone()));
            assert(entries_view(out@) =~= entries_view(before).push(ev[i as int]));
        }
        i += 1;
    }
    assert(ev.take(es@.len() as int) =~= ev);
    *es = out;
}

} // verus!
