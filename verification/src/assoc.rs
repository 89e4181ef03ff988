//! Association lists keyed by `String`, with their mathematical view.
//!
//! Locale tables and reverse keyword maps are stored as vectors of
//! key/value pairs. Their meaning is the finite `Map` obtained by folding
//! the pairs in order, a later pair overriding an earlier one with the same
//! key. Lookups scan from the back, so the executable result always agrees
//! with that map.

use vstd::prelude::*;

verus! {

/// The map denoted by an association list, folded left to right with a
/// per-entry interpretation `f`; a later entry wins over an earlier one
/// with the same key.
pub open spec fn assoc_view<V, W>(
    entries: Seq<(String, V)>,
    f: spec_fn(Seq<char>, V) -> W,
) -> Map<Seq<char>, W>
    decreases entries.len(),
{
    if entries.len() == 0 {
        Map::empty()
    } else {
        assoc_view(entries.drop_last(), f).insert(
            entries.last().0@,
            f(entries.last().0@, entries.last().1),
        )
    }
}

/// Total lookup in a map, as an `Option`.
pub open spec fn map_get<W>(m: Map<Seq<char>, W>, k: Seq<char>) -> Option<W> {
    if m.dom().contains(k) {
        Some(m[k])
    } else {
        None
    }
}

/// No two entries of the list share a key.
pub open spec fn unique_keys<V>(entries: Seq<(String, V)>) -> bool {
    forall|i: int, j: int|
        0 <= i < j < entries.len() ==> #[trigger] entries[i].0@ != #[trigger] entries[j].0@
}

/// Appending an entry inserts its interpretation into the view.
pub proof fn lemma_assoc_view_push<V, W>(
    entries: Seq<(String, V)>,
    f: spec_fn(Seq<char>, V) -> W,
    e: (String, V),
)
    ensures
        assoc_view(entries.push(e), f) == assoc_view(entries, f).insert(e.0@, f(e.0@, e.1)),
{
    assert(entries.push(e).drop_last() =~= entries);
    assert(entries.push(e).last() == e);
}

/// A key is in the view exactly when some entry carries it.
pub proof fn lemma_assoc_view_dom<V, W>(
    entries: Seq<(String, V)>,
    f: spec_fn(Seq<char>, V) -> W,
    k: Seq<char>,
)
    ensures
        assoc_view(entries, f).dom().contains(k) <==> (exists|i: int|
            0 <= i < entries.len() && #[trigger] entries[i].0@ == k),
    decreases entries.len(),
{
    if entries.len() > 0 {
        lemma_assoc_view_dom(entries.drop_last(), f, k);
        let n = entries.len() - 1;
        if entries[n].0@ == k {
            assert(assoc_view(entries, f).dom().contains(k));
        } else if exists|i: int| 0 <= i < entries.len() && #[trigger] entries[i].0@ == k {
            let i = choose|i: int| 0 <= i < entries.len() && #[trigger] entries[i].0@ == k;
            assert(entries.drop_last()[i].0@ == k);
        }
    }
}

/// The view binds a key to the interpretation of the last entry that
/// carries it.
pub proof fn lemma_assoc_view_index<V, W>(
    entries: Seq<(String, V)>,
    f: spec_fn(Seq<char>, V) -> W,
    i: int,
)
    requires
        0 <= i < entries.len(),
        forall|j: int| i < j < entries.len() ==> #[trigger] entries[j].0@ != entries[i].0@,
    ensures
        assoc_view(entries, f).dom().contains(entries[i].0@),
        assoc_view(entries, f)[entries[i].0@] == f(entries[i].0@, entries[i].1),
    decreases entries.len(),
{
    let n = entries.len() - 1;
    if i < n {
        assert(entries.drop_last()[i] == entries[i]);
        lemma_assoc_view_index(entries.drop_last(), f, i);
        assert(entries[n].0@ != entries[i].0@);
    }
}

/// Folding the same entries under two interpretations yields maps with the
/// same domain, whose values correspond through `h` whenever the second
/// interpretation factors through the first.
pub proof fn lemma_assoc_view_factor<V, W1, W2>(
    entries: Seq<(String, V)>,
    g1: spec_fn(Seq<char>, V) -> W1,
    g2: spec_fn(Seq<char>, V) -> W2,
    h: spec_fn(Seq<char>, W1) -> W2,
    k: Seq<char>,
)
    requires
        forall|kk: Seq<char>, v: V| #[trigger] g2(kk, v) == h(kk, g1(kk, v)),
    ensures
        assoc_view(entries, g1).dom().contains(k) <==> assoc_view(entries, g2).dom().contains(k),
        assoc_view(entries, g1).dom().contains(k) ==> assoc_view(entries, g2)[k] == h(
            k,
            assoc_view(entries, g1)[k],
        ),
    decreases entries.len(),
{
    if entries.len() > 0 {
        lemma_assoc_view_factor(entries.drop_last(), g1, g2, h, k);
    }
}

/// Looks a key up in an association list: the value of the last entry with
/// that key, as the view under `f` records it.
pub fn assoc_get<'a, V, W>(
    entries: &'a Vec<(String, V)>,
    key: &str,
    Ghost(f): Ghost<spec_fn(Seq<char>, V) -> W>,
) -> (r: Option<&'a V>)
    ensures
        ({
            let m = assoc_view(entries@, f);
            match r {
                Some(v) => m.dom().contains(key@) && m[key@] == f(key@, *v),
                None => !m.dom().contains(key@),
            }
        }),
{
    let mut i: usize = entries.len();
    while i > 0
        invariant
            i <= entries@.len(),
            forall|j: int| i <= j < entries@.len() ==> #[trigger] entries@[j].0@ != key@,
        decreases i,
    {
        i = i - 1;
        if crate::str_eq(entries[i].0.as_str(), key) {
            proof {
                lemma_assoc_view_index(entries@, f, i as int);
            }
            return Some(&entries[i].1);
        }
    }
    proof {
        lemma_assoc_view_dom(entries@, f, key@);
    }
    None
}

/// Appends an entry to an association list, recording what that does to
/// its view.
pub fn assoc_push<V, W>(
    entries: &mut Vec<(String, V)>,
    key: String,
    value: V,
    Ghost(f): Ghost<spec_fn(Seq<char>, V) -> W>,
)
    ensures
        final(entries)@ == old(entries)@.push((key, value)),
        assoc_view(final(entries)@, f) == assoc_view(old(entries)@, f).insert(key@, f(key@, value)),
{
    let ghost s = entries@;
    entries.push((key, value));
    proof {
        assert(entries@ =~= s.push(entries@.last()));
        lemma_assoc_view_push(s, f, entries@.last());
    }
}

/// With pairwise distinct keys, the view has exactly one binding per entry.
pub proof fn lemma_assoc_view_len<V, W>(
    entries: Seq<(String, V)>,
    f: spec_fn(Seq<char>, V) -> W,
)
    requires
        unique_keys(entries),
    ensures
        assoc_view(entries, f).dom().len() == entries.len(),
        assoc_view(entries, f).dom().finite(),
    decreases entries.len(),
{
    if entries.len() > 0 {
        let prefix = entries.drop_last();
        assert(unique_keys(prefix));
        lemma_assoc_view_len(prefix, f);
        lemma_assoc_view_dom(prefix, f, entries.last().0@);
        assert(!assoc_view(prefix, f).dom().contains(entries.last().0@));
    }
}

/// Two lists of equal length, with equal keys and pointwise equal
/// interpretations, denote the same map.
pub proof fn lemma_assoc_view_parallel<V1, V2, W>(
    e1: Seq<(String, V1)>,
    e2: Seq<(String, V2)>,
    f1: spec_fn(Seq<char>, V1) -> W,
    f2: spec_fn(Seq<char>, V2) -> W,
)
    requires
        e1.len() == e2.len(),
        forall|i: int| 0 <= i < e1.len() ==> #[trigger] e1[i].0@ == #[trigger] e2[i].0@,
        forall|i: int|
            0 <= i < e1.len() ==> f1(#[trigger] e1[i].0@, e1[i].1) == f2(e2[i].0@, #[trigger] e2[i].1),
    ensures
        assoc_view(e1, f1) == assoc_view(e2, f2),
    decreases e1.len(),
{
    if e1.len() == 0 {
        assert(assoc_view(e1, f1) =~= assoc_view(e2, f2));
    } else {
        let n = e1.len() - 1;
        assert(forall|i: int|
            0 <= i < n ==> #[trigger] e1.drop_last()[i] == e1[i] && #[trigger] e2.drop_last()[i]
                == e2[i]);
        lemma_assoc_view_parallel(e1.drop_last(), e2.drop_last(), f1, f2);
        assert(e1[n].0@ == e2[n].0@);
        assert(f1(e1[n].0@, e1[n].1) == f2(e2[n].0@, e2[n].1));
    }
}

} // verus!
