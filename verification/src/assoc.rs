//! Association lists from text to values.

use vstd::prelude::*;

verus! {

/// The value of the first entry under `key`.
pub open spec fn lookup<V>(entries: Seq<(Seq<char>, V)>, key: Seq<char>) -> Option<V>
    decreases entries.len(),
{
    if entries.len() == 0 {
        None
    } else if entries[0].0 == key {
        Some(entries[0].1)
    } else {
        lookup(entries.drop_first(), key)
    }
}

/// The entries whose key is in `keys`.
pub open spec fn narrowed<V>(entries: Seq<(Seq<char>, V)>, keys: Set<Seq<char>>) -> Seq<
    (Seq<char>, V),
> {
    entries.filter(|e: (Seq<char>, V)| keys.contains(e.0))
}

/// The last entry counts only where no earlier one has the key.
pub proof fn lemma_lookup_push<V>(entries: Seq<(Seq<char>, V)>, e: (Seq<char>, V), key: Seq<char>)
    ensures
        lookup(entries.push(e), key) == (match lookup(entries, key) {
            Some(v) => Some(v),
            None => if e.0 == key {
                Some(e.1)
            } else {
                None
            },
        }),
    decreases entries.len(),
{
    if entries.len() == 0 {
        assert(entries.push(e).drop_first() =~= entries);
        assert(lookup(entries.push(e).drop_first(), key) == None::<V>);
    } else {
        assert(entries.push(e).drop_first() =~= entries.drop_first().push(e));
        lemma_lookup_push(entries.drop_first(), e, key);
    }
}

/// One more entry of the list is one more candidate for narrowing.
pub proof fn lemma_narrowed_step<V>(entries: Seq<(Seq<char>, V)>, keys: Set<Seq<char>>, i: int)
    requires
        0 <= i < entries.len(),
    ensures
        narrowed(entries.take(i + 1), keys) == (if keys.contains(entries[i].0) {
            narrowed(entries.take(i), keys).push(entries[i])
        } else {
            narrowed(entries.take(i), keys)
        }),
{
    reveal(Seq::filter);
    assert(entries.take(i + 1).drop_last() =~= entries.take(i));
}

/// Narrowing hides the keys outside the set and changes nothing else.
pub proof fn lemma_lookup_narrowed<V>(
    entries: Seq<(Seq<char>, V)>,
    keys: Set<Seq<char>>,
    key: Seq<char>,
)
    ensures
        lookup(narrowed(entries, keys), key) == (if keys.contains(key) {
            lookup(entries, key)
        } else {
            None
        }),
    decreases entries.len(),
{
    reveal(Seq::filter);
    if entries.len() > 0 {
        let less = entries.drop_last();
        lemma_lookup_narrowed(less, keys, key);
        assert(less.push(entries.last()) =~= entries);
        lemma_lookup_push(less, entries.last(), key);
        lemma_lookup_push(narrowed(less, keys), entries.last(), key);
    }
}

/// A value that is found is the value of an entry under the key.
pub proof fn lemma_lookup_entry<V>(entries: Seq<(Seq<char>, V)>, key: Seq<char>)
    ensures
        match lookup(entries, key) {
            Some(v) => entries.contains((key, v)),
            None => forall|i: int| 0 <= i < entries.len() ==> #[trigger] entries[i].0 != key,
        },
    decreases entries.len(),
{
    if entries.len() > 0 {
        let rest = entries.drop_first();
        lemma_lookup_entry(rest, key);
        assert forall|i: int| 0 <= i < rest.len() implies rest[i] == #[trigger] entries[i + 1] by {}
        if entries[0].0 == key {
            assert(entries.contains((key, entries[0].1)));
        } else {
            match lookup(rest, key) {
                Some(v) => {
                    let i = choose|i: int| 0 <= i < rest.len() && rest[i] == (key, v);
                    assert(entries[i + 1] == (key, v));
                },
                None => {
                    assert forall|i: int| 0 <= i < entries.len() implies #[trigger] entries[i].0
                        != key by {
                        if i > 0 {
                            assert(rest[i - 1].0 != key);
                        }
                    }
                },
            }
        }
    }
}

/// With distinct keys, the value found under a key is that of its one entry.
pub proof fn lemma_lookup_distinct<V>(entries: Seq<(Seq<char>, V)>, i: int)
    requires
        0 <= i < entries.len(),
        forall|a: int, b: int|
            0 <= a < b < entries.len() ==> (#[trigger] entries[a]).0 != (#[trigger] entries[b]).0,
    ensures
        lookup(entries, entries[i].0) == Some(entries[i].1),
    decreases entries.len(),
{
    if i > 0 {
        let rest = entries.drop_first();
        assert(rest[i - 1] == entries[i]);
        assert(entries[0].0 != entries[i].0);
        lemma_lookup_distinct(rest, i - 1);
    }
}

} // verus!
