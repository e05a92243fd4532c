//! Sets of command keys.

use vstd::prelude::*;
use vstd::string::*;

use crate::text::same_text;

verus! {

/// A set of command keys, viewed as the set of their texts.
#[derive(Debug)]
pub struct KeySet {
    keys: Vec<String>,
}

impl View for KeySet {
    type V = Set<Seq<char>>;

    closed spec fn view(&self) -> Set<Seq<char>> {
        self.keys.deep_view().to_set()
    }
}

impl KeySet {
    /// No key is stored twice.
    #[verifier::type_invariant]
    spec fn distinct(self) -> bool {
        self.keys.deep_view().no_duplicates()
    }

    /// The empty set.
    pub fn new() -> (s: KeySet)
        ensures
            s@ == Set::<Seq<char>>::empty(),
    {
        let s: KeySet = KeySet { keys: Vec::new() };
        assert(s@ =~= Set::<Seq<char>>::empty());
        s
    }

    /// Whether `key` is in the set.
    pub fn contains(&self, key: &str) -> (found: bool)
        ensures
            found == self@.contains(key@),
    {
        let ghost model = self.keys.deep_view();
        let mut i: usize = 0;
        while i < self.keys.len()
            invariant
                i <= self.keys@.len(),
                model == self.keys.deep_view(),
                forall|j: int| 0 <= j < i ==> #[trigger] model[j] != key@,
            decreases self.keys@.len() - i,
        {
            assert(model[i as int] == self.keys@[i as int]@);
            if same_text(self.keys[i].as_str(), key) {
                assert(model.contains(key@));
                return true;
            }
            i = i + 1;
        }
        assert(!model.contains(key@));
        false
    }

    /// The set with `key` added.
    pub fn with(self, key: &str) -> (s: KeySet)
        ensures
            s@ == self@.insert(key@),
    {
        let present: bool = self.contains(key);
        if present {
            assert(self@.insert(key@) =~= self@);
            return self;
        }
        proof {
            use_type_invariant(&self);
        }
        let ghost before = self.keys.deep_view();
        let mut keys: Vec<String> = self.keys;
        keys.push(key.to_owned());
        assert(keys.deep_view() =~= before.push(key@));
        assert(before.push(key@).to_set() =~= before.to_set().insert(key@)) by {
            assert forall|k: Seq<char>|
                before.to_set().insert(key@).contains(k) implies before.push(key@).contains(k) by {
                if k == key@ {
                    assert(before.push(key@)[before.len() as int] == k);
                } else {
                    let i = choose|i: int| 0 <= i < before.len() && before[i] == k;
                    assert(before.push(key@)[i] == k);
                }
            }
        }
        KeySet { keys }
    }

    /// Adds `key`; says whether it was absent before.
    pub fn insert(&mut self, key: &str) -> (added: bool)
        ensures
            final(self)@ == old(self)@.insert(key@),
            added == !old(self)@.contains(key@),
    {
        let added: bool = !self.contains(key);
        let mut s: KeySet = KeySet::new();
        std::mem::swap(&mut s, self);
        *self = s.with(key);
        added
    }

    /// The number of keys.
    pub fn len(&self) -> (n: usize)
        ensures
            n == self@.len(),
            self@.finite(),
    {
        proof {
            use_type_invariant(self);
            self.keys.deep_view().unique_seq_to_set();
        }
        self.keys.len()
    }

    /// Whether there is no key.
    pub fn is_empty(&self) -> (b: bool)
        ensures
            b == (self@ == Set::<Seq<char>>::empty()),
    {
        let ghost model = self.keys.deep_view();
        if self.keys.len() == 0 {
            assert(self@ =~= Set::<Seq<char>>::empty());
            true
        } else {
            assert(model.contains(model[0]));
            assert(self@.contains(model[0]));
            false
        }
    }
}

impl Clone for KeySet {
    fn clone(&self) -> (s: KeySet)
        ensures
            s@ == self@,
    {
        let ghost model = self.keys.deep_view();
        let mut s: KeySet = KeySet::new();
        let mut i: usize = 0;
        assert(model.take(0).to_set() =~= Set::<Seq<char>>::empty());
        while i < self.keys.len()
            invariant
                i <= self.keys@.len(),
                model == self.keys.deep_view(),
                s@ == model.take(i as int).to_set(),
            decreases self.keys@.len() - i,
        {
            assert(model[i as int] == self.keys@[i as int]@);
            s = s.with(self.keys[i].as_str());
            proof {
                lemma_take_to_set(model, i as int);
            }
            i = i + 1;
        }
        assert(model.take(i as int) =~= model);
        s
    }
}

/// One more element of a sequence is one more insertion into its set.
pub proof fn lemma_take_to_set<T>(s: Seq<T>, i: int)
    requires
        0 <= i < s.len(),
    ensures
        s.take(i + 1).to_set() == s.take(i).to_set().insert(s[i]),
{
    let more = s.take(i + 1);
    let less = s.take(i);
    assert forall|x: T| more.to_set().contains(x) implies less.to_set().insert(s[i]).contains(
        x,
    ) by {
        let k = choose|k: int| 0 <= k < more.len() && more[k] == x;
        if k < i {
            assert(less[k] == x);
        }
    }
    assert forall|x: T| less.to_set().insert(s[i]).contains(x) implies more.to_set().contains(
        x,
    ) by {
        if x == s[i] {
            assert(more[i] == x);
        } else {
            let k = choose|k: int| 0 <= k < less.len() && less[k] == x;
            assert(more[k] == x);
        }
    }
    assert(more.to_set() =~= less.to_set().insert(s[i]));
}

/// A set begins empty; a key that is added is in it, and the others are as they
/// were.
pub proof fn law_keys_are_added(
    empty: KeySet,
    before: KeySet,
    key: &str,
    after: KeySet,
    other: &str,
    found_before: bool,
    found_after: bool,
    found_in_empty: bool,
)
    requires
        call_ensures(KeySet::new, (), empty),
        call_ensures(KeySet::with, (before, key), after),
        call_ensures(KeySet::contains, (&before, other), found_before),
        call_ensures(KeySet::contains, (&after, other), found_after),
        call_ensures(KeySet::contains, (&empty, other), found_in_empty),
    ensures
        !found_in_empty,
        found_after <==> found_before || other@ == key@,
{
}

/// The number of keys grows by one with a key that was absent, and a set is
/// empty if and only if the number is zero.
pub proof fn law_keys_are_counted(
    before: KeySet,
    key: &str,
    after: KeySet,
    found: bool,
    n: usize,
    m: usize,
    none: bool,
    copy: KeySet,
)
    requires
        call_ensures(KeySet::contains, (&before, key), found),
        call_ensures(KeySet::with, (before, key), after),
        call_ensures(KeySet::len, (&before,), n),
        call_ensures(KeySet::len, (&after,), m),
        call_ensures(KeySet::is_empty, (&before,), none),
        call_ensures(<KeySet as Clone>::clone, (&before,), copy),
    ensures
        m == (if found {
            n as int
        } else {
            n + 1
        }),
        none <==> n == 0,
        copy@ == before@,
{
    broadcast use vstd::set::group_set_axioms;

    if found {
        assert(before@.insert(key@) =~= before@);
    }
    if n == 0 {
        before@.lemma_len0_is_empty();
    }
}

} // verus!
