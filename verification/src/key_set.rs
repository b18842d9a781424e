//! A set of row keys that remembers the order in which the keys came in.

use crate::key::{Key, KeyView, OwnedKey};
use vstd::prelude::*;

verus! {

/// The views of a list of keys, in order.
pub open spec fn key_views(keys: Seq<OwnedKey>) -> Seq<KeyView> {
    keys.map_values(|k: OwnedKey| k@)
}

/// The test for a key other than `key`.
pub open spec fn other_key(key: KeyView) -> spec_fn(KeyView) -> bool {
    |k: KeyView| k != key
}

/// The keys once `key` was put in: a new key goes to the end, one that is in
/// the set already changes nothing.
pub open spec fn with_key(keys: Seq<KeyView>, key: KeyView) -> Seq<KeyView> {
    if keys.contains(key) {
        keys
    } else {
        keys.push(key)
    }
}

/// The keys once `key` was taken out.
pub open spec fn without_key(keys: Seq<KeyView>, key: KeyView) -> Seq<KeyView> {
    keys.filter(other_key(key))
}

/// Taking the key at `i` out of a sequence without duplicates removes that
/// position and nothing else.
pub proof fn lemma_without_key_at(s: Seq<KeyView>, i: int)
    requires
        s.no_duplicates(),
        0 <= i < s.len(),
    ensures
        without_key(s, s[i]) == s.remove(i),
        s.remove(i).no_duplicates(),
        !s.remove(i).contains(s[i]),
    decreases s.len(),
{
    let keep = other_key(s[i]);
    reveal(Seq::filter);
    let n = s.len() as int;
    if i == n - 1 {
        assert forall|j: int| 0 <= j < s.drop_last().len() implies s.drop_last()[j] != s[i] by {
            assert(s.drop_last()[j] == s[j]);
        }
        lemma_without_absent_key(s.drop_last(), s[i]);
        assert(s.remove(i) =~= s.drop_last());
    } else {
        let rest = s.drop_last();
        lemma_without_key_at(rest, i);
        assert(rest[i] == s[i]);
        assert(keep(s.last()));
        assert(s.remove(i) =~= rest.remove(i).push(s.last()));
    }
    assert forall|a: int, b: int|
        0 <= a < s.remove(i).len() && 0 <= b < s.remove(i).len() && a != b implies s.remove(i)[a]
        != s.remove(i)[b] by {
        let a0 = if a < i { a } else { a + 1 };
        let b0 = if b < i { b } else { b + 1 };
        assert(s.remove(i)[a] == s[a0]);
        assert(s.remove(i)[b] == s[b0]);
    }
    assert forall|a: int| 0 <= a < s.remove(i).len() implies s.remove(i)[a] != s[i] by {
        let a0 = if a < i { a } else { a + 1 };
        assert(s.remove(i)[a] == s[a0]);
    }
}

/// Taking out a key that a sequence does not hold changes nothing.
pub proof fn lemma_without_absent_key(s: Seq<KeyView>, key: KeyView)
    requires
        !s.contains(key),
    ensures
        without_key(s, key) == s,
    decreases s.len(),
{
    reveal(Seq::filter);
    if s.len() > 0 {
        assert forall|j: int| 0 <= j < s.drop_last().len() implies s.drop_last()[j] != key by {
            assert(s[j] == s.drop_last()[j]);
        }
        lemma_without_absent_key(s.drop_last(), key);
        assert(s[s.len() - 1] != key);
        assert(s.drop_last().push(s.last()) =~= s);
    }
}

/// Putting a key into a sequence without duplicates leaves it without duplicates.
pub proof fn lemma_with_key_distinct(s: Seq<KeyView>, key: KeyView)
    requires
        s.no_duplicates(),
    ensures
        with_key(s, key).no_duplicates(),
        with_key(s, key).contains(key),
{
    if !s.contains(key) {
        let after = s.push(key);
        assert(after[s.len() as int] == key);
        assert forall|a: int, b: int|
            0 <= a < after.len() && 0 <= b < after.len() && a != b implies after[a] != after[b] by {
            if a < s.len() {
                assert(s[a] == after[a]);
                assert(s.contains(after[a]));
            }
            if b < s.len() {
                assert(s[b] == after[b]);
                assert(s.contains(after[b]));
            }
        }
    }
}

/// A set of keys, kept in the order in which the keys were put in.
///
/// It is a list without duplicates and not a `HashSet`: vstd states what a
/// hash set holds only for element types that obey its key model, which it
/// grants to the primitive types alone.
#[derive(Debug)]
pub struct KeySet {
    keys: Vec<OwnedKey>,
}

impl View for KeySet {
    type V = Seq<KeyView>;

    closed spec fn view(&self) -> Seq<KeyView> {
        key_views(self.keys@)
    }
}

impl KeySet {
    #[verifier::type_invariant]
    spec fn distinct(&self) -> bool {
        key_views(self.keys@).no_duplicates()
    }

    /// The empty set.
    pub fn new() -> (set: Self)
        ensures
            set@ == Seq::<KeyView>::empty(),
    {
        let set = KeySet { keys: Vec::new() };
        assert(set@ =~= Seq::<KeyView>::empty());
        set
    }

    /// The position of `key`, if it is in the set.
    fn find(&self, key: &Key<'_>) -> (pos: Option<usize>)
        ensures
            self@.no_duplicates(),
            match pos {
                Some(i) => i < self@.len() && self@[i as int] == key@,
                None => !self@.contains(key@),
            },
    {
        proof {
            use_type_invariant(self);
        }
        let mut i: usize = 0;
        while i < self.keys.len()
            invariant
                i <= self.keys.len(),
                key_views(self.keys@).no_duplicates(),
                forall|j: int| 0 <= j < i ==> self.keys@[j]@ != key@,
            decreases self.keys.len() - i,
        {
            if self.keys[i].borrow().eq(key) {
                return Some(i);
            }
            i += 1;
        }
        assert forall|j: int| 0 <= j < self@.len() implies self@[j] != key@ by {
            assert(self@[j] == self.keys@[j]@);
        }
        None
    }

    /// Whether `key` is in the set.
    pub fn contains(&self, key: &Key<'_>) -> (present: bool)
        ensures
            present == self@.contains(key@),
            self@.no_duplicates(),
    {
        self.find(key).is_some()
    }

    /// The number of keys.
    pub fn len(&self) -> (n: usize)
        ensures
            n == self@.len(),
            self@.no_duplicates(),
    {
        proof {
            use_type_invariant(self);
        }
        self.keys.len()
    }

    /// Puts `key` into the set; tells whether it was new.
    pub fn insert(&mut self, key: OwnedKey) -> (added: bool)
        ensures
            final(self)@ == with_key(old(self)@, key@),
            added == !old(self)@.contains(key@),
            final(self)@.no_duplicates(),
    {
        proof {
            use_type_invariant(&*self);
            lemma_with_key_distinct(self@, key@);
        }
        if self.find(key.borrow()).is_some() {
            return false;
        }
        let ghost before = self.keys@;
        let mut keys: Vec<OwnedKey> = Vec::new();
        std::mem::swap(&mut keys, &mut self.keys);
        keys.push(key);
        proof {
            assert(key_views(keys@) =~= key_views(before).push(key@));
        }
        self.keys = keys;
        true
    }

    /// Takes `key` out of the set; tells whether it was there.
    pub fn remove(&mut self, key: &Key<'_>) -> (removed: bool)
        ensures
            final(self)@ == without_key(old(self)@, key@),
            removed == old(self)@.contains(key@),
            final(self)@.no_duplicates(),
            !final(self)@.contains(key@),
    {
        let ghost before = self.keys@;
        match self.find(key) {
            Some(i) => {
                let mut keys: Vec<OwnedKey> = Vec::new();
                std::mem::swap(&mut keys, &mut self.keys);
                let _ = keys.remove(i);
                proof {
                    lemma_without_key_at(key_views(before), i as int);
                    assert(key_views(keys@) =~= key_views(before).remove(i as int));
                }
                self.keys = keys;
                true
            },
            None => {
                proof {
                    lemma_without_absent_key(key_views(before), key@);
                }
                false
            },
        }
    }

    /// The keys of the set, in order.
    pub fn keys(&self) -> (keys: Vec<OwnedKey>)
        ensures
            key_views(keys@) == self@,
            self@.no_duplicates(),
    {
        proof {
            use_type_invariant(self);
        }
        let mut keys: Vec<OwnedKey> = Vec::new();
        let mut i: usize = 0;
        while i < self.keys.len()
            invariant
                i <= self.keys.len(),
                keys@.len() == i,
                forall|j: int| 0 <= j < i ==> (#[trigger] keys@[j])@ == self.keys@[j]@,
            decreases self.keys.len() - i,
        {
            keys.push(self.keys[i].clone());
            i += 1;
        }
        assert(key_views(keys@) =~= self@);
        keys
    }
}

} // verus!
