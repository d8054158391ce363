//! A map with text keys.
use vstd::prelude::*;

verus! {

/// A map from strings to values of type `V`. Its entries are held in a list in
/// which no key occurs twice.
#[derive(Debug)]
pub struct TextMap<V> {
    entries: Vec<(String, V)>,
}

/// Whether the entry at `i` is the one for `key`.
spec fn holds<V>(entries: Seq<(String, V)>, key: Seq<char>, i: int) -> bool {
    0 <= i < entries.len() && entries[i].0@ == key
}

/// Whether no key occurs twice.
spec fn distinct<V>(entries: Seq<(String, V)>) -> bool {
    forall|key: Seq<char>, i: int, j: int| #[trigger]
        holds(entries, key, i) && #[trigger] holds(entries, key, j) ==> i == j
}

spec fn entry_map<V>(entries: Seq<(String, V)>) -> Map<Seq<char>, V> {
    Map::new(
        |key: Seq<char>| exists|i: int| holds(entries, key, i),
        |key: Seq<char>| entries[choose|i: int| holds(entries, key, i)].1,
    )
}

impl<V> View for TextMap<V> {
    type V = Map<Seq<char>, V>;

    closed spec fn view(&self) -> Map<Seq<char>, V> {
        entry_map(self.entries@)
    }
}

proof fn lemma_entry<V>(entries: Seq<(String, V)>, key: Seq<char>, i: int)
    requires
        distinct(entries),
        holds(entries, key, i),
    ensures
        entry_map(entries).contains_key(key),
        entry_map(entries)[key] == entries[i].1,
{
}

proof fn lemma_update<V>(before: Seq<(String, V)>, after: Seq<(String, V)>, i: int)
    requires
        distinct(before),
        0 <= i <= before.len(),
        i == before.len() ==> after.len() == before.len() + 1 && !entry_map(before).contains_key(
            after[i].0@,
        ),
        i < before.len() ==> after.len() == before.len() && after[i].0@ == before[i].0@,
        forall|j: int| 0 <= j < before.len() && j != i ==> after[j] == before[j],
    ensures
        distinct(after),
        entry_map(after) == entry_map(before).insert(after[i].0@, after[i].1),
{
    let key = after[i].0@;
    assert forall|k: Seq<char>, j: int| j != i implies holds(before, k, j) == #[trigger] holds(
        after,
        k,
        j,
    ) by {}
    assert(holds(after, key, i));
    if i < before.len() {
        assert(holds(before, key, i));
    }
    assert forall|k: Seq<char>, a: int, b: int| #[trigger]
        holds(after, k, a) && #[trigger] holds(after, k, b) implies a == b by {
        if a == i || b == i {
            assert(k == key);
            if a != i {
                assert(holds(before, k, a));
            }
            if b != i {
                assert(holds(before, k, b));
            }
        }
    }
    let old_map = entry_map(before);
    let new_map = entry_map(after);
    lemma_entry(after, key, i);
    assert forall|k: Seq<char>| k != key && #[trigger] new_map.dom().contains(
        k,
    ) implies old_map.dom().contains(k) && old_map[k] == new_map[k] by {
        let j = choose|j: int| holds(after, k, j);
        assert(holds(before, k, j));
        lemma_entry(before, k, j);
        lemma_entry(after, k, j);
    }
    assert forall|k: Seq<char>| k != key && #[trigger] old_map.dom().contains(
        k,
    ) implies new_map.dom().contains(k) by {
        let j = choose|j: int| holds(before, k, j);
        assert(holds(after, k, j));
    }
    assert(new_map =~= old_map.insert(key, after[i].1));
}

impl<V> TextMap<V> {
    #[verifier::type_invariant]
    spec fn keys_are_distinct(self) -> bool {
        distinct(self.entries@)
    }

    /// The empty map.
    pub fn new() -> (r: Self)
        ensures
            r@ == Map::<Seq<char>, V>::empty(),
    {
        let r = TextMap { entries: Vec::new() };
        assert(r@ =~= Map::<Seq<char>, V>::empty());
        r
    }

    fn position(&self, key: &String) -> (r: Option<usize>)
        ensures
            match r {
                Some(i) => holds(self.entries@, key@, i as int),
                None => !self@.contains_key(key@),
            },
    {
        let mut i: usize = 0;
        while i < self.entries.len()
            invariant
                i <= self.entries@.len(),
                forall|j: int| #[trigger] holds(self.entries@, key@, j) ==> i <= j,
            decreases self.entries@.len() - i,
        {
            if self.entries[i].0 == *key {
                return Some(i);
            }
            i += 1;
        }
        None
    }

    /// The value for `key`, if there is one.
    pub fn get(&self, key: &String) -> (r: Option<&V>)
        ensures
            match r {
                Some(value) => self@.contains_key(key@) && *value == self@[key@],
                None => !self@.contains_key(key@),
            },
    {
        proof {
            use_type_invariant(self);
        }
        match self.position(key) {
            Some(i) => {
                proof {
                    lemma_entry(self.entries@, key@, i as int);
                }
                Some(&self.entries[i].1)
            },
            None => None,
        }
    }

    /// Sets the value for `key`, in place of any that it had.
    pub fn insert(&mut self, key: String, value: V)
        ensures
            final(self)@ == old(self)@.insert(key@, value),
    {
        proof {
            use_type_invariant(&*self);
        }
        let position = self.position(&key);
        let ghost before = self.entries@;
        let mut entries: Vec<(String, V)> = Vec::new();
        std::mem::swap(&mut entries, &mut self.entries);
        match position {
            Some(i) => {
                entries[i] = (key, value);
                proof {
                    lemma_update(before, entries@, i as int);
                }
            },
            None => {
                entries.push((key, value));
                proof {
                    lemma_update(before, entries@, before.len() as int);
                }
            },
        }
        self.entries = entries;
    }
}

/// The contents of a map of strings.
pub open spec fn text_values(map: Map<Seq<char>, String>) -> Map<Seq<char>, Seq<char>> {
    map.map_values(|value: String| value@)
}

/// The contents of an optional map of strings.
pub open spec fn option_text_values(map: Option<TextMap<String>>) -> Option<
    Map<Seq<char>, Seq<char>>,
> {
    match map {
        Some(map) => Some(text_values(map@)),
        None => None,
    }
}

impl TextMap<String> {
    /// Whether every entry of this map is in `other` too.
    fn is_within(&self, other: &Self) -> (r: bool)
        ensures
            r == forall|key: Seq<char>| #[trigger]
                self@.contains_key(key) ==> other@.contains_key(key) && other@[key]@
                    == self@[key]@,
    {
        proof {
            use_type_invariant(self);
        }
        let mut i: usize = 0;
        while i < self.entries.len()
            invariant
                distinct(self.entries@),
                i <= self.entries@.len(),
                forall|j: int|
                    0 <= j < i ==> other@.contains_key((#[trigger] self.entries@[j]).0@)
                        && other@[self.entries@[j].0@]@ == self.entries@[j].1@,
            decreases self.entries@.len() - i,
        {
            let ghost key = self.entries@[i as int].0@;
            proof {
                lemma_entry(self.entries@, key, i as int);
                assert(self@.contains_key(key));
            }
            match other.get(&self.entries[i].0) {
                Some(value) => {
                    if *value != self.entries[i].1 {
                        return false;
                    }
                },
                None => {
                    return false;
                },
            }
            i += 1;
        }
        assert forall|key: Seq<char>| #[trigger] self@.contains_key(key) implies other@.contains_key(
            key,
        ) && other@[key]@ == self@[key]@ by {
            let j = choose|j: int| holds(self.entries@, key, j);
            lemma_entry(self.entries@, key, j);
        }
        true
    }

    /// Whether two maps hold the same entries.
    pub fn same(&self, other: &Self) -> (r: bool)
        ensures
            r == (text_values(self@) == text_values(other@)),
    {
        let r = self.is_within(other) && other.is_within(self);
        proof {
            let a = text_values(self@);
            let b = text_values(other@);
            if r {
                assert(a =~= b);
            } else if a == b {
                assert forall|key: Seq<char>| #[trigger] self@.contains_key(key) implies other@.contains_key(
                    key,
                ) && other@[key]@ == self@[key]@ by {
                    assert(a.contains_key(key) && b.contains_key(key));
                    assert(a[key] == b[key]);
                }
                assert forall|key: Seq<char>| #[trigger] other@.contains_key(key) implies self@.contains_key(
                    key,
                ) && self@[key]@ == other@[key]@ by {
                    assert(a.contains_key(key) && b.contains_key(key));
                    assert(a[key] == b[key]);
                }
            }
        }
        r
    }
}

/// Whether two optional maps hold the same entries.
pub fn same_option_map(a: &Option<TextMap<String>>, b: &Option<TextMap<String>>) -> (r: bool)
    ensures
        r == (option_text_values(*a) == option_text_values(*b)),
{
    match (a, b) {
        (Some(a), Some(b)) => a.same(b),
        (None, None) => true,
        _ => false,
    }
}

/// The contents of a map of strings are those of its values, each under its key.
pub proof fn law_text_values(map: Map<Seq<char>, String>)
    ensures
        text_values(map).dom() == map.dom(),
        forall|key: Seq<char>|
            map.contains_key(key) ==> #[trigger] text_values(map)[key] == map[key]@,
{
    assert(text_values(map).dom() =~= map.dom());
}

/// Two maps have the same contents exactly if they have the same keys, and the same
/// text under each.
pub proof fn law_same_text_values(a: Option<TextMap<String>>, b: Option<TextMap<String>>)
    ensures
        option_text_values(a) == option_text_values(b) <==> match (a, b) {
            (Some(a), Some(b)) => {
                &&& forall|key: Seq<char>| #[trigger] a@.contains_key(key) <==> b@.contains_key(key)
                &&& forall|key: Seq<char>|
                    a@.contains_key(key) ==> (#[trigger] a@[key])@ == b@[key]@
            },
            (None, None) => true,
            _ => false,
        },
{
    if let (Some(a), Some(b)) = (a, b) {
        let (x, y) = (text_values(a@), text_values(b@));
        if x == y {
            assert forall|key: Seq<char>| #[trigger] a@.contains_key(key) <==> b@.contains_key(
                key,
            ) by {
                assert(x.contains_key(key) == y.contains_key(key));
            }
            assert forall|key: Seq<char>| a@.contains_key(key) implies (#[trigger] a@[key])@
                == b@[key]@ by {
                assert(b@.contains_key(key));
                assert(x[key] == y[key]);
            }
        } else if (forall|key: Seq<char>| #[trigger]
            a@.contains_key(key) <==> b@.contains_key(key)) && (forall|key: Seq<char>|
            a@.contains_key(key) ==> (#[trigger] a@[key])@ == b@[key]@) {
            assert(x =~= y);
        }
    }
}

} // verus!
