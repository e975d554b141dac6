//! A small map keyed by names, kept as a vector of distinct name/value pairs.

use vstd::prelude::*;

verus! {

/// A map from names to values. No name occurs twice.
#[derive(Debug)]
pub struct NameMap<V> {
    entries: Vec<(String, V)>,
}

impl<V> NameMap<V> {
    #[verifier::type_invariant]
    spec fn names_distinct(&self) -> bool {
        names_distinct_in(self.entries@)
    }

    /// An empty map.
    pub fn new() -> (m: Self)
        ensures
            m@ == Map::<Seq<char>, V>::empty(),
    {
        let m = NameMap { entries: Vec::new() };
        assert(m@ =~= Map::<Seq<char>, V>::empty());
        m
    }

    /// The value stored under `name`.
    pub fn get(&self, name: &str) -> (r: Option<&V>)
        ensures
            match r {
                Some(v) => self@.contains_key(name@) && *v == self@[name@],
                None => !self@.contains_key(name@),
            },
    {
        proof {
            use_type_invariant(self);
        }
        let key = name.to_owned();
        match find_name(&self.entries, &key) {
            Some(i) => {
                proof {
                    self.lemma_entry_in_view(i as int);
                }
                Some(&self.entries[i].1)
            },
            None => None,
        }
    }

    /// Stores `value` under `name`, replacing what was stored there.
    pub fn insert(&mut self, name: String, value: V)
        ensures
            final(self)@ == old(self)@.insert(name@, value),
    {
        proof {
            use_type_invariant(&*self);
        }
        let ghost old_entries = self.entries@;
        let ghost key = name@;
        let mut entries: Vec<(String, V)> = Vec::new();
        std::mem::swap(&mut entries, &mut self.entries);
        let ghost i: int;
        match find_name(&entries, &name) {
            Some(at) => {
                proof {
                    i = at as int;
                }
                entries.set(at, (name, value));
            },
            None => {
                proof {
                    i = entries@.len() as int;
                }
                entries.push((name, value));
            },
        }
        proof {
            lemma_view_after_write(old_entries, entries@, i, key, value);
        }
        self.entries = entries;
    }

    proof fn lemma_entry_in_view(&self, i: int)
        requires
            self.names_distinct(),
            0 <= i < self.entries@.len(),
        ensures
            self@.contains_key(self.entries@[i].0@),
            self@[self.entries@[i].0@] == self.entries@[i].1,
    {
        lemma_view_at(self.entries@, i);
    }
}

/// The position of `name` in `entries`, if it is there.
fn find_name<V>(entries: &Vec<(String, V)>, name: &String) -> (r: Option<usize>)
    ensures
        match r {
            Some(i) => i < entries@.len() && entries@[i as int].0@ == name@,
            None => forall|j: int| 0 <= j < entries@.len() ==> entries@[j].0@ != name@,
        },
{
    let n = entries.len();
    let mut i: usize = 0;
    while i < n
        invariant
            n == entries@.len(),
            i <= n,
            forall|j: int| 0 <= j < i ==> entries@[j].0@ != name@,
        decreases n - i,
    {
        if entries[i].0 == *name {
            return Some(i);
        }
        i = i + 1;
    }
    None
}

spec fn names_distinct_in<V>(entries: Seq<(String, V)>) -> bool {
    forall|a: int, b: int| 0 <= a < b < entries.len() ==> #[trigger] entries[a].0@ != #[trigger] entries[b].0@
}

/// Writing `(key, value)` at position `i`, over the entry for `key` or at the
/// end, keeps names distinct and inserts into the view.
proof fn lemma_view_after_write<V>(old: Seq<(String, V)>, new: Seq<(String, V)>, i: int, key: Seq<char>, value: V)
    requires
        names_distinct_in(old),
        0 <= i < new.len(),
        old.len() <= new.len() <= old.len() + 1,
        i < old.len() ==> new.len() == old.len() && old[i].0@ == key,
        new[i].0@ == key,
        new[i].1 == value,
        forall|j: int| 0 <= j < new.len() && j != i ==> j < old.len() && #[trigger] new[j] == old[j],
        forall|j: int| 0 <= j < old.len() && j != i ==> #[trigger] old[j].0@ != key,
    ensures
        names_distinct_in(new),
        entries_view(new) == entries_view(old).insert(key, value),
{
    assert forall|a: int, b: int| 0 <= a < b < new.len() implies #[trigger] new[a].0@ != #[trigger] new[b].0@ by {
        if a != i && b != i {
            assert(old[a].0@ != old[b].0@);
        } else if a == i {
            assert(old[b].0@ != key);
        } else {
            assert(old[a].0@ != key);
        }
    }
    lemma_view_at(new, i);
    assert forall|k: Seq<char>| k != key implies entries_contain(new, k) == entries_contain(old, k) by {
        if entries_contain(old, k) {
            let j = choose|j: int| 0 <= j < old.len() && old[j].0@ == k;
            if j == i {
                assert(old[j].0@ == key);
            }
            assert(new[j].0@ == k);
        }
        if entries_contain(new, k) {
            let j = choose|j: int| 0 <= j < new.len() && new[j].0@ == k;
            assert(old[j].0@ == k);
        }
    }
    assert forall|k: Seq<char>| k != key && entries_contain(new, k) implies entries_value(new, k)
        == entries_value(old, k) by {
        let j = choose|j: int| 0 <= j < new.len() && new[j].0@ == k;
        lemma_view_at(new, j);
        lemma_view_at(old, j);
    }
    assert(entries_view(new) =~= entries_view(old).insert(key, value));
}

spec fn entries_contain<V>(entries: Seq<(String, V)>, k: Seq<char>) -> bool {
    exists|i: int| 0 <= i < entries.len() && entries[i].0@ == k
}

spec fn entries_value<V>(entries: Seq<(String, V)>, k: Seq<char>) -> V {
    entries[choose|i: int| 0 <= i < entries.len() && entries[i].0@ == k].1
}

spec fn entries_view<V>(entries: Seq<(String, V)>) -> Map<Seq<char>, V> {
    Map::new(|k: Seq<char>| entries_contain(entries, k), |k: Seq<char>| entries_value(entries, k))
}

proof fn lemma_view_at<V>(entries: Seq<(String, V)>, i: int)
    requires
        0 <= i < entries.len(),
        names_distinct_in(entries),
    ensures
        entries_view(entries).contains_key(entries[i].0@),
        entries_view(entries)[entries[i].0@] == entries[i].1,
{
    let k = entries[i].0@;
    assert(entries_contain(entries, k));
    let j = choose|j: int| 0 <= j < entries.len() && entries[j].0@ == k;
    if j < i {
        assert(entries[j].0@ != entries[i].0@);
    } else if i < j {
        assert(entries[i].0@ != entries[j].0@);
    }
}

impl<V: Clone> Clone for NameMap<V> {
    /// A copy holding the same names, each with a clone of its value.
    fn clone(&self) -> (r: Self)
        ensures
            r@.dom() == self@.dom(),
    {
        proof {
            use_type_invariant(self);
        }
        let n = self.entries.len();
        let mut entries: Vec<(String, V)> = Vec::new();
        let mut i: usize = 0;
        while i < n
            invariant
                n == self.entries@.len(),
                i <= n,
                entries@.len() == i,
                forall|j: int| 0 <= j < i ==> #[trigger] entries@[j].0@ == self.entries@[j].0@,
            decreases n - i,
        {
            let name = self.entries[i].0.clone();
            let value = self.entries[i].1.clone();
            entries.push((name, value));
            i = i + 1;
        }
        proof {
            assert forall|a: int, b: int| 0 <= a < b < entries@.len() implies #[trigger] entries@[a].0@
                != #[trigger] entries@[b].0@ by {
                assert(self.entries@[a].0@ != self.entries@[b].0@);
            }
            assert forall|k: Seq<char>| entries_contain(entries@, k) == entries_contain(self.entries@, k) by {
                if entries_contain(entries@, k) {
                    let j = choose|j: int| 0 <= j < entries@.len() && entries@[j].0@ == k;
                    assert(self.entries@[j].0@ == k);
                }
                if entries_contain(self.entries@, k) {
                    let j = choose|j: int| 0 <= j < self.entries@.len() && self.entries@[j].0@ == k;
                    assert(entries@[j].0@ == k);
                }
            }
        }
        let r = NameMap { entries };
        assert(r@.dom() =~= self@.dom());
        r
    }
}

impl<V> View for NameMap<V> {
    type V = Map<Seq<char>, V>;

    closed spec fn view(&self) -> Map<Seq<char>, V> {
        entries_view(self.entries@)
    }
}

} // verus!
