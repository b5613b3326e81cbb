//! A map from names to values that keeps the order in which the names came.

use crate::text::same_text;
use vstd::prelude::*;

verus! {

/// The first position at or after `from` whose entry is called `name`.
pub open spec fn position_from<T>(entries: Seq<(Seq<char>, T)>, name: Seq<char>, from: int) -> Option<
    int,
>
    decreases entries.len() - from,
{
    if from < 0 || from >= entries.len() {
        None
    } else if entries[from].0 == name {
        Some(from)
    } else {
        position_from(entries, name, from + 1)
    }
}

/// The position of the entry called `name`.
pub open spec fn position_of<T>(entries: Seq<(Seq<char>, T)>, name: Seq<char>) -> Option<int> {
    position_from(entries, name, 0)
}

/// Some entry is called `name`.
pub open spec fn has_name<T>(entries: Seq<(Seq<char>, T)>, name: Seq<char>) -> bool {
    position_of(entries, name) is Some
}

/// The value of the entry called `name`.
pub open spec fn lookup<T>(entries: Seq<(Seq<char>, T)>, name: Seq<char>) -> Option<T> {
    match position_of(entries, name) {
        Some(i) => Some(entries[i].1),
        None => None,
    }
}

/// No two entries share a name.
pub open spec fn distinct_names<T>(entries: Seq<(Seq<char>, T)>) -> bool {
    forall|i: int, j: int|
        0 <= i < j < entries.len() ==> (#[trigger] entries[i]).0 != (#[trigger] entries[j]).0
}

/// `entries` with `value` under `name`: in place of the entry of that name,
/// or else at the end.
pub open spec fn with_entry<T>(entries: Seq<(Seq<char>, T)>, name: Seq<char>, value: T) -> Seq<
    (Seq<char>, T),
> {
    match position_of(entries, name) {
        Some(i) => entries.update(i, (name, value)),
        None => entries.push((name, value)),
    }
}

/// What `position_from` finds is the first entry of that name from `from` on.
pub proof fn lemma_position_from<T>(entries: Seq<(Seq<char>, T)>, name: Seq<char>, from: int)
    requires
        0 <= from,
    ensures
        match position_from(entries, name, from) {
            Some(i) => {
                &&& from <= i < entries.len()
                &&& entries[i].0 == name
                &&& forall|j: int| from <= j < i ==> (#[trigger] entries[j]).0 != name
            },
            None => forall|j: int| from <= j < entries.len() ==> (#[trigger] entries[j]).0 != name,
        },
    decreases entries.len() - from,
{
    if from < entries.len() && entries[from].0 != name {
        lemma_position_from(entries, name, from + 1);
    }
}

/// The first entry of a name, from `from` on, is what `position_from` finds.
pub proof fn lemma_position_is<T>(entries: Seq<(Seq<char>, T)>, name: Seq<char>, from: int, i: int)
    requires
        0 <= from <= i < entries.len(),
        entries[i].0 == name,
        forall|j: int| from <= j < i ==> (#[trigger] entries[j]).0 != name,
    ensures
        position_from(entries, name, from) == Some(i),
    decreases i - from,
{
    if from < i {
        lemma_position_is(entries, name, from + 1, i);
    }
}

/// A value that was put under a name is found there.
pub proof fn lemma_with_entry_lookup<T>(entries: Seq<(Seq<char>, T)>, name: Seq<char>, value: T)
    ensures
        lookup(with_entry(entries, name, value), name) == Some(value),
        position_of(with_entry(entries, name, value), name) is Some,
        position_of(with_entry(entries, name, value), name)->0 < with_entry(
            entries,
            name,
            value,
        ).len(),
{
    lemma_position_from(entries, name, 0);
    let after = with_entry(entries, name, value);
    match position_of(entries, name) {
        Some(i) => {
            assert forall|j: int| 0 <= j < i implies (#[trigger] after[j]).0 != name by {
                assert(entries[j].0 != name);
            }
            lemma_position_is(after, name, 0, i);
        },
        None => {
            assert forall|j: int| 0 <= j < entries.len() implies (#[trigger] after[j]).0
                != name by {
                assert(entries[j].0 != name);
            }
            lemma_position_is(after, name, 0, entries.len() as int);
        },
    }
}

/// Putting a value under a name keeps the names distinct.
pub proof fn lemma_with_entry_distinct<T>(entries: Seq<(Seq<char>, T)>, name: Seq<char>, value: T)
    requires
        distinct_names(entries),
    ensures
        distinct_names(with_entry(entries, name, value)),
        lookup(with_entry(entries, name, value), name) == Some(value),
{
    lemma_position_from(entries, name, 0);
    let after = with_entry(entries, name, value);
    lemma_position_from(after, name, 0);
    match position_of(entries, name) {
        Some(i) => {
            assert(after[i].0 == name);
            assert forall|a: int, b: int| 0 <= a < b < after.len() implies (#[trigger] after[a]).0 != (
            #[trigger] after[b]).0 by {
                assert(entries[a].0 != entries[b].0);
            }
        },
        None => {
            assert(after[entries.len() as int].0 == name);
            assert forall|a: int, b: int| 0 <= a < b < after.len() implies (#[trigger] after[a]).0 != (
            #[trigger] after[b]).0 by {
                if b < entries.len() {
                    assert(entries[a].0 != entries[b].0);
                } else {
                    assert(entries[a].0 != name);
                }
            }
        },
    }
}

/// Names mapped to values of `T`, in the order of their first insertion.
/// [`NameMap::insert`] never makes a second entry for a name.
pub struct NameMap<T> {
    entries: Vec<(String, T)>,
}

impl<T> View for NameMap<T> {
    type V = Seq<(Seq<char>, T)>;

    closed spec fn view(&self) -> Seq<(Seq<char>, T)> {
        Seq::new(self.entries@.len(), |i: int| (self.entries@[i].0@, self.entries@[i].1))
    }
}

impl<T: DeepView> DeepView for NameMap<T> {
    type V = Seq<(Seq<char>, T::V)>;

    open spec fn deep_view(&self) -> Seq<(Seq<char>, T::V)> {
        Seq::new(self@.len(), |i: int| (self@[i].0, self@[i].1.deep_view()))
    }
}

impl<T> NameMap<T> {
    /// A map without entries.
    pub fn new() -> (m: Self)
        ensures
            m@ == Seq::<(Seq<char>, T)>::empty(),
    {
        let m = NameMap { entries: Vec::new() };
        assert(m@ =~= Seq::<(Seq<char>, T)>::empty());
        m
    }

    /// The number of entries.
    pub fn len(&self) -> (n: usize)
        ensures
            n == self@.len(),
    {
        self.entries.len()
    }

    /// Whether the map has no entry.
    pub fn is_empty(&self) -> (b: bool)
        ensures
            b == (self@.len() == 0),
    {
        self.entries.len() == 0
    }

    /// The position of the entry called `name`.
    pub fn position(&self, name: &str) -> (r: Option<usize>)
        ensures
            match r {
                Some(i) => position_of(self@, name@) == Some(i as int) && i < self@.len()
                    && self@[i as int].0 == name@,
                None => position_of(self@, name@) is None,
            },
    {
        let mut i: usize = 0;
        while i < self.entries.len()
            invariant
                i <= self.entries@.len(),
                position_of(self@, name@) == position_from(self@, name@, i as int),
            decreases self.entries@.len() - i,
        {
            if same_text(self.entries[i].0.as_str(), name) {
                return Some(i);
            }
            i = i + 1;
        }
        None
    }

    /// Whether some entry is called `name`.
    pub fn contains_key(&self, name: &str) -> (b: bool)
        ensures
            b == has_name(self@, name@),
    {
        self.position(name).is_some()
    }

    /// The value under `name`.
    pub fn get(&self, name: &str) -> (r: Option<&T>)
        ensures
            match r {
                Some(v) => lookup(self@, name@) == Some(*v),
                None => lookup(self@, name@) is None,
            },
    {
        match self.position(name) {
            Some(i) => Some(&self.entries[i].1),
            None => None,
        }
    }

    /// The name of the entry at position `i`.
    pub fn name_at(&self, i: usize) -> (r: &String)
        requires
            i < self@.len(),
        ensures
            r@ == self@[i as int].0,
    {
        &self.entries[i].0
    }

    /// The value of the entry at position `i`.
    pub fn value_at(&self, i: usize) -> (r: &T)
        requires
            i < self@.len(),
        ensures
            *r == self@[i as int].1,
    {
        &self.entries[i].1
    }

    /// Puts `value` under `name`: in place of the value that was there, or
    /// else as a new last entry.
    pub fn insert(&mut self, name: String, value: T)
        ensures
            final(self)@ == with_entry(old(self)@, name@, value),
    {
        let ghost before = self@;
        match self.position(name.as_str()) {
            Some(i) => {
                self.entries.set(i, (name, value));
                proof {
                    assert(self@ =~= before.update(i as int, (name@, value)));
                }
            },
            None => {
                self.entries.push((name, value));
                proof {
                    assert(self@ =~= before.push((name@, value)));
                }
            },
        }
    }

    /// Adds a last entry, whatever the names before it.
    pub(crate) fn push_entry(&mut self, name: String, value: T)
        ensures
            final(self)@ == old(self)@.push((name@, value)),
    {
        let ghost before = self@;
        self.entries.push((name, value));
        proof {
            assert(self@ =~= before.push((name@, value)));
        }
    }

    /// The names, in order.
    pub fn keys(&self) -> (r: Vec<String>)
        ensures
            r.deep_view() == Seq::new(self@.len(), |i: int| self@[i].0),
    {
        let mut r: Vec<String> = Vec::new();
        let mut i: usize = 0;
        while i < self.entries.len()
            invariant
                i <= self.entries@.len(),
                r@.len() == i,
                forall|j: int| 0 <= j < i ==> (#[trigger] r@[j])@ == self@[j].0,
            decreases self.entries@.len() - i,
        {
            r.push(self.entries[i].0.clone());
            i = i + 1;
        }
        assert(r.deep_view() =~= Seq::new(self@.len(), |i: int| self@[i].0));
        r
    }
}

/// Entries that agree on their names are searched alike.
pub proof fn lemma_position_by_names<T, U>(
    a: Seq<(Seq<char>, T)>,
    b: Seq<(Seq<char>, U)>,
    name: Seq<char>,
    from: int,
)
    requires
        a.len() == b.len(),
        forall|i: int| 0 <= i < a.len() ==> (#[trigger] a[i]).0 == (#[trigger] b[i]).0,
    ensures
        position_from(a, name, from) == position_from(b, name, from),
    decreases a.len() - from,
{
    if 0 <= from < a.len() {
        assert(a[from].0 == b[from].0);
        if a[from].0 != name {
            lemma_position_by_names(a, b, name, from + 1);
        }
    }
}

impl<T: DeepView> NameMap<T> {
    /// The value under `name`, stated over the deep view.
    pub fn find(&self, name: &str) -> (r: Option<&T>)
        ensures
            match r {
                Some(v) => lookup(self.deep_view(), name@) == Some(v.deep_view()),
                None => lookup(self.deep_view(), name@) is None,
            },
    {
        proof {
            lemma_position_by_names(self@, self.deep_view(), name@, 0);
            lemma_position_from(self@, name@, 0);
        }
        self.get(name)
    }

    /// Whether some entry is called `name`, stated over the deep view.
    pub fn has(&self, name: &str) -> (b: bool)
        ensures
            b == has_name(self.deep_view(), name@),
    {
        proof {
            lemma_position_by_names(self@, self.deep_view(), name@, 0);
        }
        self.contains_key(name)
    }

    /// [`NameMap::insert`], stated over the deep view.
    pub fn put(&mut self, name: String, value: T)
        ensures
            final(self).deep_view() == with_entry(old(self).deep_view(), name@, value.deep_view()),
            final(self)@ == with_entry(old(self)@, name@, value),
    {
        proof {
            lemma_position_by_names(self@, self.deep_view(), name@, 0);
            lemma_position_from(self@, name@, 0);
        }
        let ghost before = *self;
        self.insert(name, value);
        proof {
            assert(self.deep_view() =~= with_entry(
                before.deep_view(),
                name@,
                value.deep_view(),
            ));
        }
    }
}

} // verus!
