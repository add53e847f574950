//! A table from names to values, kept as a list in which no name
//! occurs twice.

use vstd::prelude::*;
use vstd::string::StringExecFns;

verus! {

/// The map that a list of named values stands for. Where a name occurs
/// more than once, its last entry counts.
pub open spec fn map_of<T>(entries: Seq<(Seq<char>, T)>) -> Map<Seq<char>, T>
    decreases entries.len(),
{
    if entries.len() == 0 {
        Map::empty()
    } else {
        map_of(entries.drop_last()).insert(entries.last().0, entries.last().1)
    }
}

/// No two entries carry the same name.
pub open spec fn names_distinct<T>(entries: Seq<(Seq<char>, T)>) -> bool {
    forall|i: int, j: int|
        0 <= i < j < entries.len() ==> (#[trigger] entries[i]).0 != (#[trigger] entries[j]).0
}

/// No entry carries `name`.
pub open spec fn name_absent<T>(entries: Seq<(Seq<char>, T)>, name: Seq<char>) -> bool {
    forall|i: int| 0 <= i < entries.len() ==> (#[trigger] entries[i]).0 != name
}

/// An entry added at the end is an insertion into the map.
pub proof fn lemma_map_of_push<T>(entries: Seq<(Seq<char>, T)>, name: Seq<char>, value: T)
    ensures
        map_of(entries.push((name, value))) == map_of(entries).insert(name, value),
{
    assert(entries.push((name, value)).drop_last() =~= entries);
}

/// A name that no entry carries is not a key of the map.
pub proof fn lemma_map_of_absent<T>(entries: Seq<(Seq<char>, T)>, name: Seq<char>)
    requires
        name_absent(entries, name),
    ensures
        !map_of(entries).contains_key(name),
    decreases entries.len(),
{
    if entries.len() > 0 {
        assert(entries.last() == entries[entries.len() - 1]);
        lemma_map_of_absent(entries.drop_last(), name);
    }
}

/// Among distinct names, each entry is what the map holds under its name.
pub proof fn lemma_map_of_entry<T>(entries: Seq<(Seq<char>, T)>, at: int)
    requires
        names_distinct(entries),
        0 <= at < entries.len(),
    ensures
        map_of(entries).contains_key(entries[at].0),
        map_of(entries)[entries[at].0] == entries[at].1,
    decreases entries.len(),
{
    let front = entries.drop_last();
    if at < entries.len() - 1 {
        assert(names_distinct(front)) by {
            assert forall|i: int, j: int| 0 <= i < j < front.len() implies (#[trigger] front[i]).0
                != (#[trigger] front[j]).0 by {
                assert(entries[i].0 != entries[j].0);
            }
        }
        lemma_map_of_entry(front, at);
        assert(front[at] == entries[at]);
        assert(entries[at].0 != entries[entries.len() - 1].0);
    }
}

/// Among distinct names, a new value in one entry's place is an
/// insertion under that entry's name.
pub proof fn lemma_map_of_update<T>(entries: Seq<(Seq<char>, T)>, at: int, value: T)
    requires
        names_distinct(entries),
        0 <= at < entries.len(),
    ensures
        names_distinct(entries.update(at, (entries[at].0, value))),
        map_of(entries.update(at, (entries[at].0, value))) == map_of(entries).insert(
            entries[at].0,
            value,
        ),
    decreases entries.len(),
{
    let name = entries[at].0;
    let changed = entries.update(at, (name, value));
    let front = entries.drop_last();
    assert(names_distinct(changed)) by {
        assert forall|i: int, j: int| 0 <= i < j < changed.len() implies (#[trigger] changed[i]).0
            != (#[trigger] changed[j]).0 by {
            assert(entries[i].0 != entries[j].0);
        }
    }
    if at == entries.len() - 1 {
        assert(changed.drop_last() =~= front);
        assert(map_of(front).insert(entries.last().0, entries.last().1).insert(name, value)
            =~= map_of(front).insert(name, value));
    } else {
        assert(names_distinct(front)) by {
            assert forall|i: int, j: int| 0 <= i < j < front.len() implies (#[trigger] front[i]).0
                != (#[trigger] front[j]).0 by {
                assert(entries[i].0 != entries[j].0);
            }
        }
        lemma_map_of_update(front, at, value);
        assert(front[at] == entries[at]);
        assert(changed.drop_last() =~= front.update(at, (name, value)));
        assert(changed.last() == entries.last());
        assert(entries[at].0 != entries[entries.len() - 1].0);
        assert(map_of(front).insert(name, value).insert(entries.last().0, entries.last().1)
            =~= map_of(front).insert(entries.last().0, entries.last().1).insert(name, value));
    }
}

/// A name that no entry carries can be added without a repetition.
pub proof fn lemma_names_distinct_push<T>(entries: Seq<(Seq<char>, T)>, name: Seq<char>, value: T)
    requires
        names_distinct(entries),
        name_absent(entries, name),
    ensures
        names_distinct(entries.push((name, value))),
{
    let longer = entries.push((name, value));
    assert forall|i: int, j: int| 0 <= i < j < longer.len() implies (#[trigger] longer[i]).0
        != (#[trigger] longer[j]).0 by {
        if j < entries.len() {
            assert(entries[i].0 != entries[j].0);
        } else {
            assert(entries[i].0 != name);
        }
    }
}

/// Among distinct names, the map has as many keys as there are entries.
pub proof fn lemma_map_of_len<T>(entries: Seq<(Seq<char>, T)>)
    requires
        names_distinct(entries),
    ensures
        map_of(entries).dom().finite(),
        map_of(entries).len() == entries.len(),
    decreases entries.len(),
{
    if entries.len() > 0 {
        let front = entries.drop_last();
        assert(names_distinct(front)) by {
            assert forall|i: int, j: int| 0 <= i < j < front.len() implies (#[trigger] front[i]).0
                != (#[trigger] front[j]).0 by {
                assert(entries[i].0 != entries[j].0);
            }
        }
        lemma_map_of_len(front);
        assert(name_absent(front, entries.last().0)) by {
            assert forall|i: int| 0 <= i < front.len() implies (#[trigger] front[i]).0
                != entries.last().0 by {
                assert(entries[i].0 != entries[entries.len() - 1].0);
            }
        }
        lemma_map_of_absent(front, entries.last().0);
    }
}

/// A table from names to values.
#[derive(Debug)]
pub struct Table<V: View> {
    entries: Vec<(String, V)>,
}

impl<V: View> Table<V> {
    /// The entries in the order in which the table holds them, each as
    /// the view of its name and of its value.
    pub closed spec fn entries(&self) -> Seq<(Seq<char>, V::V)> {
        Seq::new(self.entries@.len(), |i: int| (self.entries@[i].0@, self.entries@[i].1@))
    }

    #[verifier::type_invariant]
    closed spec fn well_formed(&self) -> bool {
        names_distinct(self.entries())
    }

    /// A table without entries.
    pub fn new() -> (res: Self)
        ensures
            res.entries() == Seq::<(Seq<char>, V::V)>::empty(),
            res@ == Map::<Seq<char>, V::V>::empty(),
    {
        let res = Table { entries: Vec::new() };
        assert(res.entries() =~= Seq::<(Seq<char>, V::V)>::empty());
        res
    }

    /// The number of entries, which is the number of names: no name has
    /// two entries.
    pub fn len(&self) -> (res: usize)
        ensures
            res == self.entries().len(),
            res == self@.len(),
            names_distinct(self.entries()),
    {
        proof {
            use_type_invariant(self);
            lemma_map_of_len(self.entries());
        }
        self.entries.len()
    }

    /// The entry at a position, if the table has that many.
    pub fn entry(&self, at: usize) -> (res: Option<(&String, &V)>)
        ensures
            res is Some <==> at < self.entries().len(),
            res matches Some((name, value)) ==> (name@, value@) == self.entries()[at as int],
    {
        if at < self.entries.len() {
            let found = &self.entries[at];
            Some((&found.0, &found.1))
        } else {
            None
        }
    }

    fn position(&self, name: &String) -> (res: Option<usize>)
        ensures
            match res {
                Some(at) => at < self.entries().len() && self.entries()[at as int].0 == name@,
                None => name_absent(self.entries(), name@),
            },
    {
        let mut at: usize = 0;
        while at < self.entries.len()
            invariant
                at <= self.entries().len(),
                self.entries().len() == self.entries@.len(),
                forall|i: int| 0 <= i < at ==> (#[trigger] self.entries()[i]).0 != name@,
            decreases self.entries.len() - at,
        {
            if self.entries[at].0 == *name {
                return Some(at);
            }
            at += 1;
        }
        None
    }

    /// The value under a name, if the table has the name.
    pub fn get(&self, name: &str) -> (res: Option<&V>)
        ensures
            match res {
                Some(value) => self@.contains_key(name@) && value@ == self@[name@],
                None => !self@.contains_key(name@),
            },
    {
        let key = String::from_str(name);
        match self.position(&key) {
            Some(at) => {
                proof {
                    use_type_invariant(self);
                    lemma_map_of_entry(self.entries(), at as int);
                }
                Some(&self.entries[at].1)
            },
            None => {
                proof {
                    lemma_map_of_absent(self.entries(), name@);
                }
                None
            },
        }
    }

    /// Whether the table has a name.
    pub fn contains(&self, name: &str) -> (res: bool)
        ensures
            res == self@.contains_key(name@),
    {
        self.get(name).is_some()
    }

    /// Puts a value under a name, in place of the one that the name had.
    pub fn insert(&mut self, name: String, value: V)
        ensures
            final(self)@ == old(self)@.insert(name@, value@),
    {
        proof {
            use_type_invariant(&*self);
        }
        let found = self.position(&name);
        let ghost before = self.entries();
        let mut entries: Vec<(String, V)> = Vec::new();
        core::mem::swap(&mut self.entries, &mut entries);
        match found {
            Some(at) => {
                proof {
                    lemma_map_of_update(before, at as int, value@);
                }
                entries.set(at, (name, value));
            },
            None => {
                proof {
                    lemma_map_of_push(before, name@, value@);
                    lemma_names_distinct_push(before, name@, value@);
                }
                entries.push((name, value));
            },
        }
        let ghost after = Seq::new(entries@.len(), |i: int| (entries@[i].0@, entries@[i].1@));
        assert(found is Some ==> after =~= before.update(found->0 as int, (name@, value@)));
        assert(found is None ==> after =~= before.push((name@, value@)));
        core::mem::swap(&mut self.entries, &mut entries);
        assert(self.entries() =~= after);
    }
}

impl<V: View> View for Table<V> {
    type V = Map<Seq<char>, V::V>;

    open spec fn view(&self) -> Map<Seq<char>, V::V> {
        map_of(self.entries())
    }
}

} // verus!
