//! A small map from strings to strings, used for the environment snapshot
//! and for the shared memory store.
use vstd::prelude::*;

use crate::text::str_eq;

verus! {

/// A map from string keys to string values.
pub struct StrMap {
    entries: Vec<(String, String)>,
}

/// Environment variables, by name.
pub type Env = StrMap;

/// The value bound to `name` in a list of bindings; the first binding wins.
pub open spec fn lookup_in(vars: Seq<(String, String)>, name: Seq<char>) -> Option<Seq<char>>
    decreases vars.len(),
{
    if vars.len() == 0 {
        None
    } else if vars[0].0@ == name {
        Some(vars[0].1@)
    } else {
        lookup_in(vars.skip(1), name)
    }
}

proof fn lemma_lookup_prefix(vars: Seq<(String, String)>, name: Seq<char>, i: int)
    requires
        0 <= i <= vars.len(),
        forall|j: int| 0 <= j < i ==> (#[trigger] vars[j]).0@ != name,
    ensures
        lookup_in(vars, name) == lookup_in(vars.skip(i), name),
    decreases i,
{
    if i > 0 {
        assert(vars.skip(1).skip(i - 1) =~= vars.skip(i));
        assert forall|j: int| 0 <= j < i - 1 implies (#[trigger] vars.skip(1)[j]).0@ != name by {
            assert(vars.skip(1)[j] == vars[j + 1]);
        }
        lemma_lookup_prefix(vars.skip(1), name, i - 1);
    } else {
        assert(vars.skip(0) =~= vars);
    }
}

proof fn lemma_lookup_none(vars: Seq<(String, String)>, name: Seq<char>)
    requires
        forall|j: int| 0 <= j < vars.len() ==> (#[trigger] vars[j]).0@ != name,
    ensures
        lookup_in(vars, name) == None::<Seq<char>>,
{
    lemma_lookup_prefix(vars, name, vars.len() as int);
    assert(vars.skip(vars.len() as int).len() == 0);
}

impl View for StrMap {
    type V = Map<Seq<char>, Seq<char>>;

    closed spec fn view(&self) -> Map<Seq<char>, Seq<char>> {
        Map::new(
            |k: Seq<char>| lookup_in(self.entries@, k) is Some,
            |k: Seq<char>| lookup_in(self.entries@, k)->Some_0,
        )
    }
}

impl StrMap {
    /// An empty map.
    pub fn new() -> (m: StrMap)
        ensures
            m@ == Map::<Seq<char>, Seq<char>>::empty(),
    {
        let m = StrMap { entries: Vec::new() };
        assert(m@ =~= Map::<Seq<char>, Seq<char>>::empty());
        m
    }

    /// Index of the first entry whose key is `name`.
    fn position(&self, name: &str) -> (r: Option<usize>)
        ensures
            match r {
                Some(i) => i < self.entries.len() && self.entries@[i as int].0@ == name@
                    && forall|j: int| 0 <= j < i ==> (#[trigger] self.entries@[j]).0@ != name@,
                None => forall|j: int|
                    0 <= j < self.entries.len() ==> (#[trigger] self.entries@[j]).0@ != name@,
            },
    {
        let mut i: usize = 0;
        while i < self.entries.len()
            invariant
                i <= self.entries.len(),
                forall|j: int| 0 <= j < i ==> (#[trigger] self.entries@[j]).0@ != name@,
            decreases self.entries.len() - i,
        {
            if str_eq(self.entries[i].0.as_str(), name) {
                return Some(i);
            }
            i += 1;
        }
        None
    }

    /// Binds `name` to `value`, replacing any earlier binding.
    pub fn set(&mut self, name: &str, value: &str)
        ensures
            final(self)@ == old(self)@.insert(name@, value@),
    {
        let ghost old_entries = self.entries@;
        match self.position(name) {
            Some(i) => {
                self.entries.set(i, (name.to_owned(), value.to_owned()));
                proof {
                    let ne = self.entries@;
                    assert forall|k: Seq<char>| #![auto] lookup_in(ne, k) == (if k == name@ {
                        Some(value@)
                    } else {
                        lookup_in(old_entries, k)
                    }) by {
                        if k == name@ {
                            assert forall|j: int| 0 <= j < i implies (#[trigger] ne[j]).0@ != k by {
                                assert(ne[j] == old_entries[j]);
                            }
                            lemma_lookup_prefix(ne, k, i as int);
                            assert(ne.skip(i as int)[0] == ne[i as int]);
                        } else {
                            lemma_lookup_same_except(old_entries, ne, k, i as int);
                        }
                    }
                    assert(self@ =~= old(self)@.insert(name@, value@));
                }
            },
            None => {
                self.entries.push((name.to_owned(), value.to_owned()));
                proof {
                    let ne = self.entries@;
                    assert forall|k: Seq<char>| #![auto] lookup_in(ne, k) == (if k == name@ {
                        Some(value@)
                    } else {
                        lookup_in(old_entries, k)
                    }) by {
                        lemma_lookup_none(old_entries, name@);
                        assert(ne == old_entries.push(ne.last()));
                        lemma_lookup_push(old_entries, ne.last().0, ne.last().1, k);
                    }
                    assert(self@ =~= old(self)@.insert(name@, value@));
                }
            },
        }
    }

    /// Removes any binding of `name`.
    pub fn remove(&mut self, name: &str)
        ensures
            final(self)@ == old(self)@.remove(name@),
    {
        let ghost old_entries = self.entries@;
        let mut kept: Vec<(String, String)> = Vec::new();
        let mut i: usize = 0;
        assert(old_entries.skip(0) =~= old_entries);
        while i < self.entries.len()
            invariant
                i <= self.entries.len(),
                self.entries@ == old_entries,
                forall|j: int| 0 <= j < kept.len() ==> (#[trigger] kept@[j]).0@ != name@,
                forall|k: Seq<char>|
                    #![auto]
                    k != name@ ==> lookup_in(old_entries, k) == (match lookup_in(kept@, k) {
                        Some(v) => Some(v),
                        None => lookup_in(old_entries.skip(i as int), k),
                    }),
            decreases self.entries.len() - i,
        {
            let ghost kept0 = kept@;
            let e = &self.entries[i];
            if !str_eq(e.0.as_str(), name) {
                kept.push((e.0.clone(), e.1.clone()));
            }
            proof {
                assert forall|k: Seq<char>| #![auto] k != name@ implies lookup_in(old_entries, k) == (
                match lookup_in(kept@, k) {
                    Some(v) => Some(v),
                    None => lookup_in(old_entries.skip(i + 1), k),
                }) by {
                    let rest = old_entries.skip(i as int);
                    assert(rest.skip(1) =~= old_entries.skip(i + 1));
                    assert(rest[0] == old_entries[i as int]);
                    if kept@.len() > kept0.len() {
                        lemma_lookup_push(kept0, kept@.last().0, kept@.last().1, k);
                        assert(kept@ == kept0.push(kept@.last()));
                    } else {
                        assert(kept@ == kept0);
                    }
                }
            }
            i += 1;
        }
        proof {
            assert(old_entries.skip(i as int).len() == 0);
            lemma_lookup_none(kept@, name@);
        }
        self.entries = kept;
        assert(self@ =~= old(self)@.remove(name@));
    }

    /// Removes every binding.
    pub fn clear(&mut self)
        ensures
            final(self)@ == Map::<Seq<char>, Seq<char>>::empty(),
    {
        self.entries = Vec::new();
        assert(self@ =~= Map::<Seq<char>, Seq<char>>::empty());
    }

    /// The value bound to `name`, if any.
    pub fn get(&self, name: &str) -> (r: Option<String>)
        ensures
            match r {
                Some(v) => self@.contains_key(name@) && self@[name@] == v@,
                None => !self@.contains_key(name@),
            },
    {
        match self.position(name) {
            Some(i) => {
                proof {
                    lemma_lookup_prefix(self.entries@, name@, i as int);
                    assert(self.entries@.skip(i as int)[0] == self.entries@[i as int]);
                }
                Some(self.entries[i].1.clone())
            },
            None => {
                proof {
                    lemma_lookup_none(self.entries@, name@);
                }
                None
            },
        }
    }
}

proof fn lemma_lookup_push(vars: Seq<(String, String)>, k0: String, v0: String, k: Seq<char>)
    ensures
        lookup_in(vars.push((k0, v0)), k) == match lookup_in(vars, k) {
            Some(v) => Some(v),
            None => if k == k0@ {
                Some(v0@)
            } else {
                None
            },
        },
    decreases vars.len(),
{
    let p = vars.push((k0, v0));
    if vars.len() == 0 {
        assert(p.skip(1).len() == 0);
    } else {
        assert(p[0] == vars[0]);
        assert(p.skip(1) =~= vars.skip(1).push((k0, v0)));
        lemma_lookup_push(vars.skip(1), k0, v0, k);
    }
}

proof fn lemma_lookup_same_except(a: Seq<(String, String)>, b: Seq<(String, String)>, k: Seq<char>, i: int)
    requires
        a.len() == b.len(),
        0 <= i < a.len(),
        a[i].0@ == b[i].0@,
        a[i].0@ != k,
        forall|j: int| 0 <= j < a.len() && j != i ==> a[j] == b[j],
    ensures
        lookup_in(a, k) == lookup_in(b, k),
    decreases a.len(),
{
    if i == 0 {
        assert(a.skip(1) =~= b.skip(1));
    } else {
        assert(a[0] == b[0]);
        lemma_lookup_same_except(a.skip(1), b.skip(1), k, i - 1);
    }
}

} // verus!
