//! The parameter store: an in-memory mapping from parameter name to string
//! value, seeded once with five fixed entries and mutated only by user
//! edits. `set` overwrites unconditionally and always succeeds; entries are
//! never removed.

use vstd::prelude::*;
use vstd::string::*;
use crate::kv::{map_of, keys_unique, lemma_map_of_domain, lemma_map_of_index, lemma_map_of_push,
    lemma_map_of_update};

verus! {

/// A mapping from parameter name to the text the user typed for it.
pub struct ParamStore {
    entries: Vec<(String, String)>,
}

impl View for ParamStore {
    type V = Map<Seq<char>, Seq<char>>;

    closed spec fn view(&self) -> Map<Seq<char>, Seq<char>> {
        map_of(self.kv())
    }
}

impl ParamStore {
    /// The key/value pairs the store holds, as sequences of characters.
    pub closed spec fn kv(self) -> Seq<(Seq<char>, Seq<char>)> {
        self.entries@.map_values(|p: (String, String)| (p.0@, p.1@))
    }

    /// Well-formed: no parameter name occurs twice.
    pub closed spec fn wf(self) -> bool {
        keys_unique(self.kv())
    }

    /// A store with no parameters.
    pub fn empty() -> (r: ParamStore)
        ensures
            r.wf(),
            r@ == Map::<Seq<char>, Seq<char>>::empty(),
    {
        ParamStore { entries: Vec::new() }
    }

    /// Stores `value` under `name`, overwriting any previous value.
    /// Unconditional: it always succeeds.
    pub fn set(&mut self, name: String, value: String)
        requires
            old(self).wf(),
        ensures
            final(self).wf(),
            final(self)@ == old(self)@.insert(name@, value@),
    {
        let ghost kv0 = self.kv();
        let n = self.entries.len();
        let mut i: usize = 0;
        while i < n
            invariant
                n == self.entries@.len(),
                i <= n,
                self == old(self),
                self.wf(),
                kv0 == self.kv(),
                forall|j: int| 0 <= j < i ==> #[trigger] old(self).kv()[j].0 != name@,
            decreases n - i,
        {
            proof {
                assert(kv0.len() == self.entries@.len());
                assert(kv0[i as int] == (self.entries@[i as int].0@, self.entries@[i as int].1@));
            }
            if self.entries[i].0 == name {
                proof {
                    assert(kv0[i as int].0 == name@);
                    lemma_map_of_update(kv0, i as int, value@);
                }
                self.entries[i].1 = value;
                proof {
                    assert(self.kv() =~= kv0.update(i as int, (name@, value@)));
                    assert(self.kv() == kv0.update(i as int, (kv0[i as int].0, value@)));
                    assert forall|a: int, b: int| 0 <= a < b < self.kv().len() implies (self.kv()[
                        a
                    ].0 != self.kv()[b].0) by {
                        assert(self.kv()[a].0 == kv0[a].0);
                        assert(self.kv()[b].0 == kv0[b].0);
                    }
                }
                return ;
            }
            proof {
                assert(kv0[i as int].0 != name@);
            }
            i += 1;
        }
        proof {
            lemma_map_of_push(kv0, name@, value@);
        }
        self.entries.push((name, value));
        proof {
            assert(self.kv() =~= kv0.push((name@, value@)));
            assert forall|a: int, b: int| 0 <= a < b < self.kv().len() implies self.kv()[a].0
                != self.kv()[b].0 by {
                if b < kv0.len() {
                    assert(self.kv()[a] == kv0[a]);
                    assert(self.kv()[b] == kv0[b]);
                } else {
                    assert(self.kv()[a] == kv0[a]);
                    assert(self.kv()[b].0 == name@);
                }
            }
        }
    }

    /// Looks a parameter up by name; `None` exactly when the name was never
    /// stored.
    pub fn get<'a>(&'a self, name: &String) -> (r: Option<&'a String>)
        requires
            self.wf(),
        ensures
            match r {
                Some(v) => self@.contains_key(name@) && v@ == self@[name@],
                None => !self@.contains_key(name@),
            },
    {
        let n = self.entries.len();
        let mut i: usize = 0;
        while i < n
            invariant
                n == self.entries@.len(),
                i <= n,
                self.wf(),
                forall|j: int| 0 <= j < i ==> #[trigger] self.kv()[j].0 != name@,
            decreases n - i,
        {
            proof {
                assert(self.kv().len() == self.entries@.len());
                assert(self.kv()[i as int] == (
                    self.entries@[i as int].0@,
                    self.entries@[i as int].1@,
                ));
            }
            if self.entries[i].0 == *name {
                proof {
                    assert(self.kv()[i as int].0 == name@);
                    lemma_map_of_index(self.kv(), i as int);
                }
                return Some(&self.entries[i].1);
            }
            proof {
                assert(self.kv()[i as int].0 != name@);
            }
            i += 1;
        }
        proof {
            lemma_map_of_domain(self.kv(), name@);
        }
        None
    }
}

} // verus!
