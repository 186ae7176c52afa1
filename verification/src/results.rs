//! The operating-point result set: a mapping from quantity name to scalar
//! value, produced wholesale by each simulation call. Lookups for missing
//! names fall back to zero rather than failing, since the display must
//! always render.

use vstd::prelude::*;
use vstd::string::*;
use crate::kv::{map_of, keys_unique, lemma_map_of_domain, lemma_map_of_index, lemma_map_of_push,
    lemma_map_of_update};
use crate::scalar::Scalar;

verus! {

/// One entry of the engine's raw operating-point response: a vector of
/// real samples, or a value in some representation that is not real-valued.
pub enum RawEntry {
    Real(Vec<Scalar>),
    NotReal,
}

/// The scalar an entry projects to: the first real sample, and zero for an
/// empty vector or a representation that is not real-valued.
pub open spec fn spec_project(e: RawEntry) -> Scalar {
    match e {
        RawEntry::Real(v) => if v@.len() > 0 {
            v@[0]
        } else {
            (Scalar { micro: 0 })
        },
        RawEntry::NotReal => (Scalar { micro: 0 }),
    }
}

/// Projects one raw response entry to its real component.
pub fn project(e: &RawEntry) -> (r: Scalar)
    ensures
        r == spec_project(*e),
{
    match e {
        RawEntry::Real(v) => {
            if v.len() > 0 {
                v[0]
            } else {
                Scalar::zero()
            }
        },
        RawEntry::NotReal => Scalar::zero(),
    }
}

/// The raw response as key/value pairs, each entry projected to its real
/// component.
pub open spec fn projected(raw: Seq<(String, RawEntry)>) -> Seq<(Seq<char>, Scalar)> {
    raw.map_values(|p: (String, RawEntry)| (p.0@, spec_project(p.1)))
}

/// A mapping from result-quantity name to its scalar value.
pub struct ResultSet {
    entries: Vec<(String, Scalar)>,
}

impl View for ResultSet {
    type V = Map<Seq<char>, Scalar>;

    closed spec fn view(&self) -> Map<Seq<char>, Scalar> {
        map_of(self.kv())
    }
}

impl ResultSet {
    /// The key/value pairs the set holds, the keys as character sequences.
    pub closed spec fn kv(self) -> Seq<(Seq<char>, Scalar)> {
        self.entries@.map_values(|p: (String, Scalar)| (p.0@, p.1))
    }

    /// Well-formed: no quantity name occurs twice.
    pub closed spec fn wf(self) -> bool {
        keys_unique(self.kv())
    }

    /// A result set with no entries.
    pub fn empty() -> (r: ResultSet)
        ensures
            r.wf(),
            r@ == Map::<Seq<char>, Scalar>::empty(),
    {
        ResultSet { entries: Vec::new() }
    }

    /// Stores `value` under `name`, overwriting any previous value.
    pub fn set(&mut self, name: String, value: Scalar)
        requires
            old(self).wf(),
        ensures
            final(self).wf(),
            final(self)@ == old(self)@.insert(name@, value),
    {
        let ghost kv0 = self.kv();
        let n = self.entries.len();
        let mut i: usize = 0;
        while i < n
            invariant
                n == self.entries@.len(),
                i <= n,
                self == old(self),
                self.wf(),
                kv0 == self.kv(),
                forall|j: int| 0 <= j < i ==> #[trigger] self.kv()[j].0 != name@,
            decreases n - i,
        {
            proof {
                assert(kv0.len() == self.entries@.len());
                assert(kv0[i as int] == (self.entries@[i as int].0@, self.entries@[i as int].1));
            }
            if self.entries[i].0 == name {
                proof {
                    assert(kv0[i as int].0 == name@);
                    lemma_map_of_update(kv0, i as int, value);
                }
                self.entries[i].1 = value;
                proof {
                    assert(self.kv() =~= kv0.update(i as int, (name@, value)));
                    assert(self.kv() == kv0.update(i as int, (kv0[i as int].0, value)));
                    assert forall|a: int, b: int| 0 <= a < b < self.kv().len() implies (self.kv()[
                        a
                    ].0 != self.kv()[b].0) by {
                        assert(self.kv()[a].0 == kv0[a].0);
                        assert(self.kv()[b].0 == kv0[b].0);
                    }
                }
                return ;
            }
            i += 1;
        }
        proof {
            lemma_map_of_push(kv0, name@, value);
        }
        self.entries.push((name, value));
        proof {
            assert(self.kv() =~= kv0.push((name@, value)));
            assert forall|a: int, b: int| 0 <= a < b < self.kv().len() implies (self.kv()[a].0
                != self.kv()[b].0) by {
                if b < kv0.len() {
                    assert(self.kv()[a] == kv0[a]);
                    assert(self.kv()[b] == kv0[b]);
                } else {
                    assert(self.kv()[a] == kv0[a]);
                    assert(self.kv()[b].0 == name@);
                }
            }
        }
    }

    /// Looks a quantity up by name; a name that was never stored yields the
    /// zero scalar, so a consumer always has a value to display.
    pub fn get(&self, name: &String) -> (r: Scalar)
        requires
            self.wf(),
        ensures
            self@.contains_key(name@) ==> r == self@[name@],
            !self@.contains_key(name@) ==> r.micro == 0,
    {
        let n = self.entries.len();
        let mut i: usize = 0;
        while i < n
            invariant
                n == self.entries@.len(),
                i <= n,
                self.wf(),
                forall|j: int| 0 <= j < i ==> #[trigger] self.kv()[j].0 != name@,
            decreases n - i,
        {
            proof {
                assert(self.kv().len() == self.entries@.len());
                assert(self.kv()[i as int] == (
                    self.entries@[i as int].0@,
                    self.entries@[i as int].1,
                ));
            }
            if self.entries[i].0 == *name {
                proof {
                    assert(self.kv()[i as int].0 == name@);
                    lemma_map_of_index(self.kv(), i as int);
                }
                return self.entries[i].1;
            }
            i += 1;
        }
        proof {
            lemma_map_of_domain(self.kv(), name@);
        }
        Scalar::zero()
    }

    /// Whether a quantity of this name is present.
    pub fn contains(&self, name: &String) -> (r: bool)
        requires
            self.wf(),
        ensures
            r == self@.contains_key(name@),
    {
        let n = self.entries.len();
        let mut i: usize = 0;
        while i < n
            invariant
                n == self.entries@.len(),
                i <= n,
                self.wf(),
                forall|j: int| 0 <= j < i ==> #[trigger] self.kv()[j].0 != name@,
            decreases n - i,
        {
            proof {
                assert(self.kv().len() == self.entries@.len());
                assert(self.kv()[i as int] == (
                    self.entries@[i as int].0@,
                    self.entries@[i as int].1,
                ));
            }
            if self.entries[i].0 == *name {
                proof {
                    assert(self.kv()[i as int].0 == name@);
                    lemma_map_of_index(self.kv(), i as int);
                }
                return true;
            }
            i += 1;
        }
        proof {
            lemma_map_of_domain(self.kv(), name@);
        }
        false
    }

    /// Builds the result set a raw engine response denotes: every entry
    /// projected to its real component, a later entry of the same name
    /// overriding an earlier one.
    pub fn from_raw(raw: &Vec<(String, RawEntry)>) -> (r: ResultSet)
        ensures
            r.wf(),
            r@ == map_of(projected(raw@)),
    {
        let mut rs = ResultSet::empty();
        let n = raw.len();
        let mut i: usize = 0;
        while i < n
            invariant
                n == raw@.len(),
                i <= n,
                rs.wf(),
                rs@ == map_of(projected(raw@.take(i as int))),
            decreases n - i,
        {
            let name = raw[i].0.clone();
            let value = project(&raw[i].1);
            proof {
                let t0 = projected(raw@.take(i as int));
                lemma_map_of_push(t0, name@, value);
                assert(projected(raw@.take(i as int + 1)) =~= t0.push((name@, value)));
            }
            rs.set(name, value);
            i += 1;
        }
        proof {
            assert(raw@.take(n as int) =~= raw@);
        }
        rs
    }
}

} // verus!
