//! Accumulation of streamed tool-call argument fragments, keyed by the
//! positional index the provider addresses them with.  Entries keep their
//! insertion order, and fragments never leak across distinct indices.

use vstd::prelude::*;

verus! {

/// One tool call under construction: its id, name, and the argument JSON
/// received so far.
#[derive(Debug, PartialEq, Eq)]
pub struct JsonFragment {
    pub id: String,
    pub name: String,
    pub json: String,
}

impl JsonFragment {
    /// An empty fragment.
    pub fn empty() -> (r: JsonFragment)
        ensures
            r.id@.len() == 0,
            r.name@.len() == 0,
            r.json@.len() == 0,
    {
        JsonFragment { id: String::new(), name: String::new(), json: String::new() }
    }
}

/// Index of the entry with key `k`, or -1 when there is none.
pub open spec fn spec_find(s: Seq<(u64, JsonFragment)>, k: u64) -> int
    decreases s.len(),
{
    if s.len() == 0 {
        -1
    } else if s[0].0 == k {
        0
    } else {
        let r = spec_find(s.drop_first(), k);
        if r < 0 {
            -1
        } else {
            r + 1
        }
    }
}

proof fn lemma_find_at(s: Seq<(u64, JsonFragment)>, k: u64, i: int)
    requires
        0 <= i < s.len(),
        s[i].0 == k,
        forall|j: int| 0 <= j < i ==> s[j].0 != k,
    ensures
        spec_find(s, k) == i,
    decreases i,
{
    if i > 0 {
        lemma_find_at(s.drop_first(), k, i - 1);
    }
}

proof fn lemma_find_none(s: Seq<(u64, JsonFragment)>, k: u64)
    requires
        forall|j: int| 0 <= j < s.len() ==> s[j].0 != k,
    ensures
        spec_find(s, k) == -1,
    decreases s.len(),
{
    if s.len() > 0 {
        lemma_find_none(s.drop_first(), k);
    }
}

/// Mathematical image of a [`JsonFragment`].
pub struct FragModel {
    pub id: Seq<char>,
    pub name: Seq<char>,
    pub json: Seq<char>,
}

/// The view of one fragment.
pub open spec fn frag_view(f: JsonFragment) -> FragModel {
    FragModel { id: f.id@, name: f.name@, json: f.json@ }
}

/// The view of a whole fragment table.
pub open spec fn frags_view(s: Seq<(u64, JsonFragment)>) -> Seq<(u64, FragModel)> {
    s.map_values(|p: (u64, JsonFragment)| (p.0, frag_view(p.1)))
}

/// Index of the entry with key `k` in a fragment-table view, or -1.
pub open spec fn spec_find_m(s: Seq<(u64, FragModel)>, k: u64) -> int
    decreases s.len(),
{
    if s.len() == 0 {
        -1
    } else if s[0].0 == k {
        0
    } else {
        let r = spec_find_m(s.drop_first(), k);
        if r < 0 {
            -1
        } else {
            r + 1
        }
    }
}

/// Finding a key commutes with taking the view.
pub proof fn lemma_find_view(s: Seq<(u64, JsonFragment)>, k: u64)
    ensures
        spec_find_m(frags_view(s), k) == spec_find(s, k),
    decreases s.len(),
{
    if s.len() > 0 {
        lemma_find_view(s.drop_first(), k);
        assert(frags_view(s).drop_first() =~= frags_view(s.drop_first()));
        assert(frags_view(s)[0].0 == s[0].0);
    }
}

/// Storing a fragment, at the view level: replace in place, or append.
pub open spec fn model_set(f: Seq<(u64, FragModel)>, k: u64, v: FragModel) -> Seq<(u64, FragModel)> {
    let i = spec_find_m(f, k);
    if i >= 0 {
        f.update(i, (k, v))
    } else {
        f.push((k, v))
    }
}

/// Appending argument text, at the view level: extend in place, or create
/// an otherwise empty fragment.
pub open spec fn model_append(f: Seq<(u64, FragModel)>, k: u64, args: Seq<char>) -> Seq<
    (u64, FragModel),
> {
    let i = spec_find_m(f, k);
    if i >= 0 {
        f.update(i, (k, FragModel { id: f[i].1.id, name: f[i].1.name, json: f[i].1.json + args }))
    } else {
        f.push((k, FragModel { id: Seq::empty(), name: Seq::empty(), json: args }))
    }
}

impl JsonFragment {
    /// A field-by-field copy equal to `self`.
    pub fn duplicate(&self) -> (r: JsonFragment)
        ensures
            r == *self,
    {
        JsonFragment { id: self.id.clone(), name: self.name.clone(), json: self.json.clone() }
    }
}

/// The keyed accumulator of tool-call fragments.
#[derive(Debug)]
pub struct FragmentMap {
    entries: Vec<(u64, JsonFragment)>,
}

impl View for FragmentMap {
    type V = Seq<(u64, JsonFragment)>;

    closed spec fn view(&self) -> Seq<(u64, JsonFragment)> {
        self.entries@
    }
}

impl FragmentMap {
    /// An empty accumulator.
    pub fn new() -> (m: FragmentMap)
        ensures
            m@.len() == 0,
    {
        FragmentMap { entries: Vec::new() }
    }

    /// An accumulator holding exactly the given entries, in order.
    pub fn from_vec(entries: Vec<(u64, JsonFragment)>) -> (m: FragmentMap)
        ensures
            m@ == entries@,
    {
        FragmentMap { entries }
    }

    /// How many indices hold a fragment.
    pub fn len(&self) -> (n: usize)
        ensures
            n == self@.len(),
    {
        self.entries.len()
    }

    fn find(&self, k: u64) -> (r: Option<usize>)
        ensures
            match r {
                Some(i) => i < self@.len() && spec_find(self@, k) == i,
                None => spec_find(self@, k) == -1,
            },
    {
        let n = self.entries.len();
        let mut i: usize = 0;
        while i < n
            invariant
                i <= n,
                n == self@.len(),
                forall|j: int| 0 <= j < i ==> self@[j].0 != k,
            decreases n - i,
        {
            if self.entries[i].0 == k {
                proof {
                    lemma_find_at(self@, k, i as int);
                }
                return Some(i);
            }
            i = i + 1;
        }
        proof {
            lemma_find_none(self@, k);
        }
        None
    }

    /// Stores `v` under `k`, replacing any fragment already there.
    pub fn set(&mut self, k: u64, v: JsonFragment)
        ensures
            ({
                let i = spec_find(old(self)@, k);
                &&& i < old(self)@.len()
                &&& if i >= 0 {
                    final(self)@ == old(self)@.update(i, (k, v))
                } else {
                    i == -1 && final(self)@ == old(self)@.push((k, v))
                }
            }),
            frags_view(final(self)@) == model_set(frags_view(old(self)@), k, frag_view(v)),
    {
        let ghost gv = v;
        match self.find(k) {
            Some(i) => {
                self.entries.set(i, (k, v));
            },
            None => {
                self.entries.push((k, v));
            },
        }
        proof {
            lemma_find_view(old(self)@, k);
            let i = spec_find(old(self)@, k);
            if i >= 0 {
                assert(frags_view(self@) =~= frags_view(old(self)@).update(
                    i,
                    (k, frag_view(gv)),
                ));
            } else {
                assert(frags_view(self@) =~= frags_view(old(self)@).push((k, frag_view(gv))));
            }
        }
    }

    /// Appends argument text to the fragment under `k`, creating an empty
    /// fragment there first when none exists.
    pub fn append_json(&mut self, k: u64, arguments: &str)
        ensures
            ({
                let i = spec_find(old(self)@, k);
                &&& i < old(self)@.len()
                &&& if i >= 0 {
                    ({
                        let (k0, f0) = old(self)@[i];
                        &&& final(self)@.len() == old(self)@.len()
                        &&& forall|j: int|
                            0 <= j < old(self)@.len() && j != i ==> final(self)@[j] == old(
                                self,
                            )@[j]
                        &&& final(self)@[i].0 == k
                        &&& final(self)@[i].1.id == f0.id
                        &&& final(self)@[i].1.name == f0.name
                        &&& final(self)@[i].1.json@ == f0.json@ + arguments@
                    })
                } else {
                    ({
                        &&& final(self)@.len() == old(self)@.len() + 1
                        &&& forall|j: int|
                            0 <= j < old(self)@.len() ==> final(self)@[j] == old(self)@[j]
                        &&& final(self)@.last().0 == k
                        &&& final(self)@.last().1.id@.len() == 0
                        &&& final(self)@.last().1.name@.len() == 0
                        &&& final(self)@.last().1.json@ == arguments@
                    })
                }
            }),
            frags_view(final(self)@) == model_append(frags_view(old(self)@), k, arguments@),
    {
        match self.find(k) {
            Some(i) => {
                let mut taken = (k, JsonFragment::empty());
                core::mem::swap(&mut taken, &mut self.entries[i]);
                let (_, old_frag) = taken;
                let mut json = old_frag.json;
                json.append(arguments);
                self.entries.set(
                    i,
                    (k, JsonFragment { id: old_frag.id, name: old_frag.name, json }),
                );
            },
            None => {
                let mut json = String::new();
                json.append(arguments);
                self.entries.push((k, JsonFragment { id: String::new(), name: String::new(), json }));
            },
        }
        proof {
            lemma_find_view(old(self)@, k);
            let i = spec_find(old(self)@, k);
            if i >= 0 {
                assert(frags_view(self@) =~= frags_view(old(self)@).update(
                    i,
                    (
                        k,
                        FragModel {
                            id: frags_view(old(self)@)[i].1.id,
                            name: frags_view(old(self)@)[i].1.name,
                            json: frags_view(old(self)@)[i].1.json + arguments@,
                        },
                    ),
                ));
            } else {
                assert(frags_view(self@) =~= frags_view(old(self)@).push(
                    (
                        k,
                        FragModel {
                            id: Seq::empty(),
                            name: Seq::empty(),
                            json: arguments@,
                        },
                    ),
                ));
            }
        }
    }

    /// Removes and returns the fragment under `k`, keeping the order of
    /// the other entries.
    pub fn take(&mut self, k: u64) -> (r: Option<JsonFragment>)
        ensures
            ({
                let i = spec_find(old(self)@, k);
                &&& i < old(self)@.len()
                &&& if i >= 0 {
                    ({
                        &&& final(self)@ == old(self)@.remove(i)
                        &&& match r {
                            Some(f) => f == old(self)@[i].1,
                            None => false,
                        }
                    })
                } else {
                    final(self)@ == old(self)@ && r is None
                }
            }),
    {
        match self.find(k) {
            Some(i) => {
                let (_, frag) = self.entries.remove(i);
                Some(frag)
            },
            None => None,
        }
    }

    /// A copy of the entry at position `i`, in insertion order.
    pub fn get_at(&self, i: usize) -> (r: (u64, JsonFragment))
        requires
            i < self@.len(),
        ensures
            r.0 == self@[i as int].0,
            r.1 == self@[i as int].1,
    {
        let e = &self.entries[i];
        (e.0, e.1.duplicate())
    }

}

} // verus!
