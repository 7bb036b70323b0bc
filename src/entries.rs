//! Entry sets: unordered collections of distinct entry names.

use vstd::prelude::*;

verus! {

broadcast use {
    vstd::seq_lib::group_seq_properties,
    vstd::seq::Seq::lemma_push_map_commute,
    vstd::seq::Seq::lemma_push_to_set_commute,
};

/// The texts of a sequence of strings, in order.
pub open spec fn names_of(v: Seq<String>) -> Seq<Seq<char>> {
    v.map_values(|s: String| s@)
}

/// Whether `v` holds a string with the text `name`.
fn vec_contains(v: &Vec<String>, name: &String) -> (r: bool)
    ensures
        r == names_of(v@).contains(name@),
{
    let mut i: usize = 0;
    while i < v.len()
        invariant
            0 <= i <= v.len(),
            forall|k: int| 0 <= k < i ==> v@[k]@ != name@,
        decreases v.len() - i,
    {
        if v[i] == *name {
            assert(names_of(v@)[i as int] == name@);
            return true;
        }
        i += 1;
    }
    assert(!names_of(v@).contains(name@)) by {
        if names_of(v@).contains(name@) {
            let k = choose|k: int| 0 <= k < names_of(v@).len() && names_of(v@)[k] == name@;
            assert(v@[k]@ == name@);
        }
    }
    false
}

/// An unordered collection of distinct entry names.
pub struct EntrySet {
    names: Vec<String>,
}

impl View for EntrySet {
    type V = Set<Seq<char>>;

    closed spec fn view(&self) -> Set<Seq<char>> {
        names_of(self.names@).to_set()
    }
}

impl EntrySet {
    #[verifier::type_invariant]
    spec fn distinct(&self) -> bool {
        names_of(self.names@).no_duplicates()
    }

    /// The set with no entry.
    pub fn new() -> (r: EntrySet)
        ensures
            r@ == Set::<Seq<char>>::empty(),
    {
        let r = EntrySet { names: Vec::new() };
        assert(r@ =~= Set::<Seq<char>>::empty());
        r
    }

    /// The set of the texts in `names`; repeated texts collapse into one entry.
    pub fn from_names(names: Vec<String>) -> (r: EntrySet)
        ensures
            r@ == names_of(names@).to_set(),
    {
        let mut out: Vec<String> = Vec::new();
        let mut i: usize = 0;
        while i < names.len()
            invariant
                0 <= i <= names.len(),
                names_of(out@).no_duplicates(),
                names_of(out@).to_set() =~= names_of(names@.subrange(0, i as int)).to_set(),
            decreases names.len() - i,
        {
            let name = names[i].clone();
            assert(names@.subrange(0, i + 1) =~= names@.subrange(0, i as int).push(names@[i as int]));
            if !vec_contains(&out, &name) {
                out.push(name);
            }
            i += 1;
        }
        assert(names@.subrange(0, names.len() as int) =~= names@);
        EntrySet { names: out }
    }

    /// Whether the set holds `name`.
    pub fn contains(&self, name: &String) -> (r: bool)
        ensures
            r == self@.contains(name@),
    {
        vec_contains(&self.names, name)
    }

    /// The number of entries.
    pub fn len(&self) -> (r: usize)
        ensures
            r == self@.len(),
    {
        proof {
            use_type_invariant(self);
            names_of(self.names@).unique_seq_to_set();
        }
        self.names.len()
    }

    /// The entries, each once, in no particular order.
    pub fn to_vec(&self) -> (r: Vec<String>)
        ensures
            names_of(r@).no_duplicates(),
            names_of(r@).to_set() == self@,
    {
        proof {
            use_type_invariant(self);
        }
        self.names.clone()
    }

    /// The entries of `self` that `other` does not hold.
    pub fn difference(&self, other: &EntrySet) -> (r: EntrySet)
        ensures
            r@ == self@.difference(other@),
    {
        proof {
            use_type_invariant(self);
        }
        let mut out: Vec<String> = Vec::new();
        let mut i: usize = 0;
        while i < self.names.len()
            invariant
                0 <= i <= self.names.len(),
                names_of(self.names@).no_duplicates(),
                names_of(out@).no_duplicates(),
                names_of(out@).to_set() =~= names_of(self.names@.subrange(0, i as int)).to_set().difference(other@),
            decreases self.names.len() - i,
        {
            let name = self.names[i].clone();
            assert(self.names@.subrange(0, i + 1) =~= self.names@.subrange(0, i as int).push(self.names@[i as int]));
            if !other.contains(&name) {
                assert(!names_of(out@).contains(name@)) by {
                    if names_of(out@).contains(name@) {
                        assert(names_of(out@).to_set().contains(name@));
                        let j = choose|j: int| 0 <= j < i && names_of(self.names@.subrange(0, i as int))[j] == name@;
                        assert(names_of(self.names@)[j] == names_of(self.names@)[i as int]);
                    }
                }
                out.push(name);
            }
            i += 1;
        }
        assert(self.names@.subrange(0, self.names.len() as int) =~= self.names@);
        EntrySet { names: out }
    }
}

} // verus!
