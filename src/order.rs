//! The display order of entry names: code point by code point, a proper
//! prefix first (the order of `str`'s comparison).

use vstd::prelude::*;
use vstd::string::StrSliceExecFns;

use crate::entries::names_of;

verus! {

broadcast use vstd::seq_lib::group_seq_properties;

/// `a` comes strictly before `b`.
pub open spec fn text_lt(a: Seq<char>, b: Seq<char>) -> bool
    decreases a.len(),
{
    if b.len() == 0 {
        false
    } else if a.len() == 0 {
        true
    } else if a[0] != b[0] {
        (a[0] as int) < (b[0] as int)
    } else {
        text_lt(a.drop_first(), b.drop_first())
    }
}

/// Each text of `s` comes strictly before every later one.
pub open spec fn sorted_texts(s: Seq<Seq<char>>) -> bool {
    forall|i: int, j: int| 0 <= i < j < s.len() ==> text_lt(#[trigger] s[i], #[trigger] s[j])
}

proof fn lemma_lt_irreflexive(a: Seq<char>)
    ensures
        !text_lt(a, a),
    decreases a.len(),
{
    if a.len() > 0 {
        lemma_lt_irreflexive(a.drop_first());
    }
}

proof fn lemma_lt_transitive(a: Seq<char>, b: Seq<char>, c: Seq<char>)
    requires
        text_lt(a, b),
        text_lt(b, c),
    ensures
        text_lt(a, c),
    decreases a.len(),
{
    if a.len() > 0 && a[0] == b[0] && b[0] == c[0] {
        lemma_lt_transitive(a.drop_first(), b.drop_first(), c.drop_first());
    }
}

proof fn lemma_lt_total(a: Seq<char>, b: Seq<char>)
    requires
        a != b,
    ensures
        text_lt(a, b) || text_lt(b, a),
    decreases a.len(),
{
    if a.len() > 0 && b.len() > 0 && a[0] == b[0] {
        assert(a =~= seq![a[0]] + a.drop_first());
        assert(b =~= seq![b[0]] + b.drop_first());
        lemma_lt_total(a.drop_first(), b.drop_first());
    } else if a.len() == 0 && b.len() == 0 {
        assert(a =~= b);
    } else if a.len() > 0 && b.len() > 0 {
        assert((a[0] as int) != (b[0] as int));
    }
}

/// The characters of `s`.
fn chars_of(s: &String) -> (r: Vec<char>)
    ensures
        r@ == s@,
{
    let t = s.as_str();
    let n = t.unicode_len();
    let mut out: Vec<char> = Vec::new();
    let mut i: usize = 0;
    while i < n
        invariant
            0 <= i <= n,
            n == t@.len(),
            t@ == s@,
            out@ == s@.subrange(0, i as int),
        decreases n - i,
    {
        out.push(t.get_char(i));
        i += 1;
    }
    assert(out@ =~= s@);
    out
}

/// Whether `a` comes strictly before `b`.
fn less(a: &Vec<char>, b: &Vec<char>) -> (r: bool)
    ensures
        r == text_lt(a@, b@),
{
    let mut i: usize = 0;
    while i < a.len() && i < b.len() && a[i] == b[i]
        invariant
            0 <= i <= a.len(),
            i <= b.len(),
            text_lt(a@, b@) == text_lt(a@.skip(i as int), b@.skip(i as int)),
        decreases a.len() - i,
    {
        assert(a@.skip(i as int).drop_first() =~= a@.skip(i + 1));
        assert(b@.skip(i as int).drop_first() =~= b@.skip(i + 1));
        i += 1;
    }
    assert(i < a.len() ==> a@.skip(i as int)[0] == a@[i as int]);
    assert(i < b.len() ==> b@.skip(i as int)[0] == b@[i as int]);
    if i == b.len() {
        false
    } else if i == a.len() {
        true
    } else {
        a[i] < b[i]
    }
}

proof fn lemma_insert_to_set<A>(s: Seq<A>, i: int, x: A)
    requires
        0 <= i <= s.len(),
    ensures
        s.insert(i, x).to_set() == s.to_set().insert(x),
{
    let t = s.insert(i, x);
    assert forall|y: A| t.contains(y) <==> s.contains(y) || y == x by {
        if t.contains(y) {
            let k = choose|k: int| 0 <= k < t.len() && t[k] == y;
            if k < i {
                assert(s[k] == y);
            } else if k > i {
                assert(s[k - 1] == y);
            }
        }
        if s.contains(y) {
            let k = choose|k: int| 0 <= k < s.len() && s[k] == y;
            if k < i {
                assert(t[k] == y);
            } else {
                assert(t[k + 1] == y);
            }
        }
        if y == x {
            assert(t[i] == y);
        }
    }
    assert(t.to_set() =~= s.to_set().insert(x));
}

/// The texts of `names`, each once, in order.
pub fn sorted_unique(names: &Vec<String>) -> (r: Vec<String>)
    ensures
        sorted_texts(names_of(r@)),
        names_of(r@).no_duplicates(),
        names_of(r@).to_set() == names_of(names@).to_set(),
{
    let mut out: Vec<String> = Vec::new();
    let mut keys: Vec<Vec<char>> = Vec::new();
    let mut i: usize = 0;
    while i < names.len()
        invariant
            0 <= i <= names.len(),
            keys.len() == out.len(),
            forall|k: int| 0 <= k < keys.len() ==> (#[trigger] keys@[k])@ == out@[k]@,
            sorted_texts(names_of(out@)),
            names_of(out@).to_set() == names_of(names@.subrange(0, i as int)).to_set(),
        decreases names.len() - i,
    {
        let key = chars_of(&names[i]);
        let mut idx: usize = 0;
        let mut stop = false;
        while !stop && idx < keys.len()
            invariant
                0 <= idx <= keys.len(),
                keys.len() == out.len(),
                key@ == names@[i as int]@,
                forall|k: int| 0 <= k < keys.len() ==> (#[trigger] keys@[k])@ == out@[k]@,
                forall|k: int| 0 <= k < idx ==> text_lt(#[trigger] out@[k]@, key@),
                stop ==> idx < keys.len() && !text_lt(out@[idx as int]@, key@),
            decreases keys.len() - idx + if stop { 0int } else { 1int },
        {
            if less(&keys[idx], &key) {
                idx += 1;
            } else {
                stop = true;
            }
        }
        let ghost before = names_of(out@);
        let ghost x = names@[i as int]@;
        assert(names@.subrange(0, i + 1) =~= names@.subrange(0, i as int).push(names@[i as int]));
        assert(names_of(names@.subrange(0, i + 1)) =~= names_of(names@.subrange(0, i as int)).push(x));
        if stop && out[idx] == names[i] {
            assert(before[idx as int] == x);
            assert(names_of(names@.subrange(0, i + 1)).to_set() =~= before.to_set());
        } else {
            proof {
                if stop {
                    lemma_lt_total(x, before[idx as int]);
                }
            }
            out.insert(idx, names[i].clone());
            keys.insert(idx, key);
            proof {
                let after = names_of(out@);
                assert(after =~= before.insert(idx as int, x));
                lemma_insert_to_set(before, idx as int, x);
                assert forall|a: int, b: int| 0 <= a < b < after.len() implies text_lt(#[trigger] after[a], #[trigger] after[b]) by {
                    if b == idx {
                        assert(after[a] == before[a]);
                    } else if a == idx {
                        assert(after[b] == before[b - 1]);
                        if b - 1 > idx {
                            lemma_lt_transitive(x, before[idx as int], before[b - 1]);
                        }
                    } else if b < idx {
                        assert(after[a] == before[a] && after[b] == before[b]);
                    } else if a < idx {
                        assert(after[a] == before[a] && after[b] == before[b - 1]);
                    } else {
                        assert(after[a] == before[a - 1] && after[b] == before[b - 1]);
                    }
                }
            }
        }
        i += 1;
    }
    assert(names@.subrange(0, names.len() as int) =~= names@);
    proof {
        assert forall|a: int, b: int| 0 <= a < b < names_of(out@).len() implies names_of(out@)[a] != names_of(out@)[b] by {
            lemma_lt_irreflexive(names_of(out@)[a]);
        }
    }
    out
}

} // verus!
