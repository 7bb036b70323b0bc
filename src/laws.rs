//! Laws that hold across the operations of the pane state.

use vstd::prelude::*;

use crate::loader::{loaded_entries, readable_names, ReadOutcome};
use crate::state::{diff, texts_of, PaneId, Published, State};

verus! {

/// The diff of a slot never holds an entry of the slot it is compared
/// against, neither as a set nor in any published line.
pub proof fn lemma_diff_excludes_other(s: State, p: Published, id: PaneId)
    requires
        s.published(p),
    ensures
        diff(s.slot(id).entries@, s.slot(id.other()).entries@).disjoint(s.slot(id.other()).entries@),
        forall|i: int|
            0 <= i < p.pane(id).diff@.len() ==> !s.slot(id.other()).entries@.contains(
                #[trigger] p.pane(id).diff@[i].text@,
            ),
{
    assert(s.publishes(id, p.pane(id)));
    assert forall|i: int| 0 <= i < p.pane(id).diff@.len() implies !s.slot(id.other()).entries@.contains(
        #[trigger] p.pane(id).diff@[i].text@,
    ) by {
        let t = texts_of(p.pane(id).diff@);
        assert(t[i] == p.pane(id).diff@[i].text@);
        assert(t.to_set().contains(t[i]));
    }
}

/// Two slots with the same entries have empty diffs, as sets and as
/// published lines.
pub proof fn lemma_diff_of_same_is_empty(s: State, p: Published)
    requires
        s.published(p),
        s.left.entries@ == s.right.entries@,
    ensures
        diff(s.left.entries@, s.right.entries@) == Set::<Seq<char>>::empty(),
        p.left.diff@.len() == 0,
        p.right.diff@.len() == 0,
{
    assert(diff(s.left.entries@, s.right.entries@) =~= Set::<Seq<char>>::empty());
    assert(diff(s.right.entries@, s.left.entries@) =~= Set::<Seq<char>>::empty());
    if p.left.diff@.len() > 0 {
        assert(texts_of(p.left.diff@).to_set().contains(texts_of(p.left.diff@)[0]));
    }
    if p.right.diff@.len() > 0 {
        assert(texts_of(p.right.diff@).to_set().contains(texts_of(p.right.diff@)[0]));
    }
}

/// Reloading a slot twice from an unchanged directory gives the same slot
/// both times, and leaves the other slot as it was.
pub proof fn lemma_reload_idempotent(before: State, once: State, twice: State, id: PaneId, read: ReadOutcome)
    requires
        State::loaded(before, id, before.slot(id).origin@, read, once),
        State::loaded(once, id, once.slot(id).origin@, read, twice),
    ensures
        twice.slot(id).origin@ == once.slot(id).origin@,
        twice.slot(id).entries@ == once.slot(id).entries@,
        twice.slot(id.other()) == once.slot(id.other()),
{
}

/// Reloading a slot after its directory lost the entry `name` drops `name`
/// from that slot, and adds it to the diff of the other slot where that slot
/// still holds it.
pub proof fn lemma_reload_after_loss(before: State, after: State, id: PaneId, read: ReadOutcome, name: Seq<char>)
    requires
        State::loaded(before, id, before.slot(id).origin@, read, after),
        loaded_entries(read) == before.slot(id).entries@.remove(name),
        before.slot(id.other()).entries@.contains(name),
    ensures
        after.slot(id).entries@ == before.slot(id).entries@.remove(name),
        diff(after.slot(id.other()).entries@, after.slot(id).entries@) == diff(
            before.slot(id.other()).entries@,
            before.slot(id).entries@,
        ).insert(name),
{
    assert(id.other().other() == id);
    assert(diff(after.slot(id.other()).entries@, after.slot(id).entries@) =~= diff(
        before.slot(id.other()).entries@,
        before.slot(id).entries@,
    ).insert(name));
}

/// Each readable entry of a directory listing is loaded, whatever other
/// entries could not be read.
pub proof fn lemma_listing_keeps_readable(listing: Vec<Option<String>>, j: int)
    requires
        0 <= j < listing@.len(),
        listing@[j] is Some,
    ensures
        loaded_entries(ReadOutcome::Listing(listing)).contains(listing@[j].unwrap()@),
{
    lemma_readable_entry_kept(listing@, j);
}

proof fn lemma_readable_entry_kept(v: Seq<Option<String>>, j: int)
    requires
        0 <= j < v.len(),
        v[j] is Some,
    ensures
        readable_names(v).contains(v[j].unwrap()@),
    decreases v.len(),
{
    if j < v.len() - 1 {
        lemma_readable_entry_kept(v.drop_last(), j);
        assert(v.drop_last()[j] == v[j]);
    }
    let rest = readable_names(v.drop_last());
    if j == v.len() - 1 {
        assert(readable_names(v) == rest.push(v[j].unwrap()@));
        assert(readable_names(v)[rest.len() as int] == v[j].unwrap()@);
    } else {
        let k = choose|k: int| 0 <= k < rest.len() && rest[k] == v[j].unwrap()@;
        match v.last() {
            Some(name) => {
                assert(readable_names(v)[k] == rest[k]);
            },
            None => {},
        }
    }
}

} // verus!
