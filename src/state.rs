//! The pane state: two slots, Left and Right, and the views of each slot
//! against the other that are published after every change.

use vstd::prelude::*;
use vstd::utf8::encode_utf8;

use crate::entries::{names_of, EntrySet};
use crate::order::{sorted_texts, sorted_unique};
use crate::loader::{load, loaded_entries, load_note, pretty_string_list, json_pretty_list, LoadNote, ReadOutcome};

verus! {

broadcast use {vstd::seq_lib::group_seq_properties, vstd::seq::Seq::lemma_push_map_commute};

/// Which of the two slots.
#[derive(Clone, Copy, Debug, PartialEq, Eq, Structural)]
pub enum PaneId {
    Left,
    Right,
}

impl PaneId {
    /// The slot that this one is compared against.
    pub open spec fn other(self) -> PaneId {
        match self {
            PaneId::Left => PaneId::Right,
            PaneId::Right => PaneId::Left,
        }
    }
}

/// One slot: the path it was last loaded from, and the entries loaded.
pub struct Slot {
    pub origin: String,
    pub entries: EntrySet,
}

impl Slot {
    /// A slot that was never loaded: no origin, no entries.
    pub fn empty() -> (r: Slot)
        ensures
            r.origin@ == Seq::<char>::empty(),
            r.entries@ == Set::<Seq<char>>::empty(),
    {
        Slot { origin: String::new(), entries: EntrySet::new() }
    }
}

/// One line of a listing as the presentation shows it.
pub struct Line {
    pub striked: bool,
    pub text: String,
}

/// The texts of a sequence of lines, in order.
pub open spec fn texts_of(lines: Seq<Line>) -> Seq<Seq<char>> {
    lines.map_values(|l: Line| l.text@)
}

/// `lines` show the set `s`: each member once, in display order, none struck.
pub open spec fn shows(lines: Seq<Line>, s: Set<Seq<char>>) -> bool {
    &&& sorted_texts(texts_of(lines))
    &&& texts_of(lines).no_duplicates()
    &&& texts_of(lines).to_set() == s
    &&& forall|i: int| 0 <= i < lines.len() ==> !(#[trigger] lines[i]).striked
}

/// The entries of a slot that the other slot lacks.
pub open spec fn diff(a: Set<Seq<char>>, b: Set<Seq<char>>) -> Set<Seq<char>> {
    a.difference(b)
}

/// What is published for one slot.
pub struct PaneView {
    /// The origin path, as display text.
    pub title: String,
    /// All entries of the slot.
    pub lines: Vec<Line>,
    /// The entries of the slot that the other slot lacks.
    pub diff: Vec<Line>,
}

/// What is published for both slots.
pub struct Published {
    pub left: PaneView,
    pub right: PaneView,
}

impl Published {
    /// The view published for slot `id`.
    pub open spec fn pane(self, id: PaneId) -> PaneView {
        match id {
            PaneId::Left => self.left,
            PaneId::Right => self.right,
        }
    }
}

/// The two slots.
pub struct State {
    pub right: Slot,
    pub left: Slot,
}

impl State {
    /// Slot `id`.
    pub open spec fn slot(self, id: PaneId) -> Slot {
        match id {
            PaneId::Left => self.left,
            PaneId::Right => self.right,
        }
    }

    /// `view` is what is published for slot `id` of this state: its origin
    /// as the title, its entries, and its entries that the other slot lacks.
    pub open spec fn publishes(self, id: PaneId, view: PaneView) -> bool {
        &&& view.title@ == self.slot(id).origin@
        &&& shows(view.lines@, self.slot(id).entries@)
        &&& shows(view.diff@, diff(self.slot(id).entries@, self.slot(id.other()).entries@))
    }

    /// `p` is what is published for both slots of this state.
    pub open spec fn published(self, p: Published) -> bool {
        &&& self.publishes(PaneId::Left, p.left)
        &&& self.publishes(PaneId::Right, p.right)
    }

    /// `after` is `before` with slot `id` loaded from `path`, as `read` gave
    /// it, and the other slot untouched.
    pub open spec fn loaded(before: State, id: PaneId, path: Seq<char>, read: ReadOutcome, after: State) -> bool {
        &&& after.slot(id).origin@ == path
        &&& after.slot(id).entries@ == loaded_entries(read)
        &&& after.slot(id.other()) == before.slot(id.other())
    }

    /// Two empty slots.
    pub fn new() -> (r: State)
        ensures
            r.left.origin@ == Seq::<char>::empty(),
            r.left.entries@ == Set::<Seq<char>>::empty(),
            r.right.origin@ == Seq::<char>::empty(),
            r.right.entries@ == Set::<Seq<char>>::empty(),
    {
        State { right: Slot::empty(), left: Slot::empty() }
    }

    /// Slot `id`.
    pub fn get_set(&self, id: PaneId) -> (r: &Slot)
        ensures
            *r == self.slot(id),
    {
        match id {
            PaneId::Left => &self.left,
            PaneId::Right => &self.right,
        }
    }

    /// The slot that slot `id` is compared against.
    pub fn complement_id(id: PaneId) -> (r: PaneId)
        ensures
            r == id.other(),
    {
        match id {
            PaneId::Left => PaneId::Right,
            PaneId::Right => PaneId::Left,
        }
    }

    /// Replaces slot `id` wholesale, leaving the other one as it was.
    pub fn replace(&mut self, id: PaneId, slot: Slot)
        ensures
            final(self).slot(id) == slot,
            final(self).slot(id.other()) == old(self).slot(id.other()),
    {
        match id {
            PaneId::Left => {
                self.left = slot;
            },
            PaneId::Right => {
                self.right = slot;
            },
        }
    }

    /// Loads slot `id` from `path`, as reading it gave `read`.
    /// Importing the UTF-8 of what Export writes for a list of names gives
    /// back the set of those names.
    pub fn read_path(&mut self, id: PaneId, path: String, read: ReadOutcome) -> (r: LoadNote)
        ensures
            State::loaded(*old(self), id, path@, read, *final(self)),
            r == load_note(read),
            forall|names: Seq<Seq<char>>|
                read matches ReadOutcome::File(bytes) && bytes@ == #[trigger] encode_utf8(json_pretty_list(names))
                    ==> final(self).slot(id).entries@ == names.to_set(),
    {
        let (origin, entries, note) = load(path, read);
        self.replace(id, Slot { origin, entries });
        note
    }

    /// The lines that show `set`, in display order, none struck.
    pub fn lines(set: &EntrySet) -> (r: Vec<Line>)
        ensures
            shows(r@, set@),
    {
        let names = sorted_unique(&set.to_vec());
        let mut out: Vec<Line> = Vec::new();
        let mut i: usize = 0;
        while i < names.len()
            invariant
                0 <= i <= names.len(),
                texts_of(out@) == names_of(names@.subrange(0, i as int)),
                forall|k: int| 0 <= k < out.len() ==> !(#[trigger] out@[k]).striked,
            decreases names.len() - i,
        {
            let line = Line { striked: false, text: names[i].clone() };
            out.push(line);
            assert(names@.subrange(0, i + 1) =~= names@.subrange(0, i as int).push(names@[i as int]));
            assert(texts_of(out@) =~= names_of(names@.subrange(0, i + 1)));
            i += 1;
        }
        assert(names@.subrange(0, names.len() as int) =~= names@);
        out
    }

    /// The lines that show the entries of `a` that `b` lacks.
    pub fn diff(a: &EntrySet, b: &EntrySet) -> (r: Vec<Line>)
        ensures
            shows(r@, diff(a@, b@)),
    {
        Self::lines(&a.difference(b))
    }

    /// The view of slot `id`.
    fn pane_view(&self, id: PaneId) -> (r: PaneView)
        ensures
            self.publishes(id, r),
    {
        let slot = self.get_set(id);
        let other = self.get_set(Self::complement_id(id));
        PaneView {
            title: slot.origin.clone(),
            lines: Self::lines(&slot.entries),
            diff: Self::diff(&slot.entries, &other.entries),
        }
    }

    /// What is published for both slots.
    pub fn update(&self) -> (r: Published)
        ensures
            self.published(r),
    {
        Published { left: self.pane_view(PaneId::Left), right: self.pane_view(PaneId::Right) }
    }

    /// Finishes Open or Import of slot `id` once the dialog has closed.
    /// `picked` is `None` where the user cancelled: then nothing changes and
    /// nothing is published. Else it holds the chosen path and what reading
    /// it gave: slot `id` is loaded from it, and both slots are published.
    pub fn open_picked(&mut self, id: PaneId, picked: Option<(String, ReadOutcome)>) -> (r: Option<(Published, LoadNote)>)
        ensures
            picked is None ==> r is None && *final(self) == *old(self),
            picked matches Some((path, read)) ==> {
                &&& r matches Some((p, note))
                &&& State::loaded(*old(self), id, path@, read, *final(self))
                &&& final(self).published(p)
                &&& note == load_note(read)
            },
    {
        match picked {
            None => None,
            Some((path, read)) => {
                let note = self.read_path(id, path, read);
                Some((self.update(), note))
            },
        }
    }

    /// Reloads slot `id` from its own origin, as reading it again gave
    /// `read`, and publishes both slots.
    pub fn reload(&mut self, id: PaneId, read: ReadOutcome) -> (r: (Published, LoadNote))
        ensures
            State::loaded(*old(self), id, old(self).slot(id).origin@, read, *final(self)),
            final(self).published(r.0),
            r.1 == load_note(read),
    {
        let path = self.get_set(id).origin.clone();
        let note = self.read_path(id, path, read);
        (self.update(), note)
    }

    /// The text that Export of slot `id` writes: its entries, each once, as
    /// an indented JSON array of strings. No slot changes.
    pub fn export_text(&self, id: PaneId) -> (r: String)
        ensures
            exists|names: Seq<Seq<char>>| {
                &&& names.no_duplicates()
                &&& names.to_set() == self.slot(id).entries@
                &&& r@ == #[trigger] json_pretty_list(names)
            },
    {
        let names = self.get_set(id).entries.to_vec();
        match pretty_string_list(&names) {
            Some(text) => text,
            None => String::new(),
        }
    }
}

impl Default for State {
    /// Two empty slots.
    fn default() -> (r: State)
        ensures
            r.left.origin@ == Seq::<char>::empty(),
            r.left.entries@ == Set::<Seq<char>>::empty(),
            r.right.origin@ == Seq::<char>::empty(),
            r.right.entries@ == Set::<Seq<char>>::empty(),
    {
        State::new()
    }
}

} // verus!
