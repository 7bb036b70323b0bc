//! The two optional initial paths given on the command line.

use vstd::prelude::*;

use crate::state::PaneId;

verus! {

/// The initial paths: one for the left slot, one for the right, each optional.
pub struct Cli {
    /// First directory or exported file.
    pub left: Option<String>,
    /// Second directory or exported file.
    pub right: Option<String>,
}

/// The seed of one slot, if its path is given.
pub open spec fn seed(id: PaneId, path: Option<String>) -> Seq<(PaneId, Seq<char>)> {
    match path {
        Some(p) => seq![(id, p@)],
        None => Seq::empty(),
    }
}

impl Cli {
    /// The given paths, each with the slot it seeds: left first, then right.
    pub fn panes(&self) -> (r: Vec<(PaneId, String)>)
        ensures
            r@.map_values(|e: (PaneId, String)| (e.0, e.1@)) == seed(PaneId::Left, self.left) + seed(PaneId::Right, self.right),
    {
        let mut out: Vec<(PaneId, String)> = Vec::new();
        if let Some(p) = &self.left {
            out.push((PaneId::Left, p.clone()));
        }
        if let Some(p) = &self.right {
            out.push((PaneId::Right, p.clone()));
        }
        assert(out@.map_values(|e: (PaneId, String)| (e.0, e.1@)) =~= seed(PaneId::Left, self.left) + seed(PaneId::Right, self.right));
        out
    }
}

} // verus!
