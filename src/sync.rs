//! Keeping the right pane's selection on the top-level ancestor of the row
//! selected in the left pane.
use vstd::prelude::*;
use crate::path::TreePath;

verus! {

/// The path that the right pane should select when the left pane's
/// selection is `selected`: the top-level ancestor of a selected row, and
/// nothing when no row (or only the empty path) is selected.
pub open spec fn sync_target_spec(selected: Option<Seq<usize>>) -> Option<Seq<usize>> {
    match selected {
        Some(p) => if p.len() >= 1 { Some(seq![p[0]]) } else { None },
        None => None,
    }
}

/// The view of an optional path.
pub open spec fn opt_view(p: Option<TreePath>) -> Option<Seq<usize>> {
    match p {
        Some(q) => Some(q@),
        None => None,
    }
}

/// Maps the left pane's selection to the path to select in the right pane.
pub fn sync_target(selected: Option<TreePath>) -> (r: Option<TreePath>)
    ensures
        opt_view(r) == sync_target_spec(opt_view(selected)),
{
    match selected {
        Some(mut p) => {
            if p.depth() >= 1 {
                p.ascend_to_top();
                Some(p)
            } else {
                None
            }
        },
        None => None,
    }
}

/// The selection of a flat list: at most one selected row, given by a path
/// of depth one.
#[derive(Debug)]
pub struct ListSelection {
    pub rows: usize,
    pub selected: Option<TreePath>,
}

/// A path names a row of a flat list of `rows` rows.
pub open spec fn names_list_row(p: Seq<usize>, rows: nat) -> bool {
    p.len() == 1 && p[0] < rows
}

impl ListSelection {
    /// The selection is empty or names a row of the list.
    pub open spec fn wf(&self) -> bool {
        match self.selected {
            Some(p) => names_list_row(p@, self.rows as nat),
            None => true,
        }
    }

    /// An empty selection on a list of `rows` rows.
    pub fn new(rows: usize) -> (r: ListSelection)
        ensures
            r.wf(),
            r.rows == rows,
            r.selected.is_none(),
    {
        ListSelection { rows, selected: None }
    }

    /// Selects the row that `path` names; a path that names no row of the
    /// list leaves the selection as it was.
    pub fn select_path(&mut self, path: TreePath)
        requires
            old(self).wf(),
        ensures
            final(self).wf(),
            final(self).rows == old(self).rows,
            names_list_row(path@, old(self).rows as nat) ==> final(self).selected == Some(path),
            !names_list_row(path@, old(self).rows as nat) ==> final(self).selected == old(self).selected,
    {
        if path.depth() == 1 && path.index_at(0) < self.rows {
            self.selected = Some(path);
        }
    }
}

/// Handles a change of the left pane's selection: the right pane selects
/// the top-level ancestor of the row selected on the left, if its list has
/// such a row, and is left unchanged otherwise.
pub fn sync_selection(left_selected: Option<TreePath>, right: &mut ListSelection)
    requires
        old(right).wf(),
    ensures
        final(right).wf(),
        final(right).rows == old(right).rows,
        ({
            let t = sync_target_spec(opt_view(left_selected));
            if t.is_some() && names_list_row(t.unwrap(), old(right).rows as nat) {
                final(right).selected.is_some() && final(right).selected.unwrap()@ == t.unwrap()
            } else {
                final(right).selected == old(right).selected
            }
        }),
{
    match sync_target(left_selected) {
        Some(p) => right.select_path(p),
        None => {},
    }
}

} // verus!
