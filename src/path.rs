//! Tree paths: the sequence of zero-based indices that locates a row from
//! the root of a forest.
use vstd::prelude::*;

verus! {

/// A row's location in a forest; the first index picks a top-level row,
/// each later one a child of the row before it.
#[derive(Debug, PartialEq, Eq)]
pub struct TreePath {
    pub indices: Vec<usize>,
}

impl View for TreePath {
    type V = Seq<usize>;

    open spec fn view(&self) -> Seq<usize> {
        self.indices@
    }
}

/// The path that ascending reaches: trailing indices are dropped one at a
/// time while more than one is left.
pub open spec fn ascended(p: Seq<usize>) -> Seq<usize>
    decreases p.len(),
{
    if p.len() > 1 {
        ascended(p.drop_last())
    } else {
        p
    }
}

impl TreePath {
    /// The path of the top-level row at `index`.
    pub fn top_level(index: usize) -> (r: TreePath)
        ensures
            r@ == seq![index],
    {
        let mut indices: Vec<usize> = Vec::new();
        indices.push(index);
        proof {
            assert(indices@ =~= seq![index]);
        }
        TreePath { indices }
    }

    /// The path given by `indices`, outermost first.
    pub fn from_indices(indices: Vec<usize>) -> (r: TreePath)
        ensures
            r@ == indices@,
    {
        TreePath { indices }
    }

    /// The number of indices in the path.
    pub fn depth(&self) -> (r: usize)
        ensures
            r == self@.len(),
    {
        self.indices.len()
    }

    /// The index at `level`, counted from the top.
    pub fn index_at(&self, level: usize) -> (r: usize)
        requires
            level < self@.len(),
        ensures
            r == self@[level as int],
    {
        self.indices[level]
    }

    /// Moves to the parent row by dropping the last index. Returns whether
    /// there was an index to drop; an empty path stays empty.
    pub fn up(&mut self) -> (r: bool)
        ensures
            r == (old(self)@.len() > 0),
            r ==> final(self)@ == old(self)@.drop_last(),
            !r ==> final(self)@ == old(self)@,
    {
        if self.indices.len() > 0 {
            self.indices.pop();
            true
        } else {
            false
        }
    }

    /// Ascends to the top-level ancestor: drops trailing indices while the
    /// path is deeper than one.
    pub fn ascend_to_top(&mut self)
        ensures
            final(self)@ == ascended(old(self)@),
            old(self)@.len() >= 1 ==> final(self)@ == seq![old(self)@[0]],
            old(self)@.len() == 0 ==> final(self)@ == old(self)@,
    {
        proof {
            lemma_ascend_reaches_top(self@);
        }
        while self.indices.len() > 1
            invariant
                ascended(self@) == ascended(old(self)@),
            decreases self@.len(),
        {
            self.up();
        }
    }
}

/// Ascending a path of depth one leaves it as it is, and ascending twice is
/// the same as ascending once.
pub proof fn lemma_ascend_idempotent(p: Seq<usize>)
    ensures
        p.len() == 1 ==> ascended(p) == p,
        ascended(ascended(p)) == ascended(p),
{
    lemma_ascend_reaches_top(p);
}

/// Ascending a path of any depth of at least one ends at depth exactly one,
/// on the path's own top-level index.
pub proof fn lemma_ascend_reaches_top(p: Seq<usize>)
    ensures
        p.len() >= 1 ==> ascended(p) == seq![p[0]],
        p.len() >= 1 ==> ascended(p).len() == 1 && ascended(p)[0] == p[0],
        p.len() == 0 ==> ascended(p) == p,
    decreases p.len(),
{
    if p.len() > 1 {
        lemma_ascend_reaches_top(p.drop_last());
        assert(p.drop_last()[0] == p[0]);
    } else if p.len() == 1 {
        assert(seq![p[0]] =~= p);
    }
}

} // verus!
