//! The snake's body: an ordered sequence of grid cells, head first.
//!
//! The body is a pure container: it performs no bounds or collision
//! checking of its own. The engine is responsible for only ever growing
//! the body onto free, in-bounds cells, and the spec predicates here
//! (`all_in_bounds`, `distinct_cells`) are what the engine's invariant is
//! stated over.

use vstd::prelude::*;

use crate::grid::{Cell, in_bounds_spec};

verus! {

/// Every cell of the sequence lies on the playing field.
pub open spec fn all_in_bounds(s: Seq<Cell>) -> bool {
    forall|i: int| 0 <= i < s.len() ==> in_bounds_spec(s[i])
}

/// No cell of the sequence occurs twice.
pub open spec fn distinct_cells(s: Seq<Cell>) -> bool {
    forall|i: int, j: int| 0 <= i < j < s.len() ==> s[i] != s[j]
}

/// The snake's body; index 0 is the head, the last index is the tail.
pub struct SnakeBody {
    pub cells: Vec<Cell>,
}

impl View for SnakeBody {
    type V = Seq<Cell>;

    open spec fn view(&self) -> Seq<Cell> {
        self.cells@
    }
}

impl SnakeBody {
    /// A fresh single-cell body.
    pub fn new(start: Cell) -> (body: Self)
        ensures
            body@ == seq![start],
    {
        let mut cells: Vec<Cell> = Vec::new();
        cells.push(start);
        let body = SnakeBody { cells };
        proof {
            assert(body@ =~= seq![start]);
        }
        body
    }

    /// Number of occupied cells.
    pub fn len(&self) -> (n: usize)
        ensures
            n == self@.len(),
    {
        self.cells.len()
    }

    /// The head cell (index 0).
    pub fn head(&self) -> (c: Cell)
        requires
            self@.len() >= 1,
        ensures
            c == self@[0],
    {
        self.cells[0]
    }

    /// Whether `c` appears anywhere in the body.
    pub fn occupies(&self, c: Cell) -> (r: bool)
        ensures
            r == self@.contains(c),
    {
        let mut i: usize = 0;
        while i < self.cells.len()
            invariant
                i <= self@.len(),
                forall|j: int| 0 <= j < i ==> self@[j] != c,
            decreases self@.len() - i,
        {
            if self.cells[i] == c {
                return true;
            }
            i += 1;
        }
        false
    }

    /// Prepend `c` as the new head, keeping the tail (used on feeding).
    pub fn grow_head(&mut self, c: Cell)
        ensures
            final(self)@ == seq![c] + old(self)@,
    {
        self.cells.insert(0, c);
        proof {
            assert(self@ =~= seq![c] + old(self)@);
        }
    }

    /// Prepend `c` as the new head and drop the tail cell: a one-cell
    /// translation that keeps the body length unchanged.
    pub fn advance_head(&mut self, c: Cell)
        requires
            old(self)@.len() >= 1,
        ensures
            final(self)@ == (seq![c] + old(self)@).drop_last(),
    {
        self.cells.insert(0, c);
        let _tail = self.cells.pop();
        proof {
            assert(self@ =~= (seq![c] + old(self)@).drop_last());
        }
    }
}

/// A sequence none of whose elements equals `x` does not contain `x`.
pub proof fn lemma_absent(s: Seq<Cell>, x: Cell)
    requires
        forall|i: int| 0 <= i < s.len() ==> s[i] != x,
    ensures
        !s.contains(x),
{
}

/// Prepending a fresh in-bounds cell preserves distinctness and bounds.
pub proof fn lemma_grow_preserves(s: Seq<Cell>, c: Cell)
    requires
        distinct_cells(s),
        all_in_bounds(s),
        !s.contains(c),
        in_bounds_spec(c),
    ensures
        distinct_cells(seq![c] + s),
        all_in_bounds(seq![c] + s),
{
    let t = seq![c] + s;
    assert forall|i: int, j: int| 0 <= i < j < t.len() implies t[i] != t[j] by {
        if i == 0 {
            assert(t[j] == s[j - 1]);
            if t[j] == c {
                assert(s.contains(c)) by {
                    assert(s[j - 1] == c);
                }
            }
        } else {
            assert(t[i] == s[i - 1] && t[j] == s[j - 1]);
        }
    }
    assert forall|i: int| 0 <= i < t.len() implies in_bounds_spec(t[i]) by {
        if i > 0 {
            assert(t[i] == s[i - 1]);
        }
    }
}

/// Any prefix of a distinct, in-bounds sequence is distinct and in bounds.
pub proof fn lemma_prefix_preserves(s: Seq<Cell>, n: int)
    requires
        distinct_cells(s),
        all_in_bounds(s),
        0 <= n <= s.len(),
    ensures
        distinct_cells(s.subrange(0, n)),
        all_in_bounds(s.subrange(0, n)),
{
    let t = s.subrange(0, n);
    assert forall|i: int, j: int| 0 <= i < j < t.len() implies t[i] != t[j] by {
        assert(t[i] == s[i] && t[j] == s[j]);
    }
    assert forall|i: int| 0 <= i < t.len() implies in_bounds_spec(t[i]) by {
        assert(t[i] == s[i]);
    }
}

} // verus!
