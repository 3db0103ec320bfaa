use vstd::prelude::*;

verus! {

/// A grid cell, identified by its row and column.
///
/// A position is a plain value: it is copied freely and compared by
/// field equality. Whether a position actually lies on a given grid is a
/// property relative to that grid's dimensions, expressed by `in_bounds`.
#[derive(Clone, Copy, Debug, PartialEq, Eq, Hash, Structural)]
pub struct Position {
    pub row: usize,
    pub col: usize,
}

impl Position {
    /// The position lies strictly within a `length` x `width` grid.
    pub open spec fn in_bounds(self, length: usize, width: usize) -> bool {
        self.row < length && self.col < width
    }

    /// Manhattan distance: the sum of the absolute coordinate differences.
    pub open spec fn manhattan(self, other: Position) -> int {
        (if self.row >= other.row {
            self.row - other.row
        } else {
            other.row - self.row
        }) + (if self.col >= other.col {
            self.col - other.col
        } else {
            other.col - self.col
        })
    }
}

/// Computes the Manhattan distance between two cells.
///
/// The intermediate differences are taken in the order that keeps them
/// non-negative, so no coordinate ever underflows; the final sum is formed
/// in a type wide enough to hold any pair of coordinate differences.
pub fn manhattan_distance(p: Position, q: Position) -> (d: u128)
    ensures
        d == p.manhattan(q),
{
    let dr: usize = if p.row >= q.row {
        p.row - q.row
    } else {
        q.row - p.row
    };
    let dc: usize = if p.col >= q.col {
        p.col - q.col
    } else {
        q.col - p.col
    };
    dr as u128 + dc as u128
}

/// Manhattan distance is symmetric, and the distance from a cell to the
/// goal cell is zero exactly when the cell is the goal itself.
pub proof fn lemma_manhattan_symmetric_zero(p: Position, end_position: Position)
    ensures
        p.manhattan(end_position) == end_position.manhattan(p),
        p.manhattan(end_position) == 0 <==> p == end_position,
{
}

} // verus!
