use vstd::prelude::*;

use crate::tiles::{ContentKind, Direction, Tile};

verus! {

/// The odd-sized square window of optionally-present tiles centered on the
/// agent, as handed over by the host's viewport query. This core works with
/// the 3x3 window: the agent sits at cell (1, 1), and cells off the world
/// edge are absent, not an error.
pub struct Viewport {
    cells: Vec<Vec<Option<Tile>>>,
}

/// A grid of rows that is exactly 3 cells by 3 cells.
pub open spec fn is_square3(cells: Seq<Vec<Option<Tile>>>) -> bool {
    &&& cells.len() == 3
    &&& forall|i: int| 0 <= i < 3 ==> (#[trigger] cells[i])@.len() == 3
}

/// The four cells directly above, below, left and right of the center are
/// the only ones that count as adjacent; diagonal and center cells never do.
pub open spec fn orthogonal_cell(i: int, j: int) -> bool {
    ||| (i == 0 && j == 1)
    ||| (i == 1 && j == 0)
    ||| (i == 1 && j == 2)
    ||| (i == 2 && j == 1)
}

/// The viewport cell an orthogonal direction points at.
pub open spec fn cell_of(d: Direction) -> (int, int) {
    match d {
        Direction::Up => (0, 1),
        Direction::Left => (1, 0),
        Direction::Right => (1, 2),
        Direction::Down => (2, 1),
    }
}

/// Position of a direction in the locator's fixed scan order
/// Up, Left, Right, Down.
pub open spec fn scan_rank(d: Direction) -> int {
    match d {
        Direction::Up => 0,
        Direction::Left => 1,
        Direction::Right => 2,
        Direction::Down => 3,
    }
}

impl Viewport {
    #[verifier::type_invariant]
    spec fn square(self) -> bool {
        is_square3(self.cells@)
    }

    /// The tile snapshot at cell (i, j), absent where the host saw nothing.
    pub closed spec fn spec_cell(self, i: int, j: int) -> Option<Tile> {
        self.cells@[i]@[j]
    }

    /// Cell (i, j) is present and carries Market content.
    pub open spec fn market_at(self, i: int, j: int) -> bool {
        self.spec_cell(i, j) matches Some(t) && t.content.kind is Market
    }

    /// The orthogonal neighbor in direction `d` carries Market content.
    pub open spec fn market_toward(self, d: Direction) -> bool {
        self.market_at(cell_of(d).0, cell_of(d).1)
    }

    /// The direction the locator reports: the last match in scan order
    /// Up, Left, Right, Down wins, because each match overwrites the
    /// previous one.
    pub open spec fn located_market(self) -> Option<Direction> {
        if self.market_toward(Direction::Down) {
            Some(Direction::Down)
        } else if self.market_toward(Direction::Right) {
            Some(Direction::Right)
        } else if self.market_toward(Direction::Left) {
            Some(Direction::Left)
        } else if self.market_toward(Direction::Up) {
            Some(Direction::Up)
        } else {
            None
        }
    }

    /// Wrap a 3x3 grid of optional tiles; any other shape is refused.
    pub fn from_cells(cells: Vec<Vec<Option<Tile>>>) -> (r: Option<Viewport>)
        ensures
            match r {
                Some(v) => {
                    &&& is_square3(cells@)
                    &&& forall|i: int, j: int|
                        0 <= i < 3 && 0 <= j < 3 ==> #[trigger] v.spec_cell(i, j) == cells@[i]@[j]
                },
                None => !is_square3(cells@),
            },
    {
        if cells.len() != 3 {
            return None;
        }
        let mut i: usize = 0;
        while i < 3
            invariant
                i <= 3,
                cells@.len() == 3,
                forall|k: int| 0 <= k < i ==> (#[trigger] cells@[k])@.len() == 3,
            decreases 3 - i,
        {
            if cells[i].len() != 3 {
                return None;
            }
            i += 1;
        }
        Some(Viewport { cells })
    }

    /// Scan the four orthogonal neighbors in the fixed order Up, Left,
    /// Right, Down and report the direction of the last one carrying
    /// Market content, if any.
    pub fn find_market(&self) -> (r: Option<Direction>)
        ensures
            r == self.located_market(),
    {
        proof {
            use_type_invariant(&*self);
        }
        let mut near: bool = false;
        let mut dir = Direction::Left;
        if cell_has_market(self.cells[0][1]) {
            near = true;
            dir = Direction::Up;
        }
        if cell_has_market(self.cells[1][0]) {
            near = true;
            dir = Direction::Left;
        }
        if cell_has_market(self.cells[1][2]) {
            near = true;
            dir = Direction::Right;
        }
        if cell_has_market(self.cells[2][1]) {
            near = true;
            dir = Direction::Down;
        }
        if near {
            Some(dir)
        } else {
            None
        }
    }
}

/// The cell is present and its content kind is Market.
fn cell_has_market(c: Option<Tile>) -> (r: bool)
    ensures
        r == (c matches Some(t) && t.content.kind is Market),
{
    match c {
        Some(t) => match t.content.kind {
            ContentKind::Market => true,
            _ => false,
        },
        None => false,
    }
}

/// With exactly one orthogonal Market neighbor, the locator reports the
/// direction of that neighbor.
pub proof fn lemma_single_market_neighbor(v: Viewport, d: Direction)
    requires
        v.market_toward(d),
        forall|d2: Direction| d2 != d ==> !(#[trigger] v.market_toward(d2)),
    ensures
        v.located_market() == Some(d),
{
    assert(!v.market_toward(Direction::Up) || d == Direction::Up);
    assert(!v.market_toward(Direction::Left) || d == Direction::Left);
    assert(!v.market_toward(Direction::Right) || d == Direction::Right);
    assert(!v.market_toward(Direction::Down) || d == Direction::Down);
}

/// With Market content only in diagonal or center cells, the locator
/// reports nothing: those cells never count as adjacency.
pub proof fn lemma_market_only_off_axis(v: Viewport)
    requires
        forall|i: int, j: int|
            0 <= i < 3 && 0 <= j < 3 && #[trigger] v.market_at(i, j) ==> !orthogonal_cell(i, j),
    ensures
        v.located_market() is None,
{
    assert(!v.market_at(0, 1));
    assert(!v.market_at(1, 0));
    assert(!v.market_at(1, 2));
    assert(!v.market_at(2, 1));
}

/// With two orthogonal Market neighbors, the locator reports the one later
/// in scan order Up, Left, Right, Down: the last match overwrites the
/// earlier one.
pub proof fn lemma_tie_break_last_in_scan_order(v: Viewport, first: Direction, second: Direction)
    requires
        v.market_toward(first),
        v.market_toward(second),
        scan_rank(first) < scan_rank(second),
        forall|d: Direction| d != first && d != second ==> !(#[trigger] v.market_toward(d)),
    ensures
        v.located_market() == Some(second),
{
    assert(!v.market_toward(Direction::Up) || Direction::Up == first || Direction::Up == second);
    assert(!v.market_toward(Direction::Left) || Direction::Left == first
        || Direction::Left == second);
    assert(!v.market_toward(Direction::Right) || Direction::Right == first
        || Direction::Right == second);
    assert(!v.market_toward(Direction::Down) || Direction::Down == first
        || Direction::Down == second);
}

} // verus!
