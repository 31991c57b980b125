//! The grid data model: cells, positions with bounded directional shifts,
//! and the table that owns a rectangular array of cells.

use vstd::prelude::*;

verus! {

/// The state of one grid cell.
#[derive(Debug, Copy, Clone, PartialEq, Eq, Structural)]
pub enum Cell {
    Wire,
    Signal,
    TailSignal,
    Void,
}

/// One of the eight Moore-neighborhood directions (the neighborhood minus
/// its center).
#[derive(Debug, Copy, Clone, PartialEq, Eq, Structural)]
pub enum Direction {
    LeftUp,
    Up,
    RightUp,
    Left,
    Right,
    LeftDown,
    Down,
    RightDown,
}

/// A grid coordinate: row and column, both counted from zero.
#[derive(Debug, Copy, Clone, PartialEq, Eq, Structural)]
pub struct Position {
    pub row: usize,
    pub column: usize,
}

impl From<(usize, usize)> for Position {
    /// A `(row, column)` pair read as a position.
    fn from(value: (usize, usize)) -> (r: Position) {
        Position { row: value.0, column: value.1 }
    }
}

impl vstd::std_specs::convert::FromSpecImpl<(usize, usize)> for Position {
    open spec fn obeys_from_spec() -> bool {
        true
    }

    open spec fn from_spec(value: (usize, usize)) -> Position {
        Position { row: value.0, column: value.1 }
    }
}

impl From<[usize; 2]> for Position {
    /// A two-element `[row, column]` array read as a position.
    fn from(value: [usize; 2]) -> (r: Position) {
        Position { row: value[0], column: value[1] }
    }
}

impl vstd::std_specs::convert::FromSpecImpl<[usize; 2]> for Position {
    open spec fn obeys_from_spec() -> bool {
        true
    }

    open spec fn from_spec(value: [usize; 2]) -> Position {
        Position { row: value[0], column: value[1] }
    }
}

/// How a one-step move in direction `d` changes the row index.
pub open spec fn row_delta(d: Direction) -> int {
    match d {
        Direction::LeftUp | Direction::Up | Direction::RightUp => -1,
        Direction::Left | Direction::Right => 0,
        Direction::LeftDown | Direction::Down | Direction::RightDown => 1,
    }
}

/// How a one-step move in direction `d` changes the column index.
pub open spec fn col_delta(d: Direction) -> int {
    match d {
        Direction::LeftUp | Direction::Left | Direction::LeftDown => -1,
        Direction::Up | Direction::Down => 0,
        Direction::RightUp | Direction::Right | Direction::RightDown => 1,
    }
}

/// A coordinate is admissible when it does not exceed the given inclusive
/// bound; with no bound given, only the machine limit of `usize` applies.
pub open spec fn bounded(v: int, limit: Option<usize>) -> bool {
    match limit {
        Some(m) => v <= m,
        None => v <= usize::MAX,
    }
}

/// The position one step from `pos` in direction `d`, or `None` when that
/// step would leave `[0, max_row] x [0, max_column]` (with an absent bound
/// read as "no bound", up to what `usize` can hold). No wraparound and no
/// clamping: a move past an edge is absent, not an error.
pub open spec fn shift_spec(
    pos: Position,
    d: Direction,
    max_row: Option<usize>,
    max_column: Option<usize>,
) -> Option<Position> {
    let nr = pos.row + row_delta(d);
    let nc = pos.column + col_delta(d);
    if 0 <= nr && 0 <= nc && bounded(nr, max_row) && bounded(nc, max_column) {
        Some(Position { row: nr as usize, column: nc as usize })
    } else {
        None
    }
}

/// The eight directions in a fixed enumeration order.
pub open spec fn all_directions() -> Seq<Direction> {
    seq![
        Direction::LeftUp,
        Direction::Up,
        Direction::RightUp,
        Direction::Left,
        Direction::Right,
        Direction::LeftDown,
        Direction::Down,
        Direction::RightDown,
    ]
}

impl Direction {
    /// Every direction, once each, in the fixed enumeration order.
    pub fn to_vec() -> (r: Vec<Direction>)
        ensures
            r@ == all_directions(),
    {
        let dirs = vec![
            Direction::LeftUp,
            Direction::Up,
            Direction::RightUp,
            Direction::Left,
            Direction::Right,
            Direction::LeftDown,
            Direction::Down,
            Direction::RightDown,
        ];
        proof {
            assert(dirs@ =~= all_directions());
        }
        dirs
    }
}

/// Whether `v` is at or below the inclusive bound, if one is given.
fn within(v: usize, limit: Option<usize>) -> (r: bool)
    ensures
        r == bounded(v as int, limit),
{
    match limit {
        Some(m) => v <= m,
        None => true,
    }
}

impl Position {
    /// The neighboring position one step away in `direction`, or `None`
    /// when that neighbor would lie outside the bounds.
    pub fn shift(
        &self,
        direction: Direction,
        max_row: Option<usize>,
        max_column: Option<usize>,
    ) -> (r: Option<Position>)
        ensures
            r == shift_spec(*self, direction, max_row, max_column),
    {
        let nr: usize = match direction {
            Direction::LeftUp | Direction::Up | Direction::RightUp => {
                if self.row == 0 {
                    return None;
                }
                self.row - 1
            },
            Direction::Left | Direction::Right => self.row,
            Direction::LeftDown | Direction::Down | Direction::RightDown => {
                if self.row == usize::MAX {
                    return None;
                }
                self.row + 1
            },
        };
        let nc: usize = match direction {
            Direction::LeftUp | Direction::Left | Direction::LeftDown => {
                if self.column == 0 {
                    return None;
                }
                self.column - 1
            },
            Direction::Up | Direction::Down => self.column,
            Direction::RightUp | Direction::Right | Direction::RightDown => {
                if self.column == usize::MAX {
                    return None;
                }
                self.column + 1
            },
        };
        if within(nr, max_row) && within(nc, max_column) {
            Some(Position { row: nr, column: nc })
        } else {
            None
        }
    }
}

/// A rectangular grid seen abstractly: a sequence of rows, each a sequence
/// of cells. Well-formed means at least one row, at least one column, and
/// every row of the same length.
pub open spec fn grid_wf(g: Seq<Seq<Cell>>) -> bool {
    &&& g.len() >= 1
    &&& g[0].len() >= 1
    &&& forall|i: int| 0 <= i < g.len() ==> #[trigger] g[i].len() == g[0].len()
}

/// Whether `(r, c)` addresses a cell of `g`.
pub open spec fn in_grid(g: Seq<Seq<Cell>>, r: int, c: int) -> bool {
    0 <= r < g.len() && 0 <= c < g[0].len()
}

/// The error returned when `try_get` or `try_set` is given a position
/// outside the grid's dimensions.
#[derive(Debug, Copy, Clone, PartialEq, Eq, Structural)]
pub struct OutOfRange;

/// What one neighbor direction contributes to a count around `(r, c)`:
/// one when the neighbor exists (the shifted coordinates address a cell of
/// `g`) and, if a target state is given, holds that state; zero otherwise.
pub open spec fn dir_contrib(
    g: Seq<Seq<Cell>>,
    r: int,
    c: int,
    d: Direction,
    search: Option<Cell>,
) -> nat {
    let nr = r + row_delta(d);
    let nc = c + col_delta(d);
    if in_grid(g, nr, nc) && (match search {
        Some(target) => g[nr][nc] == target,
        None => true,
    }) {
        1
    } else {
        0
    }
}

/// The number of the eight Moore neighbors of `(r, c)` that exist in `g`
/// and, if a target state is given, hold that state. Always in `[0, 8]`.
pub open spec fn neighbor_count(g: Seq<Seq<Cell>>, r: int, c: int, search: Option<Cell>) -> nat {
    dir_contrib(g, r, c, Direction::LeftUp, search)
        + dir_contrib(g, r, c, Direction::Up, search)
        + dir_contrib(g, r, c, Direction::RightUp, search)
        + dir_contrib(g, r, c, Direction::Left, search)
        + dir_contrib(g, r, c, Direction::Right, search)
        + dir_contrib(g, r, c, Direction::LeftDown, search)
        + dir_contrib(g, r, c, Direction::Down, search)
        + dir_contrib(g, r, c, Direction::RightDown, search)
}

/// The Wireworld transition rule for the cell at `(r, c)` of `g`:
/// `Void` stays `Void`; `Wire` becomes `Signal` exactly when one or two of
/// its neighbors hold `Signal`, and otherwise stays `Wire`; `Signal`
/// decays to `TailSignal`; `TailSignal` reverts to `Wire`.
pub open spec fn next_cell(g: Seq<Seq<Cell>>, r: int, c: int) -> Cell {
    match g[r][c] {
        Cell::Void => Cell::Void,
        Cell::Wire => {
            let n = neighbor_count(g, r, c, Some(Cell::Signal));
            if n == 1 || n == 2 {
                Cell::Signal
            } else {
                Cell::Wire
            }
        },
        Cell::Signal => Cell::TailSignal,
        Cell::TailSignal => Cell::Wire,
    }
}

/// One synchronous step of the whole grid: every cell of the result is
/// the transition rule applied at its position, read entirely from `g`.
pub open spec fn step_grid(g: Seq<Seq<Cell>>) -> Seq<Seq<Cell>> {
    Seq::new(g.len(), |r: int| Seq::new(g[0].len(), |c: int| next_cell(g, r, c)))
}

/// A rectangular, fixed-size array of cells. Constructed once at a chosen
/// size, filled with `Void`, and never resized; cells change only through
/// `set` or by wholesale replacement with a freshly computed table.
pub struct Table {
    grid: Vec<Vec<Cell>>,
}

impl View for Table {
    type V = Seq<Seq<Cell>>;

    closed spec fn view(&self) -> Seq<Seq<Cell>> {
        self.grid@.map_values(|row: Vec<Cell>| row@)
    }
}

impl Table {
    /// The table holds a non-degenerate rectangular grid.
    pub open spec fn wf(self) -> bool {
        grid_wf(self@)
    }

    /// A `rows x columns` table with every cell `Void`. Both dimensions
    /// must be at least one: every later size query assumes a first row
    /// and a first column exist.
    pub fn new(rows: usize, columns: usize) -> (r: Table)
        requires
            rows >= 1,
            columns >= 1,
        ensures
            r.wf(),
            r@.len() == rows,
            r@[0].len() == columns,
            forall|i: int, j: int|
                0 <= i < rows && 0 <= j < columns ==> #[trigger] r@[i][j] == Cell::Void,
    {
        let mut grid: Vec<Vec<Cell>> = Vec::new();
        let mut row: usize = 0;
        while row < rows
            invariant
                row <= rows,
                grid@.len() == row,
                forall|i: int| 0 <= i < row ==> #[trigger] grid@[i]@.len() == columns,
                forall|i: int, j: int|
                    0 <= i < row && 0 <= j < columns ==> #[trigger] grid@[i]@[j] == Cell::Void,
            decreases rows - row,
        {
            let mut cells: Vec<Cell> = Vec::new();
            let mut column: usize = 0;
            while column < columns
                invariant
                    column <= columns,
                    cells@.len() == column,
                    forall|j: int| 0 <= j < column ==> #[trigger] cells@[j] == Cell::Void,
                decreases columns - column,
            {
                cells.push(Cell::Void);
                column += 1;
            }
            grid.push(cells);
            row += 1;
        }
        Table { grid }
    }

    /// The fixed dimensions chosen at construction, as `(rows, columns)`.
    pub fn get_size(&self) -> (r: (usize, usize))
        requires
            self.wf(),
        ensures
            r.0 == self@.len(),
            r.1 == self@[0].len(),
            r.0 >= 1,
            r.1 >= 1,
    {
        (self.grid.len(), self.grid[0].len())
    }

    /// The cell at `pos`, which must address into the grid.
    pub fn get(&self, pos: Position) -> (r: Cell)
        requires
            self.wf(),
            in_grid(self@, pos.row as int, pos.column as int),
        ensures
            r == self@[pos.row as int][pos.column as int],
    {
        self.grid[pos.row][pos.column]
    }

    /// Overwrites the cell at `pos`, which must address into the grid.
    /// Exactly that cell changes; every other cell keeps its value.
    pub fn set(&mut self, pos: Position, value: Cell)
        requires
            old(self).wf(),
            in_grid(old(self)@, pos.row as int, pos.column as int),
        ensures
            final(self).wf(),
            final(self)@ == old(self)@.update(
                pos.row as int,
                old(self)@[pos.row as int].update(pos.column as int, value),
            ),
            final(self)@[pos.row as int][pos.column as int] == value,
            final(self)@.len() == old(self)@.len(),
            final(self)@[0].len() == old(self)@[0].len(),
            forall|i: int, j: int|
                in_grid(old(self)@, i, j) && !(i == pos.row as int && j == pos.column as int)
                    ==> #[trigger] final(self)@[i][j] == old(self)@[i][j],
    {
        proof {
            assert(self.grid@[pos.row as int]@ == self@[pos.row as int]);
            assert(self.grid@[pos.row as int]@.len() == self@[0].len());
        }
        self.grid[pos.row][pos.column] = value;
        proof {
            assert(self@ =~~= old(self)@.update(
                pos.row as int,
                old(self)@[pos.row as int].update(pos.column as int, value),
            ));
        }
    }

    /// Like `get`, but with the bounds check made at run time: `Ok` with
    /// the cell exactly when `pos` addresses into the grid, and
    /// `Err(OutOfRange)` exactly when it does not.
    pub fn try_get(&self, pos: Position) -> (r: Result<Cell, OutOfRange>)
        requires
            self.wf(),
        ensures
            in_grid(self@, pos.row as int, pos.column as int)
                ==> r == Ok::<Cell, OutOfRange>(self@[pos.row as int][pos.column as int]),
            !in_grid(self@, pos.row as int, pos.column as int)
                ==> r == Err::<Cell, OutOfRange>(OutOfRange),
    {
        let (rows, columns) = self.get_size();
        if pos.row < rows && pos.column < columns {
            Ok(self.get(pos))
        } else {
            Err(OutOfRange)
        }
    }

    /// Like `set`, but with the bounds check made at run time: `Ok` and a
    /// one-cell overwrite exactly when `pos` addresses into the grid,
    /// `Err(OutOfRange)` and an untouched table exactly when it does not.
    pub fn try_set(&mut self, pos: Position, value: Cell) -> (r: Result<(), OutOfRange>)
        requires
            old(self).wf(),
        ensures
            final(self).wf(),
            in_grid(old(self)@, pos.row as int, pos.column as int) ==> {
                &&& r == Ok::<(), OutOfRange>(())
                &&& final(self)@ == old(self)@.update(
                    pos.row as int,
                    old(self)@[pos.row as int].update(pos.column as int, value),
                )
            },
            !in_grid(old(self)@, pos.row as int, pos.column as int) ==> {
                &&& r == Err::<(), OutOfRange>(OutOfRange)
                &&& final(self)@ == old(self)@
            },
    {
        let (rows, columns) = self.get_size();
        if pos.row < rows && pos.column < columns {
            self.set(pos, value);
            Ok(())
        } else {
            Err(OutOfRange)
        }
    }

    /// What one neighbor direction contributes to `around_count`.
    fn probe(&self, pos: Position, direction: Direction, search: Option<Cell>) -> (r: u8)
        requires
            self.wf(),
        ensures
            r as nat == dir_contrib(self@, pos.row as int, pos.column as int, direction, search),
            r <= 1,
    {
        let (rows, columns) = self.get_size();
        match pos.shift(direction, Some(rows - 1), Some(columns - 1)) {
            Some(neighbor) => {
                match search {
                    Some(target) => {
                        if self.get(neighbor) == target {
                            1
                        } else {
                            0
                        }
                    },
                    None => 1,
                }
            },
            None => 0,
        }
    }

    /// The number of the eight neighbor directions from `pos`, bounded by
    /// the grid's own dimensions, that land on a cell and — when a target
    /// state is given — on a cell holding that state. The result is in
    /// `[0, 8]`.
    pub fn around_count(&self, pos: Position, search: Option<Cell>) -> (r: u8)
        requires
            self.wf(),
        ensures
            r as nat == neighbor_count(self@, pos.row as int, pos.column as int, search),
            r <= 8,
    {
        let mut count: u8 = 0;
        count += self.probe(pos, Direction::LeftUp, search);
        count += self.probe(pos, Direction::Up, search);
        count += self.probe(pos, Direction::RightUp, search);
        count += self.probe(pos, Direction::Left, search);
        count += self.probe(pos, Direction::Right, search);
        count += self.probe(pos, Direction::LeftDown, search);
        count += self.probe(pos, Direction::Down, search);
        count += self.probe(pos, Direction::RightDown, search);
        count
    }

    /// One synchronous simulation step: a freshly allocated table of the
    /// same size whose every cell is the transition rule applied to this
    /// table. Reads consult only `self` and writes touch only the new
    /// table, so no cell's next state can see another cell's same-step
    /// result. `self` is left untouched.
    pub fn step(&self) -> (r: Table)
        requires
            self.wf(),
        ensures
            r.wf(),
            r@ == step_grid(self@),
            r@.len() == self@.len(),
            r@[0].len() == self@[0].len(),
    {
        let (rows, columns) = self.get_size();
        let mut next = Table::new(rows, columns);
        let mut row: usize = 0;
        while row < rows
            invariant
                self.wf(),
                next.wf(),
                rows == self@.len(),
                columns == self@[0].len(),
                next@.len() == rows,
                next@[0].len() == columns,
                forall|i: int| 0 <= i < rows ==> #[trigger] next@[i].len() == columns,
                row <= rows,
                forall|i: int, j: int|
                    0 <= i < row && 0 <= j < columns
                        ==> #[trigger] next@[i][j] == next_cell(self@, i, j),
                forall|i: int, j: int|
                    row <= i < rows && 0 <= j < columns
                        ==> #[trigger] next@[i][j] == Cell::Void,
            decreases rows - row,
        {
            let mut column: usize = 0;
            while column < columns
                invariant
                    self.wf(),
                    next.wf(),
                    rows == self@.len(),
                    columns == self@[0].len(),
                    next@.len() == rows,
                    next@[0].len() == columns,
                    forall|i: int| 0 <= i < rows ==> #[trigger] next@[i].len() == columns,
                    row < rows,
                    column <= columns,
                    forall|i: int, j: int|
                        0 <= i < row && 0 <= j < columns
                            ==> #[trigger] next@[i][j] == next_cell(self@, i, j),
                    forall|j: int|
                        0 <= j < column ==> #[trigger] next@[row as int][j] == next_cell(
                            self@,
                            row as int,
                            j,
                        ),
                    forall|j: int|
                        column <= j < columns ==> #[trigger] next@[row as int][j] == Cell::Void,
                    forall|i: int, j: int|
                        row < i < rows && 0 <= j < columns
                            ==> #[trigger] next@[i][j] == Cell::Void,
                decreases columns - column,
            {
                let pos = Position { row, column };
                match self.get(pos) {
                    Cell::Wire => {
                        let count = self.around_count(pos, Some(Cell::Signal));
                        if count == 1 || count == 2 {
                            next.set(pos, Cell::Signal);
                        } else {
                            next.set(pos, Cell::Wire);
                        }
                    },
                    Cell::Signal => next.set(pos, Cell::TailSignal),
                    Cell::TailSignal => next.set(pos, Cell::Wire),
                    Cell::Void => {},
                }
                column += 1;
            }
            row += 1;
        }
        proof {
            assert forall|i: int| 0 <= i < rows implies next@[i] =~= step_grid(self@)[i] by {
                assert(next@[i].len() == columns);
            }
            assert(next@ =~~= step_grid(self@));
        }
        next
    }
}

} // verus!
