//! Grid-wide laws of the automaton, proved once and for all: how the
//! bounded neighbor count behaves at the interior, edges and corners of a
//! grid, and how each cell state fares under the synchronous step.

use vstd::prelude::*;

use crate::table::{grid_wf, in_grid, neighbor_count, step_grid, Cell};

verus! {

/// The grid after `k` synchronous steps.
pub open spec fn iter_step(g: Seq<Seq<Cell>>, k: nat) -> Seq<Seq<Cell>>
    decreases k,
{
    if k == 0 {
        g
    } else {
        step_grid(iter_step(g, (k - 1) as nat))
    }
}

/// A synchronous step keeps the grid's shape: same number of rows, every
/// row of the same, unchanged length.
pub proof fn lemma_step_keeps_shape(g: Seq<Seq<Cell>>)
    requires
        grid_wf(g),
    ensures
        grid_wf(step_grid(g)),
        step_grid(g).len() == g.len(),
        step_grid(g)[0].len() == g[0].len(),
{
    assert forall|i: int| 0 <= i < step_grid(g).len() implies #[trigger] step_grid(g)[i].len()
        == step_grid(g)[0].len() by {
        assert(step_grid(g)[i].len() == g[0].len());
    }
}

/// An unfiltered neighbor count at a cell touching no edge is exactly 8:
/// all eight shifted positions stay inside the grid.
pub proof fn lemma_interior_count(g: Seq<Seq<Cell>>, r: int, c: int)
    requires
        grid_wf(g),
        1 <= r && r + 1 < g.len(),
        1 <= c && c + 1 < g[0].len(),
    ensures
        neighbor_count(g, r, c, None::<Cell>) == 8,
{
}

/// An unfiltered neighbor count at a cell touching exactly one horizontal
/// and exactly one vertical edge — a corner of a grid with at least two
/// rows and two columns — is exactly 3.
pub proof fn lemma_corner_count(g: Seq<Seq<Cell>>, r: int, c: int)
    requires
        grid_wf(g),
        in_grid(g, r, c),
        r == 0 || r + 1 == g.len(),
        !(r == 0 && r + 1 == g.len()),
        c == 0 || c + 1 == g[0].len(),
        !(c == 0 && c + 1 == g[0].len()),
    ensures
        neighbor_count(g, r, c, None::<Cell>) == 3,
{
}

/// An unfiltered neighbor count at a cell touching exactly one edge — on
/// the boundary but at neither end of it — is exactly 5.
pub proof fn lemma_edge_count(g: Seq<Seq<Cell>>, r: int, c: int)
    requires
        grid_wf(g),
        in_grid(g, r, c),
        ({
            ||| ((r == 0 || r + 1 == g.len()) && !(r == 0 && r + 1 == g.len()) && 1 <= c && c + 1
                < g[0].len())
            ||| ((c == 0 || c + 1 == g[0].len()) && !(c == 0 && c + 1 == g[0].len()) && 1 <= r && r
                + 1 < g.len())
        }),
    ensures
        neighbor_count(g, r, c, None::<Cell>) == 5,
{
}

/// A `Wire` cell with no `Signal` neighbor stays `Wire` after one step.
pub proof fn lemma_wire_quiet_stays_wire(g: Seq<Seq<Cell>>, r: int, c: int)
    requires
        grid_wf(g),
        in_grid(g, r, c),
        g[r][c] == Cell::Wire,
        neighbor_count(g, r, c, Some(Cell::Signal)) == 0,
    ensures
        step_grid(g)[r][c] == Cell::Wire,
{
}

/// A `Wire` cell with exactly one or exactly two `Signal` neighbors
/// becomes `Signal` after one step.
pub proof fn lemma_wire_ignites(g: Seq<Seq<Cell>>, r: int, c: int)
    requires
        grid_wf(g),
        in_grid(g, r, c),
        g[r][c] == Cell::Wire,
        neighbor_count(g, r, c, Some(Cell::Signal)) == 1 || neighbor_count(
            g,
            r,
            c,
            Some(Cell::Signal),
        ) == 2,
    ensures
        step_grid(g)[r][c] == Cell::Signal,
{
}

/// A `Wire` cell with three or more `Signal` neighbors stays `Wire` after
/// one step: only one or two energized neighbors ignite a wire.
pub proof fn lemma_wire_crowded_stays_wire(g: Seq<Seq<Cell>>, r: int, c: int)
    requires
        grid_wf(g),
        in_grid(g, r, c),
        g[r][c] == Cell::Wire,
        neighbor_count(g, r, c, Some(Cell::Signal)) >= 3,
    ensures
        step_grid(g)[r][c] == Cell::Wire,
{
}

/// Every `Signal` cell becomes `TailSignal` after one step, whatever its
/// neighbors hold.
pub proof fn lemma_signal_decays(g: Seq<Seq<Cell>>, r: int, c: int)
    requires
        grid_wf(g),
        in_grid(g, r, c),
        g[r][c] == Cell::Signal,
    ensures
        step_grid(g)[r][c] == Cell::TailSignal,
{
}

/// Every `TailSignal` cell reverts to `Wire` after one step, whatever its
/// neighbors hold.
pub proof fn lemma_tail_reverts(g: Seq<Seq<Cell>>, r: int, c: int)
    requires
        grid_wf(g),
        in_grid(g, r, c),
        g[r][c] == Cell::TailSignal,
    ensures
        step_grid(g)[r][c] == Cell::Wire,
{
}

/// A `Void` cell is still `Void` after any number of steps, whatever its
/// neighbors hold: nothing ever writes into the inert background.
pub proof fn lemma_void_forever(g: Seq<Seq<Cell>>, r: int, c: int, k: nat)
    requires
        grid_wf(g),
        in_grid(g, r, c),
        g[r][c] == Cell::Void,
    ensures
        grid_wf(iter_step(g, k)),
        iter_step(g, k).len() == g.len(),
        iter_step(g, k)[0].len() == g[0].len(),
        iter_step(g, k)[r][c] == Cell::Void,
    decreases k,
{
    if k > 0 {
        lemma_void_forever(g, r, c, (k - 1) as nat);
        lemma_step_keeps_shape(iter_step(g, (k - 1) as nat));
    }
}

/// A grid holding only `Void` is a fixed point of the step: the step
/// returns it unchanged.
pub proof fn lemma_all_void_fixed_point(g: Seq<Seq<Cell>>)
    requires
        grid_wf(g),
        forall|i: int, j: int| in_grid(g, i, j) ==> #[trigger] g[i][j] == Cell::Void,
    ensures
        step_grid(g) == g,
{
    assert forall|i: int| 0 <= i < g.len() implies #[trigger] step_grid(g)[i] =~= g[i] by {
        assert(g[i].len() == g[0].len());
        assert forall|j: int| 0 <= j < g[i].len() implies #[trigger] step_grid(g)[i][j]
            == g[i][j] by {
            assert(in_grid(g, i, j));
            assert(g[i][j] == Cell::Void);
        }
    }
    assert(step_grid(g) =~~= g);
}

/// A position one past the last row, or one past the last column, never
/// addresses into the grid: `try_get` and `try_set` there are owed an
/// out-of-range error.
pub proof fn lemma_one_past_end_out_of_range(g: Seq<Seq<Cell>>, r: int, c: int)
    requires
        grid_wf(g),
        r == g.len() || c == g[0].len(),
    ensures
        !in_grid(g, r, c),
{
}

} // verus!
