//! The board data model and its single legal mutation.
//!
//! A `Board` is a square grid of `Field` values. Cells that the generator
//! pre-filled are `Fixed` and never change; the remaining cells are
//! `Guessable` and move through the cyclic order
//! `Empty -> X -> O -> Empty` on each interaction.

use vstd::prelude::*;

verus! {

/// One cell of the board: one of the two symbols, or empty.
#[derive(Clone, Copy, PartialEq, Eq, Structural, Debug)]
pub enum Field {
    X,
    O,
    Empty,
}

/// Whether a cell was pre-filled by the generator (and is immutable for the
/// session) or may be cycled by the player.
#[derive(Clone, Copy, PartialEq, Eq, Structural, Debug)]
pub enum CellKind {
    Fixed,
    Guessable,
}

/// A coordinate outside `[0, N)` was used. Always a caller defect: the
/// rendering layer must only address cells it was given.
#[derive(Clone, Copy, PartialEq, Eq, Structural, Debug)]
pub enum BoardError {
    OutOfRange,
}

/// The successor of a field value in the fixed cyclic order
/// `Empty -> X -> O -> Empty`. Wrapping back to `Empty` is the erase action.
pub open spec fn next_value(f: Field) -> Field {
    match f {
        Field::Empty => Field::X,
        Field::X => Field::O,
        Field::O => Field::Empty,
    }
}

/// Advances a field value one step through the cyclic order.
pub fn next_field_value(cur_field: Field) -> (r: Field)
    ensures
        r == next_value(cur_field),
{
    match cur_field {
        Field::Empty => Field::X,
        Field::X => Field::O,
        Field::O => Field::Empty,
    }
}

/// The display text of a field value: its symbol, or a placeholder blank.
pub open spec fn field_text(f: Field) -> Seq<char> {
    match f {
        Field::X => "X"@,
        Field::O => "O"@,
        Field::Empty => "_"@,
    }
}

/// The text a cell is rendered with.
pub fn field_to_str(field: Field) -> (r: &'static str)
    ensures
        r@ == field_text(field),
{
    match field {
        Field::X => "X",
        Field::O => "O",
        Field::Empty => "_",
    }
}

/// The style class of a cell kind.
pub open spec fn kind_text(k: CellKind) -> Seq<char> {
    match k {
        CellKind::Fixed => "fixed"@,
        CellKind::Guessable => "guess"@,
    }
}

/// The style class a cell is rendered with, by its kind.
pub fn kind_to_class(kind: CellKind) -> (r: &'static str)
    ensures
        r@ == kind_text(kind),
{
    match kind {
        CellKind::Fixed => "fixed",
        CellKind::Guessable => "guess",
    }
}

/// Every cell of the grid holds a symbol (no cell is `Empty`).
pub open spec fn all_filled(cells: Seq<Field>) -> bool {
    forall|i: int| 0 <= i < cells.len() ==> #[trigger] cells[i] != Field::Empty
}

/// The grid after one cycle step at cell `i`: unchanged if the cell is
/// fixed, otherwise the cell is advanced to its successor value.
pub open spec fn cycle_at(cells: Seq<Field>, fixed: Seq<bool>, i: int) -> Seq<Field> {
    if fixed[i] {
        cells
    } else {
        cells.update(i, next_value(cells[i]))
    }
}

/// A square grid of `N * N` cells, stored row-major, together with the
/// kind of each cell, established once at construction.
pub struct Board {
    size: usize,
    cells: Vec<Field>,
    fixed: Vec<bool>,
}

impl Board {
    /// The grid contents, row-major.
    pub closed spec fn grid(self) -> Seq<Field> {
        self.cells@
    }

    /// Which cells are fixed, row-major.
    pub closed spec fn fixed_map(self) -> Seq<bool> {
        self.fixed@
    }

    /// The edge length `N`.
    pub closed spec fn edge(self) -> int {
        self.size as int
    }

    /// The row-major position of a coordinate pair.
    pub open spec fn index_of(self, row: int, col: int) -> int {
        row * self.edge() + col
    }

    /// Whether a coordinate pair addresses a cell of the grid.
    pub open spec fn in_range(self, row: int, col: int) -> bool {
        0 <= row < self.edge() && 0 <= col < self.edge()
    }

    /// The value at an in-range coordinate.
    pub open spec fn cell(self, row: int, col: int) -> Field {
        self.grid()[self.index_of(row, col)]
    }

    /// Whether the cell at an in-range coordinate is fixed.
    pub open spec fn cell_fixed(self, row: int, col: int) -> bool {
        self.fixed_map()[self.index_of(row, col)]
    }

    /// Well-formedness: every coordinate pair in range has exactly one
    /// value, and every fixed cell holds a symbol.
    pub open spec fn wf(self) -> bool {
        &&& self.grid().len() == self.edge() * self.edge()
        &&& self.fixed_map().len() == self.edge() * self.edge()
        &&& forall|i: int|
            0 <= i < self.grid().len() && #[trigger] self.fixed_map()[i]
                ==> self.grid()[i] != Field::Empty
    }

    /// Whether the whole grid is filled.
    pub open spec fn full(self) -> bool {
        all_filled(self.grid())
    }

    /// Builds a board from an initial arrangement. A cell is `Fixed`
    /// exactly when the arrangement holds a symbol there, `Guessable`
    /// when it is empty.
    pub fn new(size: usize, cells: Vec<Field>) -> (b: Board)
        requires
            cells@.len() == size * size,
        ensures
            b.wf(),
            b.edge() == size,
            b.grid() == cells@,
            forall|i: int|
                0 <= i < cells@.len()
                    ==> (#[trigger] b.fixed_map()[i] <==> cells@[i] != Field::Empty),
    {
        let mut fixed: Vec<bool> = Vec::new();
        let mut i: usize = 0;
        while i < cells.len()
            invariant
                0 <= i <= cells@.len(),
                fixed@.len() == i,
                forall|j: int|
                    0 <= j < i ==> (#[trigger] fixed@[j] <==> cells@[j] != Field::Empty),
            decreases cells@.len() - i,
        {
            fixed.push(cells[i] != Field::Empty);
            i += 1;
        }
        Board { size, cells, fixed }
    }

    /// The board's edge length `N`.
    pub fn size(&self) -> (s: usize)
        ensures
            s == self.edge(),
    {
        self.size
    }

    /// The row-major position of an in-range coordinate, as a machine index.
    fn index(&self, row: usize, col: usize) -> (i: usize)
        requires
            self.wf(),
            self.in_range(row as int, col as int),
        ensures
            i == self.index_of(row as int, col as int),
            i < self.grid().len(),
    {
        proof {
            lemma_index_in_bounds(row as int, col as int, self.edge());
        }
        // Reading the length shows the verifier that `size * size` fits in
        // a `usize`, which bounds the index arithmetic below.
        let _n = self.cells.len();
        row * self.size + col
    }

    /// The current value at a coordinate; `OutOfRange` outside the grid.
    pub fn get(&self, row: usize, col: usize) -> (r: Result<Field, BoardError>)
        requires
            self.wf(),
        ensures
            self.in_range(row as int, col as int)
                ==> r == Ok::<Field, BoardError>(self.cell(row as int, col as int)),
            !self.in_range(row as int, col as int)
                ==> r == Err::<Field, BoardError>(BoardError::OutOfRange),
    {
        if row < self.size && col < self.size {
            let i = self.index(row, col);
            Ok(self.cells[i])
        } else {
            Err(BoardError::OutOfRange)
        }
    }

    /// The kind of the cell at a coordinate; `OutOfRange` outside the grid.
    pub fn kind(&self, row: usize, col: usize) -> (r: Result<CellKind, BoardError>)
        requires
            self.wf(),
        ensures
            self.in_range(row as int, col as int) && self.cell_fixed(row as int, col as int)
                ==> r == Ok::<CellKind, BoardError>(CellKind::Fixed),
            self.in_range(row as int, col as int) && !self.cell_fixed(row as int, col as int)
                ==> r == Ok::<CellKind, BoardError>(CellKind::Guessable),
            !self.in_range(row as int, col as int)
                ==> r == Err::<CellKind, BoardError>(BoardError::OutOfRange),
    {
        if row < self.size && col < self.size {
            let i = self.index(row, col);
            if self.fixed[i] {
                Ok(CellKind::Fixed)
            } else {
                Ok(CellKind::Guessable)
            }
        } else {
            Err(BoardError::OutOfRange)
        }
    }

    /// The single legal mutation. At a `Guessable` in-range cell, advances
    /// the value one step through the cyclic order and returns the new
    /// value. At a `Fixed` cell the call is a no-op that returns the
    /// unchanged value (the chosen policy for this under-specified case:
    /// ignore rather than fail). Outside the grid it fails with
    /// `OutOfRange` and changes nothing.
    pub fn cycle(&mut self, row: usize, col: usize) -> (r: Result<Field, BoardError>)
        requires
            old(self).wf(),
        ensures
            final(self).wf(),
            final(self).edge() == old(self).edge(),
            final(self).fixed_map() == old(self).fixed_map(),
            !old(self).in_range(row as int, col as int)
                ==> r == Err::<Field, BoardError>(BoardError::OutOfRange)
                    && final(self).grid() == old(self).grid(),
            old(self).in_range(row as int, col as int)
                ==> final(self).grid() == cycle_at(
                    old(self).grid(),
                    old(self).fixed_map(),
                    old(self).index_of(row as int, col as int),
                ),
            old(self).in_range(row as int, col as int)
                ==> r == Ok::<Field, BoardError>(
                    final(self).cell(row as int, col as int),
                ),
            old(self).in_range(row as int, col as int) && !old(self).cell_fixed(
                row as int,
                col as int,
            ) ==> r == Ok::<Field, BoardError>(
                next_value(old(self).cell(row as int, col as int)),
            ),
            old(self).in_range(row as int, col as int) && old(self).cell_fixed(
                row as int,
                col as int,
            ) ==> r == Ok::<Field, BoardError>(old(self).cell(row as int, col as int))
                && final(self).grid() == old(self).grid(),
    {
        if row < self.size && col < self.size {
            let i = self.index(row, col);
            if self.fixed[i] {
                Ok(self.cells[i])
            } else {
                let next = next_field_value(self.cells[i]);
                self.cells[i] = next;
                Ok(next)
            }
        } else {
            Err(BoardError::OutOfRange)
        }
    }

    /// The stored cells, row-major, for collaborator calls.
    pub(crate) fn grid_cells(&self) -> (v: &Vec<Field>)
        ensures
            v@ == self.grid(),
    {
        &self.cells
    }

    /// True exactly when every cell holds a symbol.
    pub fn is_full(&self) -> (r: bool)
        requires
            self.wf(),
        ensures
            r == self.full(),
    {
        let mut i: usize = 0;
        while i < self.cells.len()
            invariant
                0 <= i <= self.grid().len(),
                forall|j: int| 0 <= j < i ==> #[trigger] self.grid()[j] != Field::Empty,
            decreases self.grid().len() - i,
        {
            if self.cells[i] == Field::Empty {
                return false;
            }
            i += 1;
        }
        true
    }
}

/// Cycle order closure for a single value: three successor steps return
/// any field value to itself, and from `Empty` the steps are `X`, then
/// `O`, then `Empty` again.
pub proof fn lemma_cycle_order(f: Field)
    ensures
        next_value(next_value(next_value(f))) == f,
        next_value(Field::Empty) == Field::X,
        next_value(Field::X) == Field::O,
        next_value(Field::O) == Field::Empty,
{
}

/// Cycle order closure on the grid: three cycle steps at a guessable cell
/// return the grid to its original contents.
pub proof fn lemma_cycle_three_restores(cells: Seq<Field>, fixed: Seq<bool>, i: int)
    requires
        0 <= i < cells.len(),
        i < fixed.len(),
        !fixed[i],
    ensures
        cycle_at(cycle_at(cycle_at(cells, fixed, i), fixed, i), fixed, i) == cells,
{
    assert(cycle_at(cycle_at(cycle_at(cells, fixed, i), fixed, i), fixed, i) =~= cells);
}

/// The grid after `n` cycle steps at one cell.
pub open spec fn cycle_n(cells: Seq<Field>, fixed: Seq<bool>, i: int, n: nat) -> Seq<Field>
    decreases n,
{
    if n == 0 {
        cells
    } else {
        cycle_at(cycle_n(cells, fixed, i, (n - 1) as nat), fixed, i)
    }
}

/// Fixed immutability: any number of cycle steps at a fixed cell leaves
/// the grid — and so every cell's value — unchanged.
pub proof fn lemma_fixed_immutable(cells: Seq<Field>, fixed: Seq<bool>, i: int, n: nat)
    requires
        0 <= i < fixed.len(),
        fixed[i],
    ensures
        cycle_n(cells, fixed, i, n) == cells,
    decreases n,
{
    if n > 0 {
        lemma_fixed_immutable(cells, fixed, i, (n - 1) as nat);
    }
}

/// Fullness is not monotonic: one cycle step at a guessable cell that
/// holds `O` empties it, taking a full grid to a non-full one.
pub proof fn lemma_full_to_nonfull(cells: Seq<Field>, fixed: Seq<bool>, i: int)
    requires
        0 <= i < cells.len(),
        i < fixed.len(),
        !fixed[i],
        cells[i] == Field::O,
        all_filled(cells),
    ensures
        !all_filled(cycle_at(cells, fixed, i)),
{
    assert(cycle_at(cells, fixed, i)[i] == Field::Empty);
}

/// A row-major index computed from an in-range coordinate stays inside the
/// grid.
proof fn lemma_index_in_bounds(row: int, col: int, size: int)
    requires
        0 <= row < size,
        0 <= col < size,
    ensures
        0 <= row * size + col < size * size,
{
    assert(row * size + col < size * size) by (nonlinear_arith)
        requires
            0 <= row < size,
            0 <= col < size,
    ;
    assert(0 <= row * size + col) by (nonlinear_arith)
        requires
            0 <= row,
            0 <= col,
            0 < size,
    ;
}

} // verus!
