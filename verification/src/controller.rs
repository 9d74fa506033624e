//! The interaction controller.
//!
//! The controller owns the board for one puzzle-solving session and
//! mediates between one user-triggered interaction and the board: it
//! ignores interactions at fixed cells, cycles guessable cells, and runs
//! the completion protocol — whenever a mutation leaves the board full,
//! it asks the external validator for a verdict. The verdict is never
//! cached: a later cycle can empty a cell again, so fullness and validity
//! are re-evaluated on every interaction.

use vstd::prelude::*;
use crate::board::{cycle_at, next_value, Board, BoardError, CellKind, Field};
use crate::puzzle::{rules_verdict, valid_of};

verus! {

/// The validator's verdict on a full board, reported to the player.
#[derive(Clone, Copy, PartialEq, Eq, Structural, Debug)]
pub enum Verdict {
    /// The full arrangement satisfies all puzzle rules.
    Success,
    /// The arrangement is complete but breaks a rule; the board stays
    /// editable so the player may keep cycling cells to fix it.
    Continue,
}

/// What one interaction did, and what the rendering layer must show.
#[derive(Clone, Copy, PartialEq, Eq, Structural, Debug)]
pub enum Outcome {
    /// The cell is fixed: no state change, nothing to display.
    Ignored,
    /// The cell was cycled to `value`; the board is not full, so no
    /// verdict was sought.
    Updated { value: Field },
    /// The cell was cycled to `value`, the board became (or stayed) full,
    /// and the validator returned `verdict`.
    Completed { value: Field, verdict: Verdict },
}

/// The notification text for a verdict.
pub open spec fn verdict_text(v: Verdict) -> Seq<char> {
    match v {
        Verdict::Success => "You have solved the puzzle."@,
        Verdict::Continue => "No, that is not right. Please continue solving."@,
    }
}

/// The fixed notification message reported for a verdict.
pub fn verdict_message(v: Verdict) -> (r: &'static str)
    ensures
        r@ == verdict_text(v),
{
    match v {
        Verdict::Success => "You have solved the puzzle.",
        Verdict::Continue => "No, that is not right. Please continue solving.",
    }
}

/// Owns the board for one session and serializes all mutation through
/// `handle_interaction`. The host delivers one event at a time; a caller
/// that shares the controller among handlers must wrap it in an
/// exclusive-access guard for the duration of each call.
pub struct Controller {
    board: Board,
}

impl Controller {
    /// The board owned by this session.
    pub closed spec fn board_view(self) -> Board {
        self.board
    }

    /// Well-formedness: the board is well-formed and has the shape the
    /// validator collaborator accepts — an even edge between two and
    /// sixty-two (the generator's own domain, which the completion
    /// protocol depends on).
    pub open spec fn wf(self) -> bool {
        &&& self.board_view().wf()
        &&& self.board_view().edge() >= 2
        &&& self.board_view().edge() % 2 == 0
        &&& self.board_view().edge() <= 62
    }

    /// Takes ownership of a generator-produced board for one session.
    pub fn new(board: Board) -> (c: Controller)
        requires
            board.wf(),
            board.edge() >= 2,
            board.edge() % 2 == 0,
            board.edge() <= 62,
        ensures
            c.wf(),
            c.board_view() == board,
    {
        Controller { board }
    }

    /// Read access for the rendering layer (value and kind of each cell).
    pub fn board(&self) -> (b: &Board)
        ensures
            *b == self.board_view(),
    {
        &self.board
    }

    /// Handles one user interaction at a coordinate.
    ///
    /// A fixed cell is ignored; a guessable cell is cycled, and if the
    /// board is then full the external validator is consulted and its
    /// verdict reported. Out-of-range coordinates fail with `OutOfRange`
    /// and change nothing.
    pub fn handle_interaction(&mut self, row: usize, col: usize) -> (r: Result<
        Outcome,
        BoardError,
    >)
        requires
            old(self).wf(),
        ensures
            final(self).wf(),
            final(self).board_view().edge() == old(self).board_view().edge(),
            final(self).board_view().fixed_map() == old(self).board_view().fixed_map(),
            (match r {
                Err(e) => e == BoardError::OutOfRange
                    && !old(self).board_view().in_range(row as int, col as int)
                    && final(self).board_view() == old(self).board_view(),
                Ok(Outcome::Ignored) => old(self).board_view().in_range(row as int, col as int)
                    && old(self).board_view().cell_fixed(row as int, col as int)
                    && final(self).board_view() == old(self).board_view(),
                Ok(Outcome::Updated { value }) => old(self).board_view().in_range(
                    row as int,
                    col as int,
                )
                    && !old(self).board_view().cell_fixed(row as int, col as int)
                    && final(self).board_view().grid() == cycle_at(
                        old(self).board_view().grid(),
                        old(self).board_view().fixed_map(),
                        old(self).board_view().index_of(row as int, col as int),
                    )
                    && value == next_value(old(self).board_view().cell(row as int, col as int))
                    && !final(self).board_view().full(),
                Ok(Outcome::Completed { value, verdict }) => old(self).board_view().in_range(
                    row as int,
                    col as int,
                )
                    && !old(self).board_view().cell_fixed(row as int, col as int)
                    && final(self).board_view().grid() == cycle_at(
                        old(self).board_view().grid(),
                        old(self).board_view().fixed_map(),
                        old(self).board_view().index_of(row as int, col as int),
                    )
                    && value == next_value(old(self).board_view().cell(row as int, col as int))
                    && final(self).board_view().full()
                    && (verdict == Verdict::Success <==> valid_of(
                        final(self).board_view().grid(),
                        final(self).board_view().edge(),
                    )),
            }),
    {
        let size = self.board.size();
        if row >= size || col >= size {
            return Err(BoardError::OutOfRange);
        }
        let kind = match self.board.kind(row, col) {
            Ok(k) => k,
            Err(e) => {
                // unreachable: the coordinate is in range
                assert(false);
                return Err(e);
            },
        };
        if kind == CellKind::Fixed {
            return Ok(Outcome::Ignored);
        }
        let value = match self.board.cycle(row, col) {
            Ok(v) => v,
            Err(e) => {
                // unreachable: the coordinate is in range
                assert(false);
                return Err(e);
            },
        };
        if self.board.is_full() {
            if rules_verdict(self.board.grid_cells(), size) {
                Ok(Outcome::Completed { value, verdict: Verdict::Success })
            } else {
                Ok(Outcome::Completed { value, verdict: Verdict::Continue })
            }
        } else {
            Ok(Outcome::Updated { value })
        }
    }
}

} // verus!
