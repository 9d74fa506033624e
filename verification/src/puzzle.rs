//! The external rule-checker collaborator.
//!
//! The core treats the puzzle rules as an opaque predicate of the binoxxo
//! crate: the one call stands behind a trusted wrapper over plain values,
//! and everything around it is verified.
//!
//! Puzzle generation is the session host's affair: binoxxo's brute-force
//! generator reserves the right to give up by panicking when its
//! randomized search finds no board, and exports no fallible entry, so
//! the session boundary calls it and surfaces that failure. The library
//! then builds and verifies the board from whatever arrangement came
//! back (`Board::new` derives each cell's kind from it).

use vstd::prelude::*;
use crate::board::{all_filled, Field};

verus! {

/// The rule checker's verdict on a grid: whether a full arrangement
/// satisfies the puzzle rules (row/column balance, no three in a row,
/// uniqueness). A pure function of the grid contents and edge length;
/// the core never interprets it.
pub uninterp spec fn valid_of(cells: Seq<Field>, size: int) -> bool;

/// Relies on binoxxo::rules::is_board_valid: its verdict is a pure
/// function of the board's fields, so equal grids get equal verdicts.
/// A binoxxo board is rebuilt cell by cell for the call. Such boards
/// exist only for even edge lengths of at least two, and the checker
/// folds each row and column into a 64-bit signature with one doubling
/// per cell, so lines longer than sixty-two cells overflow it; hence
/// the bounds.
#[verifier::external_body]
pub(crate) fn rules_verdict(cells: &Vec<Field>, size: usize) -> (r: bool)
    requires
        cells@.len() == size * size,
        all_filled(cells@),
        size >= 2,
        size % 2 == 0,
        size <= 62,
    ensures
        r == valid_of(cells@, size as int),
{
    let mut b = binoxxo::field::Board::new(size);
    let mut fields = cells.iter();
    for x in 0..size {
        for y in 0..size {
            match fields.next() {
                Some(Field::X) => b.set(x, y, binoxxo::field::Field::X),
                Some(Field::O) => b.set(x, y, binoxxo::field::Field::O),
                _ => {}
            }
        }
    }
    binoxxo::rules::is_board_valid(&b)
}

} // verus!
