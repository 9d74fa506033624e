use binoxxo_board::board::{Board, BoardError, CellKind, Field};
use binoxxo_board::controller::{verdict_message, Controller, Outcome, Verdict};

// A 6x6 arrangement that satisfies the binoxxo rules: each row and column
// holds three of each symbol, no symbol appears three times in a row, and
// all rows and all columns are distinct.
const VALID_6: &str = "\
    XXOXOO \
    XOXOXO \
    OXOXOX \
    OOXOXX \
    XOOXXO \
    OXXOOX";

fn parse_cells(s: &str) -> Vec<Field> {
    s.chars()
        .filter_map(|c| match c {
            'X' => Some(Field::X),
            'O' => Some(Field::O),
            '_' => Some(Field::Empty),
            _ => None,
        })
        .collect()
}

// Cells of the valid arrangement, with the cell at (row, col) made empty
// (and thereby guessable).
fn cells_with_hole(row: usize, col: usize) -> Vec<Field> {
    let mut cells = parse_cells(VALID_6);
    cells[row * 6 + col] = Field::Empty;
    cells
}

#[test]
fn scenario_single_empty_cell_completes_with_success() {
    // (0, 0) holds X in the valid arrangement; start with it empty.
    let b = Board::new(6, cells_with_hole(0, 0));
    let mut c = Controller::new(b);
    assert!(!c.board().is_full());
    let r = c.handle_interaction(0, 0);
    assert_eq!(
        r,
        Ok(Outcome::Completed { value: Field::X, verdict: Verdict::Success })
    );
    assert!(c.board().is_full());
}

#[test]
fn scenario_fixed_cell_interaction_is_ignored() {
    let b = Board::new(6, cells_with_hole(0, 0));
    let mut c = Controller::new(b);
    // (0, 1) was pre-filled with X, so it is fixed.
    for _ in 0..5 {
        assert_eq!(c.handle_interaction(0, 1), Ok(Outcome::Ignored));
        assert_eq!(c.board().get(0, 1), Ok(Field::X));
    }
    assert!(!c.board().is_full());
}

#[test]
fn scenario_revalidation_after_full_invalid() {
    // (0, 2) holds O in the valid arrangement; start with it empty.
    let b = Board::new(6, cells_with_hole(0, 2));
    let mut c = Controller::new(b);
    // First interaction fills the hole with X: full but invalid.
    let r1 = c.handle_interaction(0, 2);
    assert_eq!(
        r1,
        Ok(Outcome::Completed { value: Field::X, verdict: Verdict::Continue })
    );
    // Second interaction cycles it to O: full and now valid, and the
    // verdict is re-evaluated on this very interaction.
    let r2 = c.handle_interaction(0, 2);
    assert_eq!(
        r2,
        Ok(Outcome::Completed { value: Field::O, verdict: Verdict::Success })
    );
}

#[test]
fn full_board_turns_non_full_and_is_reevaluated() {
    let b = Board::new(6, cells_with_hole(0, 0));
    let mut c = Controller::new(b);
    // Empty -> X: full and valid.
    assert_eq!(
        c.handle_interaction(0, 0),
        Ok(Outcome::Completed { value: Field::X, verdict: Verdict::Success })
    );
    // X -> O: still full, no longer valid; the verdict is not cached.
    assert_eq!(
        c.handle_interaction(0, 0),
        Ok(Outcome::Completed { value: Field::O, verdict: Verdict::Continue })
    );
    // O -> Empty: the board drops back to non-full, so no verdict.
    assert_eq!(
        c.handle_interaction(0, 0),
        Ok(Outcome::Updated { value: Field::Empty })
    );
    assert!(!c.board().is_full());
}

#[test]
fn controller_rejects_out_of_range() {
    let b = Board::new(6, cells_with_hole(0, 0));
    let mut c = Controller::new(b);
    assert_eq!(c.handle_interaction(6, 0), Err(BoardError::OutOfRange));
    assert_eq!(c.handle_interaction(0, 6), Err(BoardError::OutOfRange));
    // The failed interaction changed nothing.
    assert_eq!(c.board().get(0, 0), Ok(Field::Empty));
}

#[test]
fn verdict_messages_are_fixed() {
    assert_eq!(verdict_message(Verdict::Success), "You have solved the puzzle.");
    assert_eq!(
        verdict_message(Verdict::Continue),
        "No, that is not right. Please continue solving."
    );
}

#[test]
fn generated_arrangement_builds_a_session_board() {
    // The same conversion the session boundary makes from the generator's
    // board to the library's arrangement.
    let generated = binoxxo::bruteforce::create_puzzle_board(6, 5);
    assert_eq!(generated.get_size(), 6);
    let mut cells = Vec::new();
    for row in 0..6 {
        for col in 0..6 {
            cells.push(match generated.get(col, row) {
                binoxxo::field::Field::X => Field::X,
                binoxxo::field::Field::O => Field::O,
                binoxxo::field::Field::Empty => Field::Empty,
            });
        }
    }
    let b = Board::new(6, cells);
    assert_eq!(b.size(), 6);
    let mut fixed_cells = 0;
    let mut guessable_cells = 0;
    for row in 0..6 {
        for col in 0..6 {
            let value = b.get(row, col).unwrap();
            let kind = b.kind(row, col).unwrap();
            // Pre-filled cells are fixed, empty cells guessable.
            assert_eq!(kind == CellKind::Fixed, value != Field::Empty);
            if kind == CellKind::Fixed {
                fixed_cells += 1;
            } else {
                guessable_cells += 1;
            }
        }
    }
    // The generator keeps its first move and carves out every forced
    // move, so both kinds occur.
    assert!(fixed_cells >= 1);
    assert!(guessable_cells >= 1);
}
