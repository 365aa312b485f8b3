//! The outcome detector: win detection over the 8 lines of the grid, draw
//! detection, and near-win detection (a line with two taken cells and one
//! free cell), which the AI uses to complete its own threats.

use vstd::prelude::*;

use crate::board::Field;

verus! {

/// Index of cell `j` of line `k`, in the fixed evaluation order: lines 0..3
/// are the rows, 3..6 the columns, 6 the diagonal {0,4,8}, 7 the diagonal
/// {2,4,6}.
pub open spec fn line_cell(k: int, j: int) -> int {
    if k < 3 {
        3 * k + j
    } else if k < 6 {
        (k - 3) + 3 * j
    } else if k == 6 {
        4 * j
    } else {
        2 + 2 * j
    }
}

/// Cell `i` lies on line `k`.
pub open spec fn on_line(k: int, i: int) -> bool {
    i == line_cell(k, 0) || i == line_cell(k, 1) || i == line_cell(k, 2)
}

/// One player holds all three cells of line `k`.
pub open spec fn line_won(b: Seq<Field>, k: int) -> bool {
    &&& b[line_cell(k, 0)] != Field::Free
    &&& b[line_cell(k, 0)] == b[line_cell(k, 1)]
    &&& b[line_cell(k, 1)] == b[line_cell(k, 2)]
}

/// Result of scanning lines `k`..8 in the fixed order for the first won
/// line: `(true, winner)` at the first hit, `(false, Free)` when none is won.
pub open spec fn eval_win_from(b: Seq<Field>, k: int) -> (bool, Field)
    decreases 8 - k,
{
    if !(0 <= k < 8) {
        (false, Field::Free)
    } else if line_won(b, k) {
        (true, b[line_cell(k, 0)])
    } else {
        eval_win_from(b, k + 1)
    }
}

/// What win detection reports on `b`: the winner of the first won line in
/// the fixed order, or `(false, Free)` when no line is won.
pub open spec fn eval_win(b: Seq<Field>) -> (bool, Field) {
    eval_win_from(b, 0)
}

/// Every cell of the board is taken.
pub open spec fn full_board(b: Seq<Field>) -> bool {
    forall|i: int| 0 <= i < 9 ==> b[i] != Field::Free
}

/// Scanning from line `k` skips lines that are not won.
proof fn lemma_eval_win_skip_to(b: Seq<Field>, k: int)
    requires
        0 <= k <= 8,
        forall|k2: int| 0 <= k2 < k ==> !line_won(b, k2),
    ensures
        eval_win(b) == eval_win_from(b, k),
    decreases k,
{
    if k > 0 {
        lemma_eval_win_skip_to(b, k - 1);
    }
}

/// The scan from line `k` finds a winner exactly when some line at or after
/// `k` is won.
proof fn lemma_eval_win_from_found(b: Seq<Field>, k: int)
    requires
        0 <= k <= 8,
    ensures
        eval_win_from(b, k).0 <==> exists|k2: int| k <= k2 < 8 && line_won(b, k2),
        !eval_win_from(b, k).0 ==> eval_win_from(b, k) == (false, Field::Free),
    decreases 8 - k,
{
    if k < 8 {
        lemma_eval_win_from_found(b, k + 1);
        if line_won(b, k) {
            assert(k <= k < 8 && line_won(b, k));
        }
    }
}

/// A board that holds one full line of a single player, every other cell
/// free, is evaluated as a win for that player, whichever of the 8 lines it
/// is and whichever player holds it.
pub proof fn lemma_single_full_line_wins(b: Seq<Field>, k: int, p: Field)
    requires
        b.len() == 9,
        0 <= k < 8,
        p != Field::Free,
        forall|i: int| 0 <= i < 9 ==> b[i] == (if on_line(k, i) {
            p
        } else {
            Field::Free
        }),
    ensures
        eval_win(b) == (true, p),
{
    assert forall|k2: int| 0 <= k2 < 8 && k2 != k implies !line_won(b, k2) by {
        // Two distinct lines never share all three cells, so line k2 has a
        // cell off line k, and that cell is free.
        assert(!on_line(k, line_cell(k2, 0)) || !on_line(k, line_cell(k2, 1)) || !on_line(
            k,
            line_cell(k2, 2),
        ));
    }
    assert(line_won(b, k));
    lemma_eval_win_skip_to(b, k);
}

/// A board on which no line is fully held by one player, and which still has
/// a free cell, is evaluated as no winner at all.
pub proof fn lemma_no_won_line_no_winner(b: Seq<Field>)
    requires
        b.len() == 9,
        forall|k: int| 0 <= k < 8 ==> !line_won(b, k),
        exists|i: int| 0 <= i < 9 && b[i] == Field::Free,
    ensures
        eval_win(b) == (false, Field::Free),
{
    lemma_eval_win_skip_to(b, 8);
}

/// Check one line for three equal marks of one player: the line's cells are
/// `index`, `index + step_size` and `index + 2 * step_size`.
pub fn check_for_three(board: &Vec<Field>, index: usize, step_size: usize) -> (r: (bool, Field))
    requires
        index + 2 * step_size < board.len(),
    ensures
        r.0 <==> (board@[index as int] != Field::Free
            && board@[index as int] == board@[index + step_size]
            && board@[index + step_size] == board@[index + 2 * step_size]),
        r.0 ==> r.1 == board@[index as int],
        !r.0 ==> r.1 == Field::Free,
{
    if board[index] == board[index + 2 * step_size] && board[index + step_size] == board[index
        + 2 * step_size] {
        match board[index] {
            Field::Cross => (true, Field::Cross),
            Field::Circle => (true, Field::Circle),
            Field::Free => (false, Field::Free),
        }
    } else {
        (false, Field::Free)
    }
}

/// Report whether one player has won, and who: the 8 lines are checked in
/// the fixed order (rows, columns, diagonal {0,4,8}, diagonal {2,4,6}) and
/// the first fully held line decides.
pub fn someone_has_won(board: &Vec<Field>) -> (r: (bool, Field))
    requires
        board@.len() == 9,
    ensures
        r == eval_win(board@),
        r.0 <==> exists|k: int| 0 <= k < 8 && line_won(board@, k),
        !r.0 ==> r.1 == Field::Free,
{
    let ghost b = board@;
    proof {
        lemma_eval_win_from_found(b, 0);
    }
    let r0 = check_for_three(board, 0, 1);
    if r0.0 {
        proof {
            assert(line_won(b, 0));
        }
        return r0;
    }
    let r1 = check_for_three(board, 3, 1);
    if r1.0 {
        proof {
            lemma_eval_win_skip_to(b, 1);
        }
        return r1;
    }
    let r2 = check_for_three(board, 6, 1);
    if r2.0 {
        proof {
            lemma_eval_win_skip_to(b, 2);
        }
        return r2;
    }
    let r3 = check_for_three(board, 0, 3);
    if r3.0 {
        proof {
            lemma_eval_win_skip_to(b, 3);
        }
        return r3;
    }
    let r4 = check_for_three(board, 1, 3);
    if r4.0 {
        proof {
            lemma_eval_win_skip_to(b, 4);
        }
        return r4;
    }
    let r5 = check_for_three(board, 2, 3);
    if r5.0 {
        proof {
            lemma_eval_win_skip_to(b, 5);
        }
        return r5;
    }
    let r6 = check_for_three(board, 0, 4);
    if r6.0 {
        proof {
            lemma_eval_win_skip_to(b, 6);
        }
        return r6;
    }
    let r7 = check_for_three(board, 2, 2);
    if r7.0 {
        proof {
            lemma_eval_win_skip_to(b, 7);
        }
        return r7;
    }
    proof {
        lemma_eval_win_skip_to(b, 8);
    }
    (false, Field::Free)
}

/// Report a draw: true exactly when no cell is free. A full board can also
/// hold a win, so callers check `someone_has_won` first.
pub fn cats_game(board: &Vec<Field>) -> (r: bool)
    requires
        board@.len() == 9,
    ensures
        r <==> full_board(board@),
{
    let mut i: usize = 0;
    while i < 9
        invariant
            board@.len() == 9,
            i <= 9,
            forall|j: int| 0 <= j < i ==> board@[j] != Field::Free,
        decreases 9 - i,
    {
        if board[i] == Field::Free {
            return false;
        }
        i += 1;
    }
    true
}

/// Index of cell `j` of scan line `i`: the three columns when `col` is
/// true, the three rows otherwise.
pub open spec fn scan_cell(col: bool, i: int, j: int) -> int {
    if col {
        i + 3 * j
    } else {
        3 * i + j
    }
}

/// Scan line `i` has exactly one free cell (the other two are taken, by
/// either player).
pub open spec fn one_free_in_line(b: Seq<Field>, col: bool, i: int) -> bool {
    let f0 = b[scan_cell(col, i, 0)] == Field::Free;
    let f1 = b[scan_cell(col, i, 1)] == Field::Free;
    let f2 = b[scan_cell(col, i, 2)] == Field::Free;
    (f0 && !f1 && !f2) || (!f0 && f1 && !f2) || (!f0 && !f1 && f2)
}

/// The free cell of scan line `i`, when it has exactly one.
pub open spec fn free_slot_in_line(b: Seq<Field>, col: bool, i: int) -> int {
    if b[scan_cell(col, i, 0)] == Field::Free {
        scan_cell(col, i, 0)
    } else if b[scan_cell(col, i, 1)] == Field::Free {
        scan_cell(col, i, 1)
    } else {
        scan_cell(col, i, 2)
    }
}

/// What the row/column near-win scan reports: the free cell of the first
/// scan line with exactly one free cell, or `(false, 0)` when there is none.
pub open spec fn two_scan_result(b: Seq<Field>, col: bool) -> (bool, int) {
    if one_free_in_line(b, col, 0) {
        (true, free_slot_in_line(b, col, 0))
    } else if one_free_in_line(b, col, 1) {
        (true, free_slot_in_line(b, col, 1))
    } else if one_free_in_line(b, col, 2) {
        (true, free_slot_in_line(b, col, 2))
    } else {
        (false, 0)
    }
}

/// Index of cell `j` of diagonal `d`: diagonal 0 is {2,4,6}, diagonal 1 is
/// {0,4,8}, in the order the scan checks them.
pub open spec fn diag_cell(d: int, j: int) -> int {
    if d == 0 {
        2 + 2 * j
    } else {
        4 * j
    }
}

/// Diagonal `d` has exactly one free cell.
pub open spec fn one_free_in_diag(b: Seq<Field>, d: int) -> bool {
    let f0 = b[diag_cell(d, 0)] == Field::Free;
    let f1 = b[diag_cell(d, 1)] == Field::Free;
    let f2 = b[diag_cell(d, 2)] == Field::Free;
    (f0 && !f1 && !f2) || (!f0 && f1 && !f2) || (!f0 && !f1 && f2)
}

/// The free cell of diagonal `d`, when it has exactly one.
pub open spec fn free_slot_in_diag(b: Seq<Field>, d: int) -> int {
    if b[diag_cell(d, 0)] == Field::Free {
        diag_cell(d, 0)
    } else if b[diag_cell(d, 1)] == Field::Free {
        diag_cell(d, 1)
    } else {
        diag_cell(d, 2)
    }
}

/// What the diagonal near-win scan reports: {2,4,6} is checked before
/// {0,4,8}.
pub open spec fn diag_scan_result(b: Seq<Field>) -> (bool, int) {
    if one_free_in_diag(b, 0) {
        (true, free_slot_in_diag(b, 0))
    } else if one_free_in_diag(b, 1) {
        (true, free_slot_in_diag(b, 1))
    } else {
        (false, 0)
    }
}

/// Scan the three rows (or, when `col` is set, the three columns) in index
/// order for a line with two taken cells and one free cell; report the free
/// cell of the first such line. Which player took the two cells, or whether
/// they even match, is not examined.
pub fn check_for_two(board: &Vec<Field>, col: bool) -> (r: (bool, usize))
    requires
        board@.len() == 9,
    ensures
        (r.0, r.1 as int) == two_scan_result(board@, col),
        r.0 <==> exists|i: int| 0 <= i < 3 && one_free_in_line(board@, col, i),
        r.0 ==> r.1 < 9 && board@[r.1 as int] == Field::Free,
{
    let ghost b = board@;
    let mut i: usize = 0;
    while i < 3
        invariant
            board@ == b,
            b.len() == 9,
            i <= 3,
            forall|i2: int| 0 <= i2 < i ==> !one_free_in_line(b, col, i2),
        decreases 3 - i,
    {
        let c0: usize = if col { i } else { 3 * i };
        let c1: usize = if col { i + 3 } else { 3 * i + 1 };
        let c2: usize = if col { i + 6 } else { 3 * i + 2 };
        let f0 = board[c0] == Field::Free;
        let f1 = board[c1] == Field::Free;
        let f2 = board[c2] == Field::Free;
        if f0 && !f1 && !f2 {
            return (true, c0);
        }
        if !f0 && f1 && !f2 {
            return (true, c1);
        }
        if !f0 && !f1 && f2 {
            return (true, c2);
        }
        i += 1;
    }
    (false, 0)
}

/// Scan the two diagonals, {2,4,6} first, for one with two taken cells and
/// one free cell; report the free cell of the first such diagonal.
pub fn check_for_diagonals(board: &Vec<Field>) -> (r: (bool, usize))
    requires
        board@.len() == 9,
    ensures
        (r.0, r.1 as int) == diag_scan_result(board@),
        r.0 <==> (one_free_in_diag(board@, 0) || one_free_in_diag(board@, 1)),
        r.0 ==> r.1 < 9 && board@[r.1 as int] == Field::Free,
{
    let mut d: usize = 0;
    while d < 2
        invariant
            board@.len() == 9,
            d <= 2,
            forall|d2: int| 0 <= d2 < d ==> !one_free_in_diag(board@, d2),
        decreases 2 - d,
    {
        let c0: usize = if d == 0 { 2 } else { 0 };
        let c1: usize = 4;
        let c2: usize = if d == 0 { 6 } else { 8 };
        let f0 = board[c0] == Field::Free;
        let f1 = board[c1] == Field::Free;
        let f2 = board[c2] == Field::Free;
        if f0 && !f1 && !f2 {
            return (true, c0);
        }
        if !f0 && f1 && !f2 {
            return (true, c1);
        }
        if !f0 && !f1 && f2 {
            return (true, c2);
        }
        d += 1;
    }
    (false, 0)
}

} // verus!
