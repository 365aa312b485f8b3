//! The AI move selector: a difficulty-gated choice between a uniformly
//! random free cell and a fixed heuristic (take the centre, complete a
//! near-win, extend an own cell, or fall back to a free cell).

use vstd::prelude::*;

use crate::board::{board_ok, Field};
use crate::checks::{check_for_diagonals, check_for_two, diag_scan_result, two_scan_result};
use crate::rng::{coin_flip, roll};

verus! {

/// How often the AI plays a random move instead of the heuristic: one game
/// in two on Easy, one in three on Challenge, one in twelve on Hard.
#[derive(Clone, Copy, PartialEq, Eq, Structural, Debug)]
pub enum Difficulty {
    Easy,
    Challenge,
    Hard,
}

/// The first free cell at or after `i`, scanning upward; 10 when none is
/// free.
pub open spec fn first_free_from(b: Seq<Field>, i: int) -> int
    decreases 9 - i,
{
    if !(0 <= i < 9) {
        10
    } else if b[i] == Field::Free {
        i
    } else {
        first_free_from(b, i + 1)
    }
}

/// The cell the adjacency rule picks next to an AI-held cell `s` other than
/// the centre: the cell below, above, right or left of `s`, the first of
/// these that exists and is free, else the first free cell anywhere.
pub open spec fn side_adjacent_choice(b: Seq<Field>, s: int) -> int {
    if s + 3 < 9 && b[s + 3] == Field::Free {
        s + 3
    } else if s >= 3 && b[s - 3] == Field::Free {
        s - 3
    } else if (s + 1) / 3 == s / 3 && s + 1 < 9 && b[s + 1] == Field::Free {
        s + 1
    } else if s >= 1 && (s - 1) / 3 == s / 3 && b[s - 1] == Field::Free {
        s - 1
    } else {
        first_free_from(b, 0)
    }
}

/// The cell the adjacency rule picks next to an AI-held cell `s`. Around the
/// centre the corners 2, 0, 6, 8 are preferred in that order.
pub open spec fn adjacent_choice(b: Seq<Field>, s: int) -> int {
    if s == 4 {
        if b[2] == Field::Free {
            2
        } else if b[0] == Field::Free {
            0
        } else if b[6] == Field::Free {
            6
        } else if b[8] == Field::Free {
            8
        } else {
            side_adjacent_choice(b, 4)
        }
    } else {
        side_adjacent_choice(b, s)
    }
}

/// The cell the adjacency rule picks for the AI-held cell `spot`. The
/// returned index is 10 when the whole board is taken; otherwise it is a
/// free cell. Around the centre the free corner earliest in the order
/// 2, 0, 6, 8 is taken.
pub fn get_available_adjacent(board: &Vec<Field>, spot: usize) -> (r: usize)
    requires
        board_ok(board@),
        spot < 9,
    ensures
        r as int == adjacent_choice(board@, spot as int),
        r < 9 ==> board@[r as int] == Field::Free,
        (exists|i: int| 0 <= i < 9 && board@[i] == Field::Free) ==> r < 9,
{
    if spot == 4 {
        if board[2] == Field::Free {
            return 2;
        }
        if board[0] == Field::Free {
            return 0;
        }
        if board[6] == Field::Free {
            return 6;
        }
        if board[8] == Field::Free {
            return 8;
        }
    }
    if spot + 3 < 9 && board[spot + 3] == Field::Free {
        return spot + 3;
    }
    if spot >= 3 && board[spot - 3] == Field::Free {
        return spot - 3;
    }
    if (spot + 1) / 3 == spot / 3 && spot + 1 < 9 && board[spot + 1] == Field::Free {
        return spot + 1;
    }
    if spot >= 1 && (spot - 1) / 3 == spot / 3 && board[spot - 1] == Field::Free {
        return spot - 1;
    }
    let mut i: usize = 0;
    while i < 9
        invariant
            board@.len() == 9,
            i <= 9,
            adjacent_choice(board@, spot as int) == first_free_from(board@, i as int),
            forall|j: int| 0 <= j < i ==> board@[j] != Field::Free,
        decreases 9 - i,
    {
        if board[i] == Field::Free {
            return i;
        }
        i += 1;
    }
    10
}

/// The cell the extend-own-cell scan picks: walk the cells upward from `i`;
/// at the first AI-held cell whose adjacency rule finds a cell, take that
/// cell; otherwise the last free cell seen (`fallback` before the scan, 10
/// when none was seen).
pub open spec fn scan_choice_from(b: Seq<Field>, i: int, fallback: int) -> int
    decreases 9 - i,
{
    if !(0 <= i < 9) {
        fallback
    } else if b[i] == Field::Circle {
        if adjacent_choice(b, i) < 9 {
            adjacent_choice(b, i)
        } else {
            scan_choice_from(b, i + 1, fallback)
        }
    } else if b[i] == Field::Free {
        scan_choice_from(b, i + 1, i)
    } else {
        scan_choice_from(b, i + 1, fallback)
    }
}

/// The cell the deterministic heuristic picks: the centre when free, else
/// the free cell of the first row, column or diagonal with two taken cells,
/// else a cell adjacent to an AI-held cell, else the last free cell of the
/// scan.
pub open spec fn strategic_choice(b: Seq<Field>) -> int {
    if b[4] == Field::Free {
        4
    } else if two_scan_result(b, false).0 {
        two_scan_result(b, false).1
    } else if two_scan_result(b, true).0 {
        two_scan_result(b, true).1
    } else if diag_scan_result(b).0 {
        diag_scan_result(b).1
    } else {
        scan_choice_from(b, 0, 10)
    }
}

/// The deterministic branch of the AI: whenever the centre is free it is
/// taken, whatever the difficulty; the chosen cell is always free.
pub fn select_strategic(board: &Vec<Field>) -> (r: usize)
    requires
        board_ok(board@),
        exists|i: int| 0 <= i < 9 && board@[i] == Field::Free,
    ensures
        r as int == strategic_choice(board@),
        r < 9 && board@[r as int] == Field::Free,
        board@[4] == Field::Free ==> r == 4,
{
    if board[4] == Field::Free {
        return 4;
    }
    let two_in_rows = check_for_two(board, false);
    if two_in_rows.0 {
        return two_in_rows.1;
    }
    let two_in_cols = check_for_two(board, true);
    if two_in_cols.0 {
        return two_in_cols.1;
    }
    let two_in_diags = check_for_diagonals(board);
    if two_in_diags.0 {
        return two_in_diags.1;
    }
    let mut empty_spot: usize = 10;
    let mut i: usize = 0;
    while i < 9
        invariant
            board@.len() == 9,
            i <= 9,
            exists|j: int| 0 <= j < 9 && board@[j] == Field::Free,
            strategic_choice(board@) == scan_choice_from(board@, i as int, empty_spot as int),
            empty_spot == 10 || (empty_spot < 9 && board@[empty_spot as int] == Field::Free),
            (exists|j: int| 0 <= j < i && board@[j] == Field::Free) ==> empty_spot < 9,
        decreases 9 - i,
    {
        if board[i] == Field::Circle {
            let new_spot = get_available_adjacent(board, i);
            if new_spot < board.len() {
                return new_spot;
            }
        } else if board[i] != Field::Cross {
            empty_spot = i;
        }
        i += 1;
    }
    empty_spot
}

/// Number of free cells among `b[i..9]`.
pub open spec fn free_count_from(b: Seq<Field>, i: int) -> int
    decreases 9 - i,
{
    if !(0 <= i < 9) {
        0
    } else if b[i] == Field::Free {
        1 + free_count_from(b, i + 1)
    } else {
        free_count_from(b, i + 1)
    }
}

/// The index of free cell number `k` among `b[i..9]`, counting upward from
/// `i`; 10 when there are not that many free cells.
pub open spec fn nth_free_from(b: Seq<Field>, i: int, k: int) -> int
    decreases 9 - i,
{
    if !(0 <= i < 9) {
        10
    } else if b[i] == Field::Free && k == 0 {
        i
    } else if b[i] == Field::Free {
        nth_free_from(b, i + 1, k - 1)
    } else {
        nth_free_from(b, i + 1, k)
    }
}

/// Free cell number `k` exists and is free whenever `k` is below the free
/// count.
proof fn lemma_nth_free_in_range(b: Seq<Field>, i: int, k: int)
    requires
        0 <= i <= 9,
        0 <= k < free_count_from(b, i),
    ensures
        i <= nth_free_from(b, i, k) < 9 && b[nth_free_from(b, i, k)] == Field::Free,
    decreases 9 - i,
{
    if i < 9 && !(b[i] == Field::Free && k == 0) {
        if b[i] == Field::Free {
            lemma_nth_free_in_range(b, i + 1, k - 1);
        } else {
            lemma_nth_free_in_range(b, i + 1, k);
        }
    }
}

/// The free count is never negative.
proof fn lemma_free_count_nonneg(b: Seq<Field>, i: int)
    requires
        0 <= i <= 9,
    ensures
        free_count_from(b, i) >= 0,
    decreases 9 - i,
{
    if i < 9 {
        lemma_free_count_nonneg(b, i + 1);
    }
}

/// A free cell somewhere on the board makes the free count positive.
proof fn lemma_free_cell_counts(b: Seq<Field>, i: int, j: int)
    requires
        0 <= i <= j < 9,
        b[j] == Field::Free,
    ensures
        free_count_from(b, i) >= 1,
    decreases j - i,
{
    if i < j {
        lemma_free_cell_counts(b, i + 1, j);
    } else {
        lemma_free_count_nonneg(b, j + 1);
    }
}

/// Count the board's free cells.
pub fn count_free(board: &Vec<Field>) -> (n: usize)
    requires
        board_ok(board@),
    ensures
        n as int == free_count_from(board@, 0),
        n <= 9,
{
    let mut n: usize = 0;
    let mut i: usize = 0;
    while i < 9
        invariant
            board@.len() == 9,
            i <= 9,
            n <= i,
            free_count_from(board@, 0) == n + free_count_from(board@, i as int),
        decreases 9 - i,
    {
        if board[i] == Field::Free {
            n += 1;
        }
        i += 1;
    }
    n
}

/// Take free cell number `k`, counting the board's free cells upward from
/// cell 0.
pub fn pick_nth_free(board: &Vec<Field>, k: usize) -> (r: usize)
    requires
        board_ok(board@),
        k < free_count_from(board@, 0),
    ensures
        r as int == nth_free_from(board@, 0, k as int),
        r < 9 && board@[r as int] == Field::Free,
{
    proof {
        lemma_nth_free_in_range(board@, 0, k as int);
    }
    let mut remaining = k;
    let mut i: usize = 0;
    while i < 9
        invariant
            board@.len() == 9,
            i <= 9,
            remaining <= k,
            remaining < free_count_from(board@, i as int),
            nth_free_from(board@, 0, k as int) == nth_free_from(
                board@,
                i as int,
                remaining as int,
            ),
        decreases 9 - i,
    {
        if board[i] == Field::Free {
            if remaining == 0 {
                return i;
            }
            remaining -= 1;
        }
        i += 1;
    }
    // The free count of the empty tail is 0, so the loop cannot run out.
    proof {
        assert(false);
    }
    0
}

/// A uniformly random free cell: a uniform draw below the free count names
/// which free cell, in cell order, is taken.
fn pick_random_free(board: &Vec<Field>) -> (r: usize)
    requires
        board_ok(board@),
        exists|i: int| 0 <= i < 9 && board@[i] == Field::Free,
    ensures
        r < 9 && board@[r as int] == Field::Free,
{
    proof {
        let j = choose|j: int| 0 <= j < 9 && board@[j] == Field::Free;
        lemma_free_cell_counts(board@, 0, j);
    }
    let n = count_free(board);
    let k = roll(0, (n - 1) as u32);
    pick_nth_free(board, k as usize)
}

/// Select the AI's move. With the difficulty's probability (one in two on
/// Easy, one in three on Challenge, one in twelve on Hard) the move is a
/// uniformly random free cell; otherwise it is the strategic choice. The
/// returned cell is always free on every board that still has a free cell.
pub fn select_ai_move(board: &Vec<Field>, difficulty: Difficulty) -> (r: usize)
    requires
        board_ok(board@),
        exists|i: int| 0 <= i < 9 && board@[i] == Field::Free,
    ensures
        r < 9 && board@[r as int] == Field::Free,
{
    let random: bool = match difficulty {
        Difficulty::Easy => coin_flip(),
        Difficulty::Challenge => roll(1, 3) > 2,
        Difficulty::Hard => roll(1, 12) == 12,
    };
    if random {
        pick_random_free(board)
    } else {
        select_strategic(board)
    }
}

/// Select the AI's move and place its circle there; the caller renders the
/// returned cell.
pub fn ai_move(board: &mut Vec<Field>, difficulty: Difficulty) -> (r: usize)
    requires
        board_ok(old(board)@),
        exists|i: int| 0 <= i < 9 && old(board)@[i] == Field::Free,
    ensures
        r < 9,
        old(board)@[r as int] == Field::Free,
        final(board)@ == old(board)@.update(r as int, Field::Circle),
{
    let num = select_ai_move(board, difficulty);
    board[num] = Field::Circle;
    num
}

} // verus!
