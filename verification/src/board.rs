//! The board model: 9 cells in row-major order, each free or held by one
//! of the two players.

use vstd::prelude::*;

verus! {

/// The occupancy of one cell: the human plays `Cross`, the AI plays `Circle`.
#[derive(Clone, Copy, PartialEq, Eq, Structural, Debug)]
pub enum Field {
    Cross,
    Circle,
    Free,
}

/// An event a front-end hands to the game: a cell chosen by its index, or a
/// request to start a new round.
#[derive(Clone, Copy, Debug)]
pub enum Message {
    Number(usize),
    NewGame,
}

/// A move named a cell that is not free.
#[derive(Clone, Copy, PartialEq, Eq, Structural, Debug)]
pub struct CellOccupied;

/// A well-formed board holds exactly 9 cells.
pub open spec fn board_ok(b: Seq<Field>) -> bool {
    b.len() == 9
}

/// A fresh board with every cell free.
pub fn new_board() -> (b: Vec<Field>)
    ensures
        board_ok(b@),
        forall|i: int| 0 <= i < 9 ==> b@[i] == Field::Free,
{
    let mut b: Vec<Field> = Vec::new();
    let mut i: usize = 0;
    while i < 9
        invariant
            i <= 9,
            b@.len() == i,
            forall|j: int| 0 <= j < i ==> b@[j] == Field::Free,
        decreases 9 - i,
    {
        b.push(Field::Free);
        i += 1;
    }
    b
}

/// Place the human's cross on cell `index`; rejected, with the board left
/// unchanged, when the cell is already taken.
pub fn apply_human_move(board: &mut Vec<Field>, index: usize) -> (r: Result<(), CellOccupied>)
    requires
        board_ok(old(board)@),
        index < 9,
    ensures
        board_ok(final(board)@),
        r is Ok <==> old(board)@[index as int] == Field::Free,
        r is Ok ==> final(board)@ == old(board)@.update(index as int, Field::Cross),
        r is Err ==> final(board)@ == old(board)@,
{
    if board[index] == Field::Free {
        board[index] = Field::Cross;
        Ok(())
    } else {
        Err(CellOccupied)
    }
}

} // verus!
