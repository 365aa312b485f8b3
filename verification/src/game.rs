//! The game orchestrator: turn order, outcome evaluation after every move,
//! and the per-round turn cap. The human moves first; a round of 9 cells can
//! hold at most 5 human placements (the ceiling of 9 halved), so after the
//! 5th human turn no further AI turn is issued.

use vstd::prelude::*;

use crate::ai::{ai_move, Difficulty};
use crate::board::{apply_human_move, board_ok, new_board, CellOccupied, Field};
use crate::checks::{cats_game, eval_win, full_board, someone_has_won};

verus! {

/// How a finished round ended.
#[derive(Clone, Copy, PartialEq, Eq, Structural, Debug)]
pub enum GameOutcome {
    HumanWin,
    AIWin,
    Draw,
}

/// Whose action the orchestrator waits for, or the end of the round.
#[derive(Clone, Copy, PartialEq, Eq, Structural, Debug)]
pub enum GameState {
    AwaitingHumanMove,
    AwaitingAIMove,
    GameOver(GameOutcome),
}

/// The most human turns a round can hold: 9 cells, alternating moves, human
/// first.
pub const TURN_CAP: usize = 5;

/// The terminal state for a board whose evaluation found winner `w`.
pub open spec fn won_state(w: Field) -> GameState {
    if w == Field::Cross {
        GameState::GameOver(GameOutcome::HumanWin)
    } else {
        GameState::GameOver(GameOutcome::AIWin)
    }
}

/// The state the orchestrator takes after an accepted human move left the
/// board as `b` on human turn `turn`: a win ends the round at once, a full
/// board is a draw, and the AI is given a turn only below the turn cap.
pub open spec fn state_after_human(b: Seq<Field>, turn: int) -> GameState {
    if eval_win(b).0 {
        won_state(eval_win(b).1)
    } else if full_board(b) {
        GameState::GameOver(GameOutcome::Draw)
    } else if turn < TURN_CAP {
        GameState::AwaitingAIMove
    } else {
        GameState::GameOver(GameOutcome::Draw)
    }
}

/// The state the orchestrator takes after the AI's move left the board as
/// `b`.
pub open spec fn state_after_ai(b: Seq<Field>) -> GameState {
    if eval_win(b).0 {
        won_state(eval_win(b).1)
    } else if full_board(b) {
        GameState::GameOver(GameOutcome::Draw)
    } else {
        GameState::AwaitingHumanMove
    }
}

/// One round of the game: the board, the number of human turns taken, whose
/// action is awaited, and the round's difficulty.
pub struct Game {
    pub board: Vec<Field>,
    pub turn: usize,
    pub state: GameState,
    pub difficulty: Difficulty,
}

impl Game {
    /// The orchestrator's invariant: a 9-cell board, the turn count capped,
    /// a move only awaited while the cap is not reached, and an AI move only
    /// awaited on a board with room for it.
    pub open spec fn wf(self) -> bool {
        &&& board_ok(self.board@)
        &&& self.turn <= TURN_CAP
        &&& (self.state == GameState::AwaitingHumanMove ==> self.turn < TURN_CAP)
        &&& (self.state == GameState::AwaitingAIMove ==> self.turn < TURN_CAP && !full_board(
            self.board@,
        ))
    }

    /// A fresh round: an empty board, no turns taken, the human to move.
    pub fn new(difficulty: Difficulty) -> (g: Game)
        ensures
            g.wf(),
            g.state == GameState::AwaitingHumanMove,
            g.turn == 0,
            g.difficulty == difficulty,
            forall|i: int| 0 <= i < 9 ==> g.board@[i] == Field::Free,
    {
        Game { board: new_board(), turn: 0, state: GameState::AwaitingHumanMove, difficulty }
    }

    /// Accept or reject the human's move on cell `index`. A taken cell is
    /// rejected and nothing changes. An accepted move places a cross, counts
    /// the turn, and moves to `state_after_human`; in particular, once the
    /// cap of 5 human turns is reached no AI turn is awaited any more.
    pub fn human_move(&mut self, index: usize) -> (r: Result<(), CellOccupied>)
        requires
            old(self).wf(),
            old(self).state == GameState::AwaitingHumanMove,
            index < 9,
        ensures
            final(self).wf(),
            r is Ok <==> old(self).board@[index as int] == Field::Free,
            r is Err ==> final(self).board@ == old(self).board@ && final(self).turn == old(
                self,
            ).turn && final(self).state == old(self).state && final(self).difficulty == old(
                self,
            ).difficulty,
            r is Ok ==> {
                let b = old(self).board@.update(index as int, Field::Cross);
                &&& final(self).board@ == b
                &&& final(self).turn == old(self).turn + 1
                &&& final(self).difficulty == old(self).difficulty
                &&& final(self).state == state_after_human(b, old(self).turn + 1)
            },
            final(self).state == GameState::AwaitingAIMove ==> final(self).turn < TURN_CAP,
    {
        if let Err(e) = apply_human_move(&mut self.board, index) {
            return Err(e);
        }
        self.turn = self.turn + 1;
        let results = someone_has_won(&self.board);
        if results.0 {
            self.state = if results.1 == Field::Cross {
                GameState::GameOver(GameOutcome::HumanWin)
            } else {
                GameState::GameOver(GameOutcome::AIWin)
            };
        } else if cats_game(&self.board) {
            self.state = GameState::GameOver(GameOutcome::Draw);
        } else if self.turn < TURN_CAP {
            self.state = GameState::AwaitingAIMove;
        } else {
            // The cap is reached with the board not yet full: the round ends
            // without a winner, as a draw.
            self.state = GameState::GameOver(GameOutcome::Draw);
        }
        Ok(())
    }

    /// Let the AI take its turn: it places a circle on a free cell and the
    /// round moves to `state_after_ai`. The chosen cell is returned for the
    /// caller to render.
    pub fn ai_turn(&mut self) -> (r: usize)
        requires
            old(self).wf(),
            old(self).state == GameState::AwaitingAIMove,
        ensures
            final(self).wf(),
            r < 9,
            old(self).board@[r as int] == Field::Free,
            final(self).board@ == old(self).board@.update(r as int, Field::Circle),
            final(self).turn == old(self).turn,
            final(self).difficulty == old(self).difficulty,
            final(self).state == state_after_ai(final(self).board@),
    {
        let num = ai_move(&mut self.board, self.difficulty);
        let results = someone_has_won(&self.board);
        if results.0 {
            self.state = if results.1 == Field::Cross {
                GameState::GameOver(GameOutcome::HumanWin)
            } else {
                GameState::GameOver(GameOutcome::AIWin)
            };
        } else if cats_game(&self.board) {
            self.state = GameState::GameOver(GameOutcome::Draw);
        } else {
            self.state = GameState::AwaitingHumanMove;
        }
        num
    }

    /// The outcome of a finished round, when the round is finished.
    pub fn outcome(&self) -> (r: Option<GameOutcome>)
        ensures
            match r {
                Some(o) => self.state == GameState::GameOver(o),
                None => !(self.state is GameOver),
            },
    {
        match self.state {
            GameState::GameOver(o) => Some(o),
            _ => None,
        }
    }
}

} // verus!
