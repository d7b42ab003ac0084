//! A move as a pair of squares, its geometry, and its textual form.

use vstd::prelude::*;
use vstd::string::StrSliceExecFns;
use crate::board::ChessBoard;
use crate::position::{parse_pos, BoardPos};
use crate::rules::legal_move;

verus! {

/// A request to carry whatever stands on `from` over to `to`.
#[derive(Debug, Clone, Copy, PartialEq, Eq, Structural)]
pub struct Move {
    pub from: BoardPos,
    pub to: BoardPos,
}

/// The distance between two coordinates.
pub open spec fn dist(a: int, b: int) -> int {
    if a >= b {
        a - b
    } else {
        b - a
    }
}

/// The coordinate `k` steps from `a` in the direction of `b`.
pub open spec fn towards(a: int, b: int, k: int) -> int {
    if a < b {
        a + k
    } else if a > b {
        a - k
    } else {
        a
    }
}

/// The move that a text such as `e2e4` denotes: exactly four characters,
/// the name of the source square and then that of the destination.
pub open spec fn parse_move(s: Seq<char>) -> Option<Move> {
    if s.len() == 4 && parse_pos(s.subrange(0, 2)) is Some && parse_pos(s.subrange(2, 4)) is Some {
        Some(
            Move {
                from: parse_pos(s.subrange(0, 2))->Some_0,
                to: parse_pos(s.subrange(2, 4))->Some_0,
            },
        )
    } else {
        None
    }
}

impl Move {
    /// Both squares lie on the board.
    pub open spec fn wf(self) -> bool {
        self.from.wf() && self.to.wf()
    }

    /// How many rows the move crosses.
    pub open spec fn row_span(self) -> int {
        dist(self.from.row as int, self.to.row as int)
    }

    /// How many columns the move crosses.
    pub open spec fn col_span(self) -> int {
        dist(self.from.col as int, self.to.col as int)
    }

    /// The number of single steps from source to destination along a rank,
    /// a file or a diagonal.
    pub open spec fn span(self) -> int {
        if self.row_span() >= self.col_span() {
            self.row_span()
        } else {
            self.col_span()
        }
    }

    /// The linear index of the square `k` steps from the source towards the
    /// destination, each coordinate moving by one per step where it differs.
    pub open spec fn way_idx(self, k: int) -> int {
        towards(self.from.row as int, self.to.row as int, k) * 8 + towards(
            self.from.col as int,
            self.to.col as int,
            k,
        )
    }

    /// The move is accepted on `board`: both squares are on the board, the
    /// source holds a piece of the side to move, the destination holds none
    /// of that side, and the piece's own rule of movement allows it.
    pub open spec fn valid_on(self, board: ChessBoard) -> bool {
        &&& self.wf()
        &&& board.cells()[self.from.idx()] is Some
        &&& board.cells()[self.from.idx()]->Some_0.color == board.turn
        &&& !(board.cells()[self.to.idx()] is Some && board.cells()[self.to.idx()]->Some_0.color
            == board.turn)
        &&& legal_move(board.cells()[self.from.idx()]->Some_0, self, board.cells())
    }

    /// Reads a move from its four-character form.
    pub fn parse(string: &str) -> (r: Option<Move>)
        ensures
            r == parse_move(string@),
    {
        if string.unicode_len() != 4 {
            return None;
        }
        let from = BoardPos::parse(string.substring_char(0, 2));
        let to = BoardPos::parse(string.substring_char(2, 4));
        match (from, to) {
            (Some(from), Some(to)) => Some(Move { from, to }),
            _ => None,
        }
    }

    /// Decides whether the move is accepted on `board`. A move with a square
    /// off the board is rejected like any other illegal move.
    pub fn is_valid(&self, board: &ChessBoard) -> (valid: bool)
        ensures
            valid == self.valid_on(*board),
    {
        if self.from.row >= 8 || self.from.col >= 8 || self.to.row >= 8 || self.to.col >= 8 {
            return false;
        }
        let piece = match board.pieces[self.from.to_idx()] {
            Some(p) => p,
            None => {
                return false;
            },
        };
        if piece.color != board.turn {
            return false;
        }
        match board.pieces[self.to.to_idx()] {
            Some(q) => {
                if q.color == board.turn {
                    return false;
                }
            },
            None => {},
        }
        piece.is_move_valid(self, board)
    }
}

/// A move onto a square that holds a piece of the side to move is never
/// accepted, whatever kind of piece is to be moved.
pub proof fn lemma_own_piece_blocks(m: Move, board: ChessBoard)
    requires
        board.piece_at(m.to) is Some,
        board.piece_at(m.to)->Some_0.color == board.turn,
    ensures
        !m.valid_on(board),
{
}

/// An accepted move leaves its square: a move that stays put would land on
/// a piece of the side to move.
pub proof fn lemma_valid_move_displaces(m: Move, board: ChessBoard)
    requires
        m.valid_on(board),
    ensures
        m.from != m.to,
{
}

/// A text that denotes a move denotes one between squares of the board.
pub proof fn lemma_parsed_move_wf(s: Seq<char>)
    requires
        parse_move(s) is Some,
    ensures
        parse_move(s)->Some_0.wf(),
{
}

} // verus!
