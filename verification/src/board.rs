//! The occupancy grid, the side to move, and the starting position.

use vstd::prelude::*;
use vstd::string::StrSliceExecFns;
use crate::moves::Move;
use crate::piece::{Color, Piece, PieceType};
use crate::position::BoardPos;

verus! {

/// The state of a game: 64 cells in rows of eight, row 0 first, each empty
/// or holding one piece; the side that moves next; and the winner, which the
/// rules of movement never set.
#[derive(Debug)]
pub struct ChessBoard {
    pub pieces: [Option<Piece>; 64],
    pub turn: Color,
    pub winner: Option<Color>,
}

/// The kind that stands on a back rank in the given column at the start.
pub open spec fn back_rank_kind(col: int) -> PieceType {
    if col == 0 || col == 7 {
        PieceType::Rook
    } else if col == 1 || col == 6 {
        PieceType::Knight
    } else if col == 2 || col == 5 {
        PieceType::Bishop
    } else if col == 3 {
        PieceType::Queen
    } else {
        PieceType::King
    }
}

/// What the cell with linear index `i` holds at the start: Black's back rank
/// in row 0 and pawns in row 1, White's pawns in row 6 and back rank in row
/// 7, and nothing between.
pub open spec fn start_cell(i: int) -> Option<Piece> {
    let row = i / 8;
    let col = i % 8;
    if row == 0 {
        Some(Piece { color: Color::Black, kind: back_rank_kind(col) })
    } else if row == 1 {
        Some(Piece { color: Color::Black, kind: PieceType::Pawn })
    } else if row == 6 {
        Some(Piece { color: Color::White, kind: PieceType::Pawn })
    } else if row == 7 {
        Some(Piece { color: Color::White, kind: back_rank_kind(col) })
    } else {
        None
    }
}

/// The 64 cells of the starting position.
pub open spec fn start_cells() -> Seq<Option<Piece>> {
    Seq::new(64, |i: int| start_cell(i))
}

/// How many of the first `n` cells hold a piece.
pub open spec fn count_pieces(cells: Seq<Option<Piece>>, n: int) -> int
    decreases n,
{
    if n <= 0 {
        0
    } else {
        count_pieces(cells, n - 1) + if cells[n - 1] is Some {
            1int
        } else {
            0int
        }
    }
}

/// The cells after the piece on the source of `m` was carried to its
/// destination: the destination holds what the source held, whatever stood
/// there before, and the source is empty.
pub open spec fn carried(cells: Seq<Option<Piece>>, m: Move) -> Seq<Option<Piece>> {
    cells.update(m.to.idx(), cells[m.from.idx()]).update(m.from.idx(), None)
}

impl ChessBoard {
    /// The cells as a sequence of length 64.
    pub open spec fn cells(self) -> Seq<Option<Piece>> {
        self.pieces@
    }

    /// The piece on a square, if the square is on the board and occupied.
    pub open spec fn piece_at(self, pos: BoardPos) -> Option<Piece> {
        if pos.wf() {
            self.pieces@[pos.idx()]
        } else {
            None
        }
    }

    /// The number of pieces on the board.
    pub open spec fn piece_count(self) -> int {
        count_pieces(self.pieces@, 64)
    }

    /// The starting position, with White to move and no winner.
    pub fn new() -> (board: ChessBoard)
        ensures
            board.cells() == start_cells(),
            board.turn == Color::White,
            board.winner is None,
            board.piece_count() == 32,
    {
        let mut pieces: [Option<Piece>; 64] = [None;64];
        let mut col: usize = 0;
        while col < 8
            invariant
                col <= 8,
                forall|i: int|
                    0 <= i < 64 ==> #[trigger] pieces@[i] == if i % 8 < col {
                        start_cell(i)
                    } else {
                        None
                    },
            decreases 8 - col,
        {
            proof {
                reveal_strlit("rnbqkbnr");
            }
            let kind = Piece::from_char("rnbqkbnr".get_char(col)).unwrap().kind;
            assert(kind == back_rank_kind(col as int));
            pieces[col] = Some(Piece { color: Color::Black, kind });
            pieces[8 + col] = Some(Piece { color: Color::Black, kind: PieceType::Pawn });
            pieces[48 + col] = Some(Piece { color: Color::White, kind: PieceType::Pawn });
            pieces[56 + col] = Some(Piece { color: Color::White, kind });
            col += 1;
        }
        assert(pieces@ =~= start_cells());
        proof {
            lemma_start_count();
        }
        ChessBoard { pieces, turn: Color::White, winner: None }
    }

    /// Plays `mve` if it is accepted on this board, and says whether it was.
    ///
    /// An accepted move carries the piece over, which captures what stood on
    /// the destination, and hands the turn to the other side. A rejected
    /// move, one with a square off the board included, changes nothing.
    pub fn execute(&mut self, mve: &Move) -> (accepted: bool)
        ensures
            accepted == mve.valid_on(*old(self)),
            accepted ==> final(self).cells() == carried(old(self).cells(), *mve),
            accepted ==> final(self).turn == old(self).turn.other(),
            accepted ==> final(self).winner == old(self).winner,
            !accepted ==> *final(self) == *old(self),
            accepted && old(self).piece_at(mve.to) is Some ==> final(self).piece_count() == old(
                self,
            ).piece_count() - 1,
            !(accepted && old(self).piece_at(mve.to) is Some) ==> final(self).piece_count() == old(
                self,
            ).piece_count(),
    {
        if !mve.is_valid(self) {
            return false;
        }
        proof {
            lemma_count_carried(self.cells(), *mve);
        }
        let from_idx = mve.from.to_idx();
        let to_idx = mve.to.to_idx();
        let from_piece = self.pieces[from_idx];
        self.pieces[to_idx] = from_piece;
        self.pieces[from_idx] = None;
        self.turn =
        match self.turn {
            Color::White => Color::Black,
            Color::Black => Color::White,
        };
        true
    }
}

/// Writing `v` into cell `i` changes the number of pieces among the first
/// `n` cells by what `v` adds and what the cell held before, if the cell is
/// among them, and not at all otherwise.
pub proof fn lemma_count_update(cells: Seq<Option<Piece>>, i: int, v: Option<Piece>, n: int)
    requires
        0 <= i < cells.len(),
        0 <= n <= cells.len(),
    ensures
        count_pieces(cells.update(i, v), n) == count_pieces(cells, n) + if i < n {
            (if v is Some {
                1int
            } else {
                0int
            }) - (if cells[i] is Some {
                1int
            } else {
                0int
            })
        } else {
            0int
        },
    decreases n,
{
    if n > 0 {
        lemma_count_update(cells, i, v, n - 1);
    }
}

/// Eight cells of one row that are all occupied, or all empty, add eight
/// pieces, or none, to the count of the rows before them.
proof fn lemma_count_row(cells: Seq<Option<Piece>>, row: int, full: bool)
    requires
        0 <= row < 8,
        cells.len() == 64,
        forall|c: int| 0 <= c < 8 ==> (#[trigger] cells[row * 8 + c] is Some) == full,
    ensures
        count_pieces(cells, row * 8 + 8) == count_pieces(cells, row * 8) + if full {
            8int
        } else {
            0int
        },
{
    assert(cells[row * 8 + 0] is Some == full);
    assert(cells[row * 8 + 1] is Some == full);
    assert(cells[row * 8 + 2] is Some == full);
    assert(cells[row * 8 + 3] is Some == full);
    assert(cells[row * 8 + 4] is Some == full);
    assert(cells[row * 8 + 5] is Some == full);
    assert(cells[row * 8 + 6] is Some == full);
    assert(cells[row * 8 + 7] is Some == full);
    reveal_with_fuel(count_pieces, 9);
}

/// The starting position holds 32 pieces.
pub proof fn lemma_start_count()
    ensures
        count_pieces(start_cells(), 64) == 32,
{
    let cells = start_cells();
    lemma_count_row(cells, 0, true);
    lemma_count_row(cells, 1, true);
    lemma_count_row(cells, 2, false);
    lemma_count_row(cells, 3, false);
    lemma_count_row(cells, 4, false);
    lemma_count_row(cells, 5, false);
    lemma_count_row(cells, 6, true);
    lemma_count_row(cells, 7, true);
}

/// Carrying a piece from an occupied square to another square removes one
/// piece from the board if the destination was occupied, and none if it was
/// empty.
pub proof fn lemma_count_carried(cells: Seq<Option<Piece>>, m: Move)
    requires
        cells.len() == 64,
        m.wf(),
        m.from != m.to,
        cells[m.from.idx()] is Some,
    ensures
        count_pieces(carried(cells, m), 64) == count_pieces(cells, 64) - if cells[m.to.idx()] is Some {
            1int
        } else {
            0int
        },
{
    let lifted = cells.update(m.to.idx(), cells[m.from.idx()]);
    lemma_count_update(cells, m.to.idx(), cells[m.from.idx()], 64);
    lemma_count_update(lifted, m.from.idx(), None, 64);
}

} // verus!
