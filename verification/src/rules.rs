//! The rules of movement: for each kind of piece, which moves its pattern
//! allows on a given grid.
//!
//! Every rule reads only the two squares of the move and the cells between
//! them. None looks at earlier moves, so castling and capture in passing
//! cannot be expressed, and none asks whether a king is attacked.

use vstd::prelude::*;
use crate::board::ChessBoard;
use crate::moves::{dist, towards, Move};
use crate::piece::{Color, Piece, PieceType};

verus! {

/// Every square strictly between source and destination is empty.
pub open spec fn path_clear(cells: Seq<Option<Piece>>, m: Move) -> bool {
    forall|k: int| 0 < k < m.span() ==> cells[#[trigger] m.way_idx(k)] is None
}

/// The move stays in its row or in its column, and does leave its square.
pub open spec fn is_straight(m: Move) -> bool {
    (m.row_span() == 0) != (m.col_span() == 0)
}

/// The move crosses as many rows as columns, and at least one.
pub open spec fn is_diagonal(m: Move) -> bool {
    m.row_span() == m.col_span() && m.row_span() != 0
}

/// The row on which a side's pawns start.
pub open spec fn home_row(color: Color) -> int {
    match color {
        Color::White => 6,
        Color::Black => 1,
    }
}

/// How many rows the move advances towards the other side's back rank:
/// White advances to lower rows, Black to higher ones. Negative or zero for
/// a move that does not advance.
pub open spec fn advance(color: Color, m: Move) -> int {
    match color {
        Color::White => m.from.row - m.to.row,
        Color::Black => m.to.row - m.from.row,
    }
}

/// A rook moves along its row or its column over empty squares.
pub open spec fn rook_rule(cells: Seq<Option<Piece>>, m: Move) -> bool {
    is_straight(m) && path_clear(cells, m)
}

/// A bishop moves along a diagonal over empty squares.
pub open spec fn bishop_rule(cells: Seq<Option<Piece>>, m: Move) -> bool {
    is_diagonal(m) && path_clear(cells, m)
}

/// A queen moves as a rook or as a bishop.
pub open spec fn queen_rule(cells: Seq<Option<Piece>>, m: Move) -> bool {
    rook_rule(cells, m) || bishop_rule(cells, m)
}

/// A knight moves one square along one axis and two along the other,
/// whatever stands between.
pub open spec fn knight_rule(m: Move) -> bool {
    (m.row_span() == 1 && m.col_span() == 2) || (m.row_span() == 2 && m.col_span() == 1)
}

/// A king moves at most one square along each axis.
pub open spec fn king_rule(m: Move) -> bool {
    m.row_span() <= 1 && m.col_span() <= 1
}

/// A pawn advances one row, or up to two from its home row. In its own
/// column it needs every square on the way empty and the destination empty
/// as well: a pawn never captures straight ahead. Into a neighbouring column
/// it moves only one row forward and only onto a piece of the other side.
pub open spec fn pawn_rule(cells: Seq<Option<Piece>>, color: Color, m: Move) -> bool {
    &&& 1 <= advance(color, m) <= (if m.from.row == home_row(color) {
        2int
    } else {
        1int
    })
    &&& if m.from.col == m.to.col {
        path_clear(cells, m) && cells[m.to.idx()] is None
    } else {
        &&& advance(color, m) == 1
        &&& m.col_span() == 1
        &&& cells[m.to.idx()] is Some
        &&& cells[m.to.idx()]->Some_0.color != color
    }
}

/// The rule of movement of `piece`, applied to the move `m` on `cells`.
pub open spec fn legal_move(piece: Piece, m: Move, cells: Seq<Option<Piece>>) -> bool {
    match piece.kind {
        PieceType::Pawn => pawn_rule(cells, piece.color, m),
        PieceType::Bishop => bishop_rule(cells, m),
        PieceType::Knight => knight_rule(m),
        PieceType::Rook => rook_rule(cells, m),
        PieceType::Queen => queen_rule(cells, m),
        PieceType::King => king_rule(m),
    }
}

/// A bishop's move that crosses more rows than columns, or fewer, is never
/// allowed, whatever the cells hold.
pub proof fn lemma_bishop_needs_diagonal(piece: Piece, m: Move, cells: Seq<Option<Piece>>)
    requires
        piece.kind == PieceType::Bishop,
        m.row_span() != m.col_span(),
    ensures
        !legal_move(piece, m, cells),
{
}

/// The verdict on a move reads the grid only at the destination and at the
/// squares between: two grids that agree there give the same verdict for
/// every piece. So the same grid gives the same verdict however often it is
/// asked.
pub proof fn lemma_verdict_reads_the_way_only(
    piece: Piece,
    m: Move,
    cells: Seq<Option<Piece>>,
    others: Seq<Option<Piece>>,
)
    requires
        cells[m.to.idx()] == others[m.to.idx()],
        forall|k: int| 0 < k < m.span() ==> cells[#[trigger] m.way_idx(k)] == others[m.way_idx(k)],
    ensures
        legal_move(piece, m, cells) == legal_move(piece, m, others),
{
    assert(path_clear(cells, m) == path_clear(others, m));
}

fn distance(a: u8, b: u8) -> (d: u8)
    ensures
        d == dist(a as int, b as int),
{
    if a >= b {
        a - b
    } else {
        b - a
    }
}

fn step_towards(a: u8, b: u8, k: u8) -> (c: u8)
    requires
        a == b || k <= dist(a as int, b as int),
    ensures
        c == towards(a as int, b as int, k as int),
        a <= c <= b || b <= c <= a,
{
    if a < b {
        a + k
    } else if a > b {
        a - k
    } else {
        a
    }
}

/// Walks from the source towards the destination and looks at each square
/// strictly between them.
fn path_is_clear(board: &ChessBoard, mve: &Move) -> (clear: bool)
    requires
        mve.wf(),
        mve.row_span() == 0 || mve.col_span() == 0 || mve.row_span() == mve.col_span(),
    ensures
        clear == path_clear(board.cells(), *mve),
{
    let rows = distance(mve.from.row, mve.to.row);
    let cols = distance(mve.from.col, mve.to.col);
    let span = if rows >= cols {
        rows
    } else {
        cols
    };
    let mut k: u8 = 1;
    while k < span
        invariant
            1 <= k,
            span == mve.span(),
            mve.wf(),
            mve.row_span() == 0 || mve.col_span() == 0 || mve.row_span() == mve.col_span(),
            forall|j: int| 0 < j < k ==> board.cells()[#[trigger] mve.way_idx(j)] is None,
        decreases span - k,
    {
        let row = step_towards(mve.from.row, mve.to.row, k);
        let col = step_towards(mve.from.col, mve.to.col, k);
        let i = row as usize * 8 + col as usize;
        assert(i == mve.way_idx(k as int));
        if board.pieces[i].is_some() {
            return false;
        }
        k += 1;
    }
    true
}

impl Piece {
    /// Decides whether this piece's rule of movement allows `mve` on
    /// `board`. Whose turn it is and whose piece stands on the destination
    /// are not this function's concern, but for a pawn's capture.
    ///
    /// A rook's move must leave its square: a move that stays put never
    /// passes the checks of ownership and occupancy that come first.
    pub fn is_move_valid(&self, mve: &Move, board: &ChessBoard) -> (legal: bool)
        requires
            mve.wf(),
            self.kind == PieceType::Rook ==> mve.from != mve.to,
        ensures
            legal == legal_move(*self, *mve, board.cells()),
    {
        let rows = distance(mve.from.row, mve.to.row);
        let cols = distance(mve.from.col, mve.to.col);
        match self.kind {
            PieceType::Pawn => {
                let (home_row, forward): (u8, bool) = match self.color {
                    Color::White => (6, mve.from.row > mve.to.row),
                    Color::Black => (1, mve.from.row < mve.to.row),
                };
                if !forward {
                    return false;
                }
                let max_len: u8 = if mve.from.row == home_row {
                    2
                } else {
                    1
                };
                if rows > max_len {
                    return false;
                }
                let attacked = board.pieces[mve.to.to_idx()];
                if mve.from.col != mve.to.col {
                    match attacked {
                        Some(target) => rows == 1 && cols == 1 && target.color != self.color,
                        None => false,
                    }
                } else {
                    attacked.is_none() && path_is_clear(board, mve)
                }
            },
            PieceType::Rook => {
                if rows != 0 && cols != 0 {
                    false
                } else {
                    path_is_clear(board, mve)
                }
            },
            PieceType::Bishop => {
                if rows != cols || rows == 0 {
                    false
                } else {
                    path_is_clear(board, mve)
                }
            },
            PieceType::Knight => (rows == 1 && cols == 2) || (rows == 2 && cols == 1),
            PieceType::Queen => {
                let straight = (rows == 0) != (cols == 0);
                let diagonal = rows == cols && rows != 0;
                if !(straight || diagonal) {
                    false
                } else {
                    path_is_clear(board, mve)
                }
            },
            PieceType::King => rows <= 1 && cols <= 1,
        }
    }
}

} // verus!
