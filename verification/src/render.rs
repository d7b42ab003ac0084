//! The board as text: whose turn it is, then eight ranks between two lines
//! of file letters.

use vstd::prelude::*;
use vstd::string::StringExecFns;
use crate::board::ChessBoard;
use crate::piece::{Color, Piece, PieceType};
use crate::position::row_to_display;

verus! {

/// The character shown in a cell: the letter of its piece, or a blank.
pub open spec fn cell_glyph(cell: Option<Piece>) -> char {
    match cell {
        Some(p) => p.glyph(),
        None => ' ',
    }
}

/// The digit that labels a row: `8` for row 0, down to `1` for row 7.
pub open spec fn rank_digit(row: int) -> char {
    ('0' as int + 8 - row) as char
}

/// The first `n` cells of a row, each between square brackets.
pub open spec fn row_cells(cells: Seq<Option<Piece>>, row: int, n: int) -> Seq<char>
    decreases n,
{
    if n <= 0 {
        Seq::empty()
    } else {
        row_cells(cells, row, n - 1) + seq!['[', cell_glyph(cells[row * 8 + n - 1]), ']']
    }
}

/// One line of the grid: the rank digit, the eight cells, and the rank
/// digit again.
pub open spec fn row_line(cells: Seq<Option<Piece>>, row: int) -> Seq<char> {
    seq![rank_digit(row), ' '] + row_cells(cells, row, 8) + seq![' ', rank_digit(row), '\n']
}

/// The lines of the first `n` rows.
pub open spec fn row_lines(cells: Seq<Option<Piece>>, n: int) -> Seq<char>
    decreases n,
{
    if n <= 0 {
        Seq::empty()
    } else {
        row_lines(cells, n - 1) + row_line(cells, n - 1)
    }
}

/// The line that says whose turn it is.
pub open spec fn turn_line(turn: Color) -> Seq<char> {
    match turn {
        Color::White => "White's turn\n"@,
        Color::Black => "Black's turn\n"@,
    }
}

/// The line of file letters above and below the grid.
pub open spec fn files_line() -> Seq<char> {
    "   a  b  c  d  e  f  g  h\n"@
}

/// The whole picture of a board.
pub open spec fn board_text(turn: Color, cells: Seq<Option<Piece>>) -> Seq<char> {
    turn_line(turn) + files_line() + row_lines(cells, 8) + files_line()
}

fn glyph_text(cell: Option<Piece>) -> (s: &'static str)
    ensures
        s@ == seq![cell_glyph(cell)],
{
    proof {
        reveal_strlit(" ");
        reveal_strlit("P");
        reveal_strlit("B");
        reveal_strlit("N");
        reveal_strlit("R");
        reveal_strlit("Q");
        reveal_strlit("K");
        reveal_strlit("p");
        reveal_strlit("b");
        reveal_strlit("n");
        reveal_strlit("r");
        reveal_strlit("q");
        reveal_strlit("k");
    }
    let s = match cell {
        None => " ",
        Some(p) => match p.color {
            Color::White => match p.kind {
                PieceType::Pawn => "P",
                PieceType::Bishop => "B",
                PieceType::Knight => "N",
                PieceType::Rook => "R",
                PieceType::Queen => "Q",
                PieceType::King => "K",
            },
            Color::Black => match p.kind {
                PieceType::Pawn => "p",
                PieceType::Bishop => "b",
                PieceType::Knight => "n",
                PieceType::Rook => "r",
                PieceType::Queen => "q",
                PieceType::King => "k",
            },
        },
    };
    assert(s@ =~= seq![cell_glyph(cell)]);
    s
}

fn rank_text(row: u8) -> (s: &'static str)
    requires
        row < 8,
    ensures
        s@ == seq![rank_digit(row as int)],
{
    proof {
        reveal_strlit("1");
        reveal_strlit("2");
        reveal_strlit("3");
        reveal_strlit("4");
        reveal_strlit("5");
        reveal_strlit("6");
        reveal_strlit("7");
        reveal_strlit("8");
    }
    let rank = row_to_display(row);
    let s = if rank == 1 {
        "1"
    } else if rank == 2 {
        "2"
    } else if rank == 3 {
        "3"
    } else if rank == 4 {
        "4"
    } else if rank == 5 {
        "5"
    } else if rank == 6 {
        "6"
    } else if rank == 7 {
        "7"
    } else {
        "8"
    };
    assert(s@ =~= seq![rank_digit(row as int)]);
    s
}

fn append_row(out: &mut String, board: &ChessBoard, row: u8)
    requires
        row < 8,
    ensures
        final(out)@ == old(out)@ + row_line(board.cells(), row as int),
{
    let rank = rank_text(row);
    proof {
        reveal_strlit(" ");
        reveal_strlit("\n");
    }
    out.append(rank);
    out.append(" ");
    assert(out@ =~= old(out)@ + seq![rank_digit(row as int), ' '] + row_cells(
        board.cells(),
        row as int,
        0,
    ));
    let mut col: usize = 0;
    while col < 8
        invariant
            col <= 8,
            row < 8,
            out@ == old(out)@ + seq![rank_digit(row as int), ' '] + row_cells(
                board.cells(),
                row as int,
                col as int,
            ),
        decreases 8 - col,
    {
        let ghost before = out@;
        let glyph = glyph_text(board.pieces[row as usize * 8 + col]);
        out.append("[");
        out.append(glyph);
        out.append("]");
        proof {
            reveal_strlit("[");
            reveal_strlit("]");
            assert(out@ =~= before + seq![
                '[',
                cell_glyph(board.cells()[row as int * 8 + col as int]),
                ']',
            ]);
            assert(out@ =~= old(out)@ + seq![rank_digit(row as int), ' '] + row_cells(
                board.cells(),
                row as int,
                col as int + 1,
            ));
        }
        col += 1;
    }
    out.append(" ");
    out.append(rank);
    out.append("\n");
    assert(out@ =~= old(out)@ + row_line(board.cells(), row as int));
}

impl ChessBoard {
    /// Draws the board. Nothing of the board changes.
    pub fn render(&self) -> (text: String)
        ensures
            text@ == board_text(self.turn, self.cells()),
    {
        let mut out = String::new();
        match self.turn {
            Color::White => out.append("White's turn\n"),
            Color::Black => out.append("Black's turn\n"),
        }
        out.append("   a  b  c  d  e  f  g  h\n");
        assert(out@ =~= turn_line(self.turn) + files_line() + row_lines(self.cells(), 0));
        let mut row: u8 = 0;
        while row < 8
            invariant
                row <= 8,
                out@ == turn_line(self.turn) + files_line() + row_lines(self.cells(), row as int),
            decreases 8 - row,
        {
            append_row(&mut out, self, row);
            assert(out@ =~= turn_line(self.turn) + files_line() + row_lines(
                self.cells(),
                row as int + 1,
            ));
            row += 1;
        }
        out.append("   a  b  c  d  e  f  g  h\n");
        out
    }
}

} // verus!
