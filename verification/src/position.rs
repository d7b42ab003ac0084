//! Squares of the 8x8 grid, their linear indices and their textual names.

use vstd::prelude::*;
use vstd::string::StrSliceExecFns;

verus! {

/// A square of the board. Row 0 is Black's back rank, row 7 is White's;
/// column 0 is file `a`.
#[derive(Debug, Clone, Copy, PartialEq, Eq, Structural)]
pub struct BoardPos {
    pub row: u8,
    pub col: u8,
}

/// The square with linear index `i`.
pub open spec fn pos_of_idx(i: int) -> BoardPos {
    BoardPos { row: (i / 8) as u8, col: (i % 8) as u8 }
}

/// The number of the file that `c` names, counted from `a`.
pub open spec fn file_of(c: char) -> Option<u8> {
    if 'a' <= c <= 'h' {
        Some((c as int - 'a' as int) as u8)
    } else {
        None
    }
}

/// The row that the rank digit `c` names: rank 8 is row 0, rank 1 is row 7.
pub open spec fn row_of(c: char) -> Option<u8> {
    if '1' <= c <= '8' {
        Some(('8' as int - c as int) as u8)
    } else {
        None
    }
}

/// The square that a name such as `e2` denotes: exactly two characters, a
/// file letter and a rank digit. Every other text names no square.
pub open spec fn parse_pos(s: Seq<char>) -> Option<BoardPos> {
    if s.len() == 2 && file_of(s[0]) is Some && row_of(s[1]) is Some {
        Some(BoardPos { row: row_of(s[1])->Some_0, col: file_of(s[0])->Some_0 })
    } else {
        None
    }
}

/// The rank number under which a row is shown: row 0 is rank 8.
pub fn row_to_display(row: u8) -> (rank: u8)
    requires
        row <= 8,
    ensures
        rank == 8 - row,
{
    8 - row
}

fn file_of_char(c: char) -> (r: Option<u8>)
    ensures
        r == file_of(c),
{
    if 'a' <= c && c <= 'h' {
        Some(c as u8 - 'a' as u8)
    } else {
        None
    }
}

fn row_of_char(c: char) -> (r: Option<u8>)
    ensures
        r == row_of(c),
{
    if '1' <= c && c <= '8' {
        Some('8' as u8 - c as u8)
    } else {
        None
    }
}

impl BoardPos {
    /// Both coordinates lie on the board.
    pub open spec fn wf(self) -> bool {
        self.row < 8 && self.col < 8
    }

    /// The linear index of the square: rows of eight, row 0 first.
    pub open spec fn idx(self) -> int {
        self.col + self.row * 8
    }

    /// The linear index of the square. Defined for every pair of
    /// coordinates; below 64 exactly for the squares of the board's rows.
    pub fn to_idx(self) -> (i: usize)
        ensures
            i == self.idx(),
            self.wf() ==> i < 64,
    {
        self.col as usize + self.row as usize * 8
    }

    /// The square with the given linear index, or `None` for an index that
    /// is not on the board.
    pub fn from_idx(idx: usize) -> (r: Option<BoardPos>)
        ensures
            r == (if idx < 64 {
                Some(pos_of_idx(idx as int))
            } else {
                None
            }),
    {
        if idx >= 64 {
            return None;
        }
        Some(BoardPos { row: (idx / 8) as u8, col: (idx % 8) as u8 })
    }

    /// Reads a square's name.
    pub fn parse(string: &str) -> (r: Option<BoardPos>)
        ensures
            r == parse_pos(string@),
    {
        if string.unicode_len() != 2 {
            return None;
        }
        match (file_of_char(string.get_char(0)), row_of_char(string.get_char(1))) {
            (Some(col), Some(row)) => Some(BoardPos { row, col }),
            _ => None,
        }
    }
}

/// Taking the index of the square with index `i` gives `i` back, and that
/// square lies on the board.
pub proof fn lemma_idx_of_pos_of_idx(i: int)
    requires
        0 <= i < 64,
    ensures
        pos_of_idx(i).wf(),
        pos_of_idx(i).idx() == i,
{
}

/// A square of the board is found again from its index, which is below 64.
pub proof fn lemma_pos_of_idx_of_pos(p: BoardPos)
    requires
        p.wf(),
    ensures
        0 <= p.idx() < 64,
        pos_of_idx(p.idx()) == p,
{
}

/// A text that names a square names one of the board.
pub proof fn lemma_parsed_pos_wf(s: Seq<char>)
    requires
        parse_pos(s) is Some,
    ensures
        parse_pos(s)->Some_0.wf(),
{
}

} // verus!
