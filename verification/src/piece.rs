//! Pieces as plain values: a side, a kind, and the letter that shows both.

use vstd::prelude::*;

verus! {

#[derive(Debug, Clone, Copy, PartialEq, Eq, Structural)]
pub enum PieceType {
    Pawn,
    Bishop,
    Knight,
    Rook,
    Queen,
    King,
}

#[derive(Debug, Clone, Copy, PartialEq, Eq, Structural)]
pub enum Color {
    White,
    Black,
}

/// A piece is a value: it has no identity beyond the cell that holds it.
#[derive(Debug, Clone, Copy, PartialEq, Eq, Structural)]
pub struct Piece {
    pub color: Color,
    pub kind: PieceType,
}

/// The lower-case letter of a kind.
pub open spec fn kind_letter(kind: PieceType) -> char {
    match kind {
        PieceType::Pawn => 'p',
        PieceType::Bishop => 'b',
        PieceType::Knight => 'n',
        PieceType::Rook => 'r',
        PieceType::Queen => 'q',
        PieceType::King => 'k',
    }
}

/// The upper-case letter of a kind.
pub open spec fn kind_capital(kind: PieceType) -> char {
    match kind {
        PieceType::Pawn => 'P',
        PieceType::Bishop => 'B',
        PieceType::Knight => 'N',
        PieceType::Rook => 'R',
        PieceType::Queen => 'Q',
        PieceType::King => 'K',
    }
}

/// The kind whose lower-case letter is `c`.
pub open spec fn kind_of_letter(c: char) -> Option<PieceType> {
    if c == 'p' {
        Some(PieceType::Pawn)
    } else if c == 'b' {
        Some(PieceType::Bishop)
    } else if c == 'n' {
        Some(PieceType::Knight)
    } else if c == 'r' {
        Some(PieceType::Rook)
    } else if c == 'q' {
        Some(PieceType::Queen)
    } else if c == 'k' {
        Some(PieceType::King)
    } else {
        None
    }
}

/// The kind whose upper-case letter is `c`.
pub open spec fn kind_of_capital(c: char) -> Option<PieceType> {
    if c == 'P' {
        Some(PieceType::Pawn)
    } else if c == 'B' {
        Some(PieceType::Bishop)
    } else if c == 'N' {
        Some(PieceType::Knight)
    } else if c == 'R' {
        Some(PieceType::Rook)
    } else if c == 'Q' {
        Some(PieceType::Queen)
    } else if c == 'K' {
        Some(PieceType::King)
    } else {
        None
    }
}

/// The piece that a letter shows: a capital is White's, a small letter
/// Black's. Any other character shows no piece.
pub open spec fn piece_of_glyph(c: char) -> Option<Piece> {
    if kind_of_capital(c) is Some {
        Some(Piece { color: Color::White, kind: kind_of_capital(c)->Some_0 })
    } else if kind_of_letter(c) is Some {
        Some(Piece { color: Color::Black, kind: kind_of_letter(c)->Some_0 })
    } else {
        None
    }
}

impl Color {
    /// The side that moves after this one.
    pub open spec fn other(self) -> Color {
        match self {
            Color::White => Color::Black,
            Color::Black => Color::White,
        }
    }
}

impl Piece {
    /// The letter that shows this piece.
    pub open spec fn glyph(self) -> char {
        match self.color {
            Color::White => kind_capital(self.kind),
            Color::Black => kind_letter(self.kind),
        }
    }

    pub fn to_char(self) -> (ch: char)
        ensures
            ch == self.glyph(),
    {
        match self.color {
            Color::White => match self.kind {
                PieceType::Pawn => 'P',
                PieceType::Bishop => 'B',
                PieceType::Knight => 'N',
                PieceType::Rook => 'R',
                PieceType::Queen => 'Q',
                PieceType::King => 'K',
            },
            Color::Black => match self.kind {
                PieceType::Pawn => 'p',
                PieceType::Bishop => 'b',
                PieceType::Knight => 'n',
                PieceType::Rook => 'r',
                PieceType::Queen => 'q',
                PieceType::King => 'k',
            },
        }
    }

    /// Reads a piece from the letter that shows it.
    pub fn from_char(ch: char) -> (r: Option<Piece>)
        ensures
            r == piece_of_glyph(ch),
    {
        let (color, kind) = match ch {
            'P' => (Color::White, PieceType::Pawn),
            'B' => (Color::White, PieceType::Bishop),
            'N' => (Color::White, PieceType::Knight),
            'R' => (Color::White, PieceType::Rook),
            'Q' => (Color::White, PieceType::Queen),
            'K' => (Color::White, PieceType::King),
            'p' => (Color::Black, PieceType::Pawn),
            'b' => (Color::Black, PieceType::Bishop),
            'n' => (Color::Black, PieceType::Knight),
            'r' => (Color::Black, PieceType::Rook),
            'q' => (Color::Black, PieceType::Queen),
            'k' => (Color::Black, PieceType::King),
            _ => {
                return None;
            },
        };
        Some(Piece { color, kind })
    }
}

/// Reading the letter of a piece gives the piece back.
pub proof fn lemma_piece_of_its_glyph(p: Piece)
    ensures
        piece_of_glyph(p.glyph()) == Some(p),
{
}

/// A letter that shows a piece is the letter of that piece, so no two
/// letters show the same piece.
pub proof fn lemma_glyph_of_read_piece(c: char)
    requires
        piece_of_glyph(c) is Some,
    ensures
        piece_of_glyph(c)->Some_0.glyph() == c,
{
}

} // verus!
