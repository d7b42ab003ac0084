use chess_rules::piece::{Color, Piece, PieceType};

fn kinds() -> [PieceType; 6] {
    [
        PieceType::Pawn,
        PieceType::Bishop,
        PieceType::Knight,
        PieceType::Rook,
        PieceType::Queen,
        PieceType::King,
    ]
}

#[test]
fn white_pieces_show_as_capitals() {
    let letters = ['P', 'B', 'N', 'R', 'Q', 'K'];
    for (kind, letter) in kinds().iter().zip(letters.iter()) {
        let piece = Piece { color: Color::White, kind: *kind };
        assert_eq!(piece.to_char(), *letter);
    }
}

#[test]
fn black_pieces_show_as_small_letters() {
    let letters = ['p', 'b', 'n', 'r', 'q', 'k'];
    for (kind, letter) in kinds().iter().zip(letters.iter()) {
        let piece = Piece { color: Color::Black, kind: *kind };
        assert_eq!(piece.to_char(), *letter);
    }
}

#[test]
fn letter_round_trips_for_every_piece() {
    for color in [Color::White, Color::Black] {
        for kind in kinds() {
            let piece = Piece { color, kind };
            assert_eq!(Piece::from_char(piece.to_char()), Some(piece));
        }
    }
}

#[test]
fn from_char_reads_side_from_case() {
    assert_eq!(
        Piece::from_char('Q'),
        Some(Piece { color: Color::White, kind: PieceType::Queen })
    );
    assert_eq!(
        Piece::from_char('q'),
        Some(Piece { color: Color::Black, kind: PieceType::Queen })
    );
    assert_eq!(
        Piece::from_char('n'),
        Some(Piece { color: Color::Black, kind: PieceType::Knight })
    );
}

#[test]
fn from_char_rejects_other_characters() {
    assert_eq!(Piece::from_char('x'), None);
    assert_eq!(Piece::from_char('X'), None);
    assert_eq!(Piece::from_char(' '), None);
    assert_eq!(Piece::from_char('1'), None);
    assert_eq!(Piece::from_char('\u{e9}'), None);
    assert_eq!(Piece::from_char('\u{41a}'), None);
}

#[test]
fn every_character_that_reads_as_a_piece_is_its_letter() {
    for code in 0..0x250u32 {
        if let Some(ch) = char::from_u32(code) {
            if let Some(piece) = Piece::from_char(ch) {
                assert_eq!(piece.to_char(), ch);
            }
        }
    }
}
