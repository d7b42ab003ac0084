use chess_rules::position::{row_to_display, BoardPos};

#[test]
fn index_round_trips_for_every_cell() {
    for i in 0..64usize {
        let pos = BoardPos::from_idx(i).expect("index on the board");
        assert!(pos.row < 8 && pos.col < 8);
        assert_eq!(pos.to_idx(), i);
    }
}

#[test]
fn square_round_trips_through_its_index() {
    for row in 0..8u8 {
        for col in 0..8u8 {
            let pos = BoardPos { row, col };
            assert_eq!(BoardPos::from_idx(pos.to_idx()), Some(pos));
        }
    }
}

#[test]
fn index_is_column_plus_eight_rows() {
    assert_eq!(BoardPos { row: 0, col: 0 }.to_idx(), 0);
    assert_eq!(BoardPos { row: 0, col: 7 }.to_idx(), 7);
    assert_eq!(BoardPos { row: 6, col: 4 }.to_idx(), 52);
    assert_eq!(BoardPos { row: 7, col: 7 }.to_idx(), 63);
}

#[test]
fn index_of_far_coordinates_does_not_wrap() {
    assert_eq!(BoardPos { row: 255, col: 255 }.to_idx(), 255 + 255 * 8);
    assert_eq!(BoardPos { row: 32, col: 0 }.to_idx(), 256);
}

#[test]
fn from_idx_gives_row_and_column() {
    assert_eq!(BoardPos::from_idx(0), Some(BoardPos { row: 0, col: 0 }));
    assert_eq!(BoardPos::from_idx(52), Some(BoardPos { row: 6, col: 4 }));
    assert_eq!(BoardPos::from_idx(63), Some(BoardPos { row: 7, col: 7 }));
}

#[test]
fn from_idx_rejects_indices_off_the_board() {
    assert_eq!(BoardPos::from_idx(64), None);
    assert_eq!(BoardPos::from_idx(65), None);
    assert_eq!(BoardPos::from_idx(1000), None);
    assert_eq!(BoardPos::from_idx(usize::MAX), None);
}

#[test]
fn parse_reads_named_squares() {
    assert_eq!(BoardPos::parse("e2"), Some(BoardPos { row: 6, col: 4 }));
    assert_eq!(BoardPos::parse("a1"), Some(BoardPos { row: 7, col: 0 }));
    assert_eq!(BoardPos::parse("h8"), Some(BoardPos { row: 0, col: 7 }));
    assert_eq!(BoardPos::parse("a8"), Some(BoardPos { row: 0, col: 0 }));
    assert_eq!(BoardPos::parse("h1"), Some(BoardPos { row: 7, col: 7 }));
}

#[test]
fn parse_rejects_what_names_no_square() {
    assert_eq!(BoardPos::parse("i9"), None);
    assert_eq!(BoardPos::parse("e"), None);
    assert_eq!(BoardPos::parse(""), None);
    assert_eq!(BoardPos::parse("e2e"), None);
    assert_eq!(BoardPos::parse("i1"), None);
    assert_eq!(BoardPos::parse("a9"), None);
    assert_eq!(BoardPos::parse("a0"), None);
    assert_eq!(BoardPos::parse("`1"), None);
    assert_eq!(BoardPos::parse("E2"), None);
    assert_eq!(BoardPos::parse("2e"), None);
    assert_eq!(BoardPos::parse(" e2"), None);
}

#[test]
fn parse_rejects_text_beyond_ascii() {
    assert_eq!(BoardPos::parse("\u{e9}"), None);
    assert_eq!(BoardPos::parse("\u{e9}2"), None);
    assert_eq!(BoardPos::parse("e\u{662}"), None);
    assert_eq!(BoardPos::parse("\u{161}1"), None);
}

#[test]
fn parse_agrees_with_from_idx_on_every_square() {
    let files = ['a', 'b', 'c', 'd', 'e', 'f', 'g', 'h'];
    let ranks = ['8', '7', '6', '5', '4', '3', '2', '1'];
    for (row, rank) in ranks.iter().enumerate() {
        for (col, file) in files.iter().enumerate() {
            let name = format!("{}{}", file, rank);
            assert_eq!(BoardPos::parse(&name), BoardPos::from_idx(row * 8 + col));
        }
    }
}

#[test]
fn rows_are_shown_from_rank_eight_down() {
    assert_eq!(row_to_display(0), 8);
    assert_eq!(row_to_display(1), 7);
    assert_eq!(row_to_display(7), 1);
    assert_eq!(row_to_display(8), 0);
}
