use milk_cookie_game::BoardTile;
use milk_cookie_game::MilkCookieGame;

#[test]
fn empty_board_rendering() {
    let game = MilkCookieGame::new(4);
    let expected = "\u{2b1c}\u{2b1b}\u{2b1b}\u{2b1b}\u{2b1b}\u{2b1c}\n\u{2b1c}\u{2b1b}\u{2b1b}\u{2b1b}\u{2b1b}\u{2b1c}\n\u{2b1c}\u{2b1b}\u{2b1b}\u{2b1b}\u{2b1b}\u{2b1c}\n\u{2b1c}\u{2b1b}\u{2b1b}\u{2b1b}\u{2b1b}\u{2b1c}\n\u{2b1c}\u{2b1c}\u{2b1c}\u{2b1c}\u{2b1c}\u{2b1c}\n";
    assert_eq!(game.to_string(), expected);
}

#[test]
fn empty_one_column_board_rendering() {
    let game = MilkCookieGame::new(1);
    assert_eq!(game.to_string(), "\u{2b1c}\u{2b1b}\u{2b1c}\n\u{2b1c}\u{2b1c}\u{2b1c}\n");
}

#[test]
fn reset_restores_the_empty_rendering() {
    let mut game = MilkCookieGame::new(4);
    let fresh = game.to_string();
    assert_eq!(game.place(BoardTile::Cookie, 1), Ok(()));
    assert_eq!(game.place(BoardTile::Milk, 4), Ok(()));
    assert_ne!(game.to_string(), fresh);
    game.reset();
    assert_eq!(game.to_string(), fresh);
}

#[test]
fn tiles_fall_to_the_bottom_of_their_column() {
    let mut game = MilkCookieGame::new(4);
    assert_eq!(game.place(BoardTile::Cookie, 2), Ok(()));
    let expected = "\u{2b1c}\u{2b1b}\u{2b1b}\u{2b1b}\u{2b1b}\u{2b1c}\n\u{2b1c}\u{2b1b}\u{2b1b}\u{2b1b}\u{2b1b}\u{2b1c}\n\u{2b1c}\u{2b1b}\u{2b1b}\u{2b1b}\u{2b1b}\u{2b1c}\n\u{2b1c}\u{2b1b}\u{1f36a}\u{2b1b}\u{2b1b}\u{2b1c}\n\u{2b1c}\u{2b1c}\u{2b1c}\u{2b1c}\u{2b1c}\u{2b1c}\n";
    assert_eq!(game.to_string(), expected);
    // A tile in another column leaves column 2 exactly as it was.
    assert_eq!(game.place(BoardTile::Milk, 4), Ok(()));
    let expected = "\u{2b1c}\u{2b1b}\u{2b1b}\u{2b1b}\u{2b1b}\u{2b1c}\n\u{2b1c}\u{2b1b}\u{2b1b}\u{2b1b}\u{2b1b}\u{2b1c}\n\u{2b1c}\u{2b1b}\u{2b1b}\u{2b1b}\u{2b1b}\u{2b1c}\n\u{2b1c}\u{2b1b}\u{1f36a}\u{2b1b}\u{1f95b}\u{2b1c}\n\u{2b1c}\u{2b1c}\u{2b1c}\u{2b1c}\u{2b1c}\u{2b1c}\n";
    assert_eq!(game.to_string(), expected);
    // A second tile in an occupied column stacks on top.
    assert_eq!(game.place(BoardTile::Milk, 2), Ok(()));
    let expected = "\u{2b1c}\u{2b1b}\u{2b1b}\u{2b1b}\u{2b1b}\u{2b1c}\n\u{2b1c}\u{2b1b}\u{2b1b}\u{2b1b}\u{2b1b}\u{2b1c}\n\u{2b1c}\u{2b1b}\u{1f95b}\u{2b1b}\u{2b1b}\u{2b1c}\n\u{2b1c}\u{2b1b}\u{1f36a}\u{2b1b}\u{1f95b}\u{2b1c}\n\u{2b1c}\u{2b1c}\u{2b1c}\u{2b1c}\u{2b1c}\u{2b1c}\n";
    assert_eq!(game.to_string(), expected);
}

#[test]
fn column_win_rendering_announces_cookie() {
    let mut game = MilkCookieGame::new(4);
    for _ in 0..4 {
        assert_eq!(game.place_for("cookie", 1), Ok(()));
    }
    let expected = "\u{2b1c}\u{1f36a}\u{2b1b}\u{2b1b}\u{2b1b}\u{2b1c}\n\u{2b1c}\u{1f36a}\u{2b1b}\u{2b1b}\u{2b1b}\u{2b1c}\n\u{2b1c}\u{1f36a}\u{2b1b}\u{2b1b}\u{2b1b}\u{2b1c}\n\u{2b1c}\u{1f36a}\u{2b1b}\u{2b1b}\u{2b1b}\u{2b1c}\n\u{2b1c}\u{2b1c}\u{2b1c}\u{2b1c}\u{2b1c}\u{2b1c}\n\u{1f36a} wins!\n";
    assert_eq!(game.to_string(), expected);
}

#[test]
fn row_win_rendering_announces_milk() {
    let mut game = MilkCookieGame::new(4);
    for column in 1..=4 {
        assert_eq!(game.place_for("milk", column), Ok(()));
    }
    let expected = "\u{2b1c}\u{2b1b}\u{2b1b}\u{2b1b}\u{2b1b}\u{2b1c}\n\u{2b1c}\u{2b1b}\u{2b1b}\u{2b1b}\u{2b1b}\u{2b1c}\n\u{2b1c}\u{2b1b}\u{2b1b}\u{2b1b}\u{2b1b}\u{2b1c}\n\u{2b1c}\u{1f95b}\u{1f95b}\u{1f95b}\u{1f95b}\u{2b1c}\n\u{2b1c}\u{2b1c}\u{2b1c}\u{2b1c}\u{2b1c}\u{2b1c}\n\u{1f95b} wins!\n";
    assert_eq!(game.to_string(), expected);
}

#[test]
fn full_drawn_board_rendering_reports_no_winner() {
    let mut game = MilkCookieGame::new(3);
    assert_eq!(game.place(BoardTile::Cookie, 1), Ok(()));
    assert_eq!(game.place(BoardTile::Cookie, 1), Ok(()));
    assert_eq!(game.place(BoardTile::Milk, 1), Ok(()));
    assert_eq!(game.place(BoardTile::Milk, 2), Ok(()));
    assert_eq!(game.place(BoardTile::Milk, 2), Ok(()));
    assert_eq!(game.place(BoardTile::Cookie, 2), Ok(()));
    assert_eq!(game.place(BoardTile::Cookie, 3), Ok(()));
    assert_eq!(game.place(BoardTile::Cookie, 3), Ok(()));
    assert_eq!(game.place(BoardTile::Milk, 3), Ok(()));
    let expected = "\u{2b1c}\u{1f95b}\u{1f36a}\u{1f95b}\u{2b1c}\n\u{2b1c}\u{1f36a}\u{1f95b}\u{1f36a}\u{2b1c}\n\u{2b1c}\u{1f36a}\u{1f95b}\u{1f36a}\u{2b1c}\n\u{2b1c}\u{2b1c}\u{2b1c}\u{2b1c}\u{2b1c}\nNo winner.\n";
    assert_eq!(game.to_string(), expected);
}

#[test]
fn glyph_table_is_exhaustive() {
    assert_eq!(BoardTile::Wall.glyph_str(), "\u{2b1c}");
    assert_eq!(BoardTile::Blank.glyph_str(), "\u{2b1b}");
    assert_eq!(BoardTile::Cookie.glyph_str(), "\u{1f36a}");
    assert_eq!(BoardTile::Milk.glyph_str(), "\u{1f95b}");
}
