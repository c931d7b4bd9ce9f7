//! Cursor placement in the input box, which has to account for double-width
//! characters. The box starts below the three-row header of a 100-column
//! screen, so its inside is 98 columns wide and starts at (1, 4).

use cihui_tui::app::{App, AppMode};
use cihui_tui::config::Config;
use cihui_tui::ui::{cursor_visual_position, input_cursor_visible, is_wide_char};

/// An app in text-input mode.
fn text_mode_app() -> App {
    let mut app = App::with_config(Config::default());
    app.mode = AppMode::Normal;
    app
}

/// Where the terminal cursor ends up on a 100x30 screen: inside the input
/// box when it is shown there, otherwise left at the origin.
fn cursor_after_render(app: &App) -> (u16, u16) {
    if !input_cursor_visible(app) {
        return (0, 0);
    }
    let (row, col) = cursor_visual_position(app, 98);
    (1 + col as u16, 4 + row as u16)
}

#[test]
fn the_cursor_starts_in_the_input_box() {
    let app = text_mode_app();

    let (x, y) = cursor_after_render(&app);

    assert_eq!((x, y), (1, 4));
}

#[test]
fn ascii_advances_the_cursor_one_column_per_character() {
    let mut app = text_mode_app();
    app.set_input("abc".to_string());

    let (x, _) = cursor_after_render(&app);

    assert_eq!(x, 1 + 3);
}

#[test]
fn hanzi_advances_the_cursor_two_columns_per_character() {
    let mut app = text_mode_app();
    app.set_input("你好".to_string());

    let (x, _) = cursor_after_render(&app);

    assert_eq!(x, 1 + 4, "two double-width characters take four columns");
}

#[test]
fn full_width_punctuation_is_two_columns_wide() {
    let mut app = text_mode_app();
    app.set_input("你好，".to_string());

    let (x, _) = cursor_after_render(&app);

    assert_eq!(x, 1 + 6, "two hanzi plus a full-width comma");
}

#[test]
fn ascii_punctuation_stays_one_column_wide() {
    let mut app = text_mode_app();
    app.set_input("你好,".to_string());

    let (x, _) = cursor_after_render(&app);

    assert_eq!(x, 1 + 5, "two hanzi plus a single-width comma");
}

#[test]
fn a_newline_moves_the_cursor_to_the_next_row() {
    let mut app = text_mode_app();
    app.set_input("ab\ncd".to_string());

    let (x, y) = cursor_after_render(&app);

    assert_eq!((x, y), (1 + 2, 4 + 1));
}

#[test]
fn the_cursor_follows_a_move_to_the_start() {
    let mut app = text_mode_app();
    app.set_input("你好世界".to_string());
    app.move_cursor_to_start();

    let (x, y) = cursor_after_render(&app);

    assert_eq!((x, y), (1, 4));
}

#[test]
fn the_cursor_sits_between_characters_mid_buffer() {
    let mut app = text_mode_app();
    app.set_input("你好世界".to_string());
    app.move_cursor_to_start();
    app.move_cursor_right();

    let (x, _) = cursor_after_render(&app);

    assert_eq!(x, 1 + 2, "after exactly one double-width character");
}

#[test]
fn no_cursor_is_placed_while_a_popup_is_open() {
    let mut app = text_mode_app();
    app.set_input("你好".to_string());
    app.toggle_settings();

    assert_eq!(
        cursor_after_render(&app),
        (0, 0),
        "the cursor must not be positioned in the input box behind a popup"
    );
}

#[test]
fn no_cursor_is_placed_while_processing() {
    let mut app = text_mode_app();
    app.set_input("你好".to_string());
    app.processing = true;

    assert_eq!(cursor_after_render(&app), (0, 0));
}

#[test]
fn a_long_line_wraps_at_the_box_edge() {
    let mut app = text_mode_app();
    app.set_input("你".repeat(50));

    // 49 hanzi fill 98 columns, so the 50th starts the next row.
    assert_eq!(cursor_visual_position(&app, 98), (1, 2));
}

#[test]
fn wide_characters_are_recognised() {
    assert!(is_wide_char('你'));
    assert!(is_wide_char('，'));
    assert!(is_wide_char('\u{3000}'));
    assert!(!is_wide_char(','));
    assert!(!is_wide_char('a'));
}

#[test]
fn the_cjk_punctuation_block_is_wide() {
    for c in ['，', '。', '、', '《', '》', '【', '\u{3000}', '\u{303f}'] {
        assert!(is_wide_char(c), "{c:?} should take two columns");
    }
    assert!(!is_wide_char(','));
    assert!(!is_wide_char('\u{2fff}'));
    assert!(!is_wide_char('\u{3040}'));
}

#[test]
fn an_ideographic_full_stop_is_two_columns_wide() {
    let mut app = text_mode_app();
    app.set_input("你好。".to_string());

    let (x, _) = cursor_after_render(&app);

    assert_eq!(x, 1 + 6, "two hanzi plus an ideographic full stop");
}
