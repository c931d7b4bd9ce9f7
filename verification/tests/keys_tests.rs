//! Key presses drive every change of state; the dispatcher also says what
//! work outside the app a key calls for.

use cihui_tui::app::{App, AppMode, AppRequest, InputMode};
use cihui_tui::config::{Config, TranslationService};
use cihui_tui::keys::{
    handle_device_selector_input, handle_key, handle_language_selector_input, key_is_defined,
    handle_settings_input, handle_transcription_settings_input, KeyAction, KeyCode, KeyEvent,
};
use cihui_tui::transcription::{AudioDevice, WhisperModelSize};

fn key(code: KeyCode) -> KeyEvent {
    KeyEvent { code, control: false }
}

fn ctrl(c: char) -> KeyEvent {
    KeyEvent { code: KeyCode::Char(c), control: true }
}

fn fresh_app() -> App {
    App::with_config(Config::default())
}

fn type_text(app: &mut App, text: &str) {
    for c in text.chars() {
        assert_eq!(handle_key(app, key(KeyCode::Char(c)), false), KeyAction::Continue);
    }
}

#[test]
fn typing_inserts_characters_at_the_cursor() {
    let mut app = fresh_app();
    type_text(&mut app, "你好");
    handle_key(&mut app, key(KeyCode::Left), false);
    handle_key(&mut app, key(KeyCode::Char('x')), false);

    assert_eq!(app.input, "你x好");
    assert_eq!(app.cursor_position, 2);
    assert!(app.last_input_time.is_some());
}

#[test]
fn enter_inserts_a_newline_and_arrows_move_between_lines() {
    let mut app = fresh_app();
    type_text(&mut app, "abcd");
    handle_key(&mut app, key(KeyCode::Enter), false);
    type_text(&mut app, "ef");
    handle_key(&mut app, key(KeyCode::Up), false);

    assert_eq!(app.input, "abcd\nef");
    assert_eq!(app.cursor_position, 2);

    handle_key(&mut app, key(KeyCode::Down), false);
    assert_eq!(app.cursor_position, 7);
}

#[test]
fn typing_leaves_image_mode() {
    let mut app = fresh_app();
    app.input_mode = InputMode::ImagePath;

    handle_key(&mut app, key(KeyCode::Char('a')), false);

    assert_eq!(app.input_mode, InputMode::Text);
    assert_eq!(app.input, "a");
}

#[test]
fn delete_removes_the_character_after_the_cursor() {
    let mut app = fresh_app();
    type_text(&mut app, "abc");
    handle_key(&mut app, key(KeyCode::Home), false);

    handle_key(&mut app, key(KeyCode::Delete), false);

    assert_eq!(app.input, "bc");
    assert_eq!(app.cursor_position, 0);

    handle_key(&mut app, key(KeyCode::End), false);
    handle_key(&mut app, key(KeyCode::Delete), false);
    assert_eq!(app.input, "bc", "nothing follows the cursor at the end");
}

#[test]
fn escape_and_control_c_quit() {
    let mut app = fresh_app();
    assert_eq!(handle_key(&mut app, key(KeyCode::Esc), false), KeyAction::Quit);
    assert_eq!(handle_key(&mut app, ctrl('c'), false), KeyAction::Quit);
    assert_eq!(handle_key(&mut app, ctrl('C'), false), KeyAction::Quit);

    app.mode = AppMode::Transcription;
    assert_eq!(handle_key(&mut app, key(KeyCode::Esc), false), KeyAction::Quit);
    assert_eq!(handle_key(&mut app, ctrl('c'), false), KeyAction::Quit);
}

#[test]
fn escape_closes_a_popup_instead_of_quitting() {
    let mut app = fresh_app();
    handle_key(&mut app, ctrl('s'), false);
    assert!(app.settings_open);

    assert_eq!(handle_key(&mut app, key(KeyCode::Esc), false), KeyAction::Continue);
    assert!(!app.settings_open);
}

#[test]
fn control_v_asks_for_a_paste() {
    let mut app = fresh_app();
    assert_eq!(handle_key(&mut app, ctrl('v'), false), KeyAction::Paste);
}

#[test]
fn control_w_and_control_backspace_delete_a_word() {
    let mut app = fresh_app();
    type_text(&mut app, "hello world");

    handle_key(&mut app, ctrl('w'), false);
    assert_eq!(app.input, "hello ");

    handle_key(&mut app, KeyEvent { code: KeyCode::Backspace, control: true }, false);
    assert_eq!(app.input, "");
}

#[test]
fn control_b_types_a_b_because_it_is_not_bound() {
    let mut app = fresh_app();
    handle_key(&mut app, ctrl('b'), false);
    assert_eq!(app.input, "b");
}

#[test]
fn control_arrows_scroll_the_output_panes() {
    let mut app = fresh_app();
    handle_key(&mut app, KeyEvent { code: KeyCode::Down, control: true }, false);
    handle_key(&mut app, ctrl('j'), false);
    assert_eq!((app.pinyin_scroll, app.translation_scroll), (6, 6));

    handle_key(&mut app, ctrl('k'), false);
    handle_key(&mut app, KeyEvent { code: KeyCode::Up, control: true }, false);
    handle_key(&mut app, KeyEvent { code: KeyCode::Up, control: true }, false);
    assert_eq!((app.pinyin_scroll, app.translation_scroll), (0, 0), "scrolling stops at the top");
}

#[test]
fn entering_transcription_starts_loading_the_model() {
    let mut app = fresh_app();

    assert_eq!(handle_key(&mut app, ctrl('t'), false), KeyAction::LoadModel);
    assert_eq!(app.mode, AppMode::Transcription);
    assert!(app.transcription.model_loading);
    assert_eq!(app.transcription.status, "Loading model...");
    assert_eq!(
        app.take_requests(),
        vec![AppRequest::ListDevices, AppRequest::DefaultDevice],
        "with no device chosen, the default is looked up"
    );
}

#[test]
fn entering_transcription_with_a_model_at_hand_loads_nothing() {
    let mut app = fresh_app();
    app.transcription.selected_device = Some("mic".to_string());

    assert_eq!(handle_key(&mut app, ctrl('t'), true), KeyAction::Continue);
    assert_eq!(app.take_requests(), vec![AppRequest::ListDevices]);
}

#[test]
fn space_starts_and_stops_a_recording() {
    let mut app = fresh_app();
    app.mode = AppMode::Transcription;
    app.transcription.model_ready = true;

    assert_eq!(handle_key(&mut app, key(KeyCode::Char(' ')), true), KeyAction::StartRecording);
    assert!(app.transcription.is_recording);
    assert_eq!(app.transcription.status, "Recording...");

    assert_eq!(handle_key(&mut app, key(KeyCode::Char(' ')), true), KeyAction::StopRecording);
    assert!(!app.transcription.is_recording);
    assert_eq!(app.transcription.status, "Stopped. Press Space to record.");
}

#[test]
fn space_without_a_model_starts_loading_one_once() {
    let mut app = fresh_app();
    app.mode = AppMode::Transcription;

    assert_eq!(handle_key(&mut app, key(KeyCode::Char(' ')), false), KeyAction::LoadModel);
    assert_eq!(handle_key(&mut app, key(KeyCode::Char(' ')), false), KeyAction::Continue);
}

#[test]
fn control_t_leaves_transcription_and_stops_recording() {
    let mut app = fresh_app();
    app.mode = AppMode::Transcription;
    app.transcription.is_recording = true;
    app.transcription.vad_active = true;

    assert_eq!(handle_key(&mut app, ctrl('t'), true), KeyAction::StopRecording);
    assert_eq!(app.mode, AppMode::Normal);
    assert!(!app.transcription.is_recording);
    assert!(!app.transcription.vad_active);
}

#[test]
fn control_x_clears_the_transcript() {
    let mut app = fresh_app();
    app.mode = AppMode::Transcription;
    app.transcription.transcript = "你好".to_string();
    app.transcription.translation = "hello".to_string();
    app.transcription.transcript_scroll = 9;

    handle_key(&mut app, ctrl('x'), false);

    assert_eq!(app.transcription.transcript, "");
    assert_eq!(app.transcription.translation, "");
    assert_eq!(app.transcription.transcript_scroll, 0);
}

#[test]
fn changing_a_setting_drops_the_loaded_model() {
    let mut app = fresh_app();
    app.mode = AppMode::Transcription;
    app.transcription.model_ready = true;
    handle_key(&mut app, ctrl('s'), true);
    handle_key(&mut app, key(KeyCode::Down), true);

    assert_eq!(handle_key(&mut app, key(KeyCode::Right), true), KeyAction::DropModel);
    assert_eq!(app.transcription.model_size, WhisperModelSize::Base);
    assert_eq!(
        app.transcription.status,
        "Settings changed. Press Space to reload model and record."
    );
}

#[test]
fn the_settings_popup_cycles_the_service_only_on_its_row() {
    let mut app = fresh_app();
    app.toggle_settings();

    handle_settings_input(&mut app, key(KeyCode::Right));
    assert_eq!(app.translation_service, TranslationService::Auto, "row 0 is the UI language");

    handle_settings_input(&mut app, key(KeyCode::Down));
    handle_settings_input(&mut app, key(KeyCode::Right));
    assert_eq!(app.translation_service, TranslationService::Google);
    handle_settings_input(&mut app, key(KeyCode::Left));
    handle_settings_input(&mut app, key(KeyCode::Left));
    assert_eq!(app.translation_service, TranslationService::LTEngine);
}

#[test]
fn the_language_picker_filters_as_you_type() {
    let mut app = fresh_app();
    app.toggle_language_selector();

    for c in "GER".chars() {
        handle_language_selector_input(&mut app, key(KeyCode::Char(c)));
    }
    let names: Vec<&str> = app.filtered_languages.iter().map(|l| l.name()).collect();
    assert!(names.contains(&"German"), "matching ignores case: {names:?}");

    handle_language_selector_input(&mut app, key(KeyCode::Backspace));
    assert_eq!(app.language_selector_search, "GE");
}

#[test]
fn the_device_picker_reports_a_change_of_device() {
    let mut app = fresh_app();
    app.set_available_devices(vec![
        AudioDevice { name: "a".to_string(), description: "A".to_string() },
        AudioDevice { name: "b".to_string(), description: "B".to_string() },
    ]);
    app.toggle_transcription_device_selector();

    assert!(!handle_device_selector_input(&mut app, key(KeyCode::Down)));
    assert!(!handle_device_selector_input(&mut app, key(KeyCode::Down)));
    assert_eq!(app.transcription.device_selector_scroll, 1, "stops at the last device");
    assert!(handle_device_selector_input(&mut app, key(KeyCode::Enter)));
    assert_eq!(app.transcription.selected_device, Some("b".to_string()));

    app.toggle_transcription_device_selector();
    app.transcription.device_selector_scroll = 1;
    assert!(!handle_device_selector_input(&mut app, key(KeyCode::Enter)), "same device again");
}

#[test]
fn the_transcription_settings_popup_closes_on_escape() {
    let mut app = fresh_app();
    app.toggle_transcription_settings();

    handle_transcription_settings_input(&mut app, key(KeyCode::Esc));

    assert!(!app.transcription.settings_open);
}

#[test]
fn keys_that_walk_lines_need_the_cursor_inside_the_input() {
    let mut app = fresh_app();
    type_text(&mut app, "ab");
    app.cursor_position = 5;

    assert!(!key_is_defined(&app, key(KeyCode::Up)));
    assert!(!key_is_defined(&app, ctrl('w')));
    assert!(key_is_defined(&app, key(KeyCode::Char('c'))), "typing appends at the end");
    assert!(key_is_defined(&app, key(KeyCode::Esc)));

    handle_key(&mut app, key(KeyCode::Char('c')), false);
    assert_eq!(app.input, "abc");
}
