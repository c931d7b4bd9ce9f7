//! Processing the input in steps: a request for the translation, then the
//! outcome folded back into the app.

use cihui_tui::app::{App, AppMode, InputLanguage, InputMode};
use cihui_tui::config::Config;
use cihui_tui::language::Language;
use cihui_tui::processing::sanitize_pasted_text;

fn app_with(text: &str) -> App {
    let mut app = App::with_config(Config::default());
    app.set_input(text.to_string());
    app
}

#[test]
fn chinese_input_shows_pinyin_and_asks_for_the_target_language() {
    let mut app = app_with("  你好  ");
    app.target_language = Language::Finnish;

    let request = app.prepare_text_translation().expect("input is not blank");

    assert_eq!(app.input_language, InputLanguage::Chinese);
    assert_eq!((request.source, request.target), ("zh-CN", "fi"));
    assert_eq!(request.text, "你好");
    assert!(!request.into_chinese);
    assert_eq!(app.pinyin_lines.len(), 1);
    assert!(app.pinyin_lines[0].contains("nǐ"));

    app.apply_text_translation(&request, Ok("Hei".to_string()));
    assert_eq!(app.translation, "Hei");
}

#[test]
fn other_input_asks_for_chinese_and_shows_its_pinyin() {
    let mut app = app_with("hello");

    let request = app.prepare_text_translation().unwrap();
    assert_eq!(app.input_language, InputLanguage::English);
    assert_eq!((request.source, request.target), ("en", "zh-CN"));
    assert!(request.into_chinese);
    assert!(app.pinyin_lines.is_empty(), "no pinyin before there is Chinese");

    app.apply_text_translation(&request, Ok("你好".to_string()));
    assert_eq!(app.translation, "你好");
    assert!(app.pinyin_lines[0].contains("hǎo"));
}

#[test]
fn blank_input_makes_no_request() {
    let mut app = app_with("   ");
    assert!(app.prepare_text_translation().is_none());
}

#[test]
fn a_failed_translation_shows_the_error_and_the_text() {
    let mut app = app_with("hello");
    let request = app.prepare_text_translation().unwrap();

    app.apply_text_translation(&request, Err("offline".to_string()));

    assert_eq!(app.error_message, Some("Translation failed: offline".to_string()));
    assert_eq!(app.translation, "[Translation error] hello");
    assert_eq!(app.pinyin_lines, vec!["hello".to_string()]);
    assert_eq!(app.hanzi_lines, vec!["hello".to_string()]);
}

#[test]
fn transcript_translation_ignores_failures() {
    let mut app = App::with_config(Config::default());
    app.mode = AppMode::Transcription;

    let request = app.prepare_transcript_translation(" 世界 ").unwrap();
    assert_eq!(request.text, "世界");
    assert!(app.transcription.pinyin_lines[0].contains("shì"));

    app.apply_transcript_translation(&request, Err("offline".to_string()));
    assert_eq!(app.transcription.translation, "");

    app.apply_transcript_translation(&request, Ok("world".to_string()));
    assert_eq!(app.transcription.translation, "world");
}

#[test]
fn empty_ocr_text_is_an_error() {
    let mut app = App::with_config(Config::default());
    assert!(!app.accept_ocr_text(String::new()));
    assert_eq!(app.error_message, Some("No text found in image".to_string()));
    assert!(app.accept_ocr_text("你好".to_string()));
    assert_eq!(app.input, "你好");
}

#[test]
fn pasted_text_loses_control_characters_but_keeps_whitespace() {
    assert_eq!(sanitize_pasted_text("  a\u{7}b\tc\nd\u{9b}  "), "ab\tc\nd");

    let mut app = App::with_config(Config::default());
    app.input_mode = InputMode::ImagePath;
    app.paste_plain_text(" 你好\u{0} ");
    assert_eq!(app.input, "你好");
    assert_eq!(app.cursor_position, 2);
    assert_eq!(app.input_mode, InputMode::Text);
}

#[test]
fn errors_are_reported_with_their_context() {
    let mut app = App::with_config(Config::default());
    app.report_paste_error("empty clipboard");
    assert_eq!(app.error_message, Some("Paste error: empty clipboard".to_string()));
    app.report_processing_error("boom");
    assert_eq!(app.error_message, Some("Processing error: boom".to_string()));
}

#[test]
fn typed_input_is_due_only_once_and_only_when_idle() {
    let mut app = app_with("你好");
    assert!(app.input_pending());

    app.consume_input_time();
    assert!(!app.input_pending());

    app.set_input("   ".to_string());
    assert!(!app.input_pending(), "blank input is never processed");

    app.set_input("x".to_string());
    app.begin_processing();
    assert!(!app.input_pending(), "not while processing");
    app.end_processing();
    assert!(app.input_pending());
}
