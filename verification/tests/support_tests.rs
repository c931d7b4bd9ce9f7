//! The smaller pieces around the app: the single-instance protocol, OCR
//! helpers, device choice, the local engine and the screen's text.

use cihui_tui::app::{App, UiLanguage};
use cihui_tui::config::Config;
use cihui_tui::image_source::{extract_html_img_src, extract_image_source, ImageSource};
use cihui_tui::language::Language;
use cihui_tui::ltengine::{
    health_url, idle_expired, launch_args, next_start_step, start_begin, startup_timeout_message,
    translate_url, LTEngine, StartAction, StartEvent, StartPhase,
};
use cihui_tui::ocr::{
    classify_image_input, clean_image_path, join_recognized, model_url, plan_fetch, FetchPlan,
    ImageInput, DET_MODEL,
};
use cihui_tui::single_instance::{is_shutdown_message, SingleInstanceError, SHUTDOWN_MESSAGE};
use cihui_tui::text::decimal_string;
use cihui_tui::transcription::{choose_device, downloading_status, recognised_segment, WhisperModelSize};
use cihui_tui::ui::{
    help_bar_text, header_target_text, language_selector_entry, language_selector_window,
    selector_no_match_text, selector_search_label, selector_search_text, selector_title,
    separator_width, settings_instructions, settings_title,
};

#[test]
fn the_shutdown_message_is_recognised_with_surrounding_whitespace() {
    assert!(is_shutdown_message(SHUTDOWN_MESSAGE.as_bytes()));
    assert!(is_shutdown_message(b"  SHUTDOWN\r\n"));
    assert!(!is_shutdown_message(b"SHUTDOWN!"));
    assert!(!is_shutdown_message(b"shutdown"));
    assert!(!is_shutdown_message(b"SHUT\xffDOWN"));
    assert!(!is_shutdown_message(b""));
}

#[test]
fn single_instance_errors_have_messages() {
    assert_eq!(
        SingleInstanceError::AlreadyRunning.message(),
        "Another instance of cihui-tui is already running"
    );
    let e = std::io::Error::new(std::io::ErrorKind::Other, "refused");
    assert_eq!(SingleInstanceError::ToggleFailed(e).message(), "Failed to send toggle signal: refused");
    let e = std::io::Error::new(std::io::ErrorKind::Other, "bind");
    assert_eq!(SingleInstanceError::ServerError(e).message(), "Server error: bind");
}

#[test]
fn an_error_message_ends_with_the_given_detail() {
    let e = SingleInstanceError::ToggleFailed(std::io::Error::new(std::io::ErrorKind::Other, "x"));
    assert_eq!(e.message_with("connection refused"), "Failed to send toggle signal: connection refused");
    let e = SingleInstanceError::ServerError(std::io::Error::new(std::io::ErrorKind::Other, "x"));
    assert_eq!(e.message_with("address in use"), "Server error: address in use");
    assert_eq!(
        SingleInstanceError::AlreadyRunning.message_with("ignored"),
        "Another instance of cihui-tui is already running"
    );
}

#[test]
fn recognised_lines_are_joined_with_newlines() {
    let pieces = vec!["第一行".to_string(), "second".to_string()];
    assert_eq!(join_recognized(&pieces).text, "第一行\nsecond");
    assert_eq!(join_recognized(&Vec::new()).text, "");
}

#[test]
fn model_files_come_from_the_model_repository() {
    assert_eq!(
        model_url(DET_MODEL),
        "https://raw.githubusercontent.com/zibo-chen/rust-paddle-ocr/next/models/PP-OCRv5_mobile_det.mnn"
    );
}

#[test]
fn image_input_is_classified_by_its_shape() {
    assert_eq!(classify_image_input("  "), ImageInput::Clipboard);
    assert_eq!(
        classify_image_input(" https://x.org/a.png "),
        ImageInput::Url("https://x.org/a.png".to_string())
    );
    assert_eq!(classify_image_input("/tmp/a.png"), ImageInput::Path("/tmp/a.png".to_string()));
}

#[test]
fn fetch_plans_follow_the_kind_of_reference() {
    assert_eq!(clean_image_path("file:///tmp/a.png"), "/tmp/a.png");
    assert_eq!(
        plan_fetch(&ImageSource::Path("file:///tmp/a.png".to_string()), true),
        FetchPlan::ReadFile("/tmp/a.png".to_string())
    );
    assert_eq!(
        plan_fetch(&ImageSource::PathOrUrl("https://x.org/a.png".to_string()), false),
        FetchPlan::Download("https://x.org/a.png".to_string())
    );
    assert_eq!(
        plan_fetch(&ImageSource::Path("/nope.png".to_string()), false),
        FetchPlan::NotFound("Cannot find image: /nope.png".to_string())
    );
    assert_eq!(
        plan_fetch(&ImageSource::Url("http://x.org/a.png".to_string()), false),
        FetchPlan::Download("http://x.org/a.png".to_string())
    );
}

#[test]
fn a_tag_after_characters_that_change_length_when_lowercased_is_found() {
    // The Kelvin sign lowercases to a one-byte 'k' and the dotted capital I
    // to two characters; neither moves where the tag is found.
    assert_eq!(
        extract_html_img_src("\u{212A}<img src=\"a.png\">"),
        Some("a.png".to_string())
    );
    assert_eq!(
        extract_html_img_src("İİİİİİ<img src='a'>"),
        Some("a".to_string())
    );
    assert_eq!(
        extract_image_source("\u{212A}<IMG SRC=\"/tmp/k.png\">"),
        Some(ImageSource::PathOrUrl("/tmp/k.png".to_string()))
    );
    assert_eq!(extract_image_source("plain"), None);
}

#[test]
fn the_tag_and_attribute_are_found_in_any_case() {
    assert_eq!(
        extract_html_img_src("<ImG alt=\"x\" SrC='/tmp/m.png'>"),
        Some("/tmp/m.png".to_string())
    );
    // An unclosed double-quoted value falls back to a single-quoted one.
    assert_eq!(
        extract_html_img_src("<img src=\"open src='/tmp/s.png'>"),
        Some("/tmp/s.png".to_string())
    );
}

#[test]
fn the_first_close_device_match_wins() {
    let names = vec![
        "Built-in Audio Analog Stereo".to_string(),
        "USB Headset Microphone".to_string(),
    ];
    assert_eq!(choose_device("usb headset microphone", &names), Some(1));
    assert_eq!(choose_device("Built-in", &names), Some(0));
    assert_eq!(choose_device("my HEADSET thing", &names), Some(1), "a long word matches");
    assert_eq!(choose_device("usb mic", &names), None, "short words do not count");
    assert_eq!(choose_device("x", &Vec::new()), None);
}

#[test]
fn segments_are_trimmed_and_blank_ones_dropped() {
    assert_eq!(recognised_segment("  你好 "), Some("你好".to_string()));
    assert_eq!(recognised_segment(" \n "), None);
    assert_eq!(downloading_status(WhisperModelSize::Base), "Downloading ggml-base.bin...");
}

#[test]
fn the_local_engine_is_addressed_and_started_by_port() {
    assert_eq!(translate_url(5050), "http://localhost:5050/translate");
    assert_eq!(health_url(8), "http://localhost:8/languages");
    assert_eq!(launch_args("gemma3-4b", 5050), vec!["-m", "gemma3-4b", "-p", "5050"]);
    assert_eq!(startup_timeout_message(), "ltengine did not become healthy within 120 seconds");
    assert!(idle_expired(true, 300_000_000_001));
    assert!(!idle_expired(true, 300_000_000_000));
    assert!(!idle_expired(false, u128::MAX));
}

#[test]
fn numbers_are_written_in_decimal() {
    assert_eq!(decimal_string(0), "0");
    assert_eq!(decimal_string(65535), "65535");
    assert_eq!(decimal_string(u64::MAX), "18446744073709551615");
}

#[test]
fn the_screen_text_follows_the_state() {
    let mut app = App::with_config(Config::default());
    app.target_language = Language::German;
    assert_eq!(header_target_text(&app), "[Target: German]");
    assert_eq!(
        language_selector_entry(Language::German, true),
        "✓ German (de) [CURRENT]"
    );
    assert_eq!(language_selector_entry(Language::French, false), "  French (fr) ");

    app.error_message = Some("boom".to_string());
    assert!(help_bar_text(&app).starts_with("Error: boom | Ctrl+T"));
    app.ui_language = UiLanguage::Chinese;
    app.settings_open = true;
    assert_eq!(help_bar_text(&app), "设置: ↑↓ 导航 | Enter 切换 | Esc 关闭");

    assert_eq!(language_selector_window(0, 100, 10), (0, 10));
    assert_eq!(language_selector_window(50, 100, 10), (45, 55));
    assert_eq!(language_selector_window(98, 100, 10), (93, 100));
    // A window that starts past a shortened list shows nothing.
    let (start, end) = language_selector_window(50, 3, 10);
    assert_eq!((start, end), (45, 3));
    assert_eq!((start..end).count(), 0);
    assert_eq!(separator_width(1), 0);
    assert_eq!(separator_width(40), 38);
}

// ---------------------------------------------------------- engine start --

fn engine() -> LTEngine {
    LTEngine::new(5050, "model.gguf".to_string(), "/usr/bin/ltengine".to_string())
}

fn step_kind(a: &StartAction) -> String {
    match a {
        StartAction::CheckRunning => "running?".to_string(),
        StartAction::CheckHealth => "healthy?".to_string(),
        StartAction::Spawn => "spawn".to_string(),
        StartAction::StartClock => "start clock".to_string(),
        StartAction::ReadClock => "clock?".to_string(),
        StartAction::Sleep(ms) => format!("sleep {ms}"),
        StartAction::Stop => "stop".to_string(),
        StartAction::Ready => "ready".to_string(),
        StartAction::Fail(m) => format!("fail: {m}"),
    }
}

#[test]
fn a_running_healthy_engine_is_ready_at_once() {
    let e = engine();
    let (phase, action) = start_begin();
    assert_eq!(step_kind(&action), "running?");
    let (phase, action) = next_start_step(&e, phase, StartEvent::Running(true));
    assert_eq!(step_kind(&action), "healthy?");
    let (phase, action) = next_start_step(&e, phase, StartEvent::Healthy(true));
    assert_eq!(step_kind(&action), "ready");
    assert_eq!(phase, StartPhase::Done);
}

#[test]
fn a_stopped_engine_is_started_and_polled_until_it_answers() {
    let e = engine();
    let (p, a) = start_begin();
    let (p, a) = next_start_step(&e, p, StartEvent::Running(false));
    assert_eq!(step_kind(&a), "spawn");
    let (p, a) = next_start_step(&e, p, StartEvent::Spawned(Ok(())));
    assert_eq!(step_kind(&a), "start clock");
    let (p, a) = next_start_step(&e, p, StartEvent::ClockStarted);
    assert_eq!(step_kind(&a), "clock?");
    let (p, a) = next_start_step(&e, p, StartEvent::Clock(0));
    assert_eq!(step_kind(&a), "running?");
    let (p, a) = next_start_step(&e, p, StartEvent::Running(true));
    assert_eq!(step_kind(&a), "healthy?");
    let (p, a) = next_start_step(&e, p, StartEvent::Healthy(false));
    assert_eq!(step_kind(&a), "sleep 500");
    let (p, a) = next_start_step(&e, p, StartEvent::Slept);
    assert_eq!(step_kind(&a), "clock?");
    let (p, _) = next_start_step(&e, p, StartEvent::Clock(500));
    let (p, _) = next_start_step(&e, p, StartEvent::Running(true));
    let (p, a) = next_start_step(&e, p, StartEvent::Healthy(true));
    assert_eq!(step_kind(&a), "ready");
    assert_eq!(p, StartPhase::Done);
}

#[test]
fn an_engine_that_never_answers_is_stopped_after_the_timeout() {
    let e = engine();
    let (p, _) = next_start_step(&e, StartPhase::Clock, StartEvent::Clock(119_999));
    assert_eq!(p, StartPhase::Running);
    let (p, a) = next_start_step(&e, StartPhase::Clock, StartEvent::Clock(120_000));
    assert_eq!(step_kind(&a), "stop");
    let (p, a) = next_start_step(&e, p, StartEvent::Stopped);
    assert_eq!(p, StartPhase::Done);
    assert_eq!(step_kind(&a), "fail: ltengine did not become healthy within 120 seconds");
}

#[test]
fn an_engine_that_exits_or_cannot_start_fails_with_its_message() {
    let e = engine();
    let (_, a) = next_start_step(&e, StartPhase::Running, StartEvent::Running(false));
    assert_eq!(
        step_kind(&a),
        "fail: ltengine exited unexpectedly – check that the model 'model.gguf' is valid"
    );
    let (_, a) = next_start_step(&e, StartPhase::Spawning, StartEvent::Spawned(Err("not found".to_string())));
    assert_eq!(
        step_kind(&a),
        "fail: Failed to start ltengine at '/usr/bin/ltengine' (is it installed and in PATH?): not found"
    );
}

#[test]
fn an_event_that_does_not_answer_repeats_the_question() {
    let e = engine();
    let (p, a) = next_start_step(&e, StartPhase::Health, StartEvent::Slept);
    assert_eq!(p, StartPhase::Health);
    assert_eq!(step_kind(&a), "healthy?");
}

#[test]
fn the_popups_texts_follow_the_interface_language() {
    let mut app = App::with_config(Config::default());
    app.ui_language = UiLanguage::English;
    assert_eq!(selector_title(&app), "Select Target Language");
    assert_eq!(selector_search_label(&app), "Search:");
    assert_eq!(selector_no_match_text(&app), "No languages match your search");
    assert_eq!(settings_title(&app), "Settings");
    assert_eq!(settings_instructions(&app), "Press Enter to toggle");
    app.ui_language = UiLanguage::Chinese;
    assert_eq!(selector_title(&app), "选择目标语言");
    assert_eq!(selector_search_label(&app), "搜索:");
    assert_eq!(selector_no_match_text(&app), "没有匹配的语言");
    assert_eq!(settings_title(&app), "设置");
    assert_eq!(settings_instructions(&app), "按 Enter 键切换");
}

#[test]
fn the_search_line_shows_a_hint_until_something_is_typed() {
    let mut app = App::with_config(Config::default());
    assert_eq!(selector_search_text(&app), "(type to filter...)");
    app.language_selector_search = "fin".to_string();
    assert_eq!(selector_search_text(&app), "fin");
}
