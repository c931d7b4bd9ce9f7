//! Translation talks to four services with different response shapes and a
//! fallback chain between them. These tests are hermetic: nothing here
//! depends on a free API being up.

use cihui_tui::config::TranslationService;
use cihui_tui::ltengine::LTEngine;
use cihui_tui::translation::{
    google_request_url, google_translation_from_chunks, mymemory_request_url,
    next_instance_step, next_translation_step, parse_google_response, InstanceOutcome,
    InstanceStep, simple_fallback_translation, to_ltengine_code, Backend,
    TranslationStep, GOOGLE_ENDPOINT, MYMEMORY_ENDPOINT,
};

// ------------------------------------------------------------ code mapping --

#[test]
fn chinese_codes_map_to_ltengine_script_codes() {
    assert_eq!(to_ltengine_code("zh-CN"), "zh-Hans");
    assert_eq!(to_ltengine_code("zh"), "zh-Hans");
    assert_eq!(to_ltengine_code("zh-TW"), "zh-Hant");
}

#[test]
fn a_few_other_codes_are_remapped() {
    assert_eq!(to_ltengine_code("no"), "nb");
    assert_eq!(to_ltengine_code("fil"), "tl");
}

#[test]
fn unknown_codes_pass_through_unchanged() {
    for code in ["en", "fi", "de", "ja", "pt-BR"] {
        assert_eq!(to_ltengine_code(code), code);
    }
}

// ---------------------------------------------------------------- ltengine --

#[test]
fn ltengine_builds_its_url_from_the_port() {
    let engine = LTEngine::new(5050, "gemma3-4b".to_string(), "ltengine".to_string());

    assert_eq!(engine.base_url(), "http://localhost:5050");
}

#[test]
fn ltengine_honours_a_custom_port() {
    let engine = LTEngine::new(9999, "m".to_string(), "ltengine".to_string());

    assert_eq!(engine.base_url(), "http://localhost:9999");
}

// ------------------------------------------------------------ request urls --

#[test]
fn google_urls_carry_the_languages_and_the_encoded_text() {
    let url = google_request_url(GOOGLE_ENDPOINT, "你好 world!", "zh-CN", "en");

    assert_eq!(
        url,
        "https://translate.google.com/translate_a/single?client=gtx&sl=zh-CN&tl=en&dt=t&q=%E4%BD%A0%E5%A5%BD%20world%21"
    );
}

#[test]
fn mymemory_urls_put_the_text_first() {
    let url = mymemory_request_url(MYMEMORY_ENDPOINT, "a-b_c.d~e f", "en", "zh-CN");

    assert_eq!(
        url,
        "https://api.mymemory.translated.net/get?q=a-b_c.d~e%20f&langpair=en|zh-CN"
    );
}

// ---------------------------------------------------------------- parsers --

/// Google's reply to "你好世界": one chunk holding the translation first.
const GOOGLE_SIMPLE: &str =
    r#"[[["Hello world","你好世界",null,null,10]],null,"zh-CN",null,null,null,1,[],[["zh-CN"],null,[1],["zh-CN"]]]"#;

/// Google's reply to two sentences: one chunk per sentence, then a chunk
/// that carries the romanisation and no translation.
const GOOGLE_MULTI_CHUNK: &str = r#"[[["Hello world. ","你好世界。",null,null,10],["This is a second sentence.","这是第二句话。",null,null,10],[null,null,"Zhè shì dì èr jù huà."]],null,"zh-CN"]"#;

/// Google's reply when there is nothing to translate.
const GOOGLE_EMPTY: &str = r#"[[],null,"zh-CN"]"#;

#[test]
fn google_response_yields_the_translation() {
    let translated = parse_google_response(GOOGLE_SIMPLE).unwrap();

    assert_eq!(translated, "Hello world");
}

#[test]
fn google_chunks_are_concatenated() {
    // Long input comes back split across several chunks, and dropping any of
    // them would silently truncate the translation.
    let translated = parse_google_response(GOOGLE_MULTI_CHUNK).unwrap();

    assert_eq!(
        translated, "Hello world. This is a second sentence.",
        "every chunk must appear, in order"
    );
}

#[test]
fn an_empty_google_result_is_an_error() {
    assert!(parse_google_response(GOOGLE_EMPTY).is_err());
}

#[test]
fn malformed_google_json_is_an_error() {
    assert!(parse_google_response("not json at all").is_err());
}

#[test]
fn an_unexpected_google_shape_is_an_error() {
    // An object rather than the expected array, e.g. an error envelope.
    assert!(parse_google_response(r#"{"error":"quota exceeded"}"#).is_err());
}

#[test]
fn google_parse_errors_say_what_went_wrong() {
    assert_eq!(
        parse_google_response(r#"{"error":"quota exceeded"}"#),
        Err("Unexpected response structure".to_string())
    );
    assert_eq!(
        parse_google_response(GOOGLE_EMPTY),
        Err("Empty translation result".to_string())
    );
    // The JSON parser's own message is passed on.
    let e = parse_google_response("not json at all").unwrap_err();
    assert!(e.contains("line 1"), "{e}");
}

// ---------------------------------------------------------- google chunks --

#[test]
fn google_chunks_are_joined_in_order() {
    let chunks = Some(vec![
        Some("Hello world. ".to_string()),
        None,
        Some("This is a second sentence.".to_string()),
    ]);

    assert_eq!(
        google_translation_from_chunks(&chunks),
        Ok("Hello world. This is a second sentence.".to_string())
    );
}

#[test]
fn google_without_text_is_an_error() {
    assert_eq!(
        google_translation_from_chunks(&Some(vec![None, Some(String::new())])),
        Err("Empty translation result".to_string())
    );
    assert_eq!(
        google_translation_from_chunks(&None),
        Err("Unexpected response structure".to_string())
    );
}

// ---------------------------------------------------------- fallback chain --

fn step(service: TranslationService, outcomes: &[Result<&str, &str>]) -> TranslationStep {
    let outcomes: Vec<Result<String, String>> = outcomes
        .iter()
        .map(|o| match o {
            Ok(t) => Ok(t.to_string()),
            Err(e) => Err(e.to_string()),
        })
        .collect();
    next_translation_step(service, "zh-CN", "en", "你好", &outcomes)
}

fn asks(s: TranslationStep) -> Option<Backend> {
    match s {
        TranslationStep::Ask(b) => Some(b),
        TranslationStep::Done(_) => None,
    }
}

fn done(s: TranslationStep) -> Option<String> {
    match s {
        TranslationStep::Ask(_) => None,
        TranslationStep::Done(t) => Some(t),
    }
}

#[test]
fn auto_mode_tries_every_service_with_ltengine_last() {
    let auto = TranslationService::Auto;
    assert_eq!(asks(step(auto, &[])), Some(Backend::Google));
    assert_eq!(asks(step(auto, &[Err("x")])), Some(Backend::MyMemory));
    assert_eq!(asks(step(auto, &[Err("x"), Err("y")])), Some(Backend::LibreTranslate));
    assert_eq!(asks(step(auto, &[Err("x"), Err("y"), Err("z")])), Some(Backend::LTEngine));
    assert_eq!(
        done(step(auto, &[Err("x"), Err("y"), Err("z"), Err("w")])),
        Some("[Translation unavailable - zh-CN to en] 你好".to_string())
    );
}

#[test]
fn auto_mode_stops_at_the_first_answer() {
    assert_eq!(
        done(step(TranslationService::Auto, &[Err("x"), Ok("hello")])),
        Some("hello".to_string())
    );
}

#[test]
fn a_chosen_service_is_asked_once_and_its_failure_shown() {
    assert_eq!(asks(step(TranslationService::MyMemory, &[])), Some(Backend::MyMemory));
    assert_eq!(
        done(step(TranslationService::Google, &[Err("boom")])),
        Some("[Google Translate unavailable] 你好".to_string())
    );
    assert_eq!(
        done(step(TranslationService::LibreTranslate, &[Err("boom")])),
        Some("[LibreTranslate unavailable] 你好".to_string())
    );
    assert_eq!(
        done(step(TranslationService::LTEngine, &[Err("not installed")])),
        Some("[LTEngine: not installed] 你好".to_string())
    );
    assert_eq!(
        done(step(TranslationService::MyMemory, &[Ok("hi")])),
        Some("hi".to_string())
    );
}

#[test]
fn empty_text_needs_no_service() {
    let outcomes: Vec<Result<String, String>> = Vec::new();
    assert_eq!(
        done(next_translation_step(TranslationService::Auto, "zh-CN", "en", "", &outcomes)),
        Some(String::new())
    );
}

#[test]
fn the_fallback_placeholder_wraps_the_text() {
    assert_eq!(simple_fallback_translation("你好"), "[Chinese text: 你好]");
}

// ------------------------------------------------- libretranslate instances --

fn instance_step(count: usize, outcomes: Vec<InstanceOutcome>) -> Result<usize, Result<String, String>> {
    match next_instance_step(count, &outcomes) {
        InstanceStep::Ask(i) => Ok(i),
        InstanceStep::Done(r) => Err(r),
    }
}

#[test]
fn libretranslate_instances_are_tried_in_order() {
    assert_eq!(instance_step(2, vec![]), Ok(0));
    assert_eq!(instance_step(2, vec![InstanceOutcome::Unavailable]), Ok(1));
    assert_eq!(
        instance_step(2, vec![InstanceOutcome::Unavailable, InstanceOutcome::Unparsed]),
        Err(Err("All LibreTranslate servers failed".to_string()))
    );
}

#[test]
fn the_first_libretranslate_answer_wins() {
    assert_eq!(
        instance_step(2, vec![InstanceOutcome::Unparsed, InstanceOutcome::Translated("Hello".to_string())]),
        Err(Ok("Hello".to_string()))
    );
    assert_eq!(
        instance_step(2, vec![InstanceOutcome::Translated("Hi".to_string())]),
        Err(Ok("Hi".to_string()))
    );
}

#[test]
fn an_unreadable_libretranslate_body_ends_the_search() {
    assert_eq!(
        instance_step(2, vec![InstanceOutcome::BodyUnread("connection reset".to_string())]),
        Err(Err("connection reset".to_string()))
    );
}
