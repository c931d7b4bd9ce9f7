//! Config is what survives between runs, so its failure modes are all
//! user-visible: a service that cannot be cycled to, or a settings change
//! that is never written back.

use cihui_tui::app::{App, AppRequest};
use cihui_tui::config::{Config, TranslationService};

/// An app with default settings.
fn new_app() -> App {
    App::with_config(Config::default())
}

// ---------------------------------------------------------------- cycling --

#[test]
fn next_reaches_every_service_and_wraps() {
    let all = TranslationService::all();
    let mut service = all[0];
    let mut visited = vec![service];

    for _ in 1..all.len() {
        service = service.next();
        visited.push(service);
    }

    assert_eq!(
        visited,
        all.to_vec(),
        "cycling forward should visit every service in order"
    );
    assert_eq!(
        service.next(),
        all[0],
        "the last service should wrap around to the first"
    );
}

#[test]
fn prev_wraps_from_the_first_to_the_last() {
    let all = TranslationService::all();

    assert_eq!(all[0].prev(), all[all.len() - 1]);
}

#[test]
fn next_and_prev_are_inverses() {
    for service in TranslationService::all().iter() {
        assert_eq!(
            service.next().prev(),
            *service,
            "next then prev for {service:?}"
        );
        assert_eq!(
            service.prev().next(),
            *service,
            "prev then next for {service:?}"
        );
    }
}

#[test]
fn every_service_has_a_distinct_name() {
    let mut names: Vec<_> = TranslationService::all().iter().map(|s| s.name()).collect();
    let count = names.len();
    names.sort_unstable();
    names.dedup();

    assert_eq!(names.len(), count, "service display names must be unique");
}

#[test]
fn default_service_is_auto() {
    assert_eq!(TranslationService::default(), TranslationService::Auto);
}

// --------------------------------------------------------- app write-back --

#[test]
fn changing_a_setting_persists_it() {
    let mut test_app = new_app();

    test_app.cycle_translation_service_forward();
    let expected = test_app.translation_service;

    assert_eq!(
        test_app.take_requests(),
        vec![AppRequest::SaveConfig],
        "cycling the service should ask for the settings to be written"
    );
    // The program answers that request by writing `to_config()` to disk.
    let written = test_app.to_config();
    assert_eq!(
        written.translation_service, expected,
        "the settings written on that request should hold the new service"
    );
}

#[test]
fn selecting_a_language_persists_it() {
    let mut test_app = new_app();

    test_app.toggle_language_selector();
    test_app.language_selector_search_add_char('f');
    test_app.language_selector_search_add_char('i');
    test_app.language_selector_search_add_char('n');
    let selected = test_app.filtered_languages[test_app.language_selector_scroll];
    test_app.language_selector_select();

    assert_eq!(test_app.take_requests(), vec![AppRequest::SaveConfig]);
    let written = test_app.to_config();
    assert_eq!(written.target_language, selected);
    assert_eq!(test_app.target_language, selected);
}

#[test]
fn app_settings_survive_a_save_and_reload() {
    let mut test_app = new_app();

    test_app.cycle_translation_service_forward();
    test_app.cycle_translation_service_forward();

    let reloaded = test_app.to_config();
    let restored = App::with_config(reloaded);

    assert_eq!(restored.translation_service, test_app.translation_service);
    assert_eq!(restored.target_language, test_app.target_language);
}
