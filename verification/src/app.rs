//! The state of the interactive tool and every change that a key press or a
//! background report makes to it. Work that leaves the process (writing the
//! settings file, asking the sound system for its devices) is not done
//! here: it is queued in `requests` for the program around the library.
use vstd::prelude::*;
use vstd::string::StrSliceExecFns;
use crate::config::{Config, TranslationService, next_service, prev_service};
use crate::cursor::{cursor_down, cursor_down_in, cursor_up, cursor_up_in, word_start, word_start_in};
use crate::language::{Language, all_languages, display_name, without_chinese};
use crate::pinyin_conv::is_hanzi;
use crate::text::{chars_of, concat, contains_seq, lowercase, push_char, push_str, splice, string_from_chars, sub_chars, to_lowercase, trim, trimmed, utf8_len, vec_contains};
use crate::transcription::{AudioDevice, TranscriptionEvent, TranscriptionLanguage, WhisperModelSize, next_language, next_model, prev_language, prev_model};

verus! {

broadcast use vstd::string::group_string_axioms;

#[verifier::external_type_specification]
#[verifier::external_body]
pub struct ExInstant(std::time::Instant);

#[verifier::external_type_specification]
#[verifier::external_body]
pub struct ExPathBuf(std::path::PathBuf);

/// std's `Instant::now`: the current time. Nothing is promised of it.
#[verifier::external_body]
pub(crate) fn now() -> (r: std::time::Instant) {
    std::time::Instant::now()
}

/// Which screen is shown.
#[derive(Clone, Copy, PartialEq, Eq, Debug, Structural)]
pub enum AppMode {
    /// Text input: type or paste text, get pinyin and a translation.
    Normal,
    /// Live speech-to-text.
    Transcription,
}

/// What the input box holds.
#[derive(Clone, Copy, PartialEq, Eq, Debug, Structural)]
pub enum InputMode {
    Text,
    ImagePath,
}

/// The language of the interface itself.
#[derive(Clone, Copy, PartialEq, Eq, Debug, Structural)]
pub enum UiLanguage {
    English,
    Chinese,
}

/// What the input appears to be written in.
#[derive(Clone, Copy, PartialEq, Eq, Debug, Structural)]
pub enum InputLanguage {
    English,
    Chinese,
    Other,
}

/// Work that the program around the library carries out for the app.
#[derive(Clone, Copy, PartialEq, Eq, Debug, Structural)]
pub enum AppRequest {
    /// Write `to_config()` to the settings file.
    SaveConfig,
    /// Refresh `transcription.available_devices` (`set_available_devices`).
    ListDevices,
    /// Look up the system's default input device (`fill_default_device`).
    DefaultDevice,
}

/// The state of the speech-to-text screen.
#[derive(Debug)]
pub struct TranscriptionState {
    pub is_recording: bool,
    pub language: TranscriptionLanguage,
    pub transcript: String,
    pub pinyin_lines: Vec<String>,
    pub hanzi_lines: Vec<String>,
    pub translation: String,
    pub vad_active: bool,
    pub selected_device: Option<String>,
    pub available_devices: Vec<AudioDevice>,
    pub device_selector_open: bool,
    pub device_selector_scroll: usize,
    pub settings_open: bool,
    pub settings_selection: usize,
    pub status: String,
    pub model_size: WhisperModelSize,
    pub model_ready: bool,
    pub model_loading: bool,
    /// Load progress as the bits of an `f32` between 0 and 1.
    pub model_progress: u32,
    pub transcript_scroll: u16,
}

impl TranscriptionState {
    /// The state of a screen that was just opened with `config`.
    pub open spec fn is_fresh(self, config: Config) -> bool {
        &&& !self.is_recording
        &&& self.language == config.transcription_language
        &&& self.transcript@ == Seq::<char>::empty()
        &&& self.pinyin_lines@ == Seq::<String>::empty()
        &&& self.hanzi_lines@ == Seq::<String>::empty()
        &&& self.translation@ == Seq::<char>::empty()
        &&& !self.vad_active
        &&& self.selected_device == config.transcription_device
        &&& self.available_devices@ == Seq::<AudioDevice>::empty()
        &&& !self.device_selector_open
        &&& self.device_selector_scroll == 0
        &&& !self.settings_open
        &&& self.settings_selection == 0
        &&& self.status@ == "Press Space to start recording"@
        &&& self.model_size == config.whisper_model
        &&& !self.model_ready
        &&& !self.model_loading
        &&& self.model_progress == 0
        &&& self.transcript_scroll == 0
    }

    pub fn new(config: &Config) -> (r: Self)
        ensures
            r.is_fresh(*config),
    {
        TranscriptionState {
            is_recording: false,
            language: config.transcription_language,
            transcript: String::new(),
            pinyin_lines: Vec::new(),
            hanzi_lines: Vec::new(),
            translation: String::new(),
            vad_active: false,
            selected_device: match &config.transcription_device {
                Some(d) => Some(d.clone()),
                None => None,
            },
            available_devices: Vec::new(),
            device_selector_open: false,
            device_selector_scroll: 0,
            settings_open: false,
            settings_selection: 0,
            status: "Press Space to start recording".to_string(),
            model_size: config.whisper_model,
            model_ready: false,
            model_loading: false,
            model_progress: 0,
            transcript_scroll: 0,
        }
    }
}

/// Everything the interface shows and edits.
#[derive(Debug)]
pub struct App {
    pub mode: AppMode,
    pub input: String,
    pub pinyin_lines: Vec<String>,
    pub hanzi_lines: Vec<String>,
    pub translation: String,
    pub input_mode: InputMode,
    pub ui_language: UiLanguage,
    pub input_language: InputLanguage,
    pub target_language: Language,
    pub translation_service: TranslationService,
    pub local_translate_url: String,
    pub ltengine_model: String,
    pub ltengine_path: String,
    /// A character index into `input`, not a byte index.
    pub cursor_position: usize,
    pub error_message: Option<String>,
    pub processing: bool,
    pub settings_open: bool,
    /// 0 is the interface language, 1 the translation service.
    pub settings_selection: usize,
    pub language_selector_open: bool,
    pub language_selector_search: String,
    pub language_selector_scroll: usize,
    pub filtered_languages: Vec<Language>,
    /// When the user last typed.
    pub last_input_time: Option<std::time::Instant>,
    pub pinyin_scroll: u16,
    pub translation_scroll: u16,
    /// Whether all text is selected, so that the next key replaces it.
    pub select_all: bool,
    pub transcription: TranscriptionState,
    /// Where settings are written; `None` is the user's default location.
    pub config_path: Option<std::path::PathBuf>,
    /// Work queued for the program around the library, oldest first.
    pub requests: Vec<AppRequest>,
}

/// The languages the picker offers for a search text: those of
/// `Language::all_for_picker` whose name contains the search text, both
/// taken in lowercase.
pub open spec fn picker_matches(search: Seq<char>) -> Seq<Language> {
    matching_languages(without_chinese(all_languages()), lowercase(search))
}


/// `new` is `old` with the input and everything derived from it emptied.
pub open spec fn is_cleared(old: App, new: App) -> bool {
    &&& new.input@ == Seq::<char>::empty()
    &&& new.pinyin_lines@ == Seq::<String>::empty()
    &&& new.hanzi_lines@ == Seq::<String>::empty()
    &&& new.translation@ == Seq::<char>::empty()
    &&& new == (App {
        input: new.input,
        pinyin_lines: new.pinyin_lines,
        hanzi_lines: new.hanzi_lines,
        translation: new.translation,
        cursor_position: 0,
        error_message: None,
        last_input_time: None,
        ..old
    })
}

/// `new` is `old` after an edit by the user: the input is now `s`, the
/// cursor `c`, the time of the edit is recorded and nothing else moved.
pub open spec fn is_edit(old: App, new: App, s: Seq<char>, c: int) -> bool {
    &&& new.input@ == s
    &&& new.cursor_position == c
    &&& new.last_input_time is Some
    &&& new == (App {
        input: new.input,
        cursor_position: new.cursor_position,
        last_input_time: new.last_input_time,
        ..old
    })
}

/// `new` is `old` with only the cursor moved to `c` and the selection
/// dropped.
pub open spec fn is_cursor_move(old: App, new: App, c: int) -> bool {
    &&& new.cursor_position == c
    &&& new == (App { cursor_position: new.cursor_position, select_all: false, ..old })
}

pub open spec fn clamp(c: int, n: int) -> int {
    if c <= n {
        c
    } else {
        n
    }
}

/// The languages of `langs` whose lowercase name contains `needle`.
pub open spec fn matching_languages(langs: Seq<Language>, needle: Seq<char>) -> Seq<Language>
    decreases langs.len(),
{
    if langs.len() == 0 {
        langs
    } else {
        let rest = matching_languages(langs.drop_last(), needle);
        if contains_seq(lowercase(display_name(langs.last())), needle) {
            rest.push(langs.last())
        } else {
            rest
        }
    }
}

/// ASCII letters.
pub open spec fn is_ascii_letter(c: char) -> bool {
    ('a' <= c && c <= 'z') || ('A' <= c && c <= 'Z')
}

pub open spec fn has_hanzi(s: Seq<char>) -> bool {
    exists|i: int| 0 <= i < s.len() && is_hanzi(#[trigger] s[i])
}

pub open spec fn has_ascii_letter(s: Seq<char>) -> bool {
    exists|i: int| 0 <= i < s.len() && is_ascii_letter(#[trigger] s[i])
}

/// What `detect_input_language` concludes from a non-empty text: Chinese
/// when it holds a hanzi, English when it holds an ASCII letter.
pub open spec fn detected_language(t: Seq<char>) -> InputLanguage {
    if has_hanzi(t) {
        InputLanguage::Chinese
    } else if has_ascii_letter(t) {
        InputLanguage::English
    } else {
        InputLanguage::Other
    }
}

/// The transcript after a recognised segment: the segment, trimmed, joined
/// to what came before with one space unless that already ends in a space
/// or a newline.
pub open spec fn joined_transcript(transcript: Seq<char>, segment: Seq<char>) -> Seq<char> {
    if transcript.len() > 0 && transcript.last() != ' ' && transcript.last() != '\n' {
        transcript.push(' ') + trim(segment)
    } else {
        transcript + trim(segment)
    }
}

/// The transcript after `segment`, as [`joined_transcript`] describes it.
fn join_segment(transcript: &str, segment: &str) -> (r: String)
    ensures
        r@ == joined_transcript(transcript@, segment@),
{
    let so_far = chars_of(transcript);
    let n = so_far.len();
    let mut out = String::new();
    push_str(&mut out, transcript);
    assert(out@ == transcript@);
    if n > 0 && so_far[n - 1] != ' ' && so_far[n - 1] != '\n' {
        push_char(&mut out, ' ');
    }
    let chars = chars_of(segment);
    let kept = trimmed(&chars);
    let kept_text = string_from_chars(&kept);
    push_str(&mut out, kept_text.as_str());
    out
}

/// What `App::toggle_mode` does, from `old` to `new`.
pub open spec fn toggle_mode_effect(old: App, new: App) -> bool {
    &&& (old.mode == AppMode::Normal ==> {
            &&& new == (App { mode: AppMode::Transcription, requests: new.requests, ..old })
            &&& new.requests@ == (if old.transcription.selected_device is None {
                old.requests@.push(AppRequest::ListDevices).push(AppRequest::DefaultDevice)
            } else {
                old.requests@.push(AppRequest::ListDevices)
            })
        })
    &&& (old.mode == AppMode::Transcription ==> new == (App { mode: AppMode::Normal, ..old }))
}

/// What `App::toggle_ui_language` does, from `old` to `new`.
pub open spec fn toggle_ui_language_effect(old: App, new: App) -> bool {
    &&& (new == (App {
            ui_language: match old.ui_language {
                UiLanguage::English => UiLanguage::Chinese,
                UiLanguage::Chinese => UiLanguage::English,
            },
            ..old
        }))
}

/// What `App::toggle_settings` does, from `old` to `new`.
pub open spec fn toggle_settings_effect(old: App, new: App) -> bool {
    &&& (new == (App {
            settings_open: !old.settings_open,
            settings_selection: if !old.settings_open { 0 } else { old.settings_selection },
            ..old
        }))
}

/// What `App::settings_move_up` does, from `old` to `new`.
pub open spec fn settings_move_up_effect(old: App, new: App) -> bool {
    &&& (new == (App {
            settings_selection: if old.settings_selection > 0 {
                (old.settings_selection - 1) as usize
            } else {
                0
            },
            ..old
        }))
}

/// What `App::settings_move_down` does, from `old` to `new`.
pub open spec fn settings_move_down_effect(old: App, new: App) -> bool {
    &&& (new == (App {
            settings_selection: if old.settings_selection < 1 {
                (old.settings_selection + 1) as usize
            } else {
                old.settings_selection
            },
            ..old
        }))
}

/// What `App::cycle_translation_service_forward` does, from `old` to `new`.
pub open spec fn cycle_translation_service_forward_effect(old: App, new: App) -> bool {
    &&& (new == (App {
            translation_service: next_service(old.translation_service),
            requests: new.requests,
            ..old
        }))
    &&& (new.requests@ == old.requests@.push(AppRequest::SaveConfig))
}

/// What `App::cycle_translation_service_backward` does, from `old` to `new`.
pub open spec fn cycle_translation_service_backward_effect(old: App, new: App) -> bool {
    &&& (new == (App {
            translation_service: prev_service(old.translation_service),
            requests: new.requests,
            ..old
        }))
    &&& (new.requests@ == old.requests@.push(AppRequest::SaveConfig))
}

/// What `App::settings_select` does, from `old` to `new`.
pub open spec fn settings_select_effect(old: App, new: App) -> bool {
    &&& (old.settings_selection == 0 ==> new == (App {
            ui_language: match old.ui_language {
                UiLanguage::English => UiLanguage::Chinese,
                UiLanguage::Chinese => UiLanguage::English,
            },
            ..old
        }))
    &&& (old.settings_selection == 1 ==> {
            &&& new == (App {
                translation_service: next_service(old.translation_service),
                requests: new.requests,
                ..old
            })
            &&& new.requests@ == old.requests@.push(AppRequest::SaveConfig)
        })
    &&& (old.settings_selection > 1 ==> new == old)
}

/// What `App::backspace` does, from `old` to `new`.
pub open spec fn backspace_effect(old: App, new: App) -> bool {
    &&& (old.select_all ==> {
            &&& new.last_input_time is Some
            &&& is_cleared(
                App { select_all: false, ..old },
                App { last_input_time: None, ..new },
            )
        })
    &&& (!old.select_all && old.cursor_position == 0 ==> new == old)
    &&& (!old.select_all && old.cursor_position > 0 ==> is_edit(
            old,
            new,
            if old.cursor_position <= old.input@.len() {
                old.input@.remove(old.cursor_position - 1)
            } else {
                old.input@
            },
            old.cursor_position - 1,
        ))
    &&& (old.cursor_in_input() ==> new.cursor_in_input())
}

/// What `App::move_cursor_left` does, from `old` to `new`.
pub open spec fn move_cursor_left_effect(old: App, new: App) -> bool {
    &&& (is_cursor_move(
            old,
            new,
            if old.cursor_position > 0 {
                old.cursor_position - 1
            } else {
                0
            },
        ))
    &&& (old.cursor_in_input() ==> new.cursor_in_input())
}

/// What `App::move_cursor_right` does, from `old` to `new`.
pub open spec fn move_cursor_right_effect(old: App, new: App) -> bool {
    &&& (is_cursor_move(
            old,
            new,
            if old.cursor_position < old.input@.len() {
                old.cursor_position + 1
            } else {
                old.cursor_position as int
            },
        ))
    &&& (old.cursor_in_input() ==> new.cursor_in_input())
}

/// What `App::move_cursor_up` does, from `old` to `new`.
pub open spec fn move_cursor_up_effect(old: App, new: App) -> bool {
    &&& (is_cursor_move(old, new, cursor_up(old.input@, old.cursor_position as int)))
    &&& (new.cursor_in_input())
}

/// What `App::move_cursor_down` does, from `old` to `new`.
pub open spec fn move_cursor_down_effect(old: App, new: App) -> bool {
    &&& (is_cursor_move(old, new, cursor_down(old.input@, old.cursor_position as int)))
    &&& (new.cursor_in_input())
}

/// What `App::move_cursor_to_start` does, from `old` to `new`.
pub open spec fn move_cursor_to_start_effect(old: App, new: App) -> bool {
    &&& (is_cursor_move(old, new, 0))
    &&& (new.cursor_in_input())
}

/// What `App::move_cursor_to_end` does, from `old` to `new`.
pub open spec fn move_cursor_to_end_effect(old: App, new: App) -> bool {
    &&& (is_cursor_move(old, new, old.input@.len() as int))
    &&& (new.cursor_in_input())
}

/// What `App::select_all` does, from `old` to `new`.
pub open spec fn select_all_effect(old: App, new: App) -> bool {
    &&& (new == (App {
            select_all: true,
            cursor_position: old.input@.len() as usize,
            ..old
        }))
    &&& (new.cursor_in_input())
}

/// What `App::delete_word_backwards` does, from `old` to `new`.
pub open spec fn delete_word_backwards_effect(old: App, new: App) -> bool {
    &&& (old.select_all ==> is_cleared(old, new))
    &&& (!old.select_all && old.cursor_position == 0 ==> new == old)
    &&& (!old.select_all && old.cursor_position > 0 ==> {
            let s = old.input@;
            let w = word_start(s, old.cursor_position as int);
            is_edit(old, new, s.take(w) + s.skip(old.cursor_position as int), w)
        })
    &&& (new.cursor_in_input())
}

/// What `App::delete_to_start` does, from `old` to `new`.
pub open spec fn delete_to_start_effect(old: App, new: App) -> bool {
    &&& (old.select_all ==> is_cleared(old, new))
    &&& (!old.select_all && old.cursor_position == 0 ==> new == old)
    &&& (!old.select_all && old.cursor_position > 0 ==> is_edit(
            old,
            new,
            old.input@.skip(clamp(old.cursor_position as int, old.input@.len() as int)),
            0,
        ))
    &&& (new.cursor_in_input() || (new == old))
}

/// What `App::toggle_language_selector` does, from `old` to `new`.
pub open spec fn toggle_language_selector_effect(old: App, new: App) -> bool {
    &&& (old.language_selector_open ==> new == (App {
            language_selector_open: false,
            ..old
        }))
    &&& (!old.language_selector_open ==> {
            &&& new.language_selector_search@ == Seq::<char>::empty()
            &&& new.filtered_languages@ == without_chinese(all_languages())
            &&& new == (App {
                language_selector_open: true,
                language_selector_search: new.language_selector_search,
                language_selector_scroll: 0,
                filtered_languages: new.filtered_languages,
                ..old
            })
        })
}

/// What `App::language_selector_move_up` does, from `old` to `new`.
pub open spec fn language_selector_move_up_effect(old: App, new: App) -> bool {
    &&& (new == (App {
            language_selector_scroll: if old.language_selector_scroll > 0 {
                (old.language_selector_scroll - 1) as usize
            } else {
                0
            },
            ..old
        }))
}

/// What `App::language_selector_move_down` does, from `old` to `new`.
pub open spec fn language_selector_move_down_effect(old: App, new: App) -> bool {
    &&& (new == (App {
            language_selector_scroll: if old.language_selector_scroll + 1
                < old.filtered_languages@.len() {
                (old.language_selector_scroll + 1) as usize
            } else {
                old.language_selector_scroll
            },
            ..old
        }))
}

/// What `App::language_selector_select` does, from `old` to `new`.
pub open spec fn language_selector_select_effect(old: App, new: App) -> bool {
    &&& (({
            let o = old;
            let picked = o.language_selector_scroll < o.filtered_languages@.len();
            let chosen = if picked {
                App {
                    target_language: o.filtered_languages@[o.language_selector_scroll as int],
                    requests: new.requests,
                    ..o
                }
            } else {
                o
            };
            &&& new.requests@ == (if picked {
                o.requests@.push(AppRequest::SaveConfig)
            } else {
                o.requests@
            })
            &&& o.language_selector_open ==> new == (App {
                language_selector_open: false,
                ..chosen
            })
            &&& !o.language_selector_open ==> {
                &&& new.language_selector_search@ == Seq::<char>::empty()
                &&& new.filtered_languages@ == without_chinese(all_languages())
                &&& new == (App {
                    language_selector_open: true,
                    language_selector_search: new.language_selector_search,
                    language_selector_scroll: 0,
                    filtered_languages: new.filtered_languages,
                    ..chosen
                })
            }
        }))
}

/// What `App::language_selector_search_backspace` does, from `old` to `new`.
pub open spec fn language_selector_search_backspace_effect(old: App, new: App) -> bool {
    &&& (new.language_selector_search@ == (if old.language_selector_search@.len() > 0 {
            old.language_selector_search@.drop_last()
        } else {
            old.language_selector_search@
        }))
    &&& (new.filtered_languages@ == picker_matches(new.language_selector_search@))
    &&& (new == (App {
            language_selector_search: new.language_selector_search,
            filtered_languages: new.filtered_languages,
            language_selector_scroll: 0,
            ..old
        }))
}

/// What `App::language_selector_search_add_char` does, from `old` to `new`.
pub open spec fn language_selector_search_add_char_effect(old: App, new: App, c: char) -> bool {
    &&& (new.language_selector_search@ == old.language_selector_search@.push(c))
    &&& (new.filtered_languages@ == picker_matches(new.language_selector_search@))
    &&& (new == (App {
            language_selector_search: new.language_selector_search,
            filtered_languages: new.filtered_languages,
            language_selector_scroll: 0,
            ..old
        }))
}

/// What `App::insert_char` does, from `old` to `new`.
pub open spec fn insert_char_effect(old: App, new: App, c: char) -> bool {
    &&& (!old.select_all ==> is_edit(
            old,
            new,
            old.input@.insert(clamp(old.cursor_position as int, old.input@.len() as int), c),
            old.cursor_position + 1,
        ))
    &&& (old.select_all ==> is_edit(
            App { select_all: false, ..old },
            new,
            seq![c],
            1,
        ))
    &&& (old.cursor_in_input() ==> new.cursor_in_input())
}

/// What `App::transcription_settings_move_up` does, from `old` to `new`.
pub open spec fn transcription_settings_move_up_effect(old: App, new: App) -> bool {
    &&& (new == (App {
            transcription: TranscriptionState {
                settings_selection: if old.transcription.settings_selection > 0 {
                    (old.transcription.settings_selection - 1) as usize
                } else {
                    0
                },
                ..old.transcription
            },
            ..old
        }))
}

/// What `App::transcription_settings_move_down` does, from `old` to `new`.
pub open spec fn transcription_settings_move_down_effect(old: App, new: App) -> bool {
    &&& (new == (App {
            transcription: TranscriptionState {
                settings_selection: if old.transcription.settings_selection < 1 {
                    (old.transcription.settings_selection + 1) as usize
                } else {
                    old.transcription.settings_selection
                },
                ..old.transcription
            },
            ..old
        }))
}

/// What `App::transcription_settings_cycle_forward` does, from `old` to `new`.
pub open spec fn transcription_settings_cycle_forward_effect(old: App, new: App) -> bool {
    &&& (({
            let t = old.transcription;
            let changed = if t.settings_selection == 0 {
                TranscriptionState { language: next_language(t.language), model_ready: false, ..t }
            } else if t.settings_selection == 1 {
                TranscriptionState { model_size: next_model(t.model_size), model_ready: false, ..t }
            } else {
                t
            };
            &&& new == (App { transcription: changed, requests: new.requests, ..old })
            &&& new.requests@ == old.requests@.push(AppRequest::SaveConfig)
        }))
}

/// What `App::transcription_settings_cycle_backward` does, from `old` to `new`.
pub open spec fn transcription_settings_cycle_backward_effect(old: App, new: App) -> bool {
    &&& (({
            let t = old.transcription;
            let changed = if t.settings_selection == 0 {
                TranscriptionState { language: prev_language(t.language), model_ready: false, ..t }
            } else if t.settings_selection == 1 {
                TranscriptionState { model_size: prev_model(t.model_size), model_ready: false, ..t }
            } else {
                t
            };
            &&& new == (App { transcription: changed, requests: new.requests, ..old })
            &&& new.requests@ == old.requests@.push(AppRequest::SaveConfig)
        }))
}

/// What `App::toggle_transcription_device_selector` does, from `old` to `new`.
pub open spec fn toggle_transcription_device_selector_effect(old: App, new: App) -> bool {
    &&& (old.transcription.device_selector_open ==> new == (App {
            transcription: TranscriptionState { device_selector_open: false, ..old.transcription },
            ..old
        }))
    &&& (!old.transcription.device_selector_open ==> {
            &&& new == (App {
                transcription: TranscriptionState {
                    device_selector_open: true,
                    device_selector_scroll: 0,
                    ..old.transcription
                },
                requests: new.requests,
                ..old
            })
            &&& new.requests@ == old.requests@.push(AppRequest::ListDevices)
        })
}

/// What `App::transcription_device_select` does, from `old` to `new`.
pub open spec fn transcription_device_select_effect(old: App, new: App) -> bool {
    &&& (({
            let t = old.transcription;
            let picked = t.device_selector_scroll < t.available_devices@.len();
            &&& picked ==> {
                &&& new.transcription.selected_device matches Some(d)
                    && d@ == t.available_devices@[t.device_selector_scroll as int].name@
                &&& new == (App {
                    transcription: TranscriptionState {
                        selected_device: new.transcription.selected_device,
                        device_selector_open: false,
                        ..t
                    },
                    requests: new.requests,
                    ..old
                })
                &&& new.requests@ == old.requests@.push(AppRequest::SaveConfig)
            }
            &&& !picked ==> new == (App {
                transcription: TranscriptionState { device_selector_open: false, ..t },
                ..old
            })
        }))
}

/// What `App::toggle_transcription_settings` does, from `old` to `new`.
pub open spec fn toggle_transcription_settings_effect(old: App, new: App) -> bool {
    &&& (new == (App {
            transcription: TranscriptionState {
                settings_open: !old.transcription.settings_open,
                settings_selection: if !old.transcription.settings_open {
                    0
                } else {
                    old.transcription.settings_selection
                },
                ..old.transcription
            },
            ..old
        }))
}

/// What `App::clear` does, from `old` to `new`.
pub open spec fn clear_effect(old: App, new: App) -> bool {
    &&& (is_cleared(old, new))
    &&& (new.cursor_in_input())
}

/// What a report of the loader, the audio thread or the recogniser does to
/// the transcription screen, and what it hands back for translation.
pub open spec fn transcription_event_effect(
    t: TranscriptionState,
    u: TranscriptionState,
    event: TranscriptionEvent,
    r: Option<String>,
) -> bool {
    match event {
        TranscriptionEvent::ModelLoading { progress, status } => {
            &&& r is None
            &&& u == (TranscriptionState { model_loading: true, model_progress: progress, status: status, ..t })
        },
        TranscriptionEvent::ModelReady => {
            &&& r is None
            &&& u.status@ == "Model ready. Press Space to record."@
            &&& u == (TranscriptionState { model_loading: false, model_ready: true, status: u.status, ..t })
        },
        TranscriptionEvent::Segment(text) => {
            &&& u.transcript@ == joined_transcript(t.transcript@, text@)
            &&& r matches Some(all) && all@ == u.transcript@
            &&& u == (TranscriptionState { transcript: u.transcript, ..t })
        },
        TranscriptionEvent::VadActivity(active) => {
            &&& r is None
            &&& u == (TranscriptionState { vad_active: active, ..t })
        },
        TranscriptionEvent::Error(e) => {
            &&& r is None
            &&& u.status@ == "Error: "@ + e@
            &&& u == (TranscriptionState { status: u.status, is_recording: false, ..t })
        },
    }
}

/// An app just opened with `config`: its settings, and everything else at
/// its starting value.
pub open spec fn started_with(config: Config, app: App) -> bool {
    &&& app.mode == AppMode::Normal
    &&& app.input@ == Seq::<char>::empty()
    &&& app.pinyin_lines@ == Seq::<String>::empty()
    &&& app.hanzi_lines@ == Seq::<String>::empty()
    &&& app.translation@ == Seq::<char>::empty()
    &&& app.input_mode == InputMode::Text
    &&& app.ui_language == UiLanguage::English
    &&& app.input_language == InputLanguage::Chinese
    &&& app.target_language == config.target_language
    &&& app.translation_service == config.translation_service
    &&& app.local_translate_url == config.local_translate_url
    &&& app.ltengine_model == config.ltengine_model
    &&& app.ltengine_path == config.ltengine_path
    &&& app.cursor_position == 0
    &&& app.error_message is None
    &&& !app.processing
    &&& !app.settings_open
    &&& app.settings_selection == 0
    &&& !app.language_selector_open
    &&& app.language_selector_search@ == Seq::<char>::empty()
    &&& app.language_selector_scroll == 0
    &&& app.filtered_languages@ == without_chinese(all_languages())
    &&& app.last_input_time is None
    &&& app.pinyin_scroll == 0
    &&& app.translation_scroll == 0
    &&& !app.select_all
    &&& app.transcription.is_fresh(config)
    &&& app.config_path is None
    &&& app.requests@ == Seq::<AppRequest>::empty()
}

/// `config` holds the settings of `app`, as they are saved.
pub open spec fn settings_of(app: App, config: Config) -> bool {
    &&& config.target_language == app.target_language
    &&& config.translation_service == app.translation_service
    &&& config.local_translate_url == app.local_translate_url
    &&& config.ltengine_model == app.ltengine_model
    &&& config.ltengine_path == app.ltengine_path
    &&& config.transcription_language == app.transcription.language
    &&& config.transcription_device == app.transcription.selected_device
    &&& config.whisper_model == app.transcription.model_size
}

/// Saving an app's settings and opening an app with them restores every
/// setting: target language, service, engine address, model and path, and
/// the transcription language, device and model.
pub proof fn law_settings_survive_reload(app: App, config: Config, restored: App)
    requires
        settings_of(app, config),
        started_with(config, restored),
    ensures
        restored.target_language == app.target_language,
        restored.translation_service == app.translation_service,
        restored.local_translate_url == app.local_translate_url,
        restored.ltengine_model == app.ltengine_model,
        restored.ltengine_path == app.ltengine_path,
        restored.transcription.language == app.transcription.language,
        restored.transcription.selected_device == app.transcription.selected_device,
        restored.transcription.model_size == app.transcription.model_size,
{
}

impl App {
    /// An app showing the given settings. Nothing is read or written.
    pub fn with_config(config: Config) -> (r: Self)
        ensures
            started_with(config, r),
    {
        let transcription = TranscriptionState::new(&config);
        App {
            mode: AppMode::Normal,
            input: String::new(),
            pinyin_lines: Vec::new(),
            hanzi_lines: Vec::new(),
            translation: String::new(),
            input_mode: InputMode::Text,
            ui_language: UiLanguage::English,
            input_language: InputLanguage::Chinese,
            target_language: config.target_language,
            translation_service: config.translation_service,
            local_translate_url: config.local_translate_url,
            ltengine_model: config.ltengine_model,
            ltengine_path: config.ltengine_path,
            cursor_position: 0,
            error_message: None,
            processing: false,
            settings_open: false,
            settings_selection: 0,
            language_selector_open: false,
            language_selector_search: String::new(),
            language_selector_scroll: 0,
            filtered_languages: Language::all_for_picker(),
            last_input_time: None,
            pinyin_scroll: 0,
            translation_scroll: 0,
            select_all: false,
            transcription,
            config_path: None,
            requests: Vec::new(),
        }
    }

    /// The same app, writing its settings to `path`.
    pub fn with_config_path(self, path: std::path::PathBuf) -> (r: Self)
        ensures
            r == (App { config_path: Some(path), ..self }),
    {
        let mut app = self;
        app.config_path = Some(path);
        app
    }

    pub fn get_title(&self) -> (r: &'static str)
        ensures
            r@ == (match self.ui_language {
                UiLanguage::English => "Cihui - Chinese Vocabulary Tool"@,
                UiLanguage::Chinese => "词汇 - 中文词汇工具"@,
            }),
    {
        match self.ui_language {
            UiLanguage::English => "Cihui - Chinese Vocabulary Tool",
            UiLanguage::Chinese => "词汇 - 中文词汇工具",
        }
    }

    pub fn get_input_label(&self) -> (r: &'static str)
        ensures
            r@ == (match (self.input_mode, self.ui_language) {
                (InputMode::Text, UiLanguage::English) => "Input"@,
                (InputMode::Text, UiLanguage::Chinese) => "输入"@,
                (InputMode::ImagePath, UiLanguage::English) => "Image path or Ctrl+V for clipboard"@,
                (InputMode::ImagePath, UiLanguage::Chinese) => "图片路径或 Ctrl+V 粘贴剪贴板"@,
            }),
    {
        match self.input_mode {
            InputMode::Text => match self.ui_language {
                UiLanguage::English => "Input",
                UiLanguage::Chinese => "输入",
            },
            InputMode::ImagePath => match self.ui_language {
                UiLanguage::English => "Image path or Ctrl+V for clipboard",
                UiLanguage::Chinese => "图片路径或 Ctrl+V 粘贴剪贴板",
            },
        }
    }

    pub fn get_pinyin_label(&self) -> (r: &'static str)
        ensures
            r@ == (match self.ui_language {
                UiLanguage::English => "Pinyin"@,
                UiLanguage::Chinese => "拼音"@,
            }),
    {
        match self.ui_language {
            UiLanguage::English => "Pinyin",
            UiLanguage::Chinese => "拼音",
        }
    }

    pub fn get_translation_label(&self) -> (r: &'static str)
        ensures
            r@ == (match self.ui_language {
                UiLanguage::English => "Translation"@,
                UiLanguage::Chinese => "翻译"@,
            }),
    {
        match self.ui_language {
            UiLanguage::English => "Translation",
            UiLanguage::Chinese => "翻译",
        }
    }

    /// The key bindings of the current screen.
    pub fn get_help_text(&self) -> (r: &'static str)
        ensures
            r@ == (match (self.mode, self.ui_language) {
                (AppMode::Transcription, UiLanguage::English) =>
                    "Space: Record | Ctrl+D: Device | Ctrl+S: Settings | Ctrl+X: Clear | Ctrl+T: Back | Esc: Quit"@,
                (AppMode::Transcription, UiLanguage::Chinese) =>
                    "空格: 录音 | Ctrl+D: 设备 | Ctrl+S: 设置 | Ctrl+X: 清空 | Ctrl+T: 返回 | Esc: 退出"@,
                (AppMode::Normal, UiLanguage::English) =>
                    "Ctrl+T: Transcribe | Ctrl+L: Language | Ctrl+V: Paste | Ctrl+A: Select All | Ctrl+X: Clear | Ctrl+S: Settings | Esc: Quit"@,
                (AppMode::Normal, UiLanguage::Chinese) =>
                    "Ctrl+T: 转录 | Ctrl+L: 语言 | Ctrl+V: 粘贴 | Ctrl+A: 全选 | Ctrl+X: 清空 | Ctrl+S: 设置 | Esc: 退出"@,
            }),
    {
        match self.mode {
            AppMode::Transcription => match self.ui_language {
                UiLanguage::English => "Space: Record | Ctrl+D: Device | Ctrl+S: Settings | Ctrl+X: Clear | Ctrl+T: Back | Esc: Quit",
                UiLanguage::Chinese => "空格: 录音 | Ctrl+D: 设备 | Ctrl+S: 设置 | Ctrl+X: 清空 | Ctrl+T: 返回 | Esc: 退出",
            },
            AppMode::Normal => match self.ui_language {
                UiLanguage::English => "Ctrl+T: Transcribe | Ctrl+L: Language | Ctrl+V: Paste | Ctrl+A: Select All | Ctrl+X: Clear | Ctrl+S: Settings | Esc: Quit",
                UiLanguage::Chinese => "Ctrl+T: 转录 | Ctrl+L: 语言 | Ctrl+V: 粘贴 | Ctrl+A: 全选 | Ctrl+X: 清空 | Ctrl+S: 设置 | Esc: 退出",
            },
        }
    }

    /// Queues a write of the settings.
    fn save_config(&mut self)
        ensures
            *final(self) == (App { requests: final(self).requests, ..*old(self) }),
            final(self).requests@ == old(self).requests@.push(AppRequest::SaveConfig),
    {
        self.requests.push(AppRequest::SaveConfig);
    }

    /// Hands over the queued work and empties the queue.
    pub fn take_requests(&mut self) -> (r: Vec<AppRequest>)
        ensures
            r@ == old(self).requests@,
            *final(self) == (App { requests: final(self).requests, ..*old(self) }),
            final(self).requests@ == Seq::<AppRequest>::empty(),
    {
        let mut taken: Vec<AppRequest> = Vec::new();
        std::mem::swap(&mut taken, &mut self.requests);
        taken
    }

    /// Switches between text input and transcription. Entering transcription
    /// asks for the list of devices and, when none is chosen yet, for the
    /// system's default.
    pub fn toggle_mode(&mut self)
        ensures
            toggle_mode_effect(*old(self), *final(self)),
    {
        match self.mode {
            AppMode::Normal => {
                self.requests.push(AppRequest::ListDevices);
                if self.transcription.selected_device.is_none() {
                    self.requests.push(AppRequest::DefaultDevice);
                }
                self.mode = AppMode::Transcription;
            },
            AppMode::Transcription => {
                self.mode = AppMode::Normal;
            },
        }
    }

    /// Takes the device list that `AppRequest::ListDevices` asked for.
    pub fn set_available_devices(&mut self, devices: Vec<AudioDevice>)
        ensures
            *final(self) == (App {
                transcription: TranscriptionState { available_devices: devices, ..old(self).transcription },
                ..*old(self)
            }),
    {
        self.transcription.available_devices = devices;
    }

    /// Takes the default device that `AppRequest::DefaultDevice` asked for;
    /// a device the user already chose stays.
    pub fn fill_default_device(&mut self, default: Option<String>)
        ensures
            old(self).transcription.selected_device is None ==> *final(self) == (App {
                transcription: TranscriptionState { selected_device: default, ..old(self).transcription },
                ..*old(self)
            }),
            old(self).transcription.selected_device is Some ==> *final(self) == *old(self),
    {
        if self.transcription.selected_device.is_none() {
            self.transcription.selected_device = default;
        }
    }

    pub fn toggle_ui_language(&mut self)
        ensures
            toggle_ui_language_effect(*old(self), *final(self)),
    {
        self.ui_language = match self.ui_language {
            UiLanguage::English => UiLanguage::Chinese,
            UiLanguage::Chinese => UiLanguage::English,
        };
    }

    pub fn toggle_settings(&mut self)
        ensures
            toggle_settings_effect(*old(self), *final(self)),
    {
        self.settings_open = !self.settings_open;
        if self.settings_open {
            self.settings_selection = 0;
        }
    }

    pub fn settings_move_up(&mut self)
        ensures
            settings_move_up_effect(*old(self), *final(self)),
    {
        if self.settings_selection > 0 {
            self.settings_selection = self.settings_selection - 1;
        }
    }

    pub fn settings_move_down(&mut self)
        ensures
            settings_move_down_effect(*old(self), *final(self)),
    {
        if self.settings_selection < 1 {
            self.settings_selection = self.settings_selection + 1;
        }
    }

    pub fn cycle_translation_service_forward(&mut self)
        ensures
            cycle_translation_service_forward_effect(*old(self), *final(self)),
    {
        self.translation_service = self.translation_service.next();
        self.save_config();
    }

    pub fn cycle_translation_service_backward(&mut self)
        ensures
            cycle_translation_service_backward_effect(*old(self), *final(self)),
    {
        self.translation_service = self.translation_service.prev();
        self.save_config();
    }

    /// Acts on the highlighted settings row: row 0 switches the interface
    /// language, row 1 moves to the next translation service.
    pub fn settings_select(&mut self)
        ensures
            settings_select_effect(*old(self), *final(self)),
    {
        if self.settings_selection == 0 {
            self.toggle_ui_language();
        } else if self.settings_selection == 1 {
            self.cycle_translation_service_forward();
        }
    }

    /// The settings as they stand, in the form that is saved.
    pub fn to_config(&self) -> (r: Config)
        ensures
            settings_of(*self, r),
    {
        Config {
            target_language: self.target_language,
            translation_service: self.translation_service,
            local_translate_url: self.local_translate_url.clone(),
            ltengine_model: self.ltengine_model.clone(),
            ltengine_path: self.ltengine_path.clone(),
            transcription_language: self.transcription.language,
            transcription_device: match &self.transcription.selected_device {
                Some(d) => Some(d.clone()),
                None => None,
            },
            whisper_model: self.transcription.model_size,
        }
    }

    /// Whether the cursor lies within the input.
    pub open spec fn cursor_in_input(self) -> bool {
        self.cursor_position <= self.input@.len()
    }

    /// Empties the input and everything derived from it.
    pub fn clear(&mut self)
        ensures
            clear_effect(*old(self), *final(self)),
    {
        self.input = String::new();
        self.pinyin_lines = Vec::new();
        self.hanzi_lines = Vec::new();
        self.translation = String::new();
        self.cursor_position = 0;
        self.error_message = None;
        self.last_input_time = None;
    }

    /// Types `c` at the cursor. Over a selection, `c` replaces the whole
    /// input.
    pub fn insert_char(&mut self, c: char)
        requires
            old(self).select_all || old(self).cursor_position < usize::MAX,
        ensures
            insert_char_effect(*old(self), *final(self), c),
    {
        if self.select_all {
            self.input = String::new();
            self.cursor_position = 0;
            self.select_all = false;
        }
        let chars = chars_of(self.input.as_str());
        let n = chars.len();
        let pos = if self.cursor_position <= n { self.cursor_position } else { n };
        let mut ins: Vec<char> = Vec::new();
        ins.push(c);
        let edited = splice(&chars, pos, pos, &ins);
        assert(edited@ =~= chars@.insert(pos as int, c));
        self.input = string_from_chars(&edited);
        self.cursor_position = self.cursor_position + 1;
        self.last_input_time = Some(now());
    }

    /// Puts `text` in at the cursor.
    pub fn insert_text(&mut self, text: &str)
        requires
            old(self).cursor_position + text@.len() <= usize::MAX,
        ensures
            ({
                let s = old(self).input@;
                let p = clamp(old(self).cursor_position as int, s.len() as int);
                &&& final(self).input@ == s.take(p) + text@ + s.skip(p)
                &&& final(self).cursor_position == old(self).cursor_position + text@.len()
                &&& *final(self) == (App {
                    input: final(self).input,
                    cursor_position: final(self).cursor_position,
                    ..*old(self)
                })
            }),
            old(self).cursor_in_input() ==> final(self).cursor_in_input(),
    {
        let chars = chars_of(self.input.as_str());
        let n = chars.len();
        let pos = if self.cursor_position <= n { self.cursor_position } else { n };
        let ins = chars_of(text);
        let edited = splice(&chars, pos, pos, &ins);
        self.input = string_from_chars(&edited);
        self.cursor_position = self.cursor_position + ins.len();
    }

    /// Removes the character before the cursor.
    pub fn delete_char(&mut self)
        ensures
            old(self).cursor_position == 0 ==> *final(self) == *old(self),
            old(self).cursor_position > 0 ==> is_edit(
                *old(self),
                *final(self),
                if old(self).cursor_position <= old(self).input@.len() {
                    old(self).input@.remove(old(self).cursor_position - 1)
                } else {
                    old(self).input@
                },
                old(self).cursor_position - 1,
            ),
            old(self).cursor_in_input() ==> final(self).cursor_in_input(),
    {
        if self.cursor_position > 0 {
            let chars = chars_of(self.input.as_str());
            if self.cursor_position <= chars.len() {
                let none: Vec<char> = Vec::new();
                let edited = splice(&chars, self.cursor_position - 1, self.cursor_position, &none);
                assert(edited@ =~= chars@.remove(self.cursor_position - 1));
                self.input = string_from_chars(&edited);
            }
            self.cursor_position = self.cursor_position - 1;
            self.last_input_time = Some(now());
        }
    }

    /// Backspace: clears a selection, otherwise removes the character before
    /// the cursor.
    pub fn backspace(&mut self)
        ensures
            backspace_effect(*old(self), *final(self)),
    {
        if self.select_all {
            self.select_all = false;
            self.clear();
            self.last_input_time = Some(now());
            return;
        }
        self.delete_char();
    }

    pub fn move_cursor_left(&mut self)
        ensures
            move_cursor_left_effect(*old(self), *final(self)),
    {
        self.select_all = false;
        if self.cursor_position > 0 {
            self.cursor_position = self.cursor_position - 1;
        }
    }

    pub fn move_cursor_right(&mut self)
        ensures
            move_cursor_right_effect(*old(self), *final(self)),
    {
        self.select_all = false;
        let count = self.input.as_str().unicode_len();
        if self.cursor_position < count {
            self.cursor_position = self.cursor_position + 1;
        }
    }

    /// Moves to the same column of the line above, or to its end when it is
    /// shorter.
    pub fn move_cursor_up(&mut self)
        requires
            old(self).cursor_in_input(),
        ensures
            move_cursor_up_effect(*old(self), *final(self)),
    {
        self.select_all = false;
        let chars = chars_of(self.input.as_str());
        self.cursor_position = cursor_up_in(&chars, self.cursor_position);
    }

    /// Moves to the same column of the line below, or to its end when it is
    /// shorter.
    pub fn move_cursor_down(&mut self)
        requires
            old(self).cursor_in_input(),
        ensures
            move_cursor_down_effect(*old(self), *final(self)),
    {
        self.select_all = false;
        let chars = chars_of(self.input.as_str());
        self.cursor_position = cursor_down_in(&chars, self.cursor_position);
    }

    pub fn move_cursor_to_start(&mut self)
        ensures
            move_cursor_to_start_effect(*old(self), *final(self)),
    {
        self.select_all = false;
        self.cursor_position = 0;
    }

    pub fn move_cursor_to_end(&mut self)
        ensures
            move_cursor_to_end_effect(*old(self), *final(self)),
    {
        self.select_all = false;
        self.cursor_position = self.input.as_str().unicode_len();
    }

    /// Selects the whole input, so that the next key replaces it.
    pub fn select_all(&mut self)
        ensures
            select_all_effect(*old(self), *final(self)),
    {
        self.select_all = true;
        self.cursor_position = self.input.as_str().unicode_len();
    }

    /// Removes the word before the cursor together with the whitespace that
    /// follows it; over a selection, clears everything.
    pub fn delete_word_backwards(&mut self)
        requires
            old(self).select_all || old(self).cursor_in_input(),
        ensures
            delete_word_backwards_effect(*old(self), *final(self)),
    {
        if self.select_all {
            self.clear();
            return;
        }
        if self.cursor_position == 0 {
            return;
        }
        let chars = chars_of(self.input.as_str());
        let start = word_start_in(&chars, self.cursor_position);
        let none: Vec<char> = Vec::new();
        let edited = splice(&chars, start, self.cursor_position, &none);
        assert(edited@ =~= chars@.take(start as int) + chars@.skip(self.cursor_position as int));
        self.input = string_from_chars(&edited);
        self.cursor_position = start;
        self.last_input_time = Some(now());
    }

    /// Removes everything before the cursor; over a selection, clears
    /// everything.
    pub fn delete_to_start(&mut self)
        ensures
            delete_to_start_effect(*old(self), *final(self)),
    {
        if self.select_all {
            self.clear();
            return;
        }
        if self.cursor_position == 0 {
            return;
        }
        let chars = chars_of(self.input.as_str());
        let n = chars.len();
        let pos = if self.cursor_position <= n { self.cursor_position } else { n };
        let rest = sub_chars(&chars, pos, n);
        self.input = string_from_chars(&rest);
        self.cursor_position = 0;
        self.last_input_time = Some(now());
    }

    /// Replaces the input with `text` and puts the cursor at its end.
    pub fn set_input(&mut self, text: String)
        ensures
            is_edit(App { select_all: false, ..*old(self) }, *final(self), text@, text@.len() as int),
            final(self).cursor_in_input(),
    {
        self.select_all = false;
        self.input = text;
        self.cursor_position = self.input.as_str().unicode_len();
        self.last_input_time = Some(now());
    }

    /// Adds `text` to the end of the input and puts the cursor there.
    pub fn append_input(&mut self, text: &str)
        ensures
            final(self).input@ == old(self).input@ + text@,
            *final(self) == (App {
                input: final(self).input,
                cursor_position: (old(self).input@.len() + text@.len()) as usize,
                ..*old(self)
            }),
            final(self).cursor_in_input(),
    {
        push_str(&mut self.input, text);
        self.cursor_position = self.input.as_str().unicode_len();
    }

    /// The cursor as a byte offset into the UTF-8 text of the input.
    pub fn cursor_byte_index(&self) -> (r: usize)
        requires
            utf8_len(self.input@) <= usize::MAX,
        ensures
            r == utf8_len(self.input@.take(clamp(self.cursor_position as int, self.input@.len() as int))),
    {
        let chars = chars_of(self.input.as_str());
        let n = chars.len();
        let end = if self.cursor_position <= n { self.cursor_position } else { n };
        let mut bytes: usize = 0;
        let mut i: usize = 0;
        while i < end
            invariant
                chars@ == self.input@,
                end <= chars@.len(),
                i <= end,
                bytes == utf8_len(chars@.take(i as int)),
                utf8_len(chars@) <= usize::MAX,
            decreases end - i,
        {
            proof {
                crate::text::lemma_utf8_len_monotone(chars@, i + 1, chars@.len() as int);
                assert(chars@.take(chars@.len() as int) == chars@);
                assert(chars@.take(i + 1).drop_last() == chars@.take(i as int));
            }
            bytes = bytes + crate::text::char_utf8_width(chars[i]);
            i = i + 1;
        }
        bytes
    }

    /// Works out from its characters what language the input is in. Blank
    /// input leaves the previous answer.
    pub fn detect_input_language(&mut self)
        ensures
            trim(old(self).input@).len() == 0 ==> *final(self) == *old(self),
            trim(old(self).input@).len() > 0 ==> *final(self) == (App {
                input_language: detected_language(trim(old(self).input@)),
                ..*old(self)
            }),
    {
        let chars = chars_of(self.input.as_str());
        let text = trimmed(&chars);
        if text.len() == 0 {
            return;
        }
        let mut chinese = false;
        let mut english = false;
        for i in 0..text.len()
            invariant
                chinese <==> exists|k: int| 0 <= k < i && is_hanzi(#[trigger] text@[k]),
                english <==> exists|k: int| 0 <= k < i && is_ascii_letter(#[trigger] text@[k]),
        {
            let c = text[i];
            if crate::pinyin_conv::is_chinese(c) {
                chinese = true;
            }
            if ('a' <= c && c <= 'z') || ('A' <= c && c <= 'Z') {
                english = true;
            }
        }
        self.input_language = if chinese {
            InputLanguage::Chinese
        } else if english {
            InputLanguage::English
        } else {
            InputLanguage::Other
        };
    }

    pub fn is_input_chinese(&self) -> (r: bool)
        ensures
            r == (self.input_language == InputLanguage::Chinese),
    {
        self.input_language == InputLanguage::Chinese
    }

    /// Switches between typed text and an image path, clearing the input.
    pub fn toggle_input_mode(&mut self)
        ensures
            is_cleared(
                App {
                    input_mode: match old(self).input_mode {
                        InputMode::Text => InputMode::ImagePath,
                        InputMode::ImagePath => InputMode::Text,
                    },
                    ..*old(self)
                },
                *final(self),
            ),
    {
        self.input_mode = match self.input_mode {
            InputMode::Text => InputMode::ImagePath,
            InputMode::ImagePath => InputMode::Text,
        };
        self.clear();
    }

    /// Opens or closes the target-language picker. Opening starts with an
    /// empty search over every language but Chinese.
    pub fn toggle_language_selector(&mut self)
        ensures
            toggle_language_selector_effect(*old(self), *final(self)),
    {
        self.language_selector_open = !self.language_selector_open;
        if self.language_selector_open {
            self.language_selector_search = String::new();
            self.language_selector_scroll = 0;
            self.filtered_languages = Language::all_for_picker();
        }
    }

    pub fn language_selector_move_up(&mut self)
        ensures
            language_selector_move_up_effect(*old(self), *final(self)),
    {
        if self.language_selector_scroll > 0 {
            self.language_selector_scroll = self.language_selector_scroll - 1;
        }
    }

    pub fn language_selector_move_down(&mut self)
        ensures
            language_selector_move_down_effect(*old(self), *final(self)),
    {
        let n = self.filtered_languages.len();
        if n > 0 && self.language_selector_scroll < n - 1 {
            self.language_selector_scroll = self.language_selector_scroll + 1;
        }
    }

    /// Takes the highlighted language as the target, queues a save, and
    /// closes the picker.
    pub fn language_selector_select(&mut self)
        ensures
            language_selector_select_effect(*old(self), *final(self)),
    {
        if self.language_selector_scroll < self.filtered_languages.len() {
            self.target_language = self.filtered_languages[self.language_selector_scroll];
            self.save_config();
        }
        self.toggle_language_selector();
    }

    /// Narrows the picker to the languages whose name contains the search
    /// text, ignoring case.
    fn filter_languages(&mut self)
        ensures
            final(self).filtered_languages@ == picker_matches(old(self).language_selector_search@),
            *final(self) == (App { filtered_languages: final(self).filtered_languages, ..*old(self) }),
    {
        let search = to_lowercase(self.language_selector_search.as_str());
        let needle = chars_of(search.as_str());
        let all = Language::all_for_picker();
        let mut found: Vec<Language> = Vec::new();
        let n = all.len();
        for i in 0..n
            invariant
                n == all@.len(),
                all@ == without_chinese(all_languages()),
                needle@ == lowercase(self.language_selector_search@),
                found@ == matching_languages(all@.take(i as int), needle@),
        {
            let lang = all[i];
            let name = to_lowercase(lang.name());
            let hay = chars_of(name.as_str());
            assert(all@.take(i + 1).drop_last() == all@.take(i as int));
            if vec_contains(&hay, &needle) {
                found.push(lang);
            }
        }
        assert(all@.take(n as int) == all@);
        self.filtered_languages = found;
    }

    /// Adds `c` to the search text and filters again from the top.
    pub fn language_selector_search_add_char(&mut self, c: char)
        ensures
            language_selector_search_add_char_effect(*old(self), *final(self), c),
    {
        push_char(&mut self.language_selector_search, c);
        self.filter_languages();
        self.language_selector_scroll = 0;
    }

    /// Drops the last character of the search text and filters again from
    /// the top.
    pub fn language_selector_search_backspace(&mut self)
        ensures
            language_selector_search_backspace_effect(*old(self), *final(self)),
    {
        let chars = chars_of(self.language_selector_search.as_str());
        if chars.len() > 0 {
            let kept = sub_chars(&chars, 0, chars.len() - 1);
            self.language_selector_search = string_from_chars(&kept);
        }
        self.filter_languages();
        self.language_selector_scroll = 0;
    }

    pub fn language_selector_clear_search(&mut self)
        ensures
            final(self).language_selector_search@ == Seq::<char>::empty(),
            final(self).filtered_languages@ == without_chinese(all_languages()),
            *final(self) == (App {
                language_selector_search: final(self).language_selector_search,
                filtered_languages: final(self).filtered_languages,
                language_selector_scroll: 0,
                ..*old(self)
            }),
    {
        self.language_selector_search = String::new();
        self.filtered_languages = Language::all_for_picker();
        self.language_selector_scroll = 0;
    }

    pub fn transcription_settings_move_up(&mut self)
        ensures
            transcription_settings_move_up_effect(*old(self), *final(self)),
    {
        if self.transcription.settings_selection > 0 {
            self.transcription.settings_selection = self.transcription.settings_selection - 1;
        }
    }

    pub fn transcription_settings_move_down(&mut self)
        ensures
            transcription_settings_move_down_effect(*old(self), *final(self)),
    {
        if self.transcription.settings_selection < 1 {
            self.transcription.settings_selection = self.transcription.settings_selection + 1;
        }
    }

    /// Moves the highlighted transcription setting forward (row 0 the
    /// language, row 1 the model), marks the loaded model stale, and queues a
    /// save.
    pub fn transcription_settings_cycle_forward(&mut self)
        ensures
            transcription_settings_cycle_forward_effect(*old(self), *final(self)),
    {
        if self.transcription.settings_selection == 0 {
            self.transcription.language = self.transcription.language.next();
            self.transcription.model_ready = false;
        } else if self.transcription.settings_selection == 1 {
            self.transcription.model_size = self.transcription.model_size.next();
            self.transcription.model_ready = false;
        }
        self.save_config();
    }

    /// Moves the highlighted transcription setting back, marks the loaded
    /// model stale, and queues a save.
    pub fn transcription_settings_cycle_backward(&mut self)
        ensures
            transcription_settings_cycle_backward_effect(*old(self), *final(self)),
    {
        if self.transcription.settings_selection == 0 {
            self.transcription.language = self.transcription.language.prev();
            self.transcription.model_ready = false;
        } else if self.transcription.settings_selection == 1 {
            self.transcription.model_size = self.transcription.model_size.prev();
            self.transcription.model_ready = false;
        }
        self.save_config();
    }

    /// Opens or closes the device picker; opening starts at the top and asks
    /// for a fresh device list.
    pub fn toggle_transcription_device_selector(&mut self)
        ensures
            toggle_transcription_device_selector_effect(*old(self), *final(self)),
    {
        self.transcription.device_selector_open = !self.transcription.device_selector_open;
        if self.transcription.device_selector_open {
            self.transcription.device_selector_scroll = 0;
            self.requests.push(AppRequest::ListDevices);
        }
    }

    /// Chooses the highlighted device, queues a save, and closes the picker.
    pub fn transcription_device_select(&mut self)
        ensures
            transcription_device_select_effect(*old(self), *final(self)),
    {
        if self.transcription.device_selector_scroll < self.transcription.available_devices.len() {
            let name = self.transcription.available_devices[self.transcription.device_selector_scroll].name.clone();
            self.transcription.selected_device = Some(name);
            self.save_config();
        }
        self.transcription.device_selector_open = false;
    }

    pub fn toggle_transcription_settings(&mut self)
        ensures
            toggle_transcription_settings_effect(*old(self), *final(self)),
    {
        self.transcription.settings_open = !self.transcription.settings_open;
        if self.transcription.settings_open {
            self.transcription.settings_selection = 0;
        }
    }

    /// Folds one report of the model loader, the audio thread or the
    /// recogniser into the transcription screen. A recognised segment
    /// returns the whole transcript, which is then to be converted and
    /// translated; other reports return `None`.
    #[verifier::spinoff_prover]
    pub fn apply_transcription_event(&mut self, event: TranscriptionEvent) -> (r: Option<String>)
        ensures
            transcription_event_effect(old(self).transcription, final(self).transcription, event, r),
            *final(self) == (App { transcription: final(self).transcription, ..*old(self) }),
    {
        let r = self.transcription.apply_event(event);
        r
    }
}

impl TranscriptionState {
    #[verifier::spinoff_prover]
    fn apply_event(&mut self, event: TranscriptionEvent) -> (r: Option<String>)
        ensures
            transcription_event_effect(*old(self), *final(self), event, r),
    {
        match event {
            TranscriptionEvent::ModelLoading { progress, status } => {
                self.model_loading = true;
                self.model_progress = progress;
                self.status = status;
                None
            },
            TranscriptionEvent::ModelReady => {
                self.model_loading = false;
                self.model_ready = true;
                self.status = "Model ready. Press Space to record.".to_string();
                None
            },
            TranscriptionEvent::Segment(text) => {
                let joined = join_segment(self.transcript.as_str(), text.as_str());
                self.transcript = joined;
                Some(self.transcript.clone())
            },
            TranscriptionEvent::VadActivity(active) => {
                self.vad_active = active;
                None
            },
            TranscriptionEvent::Error(e) => {
                self.status = concat("Error: ", e.as_str());
                self.is_recording = false;
                None
            },
        }
    }

    /// The state side of stopping a recording: not recording, no voice
    /// activity, and a ready model says so in the status line.
    pub fn stop_recording(&mut self)
        ensures
            stop_recording_effect(*old(self), *final(self)),
    {
        self.is_recording = false;
        self.vad_active = false;
        if self.model_ready {
            self.status = "Stopped. Press Space to record.".to_string();
        }
    }

    /// Empties the transcript and what was derived from it.
    pub fn clear_transcript(&mut self)
        ensures
            clear_transcript_effect(*old(self), *final(self)),
    {
        self.transcript = String::new();
        self.pinyin_lines = Vec::new();
        self.hanzi_lines = Vec::new();
        self.translation = String::new();
        self.transcript_scroll = 0;
    }
}

/// What `TranscriptionState::stop_recording` does.
pub open spec fn stop_recording_effect(t: TranscriptionState, u: TranscriptionState) -> bool {
    &&& t.model_ready ==> u.status@ == "Stopped. Press Space to record."@
    &&& u == (TranscriptionState {
        is_recording: false,
        vad_active: false,
        status: if t.model_ready { u.status } else { t.status },
        ..t
    })
}

/// What `TranscriptionState::clear_transcript` does.
pub open spec fn clear_transcript_effect(t: TranscriptionState, u: TranscriptionState) -> bool {
    &&& u.transcript@ == Seq::<char>::empty()
    &&& u.pinyin_lines@ == Seq::<String>::empty()
    &&& u.hanzi_lines@ == Seq::<String>::empty()
    &&& u.translation@ == Seq::<char>::empty()
    &&& u == (TranscriptionState {
        transcript: u.transcript,
        pinyin_lines: u.pinyin_lines,
        hanzi_lines: u.hanzi_lines,
        translation: u.translation,
        transcript_scroll: 0,
        ..t
    })
}

/// What `App::delete_forward` does, from `old` to `new`.
pub open spec fn delete_forward_effect(old: App, new: App) -> bool {
    &&& old.select_all ==> {
        &&& new.last_input_time is Some
        &&& is_cleared(App { select_all: false, ..old }, App { last_input_time: None, ..new })
    }
    &&& !old.select_all && old.cursor_position < old.input@.len() ==> is_edit(
        old,
        new,
        old.input@.remove(old.cursor_position as int),
        old.cursor_position as int,
    )
    &&& !old.select_all && old.cursor_position >= old.input@.len() ==> new == old
}

impl App {
    /// The Delete key: clears a selection, otherwise removes the character
    /// after the cursor.
    pub fn delete_forward(&mut self)
        ensures
            delete_forward_effect(*old(self), *final(self)),
            old(self).cursor_in_input() ==> final(self).cursor_in_input(),
    {
        if self.select_all {
            self.select_all = false;
            self.clear();
            self.last_input_time = Some(now());
            return;
        }
        let chars = chars_of(self.input.as_str());
        if self.cursor_position < chars.len() {
            let none: Vec<char> = Vec::new();
            let edited = splice(&chars, self.cursor_position, self.cursor_position + 1, &none);
            assert(edited@ =~= chars@.remove(self.cursor_position as int));
            self.input = string_from_chars(&edited);
            self.last_input_time = Some(now());
        }
    }

    /// Scrolls the pinyin and translation panes three rows up or down,
    /// stopping at the top and at the largest offset.
    pub fn scroll_output(&mut self, down: bool)
        ensures
            *final(self) == (App {
                pinyin_scroll: if down {
                    saturating_add_u16(old(self).pinyin_scroll, 3)
                } else {
                    saturating_sub_u16(old(self).pinyin_scroll, 3)
                },
                translation_scroll: if down {
                    saturating_add_u16(old(self).translation_scroll, 3)
                } else {
                    saturating_sub_u16(old(self).translation_scroll, 3)
                },
                ..*old(self)
            }),
    {
        if down {
            self.pinyin_scroll = self.pinyin_scroll.saturating_add(3);
            self.translation_scroll = self.translation_scroll.saturating_add(3);
        } else {
            self.pinyin_scroll = self.pinyin_scroll.saturating_sub(3);
            self.translation_scroll = self.translation_scroll.saturating_sub(3);
        }
    }
}

pub open spec fn saturating_add_u16(a: u16, b: u16) -> u16 {
    if a + b > u16::MAX {
        u16::MAX
    } else {
        (a + b) as u16
    }
}

pub open spec fn saturating_sub_u16(a: u16, b: u16) -> u16 {
    if a < b {
        0
    } else {
        (a - b) as u16
    }
}

/// What `App::begin_model_load` does.
pub open spec fn begin_model_load_effect(old: App, new: App) -> bool {
    &&& new.transcription.status@ == "Loading model..."@
    &&& new == (App {
        transcription: TranscriptionState {
            model_loading: true,
            status: new.transcription.status,
            ..old.transcription
        },
        ..old
    })
}

/// What `App::begin_recording` does.
pub open spec fn begin_recording_effect(old: App, new: App) -> bool {
    &&& new.transcription.status@ == "Recording..."@
    &&& new == (App {
        transcription: TranscriptionState {
            is_recording: true,
            status: new.transcription.status,
            ..old.transcription
        },
        ..old
    })
}

/// What `App::stop_recording` does.
pub open spec fn app_stop_recording_effect(old: App, new: App) -> bool {
    &&& stop_recording_effect(old.transcription, new.transcription)
    &&& new == (App { transcription: new.transcription, ..old })
}

impl App {
    /// Marks the model as loading; the caller starts the load.
    pub fn begin_model_load(&mut self)
        ensures
            begin_model_load_effect(*old(self), *final(self)),
    {
        self.transcription.model_loading = true;
        self.transcription.status = "Loading model...".to_string();
    }

    /// Marks the screen as recording; the caller starts the audio task.
    pub fn begin_recording(&mut self)
        ensures
            begin_recording_effect(*old(self), *final(self)),
    {
        self.transcription.is_recording = true;
        self.transcription.status = "Recording...".to_string();
    }

    /// The state side of stopping a recording; the caller stops the task.
    pub fn stop_recording(&mut self)
        ensures
            app_stop_recording_effect(*old(self), *final(self)),
    {
        self.transcription.stop_recording();
    }

    /// Whether typing has produced input that is due for conversion and
    /// translation, once the user has paused: on the text screen, with an
    /// edit recorded, nothing in progress and some visible input.
    pub fn input_pending(&self) -> (r: bool)
        ensures
            r == (self.mode == AppMode::Normal && self.last_input_time is Some && !self.processing
                && trim(self.input@).len() > 0),
    {
        if self.mode != AppMode::Normal || self.last_input_time.is_none() || self.processing {
            return false;
        }
        let chars = chars_of(self.input.as_str());
        let t = trimmed(&chars);
        t.len() > 0
    }
}

/// How many characters of `s` begin before byte `b` of its UTF-8 text.
pub open spec fn chars_before_byte(s: Seq<char>, b: int) -> int
    decreases s.len(),
{
    if s.len() == 0 {
        0
    } else if utf8_len(s.drop_last()) >= b {
        chars_before_byte(s.drop_last(), b)
    } else {
        s.len() as int
    }
}

impl App {
    /// The character index of the input at byte `byte_idx`: the number of
    /// characters that start before it.
    #[allow(dead_code)]
    fn byte_to_char_index(&self, byte_idx: usize) -> (r: usize)
        ensures
            r == chars_before_byte(self.input@, byte_idx as int),
    {
        let chars = chars_of(self.input.as_str());
        let n = chars.len();
        let mut current: u128 = 0;
        let mut k: usize = 0;
        while k < n && current < byte_idx as u128
            invariant
                chars@ == self.input@,
                n == chars@.len(),
                k <= n,
                current == utf8_len(chars@.take(k as int)),
                current <= 4 * k,
                forall|j: int| 0 <= j < k ==> #[trigger] utf8_len(chars@.take(j)) < byte_idx,
            decreases n - k,
        {
            assert(chars@.take(k + 1).drop_last() == chars@.take(k as int));
            current = current + crate::text::char_utf8_width(chars[k]) as u128;
            k = k + 1;
        }
        proof {
            lemma_chars_before_byte(chars@, byte_idx as int, k as int);
        }
        k
    }
}

proof fn lemma_chars_before_byte(s: Seq<char>, b: int, k: int)
    requires
        0 <= k <= s.len(),
        forall|j: int| 0 <= j < k ==> #[trigger] utf8_len(s.take(j)) < b,
        k == s.len() || utf8_len(s.take(k)) >= b,
    ensures
        chars_before_byte(s, b) == k,
    decreases s.len(),
{
    if s.len() == 0 {
    } else if k == s.len() {
        assert(s.take(s.len() - 1) == s.drop_last());
        assert(utf8_len(s.take(s.len() - 1)) < b);
    } else {
        assert(s.take(s.len() - 1) == s.drop_last());
        crate::text::lemma_utf8_len_monotone(s, k, s.len() - 1);
        assert(utf8_len(s.drop_last()) >= b);
        assert forall|j: int| 0 <= j < k implies #[trigger] utf8_len(s.drop_last().take(j)) < b by {
            assert(s.drop_last().take(j) == s.take(j));
        }
        assert(s.drop_last().take(k) == s.take(k));
        lemma_chars_before_byte(s.drop_last(), b, k);
    }
}

} // verus!
