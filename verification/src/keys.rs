//! What each key does. These are state changes of [`App`] only: where a key
//! calls for work outside the process (recording, loading a model, reading
//! the clipboard, quitting), the dispatcher says so in its result.
use vstd::prelude::*;
use vstd::string::StrSliceExecFns;
use crate::app::{
    App, AppMode, InputMode, TranscriptionState, backspace_effect, clear_effect,
    clear_transcript_effect, cycle_translation_service_backward_effect,
    cycle_translation_service_forward_effect, delete_forward_effect, delete_to_start_effect,
    delete_word_backwards_effect, insert_char_effect, language_selector_move_down_effect,
    language_selector_move_up_effect, language_selector_search_add_char_effect,
    language_selector_search_backspace_effect, language_selector_select_effect,
    move_cursor_down_effect, move_cursor_left_effect, move_cursor_right_effect,
    move_cursor_to_end_effect, move_cursor_to_start_effect, move_cursor_up_effect,
    saturating_add_u16, saturating_sub_u16, select_all_effect, settings_move_down_effect,
    settings_move_up_effect, settings_select_effect, toggle_language_selector_effect, toggle_mode_effect, toggle_settings_effect,
    toggle_transcription_device_selector_effect, toggle_transcription_settings_effect,
    transcription_device_select_effect, transcription_settings_cycle_backward_effect,
    transcription_settings_cycle_forward_effect, transcription_settings_move_down_effect,
    transcription_settings_move_up_effect, begin_model_load_effect, begin_recording_effect,
    app_stop_recording_effect, };

verus! {

broadcast use vstd::string::group_string_axioms;

/// The keys the interface tells apart.
#[derive(Clone, Copy, PartialEq, Eq, Debug, Structural)]
pub enum KeyCode {
    Backspace,
    Enter,
    Left,
    Right,
    Up,
    Down,
    Home,
    End,
    Tab,
    Delete,
    Esc,
    Char(char),
    /// Any other key.
    Other,
}

/// A key press, with whether Control was held.
#[derive(Clone, Copy, PartialEq, Eq, Debug, Structural)]
pub struct KeyEvent {
    pub code: KeyCode,
    pub control: bool,
}

/// Work outside the app's state that a key calls for.
#[derive(Clone, Copy, PartialEq, Eq, Debug, Structural)]
pub enum KeyAction {
    /// Nothing beyond the change of state.
    Continue,
    /// Stop the running recording task, if any.
    StopRecording,
    /// Start recording with the loaded model on the selected device.
    StartRecording,
    /// Load the recogniser model for the chosen size and language.
    LoadModel,
    /// Forget the loaded model: its settings changed.
    DropModel,
    /// Read the clipboard into the input.
    Paste,
    /// Stop any recording, shut the translation engine down and exit.
    Quit,
}

/// What `handle_settings_input` does.
pub open spec fn settings_key_effect(old: App, new: App, code: KeyCode) -> bool {
    match code {
        KeyCode::Esc => toggle_settings_effect(old, new),
        KeyCode::Up => settings_move_up_effect(old, new),
        KeyCode::Down => settings_move_down_effect(old, new),
        KeyCode::Enter => settings_select_effect(old, new),
        KeyCode::Char(c) => if c == ' ' {
            settings_select_effect(old, new)
        } else {
            new == old
        },
        KeyCode::Left => if old.settings_selection == 1 {
            cycle_translation_service_backward_effect(old, new)
        } else {
            new == old
        },
        KeyCode::Right => if old.settings_selection == 1 {
            cycle_translation_service_forward_effect(old, new)
        } else {
            new == old
        },
        _ => new == old,
    }
}

/// Handles a key while the settings popup is open.
pub fn handle_settings_input(app: &mut App, key: KeyEvent)
    ensures
        settings_key_effect(*old(app), *final(app), key.code),
{
    match key.code {
        KeyCode::Esc => app.toggle_settings(),
        KeyCode::Up => app.settings_move_up(),
        KeyCode::Down => app.settings_move_down(),
        KeyCode::Enter => app.settings_select(),
        KeyCode::Char(c) => {
            if c == ' ' {
                app.settings_select();
            }
        },
        KeyCode::Left => {
            if app.settings_selection == 1 {
                app.cycle_translation_service_backward();
            }
        },
        KeyCode::Right => {
            if app.settings_selection == 1 {
                app.cycle_translation_service_forward();
            }
        },
        _ => {},
    }
}

/// What `handle_language_selector_input` does.
pub open spec fn language_key_effect(old: App, new: App, code: KeyCode) -> bool {
    match code {
        KeyCode::Esc => toggle_language_selector_effect(old, new),
        KeyCode::Up => language_selector_move_up_effect(old, new),
        KeyCode::Down => language_selector_move_down_effect(old, new),
        KeyCode::Enter => language_selector_select_effect(old, new),
        KeyCode::Char(c) => language_selector_search_add_char_effect(old, new, c),
        KeyCode::Backspace => language_selector_search_backspace_effect(old, new),
        _ => new == old,
    }
}

/// Handles a key while the target-language picker is open.
pub fn handle_language_selector_input(app: &mut App, key: KeyEvent)
    ensures
        language_key_effect(*old(app), *final(app), key.code),
{
    match key.code {
        KeyCode::Esc => app.toggle_language_selector(),
        KeyCode::Up => app.language_selector_move_up(),
        KeyCode::Down => app.language_selector_move_down(),
        KeyCode::Enter => app.language_selector_select(),
        KeyCode::Char(c) => app.language_selector_search_add_char(c),
        KeyCode::Backspace => app.language_selector_search_backspace(),
        _ => {},
    }
}

/// Whether two optional device names are the same.
pub open spec fn same_device(a: Option<String>, b: Option<String>) -> bool {
    match (a, b) {
        (Some(x), Some(y)) => x@ == y@,
        (None, None) => true,
        _ => false,
    }
}

fn same_device_exec(a: &Option<String>, b: &Option<String>) -> (r: bool)
    ensures
        r == same_device(*a, *b),
{
    match (a, b) {
        (Some(x), Some(y)) => x.eq(y),
        (None, None) => true,
        _ => false,
    }
}

/// What the Esc, Up and Down keys do in the device picker.
pub open spec fn device_move_effect(t: TranscriptionState, u: TranscriptionState, code: KeyCode) -> bool {
    match code {
        KeyCode::Esc => u == (TranscriptionState { device_selector_open: false, ..t }),
        KeyCode::Up => u == (TranscriptionState {
            device_selector_scroll: if t.device_selector_scroll > 0 {
                (t.device_selector_scroll - 1) as usize
            } else {
                0
            },
            ..t
        }),
        KeyCode::Down => u == (TranscriptionState {
            device_selector_scroll: if t.device_selector_scroll + 1 < t.available_devices@.len() {
                (t.device_selector_scroll + 1) as usize
            } else {
                t.device_selector_scroll
            },
            ..t
        }),
        _ => u == t,
    }
}

/// What `handle_device_selector_input` does to the app.
pub open spec fn device_key_effect(old: App, new: App, code: KeyCode) -> bool {
    if code == KeyCode::Enter {
        transcription_device_select_effect(old, new)
    } else {
        &&& device_move_effect(old.transcription, new.transcription, code)
        &&& new == (App { transcription: new.transcription, ..old })
    }
}

fn device_move(t: &mut TranscriptionState, code: KeyCode)
    ensures
        device_move_effect(*old(t), *final(t), code),
{
    match code {
        KeyCode::Esc => {
            t.device_selector_open = false;
        },
        KeyCode::Up => {
            if t.device_selector_scroll > 0 {
                t.device_selector_scroll = t.device_selector_scroll - 1;
            }
        },
        KeyCode::Down => {
            let n = t.available_devices.len();
            let max = if n > 0 { n - 1 } else { 0 };
            if t.device_selector_scroll < max {
                t.device_selector_scroll = t.device_selector_scroll + 1;
            }
        },
        _ => {},
    }
}

/// Handles a key while the audio device picker is open. Returns whether the
/// chosen device changed, which tells the caller to restart a recording.
pub fn handle_device_selector_input(app: &mut App, key: KeyEvent) -> (r: bool)
    ensures
        device_key_effect(*old(app), *final(app), key.code),
        r == (key.code == KeyCode::Enter && !same_device(
            old(app).transcription.selected_device,
            final(app).transcription.selected_device,
        )),
{
    if key.code == KeyCode::Enter {
        let before = match &app.transcription.selected_device {
            Some(d) => Some(d.clone()),
            None => None,
        };
        app.transcription_device_select();
        !same_device_exec(&before, &app.transcription.selected_device)
    } else {
        device_move(&mut app.transcription, key.code);
        false
    }
}

/// What `handle_transcription_settings_input` does.
pub open spec fn transcription_settings_key_effect(old: App, new: App, code: KeyCode) -> bool {
    match code {
        KeyCode::Esc => new == (App {
            transcription: TranscriptionState { settings_open: false, ..old.transcription },
            ..old
        }),
        KeyCode::Up => transcription_settings_move_up_effect(old, new),
        KeyCode::Down => transcription_settings_move_down_effect(old, new),
        KeyCode::Left => transcription_settings_cycle_backward_effect(old, new),
        KeyCode::Right => transcription_settings_cycle_forward_effect(old, new),
        KeyCode::Enter => transcription_settings_cycle_forward_effect(old, new),
        KeyCode::Char(c) => if c == ' ' {
            transcription_settings_cycle_forward_effect(old, new)
        } else {
            new == old
        },
        _ => new == old,
    }
}

/// Handles a key while the transcription settings popup is open.
pub fn handle_transcription_settings_input(app: &mut App, key: KeyEvent)
    ensures
        transcription_settings_key_effect(*old(app), *final(app), key.code),
{
    match key.code {
        KeyCode::Esc => app.transcription.settings_open = false,
        KeyCode::Up => app.transcription_settings_move_up(),
        KeyCode::Down => app.transcription_settings_move_down(),
        KeyCode::Left => app.transcription_settings_cycle_backward(),
        KeyCode::Right => app.transcription_settings_cycle_forward(),
        KeyCode::Enter => app.transcription_settings_cycle_forward(),
        KeyCode::Char(c) => {
            if c == ' ' {
                app.transcription_settings_cycle_forward();
            }
        },
        _ => {},
    }
}

/// Whether `c` is one of the two cases of the letter `lower`.
pub open spec fn is_letter(c: char, lower: char) -> bool {
    c == lower || c == ((lower as u32 - 32) as char)
}

fn letter(c: char, lower: char, upper: char) -> (r: bool)
    requires
        'a' <= lower <= 'z',
        upper as u32 == lower as u32 - 32,
    ensures
        r == is_letter(c, lower),
{
    c == lower || c == upper
}

/// The Control bindings of the transcription screen.
pub open spec fn transcription_ctrl_bound(code: KeyCode) -> bool {
    match code {
        KeyCode::Char(c) => is_letter(c, 't') || is_letter(c, 'd') || is_letter(c, 's')
            || is_letter(c, 'x') || is_letter(c, 'c') || is_letter(c, 'k') || is_letter(c, 'j'),
        KeyCode::Up => true,
        KeyCode::Down => true,
        _ => false,
    }
}

/// What Control plus a bound key does on the transcription screen.
pub open spec fn transcription_ctrl_effect(old: App, new: App, code: KeyCode, r: KeyAction) -> bool {
    let t = old.transcription;
    match code {
        KeyCode::Char(c) => if is_letter(c, 't') {
            &&& r == KeyAction::StopRecording
            &&& exists|mid: App| app_stop_recording_effect(old, mid) && toggle_mode_effect(mid, new)
        } else if is_letter(c, 'd') {
            r == KeyAction::Continue && toggle_transcription_device_selector_effect(old, new)
        } else if is_letter(c, 's') {
            r == KeyAction::Continue && toggle_transcription_settings_effect(old, new)
        } else if is_letter(c, 'x') {
            &&& r == KeyAction::Continue
            &&& clear_transcript_effect(t, new.transcription)
            &&& new == (App { transcription: new.transcription, ..old })
        } else if is_letter(c, 'c') {
            r == KeyAction::Quit && app_stop_recording_effect(old, new)
        } else if is_letter(c, 'k') {
            r == KeyAction::Continue && new == (App {
                transcription: TranscriptionState {
                    transcript_scroll: saturating_sub_u16(t.transcript_scroll, 3),
                    ..t
                },
                ..old
            })
        } else {
            r == KeyAction::Continue && new == (App {
                transcription: TranscriptionState {
                    transcript_scroll: saturating_add_u16(t.transcript_scroll, 3),
                    ..t
                },
                ..old
            })
        },
        KeyCode::Up => r == KeyAction::Continue && new == (App {
            transcription: TranscriptionState {
                transcript_scroll: saturating_sub_u16(t.transcript_scroll, 3),
                ..t
            },
            ..old
        }),
        _ => r == KeyAction::Continue && new == (App {
            transcription: TranscriptionState {
                transcript_scroll: saturating_add_u16(t.transcript_scroll, 3),
                ..t
            },
            ..old
        }),
    }
}

/// What Space does on the transcription screen: stop a recording, start
/// one when the model is loaded and at hand, or start loading the model.
pub open spec fn space_effect(old: App, new: App, model_cached: bool, r: KeyAction) -> bool {
    let t = old.transcription;
    if t.is_recording {
        r == KeyAction::StopRecording && app_stop_recording_effect(old, new)
    } else if t.model_ready {
        if model_cached {
            r == KeyAction::StartRecording && begin_recording_effect(old, new)
        } else {
            r == KeyAction::Continue && new == old
        }
    } else if !t.model_loading {
        r == KeyAction::LoadModel && begin_model_load_effect(old, new)
    } else {
        r == KeyAction::Continue && new == old
    }
}

/// What a key does on the transcription screen.
pub open spec fn transcription_key_effect(
    old: App,
    new: App,
    key: KeyEvent,
    model_cached: bool,
    r: KeyAction,
) -> bool {
    let t = old.transcription;
    if t.device_selector_open {
        r == KeyAction::Continue && device_key_effect(old, new, key.code)
    } else if t.settings_open {
        exists|mid: App| {
            &&& transcription_settings_key_effect(old, mid, key.code)
            &&& if mid.transcription.model_ready {
                r == KeyAction::Continue && new == mid
            } else {
                &&& r == KeyAction::DropModel
                &&& new.transcription.status@ == "Settings changed. Press Space to reload model and record."@
                &&& new == (App {
                    transcription: TranscriptionState { status: new.transcription.status, ..mid.transcription },
                    ..mid
                })
            }
        }
    } else if key.code == KeyCode::Esc {
        r == KeyAction::Quit && app_stop_recording_effect(old, new)
    } else if key.control && transcription_ctrl_bound(key.code) {
        transcription_ctrl_effect(old, new, key.code, r)
    } else if key.code == KeyCode::Char(' ') {
        space_effect(old, new, model_cached, r)
    } else {
        r == KeyAction::Continue && new == old
    }
}

fn transcription_ctrl_key(app: &mut App, code: KeyCode) -> (r: KeyAction)
    requires
        transcription_ctrl_bound(code),
    ensures
        transcription_ctrl_effect(*old(app), *final(app), code, r),
{
    match code {
        KeyCode::Char(c) => {
            if letter(c, 't', 'T') {
                app.stop_recording();
                let ghost mid = *app;
                app.toggle_mode();
                assert(app_stop_recording_effect(*old(app), mid) && toggle_mode_effect(mid, *app));
                KeyAction::StopRecording
            } else if letter(c, 'd', 'D') {
                app.toggle_transcription_device_selector();
                KeyAction::Continue
            } else if letter(c, 's', 'S') {
                app.toggle_transcription_settings();
                KeyAction::Continue
            } else if letter(c, 'x', 'X') {
                app.transcription.clear_transcript();
                KeyAction::Continue
            } else if letter(c, 'c', 'C') {
                app.stop_recording();
                KeyAction::Quit
            } else if letter(c, 'k', 'K') {
                app.transcription.transcript_scroll = app.transcription.transcript_scroll.saturating_sub(3);
                KeyAction::Continue
            } else {
                app.transcription.transcript_scroll = app.transcription.transcript_scroll.saturating_add(3);
                KeyAction::Continue
            }
        },
        KeyCode::Up => {
            app.transcription.transcript_scroll = app.transcription.transcript_scroll.saturating_sub(3);
            KeyAction::Continue
        },
        _ => {
            app.transcription.transcript_scroll = app.transcription.transcript_scroll.saturating_add(3);
            KeyAction::Continue
        },
    }
}

fn space_key(app: &mut App, model_cached: bool) -> (r: KeyAction)
    ensures
        space_effect(*old(app), *final(app), model_cached, r),
{
    if app.transcription.is_recording {
        app.stop_recording();
        KeyAction::StopRecording
    } else if app.transcription.model_ready {
        if model_cached {
            app.begin_recording();
            KeyAction::StartRecording
        } else {
            KeyAction::Continue
        }
    } else if !app.transcription.model_loading {
        app.begin_model_load();
        KeyAction::LoadModel
    } else {
        KeyAction::Continue
    }
}

fn transcription_key(app: &mut App, key: KeyEvent, model_cached: bool) -> (r: KeyAction)
    requires
        old(app).mode == AppMode::Transcription,
    ensures
        transcription_key_effect(*old(app), *final(app), key, model_cached, r),
{
    if app.transcription.device_selector_open {
        handle_device_selector_input(app, key);
        return KeyAction::Continue;
    }
    if app.transcription.settings_open {
        handle_transcription_settings_input(app, key);
        let ghost mid = *app;
        if !app.transcription.model_ready {
            app.transcription.status = "Settings changed. Press Space to reload model and record.".to_string();
            assert(transcription_settings_key_effect(*old(app), mid, key.code));
            return KeyAction::DropModel;
        }
        assert(transcription_settings_key_effect(*old(app), mid, key.code));
        return KeyAction::Continue;
    }
    if key.code == KeyCode::Esc {
        app.stop_recording();
        return KeyAction::Quit;
    }
    if key.control {
        let bound = match key.code {
            KeyCode::Char(c) => letter(c, 't', 'T') || letter(c, 'd', 'D') || letter(c, 's', 'S')
                || letter(c, 'x', 'X') || letter(c, 'c', 'C') || letter(c, 'k', 'K') || letter(c, 'j', 'J'),
            KeyCode::Up => true,
            KeyCode::Down => true,
            _ => false,
        };
        if bound {
            return transcription_ctrl_key(app, key.code);
        }
    }
    if key.code == KeyCode::Char(' ') {
        return space_key(app, model_cached);
    }
    KeyAction::Continue
}

/// The Control bindings of the text screen.
pub open spec fn normal_ctrl_bound(code: KeyCode) -> bool {
    match code {
        KeyCode::Char(c) => is_letter(c, 't') || is_letter(c, 'l') || is_letter(c, 's')
            || is_letter(c, 'x') || is_letter(c, 'v') || is_letter(c, 'a') || is_letter(c, 'w')
            || is_letter(c, 'u') || is_letter(c, 'e') || is_letter(c, 'c') || is_letter(c, 'j')
            || is_letter(c, 'k'),
        KeyCode::Up => true,
        KeyCode::Down => true,
        KeyCode::Backspace => true,
        _ => false,
    }
}

/// The pinyin and translation panes scrolled three rows down or up.
pub open spec fn scrolled(old: App, new: App, down: bool) -> bool {
    new == (App {
        pinyin_scroll: if down {
            saturating_add_u16(old.pinyin_scroll, 3)
        } else {
            saturating_sub_u16(old.pinyin_scroll, 3)
        },
        translation_scroll: if down {
            saturating_add_u16(old.translation_scroll, 3)
        } else {
            saturating_sub_u16(old.translation_scroll, 3)
        },
        ..old
    })
}

/// Entering transcription starts loading the model when none is at hand
/// and none is loading.
pub open spec fn enter_transcription_effect(old: App, new: App, model_cached: bool, r: KeyAction) -> bool {
    exists|mid: App| {
        &&& toggle_mode_effect(old, mid)
        &&& if mid.mode == AppMode::Transcription && !model_cached && !mid.transcription.model_loading {
            r == KeyAction::LoadModel && begin_model_load_effect(mid, new)
        } else {
            r == KeyAction::Continue && new == mid
        }
    }
}

/// What Control plus a bound key does on the text screen.
pub open spec fn normal_ctrl_effect(old: App, new: App, code: KeyCode, model_cached: bool, r: KeyAction) -> bool {
    match code {
        KeyCode::Char(c) => if is_letter(c, 't') {
            enter_transcription_effect(old, new, model_cached, r)
        } else if is_letter(c, 'l') {
            r == KeyAction::Continue && toggle_language_selector_effect(old, new)
        } else if is_letter(c, 's') {
            r == KeyAction::Continue && toggle_settings_effect(old, new)
        } else if is_letter(c, 'x') {
            r == KeyAction::Continue && clear_effect(old, new)
        } else if is_letter(c, 'v') {
            r == KeyAction::Paste && new == old
        } else if is_letter(c, 'a') {
            r == KeyAction::Continue && select_all_effect(old, new)
        } else if is_letter(c, 'w') {
            r == KeyAction::Continue && delete_word_backwards_effect(old, new)
        } else if is_letter(c, 'u') {
            r == KeyAction::Continue && delete_to_start_effect(old, new)
        } else if is_letter(c, 'e') {
            r == KeyAction::Continue && move_cursor_to_end_effect(old, new)
        } else if is_letter(c, 'c') {
            r == KeyAction::Quit && new == old
        } else if is_letter(c, 'j') {
            r == KeyAction::Continue && scrolled(old, new, true)
        } else {
            r == KeyAction::Continue && scrolled(old, new, false)
        },
        KeyCode::Up => r == KeyAction::Continue && scrolled(old, new, false),
        KeyCode::Down => r == KeyAction::Continue && scrolled(old, new, true),
        _ => r == KeyAction::Continue && delete_word_backwards_effect(old, new),
    }
}

/// What a key without a Control binding does on the text screen: typing
/// and cursor movement.
pub open spec fn typing_effect(old: App, new: App, code: KeyCode) -> bool {
    match code {
        KeyCode::Char(c) => insert_char_effect(App { input_mode: InputMode::Text, ..old }, new, c),
        KeyCode::Enter => insert_char_effect(old, new, '\n'),
        KeyCode::Backspace => backspace_effect(old, new),
        KeyCode::Delete => delete_forward_effect(old, new),
        KeyCode::Left => move_cursor_left_effect(old, new),
        KeyCode::Right => move_cursor_right_effect(old, new),
        KeyCode::Up => move_cursor_up_effect(old, new),
        KeyCode::Down => move_cursor_down_effect(old, new),
        KeyCode::Home => move_cursor_to_start_effect(old, new),
        KeyCode::End => move_cursor_to_end_effect(old, new),
        _ => new == old,
    }
}

/// What a key does on the text screen.
pub open spec fn normal_key_effect(old: App, new: App, key: KeyEvent, model_cached: bool, r: KeyAction) -> bool {
    if old.language_selector_open {
        r == KeyAction::Continue && language_key_effect(old, new, key.code)
    } else if old.settings_open {
        r == KeyAction::Continue && settings_key_effect(old, new, key.code)
    } else if key.code == KeyCode::Esc {
        r == KeyAction::Quit && new == old
    } else if key.control && normal_ctrl_bound(key.code) {
        normal_ctrl_effect(old, new, key.code, model_cached, r)
    } else {
        r == KeyAction::Continue && typing_effect(old, new, key.code)
    }
}

/// What a key does, on either screen. `model_cached` tells whether a loaded
/// recogniser model is at hand.
pub open spec fn key_effect(old: App, new: App, key: KeyEvent, model_cached: bool, r: KeyAction) -> bool {
    if old.mode == AppMode::Transcription {
        transcription_key_effect(old, new, key, model_cached, r)
    } else {
        normal_key_effect(old, new, key, model_cached, r)
    }
}

fn normal_ctrl_key(app: &mut App, code: KeyCode, model_cached: bool) -> (r: KeyAction)
    requires
        normal_ctrl_bound(code),
        deletes_word(code) ==> old(app).select_all || old(app).cursor_in_input(),
    ensures
        normal_ctrl_effect(*old(app), *final(app), code, model_cached, r),
        old(app).cursor_in_input() ==> final(app).cursor_in_input(),
{
    match code {
        KeyCode::Char(c) => {
            if letter(c, 't', 'T') {
                app.toggle_mode();
                let ghost mid = *app;
                if app.mode == AppMode::Transcription && !model_cached && !app.transcription.model_loading {
                    app.begin_model_load();
                    assert(toggle_mode_effect(*old(app), mid));
                    KeyAction::LoadModel
                } else {
                    assert(toggle_mode_effect(*old(app), mid));
                    KeyAction::Continue
                }
            } else if letter(c, 'l', 'L') {
                app.toggle_language_selector();
                KeyAction::Continue
            } else if letter(c, 's', 'S') {
                app.toggle_settings();
                KeyAction::Continue
            } else if letter(c, 'x', 'X') {
                app.clear();
                KeyAction::Continue
            } else if letter(c, 'v', 'V') {
                KeyAction::Paste
            } else if letter(c, 'a', 'A') {
                app.select_all();
                KeyAction::Continue
            } else if letter(c, 'w', 'W') {
                app.delete_word_backwards();
                KeyAction::Continue
            } else if letter(c, 'u', 'U') {
                app.delete_to_start();
                KeyAction::Continue
            } else if letter(c, 'e', 'E') {
                app.move_cursor_to_end();
                KeyAction::Continue
            } else if letter(c, 'c', 'C') {
                KeyAction::Quit
            } else if letter(c, 'j', 'J') {
                app.scroll_output(true);
                KeyAction::Continue
            } else {
                app.scroll_output(false);
                KeyAction::Continue
            }
        },
        KeyCode::Up => {
            app.scroll_output(false);
            KeyAction::Continue
        },
        KeyCode::Down => {
            app.scroll_output(true);
            KeyAction::Continue
        },
        _ => {
            app.delete_word_backwards();
            KeyAction::Continue
        },
    }
}

fn typing_key(app: &mut App, code: KeyCode)
    requires
        typing_defined(*old(app), code),
    ensures
        typing_effect(*old(app), *final(app), code),
        old(app).cursor_in_input() ==> final(app).cursor_in_input(),
{
    match code {
        KeyCode::Char(c) => {
            if app.input_mode == InputMode::ImagePath {
                app.input_mode = InputMode::Text;
            }
            app.insert_char(c);
        },
        KeyCode::Enter => app.insert_char('\n'),
        KeyCode::Backspace => app.backspace(),
        KeyCode::Delete => app.delete_forward(),
        KeyCode::Left => app.move_cursor_left(),
        KeyCode::Right => app.move_cursor_right(),
        KeyCode::Up => app.move_cursor_up(),
        KeyCode::Down => app.move_cursor_down(),
        KeyCode::Home => app.move_cursor_to_start(),
        KeyCode::End => app.move_cursor_to_end(),
        _ => {},
    }
}

fn normal_key(app: &mut App, key: KeyEvent, model_cached: bool) -> (r: KeyAction)
    requires
        old(app).mode == AppMode::Normal,
        key_defined(*old(app), key),
    ensures
        normal_key_effect(*old(app), *final(app), key, model_cached, r),
        old(app).cursor_in_input() ==> final(app).cursor_in_input(),
{
    if app.language_selector_open {
        handle_language_selector_input(app, key);
        return KeyAction::Continue;
    }
    if app.settings_open {
        handle_settings_input(app, key);
        return KeyAction::Continue;
    }
    if key.code == KeyCode::Esc {
        return KeyAction::Quit;
    }
    if key.control {
        let bound = match key.code {
            KeyCode::Char(c) => letter(c, 't', 'T') || letter(c, 'l', 'L') || letter(c, 's', 'S')
                || letter(c, 'x', 'X') || letter(c, 'v', 'V') || letter(c, 'a', 'A') || letter(c, 'w', 'W')
                || letter(c, 'u', 'U') || letter(c, 'e', 'E') || letter(c, 'c', 'C') || letter(c, 'j', 'J')
                || letter(c, 'k', 'K'),
            KeyCode::Up => true,
            KeyCode::Down => true,
            KeyCode::Backspace => true,
            _ => false,
        };
        if bound {
            return normal_ctrl_key(app, key.code, model_cached);
        }
    }
    typing_key(app, key.code);
    KeyAction::Continue
}

/// Whether Control plus `code` deletes the word before the cursor.
pub open spec fn deletes_word(code: KeyCode) -> bool {
    code == KeyCode::Backspace || (code matches KeyCode::Char(c) && is_letter(c, 'w'))
}

/// Whether a key without a Control binding can be applied: typing needs
/// room to advance the cursor, and moving between lines and deleting a word
/// need the cursor within the input.
pub open spec fn typing_defined(app: App, code: KeyCode) -> bool {
    match code {
        KeyCode::Char(_) => app.select_all || app.cursor_position < usize::MAX,
        KeyCode::Enter => app.select_all || app.cursor_position < usize::MAX,
        KeyCode::Up => app.cursor_in_input(),
        KeyCode::Down => app.cursor_in_input(),
        _ => true,
    }
}

/// Whether `handle_key` can apply `key` to `app`: everywhere but on the
/// text screen with no popup open, where the keys that walk the input's
/// lines or words need the cursor within it, and typing needs room to
/// advance it.
pub open spec fn key_defined(app: App, key: KeyEvent) -> bool {
    if app.mode == AppMode::Transcription || app.language_selector_open || app.settings_open
        || key.code == KeyCode::Esc {
        true
    } else if key.control && normal_ctrl_bound(key.code) {
        deletes_word(key.code) ==> app.select_all || app.cursor_in_input()
    } else {
        typing_defined(app, key.code)
    }
}

/// Tells whether `handle_key` can apply `key` to `app`.
pub fn key_is_defined(app: &App, key: KeyEvent) -> (r: bool)
    ensures
        r == key_defined(*app, key),
{
    if app.mode == AppMode::Transcription || app.language_selector_open || app.settings_open
        || key.code == KeyCode::Esc {
        return true;
    }
    let in_input = app.cursor_position <= app.input.as_str().unicode_len();
    let room = app.select_all || app.cursor_position < usize::MAX;
    if key.control {
        match key.code {
            KeyCode::Char(c) => {
                if letter(c, 'w', 'W') {
                    return app.select_all || in_input;
                }
                let bound = letter(c, 't', 'T') || letter(c, 'l', 'L') || letter(c, 's', 'S')
                    || letter(c, 'x', 'X') || letter(c, 'v', 'V') || letter(c, 'a', 'A')
                    || letter(c, 'u', 'U') || letter(c, 'e', 'E') || letter(c, 'c', 'C')
                    || letter(c, 'j', 'J') || letter(c, 'k', 'K');
                if bound {
                    return true;
                }
            },
            KeyCode::Backspace => return app.select_all || in_input,
            KeyCode::Up => return true,
            KeyCode::Down => return true,
            _ => {},
        }
    }
    match key.code {
        KeyCode::Char(_) => room,
        KeyCode::Enter => room,
        KeyCode::Up => in_input,
        KeyCode::Down => in_input,
        _ => true,
    }
}

/// Applies a key press to the app and says what else it calls for.
/// `model_cached` tells whether a loaded recogniser model is at hand. A
/// cursor within the input stays within it.
pub fn handle_key(app: &mut App, key: KeyEvent, model_cached: bool) -> (r: KeyAction)
    requires
        key_defined(*old(app), key),
    ensures
        key_effect(*old(app), *final(app), key, model_cached, r),
        old(app).cursor_in_input() ==> final(app).cursor_in_input(),
{
    if app.mode == AppMode::Transcription {
        transcription_key(app, key, model_cached)
    } else {
        normal_key(app, key, model_cached)
    }
}

/// Escape and Control-C quit from either screen when no popup is open.
pub proof fn law_escape_and_control_c_quit(old: App, new: App, key: KeyEvent, model_cached: bool, r: KeyAction)
    requires
        key_effect(old, new, key, model_cached, r),
        !old.settings_open,
        !old.language_selector_open,
        !old.transcription.settings_open,
        !old.transcription.device_selector_open,
        key.code == KeyCode::Esc || (key.control && key.code == KeyCode::Char('c')),
    ensures
        r == KeyAction::Quit,
{
}

} // verus!
