//! What the settings and the language picker promise across key presses:
//! stepping a transcription setting one way and back restores it, and the
//! picker's highlight reaches every entry of the filtered list.
use vstd::prelude::*;
use crate::app::{
    App, AppRequest, language_selector_move_down_effect, transcription_settings_cycle_backward_effect,
    transcription_settings_cycle_forward_effect,
};
use crate::transcription::{TranscriptionLanguage, WhisperModelSize};

verus! {

/// The place of a model size in the order the settings offer them: Tiny,
/// Base, Medium, Large V3 Turbo.
pub open spec fn model_rank(m: WhisperModelSize) -> int {
    match m {
        WhisperModelSize::Tiny => 0,
        WhisperModelSize::Base => 1,
        WhisperModelSize::Medium => 2,
        WhisperModelSize::LargeV3Turbo => 3,
    }
}

/// The place of a transcription language in the order the settings offer
/// them: English, Chinese, Auto.
pub open spec fn language_rank(l: TranscriptionLanguage) -> int {
    match l {
        TranscriptionLanguage::English => 0,
        TranscriptionLanguage::Chinese => 1,
        TranscriptionLanguage::Auto => 2,
    }
}

/// Right steps the selected transcription setting to the next in its order
/// and Left to the one before, wrapping around; Left then Right on the same
/// row gives back the setting it started from. Each press asks for the
/// settings to be saved.
pub proof fn law_transcription_settings_step_both_ways(a: App, b: App, c: App)
    requires
        transcription_settings_cycle_backward_effect(a, b),
        transcription_settings_cycle_forward_effect(b, c),
    ensures
        a.transcription.settings_selection == 1 ==> model_rank(b.transcription.model_size) == (
        model_rank(a.transcription.model_size) + 3) % 4,
        a.transcription.settings_selection == 1 ==> model_rank(c.transcription.model_size) == (
        model_rank(b.transcription.model_size) + 1) % 4,
        a.transcription.settings_selection == 0 ==> language_rank(b.transcription.language) == (
        language_rank(a.transcription.language) + 2) % 3,
        a.transcription.settings_selection == 0 ==> language_rank(c.transcription.language) == (
        language_rank(b.transcription.language) + 1) % 3,
        c.transcription.model_size == a.transcription.model_size,
        c.transcription.language == a.transcription.language,
        c.transcription.settings_selection == a.transcription.settings_selection,
        b.requests@ == a.requests@.push(AppRequest::SaveConfig),
        c.requests@ == b.requests@.push(AppRequest::SaveConfig),
{
}

/// Down in the language picker moves the highlight to the next entry of the
/// filtered list while there is one, so repeated presses reach every entry,
/// the last included; at the last entry it stays. Nothing else changes.
pub proof fn law_picker_down_reaches_every_entry(old: App, new: App)
    requires
        language_selector_move_down_effect(old, new),
    ensures
        old.language_selector_scroll + 1 < old.filtered_languages@.len()
            ==> new.language_selector_scroll == old.language_selector_scroll + 1,
        old.language_selector_scroll + 1 >= old.filtered_languages@.len()
            ==> new.language_selector_scroll == old.language_selector_scroll,
        new.filtered_languages@ == old.filtered_languages@,
        new.target_language == old.target_language,
{
    assert(old.filtered_languages@.len() == old.filtered_languages.len());
}

} // verus!
