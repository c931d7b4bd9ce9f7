//! The settings that survive between runs, and the translation services the
//! user can choose from.
use vstd::prelude::*;
use crate::language::Language;
use crate::transcription::{TranscriptionLanguage, WhisperModelSize};

verus! {

broadcast use vstd::string::group_string_axioms;

/// Which service translates.
#[derive(Clone, Copy, Debug, PartialEq, Eq, Structural)]
pub enum TranslationService {
    /// Try every service in turn.
    Auto,
    Google,
    MyMemory,
    LibreTranslate,
    /// A local LTEngine process.
    LTEngine,
}

/// The services in the order the settings cycle through them.
pub open spec fn services() -> Seq<TranslationService> {
    seq![
        TranslationService::Auto,
        TranslationService::Google,
        TranslationService::MyMemory,
        TranslationService::LibreTranslate,
        TranslationService::LTEngine,
    ]
}

/// Position of `s` in `services()`.
pub open spec fn service_index(s: TranslationService) -> int {
    match s {
        TranslationService::Auto => 0,
        TranslationService::Google => 1,
        TranslationService::MyMemory => 2,
        TranslationService::LibreTranslate => 3,
        TranslationService::LTEngine => 4,
    }
}

/// The service after `s`, wrapping from the last to the first.
pub open spec fn next_service(s: TranslationService) -> TranslationService {
    services()[(service_index(s) + 1) % 5]
}

/// The service before `s`, wrapping from the first to the last.
pub open spec fn prev_service(s: TranslationService) -> TranslationService {
    if service_index(s) == 0 {
        services()[4]
    } else {
        services()[service_index(s) - 1]
    }
}

pub open spec fn service_name(s: TranslationService) -> Seq<char> {
    match s {
        TranslationService::Auto => "Auto"@,
        TranslationService::Google => "Google Translate"@,
        TranslationService::MyMemory => "MyMemory"@,
        TranslationService::LibreTranslate => "LibreTranslate"@,
        TranslationService::LTEngine => "LTEngine (Local)"@,
    }
}

impl TranslationService {
    /// Every service, in cycling order.
    pub fn all() -> (r: Vec<TranslationService>)
        ensures
            r@ == services(),
    {
        let mut r: Vec<TranslationService> = Vec::new();
        r.push(TranslationService::Auto);
        r.push(TranslationService::Google);
        r.push(TranslationService::MyMemory);
        r.push(TranslationService::LibreTranslate);
        r.push(TranslationService::LTEngine);
        assert(r@ == services());
        r
    }

    pub fn name(&self) -> (r: &'static str)
        ensures
            r@ == service_name(*self),
    {
        match self {
            TranslationService::Auto => "Auto",
            TranslationService::Google => "Google Translate",
            TranslationService::MyMemory => "MyMemory",
            TranslationService::LibreTranslate => "LibreTranslate",
            TranslationService::LTEngine => "LTEngine (Local)",
        }
    }

    /// Where `self` stands in `all()`; the first position when it is not
    /// listed.
    fn position(&self, all: &Vec<TranslationService>) -> (r: usize)
        requires
            all@ == services(),
        ensures
            r == service_index(*self),
    {
        let mut i: usize = 0;
        while i < all.len()
            invariant
                all@ == services(),
                i <= all@.len(),
                forall|k: int| 0 <= k < i ==> all@[k] != *self,
            decreases all.len() - i,
        {
            if all[i] == *self {
                return i;
            }
            i = i + 1;
        }
        assert(all@[service_index(*self)] == *self);
        0
    }

    /// The next service, wrapping around.
    pub fn next(&self) -> (r: Self)
        ensures
            r == next_service(*self),
    {
        let all = Self::all();
        let idx = self.position(&all);
        all[(idx + 1) % all.len()]
    }

    /// The previous service, wrapping around.
    pub fn prev(&self) -> (r: Self)
        ensures
            r == prev_service(*self),
    {
        let all = Self::all();
        let idx = self.position(&all);
        if idx == 0 {
            all[all.len() - 1]
        } else {
            all[idx - 1]
        }
    }
}

impl Default for TranslationService {
    fn default() -> (r: Self)
        ensures
            r == TranslationService::Auto,
    {
        TranslationService::Auto
    }
}

/// `next` and `prev` undo each other.
pub proof fn law_service_next_prev_inverse(s: TranslationService)
    ensures
        prev_service(next_service(s)) == s,
        next_service(prev_service(s)) == s,
{
}

/// Cycling forward visits every service in `all()` order and wraps from the
/// last to the first.
pub proof fn law_service_next_follows_order(i: int)
    requires
        0 <= i < 5,
    ensures
        next_service(services()[i]) == services()[(i + 1) % 5],
        service_index(services()[i]) == i,
{
}

/// The settings saved between runs.
#[derive(Debug)]
pub struct Config {
    pub target_language: Language,
    pub translation_service: TranslationService,
    pub local_translate_url: String,
    pub ltengine_model: String,
    pub ltengine_path: String,
    pub transcription_language: TranscriptionLanguage,
    pub transcription_device: Option<String>,
    pub whisper_model: WhisperModelSize,
}

pub fn default_local_translate_url() -> (r: String)
    ensures
        r@ == "http://localhost:5050"@,
{
    "http://localhost:5050".to_string()
}

pub fn default_ltengine_model() -> (r: String)
    ensures
        r@ == "gemma3-4b"@,
{
    "gemma3-4b".to_string()
}

pub fn default_ltengine_path() -> (r: String)
    ensures
        r@ == "ltengine"@,
{
    "ltengine".to_string()
}

impl Default for Config {
    fn default() -> (r: Self)
        ensures
            r.target_language == Language::English,
            r.translation_service == TranslationService::Auto,
            r.local_translate_url@ == "http://localhost:5050"@,
            r.ltengine_model@ == "gemma3-4b"@,
            r.ltengine_path@ == "ltengine"@,
            r.transcription_language == TranscriptionLanguage::Auto,
            r.transcription_device is None,
            r.whisper_model == WhisperModelSize::Tiny,
    {
        Config {
            target_language: Language::English,
            translation_service: TranslationService::default(),
            local_translate_url: default_local_translate_url(),
            ltengine_model: default_ltengine_model(),
            ltengine_path: default_ltengine_path(),
            transcription_language: TranscriptionLanguage::default(),
            transcription_device: None,
            whisper_model: WhisperModelSize::default(),
        }
    }
}

} // verus!
