//! Turning the input into pinyin and a translation, in the steps the
//! program around the library drives: prepare a request, have it
//! translated, and fold the result back into the app.
use vstd::prelude::*;
use crate::app::{App, InputLanguage, InputMode, TranscriptionState, detected_language, has_hanzi, is_edit};
use crate::language::service_code;
use crate::pinyin_conv::{PinyinLine, convert_to_pinyin_lines, pinyin_rows, rows_view};
use crate::text::{chars_of, concat, is_space, is_whitespace, string_from_chars, trim, trimmed};

verus! {

broadcast use vstd::string::group_string_axioms;

/// A translation for the program around the library to carry out.
#[derive(Debug)]
pub struct TranslationRequest {
    /// The service code of the language the text is in.
    pub source: &'static str,
    /// The service code of the language wanted.
    pub target: &'static str,
    pub text: String,
    /// Whether the translation is Chinese, which then gets pinyin.
    pub into_chinese: bool,
}

/// Whether the pinyin rows of `pinyin` and `hanzi` are `rows`.
pub open spec fn shows_rows(pinyin: Seq<String>, hanzi: Seq<String>, rows: Seq<(Seq<char>, Seq<char>)>) -> bool {
    &&& pinyin.len() == rows.len()
    &&& hanzi.len() == rows.len()
    &&& forall|i: int| 0 <= i < rows.len() ==> (#[trigger] pinyin[i])@ == rows[i].0
    &&& forall|i: int| 0 <= i < rows.len() ==> (#[trigger] hanzi[i])@ == rows[i].1
}

/// The request for translating `text`: Chinese goes into the target
/// language, anything else into Chinese.
pub open spec fn request_for(r: TranslationRequest, text: Seq<char>, chinese: bool, target_code: Seq<char>) -> bool {
    &&& r.text@ == text
    &&& r.into_chinese == !chinese
    &&& chinese ==> r.source@ == "zh-CN"@ && r.target@ == target_code
    &&& !chinese ==> r.source@ == target_code && r.target@ == "zh-CN"@
}

fn make_request(text: Vec<char>, chinese: bool, target_code: &'static str) -> (r: TranslationRequest)
    ensures
        request_for(r, text@, chinese, target_code@),
{
    let t = string_from_chars(&text);
    if chinese {
        TranslationRequest { source: "zh-CN", target: target_code, text: t, into_chinese: false }
    } else {
        TranslationRequest { source: target_code, target: "zh-CN", text: t, into_chinese: true }
    }
}

proof fn lemma_rows_shown(lines: Seq<PinyinLine>, pinyin: Seq<String>, hanzi: Seq<String>, text: Seq<char>)
    requires
        rows_view(lines) == pinyin_rows(text),
        pinyin.len() == lines.len(),
        hanzi.len() == lines.len(),
        forall|i: int| 0 <= i < lines.len() ==> (#[trigger] pinyin[i])@ == lines[i].pinyin@,
        forall|i: int| 0 <= i < lines.len() ==> (#[trigger] hanzi[i])@ == lines[i].hanzi@,
    ensures
        shows_rows(pinyin, hanzi, pinyin_rows(text)),
{
    assert forall|i: int| 0 <= i < pinyin_rows(text).len() implies (#[trigger] pinyin[i])@ == pinyin_rows(text)[i].0 by {
        assert(rows_view(lines)[i] == lines[i]@);
    }
    assert forall|i: int| 0 <= i < pinyin_rows(text).len() implies (#[trigger] hanzi[i])@ == pinyin_rows(text)[i].1 by {
        assert(rows_view(lines)[i] == lines[i]@);
    }
}

/// Fills `pinyin` and `hanzi` with the pinyin rows of `text`.
fn rows_of(text: &str) -> (r: (Vec<String>, Vec<String>))
    ensures
        shows_rows(r.0@, r.1@, pinyin_rows(text@)),
{
    let lines = convert_to_pinyin_lines(text);
    let mut pinyin: Vec<String> = Vec::new();
    let mut hanzi: Vec<String> = Vec::new();
    let n = lines.len();
    let mut i: usize = 0;
    while i < n
        invariant
            n == lines@.len(),
            i <= n,
            pinyin@.len() == i,
            hanzi@.len() == i,
            forall|k: int| 0 <= k < i ==> (#[trigger] pinyin@[k]) == lines@[k].pinyin,
            forall|k: int| 0 <= k < i ==> (#[trigger] hanzi@[k]) == lines@[k].hanzi,
        decreases n - i,
    {
        pinyin.push(lines[i].pinyin.clone());
        hanzi.push(lines[i].hanzi.clone());
        i = i + 1;
    }
    proof {
        assert forall|k: int| 0 <= k < n implies (#[trigger] pinyin@[k])@ == lines@[k].pinyin@ by {
            assert(pinyin@[k] == lines@[k].pinyin);
        }
        assert forall|k: int| 0 <= k < n implies (#[trigger] hanzi@[k])@ == lines@[k].hanzi@ by {
            assert(hanzi@[k] == lines@[k].hanzi);
        }
        lemma_rows_shown(lines@, pinyin@, hanzi@, text@);
    }
    (pinyin, hanzi)
}

/// What `App::apply_text_translation` does.
pub open spec fn text_translation_effect(
    old: App,
    new: App,
    request: TranslationRequest,
    result: Result<String, String>,
) -> bool {
    let failed_text = "[Translation error] "@ + request.text@;
    match result {
        Ok(t) => {
            &&& new.translation@ == t@
            &&& request.into_chinese ==> shows_rows(new.pinyin_lines@, new.hanzi_lines@, pinyin_rows(t@))
            &&& new == (App {
                translation: new.translation,
                pinyin_lines: if request.into_chinese { new.pinyin_lines } else { old.pinyin_lines },
                hanzi_lines: if request.into_chinese { new.hanzi_lines } else { old.hanzi_lines },
                ..old
            })
        },
        Err(e) => {
            &&& new.error_message matches Some(m) && m@ == "Translation failed: "@ + e@
            &&& new.translation@ == failed_text
            &&& request.into_chinese ==> shows_rows(
                new.pinyin_lines@,
                new.hanzi_lines@,
                seq![(request.text@, request.text@)],
            )
            &&& new == (App {
                translation: new.translation,
                error_message: new.error_message,
                pinyin_lines: if request.into_chinese { new.pinyin_lines } else { old.pinyin_lines },
                hanzi_lines: if request.into_chinese { new.hanzi_lines } else { old.hanzi_lines },
                ..old
            })
        },
    }
}

/// What `App::prepare_text_translation` does, and the request it makes.
pub open spec fn prepare_text_effect(old: App, new: App, r: Option<TranslationRequest>) -> bool {
    let t = trim(old.input@);
    if t.len() == 0 {
        r is None && new == old
    } else {
        let language = detected_language(t);
        let chinese = language == InputLanguage::Chinese;
        &&& r matches Some(req) && request_for(req, t, chinese, service_code(old.target_language))
        &&& chinese ==> shows_rows(new.pinyin_lines@, new.hanzi_lines@, pinyin_rows(t))
        &&& new == (App {
            input_language: language,
            pinyin_lines: if chinese { new.pinyin_lines } else { old.pinyin_lines },
            hanzi_lines: if chinese { new.hanzi_lines } else { old.hanzi_lines },
            ..old
        })
    }
}

/// What `App::prepare_transcript_translation` does, and the request it
/// makes.
pub open spec fn prepare_transcript_effect(old: App, new: App, text: Seq<char>, r: Option<TranslationRequest>) -> bool {
    let t = trim(text);
    if t.len() == 0 {
        r is None && new == old
    } else {
        let chinese = has_hanzi(t);
        &&& r matches Some(req) && request_for(req, t, chinese, service_code(old.target_language))
        &&& chinese ==> shows_rows(new.transcription.pinyin_lines@, new.transcription.hanzi_lines@, pinyin_rows(t))
        &&& new == (App {
            transcription: TranscriptionState {
                pinyin_lines: if chinese { new.transcription.pinyin_lines } else { old.transcription.pinyin_lines },
                hanzi_lines: if chinese { new.transcription.hanzi_lines } else { old.transcription.hanzi_lines },
                ..old.transcription
            },
            ..old
        })
    }
}

/// What a translation outcome does to the transcription screen. A failed
/// translation leaves it as it was.
pub open spec fn transcript_translation_change(
    t: TranscriptionState,
    u: TranscriptionState,
    into_chinese: bool,
    result: Result<String, String>,
) -> bool {
    match result {
        Ok(tr) => {
            &&& u.translation@ == tr@
            &&& into_chinese ==> shows_rows(u.pinyin_lines@, u.hanzi_lines@, pinyin_rows(tr@))
            &&& u == (TranscriptionState {
                translation: u.translation,
                pinyin_lines: if into_chinese { u.pinyin_lines } else { t.pinyin_lines },
                hanzi_lines: if into_chinese { u.hanzi_lines } else { t.hanzi_lines },
                ..t
            })
        },
        Err(_) => u == t,
    }
}

/// What `App::apply_transcript_translation` does.
pub open spec fn transcript_translation_effect(
    old: App,
    new: App,
    request: TranslationRequest,
    result: Result<String, String>,
) -> bool {
    &&& transcript_translation_change(old.transcription, new.transcription, request.into_chinese, result)
    &&& new == (App { transcription: new.transcription, ..old })
}

fn apply_to_transcription(t: &mut TranscriptionState, into_chinese: bool, result: Result<String, String>)
    ensures
        transcript_translation_change(*old(t), *final(t), into_chinese, result),
{
    match result {
        Ok(tr) => {
            if into_chinese {
                let (pinyin, hanzi) = rows_of(tr.as_str());
                t.pinyin_lines = pinyin;
                t.hanzi_lines = hanzi;
            }
            t.translation = tr;
        },
        Err(_) => {},
    }
}

/// Unicode control characters (general category Cc).
pub open spec fn is_control(c: char) -> bool {
    c <= '\u{1f}' || ('\u{7f}' <= c && c <= '\u{9f}')
}

/// `s` without the control characters that are not whitespace.
pub open spec fn sanitized(s: Seq<char>) -> Seq<char>
    decreases s.len(),
{
    if s.len() == 0 {
        s
    } else if is_space(s.last()) || !is_control(s.last()) {
        sanitized(s.drop_last()).push(s.last())
    } else {
        sanitized(s.drop_last())
    }
}

/// Pasted text, trimmed and without control characters other than
/// whitespace.
pub fn sanitize_pasted_text(raw: &str) -> (r: String)
    ensures
        r@ == sanitized(trim(raw@)),
{
    let chars = chars_of(raw);
    let t = trimmed(&chars);
    let mut kept: Vec<char> = Vec::new();
    let n = t.len();
    let mut i: usize = 0;
    while i < n
        invariant
            n == t@.len(),
            i <= n,
            kept@ == sanitized(t@.take(i as int)),
        decreases n - i,
    {
        assert(t@.take(i + 1).drop_last() == t@.take(i as int));
        let c = t[i];
        if is_whitespace(c) || !(c <= '\u{1f}' || ('\u{7f}' <= c && c <= '\u{9f}')) {
            kept.push(c);
        }
        i = i + 1;
    }
    assert(t@.take(n as int) == t@);
    string_from_chars(&kept)
}

impl App {
    /// Marks the input as being worked on and clears any earlier error.
    pub fn begin_processing(&mut self)
        ensures
            *final(self) == (App { processing: true, error_message: None, ..*old(self) }),
    {
        self.processing = true;
        self.error_message = None;
    }

    /// Marks the work on the input as finished.
    pub fn end_processing(&mut self)
        ensures
            *final(self) == (App { processing: false, ..*old(self) }),
    {
        self.processing = false;
    }

    /// Takes the edit time off once the pause after typing is over, so that
    /// the same input is not processed twice.
    pub fn consume_input_time(&mut self)
        ensures
            *final(self) == (App { last_input_time: None, ..*old(self) }),
    {
        self.last_input_time = None;
    }

    /// Works out what the trimmed input is written in and, for Chinese,
    /// shows its pinyin at once; returns the translation to ask for, or
    /// `None` for blank input.
    pub fn prepare_text_translation(&mut self) -> (r: Option<TranslationRequest>)
        ensures
            prepare_text_effect(*old(self), *final(self), r),
    {
        let chars = chars_of(self.input.as_str());
        let t = trimmed(&chars);
        if t.len() == 0 {
            return None;
        }
        self.detect_input_language();
        let chinese = self.is_input_chinese();
        if chinese {
            let text = string_from_chars(&t);
            let (pinyin, hanzi) = rows_of(text.as_str());
            self.pinyin_lines = pinyin;
            self.hanzi_lines = hanzi;
        }
        Some(make_request(t, chinese, self.target_language.google_code()))
    }

    /// Folds the outcome of a translation of the input into the app. A
    /// failure shows an error, and for text going into Chinese, the text
    /// itself in place of pinyin.
    pub fn apply_text_translation(&mut self, request: &TranslationRequest, result: Result<String, String>)
        ensures
            text_translation_effect(*old(self), *final(self), *request, result),
    {
        match result {
            Ok(t) => {
                if request.into_chinese {
                    let (pinyin, hanzi) = rows_of(t.as_str());
                    self.pinyin_lines = pinyin;
                    self.hanzi_lines = hanzi;
                }
                self.translation = t;
            },
            Err(e) => {
                self.error_message = Some(concat("Translation failed: ", e.as_str()));
                if request.into_chinese {
                    let mut pinyin: Vec<String> = Vec::new();
                    pinyin.push(request.text.clone());
                    let mut hanzi: Vec<String> = Vec::new();
                    hanzi.push(request.text.clone());
                    self.pinyin_lines = pinyin;
                    self.hanzi_lines = hanzi;
                }
                self.translation = concat("[Translation error] ", request.text.as_str());
            },
        }
    }

    /// For a stretch of transcript: shows the pinyin of Chinese at once and
    /// returns the translation to ask for, or `None` for blank text.
    pub fn prepare_transcript_translation(&mut self, text: &str) -> (r: Option<TranslationRequest>)
        ensures
            prepare_transcript_effect(*old(self), *final(self), text@, r),
    {
        let chars = chars_of(text);
        let t = trimmed(&chars);
        if t.len() == 0 {
            return None;
        }
        let mut chinese = false;
        let n = t.len();
        for i in 0..n
            invariant
                n == t@.len(),
                chinese <==> exists|k: int| 0 <= k < i && crate::pinyin_conv::is_hanzi(#[trigger] t@[k]),
        {
            if crate::pinyin_conv::is_chinese(t[i]) {
                chinese = true;
            }
        }
        if chinese {
            let trimmed_text = string_from_chars(&t);
            let (pinyin, hanzi) = rows_of(trimmed_text.as_str());
            self.transcription.pinyin_lines = pinyin;
            self.transcription.hanzi_lines = hanzi;
        }
        Some(make_request(t, chinese, self.target_language.google_code()))
    }

    /// Folds the outcome of a transcript translation into the screen.
    pub fn apply_transcript_translation(&mut self, request: &TranslationRequest, result: Result<String, String>)
        ensures
            transcript_translation_effect(*old(self), *final(self), *request, result),
    {
        apply_to_transcription(&mut self.transcription, request.into_chinese, result);
    }

    /// Takes the text read from an image in image mode: empty text is an
    /// error; otherwise it becomes the input, with the cursor left where it
    /// was, and `true` says it is to be translated.
    pub fn accept_ocr_text(&mut self, text: String) -> (r: bool)
        ensures
            r == (text@.len() > 0),
            !r ==> (final(self).error_message matches Some(m) && m@ == "No text found in image"@),
            !r ==> *final(self) == (App { error_message: final(self).error_message, ..*old(self) }),
            r ==> final(self).input@ == text@ && *final(self) == (App { input: final(self).input, ..*old(self) }),
    {
        if text.as_str().is_empty() {
            self.error_message = Some("No text found in image".to_string());
            return false;
        }
        self.input = text;
        true
    }

    /// Puts text read from a pasted image into the input, in text mode.
    pub fn paste_recognized_text(&mut self, text: String)
        ensures
            is_edit(
                App { input_mode: InputMode::Text, select_all: false, ..*old(self) },
                *final(self),
                text@,
                text@.len() as int,
            ),
    {
        self.input_mode = InputMode::Text;
        self.set_input(text);
    }

    /// Puts pasted text into the input, trimmed and without control
    /// characters, in text mode.
    pub fn paste_plain_text(&mut self, raw: &str)
        ensures
            is_edit(
                App { input_mode: InputMode::Text, select_all: false, ..*old(self) },
                *final(self),
                sanitized(trim(raw@)),
                sanitized(trim(raw@)).len() as int,
            ),
    {
        let clean = sanitize_pasted_text(raw);
        self.set_input(clean);
        self.input_mode = InputMode::Text;
    }

    /// Shows an error about pasting.
    pub fn report_paste_error(&mut self, detail: &str)
        ensures
            final(self).error_message matches Some(m) && m@ == "Paste error: "@ + detail@,
            *final(self) == (App { error_message: final(self).error_message, ..*old(self) }),
    {
        self.error_message = Some(concat("Paste error: ", detail));
    }

    /// Shows an error about processing the input.
    pub fn report_processing_error(&mut self, detail: &str)
        ensures
            final(self).error_message matches Some(m) && m@ == "Processing error: "@ + detail@,
            *final(self) == (App { error_message: final(self).error_message, ..*old(self) }),
    {
        self.error_message = Some(concat("Processing error: ", detail));
    }
}

} // verus!
