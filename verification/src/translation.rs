//! The translation services: the requests sent to them, Google's answer,
//! the order in which services and LibreTranslate instances are tried, and
//! what the user sees when they fail. The HTTP traffic itself is carried
//! out by the program around the library, one step at a time as
//! [`next_translation_step`] and [`next_instance_step`] ask for it.
use vstd::prelude::*;
use crate::config::TranslationService;
use crate::text::{concat, push_str, same_text};

verus! {

broadcast use vstd::string::group_string_axioms;

/// Google's undocumented single-translation endpoint.
pub const GOOGLE_ENDPOINT: &'static str = "https://translate.google.com/translate_a/single";

/// MyMemory's public translation endpoint.
pub const MYMEMORY_ENDPOINT: &'static str = "https://api.mymemory.translated.net/get";

/// The first public LibreTranslate instance.
pub const LIBRETRANSLATE_PRIMARY: &'static str = "https://libretranslate.de/translate";

/// The second public LibreTranslate instance, tried after the first.
pub const LIBRETRANSLATE_SECONDARY: &'static str = "https://translate.argosopentech.com/translate";

/// The public LibreTranslate instances, in the order they are tried.
pub fn libretranslate_instances() -> (r: Vec<&'static str>)
    ensures
        r@.len() == 2,
        r@[0]@ == "https://libretranslate.de/translate"@,
        r@[1]@ == "https://translate.argosopentech.com/translate"@,
{
    let mut r: Vec<&'static str> = Vec::new();
    r.push(LIBRETRANSLATE_PRIMARY);
    r.push(LIBRETRANSLATE_SECONDARY);
    r
}

/// Whether byte `b` stands for itself in a percent-encoded URL: an ASCII
/// letter or digit, or one of `-`, `.`, `_`, `~`.
pub open spec fn unreserved(b: u8) -> bool {
    ||| (48 <= b && b <= 57)
    ||| (65 <= b && b <= 90)
    ||| (97 <= b && b <= 122)
    ||| b == 45 || b == 46 || b == 95 || b == 126
}

/// The uppercase hexadecimal digit for `d` below 16.
pub open spec fn hex_digit(d: int) -> char {
    if d < 10 {
        (48 + d) as char
    } else {
        (55 + d) as char
    }
}

/// `bytes` percent-encoded: unreserved bytes as themselves, every other
/// byte as `%` and two uppercase hexadecimal digits.
pub open spec fn percent_encoded(bytes: Seq<u8>) -> Seq<char>
    decreases bytes.len(),
{
    if bytes.len() == 0 {
        Seq::empty()
    } else {
        let b = bytes.last();
        percent_encoded(bytes.drop_last()) + if unreserved(b) {
            seq![b as char]
        } else {
            seq!['%', hex_digit(b as int / 16), hex_digit(b as int % 16)]
        }
    }
}

/// The UTF-8 bytes of `s`, percent-encoded.
pub open spec fn url_encoded(s: Seq<char>) -> Seq<char> {
    percent_encoded(vstd::utf8::encode_utf8(s))
}

/// urlencoding's `encode`: it percent-encodes every UTF-8 byte of `s` but
/// ASCII letters, digits and `-`, `.`, `_`, `~`, with uppercase hexadecimal
/// digits.
#[verifier::external_body]
fn url_encode(s: &str) -> (r: String)
    ensures
        r@ == url_encoded(s@),
{
    urlencoding::encode(s).into_owned()
}

/// The request URL for Google's endpoint.
pub open spec fn google_url(endpoint: Seq<char>, text: Seq<char>, source: Seq<char>, target: Seq<char>) -> Seq<char> {
    endpoint + "?client=gtx&sl="@ + source + "&tl="@ + target + "&dt=t&q="@ + url_encoded(text)
}

pub fn google_request_url(endpoint: &str, text: &str, source: &str, target: &str) -> (r: String)
    ensures
        r@ == google_url(endpoint@, text@, source@, target@),
{
    let mut r = String::new();
    push_str(&mut r, endpoint);
    push_str(&mut r, "?client=gtx&sl=");
    push_str(&mut r, source);
    push_str(&mut r, "&tl=");
    push_str(&mut r, target);
    push_str(&mut r, "&dt=t&q=");
    let encoded = url_encode(text);
    push_str(&mut r, encoded.as_str());
    assert(Seq::<char>::empty() + endpoint@ == endpoint@);
    r
}

/// The request URL for MyMemory's endpoint.
pub open spec fn mymemory_url(endpoint: Seq<char>, text: Seq<char>, source: Seq<char>, target: Seq<char>) -> Seq<char> {
    endpoint + "?q="@ + url_encoded(text) + "&langpair="@ + source + "|"@ + target
}

pub fn mymemory_request_url(endpoint: &str, text: &str, source: &str, target: &str) -> (r: String)
    ensures
        r@ == mymemory_url(endpoint@, text@, source@, target@),
{
    let mut r = String::new();
    push_str(&mut r, endpoint);
    push_str(&mut r, "?q=");
    let encoded = url_encode(text);
    push_str(&mut r, encoded.as_str());
    push_str(&mut r, "&langpair=");
    push_str(&mut r, source);
    push_str(&mut r, "|");
    push_str(&mut r, target);
    assert(Seq::<char>::empty() + endpoint@ == endpoint@);
    r
}

/// The LTEngine code for a Google language code.
pub open spec fn ltengine_code(code: Seq<char>) -> Seq<char> {
    if code == "zh-CN"@ || code == "zh"@ {
        "zh-Hans"@
    } else if code == "zh-TW"@ {
        "zh-Hant"@
    } else if code == "no"@ {
        "nb"@
    } else if code == "fil"@ {
        "tl"@
    } else {
        code
    }
}

/// Maps a Google Translate language code to the one LTEngine takes.
pub fn to_ltengine_code(code: &str) -> (r: &str)
    ensures
        r@ == ltengine_code(code@),
{
    if same_text(code, "zh-CN") || same_text(code, "zh") {
        "zh-Hans"
    } else if same_text(code, "zh-TW") {
        "zh-Hant"
    } else if same_text(code, "no") {
        "nb"
    } else if same_text(code, "fil") {
        "tl"
    } else {
        code
    }
}

/// A placeholder shown in place of a translation.
pub fn simple_fallback_translation(text: &str) -> (r: String)
    ensures
        r@ == "[Chinese text: "@ + text@ + "]"@,
{
    let mut r = "[Chinese text: ".to_string();
    push_str(&mut r, text);
    push_str(&mut r, "]");
    r
}

/// A translation service that can be asked.
#[derive(Clone, Copy, PartialEq, Eq, Debug, Structural)]
pub enum Backend {
    Google,
    MyMemory,
    LibreTranslate,
    LTEngine,
}

/// What to do next while translating.
#[derive(Debug)]
pub enum TranslationStep {
    /// Ask this service and report how it went.
    Ask(Backend),
    /// Done: show this text.
    Done(String),
}

/// The services that automatic mode tries, in order, the local engine last.
pub open spec fn auto_order() -> Seq<Backend> {
    seq![Backend::Google, Backend::MyMemory, Backend::LibreTranslate, Backend::LTEngine]
}

/// The one service that a chosen translation service stands for.
pub open spec fn chosen_backend(service: TranslationService) -> Backend {
    match service {
        TranslationService::Google => Backend::Google,
        TranslationService::MyMemory => Backend::MyMemory,
        TranslationService::LibreTranslate => Backend::LibreTranslate,
        _ => Backend::LTEngine,
    }
}

/// What the user sees when the chosen service failed with `error`.
pub open spec fn failure_text(service: TranslationService, error: Seq<char>, text: Seq<char>) -> Seq<char> {
    match service {
        TranslationService::Google => "[Google Translate unavailable] "@ + text,
        TranslationService::MyMemory => "[MyMemory unavailable] "@ + text,
        TranslationService::LibreTranslate => "[LibreTranslate unavailable] "@ + text,
        _ => "[LTEngine: "@ + error + "] "@ + text,
    }
}

/// What the user sees when every service failed in automatic mode.
pub open spec fn unavailable_text(source: Seq<char>, target: Seq<char>, text: Seq<char>) -> Seq<char> {
    "[Translation unavailable - "@ + source + " to "@ + target + "] "@ + text
}

/// The views of the outcomes so far: a translation or an error message.
pub open spec fn outcomes_view(v: Seq<Result<String, String>>) -> Seq<Result<Seq<char>, Seq<char>>> {
    v.map_values(|o: Result<String, String>| match o {
        Ok(t) => Ok(t@),
        Err(e) => Err(e@),
    })
}

/// The next step of translating `text` with `service`, given the outcomes
/// of the services asked so far, in the order they were asked. Empty text
/// needs no service. Automatic mode asks each service in turn until one
/// answers, then gives up with a notice; a chosen service is asked once,
/// and a failure is shown with the text.
pub open spec fn translation_step(
    service: TranslationService,
    source: Seq<char>,
    target: Seq<char>,
    text: Seq<char>,
    outcomes: Seq<Result<Seq<char>, Seq<char>>>,
) -> Result<Backend, Seq<char>> {
    if text.len() == 0 {
        Err(Seq::empty())
    } else if service == TranslationService::Auto {
        if outcomes.len() > 0 && outcomes.last() is Ok {
            Err(outcomes.last()->Ok_0)
        } else if outcomes.len() < 4 {
            Ok(auto_order()[outcomes.len() as int])
        } else {
            Err(unavailable_text(source, target, text))
        }
    } else if outcomes.len() == 0 {
        Ok(chosen_backend(service))
    } else {
        match outcomes[0] {
            Ok(t) => Err(t),
            Err(e) => Err(failure_text(service, e, text)),
        }
    }
}

fn backend_at(i: usize) -> (r: Backend)
    requires
        i < 4,
    ensures
        r == auto_order()[i as int],
{
    if i == 0 {
        Backend::Google
    } else if i == 1 {
        Backend::MyMemory
    } else if i == 2 {
        Backend::LibreTranslate
    } else {
        Backend::LTEngine
    }
}

/// The next step of translating `text` with `service` from `source` to
/// `target`, as [`translation_step`] describes it; `Done` carries the
/// text to show.
pub fn next_translation_step(
    service: TranslationService,
    source: &str,
    target: &str,
    text: &str,
    outcomes: &Vec<Result<String, String>>,
) -> (r: TranslationStep)
    ensures
        match r {
            TranslationStep::Ask(b) => translation_step(service, source@, target@, text@, outcomes_view(outcomes@)) == Ok::<Backend, Seq<char>>(b),
            TranslationStep::Done(s) => translation_step(service, source@, target@, text@, outcomes_view(outcomes@)) == Err::<Backend, Seq<char>>(s@),
        },
{
    let ghost view = outcomes_view(outcomes@);
    let n = outcomes.len();
    assert(view.len() == n);
    if text.is_empty() {
        return TranslationStep::Done(String::new());
    }
    match service {
        TranslationService::Auto => {
            if n > 0 {
                match &outcomes[n - 1] {
                    Ok(t) => {
                        assert(view.last() == Ok::<Seq<char>, Seq<char>>(t@));
                        return TranslationStep::Done(t.clone());
                    },
                    Err(_) => {
                        assert(view.last() is Err);
                    },
                }
            }
            if n < 4 {
                TranslationStep::Ask(backend_at(n))
            } else {
                let mut r = "[Translation unavailable - ".to_string();
                push_str(&mut r, source);
                push_str(&mut r, " to ");
                push_str(&mut r, target);
                push_str(&mut r, "] ");
                push_str(&mut r, text);
                TranslationStep::Done(r)
            }
        },
        _ => {
            let backend = match service {
                TranslationService::Google => Backend::Google,
                TranslationService::MyMemory => Backend::MyMemory,
                TranslationService::LibreTranslate => Backend::LibreTranslate,
                _ => Backend::LTEngine,
            };
            if n == 0 {
                return TranslationStep::Ask(backend);
            }
            match &outcomes[0] {
                Ok(t) => {
                    assert(view[0] == Ok::<Seq<char>, Seq<char>>(t@));
                    TranslationStep::Done(t.clone())
                },
                Err(e) => {
                    assert(view[0] == Err::<Seq<char>, Seq<char>>(e@));
                    let r = match service {
                        TranslationService::Google => concat("[Google Translate unavailable] ", text),
                        TranslationService::MyMemory => concat("[MyMemory unavailable] ", text),
                        TranslationService::LibreTranslate => concat("[LibreTranslate unavailable] ", text),
                        _ => {
                            let mut r = "[LTEngine: ".to_string();
                            push_str(&mut r, e.as_str());
                            push_str(&mut r, "] ");
                            push_str(&mut r, text);
                            r
                        },
                    };
                    TranslationStep::Done(r)
                },
            }
        },
    }
}

/// The translation in Google's response: the first element of each chunk
/// that is a string, joined; an error for a body of the wrong shape or an
/// empty result.
pub open spec fn google_translation(chunks: Option<Seq<Option<Seq<char>>>>) -> Result<Seq<char>, Seq<char>> {
    match chunks {
        None => Err("Unexpected response structure"@),
        Some(c) => {
            let joined = joined_chunks(c);
            if joined.len() == 0 {
                Err("Empty translation result"@)
            } else {
                Ok(joined)
            }
        },
    }
}

/// The present chunks of `c`, joined.
pub open spec fn joined_chunks(c: Seq<Option<Seq<char>>>) -> Seq<char>
    decreases c.len(),
{
    if c.len() == 0 {
        Seq::empty()
    } else {
        joined_chunks(c.drop_last()) + match c.last() {
            Some(t) => t,
            None => Seq::empty(),
        }
    }
}

pub open spec fn chunks_view(c: Seq<Option<String>>) -> Seq<Option<Seq<char>>> {
    c.map_values(|o: Option<String>| match o {
        Some(t) => Some(t@),
        None => None,
    })
}

/// Joins the chunks of Google's response. `chunks` is `None` when the
/// response's first element is not an array, and otherwise holds, for each
/// chunk, its first element where that is a string.
pub fn google_translation_from_chunks(chunks: &Option<Vec<Option<String>>>) -> (r: Result<String, String>)
    ensures
        match chunks {
            None => r matches Err(e) && google_translation(None) == Err::<Seq<char>, Seq<char>>(e@),
            Some(c) => match r {
                Ok(t) => google_translation(Some(chunks_view(c@))) == Ok::<Seq<char>, Seq<char>>(t@),
                Err(e) => google_translation(Some(chunks_view(c@))) == Err::<Seq<char>, Seq<char>>(e@),
            },
        },
{
    match chunks {
        None => Err("Unexpected response structure".to_string()),
        Some(c) => {
            let ghost view = chunks_view(c@);
            let mut joined = String::new();
            let n = c.len();
            let mut i: usize = 0;
            while i < n
                invariant
                    n == c@.len(),
                    i <= n,
                    view == chunks_view(c@),
                    joined@ == joined_chunks(view.take(i as int)),
                decreases n - i,
            {
                assert(view.take(i + 1).drop_last() == view.take(i as int));
                match &c[i] {
                    Some(t) => push_str(&mut joined, t.as_str()),
                    None => {
                        assert(joined@ + Seq::<char>::empty() == joined@);
                    },
                }
                i = i + 1;
            }
            assert(view.take(n as int) == view);
            if joined.as_str().is_empty() {
                Err("Empty translation result".to_string())
            } else {
                Ok(joined)
            }
        },
    }
}

/// What `serde_json` makes of a response body from Google: the text of its
/// error when the body is not JSON, and otherwise, when the value's first
/// element is an array, for each item of it the item's first element where
/// that is a string.
pub uninterp spec fn google_json_of(body: Seq<char>) -> Result<Option<Seq<Option<Seq<char>>>>, Seq<char>>;

pub open spec fn google_json_view(r: Result<Option<Vec<Option<String>>>, String>) -> Result<
    Option<Seq<Option<Seq<char>>>>,
    Seq<char>,
> {
    match r {
        Err(e) => Err(e@),
        Ok(None) => Ok(None),
        Ok(Some(c)) => Ok(Some(chunks_view(c@))),
    }
}

/// Parses `body` with `serde_json::from_str` into a `serde_json::Value`,
/// keeps the error's text, and reads `value[0]` as an array and `chunk[0]`
/// of each chunk as a string (`serde_json` indexes a value of the wrong
/// shape as `null`, without panicking). The result is named, not spelled
/// out: it is a fixed function of the body.
#[verifier::external_body]
fn google_json_chunks(body: &str) -> (r: Result<Option<Vec<Option<String>>>, String>)
    ensures
        google_json_view(r) == google_json_of(body@),
{
    match serde_json::from_str::<serde_json::Value>(body) {
        Err(e) => Err(e.to_string()),
        Ok(json) => Ok(json[0].as_array().map(
            |chunks| chunks.iter().map(|chunk| chunk[0].as_str().map(|t| t.to_string())).collect(),
        )),
    }
}

/// The translation in Google's response body: a JSON array whose first
/// element lists the chunks of the translation, each with its text first.
/// Long input comes back in several chunks, which are joined in order.
/// A body that is not JSON fails with the parser's message.
pub fn parse_google_response(body: &str) -> (r: Result<String, String>)
    ensures
        match google_json_of(body@) {
            Err(e) => r matches Err(m) && m@ == e,
            Ok(chunks) => match r {
                Ok(t) => google_translation(chunks) == Ok::<Seq<char>, Seq<char>>(t@),
                Err(m) => google_translation(chunks) == Err::<Seq<char>, Seq<char>>(m@),
            },
        },
{
    match google_json_chunks(body) {
        Err(e) => Err(e),
        Ok(chunks) => google_translation_from_chunks(&chunks),
    }
}

/// How asking one LibreTranslate instance went.
pub enum InstanceOutcome {
    /// No answer, or an answer with an error status.
    Unavailable,
    /// The answer's body could not be read; the message says why.
    BodyUnread(String),
    /// The body held no translation.
    Unparsed,
    /// The translation the instance gave.
    Translated(String),
}

/// What asking one instance came to: 0 for no answer, 1 for an unreadable
/// body, 2 for a body without a translation, 3 for a translation; and the
/// message or translation.
pub open spec fn instance_outcome_view(o: InstanceOutcome) -> (int, Seq<char>) {
    match o {
        InstanceOutcome::Unavailable => (0, Seq::empty()),
        InstanceOutcome::BodyUnread(e) => (1, e@),
        InstanceOutcome::Unparsed => (2, Seq::empty()),
        InstanceOutcome::Translated(t) => (3, t@),
    }
}

/// What to do next while asking the LibreTranslate instances.
pub enum InstanceStep {
    /// Ask the instance at this index of the list.
    Ask(usize),
    /// Done, with the translation or the error.
    Done(Result<String, String>),
}

/// The next step, given how many instances there are and how asking them
/// went so far, in order: the first translation ends the search, an
/// unreadable body ends it with that error, any other failure moves on to
/// the next instance, and when none is left the search fails.
pub open spec fn instance_step(count: nat, outcomes: Seq<(int, Seq<char>)>) -> Result<
    nat,
    Result<Seq<char>, Seq<char>>,
> {
    if outcomes.len() > 0 && outcomes.last().0 == 3 {
        Err(Ok(outcomes.last().1))
    } else if outcomes.len() > 0 && outcomes.last().0 == 1 {
        Err(Err(outcomes.last().1))
    } else if outcomes.len() < count {
        Ok(outcomes.len())
    } else {
        Err(Err("All LibreTranslate servers failed"@))
    }
}

/// The next step of asking `count` LibreTranslate instances in turn, as
/// [`instance_step`] describes it.
pub fn next_instance_step(count: usize, outcomes: &Vec<InstanceOutcome>) -> (r: InstanceStep)
    ensures
        instance_step(count as nat, outcomes@.map_values(|o: InstanceOutcome| instance_outcome_view(o)))
            == match r {
            InstanceStep::Ask(i) => Ok::<nat, Result<Seq<char>, Seq<char>>>(i as nat),
            InstanceStep::Done(Ok(t)) => Err::<nat, Result<Seq<char>, Seq<char>>>(Ok(t@)),
            InstanceStep::Done(Err(e)) => Err::<nat, Result<Seq<char>, Seq<char>>>(Err(e@)),
        },
{
    let ghost view = outcomes@.map_values(|o: InstanceOutcome| instance_outcome_view(o));
    let n = outcomes.len();
    assert(view.len() == n);
    if n > 0 {
        assert(view.last() == instance_outcome_view(outcomes@[n - 1]));
        match &outcomes[n - 1] {
            InstanceOutcome::Translated(t) => return InstanceStep::Done(Ok(t.clone())),
            InstanceOutcome::BodyUnread(e) => return InstanceStep::Done(Err(e.clone())),
            _ => {},
        }
    }
    if n < count {
        InstanceStep::Ask(n)
    } else {
        InstanceStep::Done(Err("All LibreTranslate servers failed".to_string()))
    }
}

/// The instances are asked one at a time, in the order they are listed,
/// each at most once, for as long as they fail without an unreadable body;
/// after the last, the search fails.
pub proof fn law_instances_are_asked_in_order(count: nat, failures: Seq<(int, Seq<char>)>)
    requires
        failures.len() <= count,
        forall|i: int| 0 <= i < failures.len() ==> (#[trigger] failures[i]).0 == 0 || failures[i].0 == 2,
    ensures
        failures.len() < count ==> instance_step(count, failures) == Ok::<nat, Result<Seq<char>, Seq<char>>>(failures.len()),
        failures.len() == count ==> instance_step(count, failures) == Err::<nat, Result<Seq<char>, Seq<char>>>(
            Err("All LibreTranslate servers failed"@),
        ),
{
    if failures.len() > 0 {
        assert(failures[failures.len() - 1].0 == 0 || failures[failures.len() - 1].0 == 2);
    }
}

/// Automatic mode asks Google, MyMemory, LibreTranslate and LTEngine, each
/// once and in that order, as long as they fail, and after four failures
/// shows the text with a notice instead of asking again.
pub proof fn law_auto_mode_asks_each_service_once(
    source: Seq<char>,
    target: Seq<char>,
    text: Seq<char>,
    failures: Seq<Result<Seq<char>, Seq<char>>>,
)
    requires
        text.len() > 0,
        failures.len() <= 4,
        forall|i: int| 0 <= i < failures.len() ==> (#[trigger] failures[i]) is Err,
    ensures
        failures.len() < 4 ==> translation_step(TranslationService::Auto, source, target, text, failures)
            == Ok::<Backend, Seq<char>>(auto_order()[failures.len() as int]),
        failures.len() == 4 ==> translation_step(TranslationService::Auto, source, target, text, failures)
            == Err::<Backend, Seq<char>>(unavailable_text(source, target, text)),
{
    if failures.len() > 0 {
        assert(failures[failures.len() - 1] is Err);
    }
}

/// A chosen service is asked once; its answer is shown as it is, and its
/// failure as a notice with the text.
pub proof fn law_chosen_service_is_asked_once(
    service: TranslationService,
    source: Seq<char>,
    target: Seq<char>,
    text: Seq<char>,
    first: Result<Seq<char>, Seq<char>>,
)
    requires
        text.len() > 0,
        service != TranslationService::Auto,
    ensures
        translation_step(service, source, target, text, Seq::empty()) == Ok::<Backend, Seq<char>>(chosen_backend(service)),
        translation_step(service, source, target, text, seq![first]) == match first {
            Ok(t) => Err::<Backend, Seq<char>>(t),
            Err(e) => Err::<Backend, Seq<char>>(failure_text(service, e, text)),
        },
{
}

} // verus!
