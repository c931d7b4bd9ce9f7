//! The speech-to-text settings, the events the recogniser reports, and the
//! parts of device discovery that are plain text processing.
use vstd::prelude::*;
use crate::text::{
    chars_of, contains_seq, is_space, is_whitespace, lowercase, push_str, starts_with,
    string_from_chars, sub_chars, to_lowercase, trim, trimmed, utf8_len, vec_contains,
    vec_starts_with,
};

verus! {

broadcast use vstd::string::group_string_axioms;

/// The language the recogniser is told to expect.
#[derive(Clone, Copy, Debug, PartialEq, Eq, Structural)]
pub enum TranscriptionLanguage {
    English,
    Chinese,
    /// Let the recogniser detect the language.
    Auto,
}

/// The recogniser model to download and run.
#[derive(Clone, Copy, Debug, PartialEq, Eq, Structural)]
pub enum WhisperModelSize {
    Tiny,
    Base,
    Medium,
    LargeV3Turbo,
}

pub open spec fn language_name(l: TranscriptionLanguage) -> Seq<char> {
    match l {
        TranscriptionLanguage::English => "English"@,
        TranscriptionLanguage::Chinese => "Chinese"@,
        TranscriptionLanguage::Auto => "Auto"@,
    }
}

/// English, Chinese, Auto, then English again.
pub open spec fn next_language(l: TranscriptionLanguage) -> TranscriptionLanguage {
    match l {
        TranscriptionLanguage::English => TranscriptionLanguage::Chinese,
        TranscriptionLanguage::Chinese => TranscriptionLanguage::Auto,
        TranscriptionLanguage::Auto => TranscriptionLanguage::English,
    }
}

pub open spec fn prev_language(l: TranscriptionLanguage) -> TranscriptionLanguage {
    match l {
        TranscriptionLanguage::English => TranscriptionLanguage::Auto,
        TranscriptionLanguage::Chinese => TranscriptionLanguage::English,
        TranscriptionLanguage::Auto => TranscriptionLanguage::Chinese,
    }
}

impl TranscriptionLanguage {
    pub fn name(&self) -> (r: &'static str)
        ensures
            r@ == language_name(*self),
    {
        match self {
            TranscriptionLanguage::English => "English",
            TranscriptionLanguage::Chinese => "Chinese",
            TranscriptionLanguage::Auto => "Auto",
        }
    }

    pub fn next(&self) -> (r: Self)
        ensures
            r == next_language(*self),
    {
        match self {
            TranscriptionLanguage::English => TranscriptionLanguage::Chinese,
            TranscriptionLanguage::Chinese => TranscriptionLanguage::Auto,
            TranscriptionLanguage::Auto => TranscriptionLanguage::English,
        }
    }

    pub fn prev(&self) -> (r: Self)
        ensures
            r == prev_language(*self),
    {
        match self {
            TranscriptionLanguage::English => TranscriptionLanguage::Auto,
            TranscriptionLanguage::Chinese => TranscriptionLanguage::English,
            TranscriptionLanguage::Auto => TranscriptionLanguage::Chinese,
        }
    }
}

impl Default for TranscriptionLanguage {
    fn default() -> (r: Self)
        ensures
            r == TranscriptionLanguage::Auto,
    {
        TranscriptionLanguage::Auto
    }
}

pub open spec fn model_name(m: WhisperModelSize) -> Seq<char> {
    match m {
        WhisperModelSize::Tiny => "Tiny"@,
        WhisperModelSize::Base => "Base"@,
        WhisperModelSize::Medium => "Medium"@,
        WhisperModelSize::LargeV3Turbo => "Large V3 Turbo"@,
    }
}

/// Tiny, Base, Medium, Large V3 Turbo, then Tiny again.
pub open spec fn next_model(m: WhisperModelSize) -> WhisperModelSize {
    match m {
        WhisperModelSize::Tiny => WhisperModelSize::Base,
        WhisperModelSize::Base => WhisperModelSize::Medium,
        WhisperModelSize::Medium => WhisperModelSize::LargeV3Turbo,
        WhisperModelSize::LargeV3Turbo => WhisperModelSize::Tiny,
    }
}

pub open spec fn prev_model(m: WhisperModelSize) -> WhisperModelSize {
    match m {
        WhisperModelSize::Tiny => WhisperModelSize::LargeV3Turbo,
        WhisperModelSize::Base => WhisperModelSize::Tiny,
        WhisperModelSize::Medium => WhisperModelSize::Base,
        WhisperModelSize::LargeV3Turbo => WhisperModelSize::Medium,
    }
}

impl WhisperModelSize {
    pub fn name(&self) -> (r: &'static str)
        ensures
            r@ == model_name(*self),
    {
        match self {
            WhisperModelSize::Tiny => "Tiny",
            WhisperModelSize::Base => "Base",
            WhisperModelSize::Medium => "Medium",
            WhisperModelSize::LargeV3Turbo => "Large V3 Turbo",
        }
    }

    pub fn next(&self) -> (r: Self)
        ensures
            r == next_model(*self),
    {
        match self {
            WhisperModelSize::Tiny => WhisperModelSize::Base,
            WhisperModelSize::Base => WhisperModelSize::Medium,
            WhisperModelSize::Medium => WhisperModelSize::LargeV3Turbo,
            WhisperModelSize::LargeV3Turbo => WhisperModelSize::Tiny,
        }
    }

    pub fn prev(&self) -> (r: Self)
        ensures
            r == prev_model(*self),
    {
        match self {
            WhisperModelSize::Tiny => WhisperModelSize::LargeV3Turbo,
            WhisperModelSize::Base => WhisperModelSize::Tiny,
            WhisperModelSize::Medium => WhisperModelSize::Base,
            WhisperModelSize::LargeV3Turbo => WhisperModelSize::Medium,
        }
    }
}

impl Default for WhisperModelSize {
    fn default() -> (r: Self)
        ensures
            r == WhisperModelSize::Tiny,
    {
        WhisperModelSize::Tiny
    }
}

/// `next` and `prev` undo each other, for languages and for model sizes.
pub proof fn law_transcription_cycles_are_inverse(l: TranscriptionLanguage, m: WhisperModelSize)
    ensures
        prev_language(next_language(l)) == l,
        next_language(prev_language(l)) == l,
        prev_model(next_model(m)) == m,
        next_model(prev_model(m)) == m,
{
}

/// Three steps forward bring a language back, four a model size, and no
/// fewer do.
pub proof fn law_transcription_cycles_visit_every_variant(l: TranscriptionLanguage, m: WhisperModelSize)
    ensures
        next_language(next_language(next_language(l))) == l,
        next_language(l) != l,
        next_language(next_language(l)) != l,
        next_model(next_model(next_model(next_model(m)))) == m,
        next_model(m) != m,
        next_model(next_model(m)) != m,
        next_model(next_model(next_model(m))) != m,
{
}

/// The Hugging Face repository and file that hold a model's weights.
pub open spec fn model_file(m: WhisperModelSize) -> (Seq<char>, Seq<char>) {
    match m {
        WhisperModelSize::Tiny => ("ggerganov/whisper.cpp"@, "ggml-tiny.bin"@),
        WhisperModelSize::Base => ("ggerganov/whisper.cpp"@, "ggml-base.bin"@),
        WhisperModelSize::Medium => ("ggerganov/whisper.cpp"@, "ggml-medium.bin"@),
        WhisperModelSize::LargeV3Turbo => ("ggerganov/whisper.cpp"@, "ggml-large-v3-turbo.bin"@),
    }
}

/// Returns `(repo_id, filename)` of the model's weights on Hugging Face.
pub fn model_repo_file(model: WhisperModelSize) -> (r: (&'static str, &'static str))
    ensures
        (r.0@, r.1@) == model_file(model),
{
    match model {
        WhisperModelSize::Tiny => ("ggerganov/whisper.cpp", "ggml-tiny.bin"),
        WhisperModelSize::Base => ("ggerganov/whisper.cpp", "ggml-base.bin"),
        WhisperModelSize::Medium => ("ggerganov/whisper.cpp", "ggml-medium.bin"),
        WhisperModelSize::LargeV3Turbo => ("ggerganov/whisper.cpp", "ggml-large-v3-turbo.bin"),
    }
}

/// The language code the recogniser takes; `None` lets it detect the
/// language itself.
pub fn whisper_language_code(lang: TranscriptionLanguage) -> (r: Option<&'static str>)
    ensures
        match lang {
            TranscriptionLanguage::English => r matches Some(c) && c@ == "en"@,
            TranscriptionLanguage::Chinese => r matches Some(c) && c@ == "zh"@,
            TranscriptionLanguage::Auto => r is None,
        },
{
    match lang {
        TranscriptionLanguage::English => Some("en"),
        TranscriptionLanguage::Chinese => Some("zh"),
        TranscriptionLanguage::Auto => None,
    }
}

/// An audio input: the name used to select it and a description to show.
#[derive(Clone, Debug)]
pub struct AudioDevice {
    pub name: String,
    pub description: String,
}

/// What the model loader, the audio thread and the recogniser report.
#[derive(Debug)]
pub enum TranscriptionEvent {
    /// Download or load progress. `progress` carries the IEEE-754 bits of a
    /// fraction between 0 and 1 (`f32::to_bits`), which this library only
    /// stores and never computes with.
    ModelLoading { progress: u32, status: String },
    ModelReady,
    /// A recognised stretch of speech.
    Segment(String),
    /// Whether the last chunk of audio held speech.
    VadActivity(bool),
    Error(String),
}

/// The lines of `s`, as `str::lines` yields them: cut at `'\n'`, with one
/// `'\r'` right before a `'\n'` dropped, and no empty last line after a
/// final newline.
pub open spec fn text_lines(s: Seq<char>) -> Seq<Seq<char>>
    decreases s.len(),
{
    if s.len() == 0 {
        seq![]
    } else {
        let cut = first_newline(s);
        proof {
            lemma_first_newline_bounds(s);
        }
        if cut < s.len() {
            seq![strip_cr(s.take(cut))] + text_lines(s.skip(cut + 1))
        } else {
            seq![s]
        }
    }
}

/// Index of the first `'\n'` in `s`, or its length when there is none.
pub open spec fn first_newline(s: Seq<char>) -> int
    decreases s.len(),
{
    if s.len() == 0 {
        0
    } else if s[0] == '\n' {
        0
    } else {
        1 + first_newline(s.skip(1))
    }
}

pub open spec fn strip_cr(s: Seq<char>) -> Seq<char> {
    if s.len() > 0 && s.last() == '\r' {
        s.drop_last()
    } else {
        s
    }
}

/// Where the reading of `pactl list sources` stands: the devices found and
/// the `Name:` waiting for its `Description:`.
pub struct SourceScan {
    pub devices: Seq<(Seq<char>, Seq<char>)>,
    pub pending: Option<Seq<char>>,
}

pub open spec fn source_scan_step(st: SourceScan, line: Seq<char>) -> SourceScan {
    let t = trim(line);
    if starts_with(t, "Name: "@) {
        SourceScan { pending: Some(t.skip(6)), ..st }
    } else if starts_with(t, "Description: "@) {
        match st.pending {
            Some(name) => SourceScan { devices: st.devices.push((name, t.skip(13))), pending: None },
            None => st,
        }
    } else {
        st
    }
}

pub open spec fn source_scan(lines: Seq<Seq<char>>) -> SourceScan
    decreases lines.len(),
{
    if lines.len() == 0 {
        SourceScan { devices: seq![], pending: None }
    } else {
        source_scan_step(source_scan(lines.drop_last()), lines.last())
    }
}

/// The devices that `pactl list sources` prints: each `Name:` paired with
/// the `Description:` that follows it.
pub open spec fn pactl_sources(output: Seq<char>) -> Seq<(Seq<char>, Seq<char>)> {
    source_scan(text_lines(output)).devices
}

pub open spec fn devices_view(v: Seq<AudioDevice>) -> Seq<(Seq<char>, Seq<char>)> {
    v.map_values(|d: AudioDevice| (d.name@, d.description@))
}

/// Reads the sources out of the text that `pactl list sources` printed;
/// `None` when there are none.
pub fn parse_pactl_sources(output: &str) -> (r: Option<Vec<AudioDevice>>)
    ensures
        match r {
            Some(v) => devices_view(v@) == pactl_sources(output@) && v@.len() > 0,
            None => pactl_sources(output@).len() == 0,
        },
{
    let chars = chars_of(output);
    let lines = split_text_lines(&chars);
    let name_prefix = chars_of("Name: ");
    let desc_prefix = chars_of("Description: ");
    proof {
        reveal_strlit("Name: ");
        reveal_strlit("Description: ");
    }
    let mut devices: Vec<AudioDevice> = Vec::new();
    let mut current_name: Option<Vec<char>> = None;
    let n = lines.len();
    assert(devices_view(devices@) == Seq::<(Seq<char>, Seq<char>)>::empty());
    assert(text_lines(output@).take(0) == Seq::<Seq<char>>::empty());
    assert(lines@.take(0) == Seq::<Vec<char>>::empty());
    for i in 0..n
        invariant
            n == lines@.len(),
            name_prefix@ == "Name: "@,
            desc_prefix@ == "Description: "@,
            "Name: "@.len() == 6,
            "Description: "@.len() == 13,
            lines@.map_values(|l: Vec<char>| l@) == text_lines(output@),
            source_scan(text_lines(output@).take(i as int)) == (SourceScan {
                devices: devices_view(devices@),
                pending: match current_name {
                    Some(v) => Some(v@),
                    None => None,
                },
            }),
    {
        let ghost all = text_lines(output@);
        assert(all.take(i + 1).drop_last() == all.take(i as int));
        assert(all.take(i + 1).last() == lines@[i as int]@);
        let t = trimmed(&lines[i]);
        if vec_starts_with(&t, &name_prefix) {
            current_name = Some(sub_chars(&t, 6, t.len()));
        } else if vec_starts_with(&t, &desc_prefix) {
            match current_name {
                Some(name) => {
                    let description = sub_chars(&t, 13, t.len());
                    let ghost before = devices@;
                    devices.push(
                        AudioDevice {
                            name: string_from_chars(&name),
                            description: string_from_chars(&description),
                        },
                    );
                    current_name = None;
                    assert(devices_view(devices@) == devices_view(before).push(
                        (name@, description@),
                    ));
                },
                None => {},
            }
        }
    }
    assert(text_lines(output@).take(n as int) == text_lines(output@));
    if devices.len() == 0 {
        None
    } else {
        Some(devices)
    }
}

/// Cuts `s` into lines as `str::lines` does.
fn split_text_lines(s: &Vec<char>) -> (r: Vec<Vec<char>>)
    ensures
        r@.map_values(|l: Vec<char>| l@) == text_lines(s@),
    decreases s@.len(),
{
    let ghost f = |l: Vec<char>| l@;
    let mut r: Vec<Vec<char>> = Vec::new();
    let mut start: usize = 0;
    assert(s@.skip(0) == s@);
    assert(r@.map_values(f) == Seq::<Seq<char>>::empty());
    assert(Seq::<Seq<char>>::empty() + text_lines(s@) == text_lines(s@));
    while start < s.len()
        invariant
            start <= s@.len(),
            f == (|l: Vec<char>| l@),
            r@.map_values(f) + text_lines(s@.skip(start as int)) == text_lines(s@),
        decreases s@.len() - start,
    {
        let ghost rest = s@.skip(start as int);
        let mut end = start;
        while end < s.len() && s[end] != '\n'
            invariant
                start <= end <= s@.len(),
                rest == s@.skip(start as int),
                forall|k: int| start <= k < end ==> s@[k] != '\n',
            decreases s@.len() - end,
        {
            end = end + 1;
        }
        proof {
            lemma_first_newline(rest, end - start);
        }
        let mut line = sub_chars(s, start, end);
        if end < s.len() && line.len() > 0 && line[line.len() - 1] == '\r' {
            line.pop();
        }
        assert(end < s.len() ==> line@ == strip_cr(rest.take(end - start)));
        let ghost before = r@;
        r.push(line);
        assert(r@.map_values(f) == before.map_values(f).push(line@));
        if end < s.len() {
            assert(rest.skip(end - start + 1) == s@.skip(end + 1));
            assert(text_lines(rest) == seq![line@] + text_lines(s@.skip(end + 1)));
            start = end + 1;
        } else {
            assert(text_lines(rest) == seq![line@]);
            assert(rest.take(end - start) == rest);
            assert(s@.skip(s@.len() as int) == Seq::<char>::empty());
            assert(text_lines(Seq::<char>::empty()) == Seq::<Seq<char>>::empty());
            assert(before.map_values(f).push(line@) + Seq::<Seq<char>>::empty() == before.map_values(f) + seq![line@]);
            start = end;
        }
        assert(r@.map_values(f) + text_lines(s@.skip(start as int)) == text_lines(s@));
    }
    assert(s@.skip(start as int) == Seq::<char>::empty());
    assert(r@.map_values(f) + Seq::<Seq<char>>::empty() == r@.map_values(f));
    r
}

pub proof fn lemma_first_newline_bounds(s: Seq<char>)
    ensures
        0 <= first_newline(s) <= s.len(),
    decreases s.len(),
{
    if s.len() > 0 && s[0] != '\n' {
        lemma_first_newline_bounds(s.skip(1));
    }
}

proof fn lemma_first_newline(s: Seq<char>, k: int)
    requires
        0 <= k <= s.len(),
        forall|j: int| 0 <= j < k ==> s[j] != '\n',
        k == s.len() || s[k] == '\n',
    ensures
        first_newline(s) == k,
    decreases k,
{
    if k > 0 {
        assert(s[0] != '\n');
        assert forall|j: int| 0 <= j < k - 1 implies s.skip(1)[j] != '\n' by {
            assert(s.skip(1)[j] == s[j + 1]);
        }
        lemma_first_newline(s.skip(1), k - 1);
    }
}

/// The default source that `pactl get-default-source` printed, trimmed;
/// `None` when it printed only whitespace.
pub fn default_source_from_output(output: &str) -> (r: Option<String>)
    ensures
        match r {
            Some(s) => s@ == trim(output@) && s@.len() > 0,
            None => trim(output@).len() == 0,
        },
{
    let chars = chars_of(output);
    let t = trimmed(&chars);
    if t.len() > 0 {
        Some(string_from_chars(&t))
    } else {
        None
    }
}

/// The whitespace-separated words of `s` so far, and the word being read.
pub open spec fn split_words(s: Seq<char>) -> (Seq<Seq<char>>, Seq<char>)
    decreases s.len(),
{
    if s.len() == 0 {
        (Seq::empty(), Seq::empty())
    } else {
        let (done, cur) = split_words(s.drop_last());
        if is_space(s.last()) {
            if cur.len() > 0 {
                (done.push(cur), Seq::empty())
            } else {
                (done, cur)
            }
        } else {
            (done, cur.push(s.last()))
        }
    }
}

/// The whitespace-separated words of `s`, as `str::split_whitespace`
/// yields them.
pub open spec fn words(s: Seq<char>) -> Seq<Seq<char>> {
    let (done, cur) = split_words(s);
    if cur.len() > 0 {
        done.push(cur)
    } else {
        done
    }
}

fn words_in(s: &Vec<char>) -> (r: Vec<Vec<char>>)
    ensures
        r@.len() == words(s@).len(),
        forall|i: int| 0 <= i < r@.len() ==> (#[trigger] r@[i])@ == words(s@)[i],
{
    let mut done: Vec<Vec<char>> = Vec::new();
    let mut cur: Vec<char> = Vec::new();
    let n = s.len();
    let mut i: usize = 0;
    while i < n
        invariant
            n == s@.len(),
            i <= n,
            done@.len() == split_words(s@.take(i as int)).0.len(),
            forall|k: int| 0 <= k < done@.len() ==> (#[trigger] done@[k])@ == split_words(s@.take(i as int)).0[k],
            cur@ == split_words(s@.take(i as int)).1,
        decreases n - i,
    {
        assert(s@.take(i + 1).drop_last() == s@.take(i as int));
        let c = s[i];
        if is_whitespace(c) {
            if cur.len() > 0 {
                let finished = cur;
                cur = Vec::new();
                done.push(finished);
            }
        } else {
            cur.push(c);
        }
        i = i + 1;
    }
    assert(s@.take(n as int) == s@);
    if cur.len() > 0 {
        done.push(cur);
    }
    done
}

/// Whether a device name and the requested name, both lowercase, match
/// closely: equal, or one holding the other.
pub open spec fn close_match(device: Seq<char>, requested: Seq<char>) -> bool {
    device == requested || contains_seq(device, requested) || contains_seq(requested, device)
}

/// Whether a lowercase device name holds one of the significant words (over
/// three bytes long) of the requested name.
pub open spec fn word_match(device: Seq<char>, requested_words: Seq<Seq<char>>) -> bool {
    exists|k: int| 0 <= k < requested_words.len() && utf8_len(requested_words[k]) > 3
        && contains_seq(device, #[trigger] requested_words[k])
}

/// The first index of `names` whose name satisfies `p`.
pub open spec fn first_where(names: Seq<Seq<char>>, p: spec_fn(Seq<char>) -> bool) -> Option<int> {
    if exists|i: int| 0 <= i < names.len() && p(#[trigger] names[i]) {
        Some(choose|i: int| 0 <= i < names.len() && p(#[trigger] names[i]) && forall|j: int| 0 <= j < i ==> !p(names[j]))
    } else {
        None
    }
}

pub open spec fn lowered_names(names: Seq<String>) -> Seq<Seq<char>> {
    names.map_values(|n: String| lowercase(n@))
}

/// Which of the devices named `names` to record from when the user chose
/// `requested`: the first whose name matches closely, ignoring case, or
/// else the first that holds a significant word of it; `None` leaves the
/// choice to the system's default.
pub open spec fn chosen_device(requested: Seq<char>, names: Seq<String>) -> Option<int> {
    let req = lowercase(requested);
    let lowered = lowered_names(names);
    match first_where(lowered, |d: Seq<char>| close_match(d, req)) {
        Some(i) => Some(i),
        None => first_where(lowered, |d: Seq<char>| word_match(d, words(req))),
    }
}

proof fn lemma_first_where_is(names: Seq<Seq<char>>, p: spec_fn(Seq<char>) -> bool, i: int)
    requires
        0 <= i < names.len(),
        p(names[i]),
        forall|j: int| 0 <= j < i ==> !p(#[trigger] names[j]),
    ensures
        first_where(names, p) == Some(i),
{
    let k = choose|k: int| 0 <= k < names.len() && p(#[trigger] names[k]) && forall|j: int| 0 <= j < k ==> !p(names[j]);
    assert(0 <= k < names.len() && p(names[k]) && forall|j: int| 0 <= j < k ==> !p(names[j]));
    if k < i {
        assert(!p(names[k]));
    }
    if i < k {
        assert(!p(names[i]));
    }
}

fn utf8_longer_than_three(w: &Vec<char>) -> (r: bool)
    ensures
        r == (utf8_len(w@) > 3),
{
    let mut total: usize = 0;
    let mut i: usize = 0;
    while i < w.len()
        invariant
            i <= w@.len(),
            total == utf8_len(w@.take(i as int)),
            total <= 3,
        decreases w.len() - i,
    {
        assert(w@.take(i + 1).drop_last() == w@.take(i as int));
        total = total + crate::text::char_utf8_width(w[i]);
        i = i + 1;
        if total > 3 {
            proof {
                crate::text::lemma_utf8_len_monotone(w@, i as int, w@.len() as int);
                assert(w@.take(w@.len() as int) == w@);
            }
            return true;
        }
    }
    assert(w@.take(w@.len() as int) == w@);
    false
}

fn has_word_match(d: &Vec<char>, ws: &Vec<Vec<char>>, Ghost(wv): Ghost<Seq<Seq<char>>>) -> (r: bool)
    requires
        ws@.len() == wv.len(),
        forall|k: int| 0 <= k < ws@.len() ==> (#[trigger] ws@[k])@ == wv[k],
    ensures
        r == word_match(d@, wv),
{
    let mut w: usize = 0;
    while w < ws.len()
        invariant
            ws@.len() == wv.len(),
            forall|k: int| 0 <= k < ws@.len() ==> (#[trigger] ws@[k])@ == wv[k],
            w <= ws@.len(),
            forall|k: int| 0 <= k < w ==> !(utf8_len(wv[k]) > 3 && contains_seq(d@, #[trigger] wv[k])),
        decreases ws.len() - w,
    {
        if utf8_longer_than_three(&ws[w]) && vec_contains(d, &ws[w]) {
            return true;
        }
        w = w + 1;
    }
    false
}

/// Picks the device to record from, as [`chosen_device`] describes it.
pub fn choose_device(requested: &str, names: &Vec<String>) -> (r: Option<usize>)
    ensures
        match r {
            Some(i) => chosen_device(requested@, names@) == Some(i as int),
            None => chosen_device(requested@, names@) is None,
        },
{
    let req_text = to_lowercase(requested);
    let req = chars_of(req_text.as_str());
    let ghost lowered = lowered_names(names@);
    let ghost close = |d: Seq<char>| close_match(d, req@);
    let n = names.len();
    let mut lowered_exec: Vec<Vec<char>> = Vec::new();
    let mut i: usize = 0;
    while i < n
        invariant
            n == names@.len(),
            i <= n,
            lowered == lowered_names(names@),
            req@ == lowercase(requested@),
            close == (|d: Seq<char>| close_match(d, req@)),
            lowered_exec@.len() == i,
            forall|k: int| 0 <= k < i ==> (#[trigger] lowered_exec@[k])@ == lowered[k],
            forall|k: int| 0 <= k < i ==> !close(#[trigger] lowered[k]),
        decreases n - i,
    {
        let name_l = to_lowercase(names[i].as_str());
        let d = chars_of(name_l.as_str());
        assert(d@ == lowered[i as int]);
        let hit = vec_contains(&d, &req) || vec_contains(&req, &d);
        proof {
            if d@ == req@ {
                assert(d@.subrange(0, d@.len() as int) == d@);
                assert(crate::text::occurs_at(d@, req@, 0));
            }
        }
        if hit {
            proof {
                lemma_first_where_is(lowered, close, i as int);
            }
            return Some(i);
        }
        lowered_exec.push(d);
        i = i + 1;
    }
    proof {
        assert(first_where(lowered, close) is None) by {
            if exists|k: int| 0 <= k < lowered.len() && close(#[trigger] lowered[k]) {
                let k = choose|k: int| 0 <= k < lowered.len() && close(#[trigger] lowered[k]);
                assert(!close(lowered[k]));
            }
        }
    }
    proof {
        assert(close =~= (|d: Seq<char>| close_match(d, lowercase(requested@))));
    }
    let ws = words_in(&req);
    let ghost wv = words(req@);
    let ghost by_word = |d: Seq<char>| word_match(d, wv);
    let mut j: usize = 0;
    while j < n
        invariant
            n == names@.len() == lowered_exec@.len(),
            j <= n,
            lowered == lowered_names(names@),
            forall|k: int| 0 <= k < n ==> (#[trigger] lowered_exec@[k])@ == lowered[k],
            ws@.len() == wv.len(),
            forall|k: int| 0 <= k < ws@.len() ==> (#[trigger] ws@[k])@ == wv[k],
            by_word == (|d: Seq<char>| word_match(d, wv)),
            wv == words(lowercase(requested@)),
            first_where(lowered, |d: Seq<char>| close_match(d, lowercase(requested@))) is None,
            forall|k: int| 0 <= k < j ==> !by_word(#[trigger] lowered[k]),
        decreases n - j,
    {
        let found = has_word_match(&lowered_exec[j], &ws, Ghost(wv));
        if found {
            proof {
                lemma_first_where_is(lowered, by_word, j as int);
                assert(by_word =~= (|d: Seq<char>| word_match(d, words(lowercase(requested@)))));
            }
            return Some(j);
        }
        j = j + 1;
    }
    proof {
        assert(first_where(lowered, by_word) is None) by {
            if exists|k: int| 0 <= k < lowered.len() && by_word(#[trigger] lowered[k]) {
                let k = choose|k: int| 0 <= k < lowered.len() && by_word(#[trigger] lowered[k]);
                assert(!by_word(lowered[k]));
            }
        }
        assert(by_word =~= (|d: Seq<char>| word_match(d, words(lowercase(requested@)))));
    }
    None
}

/// A recognised segment worth reporting: its text trimmed, when any is left.
pub fn recognised_segment(text: &str) -> (r: Option<String>)
    ensures
        match r {
            Some(t) => trim(text@).len() > 0 && t@ == trim(text@),
            None => trim(text@).len() == 0,
        },
{
    let chars = chars_of(text);
    let t = trimmed(&chars);
    if t.len() == 0 {
        None
    } else {
        Some(string_from_chars(&t))
    }
}

/// The status shown while a model file is downloaded.
pub fn downloading_status(model: WhisperModelSize) -> (r: String)
    ensures
        r@ == "Downloading "@ + model_file(model).1 + "..."@,
{
    let (_, file) = model_repo_file(model);
    let mut r = "Downloading ".to_string();
    push_str(&mut r, file);
    push_str(&mut r, "...");
    r
}

/// Whether `line`, trimmed, starts with `Name: `.
pub open spec fn is_name_line(line: Seq<char>) -> bool {
    starts_with(trim(line), "Name: "@)
}

/// Whether `line`, trimmed, starts with `Description: `.
pub open spec fn is_description_line(line: Seq<char>) -> bool {
    starts_with(trim(line), "Description: "@)
}

/// Whether device `d` is read from line `j`, a `Name:` line giving its
/// name, and line `k`, the next `Description:` line giving its description,
/// with no `Name:` or `Description:` line between them.
pub open spec fn device_read_from(lines: Seq<Seq<char>>, d: (Seq<char>, Seq<char>), j: int, k: int) -> bool {
    &&& 0 <= j < k < lines.len()
    &&& is_name_line(lines[j])
    &&& is_description_line(lines[k])
    &&& d.0 == trim(lines[j]).skip(6)
    &&& d.1 == trim(lines[k]).skip(13)
    &&& forall|m: int| j < m < k ==> !is_name_line(#[trigger] lines[m]) && !is_description_line(lines[m])
}

/// Whether device `d` is read from some `Name:` line of `lines` and the
/// next `Description:` line, as [`device_read_from`] says.
pub open spec fn read_from_lines(lines: Seq<Seq<char>>, d: (Seq<char>, Seq<char>)) -> bool {
    exists|j: int, k: int| #[trigger] device_read_from(lines, d, j, k)
}

proof fn lemma_prefixes_differ(line: Seq<char>)
    ensures
        !(is_name_line(line) && is_description_line(line)),
{
    reveal_strlit("Name: ");
    reveal_strlit("Description: ");
    if is_name_line(line) && is_description_line(line) {
        assert(trim(line)[0] == "Name: "@[0]);
        assert(trim(line)[0] == "Description: "@[0]);
    }
}

proof fn lemma_read_from_longer(lines: Seq<Seq<char>>, d: (Seq<char>, Seq<char>), j: int, k: int)
    requires
        lines.len() > 0,
        device_read_from(lines.drop_last(), d, j, k),
    ensures
        device_read_from(lines, d, j, k),
{
    let p = lines.drop_last();
    assert(p[j] == lines[j]);
    assert(p[k] == lines[k]);
    assert forall|m: int| j < m < k implies !is_name_line(#[trigger] lines[m]) && !is_description_line(lines[m]) by {
        assert(p[m] == lines[m]);
    }
}

/// What the scan of `lines` has read: every device from a `Name:` line and
/// the `Description:` line after it, and a waiting name from the last
/// `Name:` line, with nothing that counts after it.
proof fn lemma_source_scan(lines: Seq<Seq<char>>)
    ensures
        forall|i: int|
            0 <= i < source_scan(lines).devices.len() ==> read_from_lines(
                lines,
                #[trigger] source_scan(lines).devices[i],
            ),
        source_scan(lines).pending matches Some(name) ==> exists|j: int|
            0 <= j < lines.len() && is_name_line(#[trigger] lines[j]) && name == trim(lines[j]).skip(6)
                && forall|m: int| j < m < lines.len() ==> !is_name_line(#[trigger] lines[m])
                && !is_description_line(lines[m]),
    decreases lines.len(),
{
    if lines.len() > 0 {
        let p = lines.drop_last();
        let l = lines.last();
        let n = p.len() as int;
        lemma_source_scan(p);
        let st = source_scan(p);
        let nx = source_scan(lines);
        assert(nx == source_scan_step(st, l));
        assert(lines[n] == l);
        lemma_prefixes_differ(l);
        assert forall|i: int| 0 <= i < st.devices.len() implies read_from_lines(
            lines,
            #[trigger] st.devices[i],
        ) by {
            let (j, k) = choose|j: int, k: int| device_read_from(p, st.devices[i], j, k);
            lemma_read_from_longer(lines, st.devices[i], j, k);
        }
        if !is_description_line(l) || st.pending is None {
            assert(nx.devices == st.devices);
            assert forall|i: int|
                0 <= i < nx.devices.len() implies read_from_lines(lines, #[trigger] nx.devices[i]) by {
                assert(nx.devices[i] == st.devices[i]);
            }
        }
        if is_name_line(l) {
            assert(nx.devices == st.devices);
            assert(is_name_line(lines[n]) && nx.pending == Some(trim(lines[n]).skip(6)));
        } else if is_description_line(l) {
            match st.pending {
                Some(name) => {
                    let j = choose|j: int|
                        0 <= j < p.len() && is_name_line(#[trigger] p[j]) && name == trim(p[j]).skip(6)
                            && forall|m: int| j < m < p.len() ==> !is_name_line(#[trigger] p[m])
                            && !is_description_line(p[m]);
                    let d = (name, trim(l).skip(13));
                    assert(nx.devices == st.devices.push(d));
                    assert(p[j] == lines[j]);
                    assert forall|m: int| j < m < n implies !is_name_line(#[trigger] lines[m])
                        && !is_description_line(lines[m]) by {
                        assert(p[m] == lines[m]);
                    }
                    assert(device_read_from(lines, d, j, n));
                    assert forall|i: int|
                0 <= i < nx.devices.len() implies read_from_lines(lines, #[trigger] nx.devices[i]) by {
                        if i < st.devices.len() {
                            assert(nx.devices[i] == st.devices[i]);
                        } else {
                            assert(nx.devices[i] == d);
                        }
                    }
                        },
                None => {
                    assert(nx == st);
                },
            }
        } else {
            assert(nx == st);
            if let Some(name) = st.pending {
                let j = choose|j: int|
                    0 <= j < p.len() && is_name_line(#[trigger] p[j]) && name == trim(p[j]).skip(6)
                        && forall|m: int| j < m < p.len() ==> !is_name_line(#[trigger] p[m])
                        && !is_description_line(p[m]);
                assert(p[j] == lines[j]);
                assert forall|m: int| j < m < lines.len() implies !is_name_line(#[trigger] lines[m])
                    && !is_description_line(lines[m]) by {
                    if m < n {
                        assert(p[m] == lines[m]);
                    }
                }
            }
        }
    }
}

/// Every audio device read from `pactl list sources` output takes its name
/// from the text after `Name: ` on one line and its description from the
/// text after `Description: ` on the next such line, with no other `Name:`
/// line between them.
pub proof fn law_devices_come_from_name_and_description_lines(output: Seq<char>)
    ensures
        forall|i: int|
            0 <= i < pactl_sources(output).len() ==> read_from_lines(
                text_lines(output),
                #[trigger] pactl_sources(output)[i],
            ),
{
    lemma_source_scan(text_lines(output));
}

} // verus!
