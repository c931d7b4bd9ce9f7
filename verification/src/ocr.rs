//! Text recognition in images: where the models come from, how the
//! recognised lines are joined, and how an image named in the input box or
//! on the clipboard is to be fetched. Running the recogniser is left to the
//! program around the library.
use vstd::prelude::*;
use crate::image_source::{ImageSource, source_view};
use crate::text::{
    chars_of, concat, push_str, starts_with, string_from_chars, sub_chars, trim, trimmed,
    vec_starts_with,
};

verus! {

broadcast use vstd::string::group_string_axioms;

/// What the recogniser read from an image.
pub struct OcrResult {
    pub text: String,
}

/// The text detection model.
pub const DET_MODEL: &'static str = "PP-OCRv5_mobile_det.mnn";

/// The text recognition model.
pub const REC_MODEL: &'static str = "PP-OCRv5_mobile_rec.mnn";

/// The recogniser's character set.
pub const CHARSET_FILE: &'static str = "ppocr_keys_v5.txt";

/// Where the model files are downloaded from.
pub const MODEL_BASE_URL: &'static str = "https://raw.githubusercontent.com/zibo-chen/rust-paddle-ocr/next/models";

/// The download address of a model file.
pub fn model_url(filename: &str) -> (r: String)
    ensures
        r@ == "https://raw.githubusercontent.com/zibo-chen/rust-paddle-ocr/next/models/"@ + filename@,
{
    let mut r = "https://raw.githubusercontent.com/zibo-chen/rust-paddle-ocr/next/models/".to_string();
    push_str(&mut r, filename);
    r
}

/// `lines` joined with newlines between them.
pub open spec fn joined_lines(lines: Seq<Seq<char>>) -> Seq<char>
    decreases lines.len(),
{
    if lines.len() == 0 {
        Seq::empty()
    } else if lines.len() == 1 {
        lines[0]
    } else {
        joined_lines(lines.drop_last()) + seq!['\n'] + lines.last()
    }
}

pub open spec fn texts_view(v: Seq<String>) -> Seq<Seq<char>> {
    v.map_values(|s: String| s@)
}

/// The recognised pieces of text as one text, a line each.
pub fn join_recognized(pieces: &Vec<String>) -> (r: OcrResult)
    ensures
        r.text@ == joined_lines(texts_view(pieces@)),
{
    let ghost view = texts_view(pieces@);
    let mut text = String::new();
    let n = pieces.len();
    let mut i: usize = 0;
    while i < n
        invariant
            n == pieces@.len(),
            i <= n,
            view == texts_view(pieces@),
            text@ == joined_lines(view.take(i as int)),
        decreases n - i,
    {
        assert(view.take(i + 1).drop_last() == view.take(i as int));
        if i > 0 {
            push_str(&mut text, "\n");
            proof {
                reveal_strlit("\n");
            }
        } else {
            assert(Seq::<char>::empty() + pieces@[0]@ == pieces@[0]@);
        }
        push_str(&mut text, pieces[i].as_str());
        i = i + 1;
    }
    assert(view.take(n as int) == view);
    OcrResult { text }
}

/// Where piece `i` of `lines` begins once they are joined: after every
/// earlier piece and one separator for each.
pub open spec fn piece_start(lines: Seq<Seq<char>>, i: int) -> int
    decreases i,
{
    if i <= 0 {
        0
    } else {
        piece_start(lines, i - 1) + lines[i - 1].len() + 1
    }
}

proof fn lemma_piece_start_prefix(lines: Seq<Seq<char>>, i: int)
    requires
        0 <= i < lines.len(),
    ensures
        piece_start(lines.drop_last(), i) == piece_start(lines, i),
    decreases i,
{
    if i > 0 {
        lemma_piece_start_prefix(lines, i - 1);
        assert(lines.drop_last()[i - 1] == lines[i - 1]);
    }
}

proof fn lemma_piece_start_nonneg(lines: Seq<Seq<char>>, i: int)
    ensures
        piece_start(lines, i) >= 0,
    decreases i,
{
    if i > 0 {
        lemma_piece_start_nonneg(lines, i - 1);
    }
}

proof fn lemma_piece_start_grows(lines: Seq<Seq<char>>, i: int, k: int)
    requires
        0 <= i < k <= lines.len(),
    ensures
        piece_start(lines, i) + lines[i].len() + 1 <= piece_start(lines, k),
    decreases k,
{
    if k > i + 1 {
        lemma_piece_start_grows(lines, i, k - 1);
    }
}

/// Joined recognised text is every piece in order with exactly one newline
/// between each two: piece `i` is found whole at `piece_start(lines, i)`, a
/// newline follows every piece but the last, and nothing else is added.
pub proof fn law_pieces_are_joined_by_single_newlines(lines: Seq<Seq<char>>)
    ensures
        lines.len() == 0 ==> joined_lines(lines).len() == 0,
        lines.len() > 0 ==> joined_lines(lines).len() == piece_start(lines, lines.len() - 1)
            + lines.last().len(),
        forall|i: int, j: int|
            0 <= i < lines.len() && 0 <= j < lines[i].len() ==> joined_lines(lines)[piece_start(lines, i)
                + j] == #[trigger] lines[i][j],
        forall|i: int|
            0 <= i < lines.len() - 1 ==> joined_lines(lines)[#[trigger] piece_start(lines, i)
                + lines[i].len()] == '\n',
    decreases lines.len(),
{
    if lines.len() == 1 {
        assert(joined_lines(lines) == lines[0]);
        assert(piece_start(lines, 0) == 0);
    } else if lines.len() > 1 {
        let d = lines.drop_last();
        law_pieces_are_joined_by_single_newlines(d);
        let a = joined_lines(d);
        let last = lines.last();
        let all = joined_lines(lines);
        assert(all == a + seq!['\n'] + last);
        let n = lines.len() - 1;
        lemma_piece_start_prefix(lines, n - 1);
        assert(piece_start(lines, n) == piece_start(lines, n - 1) + lines[n - 1].len() + 1);
        assert(d.last() == lines[n - 1]);
        assert(a.len() == piece_start(lines, n - 1) + lines[n - 1].len());
        assert forall|i: int, j: int|
            0 <= i < lines.len() && 0 <= j < lines[i].len() implies all[piece_start(lines, i) + j]
            == #[trigger] lines[i][j] by {
            if i < n {
                lemma_piece_start_prefix(lines, i);
                assert(d[i] == lines[i]);
                assert(d[i][j] == lines[i][j]);
                if i < n - 1 {
                    lemma_piece_start_grows(d, i, n - 1);
                }
                let k = piece_start(lines, i) + j;
                lemma_piece_start_nonneg(lines, i);
                assert(k < a.len());
                let mid = a + seq!['\n'];
                assert(all == mid + last);
                assert(mid[k] == a[k]);
                assert(all[k] == mid[k]);
            } else {
                assert(lines[i] == last);
                let k = piece_start(lines, i) + j;
                assert(k == a.len() + 1 + j);
                assert(all[k] == last[j]);
            }
        }
        assert forall|i: int| 0 <= i < lines.len() - 1 implies all[#[trigger] piece_start(lines, i)
            + lines[i].len()] == '\n' by {
            lemma_piece_start_prefix(lines, i);
            assert(d[i] == lines[i]);
            let k = piece_start(lines, i) + lines[i].len();
            lemma_piece_start_nonneg(lines, i);
            if i < n - 1 {
                lemma_piece_start_grows(d, i, n - 1);
                assert(k < a.len());
                assert(a[piece_start(d, i) + d[i].len()] == '\n');
                let mid = a + seq!['\n'];
                assert(all == mid + last);
                assert(mid[k] == a[k]);
                assert(all[k] == mid[k]);
            } else {
                assert(k == a.len());
                assert(all[k] == '\n');
            }
        }
    }
}

/// Where an image typed into the input box is to come from.
#[derive(Debug, PartialEq, Eq)]
pub enum ImageInput {
    /// An empty box: take the image on the clipboard.
    Clipboard,
    /// An `http://` or `https://` address to download.
    Url(String),
    /// Anything else: a file, if it exists.
    Path(String),
}

pub open spec fn is_web_address(s: Seq<char>) -> bool {
    starts_with(s, "http://"@) || starts_with(s, "https://"@)
}

fn is_web_address_in(v: &Vec<char>) -> (r: bool)
    ensures
        r == is_web_address(v@),
{
    let http = chars_of("http://");
    let https = chars_of("https://");
    vec_starts_with(v, &http) || vec_starts_with(v, &https)
}

/// Classifies the trimmed contents of the input box in image mode.
pub fn classify_image_input(input: &str) -> (r: ImageInput)
    ensures
        match r {
            ImageInput::Clipboard => trim(input@).len() == 0,
            ImageInput::Url(u) => trim(input@).len() > 0 && is_web_address(trim(input@)) && u@ == trim(input@),
            ImageInput::Path(p) => trim(input@).len() > 0 && !is_web_address(trim(input@)) && p@ == trim(input@),
        },
{
    let chars = chars_of(input);
    let t = trimmed(&chars);
    if t.len() == 0 {
        ImageInput::Clipboard
    } else if is_web_address_in(&t) {
        ImageInput::Url(string_from_chars(&t))
    } else {
        ImageInput::Path(string_from_chars(&t))
    }
}

/// `path` without a leading `file://`.
pub open spec fn without_file_scheme(path: Seq<char>) -> Seq<char> {
    if starts_with(path, "file://"@) {
        path.skip(7)
    } else {
        path
    }
}

pub fn clean_image_path(path: &str) -> (r: String)
    ensures
        r@ == without_file_scheme(path@),
{
    let chars = chars_of(path);
    let scheme = chars_of("file://");
    proof {
        reveal_strlit("file://");
    }
    if vec_starts_with(&chars, &scheme) {
        let rest = sub_chars(&chars, 7, chars.len());
        string_from_chars(&rest)
    } else {
        string_from_chars(&chars)
    }
}

/// How to get at an image that pasted text refers to.
#[derive(Debug, PartialEq, Eq)]
pub enum FetchPlan {
    /// Read this local file.
    ReadFile(String),
    /// Download from this address.
    Download(String),
    /// Give up with this message.
    NotFound(String),
}

/// The plan for `source`, given whether its path, without `file://`, names
/// an existing file: a path is read when it exists, downloaded when it is a
/// web address, and reported missing otherwise; a URL is downloaded.
pub open spec fn fetch_plan(source: (int, Seq<char>), exists: bool) -> (int, Seq<char>) {
    if source.0 == 1 {
        (1, source.1)
    } else {
        let clean = without_file_scheme(source.1);
        if exists {
            (0, clean)
        } else if is_web_address(clean) {
            (1, clean)
        } else {
            (2, "Cannot find image: "@ + clean)
        }
    }
}

pub open spec fn plan_view(p: FetchPlan) -> (int, Seq<char>) {
    match p {
        FetchPlan::ReadFile(f) => (0, f@),
        FetchPlan::Download(u) => (1, u@),
        FetchPlan::NotFound(m) => (2, m@),
    }
}

/// Decides how to fetch the image that `source` refers to. `clean_exists`
/// tells whether `clean_image_path` of its text names an existing file.
pub fn plan_fetch(source: &ImageSource, clean_exists: bool) -> (r: FetchPlan)
    ensures
        plan_view(r) == fetch_plan(source_view(*source), clean_exists),
{
    match source {
        ImageSource::Url(u) => FetchPlan::Download(u.clone()),
        ImageSource::Path(p) | ImageSource::PathOrUrl(p) => {
            let clean = clean_image_path(p.as_str());
            if clean_exists {
                FetchPlan::ReadFile(clean)
            } else {
                let chars = chars_of(clean.as_str());
                if is_web_address_in(&chars) {
                    FetchPlan::Download(clean)
                } else {
                    FetchPlan::NotFound(concat("Cannot find image: ", clean.as_str()))
                }
            }
        },
    }
}

} // verus!
