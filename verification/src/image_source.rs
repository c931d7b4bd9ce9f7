//! Recognising image references in pasted text: a bare path, a URL, an
//! HTML `<img>` fragment or a Markdown image.
//!
//! The `<img` tag and its `src=` attribute are found ignoring the case of
//! their letters, by comparing the text itself character by character.
use vstd::prelude::*;
use crate::text::{
    chars_of, find_chars, find_first, is_space, lowercase, starts_with, string_from_chars,
    sub_chars, to_lowercase, trim, trimmed, vec_starts_with,
};

verus! {

broadcast use vstd::string::group_string_axioms;

/// An image reference recognised in pasted text.
#[derive(Debug, Clone, PartialEq, Eq)]
pub enum ImageSource {
    /// A local filesystem path, possibly `file://`-prefixed.
    Path(String),
    /// A remote URL.
    Url(String),
    /// Taken from markup, where the target may be either.
    PathOrUrl(String),
}

/// Which kind of reference, and its text.
pub open spec fn source_view(s: ImageSource) -> (int, Seq<char>) {
    match s {
        ImageSource::Path(p) => (0, p@),
        ImageSource::Url(u) => (1, u@),
        ImageSource::PathOrUrl(x) => (2, x@),
    }
}

/// Whether the character of `s` at `i + k` is the pattern's `k`-th, as
/// written in `lower` or as written in `upper`.
pub open spec fn same_letter(s: Seq<char>, lower: Seq<char>, upper: Seq<char>, i: int, k: int) -> bool {
    s[i + k] == lower[k] || s[i + k] == upper[k]
}

/// Whether `s` holds the pattern from index `i` on, each of its characters
/// written as in `lower` or as in `upper`.
pub open spec fn matches_at(s: Seq<char>, lower: Seq<char>, upper: Seq<char>, i: int) -> bool {
    &&& 0 <= i
    &&& i + lower.len() <= s.len()
    &&& forall|k: int| 0 <= k < lower.len() ==> #[trigger] same_letter(s, lower, upper, i, k)
}

/// The first index from which `s` holds the pattern, if any.
#[verifier::opaque]
pub open spec fn find_ignoring_case(s: Seq<char>, lower: Seq<char>, upper: Seq<char>) -> Option<int> {
    if exists|i: int| #[trigger] matches_at(s, lower, upper, i) {
        Some(
            choose|i: int|
                matches_at(s, lower, upper, i) && forall|j: int|
                    0 <= j < i ==> !matches_at(s, lower, upper, j),
        )
    } else {
        None
    }
}

pub open spec fn img_lower() -> Seq<char> {
    seq!['<', 'i', 'm', 'g']
}

pub open spec fn img_upper() -> Seq<char> {
    seq!['<', 'I', 'M', 'G']
}

pub open spec fn src_lower(quote: char) -> Seq<char> {
    seq!['s', 'r', 'c', '=', quote]
}

pub open spec fn src_upper(quote: char) -> Seq<char> {
    seq!['S', 'R', 'C', '=', quote]
}

/// The value that follows the first `src=` and the given quote in
/// `after_img`, up to the next such quote; `None` when there is no such
/// attribute or it is not closed.
pub open spec fn quoted_src(after_img: Seq<char>, quote: char) -> Option<Seq<char>> {
    match find_ignoring_case(after_img, src_lower(quote), src_upper(quote)) {
        None => None,
        Some(j) => {
            let after_src = after_img.skip(j + 5);
            match find_first(after_src, seq![quote]) {
                Some(e) => Some(after_src.take(e)),
                None => None,
            }
        },
    }
}

/// The `src` of the first `<img` tag of `text`, trying `src="` before
/// `src='`, ignoring the case of the letters of both.
pub open spec fn html_img_src(text: Seq<char>) -> Option<Seq<char>> {
    match find_ignoring_case(text, img_lower(), img_upper()) {
        None => None,
        Some(i) => {
            let after_img = text.skip(i);
            match quoted_src(after_img, '"') {
                Some(v) => Some(v),
                None => quoted_src(after_img, '\''),
            }
        },
    }
}

/// The target of a Markdown image `![alt](target)` that starts `text`.
pub open spec fn markdown_image(text: Seq<char>) -> Option<Seq<char>> {
    if starts_with(text, seq!['!', '[']) {
        match find_first(text, seq![']', '(']) {
            Some(start) => {
                let after = text.skip(start + 2);
                match find_first(after, seq![')']) {
                    Some(end) => Some(after.take(end)),
                    None => None,
                }
            },
            None => None,
        }
    } else {
        None
    }
}

/// The file extensions taken for images.
pub open spec fn image_extensions() -> Seq<Seq<char>> {
    seq![
        seq!['p', 'n', 'g'],
        seq!['j', 'p', 'g'],
        seq!['j', 'p', 'e', 'g'],
        seq!['g', 'i', 'f'],
        seq!['w', 'e', 'b', 'p'],
        seq!['b', 'm', 'p'],
        seq!['t', 'i', 'f', 'f'],
    ]
}

/// What follows the last `.` of `s`, or all of `s` when it has none.
pub open spec fn after_last_dot(s: Seq<char>) -> Seq<char>
    decreases s.len(),
{
    if s.len() == 0 {
        s
    } else if s.last() == '.' {
        Seq::empty()
    } else {
        after_last_dot(s.drop_last()).push(s.last())
    }
}

/// Whether the text after the last `.` of `s`, lowercased, is an image
/// extension.
pub open spec fn has_image_ext(s: Seq<char>) -> bool {
    image_extensions().contains(lowercase(after_last_dot(s)))
}

pub open spec fn starts_web(s: Seq<char>) -> bool {
    ||| starts_with(s, seq!['h', 't', 't', 'p', ':', '/', '/'])
    ||| starts_with(s, seq!['h', 't', 't', 'p', 's', ':', '/', '/'])
    ||| starts_with(s, file_scheme())
}

pub open spec fn file_scheme() -> Seq<char> {
    seq!['f', 'i', 'l', 'e', ':', '/', '/']
}

/// Whether `s` is a URL of an image file.
pub open spec fn image_url(s: Seq<char>) -> bool {
    starts_web(s) && s.contains('.') && has_image_ext(s)
}

pub open spec fn is_path_mark(c: char) -> bool {
    c == '/' || c == '\\' || c == '.'
}

/// Whether `s`, trimmed, looks like a path to an image file: it holds a
/// separator or a dot, and is a `file://` URL or ends in an image extension.
pub open spec fn image_path(s: Seq<char>) -> bool {
    let t = trim(s);
    &&& exists|i: int| 0 <= i < t.len() && is_path_mark(#[trigger] t[i])
    &&& (starts_with(t, file_scheme()) || has_image_ext(t))
}

/// How `extract_image_source` classifies `text`: which kind of reference,
/// and its text.
pub open spec fn image_source_of(text: Seq<char>) -> Option<(int, Seq<char>)> {
    let t = trim(text);
    match html_img_src(t) {
        Some(src) => Some((2, src)),
        None => match markdown_image(t) {
            Some(src) => Some((2, src)),
            None => if starts_with(t, file_scheme()) && image_path(t) {
                Some((0, t))
            } else if image_url(t) {
                Some((1, t))
            } else if image_path(t) {
                Some((0, t))
            } else {
                None
            },
        },
    }
}

proof fn lemma_find_ignoring_case_is(s: Seq<char>, lower: Seq<char>, upper: Seq<char>, i: int)
    requires
        matches_at(s, lower, upper, i),
        forall|j: int| 0 <= j < i ==> !matches_at(s, lower, upper, j),
    ensures
        find_ignoring_case(s, lower, upper) == Some(i),
{
    reveal(find_ignoring_case);
    let k = choose|k: int|
        matches_at(s, lower, upper, k) && forall|j: int| 0 <= j < k ==> !matches_at(s, lower, upper, j);
    assert(matches_at(s, lower, upper, k) && forall|j: int|
        0 <= j < k ==> !matches_at(s, lower, upper, j));
    if k < i {
        assert(!matches_at(s, lower, upper, k));
    }
    if i < k {
        assert(!matches_at(s, lower, upper, i));
    }
}

/// Whether `v` holds the pattern from index `i` on.
fn matches_in(v: &Vec<char>, lower: &Vec<char>, upper: &Vec<char>, i: usize) -> (r: bool)
    requires
        lower@.len() == upper@.len(),
        i + lower@.len() <= v@.len(),
    ensures
        r == matches_at(v@, lower@, upper@, i as int),
{
    let n = lower.len();
    let mut k: usize = 0;
    assert(v@.len() == v.len());
    while k < n
        invariant
            n == lower@.len() == upper@.len(),
            i + n <= v@.len() <= usize::MAX,
            k <= n,
            forall|m: int| 0 <= m < k ==> #[trigger] same_letter(v@, lower@, upper@, i as int, m),
        decreases n - k,
    {
        if v[i + k] != lower[k] && v[i + k] != upper[k] {
            assert(!same_letter(v@, lower@, upper@, i as int, k as int));
            return false;
        }
        assert(same_letter(v@, lower@, upper@, i as int, k as int));
        k = k + 1;
    }
    true
}

/// The first index from which `v` holds the pattern, ignoring case.
fn find_ignoring_case_in(v: &Vec<char>, lower: &Vec<char>, upper: &Vec<char>) -> (r: Option<usize>)
    requires
        lower@.len() == upper@.len(),
    ensures
        match r {
            Some(i) => find_ignoring_case(v@, lower@, upper@) == Some(i as int) && i + lower@.len()
                <= v@.len(),
            None => find_ignoring_case(v@, lower@, upper@) is None,
        },
{
    if lower.len() > v.len() {
        proof {
            reveal(find_ignoring_case);
            assert forall|i: int| !#[trigger] matches_at(v@, lower@, upper@, i) by {}
        }
        return None;
    }
    let last = v.len() - lower.len();
    let mut i: usize = 0;
    while i <= last
        invariant
            last == v@.len() - lower@.len(),
            lower@.len() == upper@.len(),
            i <= last + 1,
            forall|j: int| 0 <= j < i ==> !matches_at(v@, lower@, upper@, j),
        decreases last + 1 - i,
    {
        if matches_in(v, lower, upper, i) {
            proof {
                lemma_find_ignoring_case_is(v@, lower@, upper@, i as int);
            }
            return Some(i);
        }
        if i == last {
            proof {
                reveal(find_ignoring_case);
                assert forall|j: int| !#[trigger] matches_at(v@, lower@, upper@, j) by {
                    if 0 <= j && j <= i {
                    }
                }
            }
            return None;
        }
        i = i + 1;
    }
    proof {
        reveal(find_ignoring_case);
        assert forall|j: int| !#[trigger] matches_at(v@, lower@, upper@, j) by {}
    }
    None
}

fn chars4(a: char, b: char, c: char, d: char) -> (r: Vec<char>)
    ensures
        r@ == seq![a, b, c, d],
{
    let mut r: Vec<char> = Vec::new();
    r.push(a);
    r.push(b);
    r.push(c);
    r.push(d);
    assert(r@ == seq![a, b, c, d]);
    r
}

fn chars5(a: char, b: char, c: char, d: char, e: char) -> (r: Vec<char>)
    ensures
        r@ == seq![a, b, c, d, e],
{
    let mut r = chars4(a, b, c, d);
    r.push(e);
    assert(r@ == seq![a, b, c, d, e]);
    r
}

fn one_char(c: char) -> (r: Vec<char>)
    ensures
        r@ == seq![c],
{
    let mut r: Vec<char> = Vec::new();
    r.push(c);
    assert(r@ == seq![c]);
    r
}

fn quoted_src_in(after_img: &Vec<char>, quote: char) -> (r: Option<Vec<char>>)
    ensures
        match r {
            Some(v) => quoted_src(after_img@, quote) == Some(v@),
            None => quoted_src(after_img@, quote) is None,
        },
{
    let lower = chars5('s', 'r', 'c', '=', quote);
    let upper = chars5('S', 'R', 'C', '=', quote);
    assert(lower@.len() == 5);
    assert(after_img@.len() == after_img.len());
    match find_ignoring_case_in(after_img, &lower, &upper) {
        None => None,
        Some(j) => {
            let after_src = sub_chars(after_img, j + 5, after_img.len());
            assert(after_src@ == after_img@.skip(j + 5));
            let q = one_char(quote);
            match find_chars(&after_src, &q) {
                Some(e) => Some(sub_chars(&after_src, 0, e)),
                None => None,
            }
        },
    }
}

fn html_img_src_in(text: &Vec<char>) -> (r: Option<Vec<char>>)
    ensures
        match r {
            Some(v) => html_img_src(text@) == Some(v@),
            None => html_img_src(text@) is None,
        },
{
    let lower = chars4('<', 'i', 'm', 'g');
    let upper = chars4('<', 'I', 'M', 'G');
    match find_ignoring_case_in(text, &lower, &upper) {
        None => None,
        Some(i) => {
            let after_img = sub_chars(text, i, text.len());
            assert(after_img@ == text@.skip(i as int));
            match quoted_src_in(&after_img, '"') {
                Some(v) => Some(v),
                None => quoted_src_in(&after_img, '\''),
            }
        },
    }
}

/// The `src` of the first `<img>` tag in `text`, in either quote style.
/// Not an HTML parser: it takes the first `<img`, then the first `src="`
/// or `src='` after it, ignoring case.
pub fn extract_html_img_src(text: &str) -> (r: Option<String>)
    ensures
        match r {
            Some(v) => html_img_src(text@) == Some(v@),
            None => html_img_src(text@) is None,
        },
{
    let chars = chars_of(text);
    match html_img_src_in(&chars) {
        Some(v) => Some(string_from_chars(&v)),
        None => None,
    }
}

fn markdown_image_in(text: &Vec<char>) -> (r: Option<Vec<char>>)
    ensures
        match r {
            Some(v) => markdown_image(text@) == Some(v@),
            None => markdown_image(text@) is None,
        },
{
    let mut open: Vec<char> = Vec::new();
    open.push('!');
    open.push('[');
    assert(open@ == seq!['!', '[']);
    if !vec_starts_with(text, &open) {
        return None;
    }
    let mut mid: Vec<char> = Vec::new();
    mid.push(']');
    mid.push('(');
    assert(mid@ == seq![']', '(']);
    assert(mid@.len() == 2);
    let found = find_chars(text, &mid);
    match found {
        Some(start) => {
            let n = text.len();
            let after = sub_chars(text, start + 2, n);
            assert(after@ == text@.skip(start + 2));
            let close = one_char(')');
            match find_chars(&after, &close) {
                Some(end) => {
                    let v = sub_chars(&after, 0, end);
                    assert(v@ == after@.take(end as int));
                    Some(v)
                },
                None => None,
            }
        },
        None => None,
    }
}

/// The target of a Markdown image, `![alt](target)`, at the start of
/// `text`.
pub fn extract_markdown_image(text: &str) -> (r: Option<String>)
    ensures
        match r {
            Some(v) => markdown_image(text@) == Some(v@),
            None => markdown_image(text@) is None,
        },
{
    let chars = chars_of(text);
    match markdown_image_in(&chars) {
        Some(v) => Some(string_from_chars(&v)),
        None => None,
    }
}

proof fn lemma_after_last_dot(s: Seq<char>, k: int)
    requires
        0 <= k <= s.len(),
        k == 0 || s[k - 1] == '.',
        forall|i: int| k <= i < s.len() ==> s[i] != '.',
    ensures
        after_last_dot(s) == s.skip(k),
    decreases s.len(),
{
    if s.len() > k {
        lemma_after_last_dot(s.drop_last(), k);
        assert(s.drop_last().skip(k).push(s.last()) == s.skip(k));
    } else if k > 0 {
        assert(s.skip(k) == Seq::<char>::empty());
    } else {
        assert(s.len() == 0);
    }
}

fn is_extension(e: &Vec<char>) -> (r: bool)
    ensures
        r == image_extensions().contains(e@),
{
    let exts = image_extension_list();
    let n = exts.len();
    let mut i: usize = 0;
    while i < n
        invariant
            n == 7,
            exts@.len() == 7,
            i <= n,
            forall|k: int| 0 <= k < 7 ==> (#[trigger] exts@[k])@ == image_extensions()[k],
            forall|k: int| 0 <= k < i ==> image_extensions()[k] != e@,
        decreases n - i,
    {
        if crate::text::vec_starts_with(e, &exts[i]) && e.len() == exts[i].len() {
            assert(e@.take(exts@[i as int]@.len() as int) == e@);
            assert(image_extensions()[i as int] == e@);
            return true;
        }
        proof {
            if image_extensions()[i as int] == e@ {
                assert(e@.take(e@.len() as int) == e@);
            }
        }
        i = i + 1;
    }
    proof {
        if image_extensions().contains(e@) {
            let k = choose|k: int| 0 <= k < 7 && image_extensions()[k] == e@;
            assert(image_extensions()[k] != e@);
        }
    }
    false
}

fn image_extension_list() -> (r: Vec<Vec<char>>)
    ensures
        r@.len() == 7,
        forall|k: int| 0 <= k < 7 ==> (#[trigger] r@[k])@ == image_extensions()[k],
{
    let mut r: Vec<Vec<char>> = Vec::new();
    r.push(vec!['p', 'n', 'g']);
    r.push(vec!['j', 'p', 'g']);
    r.push(vec!['j', 'p', 'e', 'g']);
    r.push(vec!['g', 'i', 'f']);
    r.push(vec!['w', 'e', 'b', 'p']);
    r.push(vec!['b', 'm', 'p']);
    r.push(vec!['t', 'i', 'f', 'f']);
    r
}

/// Whether the text after the final `.` of `v`, lowercased, is an image
/// extension.
fn has_image_extension(v: &Vec<char>) -> (r: bool)
    ensures
        r == has_image_ext(v@),
{
    let n = v.len();
    let mut k = n;
    while k > 0 && v[k - 1] != '.'
        invariant
            k <= n == v@.len(),
            forall|i: int| k <= i < n ==> v@[i] != '.',
        decreases k,
    {
        k = k - 1;
    }
    proof {
        lemma_after_last_dot(v@, k as int);
    }
    let ext = sub_chars(v, k, n);
    let ext_text = string_from_chars(&ext);
    let lowered = to_lowercase(ext_text.as_str());
    let lowered_chars = chars_of(lowered.as_str());
    is_extension(&lowered_chars)
}

fn starts_web_in(v: &Vec<char>) -> (r: bool)
    ensures
        r == starts_web(v@),
{
    let http = vec!['h', 't', 't', 'p', ':', '/', '/'];
    let https = vec!['h', 't', 't', 'p', 's', ':', '/', '/'];
    let file = file_scheme_chars();
    vec_starts_with(v, &http) || vec_starts_with(v, &https) || vec_starts_with(v, &file)
}

fn file_scheme_chars() -> (r: Vec<char>)
    ensures
        r@ == file_scheme(),
{
    vec!['f', 'i', 'l', 'e', ':', '/', '/']
}

fn image_url_in(v: &Vec<char>) -> (r: bool)
    ensures
        r == image_url(v@),
{
    starts_web_in(v) && crate::text::contains_char(v, '.') && has_image_extension(v)
}

/// Whether `text` is a URL of an image file: `http://`, `https://` or
/// `file://`, with an image extension after its last dot.
pub fn is_image_url(text: &str) -> (r: bool)
    ensures
        r == image_url(text@),
{
    let chars = chars_of(text);
    image_url_in(&chars)
}

fn image_path_in(v: &Vec<char>) -> (r: bool)
    ensures
        r == image_path(v@),
{
    let t = trimmed(v);
    let mut found = false;
    let n = t.len();
    for i in 0..n
        invariant
            n == t@.len(),
            found <==> exists|k: int| 0 <= k < i && is_path_mark(#[trigger] t@[k]),
    {
        if t[i] == '/' || t[i] == '\\' || t[i] == '.' {
            found = true;
        }
    }
    if !found {
        return false;
    }
    let file = file_scheme_chars();
    if vec_starts_with(&t, &file) {
        return true;
    }
    has_image_extension(&t)
}

/// Whether `text`, trimmed, looks like a path to an image file.
pub fn is_image_path(text: &str) -> (r: bool)
    ensures
        r == image_path(text@),
{
    let chars = chars_of(text);
    image_path_in(&chars)
}

fn image_source_in(text: &Vec<char>) -> (r: Option<ImageSource>)
    ensures
        match r {
            Some(s) => image_source_of(text@) == Some(source_view(s)),
            None => image_source_of(text@) is None,
        },
{
    let t = trimmed(text);
    proof {
        crate::text::lemma_trim_end_is_prefix(crate::text::trim_start(text@));
    }
    if let Some(src) = html_img_src_in(&t) {
        return Some(ImageSource::PathOrUrl(string_from_chars(&src)));
    }
    if let Some(src) = markdown_image_in(&t) {
        return Some(ImageSource::PathOrUrl(string_from_chars(&src)));
    }
    let file = file_scheme_chars();
    assert(trim(t@) == t@) by {
        lemma_trim_idempotent(text@);
    }
    if vec_starts_with(&t, &file) && image_path_in(&t) {
        return Some(ImageSource::Path(string_from_chars(&t)));
    }
    if image_url_in(&t) {
        return Some(ImageSource::Url(string_from_chars(&t)));
    }
    if image_path_in(&t) {
        return Some(ImageSource::Path(string_from_chars(&t)));
    }
    None
}

proof fn lemma_trim_idempotent(s: Seq<char>)
    ensures
        trim(trim(s)) == trim(s),
{
    let a = crate::text::trim_start(s);
    crate::text::lemma_trim_start_is_suffix(s);
    crate::text::lemma_trim_end_is_prefix(a);
    let t = trim(s);
    crate::text::lemma_trim_start_is_suffix(t);
    crate::text::lemma_trim_end_is_prefix(t);
    if t.len() > 0 {
        assert(t[0] == a[0]);
        assert(crate::text::trim_start(t) == t);
        assert(!is_space(t.last()));
    } else {
        assert(crate::text::trim_start(t) == t);
    }
}

/// Classifies `text`, trimmed, as an image reference: the target of an
/// `<img>` tag or a Markdown image first, then a `file://` path, an image
/// URL, or a local path.
pub fn extract_image_source(text: &str) -> (r: Option<ImageSource>)
    ensures
        match r {
            Some(s) => image_source_of(text@) == Some(source_view(s)),
            None => image_source_of(text@) is None,
        },
{
    let chars = chars_of(text);
    image_source_in(&chars)
}

/// The target of an `<img>` tag wins over any other reading of the text,
/// and that of a Markdown image over all but an `<img>` tag.
pub proof fn law_markup_comes_first(text: Seq<char>)
    ensures
        html_img_src(trim(text)) matches Some(src) ==> image_source_of(text) == Some((2int, src)),
        html_img_src(trim(text)) is None ==> (markdown_image(trim(text)) matches Some(src)
            ==> image_source_of(text) == Some((2int, src))),
{
}

/// Surrounding whitespace does not change how text is classified, and a
/// path or URL is the text without it.
pub proof fn law_surrounding_whitespace_is_ignored(text: Seq<char>)
    ensures
        image_source_of(text) == image_source_of(trim(text)),
        image_source_of(text) matches Some(found) ==> (found.0 != 2 ==> found.1 == trim(text)),
{
    lemma_trim_idempotent(text);
}

/// A `file://` reference to an image is read from disk, never downloaded.
pub proof fn law_file_urls_are_paths(text: Seq<char>)
    requires
        html_img_src(trim(text)) is None,
        markdown_image(trim(text)) is None,
        starts_with(trim(text), file_scheme()),
        image_path(trim(text)),
    ensures
        image_source_of(text) == Some((0int, trim(text))),
{
}

} // verus!
