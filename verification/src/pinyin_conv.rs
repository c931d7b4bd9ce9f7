//! Lays a row of pinyin above a row of hanzi so that the two line up in a
//! fixed-width terminal.
//!
//! Text is cut into cells: a hanzi (with any punctuation that follows it) and
//! its toned reading, or a run of other characters that is shown as it is.
//! Widths are terminal columns, two for a wide character and one for any
//! other. Cells are packed into lines of at most 80 columns (a cell wider
//! than that gets a line of its own), and each line becomes two rows padded
//! cell by cell to a common width.
use vstd::prelude::*;
use pinyin::ToPinyin;
use crate::ui::{is_wide, is_wide_char};
use crate::text::{
    append_chars, chars_of, is_space, is_whitespace, spaces, string_from_chars, trim_end,
    trim_end_in_place,
};

verus! {

broadcast use vstd::string::group_string_axioms;

/// The widest a packed line may get, in estimated columns.
pub const MAX_LINE_WIDTH: u128 = 80;

/// A pinyin row and the hanzi row drawn under it.
pub struct PinyinLine {
    pub pinyin: String,
    pub hanzi: String,
}

impl View for PinyinLine {
    type V = (Seq<char>, Seq<char>);

    open spec fn view(&self) -> (Seq<char>, Seq<char>) {
        (self.pinyin@, self.hanzi@)
    }
}

/// The toned reading that the `pinyin` crate's table holds for `c`, if any.
pub uninterp spec fn toned_reading(c: char) -> Option<Seq<char>>;

/// Looks `c` up with `pinyin::ToPinyin::to_pinyin` and takes
/// `Pinyin::with_tone`. The reading is a fixed function of `c` that the
/// contract only names; it states nothing about the table's contents.
#[verifier::external_body]
fn pinyin_for_char(c: char) -> (r: Option<String>)
    ensures
        match r {
            Some(s) => toned_reading(c) == Some(s@),
            None => toned_reading(c) is None,
        },
{
    match c.to_pinyin() {
        Some(p) => Some(p.with_tone().to_string()),
        None => None,
    }
}

/// The reading shown above `c`: its toned pinyin, or nothing.
pub open spec fn reading_of(c: char) -> Seq<char> {
    match toned_reading(c) {
        Some(r) => r,
        None => seq![],
    }
}

/// CJK unified ideographs, extension A and the compatibility block.
pub open spec fn is_hanzi(c: char) -> bool {
    ||| ('\u{4e00}' <= c && c <= '\u{9fff}')
    ||| ('\u{3400}' <= c && c <= '\u{4dbf}')
    ||| ('\u{f900}' <= c && c <= '\u{faff}')
}

/// Chinese and Latin punctuation that sticks to the hanzi before it.
pub open spec fn is_punct(c: char) -> bool {
    ||| c == '，' || c == '。' || c == '！' || c == '？' || c == '、' || c == '：'
    ||| c == '；' || c == '"' || c == '\'' || c == '（' || c == '）' || c == '【'
    ||| c == '】' || c == '《' || c == '》' || c == '…' || c == '—' || c == '-'
    ||| c == ',' || c == '.' || c == '!' || c == '?' || c == ':' || c == ';'
    ||| c == '(' || c == ')' || c == '[' || c == ']' || c == '{' || c == '}'
}

pub fn is_chinese(c: char) -> (r: bool)
    ensures
        r == is_hanzi(c),
{
    ('\u{4e00}' <= c && c <= '\u{9fff}') || ('\u{3400}' <= c && c <= '\u{4dbf}') || ('\u{f900}'
        <= c && c <= '\u{faff}')
}

fn is_punctuation(c: char) -> (r: bool)
    ensures
        r == is_punct(c),
{
    c == '，' || c == '。' || c == '！' || c == '？' || c == '、' || c == '：' || c == '；'
        || c == '"' || c == '\'' || c == '（' || c == '）' || c == '【' || c == '】' || c
        == '《' || c == '》' || c == '…' || c == '—' || c == '-' || c == ',' || c == '.' || c
        == '!' || c == '?' || c == ':' || c == ';' || c == '(' || c == ')' || c == '[' || c
        == ']' || c == '{' || c == '}'
}

/// One column of the display.
pub enum Cell {
    /// A hanzi, the punctuation attached to it, and its reading.
    Hanzi { text: Seq<char>, reading: Seq<char> },
    /// A run of other characters, shown the same in both rows.
    Word { text: Seq<char> },
}

impl Cell {
    /// What the lower row shows.
    pub open spec fn text(self) -> Seq<char> {
        match self {
            Cell::Hanzi { text, .. } => text,
            Cell::Word { text } => text,
        }
    }

    /// What the upper row shows.
    pub open spec fn reading(self) -> Seq<char> {
        match self {
            Cell::Hanzi { reading, .. } => reading,
            Cell::Word { text } => text,
        }
    }
}

pub open spec fn max_nat(a: nat, b: nat) -> nat {
    if a >= b {
        a
    } else {
        b
    }
}

/// Terminal columns a character takes: two for a wide character, one for
/// any other.
pub open spec fn char_columns(c: char) -> nat {
    if is_wide(c) {
        2
    } else {
        1
    }
}

/// Terminal columns `s` takes when drawn.
pub open spec fn text_columns(s: Seq<char>) -> nat
    decreases s.len(),
{
    if s.len() == 0 {
        0
    } else {
        text_columns(s.drop_last()) + char_columns(s.last())
    }
}

/// Terminal columns the lower row of a cell takes.
pub open spec fn columns(c: Cell) -> nat {
    text_columns(c.text())
}

/// The common width both rows give a cell: the wider of what the two rows
/// draw, and at least one column.
pub open spec fn cell_width(c: Cell) -> nat {
    max_nat(max_nat(text_columns(c.reading()), columns(c)), 1)
}

/// Columns a cell is charged when lines are packed: its width and the
/// separator after it.
pub open spec fn estimate(c: Cell) -> nat {
    cell_width(c) + 1
}

/// A cell's part of the pinyin row.
pub open spec fn pinyin_segment(c: Cell) -> Seq<char> {
    c.reading() + spaces((cell_width(c) - text_columns(c.reading())) as nat)
}

/// A cell's part of the hanzi row.
pub open spec fn hanzi_segment(c: Cell) -> Seq<char> {
    c.text() + spaces((cell_width(c) - columns(c)) as nat)
}

pub open spec fn segment(c: Cell, upper: bool) -> Seq<char> {
    if upper {
        pinyin_segment(c)
    } else {
        hanzi_segment(c)
    }
}

/// The segments of `cells` joined by single spaces.
pub open spec fn join_segments(cells: Seq<Cell>, upper: bool) -> Seq<char>
    decreases cells.len(),
{
    if cells.len() == 0 {
        seq![]
    } else if cells.len() == 1 {
        segment(cells[0], upper)
    } else {
        join_segments(cells.drop_last(), upper) + seq![' '] + segment(cells.last(), upper)
    }
}

/// The two rows of one display line.
pub open spec fn line_rows(cells: Seq<Cell>) -> (Seq<char>, Seq<char>) {
    (trim_end(join_segments(cells, true)), trim_end(join_segments(cells, false)))
}

/// Where the cell scanner stands after a prefix of the input.
pub struct Scan {
    pub cells: Seq<Cell>,
    pub word: Seq<char>,
    pub after_hanzi: bool,
}

pub open spec fn scan_step(st: Scan, c: char) -> Scan {
    if is_space(c) {
        if st.word.len() > 0 {
            Scan { cells: st.cells.push(Cell::Word { text: st.word }), word: seq![], after_hanzi: false }
        } else {
            st
        }
    } else if is_hanzi(c) {
        let cells = if st.word.len() > 0 {
            st.cells.push(Cell::Word { text: st.word })
        } else {
            st.cells
        };
        Scan {
            cells: cells.push(Cell::Hanzi { text: seq![c], reading: reading_of(c) }),
            word: seq![],
            after_hanzi: true,
        }
    } else if is_punct(c) && st.after_hanzi {
        if st.cells.len() > 0 && st.cells.last() is Hanzi {
            let last = st.cells.last();
            Scan {
                cells: st.cells.update(
                    st.cells.len() - 1,
                    Cell::Hanzi { text: last.text().push(c), reading: last.reading() },
                ),
                ..st
            }
        } else {
            st
        }
    } else {
        Scan { word: st.word.push(c), after_hanzi: false, ..st }
    }
}

pub open spec fn scan(s: Seq<char>) -> Scan
    decreases s.len(),
{
    if s.len() == 0 {
        Scan { cells: seq![], word: seq![], after_hanzi: false }
    } else {
        scan_step(scan(s.drop_last()), s.last())
    }
}

/// The cells of one input line.
pub open spec fn cells_of(s: Seq<char>) -> Seq<Cell> {
    let st = scan(s);
    if st.word.len() > 0 {
        st.cells.push(Cell::Word { text: st.word })
    } else {
        st.cells
    }
}

/// Where line packing stands after a prefix of the cells.
pub struct Pack {
    pub lines: Seq<Seq<Cell>>,
    pub current: Seq<Cell>,
    pub width: nat,
}

pub open spec fn pack_step(st: Pack, c: Cell) -> Pack {
    if st.width + estimate(c) > 80 && st.current.len() > 0 {
        Pack { lines: st.lines.push(st.current), current: seq![c], width: estimate(c) }
    } else {
        Pack { lines: st.lines, current: st.current.push(c), width: st.width + estimate(c) }
    }
}

pub open spec fn pack(cells: Seq<Cell>) -> Pack
    decreases cells.len(),
{
    if cells.len() == 0 {
        Pack { lines: seq![], current: seq![], width: 0 }
    } else {
        pack_step(pack(cells.drop_last()), cells.last())
    }
}

/// The cells grouped into display lines.
pub open spec fn packed_lines(cells: Seq<Cell>) -> Seq<Seq<Cell>> {
    let st = pack(cells);
    if st.current.len() > 0 {
        st.lines.push(st.current)
    } else {
        st.lines
    }
}

/// The display lines of one input line.
pub open spec fn single_line_rows(line: Seq<char>) -> Seq<(Seq<char>, Seq<char>)> {
    packed_lines(cells_of(line)).map_values(|g: Seq<Cell>| line_rows(g))
}

/// `s` cut at each `'\n'`, as `str::split('\n')` cuts it.
pub open spec fn split_lines(s: Seq<char>) -> Seq<Seq<char>>
    decreases s.len(),
{
    if s.len() == 0 {
        seq![seq![]]
    } else {
        let prev = split_lines(s.drop_last());
        if s.last() == '\n' {
            prev.push(seq![])
        } else {
            prev.update(prev.len() - 1, prev.last().push(s.last()))
        }
    }
}

pub open spec fn concat_rows(parts: Seq<Seq<(Seq<char>, Seq<char>)>>) -> Seq<(Seq<char>, Seq<char>)>
    decreases parts.len(),
{
    if parts.len() == 0 {
        seq![]
    } else {
        concat_rows(parts.drop_last()) + parts.last()
    }
}

/// The display lines of a whole text.
pub open spec fn pinyin_rows(text: Seq<char>) -> Seq<(Seq<char>, Seq<char>)> {
    concat_rows(split_lines(text).map_values(|l: Seq<char>| single_line_rows(l)))
}

pub open spec fn rows_view(v: Seq<PinyinLine>) -> Seq<(Seq<char>, Seq<char>)> {
    v.map_values(|l: PinyinLine| l@)
}

pub proof fn lemma_split_lines_nonempty(s: Seq<char>)
    ensures
        split_lines(s).len() >= 1,
    decreases s.len(),
{
    if s.len() > 0 {
        lemma_split_lines_nonempty(s.drop_last());
    }
}

enum Token {
    Chinese { hanzi: Vec<char>, pinyin: Vec<char> },
    English(Vec<char>),
}

impl View for Token {
    type V = Cell;

    closed spec fn view(&self) -> Cell {
        match self {
            Token::Chinese { hanzi, pinyin } => Cell::Hanzi { text: hanzi@, reading: pinyin@ },
            Token::English(w) => Cell::Word { text: w@ },
        }
    }
}

spec fn cells_view(ts: Seq<Token>) -> Seq<Cell> {
    ts.map_values(|t: Token| t@)
}

/// Convert `text` into aligned pinyin and hanzi rows, one group per input
/// line, wrapping long lines.
pub fn convert_to_pinyin_lines(text: &str) -> (r: Vec<PinyinLine>)
    ensures
        rows_view(r@) == pinyin_rows(text@),
{
    let chars = chars_of(text);
    let n = chars.len();
    let mut all_lines: Vec<PinyinLine> = Vec::new();
    let mut current: Vec<char> = Vec::new();
    let ghost f = |l: Seq<char>| single_line_rows(l);
    assert(chars@.take(0) == Seq::<char>::empty());
    for i in 0..n
        invariant
            n == chars@.len(),
            chars@ == text@,
            split_lines(chars@.take(i as int)).last() == current@,
            split_lines(chars@.take(i as int)).len() >= 1,
            f == (|l: Seq<char>| single_line_rows(l)),
            rows_view(all_lines@) == concat_rows(
                split_lines(chars@.take(i as int)).drop_last().map_values(f),
            ),
    {
        let c = chars[i];
        let ghost prev = split_lines(chars@.take(i as int));
        assert(chars@.take(i + 1).drop_last() == chars@.take(i as int));
        if c == '\n' {
            let mut rows = convert_single_line(&current);
            let ghost before = all_lines@;
            let ghost added = rows@;
            all_lines.append(&mut rows);
            current = Vec::new();
            proof {
                let next = split_lines(chars@.take(i + 1));
                assert(next == prev.push(seq![]));
                assert(next.drop_last() == prev);
                let m = prev.map_values(f);
                assert(m == prev.drop_last().map_values(f).push(f(prev.last())));
                assert(m.drop_last() == prev.drop_last().map_values(f));
                assert(concat_rows(m) == concat_rows(m.drop_last()) + m.last());
                assert(all_lines@ == before + added);
                assert(rows_view(before + added) == rows_view(before) + rows_view(added));
            }
        } else {
            current.push(c);
            proof {
                let next = split_lines(chars@.take(i + 1));
                assert(next == prev.update(prev.len() - 1, prev.last().push(c)));
                assert(next.drop_last() == prev.drop_last());
            }
        }
    }
    assert(chars@.take(n as int) == chars@);
    let mut rows = convert_single_line(&current);
    let ghost before = all_lines@;
    let ghost added = rows@;
    all_lines.append(&mut rows);
    proof {
        let all = split_lines(chars@);
        let m = all.map_values(f);
        assert(m == all.drop_last().map_values(f).push(f(all.last())));
        assert(m.drop_last() == all.drop_last().map_values(f));
        assert(concat_rows(m) == concat_rows(m.drop_last()) + m.last());
        assert(all_lines@ == before + added);
        assert(rows_view(before + added) == rows_view(before) + rows_view(added));
    }
    all_lines
}

fn convert_single_line(text: &Vec<char>) -> (r: Vec<PinyinLine>)
    ensures
        rows_view(r@) == single_line_rows(text@),
{
    let tokens = tokenize(text);
    let ghost cells = cells_view(tokens@);
    let ghost g = |gr: Seq<Cell>| line_rows(gr);
    let mut lines: Vec<PinyinLine> = Vec::new();
    let mut start: usize = 0;
    let mut width: u128 = 0;
    let n = tokens.len();
    assert(cells.take(0) == Seq::<Cell>::empty());
    for k in 0..n
        invariant
            n == tokens@.len(),
            cells == cells_view(tokens@),
            cells.len() == n,
            g == (|gr: Seq<Cell>| line_rows(gr)),
            start <= k,
            pack(cells.take(k as int)).current == cells.subrange(start as int, k as int),
            pack(cells.take(k as int)).width == width,
            width <= 0x1_0000_0000_0000_0000_0000,
            rows_view(lines@) == pack(cells.take(k as int)).lines.map_values(g),
    {
        let token_width = get_token_display_width(&tokens[k]);
        let ghost prev = pack(cells.take(k as int));
        assert(cells.take(k + 1).drop_last() == cells.take(k as int));
        assert(cells.take(k + 1).last() == cells[k as int]);
        if width + token_width > MAX_LINE_WIDTH && start < k {
            let line = build_line(&tokens, start, k);
            let ghost before = lines@;
            lines.push(line);
            start = k;
            width = 0;
            proof {
                assert(rows_view(lines@) == rows_view(before).push(line@));
                assert(prev.lines.push(prev.current).map_values(g) == prev.lines.map_values(g).push(
                    g(prev.current),
                ));
            }
        }
        width = width + token_width;
        assert(cells.subrange(start as int, k + 1) == cells.subrange(start as int, k as int).push(
            cells[k as int],
        ));
    }
    assert(cells.take(n as int) == cells);
    if start < n {
        let line = build_line(&tokens, start, n);
        let ghost before = lines@;
        let ghost st = pack(cells);
        lines.push(line);
        proof {
            assert(rows_view(lines@) == rows_view(before).push(line@));
            assert(st.lines.push(st.current).map_values(g) == st.lines.map_values(g).push(
                g(st.current),
            ));
        }
    } else {
        assert(pack(cells).current.len() == 0);
    }
    lines
}

/// The toned reading of `c` as characters.
pub(crate) fn reading_chars(c: char) -> (r: Vec<char>)
    ensures
        r@ == reading_of(c),
{
    match pinyin_for_char(c) {
        Some(s) => chars_of(s.as_str()),
        None => Vec::new(),
    }
}

fn tokenize(text: &Vec<char>) -> (r: Vec<Token>)
    ensures
        cells_view(r@) == cells_of(text@),
{
    let mut tokens: Vec<Token> = Vec::new();
    let mut english_buffer: Vec<char> = Vec::new();
    let mut last_was_chinese = false;
    let n = text.len();
    assert(text@.take(0) == Seq::<char>::empty());
    assert(cells_view(tokens@) == Seq::<Cell>::empty());
    for i in 0..n
        invariant
            n == text@.len(),
            scan(text@.take(i as int)) == (Scan {
                cells: cells_view(tokens@),
                word: english_buffer@,
                after_hanzi: last_was_chinese,
            }),
    {
        let c = text[i];
        assert(text@.take(i + 1).drop_last() == text@.take(i as int));
        assert(text@.take(i + 1).last() == c);
        let ghost before = tokens@;
        if is_whitespace(c) {
            if english_buffer.len() > 0 {
                let word = english_buffer;
                english_buffer = Vec::new();
                tokens.push(Token::English(word));
                last_was_chinese = false;
                assert(cells_view(tokens@) == cells_view(before).push(tokens@.last()@));
            }
            assert(scan(text@.take(i + 1)) == (Scan { cells: cells_view(tokens@), word: english_buffer@, after_hanzi: last_was_chinese }));
        } else if is_chinese(c) {
            let ghost st = scan(text@.take(i as int));
            if english_buffer.len() > 0 {
                let word = english_buffer;
                english_buffer = Vec::new();
                tokens.push(Token::English(word));
                assert(cells_view(tokens@) == cells_view(before).push(tokens@.last()@));
                assert(cells_view(tokens@) == st.cells.push(Cell::Word { text: st.word }));
            }
            let ghost mid = tokens@;
            assert(cells_view(mid) == if st.word.len() > 0 {
                st.cells.push(Cell::Word { text: st.word })
            } else {
                st.cells
            });
            let pinyin = reading_chars(c);
            let mut hanzi: Vec<char> = Vec::new();
            hanzi.push(c);
            assert(hanzi@ == seq![c]);
            tokens.push(Token::Chinese { hanzi, pinyin });
            last_was_chinese = true;
            assert(cells_view(tokens@) == cells_view(mid).push(tokens@.last()@));
            assert(tokens@.last()@ == Cell::Hanzi { text: seq![c], reading: reading_of(c) });
            assert(english_buffer@ == Seq::<char>::empty());
            assert(scan(text@.take(i + 1)) == (Scan { cells: cells_view(tokens@), word: english_buffer@, after_hanzi: last_was_chinese }));
        } else if is_punctuation(c) && last_was_chinese {
            if tokens.len() > 0 {
                let last = tokens.pop().unwrap();
                assert(before == tokens@.push(last));
                match last {
                    Token::Chinese { hanzi, pinyin } => {
                        let mut hanzi = hanzi;
                        let ghost old_text = hanzi@;
                        hanzi.push(c);
                        assert(hanzi@ == old_text.push(c));
                        tokens.push(Token::Chinese { hanzi, pinyin });
                        assert(cells_view(before).last() == Cell::Hanzi {
                            text: old_text,
                            reading: pinyin@,
                        });
                        assert(tokens@.last()@ == Cell::Hanzi { text: old_text.push(c), reading: pinyin@ });
                        assert(cells_view(tokens@) == cells_view(before).update(
                            before.len() - 1,
                            tokens@.last()@,
                        ));
                    },
                    Token::English(w) => {
                        tokens.push(Token::English(w));
                        assert(tokens@ == before);
                    },
                }
            }
        } else {
            english_buffer.push(c);
            last_was_chinese = false;
            assert(scan(text@.take(i + 1)) == (Scan { cells: cells_view(tokens@), word: english_buffer@, after_hanzi: last_was_chinese }));
        }
    }
    assert(text@.take(n as int) == text@);
    if english_buffer.len() > 0 {
        let ghost before = tokens@;
        tokens.push(Token::English(english_buffer));
        assert(cells_view(tokens@) == cells_view(before).push(tokens@.last()@));
    }
    tokens
}

/// Terminal columns `s` takes.
fn text_width(s: &Vec<char>) -> (r: u128)
    ensures
        r == text_columns(s@),
        r <= 2 * s@.len(),
        r < 0x4_0000_0000_0000_0000,
{
    let mut total: u128 = 0;
    let n = s.len();
    assert(s@.take(0) == Seq::<char>::empty());
    for i in 0..n
        invariant
            n == s@.len(),
            total == text_columns(s@.take(i as int)),
            total <= 2 * i,
    {
        assert(s@.take(i + 1).drop_last() == s@.take(i as int));
        if is_wide_char(s[i]) {
            total = total + 2;
        } else {
            total = total + 1;
        }
    }
    assert(s@.take(n as int) == s@);
    assert(n <= usize::MAX);
    total
}

/// Columns the two rows of a token draw, and the width of its cell.
fn token_columns(token: &Token) -> (r: (u128, u128, u128))
    ensures
        r.0 == text_columns(token@.reading()),
        r.1 == columns(token@),
        r.2 == cell_width(token@),
        r.2 < 0x1_0000_0000_0000_0000_0000,
{
    let (reading_cols, display) = match token {
        Token::Chinese { hanzi, pinyin } => (text_width(pinyin), text_width(hanzi)),
        Token::English(word) => {
            let w = text_width(word);
            (w, w)
        },
    };
    let mut width = if reading_cols >= display {
        reading_cols
    } else {
        display
    };
    if width < 1 {
        width = 1;
    }
    (reading_cols, display, width)
}

/// Columns a token is charged when lines are packed.
fn get_token_display_width(token: &Token) -> (r: u128)
    ensures
        r == estimate(token@),
        r <= 0x1_0000_0000_0000_0000_0000,
{
    let (_, _, width) = token_columns(token);
    width + 1
}

/// Appends `n` spaces to `row`.
fn push_spaces(row: &mut Vec<char>, n: u128)
    ensures
        final(row)@ == old(row)@ + spaces(n as nat),
{
    let mut k: u128 = 0;
    while k < n
        invariant
            k <= n,
            row@ == old(row)@ + spaces(k as nat),
        decreases n - k,
    {
        row.push(' ');
        assert(old(row)@ + spaces((k + 1) as nat) == (old(row)@ + spaces(k as nat)).push(' '));
        k = k + 1;
    }
}

fn build_line(tokens: &Vec<Token>, start: usize, end: usize) -> (r: PinyinLine)
    requires
        start < end <= tokens@.len(),
    ensures
        r@ == line_rows(cells_view(tokens@).subrange(start as int, end as int)),
{
    let ghost cells = cells_view(tokens@);
    let mut aligned_pinyin: Vec<char> = Vec::new();
    let mut aligned_hanzi: Vec<char> = Vec::new();
    let mut i = start;
    while i < end
        invariant
            start <= i <= end <= tokens@.len(),
            cells == cells_view(tokens@),
            aligned_pinyin@ == join_segments(cells.subrange(start as int, i as int), true),
            aligned_hanzi@ == join_segments(cells.subrange(start as int, i as int), false),
        decreases end - i,
    {
        let token = &tokens[i];
        let ghost part = cells.subrange(start as int, i + 1);
        assert(part.drop_last() == cells.subrange(start as int, i as int));
        assert(part.last() == token@);
        if i > start {
            aligned_pinyin.push(' ');
            aligned_hanzi.push(' ');
        }
        let (reading_cols, display, width) = token_columns(token);
        let (reading, shown) = match token {
            Token::Chinese { hanzi, pinyin } => (pinyin, hanzi),
            Token::English(word) => (word, word),
        };
        assert(reading@ == token@.reading());
        assert(shown@ == token@.text());
        append_chars(&mut aligned_pinyin, reading);
        push_spaces(&mut aligned_pinyin, width - reading_cols);
        append_chars(&mut aligned_hanzi, shown);
        let visual_padding = if display < width {
            width - display
        } else {
            0
        };
        push_spaces(&mut aligned_hanzi, visual_padding);
        proof {
            if i == start {
                assert(part.len() == 1);
                assert(part[0] == token@);
            }
        }
        i = i + 1;
    }
    trim_end_in_place(&mut aligned_pinyin);
    trim_end_in_place(&mut aligned_hanzi);
    PinyinLine { pinyin: string_from_chars(&aligned_pinyin), hanzi: string_from_chars(&aligned_hanzi) }
}

} // verus!
