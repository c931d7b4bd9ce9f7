//! What the pinyin display promises: the two rows of a line start their
//! columns at the same terminal offsets, packed lines stay within the width
//! budget, and no visible character of the input is lost.
use vstd::prelude::*;
use crate::text::{chars_of, is_space, is_whitespace, spaces, trim_end, lemma_trim_end_is_prefix};
use crate::pinyin_conv::{
    Cell, cell_width, cells_of, char_columns, columns, concat_rows, estimate, hanzi_segment,
    is_hanzi, is_punct, join_segments, line_rows, pack, packed_lines, pinyin_rows, reading_of,
    scan, scan_step, segment, single_line_rows, split_lines, text_columns, PinyinLine,
    convert_to_pinyin_lines, is_chinese, reading_chars, rows_view,
};

verus! {

/// Terminal columns `s` takes when each character `c` takes `w(c)`.
pub open spec fn width_of(s: Seq<char>, w: spec_fn(char) -> nat) -> nat
    decreases s.len(),
{
    if s.len() == 0 {
        0
    } else {
        w(s[0]) + width_of(s.skip(1), w)
    }
}

/// The terminal offsets at which the space-separated groups of `s` start,
/// when `s` is drawn from column `col`, `inside` telling whether a group is
/// already running.
pub open spec fn group_starts_from(s: Seq<char>, w: spec_fn(char) -> nat, col: int, inside: bool) -> Seq<int>
    decreases s.len(),
{
    if s.len() == 0 {
        seq![]
    } else if s[0] == ' ' {
        group_starts_from(s.skip(1), w, col + w(' '), false)
    } else if inside {
        group_starts_from(s.skip(1), w, col + w(s[0]), true)
    } else {
        seq![col] + group_starts_from(s.skip(1), w, col + w(s[0]), true)
    }
}

/// The terminal offsets at which the groups of `s` start.
pub open spec fn group_starts(s: Seq<char>, w: spec_fn(char) -> nat) -> Seq<int> {
    group_starts_from(s, w, 0, false)
}

/// How the terminal measures a character.
pub open spec fn terminal() -> spec_fn(char) -> nat {
    |c: char| char_columns(c)
}

/// The terminal offsets at which the columns of row `s` start.
pub open spec fn column_starts(s: Seq<char>) -> Seq<int> {
    group_starts(s, terminal())
}

/// What one row of a cell shows before padding: the reading in the upper
/// row, the text in the lower one.
pub open spec fn body(c: Cell, upper: bool) -> Seq<char> {
    if upper {
        c.reading()
    } else {
        c.text()
    }
}

/// A cell that shows something in the given row, with no whitespace in it.
pub open spec fn body_ok(c: Cell, upper: bool) -> bool {
    body(c, upper).len() > 0 && no_space(body(c, upper))
}

/// `c` has a reading to show, with no whitespace in it.
pub open spec fn has_reading(c: char) -> bool {
    reading_of(c).len() > 0 && no_space(reading_of(c))
}

/// Every hanzi of `s` has a reading to show.
pub open spec fn all_read(s: Seq<char>) -> bool {
    forall|k: int| 0 <= k < s.len() && is_hanzi(s[k]) ==> has_reading(#[trigger] s[k])
}

/// A display line keeps within the 80-column budget in both rows, or is a
/// single column that is wider on its own.
pub open spec fn fits_budget(row: (Seq<char>, Seq<char>)) -> bool {
    ||| text_columns(row.0) <= 80 && text_columns(row.1) <= 80
    ||| column_starts(row.1).len() == 1
}

/// The two rows of a display line start every column at the same offset.
pub open spec fn aligned(row: (Seq<char>, Seq<char>)) -> bool {
    column_starts(row.0) == column_starts(row.1)
}

/// The offsets at which the columns of a line of `cells` should start.
pub open spec fn expected_starts(cells: Seq<Cell>) -> Seq<int>
    decreases cells.len(),
{
    if cells.len() == 0 {
        seq![]
    } else if cells.len() == 1 {
        seq![0]
    } else {
        expected_starts(cells.drop_last()).push(span(cells.drop_last()) + 1int)
    }
}

/// The columns a line of `cells` takes before trimming.
pub open spec fn span(cells: Seq<Cell>) -> nat
    decreases cells.len(),
{
    if cells.len() == 0 {
        0
    } else if cells.len() == 1 {
        cell_width(cells[0])
    } else {
        span(cells.drop_last()) + 1 + cell_width(cells.last())
    }
}

proof fn lemma_width_concat(a: Seq<char>, b: Seq<char>, w: spec_fn(char) -> nat)
    ensures
        width_of(a + b, w) == width_of(a, w) + width_of(b, w),
    decreases a.len(),
{
    if a.len() == 0 {
        assert(a + b == b);
    } else {
        lemma_width_concat(a.skip(1), b, w);
        assert((a + b).skip(1) == a.skip(1) + b);
    }
}

proof fn lemma_terminal_width(s: Seq<char>)
    ensures
        width_of(s, terminal()) == text_columns(s),
    decreases s.len(),
{
    if s.len() > 0 {
        let d = s.drop_last();
        let one = seq![s.last()];
        lemma_terminal_width(d);
        lemma_width_concat(d, one, terminal());
        assert(d + one == s);
        assert(one.skip(1) == Seq::<char>::empty());
        assert(width_of(one.skip(1), terminal()) == 0);
        assert(one[0] == s.last());
        assert(terminal()(s.last()) == char_columns(s.last()));
    }
}

proof fn lemma_width_spaces(n: nat, w: spec_fn(char) -> nat)
    requires
        w(' ') == 1,
    ensures
        width_of(spaces(n), w) == n,
    decreases n,
{
    if n > 0 {
        lemma_width_spaces((n - 1) as nat, w);
        assert(spaces(n).skip(1) == spaces((n - 1) as nat));
    }
}

/// The group state after drawing `a` from state `inside`.
pub open spec fn inside_after(a: Seq<char>, inside: bool) -> bool {
    if a.len() == 0 {
        inside
    } else {
        a.last() != ' '
    }
}

proof fn lemma_starts_concat(a: Seq<char>, b: Seq<char>, w: spec_fn(char) -> nat, col: int, inside: bool)
    ensures
        group_starts_from(a + b, w, col, inside) == group_starts_from(a, w, col, inside)
            + group_starts_from(b, w, col + width_of(a, w), inside_after(a, inside)),
    decreases a.len(),
{
    if a.len() == 0 {
        assert(a + b == b);
    } else {
        assert((a + b).skip(1) == a.skip(1) + b);
        assert((a + b)[0] == a[0]);
        let next_inside = a[0] != ' ';
        let next_col = if a[0] == ' ' {
            col + w(' ')
        } else {
            col + w(a[0])
        };
        lemma_starts_concat(a.skip(1), b, w, next_col, next_inside);
        if a.len() == 1 {
            assert(a.skip(1).len() == 0);
        } else {
            assert(a.skip(1).last() == a.last());
        }
    }
}

proof fn lemma_single_space(w: spec_fn(char) -> nat, col: int, inside: bool)
    requires
        w(' ') == 1,
    ensures
        group_starts_from(seq![' '], w, col, inside) == Seq::<int>::empty(),
        width_of(seq![' '], w) == 1,
        inside_after(seq![' '], inside) == false,
{
    let s = seq![' '];
    assert(s[0] == ' ');
    assert(s.skip(1) == Seq::<char>::empty());
    assert(group_starts_from(Seq::<char>::empty(), w, col + w(' '), false) == Seq::<int>::empty());
    assert(width_of(Seq::<char>::empty(), w) == 0);
}

proof fn lemma_starts_of_spaces(n: nat, w: spec_fn(char) -> nat, col: int, inside: bool)
    ensures
        group_starts_from(spaces(n), w, col, inside) == Seq::<int>::empty(),
    decreases n,
{
    if n > 0 {
        assert(spaces(n).skip(1) == spaces((n - 1) as nat));
        lemma_starts_of_spaces((n - 1) as nat, w, col + w(' '), false);
    }
}

proof fn lemma_starts_of_body(s: Seq<char>, w: spec_fn(char) -> nat, col: int, inside: bool)
    requires
        forall|i: int| 0 <= i < s.len() ==> !is_space(#[trigger] s[i]),
    ensures
        group_starts_from(s, w, col, inside) == if s.len() == 0 || inside {
            Seq::<int>::empty()
        } else {
            seq![col]
        },
    decreases s.len(),
{
    if s.len() > 0 {
        assert(!is_space(s[0]));
        assert forall|i: int| 0 <= i < s.skip(1).len() implies !is_space(#[trigger] s.skip(1)[i]) by {
            assert(s.skip(1)[i] == s[i + 1]);
        }
        lemma_starts_of_body(s.skip(1), w, col + w(s[0]), true);
    }
}

/// A segment is its body padded to the cell's width.
proof fn lemma_segment_width(c: Cell, upper: bool)
    ensures
        segment(c, upper) == body(c, upper) + spaces(
            (cell_width(c) - text_columns(body(c, upper))) as nat,
        ),
        text_columns(body(c, upper)) <= cell_width(c),
        width_of(segment(c, upper), terminal()) == cell_width(c),
{
    let b = body(c, upper);
    let pad: nat = (cell_width(c) - text_columns(b)) as nat;
    assert(segment(c, upper) == b + spaces(pad));
    lemma_width_concat(b, spaces(pad), terminal());
    lemma_terminal_width(b);
    lemma_width_spaces(pad, terminal());
}

/// A segment whose body shows something starts exactly one group, at its
/// first column, and holds no whitespace but spaces.
proof fn lemma_segment(c: Cell, upper: bool, col: int)
    requires
        body_ok(c, upper),
    ensures
        group_starts_from(segment(c, upper), terminal(), col, false) == seq![col],
        width_of(segment(c, upper), terminal()) == cell_width(c),
        forall|i: int|
            0 <= i < segment(c, upper).len() && is_space(#[trigger] segment(c, upper)[i]) ==> segment(
                c,
                upper,
            )[i] == ' ',
{
    let w = terminal();
    let b = body(c, upper);
    let pad: nat = (cell_width(c) - text_columns(b)) as nat;
    lemma_segment_width(c, upper);
    lemma_starts_concat(b, spaces(pad), w, col, false);
    lemma_starts_of_body(b, w, col, false);
    lemma_starts_of_spaces(pad, w, col + width_of(b, w), inside_after(b, false));
    assert(seq![col] + Seq::<int>::empty() == seq![col]);
    assert forall|i: int|
        0 <= i < segment(c, upper).len() && is_space(#[trigger] segment(c, upper)[i]) implies segment(
        c,
        upper,
    )[i] == ' ' by {
        if i >= b.len() {
            assert(segment(c, upper)[i] == spaces(pad)[i - b.len()]);
        } else {
            assert(segment(c, upper)[i] == b[i]);
        }
    }
}

/// Either row of a line takes `span` columns.
proof fn lemma_join_width(cells: Seq<Cell>, upper: bool)
    ensures
        width_of(join_segments(cells, upper), terminal()) == span(cells),
    decreases cells.len(),
{
    if cells.len() == 1 {
        lemma_segment_width(cells[0], upper);
    } else if cells.len() > 1 {
        let d = cells.drop_last();
        lemma_join_width(d, upper);
        let a = join_segments(d, upper);
        let seg = segment(cells.last(), upper);
        lemma_segment_width(cells.last(), upper);
        assert(join_segments(cells, upper) == a + (seq![' '] + seg));
        lemma_width_concat(a, seq![' '] + seg, terminal());
        lemma_width_concat(seq![' '], seg, terminal());
        lemma_single_space(terminal(), 0, false);
    }
}

/// A row in which every cell shows something starts its groups where
/// `expected_starts` says, and holds no whitespace but spaces.
proof fn lemma_join(cells: Seq<Cell>, upper: bool)
    requires
        forall|i: int| 0 <= i < cells.len() ==> body_ok(#[trigger] cells[i], upper),
    ensures
        column_starts(join_segments(cells, upper)) == expected_starts(cells),
        forall|i: int|
            0 <= i < join_segments(cells, upper).len() && is_space(
                #[trigger] join_segments(cells, upper)[i],
            ) ==> join_segments(cells, upper)[i] == ' ',
    decreases cells.len(),
{
    let w = terminal();
    if cells.len() == 1 {
        assert(body_ok(cells[0], upper));
        lemma_segment(cells[0], upper, 0);
    } else if cells.len() > 1 {
        let d = cells.drop_last();
        assert forall|i: int| 0 <= i < d.len() implies body_ok(#[trigger] d[i], upper) by {
            assert(d[i] == cells[i]);
        }
        lemma_join(d, upper);
        lemma_join_width(d, upper);
        let last = cells.last();
        assert(body_ok(last, upper));
        let a = join_segments(d, upper);
        let seg = segment(last, upper);
        let tail = seq![' '] + seg;
        assert(join_segments(cells, upper) == a + tail);
        lemma_starts_concat(a, tail, w, 0, false);
        lemma_starts_concat(seq![' '], seg, w, width_of(a, w) as int, inside_after(a, false));
        lemma_single_space(w, width_of(a, w) as int, inside_after(a, false));
        lemma_segment(last, upper, width_of(a, w) + 1int);
        assert(Seq::<int>::empty() + seq![width_of(a, w) + 1int] == seq![width_of(a, w) + 1int]);
        assert forall|i: int|
            0 <= i < join_segments(cells, upper).len() && is_space(
                #[trigger] join_segments(cells, upper)[i],
            ) implies join_segments(cells, upper)[i] == ' ' by {
            if i < a.len() {
                assert(join_segments(cells, upper)[i] == a[i]);
            } else if i > a.len() {
                assert(join_segments(cells, upper)[i] == seg[i - a.len() - 1]);
            }
        }
    }
}

/// Trimming trailing whitespace takes no columns away from the front.
proof fn lemma_trim_width(s: Seq<char>)
    ensures
        text_columns(trim_end(s)) <= text_columns(s),
{
    lemma_trim_end_is_prefix(s);
    let t = trim_end(s);
    let tail = s.skip(t.len() as int);
    assert(s == t + tail);
    lemma_width_concat(t, tail, terminal());
    lemma_terminal_width(s);
    lemma_terminal_width(t);
}

/// Trimming trailing spaces leaves the group starts alone.
proof fn lemma_trim_keeps_starts(s: Seq<char>)
    requires
        forall|i: int| 0 <= i < s.len() && is_space(#[trigger] s[i]) ==> s[i] == ' ',
    ensures
        column_starts(trim_end(s)) == column_starts(s),
{
    let w = terminal();
    lemma_trim_end_is_prefix(s);
    let m = trim_end(s).len() as int;
    let t = trim_end(s);
    let tail = s.skip(m);
    assert(s == t + tail);
    assert(tail == spaces(tail.len())) by {
        assert forall|i: int| 0 <= i < tail.len() implies tail[i] == spaces(tail.len())[i] by {
            assert(tail[i] == s[i + m]);
            assert(is_space(s[i + m]));
        }
    }
    lemma_starts_concat(t, tail, w, 0, false);
    lemma_starts_of_spaces(tail.len(), w, width_of(t, w) as int, inside_after(t, false));
    assert(group_starts(t, w) + Seq::<int>::empty() == group_starts(t, w));
}

/// The two rows of a line of cells that show something in both rows start
/// every column at the same offset.
proof fn lemma_cells_align(cells: Seq<Cell>)
    requires
        forall|i: int|
            0 <= i < cells.len() ==> body_ok(#[trigger] cells[i], true) && body_ok(cells[i], false),
    ensures
        aligned(line_rows(cells)),
{
    assert forall|i: int| 0 <= i < cells.len() implies body_ok(#[trigger] cells[i], true) by {
        assert(body_ok(cells[i], true) && body_ok(cells[i], false));
    }
    assert forall|i: int| 0 <= i < cells.len() implies body_ok(#[trigger] cells[i], false) by {
        assert(body_ok(cells[i], true) && body_ok(cells[i], false));
    }
    lemma_join(cells, true);
    lemma_join(cells, false);
    lemma_trim_keeps_starts(join_segments(cells, true));
    lemma_trim_keeps_starts(join_segments(cells, false));
}

/// The columns a sequence of cells is charged when packed.
pub open spec fn charged(cells: Seq<Cell>) -> nat
    decreases cells.len(),
{
    if cells.len() == 0 {
        0
    } else {
        charged(cells.drop_last()) + estimate(cells.last())
    }
}

proof fn lemma_charged_push(a: Seq<Cell>, c: Cell)
    ensures
        charged(a.push(c)) == charged(a) + estimate(c),
{
    assert(a.push(c).drop_last() == a);
}

/// While packing, the open line is charged its running width, and every
/// closed line of several cells fits in the budget.
proof fn lemma_pack(cells: Seq<Cell>)
    ensures
        pack(cells).width == charged(pack(cells).current),
        pack(cells).current.len() > 1 ==> pack(cells).width <= 80,
        forall|j: int|
            0 <= j < pack(cells).lines.len() ==> (#[trigger] pack(cells).lines[j]).len() > 0 && (
            pack(cells).lines[j].len() > 1 ==> charged(pack(cells).lines[j]) <= 80),
    decreases cells.len(),
{
    if cells.len() > 0 {
        let d = cells.drop_last();
        lemma_pack(d);
        let st = pack(d);
        let c = cells.last();
        if st.width + estimate(c) > 80 && st.current.len() > 0 {
            lemma_charged_push(Seq::<Cell>::empty(), c);
            assert(seq![c] == Seq::<Cell>::empty().push(c));
        } else {
            lemma_charged_push(st.current, c);
            if st.current.len() == 0 {
                assert(st.current.push(c).len() == 1);
            }
        }
    }
}

/// Every packed line holds a cell, and one of several cells is charged at
/// most the budget.
proof fn lemma_packed_lines_charged(cells: Seq<Cell>)
    ensures
        forall|j: int|
            0 <= j < packed_lines(cells).len() ==> (#[trigger] packed_lines(cells)[j]).len() > 0 && (
            packed_lines(cells)[j].len() > 1 ==> charged(packed_lines(cells)[j]) <= 80),
{
    lemma_pack(cells);
    let st = pack(cells);
    let lines = packed_lines(cells);
    assert forall|j: int| 0 <= j < lines.len() implies (#[trigger] lines[j]).len() > 0 && (
    lines[j].len() > 1 ==> charged(lines[j]) <= 80) by {
        if j < st.lines.len() {
            assert(lines[j] == st.lines[j]);
        }
    }
}

/// A line is charged one column more than it takes.
proof fn lemma_span_charged(cells: Seq<Cell>)
    requires
        cells.len() > 0,
    ensures
        span(cells) + 1 == charged(cells),
    decreases cells.len(),
{
    let d = cells.drop_last();
    if cells.len() == 1 {
        assert(d.len() == 0);
        assert(charged(d) == 0);
        assert(cells[0] == cells.last());
        assert(charged(cells) == charged(d) + estimate(cells.last()));
    } else {
        lemma_span_charged(d);
        assert(charged(cells) == charged(d) + estimate(cells.last()));
        assert(span(cells) == span(d) + 1 + cell_width(cells.last()));
    }
}

/// A packed line keeps within the budget, or is a single column.
proof fn lemma_group_fits(g: Seq<Cell>)
    requires
        g.len() > 0,
        g.len() > 1 ==> charged(g) <= 80,
        forall|i: int| 0 <= i < g.len() ==> body_ok(#[trigger] g[i], false),
    ensures
        fits_budget(line_rows(g)),
{
    if g.len() > 1 {
        lemma_span_charged(g);
        lemma_join_width(g, true);
        lemma_join_width(g, false);
        lemma_terminal_width(join_segments(g, true));
        lemma_terminal_width(join_segments(g, false));
        lemma_trim_width(join_segments(g, true));
        lemma_trim_width(join_segments(g, false));
    } else {
        lemma_join(g, false);
        lemma_trim_keeps_starts(join_segments(g, false));
        assert(expected_starts(g) == seq![0int]);
    }
}

/// Packing only regroups cells: every cell of a packed line is one of the
/// input cells.
pub proof fn lemma_member_of_packed(cells: Seq<Cell>, j: int, i: int)
    requires
        0 <= j < packed_lines(cells).len(),
        0 <= i < packed_lines(cells)[j].len(),
    ensures
        exists|k: int| 0 <= k < cells.len() && cells[k] == packed_lines(cells)[j][i],
{
    lemma_pack_flattens(cells);
    let lines = packed_lines(cells);
    let before = flatten_cells(lines.take(j));
    assert(lines.take(j + 1) == lines.take(j).push(lines[j]));
    assert(lines.take(j + 1).drop_last() == lines.take(j));
    assert(lines.take(j + 1).last() == lines[j]);
    assert(flatten_cells(lines.take(j + 1)) == before + lines[j]);
    lemma_flatten_prefix(lines, j + 1);
    let k = before.len() + i;
    assert((before + lines[j])[k] == lines[j][i]);
    assert(flatten_cells(lines)[k] == flatten_cells(lines.take(j + 1))[k]);
}

/// The cells of all lines, in order.
pub open spec fn flatten_cells(lines: Seq<Seq<Cell>>) -> Seq<Cell>
    decreases lines.len(),
{
    if lines.len() == 0 {
        seq![]
    } else {
        flatten_cells(lines.drop_last()) + lines.last()
    }
}

proof fn lemma_flatten_prefix(lines: Seq<Seq<Cell>>, m: int)
    requires
        0 <= m <= lines.len(),
    ensures
        flatten_cells(lines.take(m)) == flatten_cells(lines).take(flatten_cells(lines.take(m)).len() as int),
        flatten_cells(lines.take(m)).len() <= flatten_cells(lines).len(),
    decreases lines.len() - m,
{
    if m == lines.len() {
        assert(lines.take(m) == lines);
        assert(flatten_cells(lines).take(flatten_cells(lines).len() as int) == flatten_cells(lines));
    } else {
        lemma_flatten_prefix(lines, m + 1);
        let a = flatten_cells(lines.take(m));
        assert(lines.take(m + 1).drop_last() == lines.take(m));
        assert(flatten_cells(lines.take(m + 1)) == a + lines[m]);
        assert(flatten_cells(lines).take(a.len() as int) == (a + lines[m]).take(a.len() as int));
        assert((a + lines[m]).take(a.len() as int) == a);
    }
}

/// Packing keeps every cell, in order.
pub proof fn lemma_pack_flattens(cells: Seq<Cell>)
    ensures
        flatten_cells(packed_lines(cells)) == cells,
        flatten_cells(pack(cells).lines) + pack(cells).current == cells,
    decreases cells.len(),
{
    if cells.len() == 0 {
        assert(flatten_cells(pack(cells).lines) + pack(cells).current == cells);
    } else {
        let d = cells.drop_last();
        lemma_pack_flattens(d);
        let st = pack(d);
        let c = cells.last();
        assert(cells == d.push(c));
        if st.width + estimate(c) > 80 && st.current.len() > 0 {
            let nl = st.lines.push(st.current);
            assert(nl.drop_last() == st.lines);
            assert(flatten_cells(nl) == flatten_cells(st.lines) + st.current);
        }
    }
    let st = pack(cells);
    if st.current.len() > 0 {
        let nl = st.lines.push(st.current);
        assert(nl.drop_last() == st.lines);
    } else {
        assert(flatten_cells(st.lines) + st.current == flatten_cells(st.lines));
    }
}

/// `s` with its whitespace left out.
pub open spec fn visible(s: Seq<char>) -> Seq<char>
    decreases s.len(),
{
    if s.len() == 0 {
        seq![]
    } else if is_space(s.last()) {
        visible(s.drop_last())
    } else {
        visible(s.drop_last()).push(s.last())
    }
}

/// What the hanzi rows of `rows` show, whitespace left out, in order.
pub open spec fn shown_text(rows: Seq<(Seq<char>, Seq<char>)>) -> Seq<char>
    decreases rows.len(),
{
    if rows.len() == 0 {
        seq![]
    } else {
        shown_text(rows.drop_last()) + visible(rows.last().1)
    }
}

/// The texts of `cells`, in order.
pub open spec fn texts(cells: Seq<Cell>) -> Seq<char>
    decreases cells.len(),
{
    if cells.len() == 0 {
        seq![]
    } else {
        texts(cells.drop_last()) + cells.last().text()
    }
}

pub open spec fn no_space(s: Seq<char>) -> bool {
    forall|i: int| 0 <= i < s.len() ==> !is_space(#[trigger] s[i])
}

/// `lines` joined with newlines.
pub open spec fn join_lines(lines: Seq<Seq<char>>) -> Seq<char>
    decreases lines.len(),
{
    if lines.len() == 0 {
        seq![]
    } else if lines.len() == 1 {
        lines[0]
    } else {
        join_lines(lines.drop_last()) + seq!['\n'] + lines.last()
    }
}

pub open spec fn visible_lines(lines: Seq<Seq<char>>) -> Seq<char>
    decreases lines.len(),
{
    if lines.len() == 0 {
        seq![]
    } else {
        visible_lines(lines.drop_last()) + visible(lines.last())
    }
}

proof fn lemma_visible_concat(a: Seq<char>, b: Seq<char>)
    ensures
        visible(a + b) == visible(a) + visible(b),
    decreases b.len(),
{
    if b.len() == 0 {
        assert(a + b == a);
    } else {
        lemma_visible_concat(a, b.drop_last());
        assert((a + b).drop_last() == a + b.drop_last());
        assert((a + b).last() == b.last());
    }
}

proof fn lemma_visible_of_spaces(s: Seq<char>)
    requires
        forall|i: int| 0 <= i < s.len() ==> is_space(#[trigger] s[i]),
    ensures
        visible(s) == Seq::<char>::empty(),
    decreases s.len(),
{
    if s.len() > 0 {
        assert(is_space(s[s.len() - 1]));
        lemma_visible_of_spaces(s.drop_last());
    }
}

proof fn lemma_visible_of_no_space(s: Seq<char>)
    requires
        no_space(s),
    ensures
        visible(s) == s,
    decreases s.len(),
{
    if s.len() > 0 {
        assert(!is_space(s[s.len() - 1]));
        lemma_visible_of_no_space(s.drop_last());
        assert(s.drop_last().push(s.last()) == s);
    }
}

proof fn lemma_visible_trim_end(s: Seq<char>)
    ensures
        visible(trim_end(s)) == visible(s),
{
    lemma_trim_end_is_prefix(s);
    let m = trim_end(s).len() as int;
    assert(s == s.take(m) + s.skip(m));
    lemma_visible_concat(s.take(m), s.skip(m));
    lemma_visible_of_spaces(s.skip(m));
    assert(visible(s.take(m)) + Seq::<char>::empty() == visible(s.take(m)));
}

proof fn lemma_texts_concat(a: Seq<Cell>, b: Seq<Cell>)
    ensures
        texts(a + b) == texts(a) + texts(b),
    decreases b.len(),
{
    if b.len() == 0 {
        assert(a + b == a);
    } else {
        lemma_texts_concat(a, b.drop_last());
        assert((a + b).drop_last() == a + b.drop_last());
    }
}

/// The hanzi row of a line shows the cells' texts and nothing else.
proof fn lemma_row_shows_texts(cells: Seq<Cell>)
    requires
        forall|i: int| 0 <= i < cells.len() ==> no_space(#[trigger] cells[i].text()),
    ensures
        visible(join_segments(cells, false)) == texts(cells),
    decreases cells.len(),
{
    if cells.len() > 0 {
        let d = cells.drop_last();
        let c = cells.last();
        assert(no_space(c.text()));
        let pad = (cell_width(c) - columns(c)) as nat;
        assert(hanzi_segment(c) == c.text() + spaces(pad));
        lemma_visible_concat(c.text(), spaces(pad));
        lemma_visible_of_spaces(spaces(pad));
        lemma_visible_of_no_space(c.text());
        assert(c.text() + Seq::<char>::empty() == c.text());
        if cells.len() == 1 {
            assert(cells[0] == c);
            assert(texts(cells) == texts(d) + c.text());
            assert(Seq::<char>::empty() + c.text() == c.text());
        } else {
            assert forall|i: int| 0 <= i < d.len() implies no_space(#[trigger] d[i].text()) by {
                assert(d[i] == cells[i]);
            }
            lemma_row_shows_texts(d);
            let a = join_segments(d, false);
            assert(join_segments(cells, false) == (a + seq![' ']) + hanzi_segment(c));
            lemma_visible_concat(a + seq![' '], hanzi_segment(c));
            lemma_visible_concat(a, seq![' ']);
            lemma_visible_of_spaces(seq![' ']);
            assert(visible(a) + Seq::<char>::empty() == visible(a));
        }
    }
}

proof fn lemma_shown_text_concat(a: Seq<(Seq<char>, Seq<char>)>, b: Seq<(Seq<char>, Seq<char>)>)
    ensures
        shown_text(a + b) == shown_text(a) + shown_text(b),
    decreases b.len(),
{
    if b.len() == 0 {
        assert(a + b == a);
    } else {
        lemma_shown_text_concat(a, b.drop_last());
        assert((a + b).drop_last() == a + b.drop_last());
    }
}

/// The rows of packed lines show the texts of all the cells.
proof fn lemma_groups_show_texts(groups: Seq<Seq<Cell>>)
    requires
        forall|j: int, i: int|
            0 <= j < groups.len() && 0 <= i < groups[j].len() ==> no_space(
                #[trigger] groups[j][i].text(),
            ),
    ensures
        shown_text(groups.map_values(|g: Seq<Cell>| line_rows(g))) == texts(flatten_cells(groups)),
    decreases groups.len(),
{
    let f = |g: Seq<Cell>| line_rows(g);
    if groups.len() > 0 {
        let d = groups.drop_last();
        let g = groups.last();
        assert forall|j: int, i: int| 0 <= j < d.len() && 0 <= i < d[j].len() implies no_space(
            #[trigger] d[j][i].text(),
        ) by {
            assert(d[j] == groups[j]);
        }
        lemma_groups_show_texts(d);
        assert(groups.map_values(f).drop_last() == d.map_values(f));
        assert(groups.map_values(f).last() == line_rows(g));
        assert forall|i: int| 0 <= i < g.len() implies no_space(#[trigger] g[i].text()) by {
            assert(g == groups[groups.len() - 1]);
        }
        lemma_row_shows_texts(g);
        lemma_visible_trim_end(join_segments(g, false));
        lemma_texts_concat(flatten_cells(d), g);
    }
}

/// The scanner's invariant: what it has taken in is its cells' texts plus
/// the pending word, none of which holds whitespace.
proof fn lemma_scan(s: Seq<char>)
    ensures
        texts(scan(s).cells) + scan(s).word == visible(s),
        no_space(scan(s).word),
        forall|i: int| 0 <= i < scan(s).cells.len() ==> no_space(#[trigger] scan(s).cells[i].text()),
        scan(s).after_hanzi ==> scan(s).cells.len() > 0 && scan(s).cells.last() is Hanzi
            && scan(s).word.len() == 0,
    decreases s.len(),
{
    if s.len() > 0 {
        let d = s.drop_last();
        let c = s.last();
        lemma_scan(d);
        let st = scan(d);
        let nx = scan(s);
        assert(nx == scan_step(st, c));
        if is_space(c) {
            if st.word.len() > 0 {
                assert(st.cells.push(Cell::Word { text: st.word }).drop_last() == st.cells);
                assert(texts(nx.cells) == texts(st.cells) + st.word);
                assert forall|i: int| 0 <= i < nx.cells.len() implies no_space(#[trigger] nx.cells[i].text()) by {
                    if i < st.cells.len() {
                        assert(nx.cells[i] == st.cells[i]);
                    }
                }
                assert(texts(nx.cells) + nx.word == texts(nx.cells));
            }
        } else if is_hanzi(c) {
            let cells1 = if st.word.len() > 0 {
                st.cells.push(Cell::Word { text: st.word })
            } else {
                st.cells
            };
            assert(texts(cells1) == texts(st.cells) + st.word) by {
                if st.word.len() > 0 {
                    assert(cells1.drop_last() == st.cells);
                } else {
                    assert(texts(st.cells) + st.word == texts(st.cells));
                }
            }
            let hz = Cell::Hanzi { text: seq![c], reading: reading_of(c) };
            assert(nx.cells == cells1.push(hz));
            assert(nx.cells.drop_last() == cells1);
            assert(texts(nx.cells) == texts(cells1) + seq![c]);
            assert(visible(s) == visible(d).push(c));
            assert(texts(nx.cells) + nx.word == texts(nx.cells));
            assert forall|i: int| 0 <= i < nx.cells.len() implies no_space(#[trigger] nx.cells[i].text()) by {
                if i < st.cells.len() {
                    assert(nx.cells[i] == st.cells[i]);
                } else if i == nx.cells.len() - 1 {
                    assert(nx.cells[i] == hz);
                    assert(hz.text() == seq![c]);
                } else {
                    assert(nx.cells[i] == Cell::Word { text: st.word });
                }
            }
        } else if is_punct(c) && st.after_hanzi {
            let k = st.cells.len() - 1;
            let last = st.cells.last();
            let nc = Cell::Hanzi { text: last.text().push(c), reading: last.reading() };
            assert(nx.cells == st.cells.update(k, nc));
            assert(nx.cells.drop_last() == st.cells.drop_last());
            assert(st.cells == st.cells.drop_last().push(last));
            assert(texts(st.cells) == texts(st.cells.drop_last()) + last.text());
            assert(texts(nx.cells) == texts(st.cells.drop_last()) + last.text().push(c));
            assert(st.word == Seq::<char>::empty());
            assert(visible(s) == visible(d).push(c));
            assert(texts(nx.cells) + nx.word == texts(nx.cells));
            assert(texts(st.cells) + st.word == texts(st.cells));
            assert(texts(st.cells.drop_last()) + last.text().push(c) == (texts(st.cells.drop_last())
                + last.text()).push(c));
            assert forall|i: int| 0 <= i < nx.cells.len() implies no_space(#[trigger] nx.cells[i].text()) by {
                if i < k {
                    assert(nx.cells[i] == st.cells[i]);
                } else {
                    assert(nx.cells[i] == nc);
                    assert(no_space(st.cells[k].text()));
                    assert forall|m: int| 0 <= m < nc.text().len() implies !is_space(#[trigger] nc.text()[m]) by {
                        if m < last.text().len() {
                            assert(nc.text()[m] == last.text()[m]);
                        }
                    }
                }
            }
        } else {
            assert(nx.word == st.word.push(c));
            assert(visible(s) == visible(d).push(c));
            assert(texts(nx.cells) + nx.word == (texts(st.cells) + st.word).push(c));
            assert forall|m: int| 0 <= m < nx.word.len() implies !is_space(#[trigger] nx.word[m]) by {
                if m < st.word.len() {
                    assert(nx.word[m] == st.word[m]);
                }
            }
        }
    }
}

/// The cells of a line hold its visible characters, in order.
proof fn lemma_cells_of(line: Seq<char>)
    ensures
        texts(cells_of(line)) == visible(line),
        forall|i: int| 0 <= i < cells_of(line).len() ==> no_space(#[trigger] cells_of(line)[i].text()),
{
    lemma_scan(line);
    let st = scan(line);
    if st.word.len() > 0 {
        let cs = st.cells.push(Cell::Word { text: st.word });
        assert(cs.drop_last() == st.cells);
        assert forall|i: int| 0 <= i < cs.len() implies no_space(#[trigger] cs[i].text()) by {
            if i < st.cells.len() {
                assert(cs[i] == st.cells[i]);
            }
        }
    } else {
        assert(texts(st.cells) + st.word == texts(st.cells));
    }
}

proof fn lemma_line_shows_visible(line: Seq<char>)
    ensures
        shown_text(single_line_rows(line)) == visible(line),
{
    let cells = cells_of(line);
    lemma_cells_of(line);
    lemma_pack_flattens(cells);
    let groups = packed_lines(cells);
    assert forall|j: int, i: int| 0 <= j < groups.len() && 0 <= i < groups[j].len() implies no_space(
        #[trigger] groups[j][i].text(),
    ) by {
        lemma_member_of_packed(cells, j, i);
        let k = choose|k: int| 0 <= k < cells.len() && cells[k] == groups[j][i];
        assert(no_space(cells[k].text()));
    }
    lemma_groups_show_texts(groups);
}

proof fn lemma_join_split(s: Seq<char>)
    ensures
        join_lines(split_lines(s)) == s,
        split_lines(s).len() >= 1,
    decreases s.len(),
{
    if s.len() > 0 {
        let d = s.drop_last();
        let c = s.last();
        lemma_join_split(d);
        let prev = split_lines(d);
        if c == '\n' {
            let nx = prev.push(seq![]);
            assert(nx.drop_last() == prev);
            assert(join_lines(nx) == d + seq!['\n'] + Seq::<char>::empty());
            assert(d + seq!['\n'] + Seq::<char>::empty() == s);
        } else {
            let nx = prev.update(prev.len() - 1, prev.last().push(c));
            if prev.len() == 1 {
                assert(join_lines(nx) == nx[0]);
                assert(join_lines(prev) == prev[0]);
                assert(s == d.push(c));
            } else {
                assert(nx.drop_last() == prev.drop_last());
                assert(join_lines(nx) == join_lines(prev.drop_last()) + seq!['\n'] + prev.last().push(c));
                assert(join_lines(prev) == join_lines(prev.drop_last()) + seq!['\n'] + prev.last());
                assert(s == d.push(c));
            }
        }
    }
}

proof fn lemma_visible_join_lines(lines: Seq<Seq<char>>)
    ensures
        visible(join_lines(lines)) == visible_lines(lines),
    decreases lines.len(),
{
    if lines.len() == 1 {
        assert(lines.drop_last().len() == 0);
        assert(visible_lines(lines.drop_last()) == Seq::<char>::empty());
        assert(lines.last() == lines[0]);
        assert(Seq::<char>::empty() + visible(lines[0]) == visible(lines[0]));
    } else if lines.len() > 1 {
        let d = lines.drop_last();
        lemma_visible_join_lines(d);
        let a = join_lines(d);
        lemma_visible_concat(a + seq!['\n'], lines.last());
        lemma_visible_concat(a, seq!['\n']);
        lemma_visible_of_spaces(seq!['\n']);
        assert(visible(a) + Seq::<char>::empty() == visible(a));
    }
}

proof fn lemma_lines_show_visible(lines: Seq<Seq<char>>)
    ensures
        shown_text(concat_rows(lines.map_values(|l: Seq<char>| single_line_rows(l)))) == visible_lines(
            lines,
        ),
    decreases lines.len(),
{
    let f = |l: Seq<char>| single_line_rows(l);
    if lines.len() > 0 {
        let d = lines.drop_last();
        lemma_lines_show_visible(d);
        let m = lines.map_values(f);
        assert(m.drop_last() == d.map_values(f));
        assert(concat_rows(m) == concat_rows(d.map_values(f)) + single_line_rows(lines.last()));
        lemma_shown_text_concat(concat_rows(d.map_values(f)), single_line_rows(lines.last()));
        lemma_line_shows_visible(lines.last());
    }
}

/// Nothing the user typed is lost: the hanzi rows, whitespace left out, show
/// exactly the input's non-whitespace characters, in order.
pub proof fn law_every_visible_character_is_shown(text: Seq<char>)
    ensures
        shown_text(pinyin_rows(text)) == visible(text),
{
    lemma_lines_show_visible(split_lines(text));
    lemma_join_split(text);
    lemma_visible_join_lines(split_lines(text));
}

/// Every cell the scanner has made shows something in its lower row, and,
/// when every hanzi read has a reading, in its upper row too.
proof fn lemma_scan_cells(s: Seq<char>)
    ensures
        forall|i: int| 0 <= i < scan(s).cells.len() ==> body_ok(#[trigger] scan(s).cells[i], false),
        all_read(s) ==> forall|i: int|
            0 <= i < scan(s).cells.len() ==> body_ok(#[trigger] scan(s).cells[i], true),
    decreases s.len(),
{
    lemma_scan(s);
    if s.len() > 0 {
        let d = s.drop_last();
        let c = s.last();
        lemma_scan_cells(d);
        lemma_scan(d);
        let st = scan(d);
        let nx = scan(s);
        assert(nx == scan_step(st, c));
        if all_read(s) {
            assert forall|k: int| 0 <= k < d.len() && is_hanzi(d[k]) implies has_reading(
                #[trigger] d[k],
            ) by {
                assert(d[k] == s[k]);
            }
            assert(is_hanzi(c) ==> has_reading(c)) by {
                assert(s[s.len() - 1] == c);
            }
        }
        if is_space(c) {
            if st.word.len() > 0 {
                let wc = Cell::Word { text: st.word };
                assert(nx.cells == st.cells.push(wc));
                assert forall|i: int| 0 <= i < nx.cells.len() implies body_ok(
                    #[trigger] nx.cells[i],
                    false,
                ) && (all_read(s) ==> body_ok(nx.cells[i], true)) by {
                    if i < st.cells.len() {
                        assert(nx.cells[i] == st.cells[i]);
                    } else {
                        assert(nx.cells[i] == wc);
                    }
                }
            }
        } else if is_hanzi(c) {
            let cells1 = if st.word.len() > 0 {
                st.cells.push(Cell::Word { text: st.word })
            } else {
                st.cells
            };
            let hz = Cell::Hanzi { text: seq![c], reading: reading_of(c) };
            assert(nx.cells == cells1.push(hz));
            assert(no_space(seq![c])) by {
                assert forall|m: int| 0 <= m < 1 implies !is_space(#[trigger] seq![c][m]) by {
                    assert(seq![c][m] == c);
                }
            }
            assert forall|i: int| 0 <= i < nx.cells.len() implies body_ok(
                #[trigger] nx.cells[i],
                false,
            ) && (all_read(s) ==> body_ok(nx.cells[i], true)) by {
                if i < st.cells.len() {
                    assert(nx.cells[i] == st.cells[i]);
                } else if i == nx.cells.len() - 1 {
                    assert(nx.cells[i] == hz);
                } else {
                    assert(nx.cells[i] == Cell::Word { text: st.word });
                }
            }
        } else if is_punct(c) && st.after_hanzi {
            let k = st.cells.len() - 1;
            let last = st.cells.last();
            let nc = Cell::Hanzi { text: last.text().push(c), reading: last.reading() };
            assert(nx.cells == st.cells.update(k, nc));
            assert forall|i: int| 0 <= i < nx.cells.len() implies body_ok(
                #[trigger] nx.cells[i],
                false,
            ) && (all_read(s) ==> body_ok(nx.cells[i], true)) by {
                if i < k {
                    assert(nx.cells[i] == st.cells[i]);
                } else {
                    assert(nx.cells[i] == nc);
                    assert(st.cells[k] == last);
                    assert(body_ok(last, false));
                    assert(all_read(s) ==> body_ok(last, true));
                }
            }
        } else {
            assert(nx.cells == st.cells);
        }
    }
}

/// Every cell of a line shows something in its lower row, and, when every
/// hanzi of the line has a reading, in its upper row too.
proof fn lemma_cells_of_ok(line: Seq<char>)
    ensures
        forall|i: int| 0 <= i < cells_of(line).len() ==> body_ok(#[trigger] cells_of(line)[i], false),
        all_read(line) ==> forall|i: int|
            0 <= i < cells_of(line).len() ==> body_ok(#[trigger] cells_of(line)[i], true),
{
    lemma_scan(line);
    lemma_scan_cells(line);
    let st = scan(line);
    if st.word.len() > 0 {
        let wc = Cell::Word { text: st.word };
        let cs = st.cells.push(wc);
        assert forall|i: int| 0 <= i < cs.len() implies body_ok(#[trigger] cs[i], false) && (all_read(
            line,
        ) ==> body_ok(cs[i], true)) by {
            if i < st.cells.len() {
                assert(cs[i] == st.cells[i]);
            } else {
                assert(cs[i] == wc);
            }
        }
    }
}

/// Each display line of one input line keeps within the budget, and its two
/// rows line up when every hanzi of the line has a reading.
proof fn lemma_line_rows_ok(line: Seq<char>)
    ensures
        forall|i: int| 0 <= i < single_line_rows(line).len() ==> fits_budget(
            #[trigger] single_line_rows(line)[i],
        ),
        all_read(line) ==> forall|i: int|
            0 <= i < single_line_rows(line).len() ==> aligned(#[trigger] single_line_rows(line)[i]),
{
    let cells = cells_of(line);
    let groups = packed_lines(cells);
    lemma_cells_of_ok(line);
    lemma_packed_lines_charged(cells);
    assert forall|j: int| 0 <= j < groups.len() implies fits_budget(
        #[trigger] single_line_rows(line)[j],
    ) && (all_read(line) ==> aligned(single_line_rows(line)[j])) by {
        let g = groups[j];
        assert(single_line_rows(line)[j] == line_rows(g));
        assert forall|i: int| 0 <= i < g.len() implies body_ok(#[trigger] g[i], false) && (all_read(
            line,
        ) ==> body_ok(g[i], true)) by {
            lemma_member_of_packed(cells, j, i);
            let k = choose|k: int| 0 <= k < cells.len() && cells[k] == groups[j][i];
            assert(body_ok(cells[k], false));
        }
        assert(g.len() > 0 && (g.len() > 1 ==> charged(g) <= 80));
        assert forall|i: int| 0 <= i < g.len() implies body_ok(#[trigger] g[i], false) by {
            assert(body_ok(g[i], false) && (all_read(line) ==> body_ok(g[i], true)));
        }
        lemma_group_fits(g);
        if all_read(line) {
            assert forall|i: int| 0 <= i < g.len() implies body_ok(#[trigger] g[i], true) && body_ok(
                g[i],
                false,
            ) by {
                assert(body_ok(g[i], false) && (all_read(line) ==> body_ok(g[i], true)));
            }
            lemma_cells_align(g);
        }
    }
}

/// The lines of a text whose hanzi all have readings are such lines too.
proof fn lemma_split_all_read(s: Seq<char>)
    requires
        all_read(s),
    ensures
        forall|j: int| 0 <= j < split_lines(s).len() ==> all_read(#[trigger] split_lines(s)[j]),
    decreases s.len(),
{
    if s.len() > 0 {
        let d = s.drop_last();
        let c = s.last();
        assert forall|k: int| 0 <= k < d.len() && is_hanzi(d[k]) implies has_reading(#[trigger] d[k]) by {
            assert(d[k] == s[k]);
        }
        lemma_split_all_read(d);
        let prev = split_lines(d);
        crate::pinyin_conv::lemma_split_lines_nonempty(d);
        if c != '\n' {
            let l = prev.last();
            let nl = l.push(c);
            assert(all_read(l)) by {
                assert(all_read(prev[prev.len() - 1]));
            }
            assert forall|k: int| 0 <= k < nl.len() && is_hanzi(nl[k]) implies has_reading(
                #[trigger] nl[k],
            ) by {
                if k < l.len() {
                    assert(nl[k] == l[k]);
                } else {
                    assert(nl[k] == s[s.len() - 1]);
                }
            }
            assert forall|j: int| 0 <= j < split_lines(s).len() implies all_read(
                #[trigger] split_lines(s)[j],
            ) by {
                if j < prev.len() - 1 {
                    assert(split_lines(s)[j] == prev[j]);
                } else {
                    assert(split_lines(s)[j] == nl);
                }
            }
        } else {
            assert forall|j: int| 0 <= j < split_lines(s).len() implies all_read(
                #[trigger] split_lines(s)[j],
            ) by {
                if j < prev.len() {
                    assert(split_lines(s)[j] == prev[j]);
                } else {
                    assert(split_lines(s)[j] == Seq::<char>::empty());
                }
            }
        }
    }
}

/// A property of every display line of each part holds of every line of
/// the parts put together.
proof fn lemma_concat_rows_all(
    parts: Seq<Seq<(Seq<char>, Seq<char>)>>,
    p: spec_fn((Seq<char>, Seq<char>)) -> bool,
)
    requires
        forall|j: int, i: int| 0 <= j < parts.len() && 0 <= i < parts[j].len() ==> p(#[trigger] parts[j][i]),
    ensures
        forall|i: int| 0 <= i < concat_rows(parts).len() ==> p(#[trigger] concat_rows(parts)[i]),
    decreases parts.len(),
{
    if parts.len() > 0 {
        let d = parts.drop_last();
        assert forall|j: int, i: int| 0 <= j < d.len() && 0 <= i < d[j].len() implies p(
            #[trigger] d[j][i],
        ) by {
            assert(d[j] == parts[j]);
        }
        lemma_concat_rows_all(d, p);
        let a = concat_rows(d);
        let b = parts.last();
        assert(concat_rows(parts) == a + b);
        assert forall|i: int| 0 <= i < concat_rows(parts).len() implies p(
            #[trigger] concat_rows(parts)[i],
        ) by {
            if i < a.len() {
                assert(concat_rows(parts)[i] == a[i]);
            } else {
                assert(concat_rows(parts)[i] == b[i - a.len()]);
                assert(b == parts[parts.len() - 1]);
            }
        }
    }
}

/// Every display line keeps within the 80-column budget in both rows,
/// counting a wide character as two columns; only a line holding a single
/// column wider than that on its own may exceed it.
pub proof fn law_lines_fit_budget(text: Seq<char>)
    ensures
        forall|i: int| 0 <= i < pinyin_rows(text).len() ==> fits_budget(#[trigger] pinyin_rows(text)[i]),
{
    let lines = split_lines(text);
    let f = |l: Seq<char>| single_line_rows(l);
    let parts = lines.map_values(f);
    assert forall|j: int, i: int| 0 <= j < parts.len() && 0 <= i < parts[j].len() implies fits_budget(
        #[trigger] parts[j][i],
    ) by {
        assert(parts[j] == single_line_rows(lines[j]));
        lemma_line_rows_ok(lines[j]);
    }
    lemma_concat_rows_all(parts, |r: (Seq<char>, Seq<char>)| fits_budget(r));
}

/// The pinyin row and the hanzi row of every display line start each column
/// at the same terminal offset, whenever every hanzi of the text has a
/// reading to show.
pub proof fn law_rows_align(text: Seq<char>)
    requires
        all_read(text),
    ensures
        forall|i: int| 0 <= i < pinyin_rows(text).len() ==> aligned(#[trigger] pinyin_rows(text)[i]),
{
    let lines = split_lines(text);
    let f = |l: Seq<char>| single_line_rows(l);
    let parts = lines.map_values(f);
    lemma_split_all_read(text);
    assert forall|j: int, i: int| 0 <= j < parts.len() && 0 <= i < parts[j].len() implies aligned(
        #[trigger] parts[j][i],
    ) by {
        assert(parts[j] == single_line_rows(lines[j]));
        assert(all_read(lines[j]));
        lemma_line_rows_ok(lines[j]);
    }
    lemma_concat_rows_all(parts, |r: (Seq<char>, Seq<char>)| aligned(r));
}

/// Whether the pinyin table gives `c` a reading to show.
fn reads(c: char) -> (r: bool)
    ensures
        r == has_reading(c),
{
    let reading = reading_chars(c);
    let n = reading.len();
    if n == 0 {
        return false;
    }
    for k in 0..n
        invariant
            n == reading@.len(),
            reading@ == reading_of(c),
            forall|m: int| 0 <= m < k ==> !is_space(#[trigger] reading@[m]),
    {
        if is_whitespace(reading[k]) {
            return false;
        }
    }
    true
}

/// The aligned display lines of `text`, when every hanzi of it has a
/// reading in the pinyin table; `None` when one has not, for then the two
/// rows of its line need not line up.
pub fn aligned_pinyin_lines(text: &str) -> (r: Option<Vec<PinyinLine>>)
    ensures
        r is Some <==> all_read(text@),
        r matches Some(v) ==> rows_view(v@) == pinyin_rows(text@) && forall|i: int|
            0 <= i < v@.len() ==> aligned(#[trigger] pinyin_rows(text@)[i]),
{
    let chars = chars_of(text);
    let n = chars.len();
    for i in 0..n
        invariant
            n == chars@.len(),
            chars@ == text@,
            forall|k: int| 0 <= k < i && is_hanzi(chars@[k]) ==> has_reading(#[trigger] chars@[k]),
    {
        if is_chinese(chars[i]) && !reads(chars[i]) {
            assert(!all_read(text@)) by {
                assert(is_hanzi(text@[i as int]) && !has_reading(text@[i as int]));
            }
            return None;
        }
    }
    let lines = convert_to_pinyin_lines(text);
    proof {
        law_rows_align(text@);
    }
    Some(lines)
}

/// After a hanzi and a run of punctuation, the scanner holds the hanzi's
/// cell with the whole run appended, and is still right after a hanzi.
proof fn lemma_scan_marks(before: Seq<char>, c: char, marks: Seq<char>)
    requires
        is_hanzi(c),
        forall|i: int| 0 <= i < marks.len() ==> is_punct(#[trigger] marks[i]),
    ensures
        scan(before.push(c) + marks) == (crate::pinyin_conv::Scan {
            cells: scan(before.push(c)).cells.drop_last().push(
                Cell::Hanzi { text: seq![c] + marks, reading: reading_of(c) },
            ),
            word: Seq::empty(),
            after_hanzi: true,
        }),
        scan(before.push(c)).cells.len() > 0,
        scan(before.push(c)).cells.last() == (Cell::Hanzi { text: seq![c], reading: reading_of(c) }),
        scan(before.push(c)).word.len() == 0,
    decreases marks.len(),
{
    let x = before.push(c);
    assert(x.drop_last() == before);
    assert(x.last() == c);
    let st0 = scan(before);
    let st1 = scan(x);
    assert(st1 == crate::pinyin_conv::scan_step(st0, c));
    assert(!is_space(c));
    let pre = st1.cells.drop_last();
    assert(st1.cells == pre.push(Cell::Hanzi { text: seq![c], reading: reading_of(c) }));
    if marks.len() == 0 {
        assert(x + marks == x);
        assert(seq![c] + marks == seq![c]);
        assert(st1.cells.drop_last() == pre);
    } else {
        let d = marks.drop_last();
        let p = marks.last();
        assert forall|i: int| 0 <= i < d.len() implies is_punct(#[trigger] d[i]) by {
            assert(d[i] == marks[i]);
        }
        lemma_scan_marks(before, c, d);
        assert(is_punct(marks[marks.len() - 1]));
        assert(!is_space(p));
        assert(!is_hanzi(p));
        let y = x + d;
        assert((x + marks).drop_last() == y);
        assert((x + marks).last() == p);
        let st = scan(y);
        let cells = st1.cells.drop_last().push(Cell::Hanzi { text: seq![c] + d, reading: reading_of(c) });
        assert(st.cells == cells);
        assert(st.cells.last() is Hanzi);
        assert((seq![c] + d).push(p) == seq![c] + marks);
        assert(cells.last().text() == seq![c] + d);
        assert(cells.update(cells.len() - 1, Cell::Hanzi { text: (seq![c] + d).push(p), reading: reading_of(c) })
            =~= pre.push(Cell::Hanzi { text: seq![c] + marks, reading: reading_of(c) }));
    }
}

/// Punctuation that directly follows a hanzi stays with it: a hanzi and the
/// run of marks after it make one cell, shown as the hanzi with every mark
/// and read as the hanzi, whatever came before.
pub proof fn law_marks_stay_with_their_hanzi(before: Seq<char>, c: char, marks: Seq<char>)
    requires
        is_hanzi(c),
        forall|i: int| 0 <= i < marks.len() ==> is_punct(#[trigger] marks[i]),
    ensures
        cells_of(before.push(c) + marks) == cells_of(before.push(c)).drop_last().push(
            Cell::Hanzi { text: seq![c] + marks, reading: reading_of(c) },
        ),
        cells_of(seq![c] + marks) == seq![Cell::Hanzi { text: seq![c] + marks, reading: reading_of(c) }],
{
    lemma_scan_marks(before, c, marks);
    lemma_scan_marks(Seq::empty(), c, marks);
    let e = Seq::<char>::empty();
    assert(e.push(c) == seq![c]);
    assert(e.push(c) + marks == seq![c] + marks);
    assert(scan(e) == (crate::pinyin_conv::Scan { cells: seq![], word: seq![], after_hanzi: false }));
    assert(e.push(c).drop_last() == e);
    assert(scan(e.push(c)).cells == seq![Cell::Hanzi { text: seq![c], reading: reading_of(c) }]);
    assert(scan(e.push(c)).cells.drop_last() == Seq::<Cell>::empty());
}

} // verus!
