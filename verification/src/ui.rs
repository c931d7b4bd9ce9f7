//! The text and geometry that the screen shows, worked out from the app's
//! state. Drawing itself is left to the terminal library.
use vstd::prelude::*;
use crate::app::{App, InputMode, UiLanguage};
use crate::language::{Language, display_name, service_code};
use crate::pinyin_conv::PinyinLine;
use crate::text::{chars_of, concat, push_str};

verus! {

broadcast use vstd::string::group_string_axioms;

/// Characters that take two terminal columns: CJK ideographs and their
/// extensions, the CJK symbols and punctuation block (from the ideographic
/// space on) and the full-width forms.
pub open spec fn is_wide(c: char) -> bool {
    ||| ('\u{4e00}' <= c && c <= '\u{9fff}')
    ||| ('\u{3400}' <= c && c <= '\u{4dbf}')
    ||| ('\u{f900}' <= c && c <= '\u{faff}')
    ||| ('\u{20000}' <= c && c <= '\u{2a6df}')
    ||| ('\u{2a700}' <= c && c <= '\u{2b73f}')
    ||| ('\u{2b740}' <= c && c <= '\u{2b81f}')
    ||| ('\u{3000}' <= c && c <= '\u{303f}')
    ||| ('\u{ff01}' <= c && c <= '\u{ff5e}')
    ||| ('\u{ff5f}' <= c && c <= '\u{ff60}')
    ||| ('\u{ffe0}' <= c && c <= '\u{ffe6}')
}

pub fn is_wide_char(c: char) -> (r: bool)
    ensures
        r == is_wide(c),
{
    ('\u{4e00}' <= c && c <= '\u{9fff}') || ('\u{3400}' <= c && c <= '\u{4dbf}') || ('\u{f900}'
        <= c && c <= '\u{faff}') || ('\u{20000}' <= c && c <= '\u{2a6df}') || ('\u{2a700}' <= c
        && c <= '\u{2b73f}') || ('\u{2b740}' <= c && c <= '\u{2b81f}') || ('\u{3000}' <= c && c
        <= '\u{303f}') || (
    '\u{ff01}' <= c && c <= '\u{ff5e}') || ('\u{ff5f}' <= c && c <= '\u{ff60}') || ('\u{ffe0}'
        <= c && c <= '\u{ffe6}')
}

/// Row and column, counted from the top left of the input box's inside,
/// where the text `s` ends when it is wrapped at `width` columns: a newline
/// starts a row, and a character that does not fit starts one too.
pub open spec fn visual_end(s: Seq<char>, width: int) -> (int, int)
    decreases s.len(),
{
    if s.len() == 0 {
        (0, 0)
    } else {
        let (row, col) = visual_end(s.drop_last(), width);
        let c = s.last();
        if c == '\n' {
            (row + 1, 0)
        } else {
            let w: int = if is_wide(c) { 2 } else { 1 };
            if width > 0 && col + w > width {
                (row + 1, w)
            } else {
                (row, col + w)
            }
        }
    }
}

proof fn lemma_visual_end_bounds(s: Seq<char>, width: int)
    ensures
        0 <= visual_end(s, width).0 <= s.len(),
        0 <= visual_end(s, width).1 <= 2 * s.len(),
    decreases s.len(),
{
    if s.len() > 0 {
        lemma_visual_end_bounds(s.drop_last(), width);
    }
}

/// Where the cursor of `app` appears inside an input box `inner_width`
/// columns wide, as (row, column).
pub fn cursor_visual_position(app: &App, inner_width: usize) -> (r: (usize, usize))
    requires
        app.input@.len() <= usize::MAX / 2,
    ensures
        ({
            let n = if app.cursor_position <= app.input@.len() {
                app.cursor_position as int
            } else {
                app.input@.len() as int
            };
            let e = visual_end(app.input@.take(n), inner_width as int);
            r.0 == e.0 && r.1 == e.1
        }),
{
    let chars = chars_of(app.input.as_str());
    let n = if app.cursor_position <= chars.len() { app.cursor_position } else { chars.len() };
    let mut row: usize = 0;
    let mut col: usize = 0;
    let mut i: usize = 0;
    while i < n
        invariant
            chars@ == app.input@,
            n <= chars@.len() <= usize::MAX / 2,
            i <= n,
            (row as int, col as int) == visual_end(chars@.take(i as int), inner_width as int),
        decreases n - i,
    {
        proof {
            lemma_visual_end_bounds(chars@.take(i as int), inner_width as int);
            assert(chars@.take(i + 1).drop_last() == chars@.take(i as int));
        }
        let c = chars[i];
        if c == '\n' {
            row = row + 1;
            col = 0;
        } else {
            let w: usize = if is_wide_char(c) { 2 } else { 1 };
            if inner_width > 0 && col + w > inner_width {
                row = row + 1;
                col = w;
            } else {
                col = col + w;
            }
        }
        i = i + 1;
    }
    (row, col)
}

/// The rows of the pinyin pane: reading rows and character rows, in pairs.
pub fn update_pinyin_display(app: &mut App, pinyin_lines: Vec<PinyinLine>)
    ensures
        final(app).pinyin_lines@.len() == pinyin_lines@.len(),
        final(app).hanzi_lines@.len() == pinyin_lines@.len(),
        forall|i: int|
            0 <= i < pinyin_lines@.len() ==> #[trigger] final(app).pinyin_lines@[i]@ == (
            #[trigger] pinyin_lines@[i]).pinyin@,
        forall|i: int|
            0 <= i < pinyin_lines@.len() ==> final(app).hanzi_lines@[i]@ == (
            #[trigger] pinyin_lines@[i]).hanzi@,
        *final(app) == (App { pinyin_lines: final(app).pinyin_lines, hanzi_lines: final(app).hanzi_lines, ..*old(app) }),
{
    let mut pinyin: Vec<String> = Vec::new();
    let mut hanzi: Vec<String> = Vec::new();
    let n = pinyin_lines.len();
    let mut i: usize = 0;
    while i < n
        invariant
            n == pinyin_lines@.len(),
            i <= n,
            pinyin@.len() == i,
            hanzi@.len() == i,
            forall|k: int|
                #![trigger pinyin@[k]]
                0 <= k < i ==> pinyin@[k] == pinyin_lines@[k].pinyin && hanzi@[k]
                    == pinyin_lines@[k].hanzi,
        decreases n - i,
    {
        let p = pinyin_lines[i].pinyin.clone();
        let h = pinyin_lines[i].hanzi.clone();
        pinyin.push(p);
        hanzi.push(h);
        i = i + 1;
    }
    assert forall|k: int| 0 <= k < n implies #[trigger] hanzi@[k]@ == pinyin_lines@[k].hanzi@ by {
        assert(pinyin@[k] == pinyin_lines@[k].pinyin);
    }
    app.pinyin_lines = pinyin;
    app.hanzi_lines = hanzi;
}

/// The slice of the language list that the picker shows: centred on the
/// highlighted row where the list allows, `visible` rows at most.
pub open spec fn selector_window(scroll: int, total: int, visible: int) -> (int, int) {
    let start = if scroll >= visible / 2 { scroll - visible / 2 } else { 0 };
    let end = if start + visible <= total { start + visible } else { total };
    (start, end)
}

/// The rows `start..end` of the picker's list that are shown; a window
/// that starts past the end of the list is empty.
pub fn language_selector_window(scroll: usize, total: usize, visible: usize) -> (r: (usize, usize))
    ensures
        r.0 == selector_window(scroll as int, total as int, visible as int).0,
        r.1 == selector_window(scroll as int, total as int, visible as int).1,
{
    let half = visible / 2;
    let start = if scroll >= half { scroll - half } else { 0 };
    let end = if start <= total && visible <= total - start { start + visible } else { total };
    (start, end)
}

/// One row of the language picker: a check mark on the current target,
/// the name, the service code, and a marker on the current target.
pub open spec fn selector_entry(l: Language, current: bool) -> Seq<char> {
    (if current { "✓ "@ } else { "  "@ }) + display_name(l) + " ("@ + service_code(l) + ") "@
        + (if current { "[CURRENT]"@ } else { Seq::empty() })
}

pub fn language_selector_entry(l: Language, current: bool) -> (r: String)
    ensures
        r@ == selector_entry(l, current),
{
    let mut r = if current { "✓ ".to_string() } else { "  ".to_string() };
    push_str(&mut r, l.name());
    push_str(&mut r, " (");
    push_str(&mut r, l.google_code());
    push_str(&mut r, ") ");
    if current {
        push_str(&mut r, "[CURRENT]");
    }
    r
}

/// The mode shown in the header.
pub fn header_mode_text(app: &App) -> (r: &'static str)
    ensures
        r@ == (match (app.input_mode, app.ui_language) {
            (InputMode::Text, UiLanguage::English) => "[TEXT MODE]"@,
            (InputMode::Text, UiLanguage::Chinese) => "[文本模式]"@,
            (InputMode::ImagePath, UiLanguage::English) => "[IMAGE MODE]"@,
            (InputMode::ImagePath, UiLanguage::Chinese) => "[图片模式]"@,
        }),
{
    match app.input_mode {
        InputMode::Text => match app.ui_language {
            UiLanguage::English => "[TEXT MODE]",
            UiLanguage::Chinese => "[文本模式]",
        },
        InputMode::ImagePath => match app.ui_language {
            UiLanguage::English => "[IMAGE MODE]",
            UiLanguage::Chinese => "[图片模式]",
        },
    }
}

/// The interface language shown in the header.
pub fn header_language_text(app: &App) -> (r: &'static str)
    ensures
        r@ == (match app.ui_language {
            UiLanguage::English => "[EN]"@,
            UiLanguage::Chinese => "[中文]"@,
        }),
{
    match app.ui_language {
        UiLanguage::English => "[EN]",
        UiLanguage::Chinese => "[中文]",
    }
}

/// The target language shown in the header.
pub fn header_target_text(app: &App) -> (r: String)
    ensures
        r@ == "[Target: "@ + display_name(app.target_language) + "]"@,
{
    let mut r = "[Target: ".to_string();
    push_str(&mut r, app.target_language.name());
    push_str(&mut r, "]");
    r
}

/// What the input box shows: the input, marked while it is being worked on.
pub fn input_display_text(app: &App) -> (r: String)
    ensures
        r@ == (if app.processing { app.input@ + " [Processing...]"@ } else { app.input@ }),
{
    if app.processing {
        concat(app.input.as_str(), " [Processing...]")
    } else {
        app.input.clone()
    }
}

/// What the translation pane shows.
pub fn translation_display_text(app: &App) -> (r: String)
    ensures
        r@ == (if app.translation@.len() == 0 {
            match app.ui_language {
                UiLanguage::English => "Translation will appear here..."@,
                UiLanguage::Chinese => "翻译将显示在这里..."@,
            }
        } else {
            app.translation@
        }),
{
    if app.translation.as_str().is_empty() {
        match app.ui_language {
            UiLanguage::English => "Translation will appear here...".to_string(),
            UiLanguage::Chinese => "翻译将显示在这里...".to_string(),
        }
    } else {
        app.translation.clone()
    }
}

/// What the pinyin pane shows before there is anything to show.
pub fn pinyin_placeholder(app: &App) -> (r: &'static str)
    ensures
        r@ == (match app.ui_language {
            UiLanguage::English => "Pinyin will appear above Chinese characters"@,
            UiLanguage::Chinese => "拼音将显示在汉字上方"@,
        }),
{
    match app.ui_language {
        UiLanguage::English => "Pinyin will appear above Chinese characters",
        UiLanguage::Chinese => "拼音将显示在汉字上方",
    }
}

/// The help bar: the popup's keys while one is open, otherwise any error
/// followed by the screen's keys.
pub fn help_bar_text(app: &App) -> (r: String)
    ensures
        r@ == (if app.language_selector_open {
            match app.ui_language {
                UiLanguage::English => "↑↓ Navigate | Enter Select | Type to Search | Esc Close | Ctrl+X Clear search"@,
                UiLanguage::Chinese => "↑↓ 导航 | Enter 选择 | 输入搜索 | Esc 关闭 | Ctrl+X 清除搜索"@,
            }
        } else if app.settings_open {
            match app.ui_language {
                UiLanguage::English => "Settings: ↑↓ Navigate | Enter Toggle | Esc Close"@,
                UiLanguage::Chinese => "设置: ↑↓ 导航 | Enter 切换 | Esc 关闭"@,
            }
        } else {
            match app.error_message {
                Some(e) => "Error: "@ + e@ + " | "@ + help_text_of(app),
                None => help_text_of(app),
            }
        }),
{
    if app.language_selector_open {
        match app.ui_language {
            UiLanguage::English => "↑↓ Navigate | Enter Select | Type to Search | Esc Close | Ctrl+X Clear search".to_string(),
            UiLanguage::Chinese => "↑↓ 导航 | Enter 选择 | 输入搜索 | Esc 关闭 | Ctrl+X 清除搜索".to_string(),
        }
    } else if app.settings_open {
        match app.ui_language {
            UiLanguage::English => "Settings: ↑↓ Navigate | Enter Toggle | Esc Close".to_string(),
            UiLanguage::Chinese => "设置: ↑↓ 导航 | Enter 切换 | Esc 关闭".to_string(),
        }
    } else {
        match &app.error_message {
            Some(e) => {
                let mut r = "Error: ".to_string();
                push_str(&mut r, e.as_str());
                push_str(&mut r, " | ");
                push_str(&mut r, app.get_help_text());
                r
            },
            None => app.get_help_text().to_string(),
        }
    }
}

/// The key help of the app's current screen, as `App::get_help_text` gives
/// it.
pub open spec fn help_text_of(app: &App) -> Seq<char> {
    match (app.mode, app.ui_language) {
        (crate::app::AppMode::Transcription, UiLanguage::English) =>
            "Space: Record | Ctrl+D: Device | Ctrl+S: Settings | Ctrl+X: Clear | Ctrl+T: Back | Esc: Quit"@,
        (crate::app::AppMode::Transcription, UiLanguage::Chinese) =>
            "空格: 录音 | Ctrl+D: 设备 | Ctrl+S: 设置 | Ctrl+X: 清空 | Ctrl+T: 返回 | Esc: 退出"@,
        (crate::app::AppMode::Normal, UiLanguage::English) =>
            "Ctrl+T: Transcribe | Ctrl+L: Language | Ctrl+V: Paste | Ctrl+A: Select All | Ctrl+X: Clear | Ctrl+S: Settings | Esc: Quit"@,
        (crate::app::AppMode::Normal, UiLanguage::Chinese) =>
            "Ctrl+T: 转录 | Ctrl+L: 语言 | Ctrl+V: 粘贴 | Ctrl+A: 全选 | Ctrl+X: 清空 | Ctrl+S: 设置 | Esc: 退出"@,
    }
}

/// The interface-language row of the settings popup.
pub fn settings_language_line(app: &App) -> (r: &'static str)
    ensures
        r@ == (match app.ui_language {
            UiLanguage::English => "UI Language: English"@,
            UiLanguage::Chinese => "界面语言: 中文"@,
        }),
{
    match app.ui_language {
        UiLanguage::English => "UI Language: English",
        UiLanguage::Chinese => "界面语言: 中文",
    }
}

/// The language picker's title.
pub fn selector_title(app: &App) -> (r: &'static str)
    ensures
        r@ == (match app.ui_language {
            UiLanguage::English => "Select Target Language"@,
            UiLanguage::Chinese => "选择目标语言"@,
        }),
{
    match app.ui_language {
        UiLanguage::English => "Select Target Language",
        UiLanguage::Chinese => "选择目标语言",
    }
}

/// The label before the picker's search text.
pub fn selector_search_label(app: &App) -> (r: &'static str)
    ensures
        r@ == (match app.ui_language {
            UiLanguage::English => "Search:"@,
            UiLanguage::Chinese => "搜索:"@,
        }),
{
    match app.ui_language {
        UiLanguage::English => "Search:",
        UiLanguage::Chinese => "搜索:",
    }
}

/// What the picker's search line shows: the search typed so far, or a hint
/// while nothing is typed.
pub fn selector_search_text(app: &App) -> (r: String)
    ensures
        r@ == (if app.language_selector_search@.len() == 0 {
            "(type to filter...)"@
        } else {
            app.language_selector_search@
        }),
{
    if app.language_selector_search.as_str().is_empty() {
        "(type to filter...)".to_string()
    } else {
        app.language_selector_search.clone()
    }
}

/// What the picker shows when no language matches the search.
pub fn selector_no_match_text(app: &App) -> (r: &'static str)
    ensures
        r@ == (match app.ui_language {
            UiLanguage::English => "No languages match your search"@,
            UiLanguage::Chinese => "没有匹配的语言"@,
        }),
{
    match app.ui_language {
        UiLanguage::English => "No languages match your search",
        UiLanguage::Chinese => "没有匹配的语言",
    }
}

/// The settings popup's title.
pub fn settings_title(app: &App) -> (r: &'static str)
    ensures
        r@ == (match app.ui_language {
            UiLanguage::English => "Settings"@,
            UiLanguage::Chinese => "设置"@,
        }),
{
    match app.ui_language {
        UiLanguage::English => "Settings",
        UiLanguage::Chinese => "设置",
    }
}

/// The hint under the settings.
pub fn settings_instructions(app: &App) -> (r: &'static str)
    ensures
        r@ == (match app.ui_language {
            UiLanguage::English => "Press Enter to toggle"@,
            UiLanguage::Chinese => "按 Enter 键切换"@,
        }),
{
    match app.ui_language {
        UiLanguage::English => "Press Enter to toggle",
        UiLanguage::Chinese => "按 Enter 键切换",
    }
}

/// Whether the terminal cursor is placed in the input box: not while the
/// input is being worked on or a popup covers it.
pub fn input_cursor_visible(app: &App) -> (r: bool)
    ensures
        r == (!app.processing && !app.settings_open && !app.language_selector_open),
{
    !app.processing && !app.settings_open && !app.language_selector_open
}

/// How wide the separator under the picker's search line is: the popup's
/// width less its two borders, and nothing for a popup narrower than that.
pub fn separator_width(popup_width: u16) -> (r: usize)
    ensures
        r == (if popup_width >= 2 { popup_width - 2 } else { 0 }),
{
    if popup_width >= 2 {
        (popup_width - 2) as usize
    } else {
        0
    }
}

} // verus!
