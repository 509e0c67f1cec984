use vstd::prelude::*;
use crate::input::Input;

verus! {

/// The rows of the colonist list that fit on screen.
#[derive(Debug, Clone, Copy, PartialEq, Eq)]
pub struct ListWindow {
    /// The highlighted row, clamped to the list.
    pub selected: usize,
    /// The first row shown.
    pub offset: usize,
    /// One past the last row shown.
    pub end: usize,
}

/// Which rows of a list of `total` rows show in `height` lines, keeping the
/// selection in the middle where the list allows.
pub open spec fn spec_list_window(total: usize, height: usize, selected: usize) -> ListWindow {
    let sel = if selected < total { selected } else { (total - 1) as usize };
    let offset = if total <= height {
        0usize
    } else {
        let centred = if sel >= height / 2 { (sel - height / 2) as usize } else { 0usize };
        if centred < total - height { centred } else { (total - height) as usize }
    };
    let end = if offset + height < total { (offset + height) as usize } else { total };
    ListWindow { selected: sel, offset, end }
}

pub fn list_window(total: usize, height: usize, selected: usize) -> (w: ListWindow)
    requires
        total > 0,
        height > 0,
    ensures
        w == spec_list_window(total, height, selected),
        w.offset <= w.selected < w.end <= total,
        w.end - w.offset == if total < height { total } else { height },
{
    let sel = if selected < total { selected } else { total - 1 };
    let offset = if total <= height {
        0
    } else {
        let centred = if sel >= height / 2 { sel - height / 2 } else { 0 };
        if centred < total - height { centred } else { total - height }
    };
    let end = if total <= height { total } else { offset + height };
    ListWindow { selected: sel, offset, end }
}

/// Narrowest a popup is drawn.
pub const POPUP_MIN_WIDTH: u16 = 44;

/// Widest a popup is drawn.
pub const POPUP_MAX_WIDTH: u16 = 76;

/// Lines `,` and `.` scroll a popup by.
pub const POPUP_PAGE: usize = 5;

/// Size and scroll position of a popup.
#[derive(Debug, Clone, Copy, PartialEq, Eq)]
pub struct PopupLayout {
    pub width: u16,
    pub rows: u16,
    pub scrollable: bool,
    pub offset: usize,
}

/// A popup of `total` lines, the widest `content_width` cells wide, in an
/// area of `area_width` by `area_height`, scrolled to `scroll`: six cells
/// wider than its text but within the popup bounds and four cells short of
/// the area; as many rows as lines but six short of the area's height (at
/// least one); scrolled no further than its last page.
pub open spec fn spec_popup_layout(total: u16, content_width: u16, area_width: u16, area_height: u16, scroll: usize) -> PopupLayout {
    let wanted = content_width + 6;
    let clamped = if wanted < POPUP_MIN_WIDTH { POPUP_MIN_WIDTH as int } else if wanted > POPUP_MAX_WIDTH { POPUP_MAX_WIDTH as int } else { wanted };
    let room = if area_width >= 4 { area_width - 4 } else { 0 };
    let width = if clamped < room { clamped } else { room };
    let max_rows = if area_height >= 7 { area_height - 6 } else { 1 };
    let rows = if total < 1 { 1 } else if total > max_rows { max_rows } else { total as int };
    let scrollable = total > rows;
    let offset = if scrollable { if scroll < total - rows { scroll as int } else { total - rows } } else { 0 };
    PopupLayout { width: width as u16, rows: rows as u16, scrollable, offset: offset as usize }
}

pub fn popup_layout(total: u16, content_width: u16, area_width: u16, area_height: u16, scroll: usize) -> (l: PopupLayout)
    requires
        content_width + 6 <= u16::MAX,
    ensures
        l == spec_popup_layout(total, content_width, area_width, area_height, scroll),
        l.rows >= 1,
        l.width <= POPUP_MAX_WIDTH,
        l.scrollable ==> l.offset + l.rows <= total,
{
    let wanted = content_width + 6;
    let clamped = if wanted < POPUP_MIN_WIDTH {
        POPUP_MIN_WIDTH
    } else if wanted > POPUP_MAX_WIDTH {
        POPUP_MAX_WIDTH
    } else {
        wanted
    };
    let room = if area_width >= 4 { area_width - 4 } else { 0 };
    let width = if clamped < room { clamped } else { room };
    let max_rows = if area_height >= 7 { area_height - 6 } else { 1 };
    let rows = if total < 1 { 1 } else if total > max_rows { max_rows } else { total };
    let scrollable = total > rows;
    let offset: usize = if scrollable {
        let last_page = (total - rows) as usize;
        if scroll < last_page { scroll } else { last_page }
    } else {
        0
    };
    PopupLayout { width, rows, scrollable, offset }
}

/// The scroll position of a popup of `line_count` lines after a key; `None`
/// when the key is not a scroll key, which closes the popup.
pub open spec fn spec_popup_scroll(scroll: usize, line_count: usize, input: Input) -> Option<usize> {
    let max = if line_count > 0 { (line_count - 1) as usize } else { 0usize };
    match input {
        Input::ArrowUp => Some(if scroll > 0 { (scroll - 1) as usize } else { 0 }),
        Input::ArrowDown => Some(if scroll + 1 < max { (scroll + 1) as usize } else { max }),
        Input::Char(',') => Some(if scroll >= POPUP_PAGE { (scroll - POPUP_PAGE) as usize } else { 0 }),
        Input::Char('.') => Some(if scroll + POPUP_PAGE < max { (scroll + POPUP_PAGE) as usize } else { max }),
        Input::Home => Some(0),
        Input::End => Some(max),
        _ => None,
    }
}

pub fn popup_scroll(scroll: usize, line_count: usize, input: Input) -> (s: Option<usize>)
    requires
        scroll <= usize::MAX - POPUP_PAGE,
    ensures
        s == spec_popup_scroll(scroll, line_count, input),
{
    let max = if line_count > 0 { line_count - 1 } else { 0 };
    match input {
        Input::ArrowUp => Some(if scroll > 0 { scroll - 1 } else { 0 }),
        Input::ArrowDown => Some(if scroll + 1 < max { scroll + 1 } else { max }),
        Input::Char(',') => Some(if scroll >= POPUP_PAGE { scroll - POPUP_PAGE } else { 0 }),
        Input::Char('.') => Some(if scroll + POPUP_PAGE < max { scroll + POPUP_PAGE } else { max }),
        Input::Home => Some(0),
        Input::End => Some(max),
        _ => None,
    }
}

/// Scrolling down never passes the last line, and from anywhere within the
/// lines no scroll key leaves them.
pub proof fn lemma_popup_scroll_bounded(scroll: usize, line_count: usize, input: Input)
    requires
        scroll <= usize::MAX - POPUP_PAGE,
        line_count == 0 || scroll < line_count,
    ensures
        spec_popup_scroll(scroll, line_count, input) matches Some(s) ==> (line_count == 0 || s < line_count),
{
}

/// A popup's shape: its width is its text's width plus six, kept between
/// the popup bounds and at most four cells short of the area; it shows as
/// many rows as it has lines (at least one), at most six short of the area's
/// height; it scrolls exactly when it has more lines than rows, and then its
/// first shown line is the scroll position held back to the last page,
/// min(scroll, total - rows); a popup that fits starts at its first line.
pub proof fn lemma_popup_shape(total: u16, content_width: u16, area_width: u16, area_height: u16, scroll: usize)
    ensures
        ({
            let l = spec_popup_layout(total, content_width, area_width, area_height, scroll);
            let wanted = content_width + 6;
            let room = area_width - 4;
            let max_rows = if area_height > 7 { area_height - 6 } else { 1 };
            &&& l.width <= wanted || l.width == POPUP_MIN_WIDTH || l.width == room
            &&& l.width <= POPUP_MAX_WIDTH && (l.width <= room || l.width == 0)
            &&& (POPUP_MIN_WIDTH <= wanted <= POPUP_MAX_WIDTH && wanted <= room) ==> l.width == wanted
            &&& 1 <= l.rows <= max_rows
            &&& l.rows == total || (total == 0 && l.rows == 1) || (total > max_rows && l.rows == max_rows)
            &&& l.scrollable <==> total > l.rows
            &&& l.scrollable ==> l.offset == (if scroll <= total - l.rows { scroll as int } else { total - l.rows })
            &&& !l.scrollable ==> l.offset == 0
            &&& l.offset + l.rows <= total || l.offset == 0
        }),
{
}

/// The padding either side of a label of `label_len` characters centred in
/// `width` cells: the odd cell goes to the right.
pub fn centre_padding(width: usize, label_len: usize) -> (lr: (usize, usize))
    ensures
        lr.0 == (if width > label_len { (width - label_len) as int / 2 } else { 0 }),
        lr.0 + label_len + lr.1 == if width > label_len { width as int } else { label_len as int },
        lr.0 <= lr.1 <= lr.0 + 1,
{
    let pad = if width > label_len { width - label_len } else { 0 };
    (pad / 2, pad - pad / 2)
}

} // verus!
