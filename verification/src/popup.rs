//! What a popup screen says: a title, a size, and its rows, as the frontend
//! then draws them into a centred panel.
use vstd::prelude::*;

use crate::palette::GlyphColor;
use crate::tint::Tint;

verus! {

/// How much of the window a popup claims.
#[derive(Clone, Copy, Debug, PartialEq, Eq, Structural)]
pub enum PopupSize {
    Small,
    Large,
}

/// The colour an icon glyph is drawn in: a creature's own content hue, or
/// the body colour for the blank slot a vanished subject leaves.
#[derive(Clone, Copy, Debug, PartialEq, Eq, Structural)]
pub enum IconInk {
    Glyph(GlyphColor),
    Body,
}

/// One row of a popup.
#[derive(Debug)]
pub enum Row {
    /// Plain body text.
    Text(String),
    /// Text in a colour of its own.
    TextColored(String, Tint),
    /// A selectable row: what the highlight and the scroll stand on.
    Item {
        text: String,
        selected: bool,
        bold: bool,
        color: Tint,
        /// An annotation drawn apart from the row's own text: a repeat count,
        /// the ticks a buff has left.
        suffix: Option<String>,
        /// A glyph drawn before the text, in its own colour.
        icon: Option<(char, IconInk)>,
    },
}

/// A row as a plain value.
#[verifier::ext_equal]
pub enum RowView {
    Text(Seq<char>),
    TextColored(Seq<char>, Tint),
    Item {
        text: Seq<char>,
        selected: bool,
        bold: bool,
        color: Tint,
        suffix: Option<Seq<char>>,
        icon: Option<(char, IconInk)>,
    },
}

impl View for Row {
    type V = RowView;

    open spec fn view(&self) -> RowView {
        match self {
            Row::Text(t) => RowView::Text(t@),
            Row::TextColored(t, c) => RowView::TextColored(t@, *c),
            Row::Item { text, selected, bold, color, suffix, icon } => RowView::Item {
                text: text@,
                selected: *selected,
                bold: *bold,
                color: *color,
                suffix: match suffix {
                    Some(s) => Some(s@),
                    None => None,
                },
                icon: *icon,
            },
        }
    }
}

impl DeepView for Row {
    type V = RowView;

    open spec fn deep_view(&self) -> RowView {
        self.view()
    }
}

/// A plain text row.
pub open spec fn text_v(t: Seq<char>) -> RowView {
    RowView::Text(t)
}

/// A selectable row in the body colour.
pub open spec fn item_v(t: Seq<char>, selected: bool) -> RowView {
    colored_item_v(t, selected, Tint::Text)
}

/// A selectable row in a colour of its own.
pub open spec fn colored_item_v(t: Seq<char>, selected: bool, color: Tint) -> RowView {
    RowView::Item { text: t, selected, bold: false, color, suffix: None, icon: None }
}

/// A selectable row for something that cannot be taken right now: still
/// selectable, drawn dim.
pub open spec fn spent_item_v(t: Seq<char>, selected: bool) -> RowView {
    colored_item_v(t, selected, Tint::TextDim)
}

/// The suffix a row standing for `repeats` folded lines carries.
pub open spec fn repeat_suffix(repeats: u32) -> Option<Seq<char>> {
    if repeats > 1 {
        Some("\u{d7}"@ + crate::text::decimal(repeats as nat))
    } else {
        None
    }
}

/// A selectable row standing for `repeats` folded lines.
pub open spec fn counted_item_v(t: Seq<char>, repeats: u32, selected: bool, color: Tint) -> RowView {
    RowView::Item { text: t, selected, bold: false, color, suffix: repeat_suffix(repeats), icon: None }
}

pub fn text_row(t: &str) -> (row: Row)
    ensures
        row@ == text_v(t@),
{
    Row::Text(String::from_str(t))
}

pub fn colored_text_row(t: &str, color: Tint) -> (row: Row)
    ensures
        row@ == RowView::TextColored(t@, color),
{
    Row::TextColored(String::from_str(t), color)
}

pub fn item_row(t: String, selected: bool) -> (row: Row)
    ensures
        row@ == item_v(t@, selected),
{
    Row::Item { text: t, selected, bold: false, color: Tint::Text, suffix: None, icon: None }
}

pub fn colored_item_row(t: String, selected: bool, color: Tint) -> (row: Row)
    ensures
        row@ == colored_item_v(t@, selected, color),
{
    Row::Item { text: t, selected, bold: false, color, suffix: None, icon: None }
}

pub fn spent_item_row(t: String, selected: bool) -> (row: Row)
    ensures
        row@ == spent_item_v(t@, selected),
{
    Row::Item { text: t, selected, bold: false, color: Tint::TextDim, suffix: None, icon: None }
}

/// A selectable row standing for `repeats` folded lines: the `×N` rides in
/// the suffix, and a row standing for one line carries none.
pub fn counted_item_row(t: &str, repeats: u32, selected: bool, color: Tint) -> (row: Row)
    ensures
        row@ == counted_item_v(t@, repeats, selected, color),
{
    let suffix = if repeats > 1 {
        let mut s = String::from_str("\u{d7}");
        crate::text::push_decimal(&mut s, repeats as u64);
        Some(s)
    } else {
        None
    };
    Row::Item { text: String::from_str(t), selected, bold: false, color, suffix, icon: None }
}

/// `row` with `glyph` drawn before it in `ink`. Only a selectable row
/// carries an icon; any other row is left as it is.
pub open spec fn with_icon_v(row: RowView, glyph: char, ink: IconInk) -> RowView {
    match row {
        RowView::Item { text, selected, bold, color, suffix, icon } => RowView::Item {
            text,
            selected,
            bold,
            color,
            suffix,
            icon: Some((glyph, ink)),
        },
        other => other,
    }
}

pub fn with_icon(row: Row, glyph: char, ink: IconInk) -> (out: Row)
    ensures
        out@ == with_icon_v(row@, glyph, ink),
{
    match row {
        Row::Item { text, selected, bold, color, suffix, icon: _ } => Row::Item {
            text,
            selected,
            bold,
            color,
            suffix,
            icon: Some((glyph, ink)),
        },
        other => other,
    }
}

/// A whole popup: its title, its size, and its rows top to bottom.
#[derive(Debug)]
pub struct Popup {
    pub title: String,
    pub size: PopupSize,
    pub rows: Vec<Row>,
}

#[verifier::ext_equal]
pub struct PopupView {
    pub title: Seq<char>,
    pub size: PopupSize,
    pub rows: Seq<RowView>,
}

impl View for Popup {
    type V = PopupView;

    open spec fn view(&self) -> PopupView {
        PopupView { title: self.title@, size: self.size, rows: self.rows.deep_view() }
    }
}

pub open spec fn popup_v(title: Seq<char>, size: PopupSize, rows: Seq<RowView>) -> PopupView {
    PopupView { title, size, rows }
}

pub fn popup(title: &str, size: PopupSize, rows: Vec<Row>) -> (p: Popup)
    ensures
        p@ == popup_v(title@, size, rows.deep_view()),
{
    Popup { title: String::from_str(title), size, rows }
}

/// Appends `row`, as its view says.
pub fn push_row(rows: &mut Vec<Row>, row: Row)
    ensures
        final(rows).deep_view() == old(rows).deep_view().push(row@),
{
    let ghost before = rows.deep_view();
    rows.push(row);
    assert(rows.deep_view() =~= before.push(row@));
}

} // verus!
