//! The message log in full, and the log row's text.
use vstd::prelude::*;
use vstd::string::StringExecFns;

use crate::popup::{
    counted_item_row, counted_item_v, popup, popup_v, push_row, text_row, text_v, Popup,
    PopupSize, Row, RowView,
};
use crate::text::{decimal, push_decimal};
use crate::tint::{message_color, spec_message_color, MessageKind, MessageSource};

verus! {

/// One folded log entry: its line, how many repeats it stands for, and the
/// engine's classification of it.
#[derive(Debug)]
pub struct LogEntry {
    pub text: String,
    pub repeats: u32,
    pub kind: MessageKind,
    pub source: MessageSource,
}

pub open spec fn entry_rows(entries: Seq<LogEntry>, selected: usize) -> Seq<RowView> {
    Seq::new(
        entries.len(),
        |i: int|
            counted_item_v(
                entries[i].text@,
                entries[i].repeats,
                i == selected,
                spec_message_color(entries[i].kind),
            ),
    )
}

pub open spec fn spec_history_rows(entries: Seq<LogEntry>, selected: usize) -> Seq<RowView> {
    if entries.len() == 0 {
        seq![text_v("Nothing has happened yet."@)]
    } else {
        entry_rows(entries, selected)
    }
}

/// The scrollable body of the history screen: one row per folded entry,
/// oldest first, each in its kind's colour with its repeat count in the
/// suffix. The highlight is the scroll position, so the row count is the
/// entry count.
pub fn history_rows(entries: &[LogEntry], selected: usize) -> (rows: Vec<Row>)
    ensures
        rows.deep_view() == spec_history_rows(entries@, selected),
{
    let mut rows: Vec<Row> = Vec::new();
    if entries.len() == 0 {
        push_row(&mut rows, text_row("Nothing has happened yet."));
        assert(rows.deep_view() =~= spec_history_rows(entries@, selected));
        return rows;
    }
    let mut i: usize = 0;
    while i < entries.len()
        invariant
            i <= entries@.len(),
            rows.deep_view() =~= entry_rows(entries@, selected).subrange(0, i as int),
        decreases entries@.len() - i,
    {
        let e = &entries[i];
        push_row(
            &mut rows,
            counted_item_row(e.text.as_str(), e.repeats, i == selected, message_color(e.kind)),
        );
        i = i + 1;
    }
    assert(entry_rows(entries@, selected).subrange(0, entries@.len() as int) =~= entry_rows(
        entries@,
        selected,
    ));
    rows
}

/// The history screen: the folded log, then a footer stating its limits —
/// how many lines the engine keeps, that repeats are folded, and that a
/// finished intrusion keeps only its results.
pub fn draw_history(entries: &[LogEntry], log_cap: u32, selected: usize) -> (p: Popup)
    ensures
        p@ == popup_v(
            "History"@,
            PopupSize::Large,
            spec_history_rows(entries@, selected) + seq![
                text_v(""@),
                text_v(
                    "The last "@ + decimal(log_cap as nat)
                        + " lines, repeats folded. A finished intrusion keeps its results, not its blow-by-blow."@,
                ),
                text_v("Up/Down to scroll, Esc to close."@),
            ],
        ),
{
    let mut rows = history_rows(entries, selected);
    push_row(&mut rows, text_row(""));
    let mut footer = String::from_str("The last ");
    push_decimal(&mut footer, log_cap as u64);
    footer.append(
        " lines, repeats folded. A finished intrusion keeps its results, not its blow-by-blow.",
    );
    push_row(&mut rows, Row::Text(footer));
    push_row(&mut rows, text_row("Up/Down to scroll, Esc to close."));
    popup("History", PopupSize::Large, rows)
}

} // verus!
