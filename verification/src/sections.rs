//! Capped lists: a manifest box's rows and a buff panel's rows, trimmed to
//! what the screen has room for with the last line spent on an honest count
//! of what was hidden. A silent truncation would read as "that's all of
//! them".
use vstd::prelude::*;
use vstd::string::StringExecFns;

use crate::popup::{push_row, Row, RowView};
use crate::text::{decimal, push_decimal};
use crate::tint::Tint;

verus! {

/// The most rows any one manifest box draws.
pub const MAX_SECTION_ROWS: usize = 6;

/// The AFFINITIES box's own cap, tighter than `MAX_SECTION_ROWS`.
pub const MAX_AFFINITY_ROWS: usize = 2;

/// The full-width MOVES band's own cap.
pub const MAX_BAND_ROWS: usize = 4;

/// One line of a manifest box.
#[derive(Debug)]
pub enum SectionRow {
    /// A label on the left, its value right-aligned against the box's edge.
    Stat(String, String),
    /// One run of free text across the box.
    Note(String),
}

#[verifier::ext_equal]
pub enum SectionRowView {
    Stat(Seq<char>, Seq<char>),
    Note(Seq<char>),
}

impl View for SectionRow {
    type V = SectionRowView;

    open spec fn view(&self) -> SectionRowView {
        match self {
            SectionRow::Stat(l, v) => SectionRowView::Stat(l@, v@),
            SectionRow::Note(t) => SectionRowView::Note(t@),
        }
    }
}

impl DeepView for SectionRow {
    type V = SectionRowView;

    open spec fn deep_view(&self) -> SectionRowView {
        self.view()
    }
}

/// A label/value row.
pub fn stat(label: String, value: String) -> (row: SectionRow)
    ensures
        row@ == SectionRowView::Stat(label@, value@),
{
    SectionRow::Stat(label, value)
}

/// `+N more`.
pub open spec fn more(hidden: nat) -> Seq<char> {
    "+"@ + decimal(hidden) + " more"@
}

pub(crate) fn more_string(hidden: usize) -> (out: String)
    ensures
        out@ == more(hidden as nat),
{
    let mut out = String::from_str("+");
    push_decimal(&mut out, hidden as u64);
    out.append(" more");
    out
}

/// `rows` trimmed to `cap`: untouched when it fits, otherwise its first
/// `cap - 1` rows and a note counting the rest.
pub open spec fn capped_section(rows: Seq<SectionRowView>, cap: nat) -> Seq<SectionRowView> {
    if rows.len() <= cap {
        rows
    } else {
        rows.take(cap - 1).push(SectionRowView::Note(more((rows.len() - (cap - 1)) as nat)))
    }
}

/// Trims `rows` to `cap`, spending the last line on a count of what was
/// dropped. A cap of at least one is what leaves room for that line.
pub fn section_rows_capped(rows: Vec<SectionRow>, cap: usize) -> (out: Vec<SectionRow>)
    requires
        cap >= 1,
    ensures
        out.deep_view() == capped_section(rows.deep_view(), cap as nat),
{
    if rows.len() <= cap {
        return rows;
    }
    let mut rows = rows;
    let ghost all = rows.deep_view();
    let hidden = rows.len() - (cap - 1);
    rows.truncate(cap - 1);
    assert(rows.deep_view() =~= all.take(cap - 1));
    let note = SectionRow::Note(more_string(hidden));
    let ghost kept = rows.deep_view();
    rows.push(note);
    assert(rows.deep_view() =~= kept.push(note@));
    rows
}

/// Trims `rows` to `MAX_SECTION_ROWS`; see `section_rows_capped`.
pub fn section_rows(rows: Vec<SectionRow>) -> (out: Vec<SectionRow>)
    ensures
        out.deep_view() == capped_section(rows.deep_view(), MAX_SECTION_ROWS as nat),
{
    section_rows_capped(rows, MAX_SECTION_ROWS)
}

/// A capped box never draws more than its cap, draws a short list whole,
/// and accounts for every row it was given: the rows it keeps and the count
/// its note states add up to the rows it was handed.
pub proof fn capped_sections_account_for_every_row(rows: Seq<SectionRowView>, cap: nat)
    requires
        cap >= 1,
    ensures
        capped_section(rows, cap).len() == if rows.len() <= cap {
            rows.len()
        } else {
            cap
        },
        rows.len() <= cap ==> capped_section(rows, cap) == rows,
        rows.len() > cap ==> {
            &&& forall|i: int| 0 <= i < cap - 1 ==> #[trigger] capped_section(rows, cap)[i] == rows[i]
            &&& capped_section(rows, cap)[cap - 1] == SectionRowView::Note(
                more((rows.len() - (cap - 1)) as nat),
            )
            &&& (cap - 1) + (rows.len() - (cap - 1)) == rows.len()
        },
{
}

/// `rows` capped at `limit` rows in all: untouched when it fits, otherwise
/// its first `limit - 1` rows (none at a limit of zero) and a dim count of
/// the rest.
pub open spec fn capped_rows(rows: Seq<RowView>, limit: nat) -> Seq<RowView> {
    if rows.len() <= limit {
        rows
    } else {
        let keep: nat = if limit >= 1 {
            (limit - 1) as nat
        } else {
            0
        };
        rows.take(keep as int).push(
            RowView::TextColored(more((rows.len() - keep) as nat), Tint::TextDim),
        )
    }
}

/// Caps `rows` at `limit` total rows, trading the last slot for a `+N more`
/// indicator when the list doesn't fit. A list that already fits is returned
/// untouched.
pub fn cap_rows(rows: Vec<Row>, limit: usize) -> (out: Vec<Row>)
    ensures
        out.deep_view() == capped_rows(rows.deep_view(), limit as nat),
{
    if rows.len() <= limit {
        return rows;
    }
    let keep = if limit >= 1 {
        limit - 1
    } else {
        0
    };
    let hidden = rows.len() - keep;
    let mut rows = rows;
    let ghost all = rows.deep_view();
    rows.truncate(keep);
    assert(rows.deep_view() =~= all.take(keep as int));
    push_row(&mut rows, Row::TextColored(more_string(hidden), Tint::TextDim));
    rows
}

} // verus!
