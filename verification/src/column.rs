//! The info column's shell: the tab row, and the collapsed bars of the
//! closed tabs. A closed pane must never hide a condition that needs the
//! player, so each tab wears a mark for the first such condition routed to
//! it.
use vstd::prelude::*;
use vstd::string::StringExecFns;

use crate::info::InfoTab;
use crate::palette::{rgb, spec_rgb, Rgb, ATTENTION, EMPHASIS, FAINT, LABEL, PANE_TITLE, THREAT};
use crate::strip::{piece, piece_v, push_piece, Ink, Piece, PieceView};
use crate::text::{decimal, push_decimal};

verus! {

/// A condition that needs the player.
#[derive(Clone, Copy, Debug, PartialEq, Eq, Structural)]
pub enum AttentionKind {
    StructureDamaged,
    IdleStructures,
    PerkPoints,
    RosterFull,
}

/// One condition, most urgent first in the list the engine hands over.
#[derive(Debug)]
pub struct AttentionRow {
    pub kind: AttentionKind,
    pub text: String,
    /// The key that opens the screen dealing with it.
    pub key: char,
    /// Hostile rather than merely pressing.
    pub threat: bool,
}

pub open spec fn spec_tab_of(kind: AttentionKind) -> InfoTab {
    match kind {
        AttentionKind::StructureDamaged | AttentionKind::IdleStructures => InfoTab::Base,
        AttentionKind::PerkPoints | AttentionKind::RosterFull => InfoTab::Crew,
    }
}

/// Which pane a condition belongs to. Nothing routes to the pack, which has
/// nothing to ask for.
pub fn tab_of(kind: AttentionKind) -> (tab: InfoTab)
    ensures
        tab == spec_tab_of(kind),
{
    match kind {
        AttentionKind::StructureDamaged | AttentionKind::IdleStructures => InfoTab::Base,
        AttentionKind::PerkPoints | AttentionKind::RosterFull => InfoTab::Crew,
    }
}

/// The first condition routed to `tab`, by its place in the list.
pub open spec fn first_for(rows: Seq<AttentionRow>, tab: InfoTab) -> Option<int>
    decreases rows.len(),
{
    if rows.len() == 0 {
        None
    } else if spec_tab_of(rows[0].kind) == tab {
        Some(0)
    } else {
        match first_for(rows.drop_first(), tab) {
            Some(i) => Some(i + 1),
            None => None,
        }
    }
}

/// `first_for` names the first condition routed to `tab`, or says there is
/// none.
pub proof fn first_for_is_the_first(rows: Seq<AttentionRow>, tab: InfoTab)
    ensures
        match first_for(rows, tab) {
            Some(i) => {
                &&& 0 <= i < rows.len()
                &&& spec_tab_of(rows[i].kind) == tab
                &&& forall|j: int| 0 <= j < i ==> spec_tab_of(#[trigger] rows[j].kind) != tab
            },
            None => forall|j: int| 0 <= j < rows.len() ==> spec_tab_of(#[trigger] rows[j].kind) != tab,
        },
    decreases rows.len(),
{
    if rows.len() > 0 && spec_tab_of(rows[0].kind) != tab {
        first_for_is_the_first(rows.drop_first(), tab);
        let rest = rows.drop_first();
        match first_for(rest, tab) {
            Some(i) => {
                assert forall|j: int| 0 <= j < i + 1 implies spec_tab_of(#[trigger] rows[j].kind)
                    != tab by {
                    if j > 0 {
                        assert(rows[j] == rest[j - 1]);
                    }
                }
                assert(rows[i + 1] == rest[i]);
            },
            None => {
                assert forall|j: int| 0 <= j < rows.len() implies spec_tab_of(
                    #[trigger] rows[j].kind,
                ) != tab by {
                    if j > 0 {
                        assert(rows[j] == rest[j - 1]);
                    }
                }
            },
        }
    }
}

/// The leading condition a tab wears a mark for, if any: the first one
/// routed to it, since the list is already most urgent first.
pub fn leading(attention: &[AttentionRow], tab: InfoTab) -> (out: Option<usize>)
    ensures
        match out {
            Some(i) => i < attention@.len() && first_for(attention@, tab) == Some(i as int),
            None => first_for(attention@, tab) is None,
        },
{
    proof {
        first_for_is_the_first(attention@, tab);
    }
    let mut i: usize = 0;
    while i < attention.len()
        invariant
            i <= attention@.len(),
            forall|j: int| 0 <= j < i ==> spec_tab_of(#[trigger] attention@[j].kind) != tab,
            match first_for(attention@, tab) {
                Some(k) => {
                    &&& 0 <= k < attention@.len()
                    &&& spec_tab_of(attention@[k].kind) == tab
                    &&& forall|j: int| 0 <= j < k ==> spec_tab_of(#[trigger] attention@[j].kind) != tab
                },
                None => forall|j: int|
                    0 <= j < attention@.len() ==> spec_tab_of(#[trigger] attention@[j].kind) != tab,
            },
        decreases attention@.len() - i,
    {
        if tab_of(attention[i].kind) == tab {
            return Some(i);
        }
        i = i + 1;
    }
    None
}

/// A condition's mark colour: THREAT for a hostile one, ATTENTION otherwise.
pub open spec fn mark_hex(row: AttentionRow) -> u32 {
    if row.threat {
        THREAT
    } else {
        ATTENTION
    }
}

/// A condition's mark colour, as drawn.
pub fn mark_color(row: &AttentionRow) -> (out: Rgb)
    ensures
        out == spec_rgb(mark_hex(*row)),
{
    if row.threat {
        rgb(THREAT)
    } else {
        rgb(ATTENTION)
    }
}

pub open spec fn spec_tab_label(tab: InfoTab) -> Seq<char> {
    match tab {
        InfoTab::Base => "BASE"@,
        InfoTab::Crew => "CREW"@,
        InfoTab::Pack => "PACK"@,
        InfoTab::Contracts => "CONTRACTS"@,
    }
}

pub fn tab_label(tab: InfoTab) -> (out: &'static str)
    ensures
        out@ == spec_tab_label(tab),
{
    match tab {
        InfoTab::Base => "BASE",
        InfoTab::Crew => "CREW",
        InfoTab::Pack => "PACK",
        InfoTab::Contracts => "CONTRACTS",
    }
}

/// The tabs, in the order the row and the number keys list them.
pub open spec fn all_tabs() -> Seq<InfoTab> {
    seq![InfoTab::Base, InfoTab::Crew, InfoTab::Pack, InfoTab::Contracts]
}

/// One tab's cell on the row: its number, its label (bold in the title
/// colour when open), and `!` in its leading condition's colour, or a calm
/// dot.
pub open spec fn tab_cell(i: nat, tab: InfoTab, open: InfoTab, rows: Seq<AttentionRow>) -> Seq<
    PieceView,
> {
    (if i > 0 {
        seq![piece_v("   "@, FAINT, false)]
    } else {
        Seq::empty()
    }) + seq![
        piece_v(decimal(i + 1) + " "@, EMPHASIS, false),
        piece_v(
            spec_tab_label(tab),
            if tab == open {
                PANE_TITLE
            } else {
                LABEL
            },
            tab == open,
        ),
    ] + match first_for(rows, tab) {
        Some(k) => seq![piece_v(" !"@, mark_hex(rows[k]), true)],
        None => seq![piece_v(" \u{b7}"@, LABEL, false)],
    }
}

pub open spec fn tab_cells(n: nat, open: InfoTab, rows: Seq<AttentionRow>) -> Seq<PieceView>
    decreases n,
{
    if n == 0 {
        Seq::empty()
    } else {
        tab_cells((n - 1) as nat, open, rows) + tab_cell(
            (n - 1) as nat,
            all_tabs()[n - 1],
            open,
            rows,
        )
    }
}

/// The tab row: every tab's cell, in order.
pub open spec fn spec_tab_row(open: InfoTab, rows: Seq<AttentionRow>) -> Seq<PieceView> {
    tab_cells(4, open, rows)
}

fn mark_piece(row: &AttentionRow, text: String, bold: bool) -> (p: Piece)
    ensures
        p@ == piece_v(text@, mark_hex(*row), bold),
{
    Piece { text, color: Ink::Hud(mark_color(row)), bold }
}

fn push_tab_cell(
    pieces: &mut Vec<Piece>,
    i: usize,
    tab: InfoTab,
    open: InfoTab,
    attention: &[AttentionRow],
)
    requires
        i < 4,
    ensures
        final(pieces).deep_view() == old(pieces).deep_view() + tab_cell(
            i as nat,
            tab,
            open,
            attention@,
        ),
{
    let ghost start = pieces.deep_view();
    if i > 0 {
        push_piece(pieces, piece(String::from_str("   "), FAINT, false));
    }
    let mut number = String::new();
    push_decimal(&mut number, i as u64 + 1);
    number.append(" ");
    push_piece(pieces, piece(number, EMPHASIS, false));
    let is_open = tab == open;
    push_piece(
        pieces,
        piece(String::from_str(tab_label(tab)), if is_open { PANE_TITLE } else { LABEL }, is_open),
    );
    match leading(attention, tab) {
        Some(k) => push_piece(pieces, mark_piece(&attention[k], String::from_str(" !"), true)),
        None => push_piece(pieces, piece(String::from_str(" \u{b7}"), LABEL, false)),
    }
    assert(pieces.deep_view() =~= start + tab_cell(i as nat, tab, open, attention@));
}

/// The tab row's pieces: each tab's number and label, the open one bold in
/// the title colour, and the mark of its leading condition.
pub fn draw_tab_row(open: InfoTab, attention: &[AttentionRow]) -> (out: Vec<Piece>)
    ensures
        out.deep_view() == spec_tab_row(open, attention@),
{
    let mut out: Vec<Piece> = Vec::new();
    assert(out.deep_view() =~= tab_cells(0, open, attention@));
    push_tab_cell(&mut out, 0, InfoTab::Base, open, attention);
    assert(out.deep_view() =~= tab_cells(1, open, attention@));
    push_tab_cell(&mut out, 1, InfoTab::Crew, open, attention);
    assert(out.deep_view() =~= tab_cells(2, open, attention@));
    push_tab_cell(&mut out, 2, InfoTab::Pack, open, attention);
    assert(out.deep_view() =~= tab_cells(3, open, attention@));
    push_tab_cell(&mut out, 3, InfoTab::Contracts, open, attention);
    assert(out.deep_view() =~= tab_cells(4, open, attention@));
    out
}

/// A closed tab's collapsed bar: its label, then `!` and its leading
/// condition in that condition's colour, or a calm dot and `nominal`.
pub open spec fn spec_collapsed_bar(tab: InfoTab, rows: Seq<AttentionRow>) -> Seq<PieceView> {
    match first_for(rows, tab) {
        Some(k) => seq![
            piece_v(spec_tab_label(tab) + " "@, LABEL, false),
            piece_v("!"@, mark_hex(rows[k]), true),
            piece_v(" "@, mark_hex(rows[k]), false),
            piece_v(rows[k].text@, mark_hex(rows[k]), false),
        ],
        None => seq![
            piece_v(spec_tab_label(tab) + " "@, LABEL, false),
            piece_v("\u{b7}"@, FAINT, true),
            piece_v(" "@, FAINT, false),
            piece_v("nominal"@, FAINT, false),
        ],
    }
}

pub fn draw_collapsed_bar(tab: InfoTab, attention: &[AttentionRow]) -> (out: Vec<Piece>)
    ensures
        out.deep_view() == spec_collapsed_bar(tab, attention@),
{
    let mut out: Vec<Piece> = Vec::new();
    let mut name = String::from_str(tab_label(tab));
    name.append(" ");
    push_piece(&mut out, piece(name, LABEL, false));
    match leading(attention, tab) {
        Some(k) => {
            let row = &attention[k];
            push_piece(&mut out, mark_piece(row, String::from_str("!"), true));
            push_piece(&mut out, mark_piece(row, String::from_str(" "), false));
            push_piece(&mut out, mark_piece(row, row.text.clone(), false));
        },
        None => {
            push_piece(&mut out, piece(String::from_str("\u{b7}"), FAINT, true));
            push_piece(&mut out, piece(String::from_str(" "), FAINT, false));
            push_piece(&mut out, piece(String::from_str("nominal"), FAINT, false));
        },
    }
    assert(out.deep_view() =~= spec_collapsed_bar(tab, attention@));
    out
}

/// A tab wears `!` exactly when some condition is routed to it.
pub proof fn a_closed_tab_never_hides_a_condition(tab: InfoTab, rows: Seq<AttentionRow>)
    ensures
        (first_for(rows, tab) is Some) <==> (exists|j: int|
            0 <= j < rows.len() && spec_tab_of(#[trigger] rows[j].kind) == tab),
{
    first_for_is_the_first(rows, tab);
    if let Some(i) = first_for(rows, tab) {
        assert(spec_tab_of(rows[i].kind) == tab);
    }
}

} // verus!
