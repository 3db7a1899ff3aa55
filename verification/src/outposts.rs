//! An outpost's own page: every figure comes out of the engine's report,
//! and this only lays it out.
use vstd::prelude::*;
use vstd::string::StringExecFns;

use crate::popup::{
    colored_text_row, item_row, item_v, popup, popup_v, push_row, text_row, text_v, Popup,
    PopupSize, Row, RowView,
};
use crate::text::{decimal, push_char, push_decimal, push_signed, signed_decimal};
use crate::tint::Tint;

verus! {

/// The growth bar's width in characters.
pub const GROWTH_BAR_WIDTH: usize = 20;

/// `n` copies of `c`.
pub open spec fn repeated(c: char, n: nat) -> Seq<char> {
    Seq::new(n, |_i: int| c)
}

/// A bracketed ASCII gauge `width` characters wide with `filled` of them
/// filled, since a popup is text rows and has no bar primitive.
pub open spec fn spec_growth_bar(filled: nat, width: nat) -> Seq<char> {
    "["@ + repeated('#', filled) + repeated('-', (width - filled) as nat) + "]"@
}

pub fn growth_bar(filled: usize, width: usize) -> (out: String)
    requires
        filled <= width,
    ensures
        out@ == spec_growth_bar(filled as nat, width as nat),
{
    let mut out = String::from_str("[");
    let ghost open = out@;
    let mut i: usize = 0;
    while i < width
        invariant
            filled <= width,
            i <= width,
            out@ =~= open + if i <= filled {
                repeated('#', i as nat)
            } else {
                repeated('#', filled as nat) + repeated('-', (i - filled) as nat)
            },
        decreases width - i,
    {
        if i < filled {
            push_char(&mut out, '#');
        } else {
            push_char(&mut out, '-');
        }
        i = i + 1;
    }
    out.append("]");
    assert(out@ =~= spec_growth_bar(filled as nat, width as nat));
    out
}

/// One posted crew member.
#[derive(Debug)]
pub struct CrewRow {
    pub name: String,
    pub species: String,
    pub level: u32,
}

/// One yield the outpost produces now.
#[derive(Debug)]
pub struct YieldRow {
    pub name: String,
    pub tier: u32,
}

/// What the engine reports of one outpost.
#[derive(Debug)]
pub struct OutpostReport {
    pub name: String,
    /// The biome's name as the engine prints it.
    pub biome: String,
    /// 0-based.
    pub tier: u32,
    pub tier_label: String,
    /// Cells of the growth bar filled, out of `GROWTH_BAR_WIDTH`.
    pub growth_filled: usize,
    pub reason: String,
    pub integrity: i64,
    pub max_integrity: i64,
    pub stock: u32,
    pub stock_cap: u32,
    pub route: Option<String>,
    pub crew: Vec<CrewRow>,
    pub yields: Vec<YieldRow>,
    pub next_tier_requirement: Option<String>,
}

/// The letter a crew row's key is: `a` for the first.
pub open spec fn crew_letter(i: int) -> char {
    (97 + i) as char
}

pub open spec fn crew_rows(crew: Seq<CrewRow>, selected: usize) -> Seq<RowView> {
    Seq::new(
        crew.len(),
        |i: int|
            item_v(
                seq![crew_letter(i)] + "  "@ + crew[i].name@ + "  "@ + crew[i].species@ + "  lv "@
                    + decimal(crew[i].level as nat),
                i == selected,
            ),
    )
}

pub open spec fn yield_rows(yields: Seq<YieldRow>) -> Seq<RowView> {
    Seq::new(
        yields.len(),
        |i: int| text_v("  "@ + yields[i].name@ + "   tier "@ + decimal(yields[i].tier as nat)),
    )
}

pub open spec fn header_line(r: OutpostReport) -> Seq<char> {
    r.name@ + " \u{b7} "@ + r.biome@ + " \u{2014} Tier "@ + decimal((r.tier + 1) as nat) + " \u{b7} "@
        + r.tier_label@
}

pub open spec fn figures_line(r: OutpostReport) -> Seq<char> {
    "Integrity "@ + signed_decimal(r.integrity as int) + "/"@ + signed_decimal(
        r.max_integrity as int,
    ) + "   Stock "@ + decimal(r.stock as nat) + "/"@ + decimal(r.stock_cap as nat) + match r.route {
        Some(line) => "   Route: "@ + line@,
        None => ""@,
    }
}

pub open spec fn crew_line(r: OutpostReport, crew_cap: u32) -> Seq<char> {
    "CREW ("@ + decimal(r.crew@.len()) + "/"@ + decimal(crew_cap as nat) + ")"@
}

/// The page's head: the header with the 1-based tier, the growth gauge and
/// its reason, integrity and stock (and the route, when there is one), and
/// the crew heading against its cap.
pub open spec fn outpost_header(r: OutpostReport, crew_cap: u32) -> Seq<RowView> {
    seq![
        RowView::TextColored(header_line(r), Tint::Cyan),
        text_v("Growth  "@ + spec_growth_bar(r.growth_filled as nat, GROWTH_BAR_WIDTH as nat)),
        text_v(r.reason@),
        text_v(figures_line(r)),
        text_v(""@),
        RowView::TextColored(crew_line(r, crew_cap), Tint::Text),
    ]
}

/// A lettered row per posted crew member, or a note that nobody is.
pub open spec fn outpost_crew(r: OutpostReport, selected: usize) -> Seq<RowView> {
    (if r.crew@.len() == 0 {
        seq![text_v("  Nobody is posted here."@)]
    } else {
        Seq::empty()
    }) + crew_rows(r.crew@, selected)
}

/// What the outpost yields now, and what its next tier requires.
pub open spec fn outpost_yields(r: OutpostReport) -> Seq<RowView> {
    seq![text_v(""@), RowView::TextColored("YIELDS NOW"@, Tint::Text)] + (if r.yields@.len() == 0 {
        seq![text_v("  Nothing yet."@)]
    } else {
        Seq::empty()
    }) + yield_rows(r.yields@) + match r.next_tier_requirement {
        Some(next) => seq![text_v("  "@ + next@)],
        None => Seq::empty(),
    }
}

/// The page's keys.
pub open spec fn outpost_footer() -> Seq<RowView> {
    seq![text_v(""@), text_v("[P] Post  [U] Recall  [R] Repair  [C] Take stock"@)]
}

/// The outpost page's rows, top to bottom.
pub open spec fn spec_outpost_page_rows(r: OutpostReport, selected: usize, crew_cap: u32) -> Seq<
    RowView,
> {
    outpost_header(r, crew_cap) + outpost_crew(r, selected) + outpost_yields(r) + outpost_footer()
}

fn header_rows(rows: &mut Vec<Row>, report: &OutpostReport, crew_cap: u32)
    requires
        report.tier < u32::MAX,
        report.growth_filled <= GROWTH_BAR_WIDTH,
    ensures
        final(rows).deep_view() == old(rows).deep_view() + outpost_header(*report, crew_cap),
{
    let ghost start = rows.deep_view();
    let mut head = String::from_str(report.name.as_str());
    head.append(" \u{b7} ");
    head.append(report.biome.as_str());
    head.append(" \u{2014} Tier ");
    push_decimal(&mut head, (report.tier + 1) as u64);
    head.append(" \u{b7} ");
    head.append(report.tier_label.as_str());
    assert(head@ =~= header_line(*report));
    let mut growth = String::from_str("Growth  ");
    growth.append(growth_bar(report.growth_filled, GROWTH_BAR_WIDTH).as_str());
    let mut figures = String::from_str("Integrity ");
    push_signed(&mut figures, report.integrity);
    figures.append("/");
    push_signed(&mut figures, report.max_integrity);
    figures.append("   Stock ");
    push_decimal(&mut figures, report.stock as u64);
    figures.append("/");
    push_decimal(&mut figures, report.stock_cap as u64);
    match &report.route {
        Some(line) => {
            figures.append("   Route: ");
            figures.append(line.as_str());
        },
        None => {
            proof {
                reveal_strlit("");
            }
        },
    }
    assert(figures@ =~= figures_line(*report));
    let mut crew = String::from_str("CREW (");
    push_decimal(&mut crew, report.crew.len() as u64);
    crew.append("/");
    push_decimal(&mut crew, crew_cap as u64);
    crew.append(")");
    assert(crew@ =~= crew_line(*report, crew_cap));
    push_row(rows, Row::TextColored(head, Tint::Cyan));
    push_row(rows, Row::Text(growth));
    push_row(rows, text_row(report.reason.as_str()));
    push_row(rows, Row::Text(figures));
    push_row(rows, text_row(""));
    push_row(rows, Row::TextColored(crew, Tint::Text));
    assert(rows.deep_view() =~= start + outpost_header(*report, crew_cap));
}

fn crew_block(rows: &mut Vec<Row>, report: &OutpostReport, selected: usize)
    requires
        report.crew@.len() <= 159,
    ensures
        final(rows).deep_view() == old(rows).deep_view() + outpost_crew(*report, selected),
{
    let ghost start = rows.deep_view();
    if report.crew.len() == 0 {
        push_row(rows, text_row("  Nobody is posted here."));
    }
    let ghost at_crew = rows.deep_view();
    let mut i: usize = 0;
    while i < report.crew.len()
        invariant
            i <= report.crew@.len() <= 159,
            rows.deep_view() =~= at_crew + crew_rows(report.crew@, selected).subrange(0, i as int),
        decreases report.crew@.len() - i,
    {
        let member = &report.crew[i];
        let letter: char = (97u8 + i as u8) as char;
        let mut s = String::new();
        push_char(&mut s, letter);
        s.append("  ");
        s.append(member.name.as_str());
        s.append("  ");
        s.append(member.species.as_str());
        s.append("  lv ");
        push_decimal(&mut s, member.level as u64);
        assert(s@ =~= seq![crew_letter(i as int)] + "  "@ + member.name@ + "  "@ + member.species@
            + "  lv "@ + decimal(member.level as nat));
        push_row(rows, item_row(s, i == selected));
        i = i + 1;
    }
    assert(crew_rows(report.crew@, selected).subrange(0, report.crew@.len() as int) =~= crew_rows(
        report.crew@,
        selected,
    ));
    assert(rows.deep_view() =~= start + outpost_crew(*report, selected));
}

fn yield_block(rows: &mut Vec<Row>, report: &OutpostReport)
    ensures
        final(rows).deep_view() == old(rows).deep_view() + outpost_yields(*report),
{
    let ghost start = rows.deep_view();
    push_row(rows, text_row(""));
    push_row(rows, colored_text_row("YIELDS NOW", Tint::Text));
    if report.yields.len() == 0 {
        push_row(rows, text_row("  Nothing yet."));
    }
    let ghost at_yields = rows.deep_view();
    let mut k: usize = 0;
    while k < report.yields.len()
        invariant
            k <= report.yields@.len(),
            rows.deep_view() =~= at_yields + yield_rows(report.yields@).subrange(0, k as int),
        decreases report.yields@.len() - k,
    {
        let y = &report.yields[k];
        let mut s = String::from_str("  ");
        s.append(y.name.as_str());
        s.append("   tier ");
        push_decimal(&mut s, y.tier as u64);
        push_row(rows, Row::Text(s));
        k = k + 1;
    }
    assert(yield_rows(report.yields@).subrange(0, report.yields@.len() as int) =~= yield_rows(
        report.yields@,
    ));
    match &report.next_tier_requirement {
        Some(next) => {
            let mut s = String::from_str("  ");
            s.append(next.as_str());
            push_row(rows, Row::Text(s));
        },
        None => {},
    }
    assert(rows.deep_view() =~= start + outpost_yields(*report));
}

/// The page's rows, out of a report alone, so a page can be measured at its
/// worst case without a game to play into it. `crew_cap` is how many a
/// crew can hold.
pub fn outpost_page_rows(report: &OutpostReport, selected: usize, crew_cap: u32) -> (rows: Vec<Row>)
    requires
        report.tier < u32::MAX,
        report.growth_filled <= GROWTH_BAR_WIDTH,
        report.crew@.len() <= 159,
    ensures
        rows.deep_view() == spec_outpost_page_rows(*report, selected, crew_cap),
{
    let mut rows: Vec<Row> = Vec::new();
    header_rows(&mut rows, report, crew_cap);
    crew_block(&mut rows, report, selected);
    yield_block(&mut rows, report);
    let ghost before = rows.deep_view();
    push_row(&mut rows, text_row(""));
    push_row(&mut rows, text_row("[P] Post  [U] Recall  [R] Repair  [C] Take stock"));
    assert(rows.deep_view() =~= before + outpost_footer());
    assert(rows.deep_view() =~= spec_outpost_page_rows(*report, selected, crew_cap));
    rows
}

/// The outpost's page, or a small note when there is nothing to report.
pub fn draw_outpost_visit(report: Option<&OutpostReport>, selected: usize, crew_cap: u32) -> (p: Popup)
    requires
        report matches Some(r) ==> r.tier < u32::MAX && r.growth_filled <= GROWTH_BAR_WIDTH
            && r.crew@.len() <= 159,
    ensures
        p@ == match report {
            None => popup_v("Outpost"@, PopupSize::Small, seq![text_v("Nothing to report."@)]),
            Some(r) => popup_v(
                "Outpost"@,
                PopupSize::Large,
                spec_outpost_page_rows(*r, selected, crew_cap),
            ),
        },
{
    match report {
        None => {
            let mut rows: Vec<Row> = Vec::new();
            push_row(&mut rows, text_row("Nothing to report."));
            popup("Outpost", PopupSize::Small, rows)
        },
        Some(r) => popup("Outpost", PopupSize::Large, outpost_page_rows(r, selected, crew_cap)),
    }
}


/// A base-staff program free to post, by its display name.
#[derive(Debug)]
pub struct PostCandidate {
    pub name: String,
}

pub open spec fn candidate_rows(cs: Seq<PostCandidate>, selected: usize) -> Seq<RowView> {
    Seq::new(cs.len(), |i: int| item_v(seq![crew_letter(i)] + "  "@ + cs[i].name@, i == selected))
}

/// The staff picker for an outpost: a letter posts one, `a` for the first.
/// A letter is `a` plus the row's place, so the list stops short of where
/// that would run past a byte.
pub fn draw_outpost_post(candidates: &[PostCandidate], selected: usize) -> (p: Popup)
    requires
        candidates@.len() <= 159,
    ensures
        p@ == popup_v(
            "Post"@,
            PopupSize::Large,
            seq![RowView::TextColored("Post to the outpost"@, Tint::Cyan)] + (if candidates@.len()
                == 0 {
                seq![text_v("Nobody on staff is free to post."@)]
            } else {
                Seq::empty()
            }) + candidate_rows(candidates@, selected),
        ),
{
    let mut rows: Vec<Row> = Vec::new();
    push_row(&mut rows, colored_text_row("Post to the outpost", Tint::Cyan));
    if candidates.len() == 0 {
        push_row(&mut rows, text_row("Nobody on staff is free to post."));
    }
    let ghost head = rows.deep_view();
    let mut i: usize = 0;
    while i < candidates.len()
        invariant
            i <= candidates@.len(),
            candidates@.len() <= 159,
            rows.deep_view() =~= head + candidate_rows(candidates@, selected).take(i as int),
        decreases candidates@.len() - i,
    {
        let letter: char = (97u8 + i as u8) as char;
        let mut s = String::new();
        push_char(&mut s, letter);
        s.append("  ");
        s.append(candidates[i].name.as_str());
        assert(s@ =~= seq![crew_letter(i as int)] + "  "@ + candidates@[i as int].name@);
        push_row(&mut rows, item_row(s, i == selected));
        i = i + 1;
    }
    assert(candidate_rows(candidates@, selected).take(candidates@.len() as int) =~= candidate_rows(
        candidates@,
        selected,
    ));
    popup("Post", PopupSize::Large, rows)
}

/// What one outpost's tile carries over the map.
#[derive(Clone, Copy, Debug, PartialEq, Eq, Structural)]
pub struct OutpostMarkParts {
    /// The outpost's glyph, dimmed when it is `Some(true)`.
    pub glyph: Option<bool>,
    /// The growth bar along the tile's bottom edge.
    pub bar: bool,
    /// The tier pips in the tile's top-right corner.
    pub pips: bool,
}

/// What an outpost's tile shows, given whether the outpost is dark and what
/// already stands on the tile (`Some(is_nemesis)`, or `None` for bare
/// ground). The glyph never draws over an occupant's own, and is dimmed for
/// a dark outpost; a dark outpost shows no bar and no pips; the bar holds
/// the bottom edge, clear of any occupant's corner marks, so it draws
/// regardless; the pips share a nemesis mark's corner, so a nemesis hides
/// them.
pub open spec fn spec_outpost_mark_parts(dark: bool, occupant: Option<bool>) -> OutpostMarkParts {
    OutpostMarkParts {
        glyph: if occupant is None {
            Some(dark)
        } else {
            None
        },
        bar: !dark,
        pips: !dark && occupant != Some(true),
    }
}

pub fn outpost_mark_parts(dark: bool, occupant: Option<bool>) -> (out: OutpostMarkParts)
    ensures
        out == spec_outpost_mark_parts(dark, occupant),
{
    let glyph = match occupant {
        None => Some(dark),
        Some(_) => None,
    };
    let pips = !dark && !matches!(occupant, Some(true));
    OutpostMarkParts { glyph, bar: !dark, pips }
}

} // verus!
