//! The info column's collapsed bars: one line per closed tab, saying the
//! calm state of what that tab would show.
use vstd::prelude::*;
use vstd::string::StringExecFns;

use crate::base_pane::{base_rows, line_v, spec_base_rows, BaseData, StockRow, Structure};
use crate::crew::{crew_rows, roster_arrangement, spec_crew_rows, BuffView, PetInfo};
use crate::palette::{BODY, FAINT, LABEL};
use crate::panes::{
    all_contract_rows, body, contract_rows, dim, head, head_v, is_ready, label, text, with_tail,
    ContractRow, PaneRow, PaneRowView,
};
use crate::strip::{piece_v, push_piece, Ink, Piece, PieceView};
use crate::text::{decimal, push_char, push_decimal};
use crate::tint::{fusion_color, spec_fusion_color};

verus! {

/// Party pips on the CREW tab's collapsed bar.
pub const CREW_PIPS: usize = 5;

/// The info column's four tabs.
#[derive(Clone, Copy, Debug, PartialEq, Eq, Structural)]
pub enum InfoTab {
    Base,
    Crew,
    Pack,
    Contracts,
}

/// One pile in the pack, its name already built. `fusion_note` is how its
/// fusion tier reads, for a fused copy.
#[derive(Debug)]
pub struct PackRow {
    pub qty: u32,
    pub name: String,
    pub tier: u32,
    pub fusion_note: String,
}

/// Everything the info column's panes and collapsed bars read.
#[derive(Debug)]
pub struct PaneData {
    pub base: BaseData,
    /// Programs owned, against the capacity.
    pub roster: (usize, usize),
    pub pets: Vec<PetInfo>,
    pub buffs: Vec<BuffView>,
    /// Units carried: the pack has no capacity, so this is a count and not a
    /// fraction.
    pub carrying: u32,
    pub pack: Vec<PackRow>,
    /// The fusion ceiling a pile's colour is read against.
    pub max_fusions: u32,
    pub contracts: Vec<ContractRow>,
}

pub open spec fn workable_count(ss: Seq<Structure>) -> nat
    decreases ss.len(),
{
    if ss.len() == 0 {
        0
    } else {
        workable_count(ss.drop_last()) + if ss.last().workable {
            1nat
        } else {
            0nat
        }
    }
}

pub open spec fn stock_total(stock: Seq<StockRow>) -> nat
    decreases stock.len(),
{
    if stock.len() == 0 {
        0
    } else {
        stock_total(stock.drop_last()) + stock.last().qty as nat
    }
}

pub open spec fn party_count(pets: Seq<PetInfo>) -> nat
    decreases pets.len(),
{
    if pets.len() == 0 {
        0
    } else {
        party_count(pets.drop_last()) + if pets.last().party_slot is Some {
            1nat
        } else {
            0nat
        }
    }
}

pub open spec fn ready_count(cs: Seq<ContractRow>) -> nat
    decreases cs.len(),
{
    if cs.len() == 0 {
        0
    } else {
        ready_count(cs.drop_last()) + if cs.last().progress >= cs.last().target {
            1nat
        } else {
            0nat
        }
    }
}

/// `n` party pips.
pub open spec fn pips(n: nat) -> Seq<char> {
    Seq::new(n, |_i: int| '\u{2589}')
}

/// A closed tab's one-line summary.
pub open spec fn spec_summary(tab: InfoTab, d: PaneData) -> Seq<char> {
    match tab {
        InfoTab::Base => if !d.base.in_base {
            "on the surface"@
        } else {
            decimal(workable_count(d.base.structures@)) + " nodes \u{b7} "@ + decimal(
                stock_total(d.base.stock@),
            ) + " held"@
        },
        InfoTab::Crew => {
            let party = party_count(d.pets@);
            let shown: nat = if party < CREW_PIPS {
                party
            } else {
                CREW_PIPS as nat
            };
            pips(shown) + " "@ + decimal(d.roster.0 as nat) + "/"@ + decimal(d.roster.1 as nat)
        },
        InfoTab::Pack => decimal(d.carrying as nat) + " units"@,
        InfoTab::Contracts => if d.contracts@.len() == 0 {
            "nothing signed"@
        } else if ready_count(d.contracts@) == 0 {
            decimal(d.contracts@.len()) + " signed"@
        } else {
            decimal(ready_count(d.contracts@)) + " ready \u{b7} "@ + decimal(d.contracts@.len())
                + " signed"@
        },
    }
}

proof fn workable_count_bounded(ss: Seq<Structure>)
    ensures
        workable_count(ss) <= ss.len(),
    decreases ss.len(),
{
    if ss.len() > 0 {
        workable_count_bounded(ss.drop_last());
    }
}

proof fn party_count_bounded(pets: Seq<PetInfo>)
    ensures
        party_count(pets) <= pets.len(),
    decreases pets.len(),
{
    if pets.len() > 0 {
        party_count_bounded(pets.drop_last());
    }
}

proof fn ready_count_bounded(cs: Seq<ContractRow>)
    ensures
        ready_count(cs) <= cs.len(),
    decreases cs.len(),
{
    if cs.len() > 0 {
        ready_count_bounded(cs.drop_last());
    }
}

proof fn stock_total_monotone(stock: Seq<StockRow>, i: int)
    requires
        0 <= i <= stock.len(),
    ensures
        stock_total(stock.take(i)) <= stock_total(stock),
    decreases stock.len() - i,
{
    if i < stock.len() {
        stock_total_monotone(stock, i + 1);
        assert(stock.take(i + 1).drop_last() =~= stock.take(i));
    } else {
        assert(stock.take(i) =~= stock);
    }
}

fn count_workable(ss: &Vec<Structure>) -> (n: usize)
    ensures
        n == workable_count(ss@),
{
    let mut n: usize = 0;
    let mut i: usize = 0;
    while i < ss.len()
        invariant
            i <= ss@.len(),
            n == workable_count(ss@.take(i as int)),
        decreases ss@.len() - i,
    {
        proof {
            assert(ss@.take(i + 1).drop_last() =~= ss@.take(i as int));
            workable_count_bounded(ss@.take(i as int));
        }
        if ss[i].workable {
            n = n + 1;
        }
        i = i + 1;
    }
    assert(ss@.take(ss@.len() as int) =~= ss@);
    n
}

fn count_party(pets: &Vec<PetInfo>) -> (n: usize)
    ensures
        n == party_count(pets@),
{
    let mut n: usize = 0;
    let mut i: usize = 0;
    while i < pets.len()
        invariant
            i <= pets@.len(),
            n == party_count(pets@.take(i as int)),
        decreases pets@.len() - i,
    {
        proof {
            assert(pets@.take(i + 1).drop_last() =~= pets@.take(i as int));
            party_count_bounded(pets@.take(i as int));
        }
        if pets[i].party_slot.is_some() {
            n = n + 1;
        }
        i = i + 1;
    }
    assert(pets@.take(pets@.len() as int) =~= pets@);
    n
}

fn count_ready(cs: &Vec<ContractRow>) -> (n: usize)
    ensures
        n == ready_count(cs@),
{
    let mut n: usize = 0;
    let mut i: usize = 0;
    while i < cs.len()
        invariant
            i <= cs@.len(),
            n == ready_count(cs@.take(i as int)),
        decreases cs@.len() - i,
    {
        proof {
            assert(cs@.take(i + 1).drop_last() =~= cs@.take(i as int));
            ready_count_bounded(cs@.take(i as int));
        }
        if is_ready(&cs[i]) {
            n = n + 1;
        }
        i = i + 1;
    }
    assert(cs@.take(cs@.len() as int) =~= cs@);
    n
}

fn total_stock(stock: &Vec<StockRow>) -> (n: u32)
    requires
        stock_total(stock@) <= u32::MAX,
    ensures
        n == stock_total(stock@),
{
    let mut n: u32 = 0;
    let mut i: usize = 0;
    while i < stock.len()
        invariant
            i <= stock@.len(),
            n == stock_total(stock@.take(i as int)),
            stock_total(stock@) <= u32::MAX,
        decreases stock@.len() - i,
    {
        proof {
            assert(stock@.take(i + 1).drop_last() =~= stock@.take(i as int));
            stock_total_monotone(stock@, i + 1);
        }
        n = n + stock[i].qty;
        i = i + 1;
    }
    assert(stock@.take(stock@.len() as int) =~= stock@);
    n
}

/// A closed tab's one-line summary, for its collapsed bar. The base's held
/// total is a `u32`, as the stock counts are.
pub fn summary(tab: InfoTab, d: &PaneData) -> (out: String)
    requires
        tab == InfoTab::Base && d.base.in_base ==> stock_total(d.base.stock@) <= u32::MAX,
    ensures
        out@ == spec_summary(tab, *d),
{
    match tab {
        InfoTab::Base => {
            if !d.base.in_base {
                return String::from_str("on the surface");
            }
            let workable = count_workable(&d.base.structures);
            let held = total_stock(&d.base.stock);
            let mut out = String::new();
            push_decimal(&mut out, workable as u64);
            out.append(" nodes \u{b7} ");
            push_decimal(&mut out, held as u64);
            out.append(" held");
            assert(out@ =~= spec_summary(tab, *d));
            out
        },
        InfoTab::Crew => {
            let party = count_party(&d.pets);
            let shown = if party < CREW_PIPS {
                party
            } else {
                CREW_PIPS
            };
            let mut out = String::new();
            let mut i: usize = 0;
            while i < shown
                invariant
                    i <= shown,
                    out@ =~= pips(i as nat),
                decreases shown - i,
            {
                push_char(&mut out, '\u{2589}');
                i = i + 1;
            }
            out.append(" ");
            push_decimal(&mut out, d.roster.0 as u64);
            out.append("/");
            push_decimal(&mut out, d.roster.1 as u64);
            assert(out@ =~= spec_summary(tab, *d));
            out
        },
        InfoTab::Pack => {
            let mut out = String::new();
            push_decimal(&mut out, d.carrying as u64);
            out.append(" units");
            assert(out@ =~= spec_summary(tab, *d));
            out
        },
        InfoTab::Contracts => {
            if d.contracts.len() == 0 {
                return String::from_str("nothing signed");
            }
            let ready = count_ready(&d.contracts);
            let mut out = String::new();
            if ready == 0 {
                push_decimal(&mut out, d.contracts.len() as u64);
                out.append(" signed");
            } else {
                push_decimal(&mut out, ready as u64);
                out.append(" ready \u{b7} ");
                push_decimal(&mut out, d.contracts.len() as u64);
                out.append(" signed");
            }
            assert(out@ =~= spec_summary(tab, *d));
            out
        },
    }
}


/// A pile's row: its name and fusion note in its fusion colour (body colour
/// for an unfused pile), its count as the tail.
pub open spec fn pack_row(r: PackRow, max_fusions: u32) -> PaneRowView {
    PaneRowView::Text {
        left: seq![
            PieceView {
                text: "  "@ + r.name@ + if r.tier == 0 {
                    Seq::empty()
                } else {
                    " "@ + r.fusion_note@
                },
                color: match spec_fusion_color(r.tier, max_fusions) {
                    Some(t) => Ink::Popup(t),
                    None => piece_v(Seq::empty(), BODY, false).color,
                },
                bold: false,
            },
        ],
        right: seq![piece_v(decimal(r.qty as nat), BODY, false)],
    }
}

/// The PACK pane: what is carried, as a count of units and not a fraction of
/// a capacity the pack does not have, then every pile.
pub open spec fn spec_pack_rows(d: PaneData) -> Seq<PaneRowView> {
    seq![
        head_v("PACK"@, 'i', "pack"@),
        PaneRowView::Text {
            left: seq![
                piece_v("CARRYING  "@, LABEL, false),
                piece_v(decimal(d.carrying as nat) + " units"@, BODY, false),
            ],
            right: Seq::empty(),
        },
        PaneRowView::Rule,
    ] + (if d.pack@.len() == 0 {
        seq![line_v(piece_v("  the pack is empty"@, FAINT, false))]
    } else {
        Seq::empty()
    }) + Seq::new(d.pack@.len(), |i: int| pack_row(d.pack@[i], d.max_fusions))
}

fn push_pane(rows: &mut Vec<PaneRow>, row: PaneRow)
    ensures
        final(rows).deep_view() == old(rows).deep_view().push(row@),
{
    let ghost before = rows.deep_view();
    rows.push(row);
    assert(rows.deep_view() =~= before.push(row@));
}

fn pack_line(r: &PackRow, max_fusions: u32) -> (row: PaneRow)
    ensures
        row@ == pack_row(*r, max_fusions),
{
    let mut t = String::from_str("  ");
    t.append(r.name.as_str());
    if r.tier != 0 {
        t.append(" ");
        t.append(r.fusion_note.as_str());
    }
    assert(t@ =~= "  "@ + r.name@ + if r.tier == 0 {
        Seq::empty()
    } else {
        " "@ + r.fusion_note@
    });
    let color = match fusion_color(r.tier, max_fusions) {
        Some(tint) => Ink::Popup(tint),
        None => Ink::Hud(crate::palette::rgb(BODY)),
    };
    let mut left: Vec<Piece> = Vec::new();
    push_piece(&mut left, Piece { text: t, color, bold: false });
    let mut qty = String::new();
    push_decimal(&mut qty, r.qty as u64);
    let mut right: Vec<Piece> = Vec::new();
    push_piece(&mut right, body(qty));
    let row = with_tail(left, right);
    assert(row@ =~= pack_row(*r, max_fusions));
    row
}

pub fn pack_rows(d: &PaneData) -> (out: Vec<PaneRow>)
    ensures
        out.deep_view() == spec_pack_rows(*d),
{
    let mut out: Vec<PaneRow> = Vec::new();
    push_pane(&mut out, head("PACK", 'i', "pack"));
    let mut units = String::new();
    push_decimal(&mut units, d.carrying as u64);
    units.append(" units");
    let mut left: Vec<Piece> = Vec::new();
    push_piece(&mut left, label(String::from_str("CARRYING  ")));
    push_piece(&mut left, body(units));
    assert(left.deep_view() =~= seq![
        piece_v("CARRYING  "@, LABEL, false),
        piece_v(decimal(d.carrying as nat) + " units"@, BODY, false),
    ]);
    push_pane(&mut out, text(left));
    push_pane(&mut out, PaneRow::Rule);
    if d.pack.len() == 0 {
        let mut empty: Vec<Piece> = Vec::new();
        push_piece(&mut empty, dim(String::from_str("  the pack is empty")));
        assert(empty.deep_view() =~= seq![piece_v("  the pack is empty"@, FAINT, false)]);
        push_pane(&mut out, text(empty));
    }
    let ghost head_rows = out.deep_view();
    let mut i: usize = 0;
    while i < d.pack.len()
        invariant
            i <= d.pack@.len(),
            out.deep_view() =~= head_rows + Seq::new(i as nat, |k: int| pack_row(d.pack@[k], d.max_fusions)),
        decreases d.pack@.len() - i,
    {
        push_pane(&mut out, pack_line(&d.pack[i], d.max_fusions));
        i = i + 1;
    }
    assert(out.deep_view() =~= spec_pack_rows(*d));
    out
}

/// The open pane's body: BASE, CREW, PACK or CONTRACTS.
pub fn rows(tab: InfoTab, d: &PaneData) -> (out: Vec<PaneRow>)
    requires
        tab == InfoTab::Base ==> forall|i: int|
            0 <= i < d.base.structures@.len() ==> (#[trigger] d.base.structures@[i]).output@.len()
                <= u32::MAX,
    ensures
        tab == InfoTab::Base ==> out.deep_view() == spec_base_rows(d.base),
        tab == InfoTab::Crew ==> out.deep_view() == spec_crew_rows(
            d.roster,
            d.pets@,
            roster_arrangement(d.pets@),
            d.buffs@,
        ),
        tab == InfoTab::Pack ==> out.deep_view() == spec_pack_rows(*d),
        tab == InfoTab::Contracts ==> out.deep_view() == seq![head_v("CONTRACTS"@, 'b', "contracts"@)]
            + if d.contracts@.len() == 0 {
            seq![
                PaneRowView::Text {
                    left: seq![piece_v("  nothing signed"@, FAINT, false)],
                    right: Seq::empty(),
                },
            ]
        } else {
            all_contract_rows(d.contracts@)
        },
{
    match tab {
        InfoTab::Base => base_rows(&d.base),
        InfoTab::Crew => crew_rows(d.roster, d.pets.as_slice(), d.buffs.as_slice()),
        InfoTab::Pack => pack_rows(d),
        InfoTab::Contracts => contract_rows(d.contracts.as_slice()),
    }
}

} // verus!
