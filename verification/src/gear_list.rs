//! The inventory screen and the replacement picker for one equipment slot:
//! rows of gear, each in its copy's tier colour, the equipped and carried
//! ones with a category column that carries the copy's quality.
use vstd::prelude::*;
use vstd::string::StringExecFns;

use crate::inventory::{
    effect_lines, equipped_summary, spec_effect_lines, spec_worn_summary, tier_tint, worn_summary,
    WornCopy,
};
use crate::popup::PopupSize;
use crate::text::{decimal, push_char, push_decimal, push_signed, signed_decimal};
use crate::tint::{tier_color, QualityBand, Rarity, Tint};

verus! {

/// The category column a gear row carries before its text: the row's key
/// lead (`[2] `, and the count for a carried pile), the category tag
/// (`WEP`), and the copy's quality band, which styles the tag.
#[derive(Debug)]
pub struct TagColumn {
    pub lead: String,
    pub tag: String,
    pub quality: Option<QualityBand>,
}

/// One row of a gear screen.
#[derive(Debug)]
pub enum GearRow {
    /// Plain body text.
    Text(String),
    /// Text in a colour of its own.
    Colored(String, Tint),
    /// A row the highlight can stand on, in its copy's tier colour; a
    /// continuation of a wrapped row carries no column of its own.
    Item { text: String, selected: bool, color: Tint, column: Option<TagColumn> },
}

#[verifier::ext_equal]
pub enum GearRowView {
    Text(Seq<char>),
    Colored(Seq<char>, Tint),
    Item {
        text: Seq<char>,
        selected: bool,
        color: Tint,
        column: Option<(Seq<char>, Seq<char>, Option<QualityBand>)>,
    },
}

impl View for GearRow {
    type V = GearRowView;

    open spec fn view(&self) -> GearRowView {
        match self {
            GearRow::Text(t) => GearRowView::Text(t@),
            GearRow::Colored(t, c) => GearRowView::Colored(t@, *c),
            GearRow::Item { text, selected, color, column } => GearRowView::Item {
                text: text@,
                selected: *selected,
                color: *color,
                column: match column {
                    Some(c) => Some((c.lead@, c.tag@, c.quality)),
                    None => None,
                },
            },
        }
    }
}

impl DeepView for GearRow {
    type V = GearRowView;

    open spec fn deep_view(&self) -> GearRowView {
        self.view()
    }
}

fn push_gear(rows: &mut Vec<GearRow>, row: GearRow)
    ensures
        final(rows).deep_view() == old(rows).deep_view().push(row@),
{
    let ghost before = rows.deep_view();
    rows.push(row);
    assert(rows.deep_view() =~= before.push(row@));
}

fn text_line(t: &str) -> (row: GearRow)
    ensures
        row@ == GearRowView::Text(t@),
{
    GearRow::Text(String::from_str(t))
}

/// The key lead of a row picked by `key`: `[key] `.
pub open spec fn key_lead(key: char) -> Seq<char> {
    "["@ + seq![key] + "] "@
}

fn key_lead_string(key: char) -> (out: String)
    ensures
        out@ == key_lead(key),
{
    let mut out = String::from_str("[");
    push_char(&mut out, key);
    out.append("] ");
    out
}

/// A worn piece as the equipped panel reads it: the copy, its fusion tier,
/// its rare tier, and its quality band.
#[derive(Debug)]
pub struct WornSlot {
    pub copy: WornCopy,
    pub fusions: u32,
    pub rarity: Rarity,
    pub quality: QualityBand,
}

/// One equipment slot: its category tag (`WEP`, `ARM`, `MOD`) and what is
/// worn in it.
#[derive(Debug)]
pub struct EquippedSlot {
    pub tag: String,
    pub worn: Option<WornSlot>,
}

/// The slot's row: the worn copy's summary, or `(empty)`, in the worn
/// copy's tier colour, its key and the slot's tag in the column, the tag
/// styled by the worn copy's quality.
pub open spec fn equipped_row_v(key: char, s: EquippedSlot, selected: bool, max_fusions: u32) -> GearRowView {
    GearRowView::Item {
        text: spec_worn_summary(
            match s.worn {
                Some(w) => Some(w.copy),
                None => None,
            },
        ),
        selected,
        color: match s.worn {
            Some(w) => tier_tint(w.fusions, max_fusions, w.rarity),
            None => tier_tint(0, max_fusions, Rarity::Ordinary),
        },
        column: Some(
            (
                key_lead(key),
                s.tag@,
                match s.worn {
                    Some(w) => Some(w.quality),
                    None => None,
                },
            ),
        ),
    }
}

pub fn equipped_row(key: char, s: &EquippedSlot, selected: bool, max_fusions: u32) -> (row: GearRow)
    ensures
        row@ == equipped_row_v(key, *s, selected, max_fusions),
{
    let (fusions, rarity, quality, copy) = match &s.worn {
        Some(w) => (w.fusions, w.rarity, Some(w.quality), Some(&w.copy)),
        None => (0u32, Rarity::Ordinary, None, None),
    };
    let text = worn_summary(copy);
    let color = match tier_color(fusions, max_fusions, rarity) {
        Some(t) => t,
        None => Tint::Text,
    };
    let column = TagColumn { lead: key_lead_string(key), tag: s.tag.clone(), quality };
    GearRow::Item { text, selected, color, column: Some(column) }
}

/// A program wielded as a weapon, which takes the weapon slot's place.
#[derive(Debug)]
pub struct Wielded {
    pub name: String,
    pub level: u32,
    /// What it adds, attack then defence.
    pub bonus: (i32, i32),
}

/// The wielded program's line: not a row to pick and no copy to have a
/// quality, so its key, the weapon tag and its figures are one text line.
pub open spec fn wielded_row_v(tag: Seq<char>, w: Wielded) -> GearRowView {
    GearRowView::Text(
        key_lead('1') + tag + "  "@ + w.name@ + " Lv"@ + decimal(w.level as nat) + " (+"@
            + signed_decimal(w.bonus.0 as int) + " ATK, +"@ + signed_decimal(w.bonus.1 as int)
            + " DEF)"@,
    )
}

fn wielded_row(tag: &str, w: &Wielded) -> (row: GearRow)
    ensures
        row@ == wielded_row_v(tag@, *w),
{
    let mut t = key_lead_string('1');
    t.append(tag);
    t.append("  ");
    t.append(w.name.as_str());
    t.append(" Lv");
    push_decimal(&mut t, w.level as u64);
    t.append(" (+");
    push_signed(&mut t, w.bonus.0 as i64);
    t.append(" ATK, +");
    push_signed(&mut t, w.bonus.1 as i64);
    t.append(" DEF)");
    GearRow::Text(t)
}

/// One carried pile: its lead (key and count) and category tag, its lines
/// (the head, then the continuations its tags and effects were wrapped
/// onto), and the copy's fusion tier, rare tier and quality band.
#[derive(Debug)]
pub struct CargoEntry {
    pub lead: String,
    pub tag: String,
    pub lines: Vec<String>,
    pub fusions: u32,
    pub rarity: Rarity,
    pub quality: QualityBand,
}

/// A pile's rows: its head, picked by its key and highlighted when
/// `selected`, with its column; then each continuation, in the same tier
/// colour, never highlighted (the highlight belongs on the line carrying
/// the key).
pub open spec fn cargo_rows_v(e: CargoEntry, selected: bool, max_fusions: u32) -> Seq<GearRowView> {
    let tint = tier_tint(e.fusions, max_fusions, e.rarity);
    seq![
        GearRowView::Item {
            text: e.lines@[0]@,
            selected,
            color: tint,
            column: Some((e.lead@, e.tag@, Some(e.quality))),
        },
    ] + Seq::new(
        (e.lines@.len() - 1) as nat,
        |j: int| GearRowView::Item { text: e.lines@[j + 1]@, selected: false, color: tint, column: None },
    )
}

/// Every pile's rows; the `i`th pile is picked by row `i + 3`, after the
/// three equipment slots.
pub open spec fn all_cargo_rows(cargo: Seq<CargoEntry>, selected: usize, max_fusions: u32) -> Seq<
    GearRowView,
>
    decreases cargo.len(),
{
    if cargo.len() == 0 {
        Seq::empty()
    } else {
        all_cargo_rows(cargo.drop_last(), selected, max_fusions) + cargo_rows_v(
            cargo.last(),
            selected == cargo.len() - 1 + 3,
            max_fusions,
        )
    }
}

fn push_cargo(rows: &mut Vec<GearRow>, e: &CargoEntry, selected: bool, max_fusions: u32)
    requires
        e.lines@.len() >= 1,
    ensures
        final(rows).deep_view() == old(rows).deep_view() + cargo_rows_v(*e, selected, max_fusions),
{
    let ghost start = rows.deep_view();
    let color = match tier_color(e.fusions, max_fusions, e.rarity) {
        Some(t) => t,
        None => Tint::Text,
    };
    let column = TagColumn { lead: e.lead.clone(), tag: e.tag.clone(), quality: Some(e.quality) };
    push_gear(rows, GearRow::Item { text: e.lines[0].clone(), selected, color, column: Some(column) });
    let mut j: usize = 1;
    while j < e.lines.len()
        invariant
            1 <= j <= e.lines@.len(),
            color == tier_tint(e.fusions, max_fusions, e.rarity),
            rows.deep_view() =~= start + cargo_rows_v(*e, selected, max_fusions).take(j as int),
        decreases e.lines@.len() - j,
    {
        push_gear(rows, GearRow::Item { text: e.lines[j].clone(), selected: false, color, column: None });
        j = j + 1;
    }
    assert(cargo_rows_v(*e, selected, max_fusions).take(j as int) =~= cargo_rows_v(
        *e,
        selected,
        max_fusions,
    ));
}

/// What the inventory screen reads: the player's figures, what is worn in
/// each slot (and the program wielded in the weapon's place, if any), how
/// much the buffer holds, and the carried piles in the engine's order.
#[derive(Debug)]
pub struct InventoryView {
    pub level: u32,
    pub atk: i64,
    pub mitigation: i64,
    pub power: i64,
    pub decompiler: u32,
    pub wielded: Option<Wielded>,
    pub weapon: EquippedSlot,
    pub armor: EquippedSlot,
    pub module: EquippedSlot,
    pub inventory_used: u32,
    pub cargo: Vec<CargoEntry>,
}

pub open spec fn status_line(v: InventoryView) -> Seq<char> {
    "Level "@ + decimal(v.level as nat) + "   Attack "@ + signed_decimal(v.atk as int)
        + "   Defense "@ + signed_decimal(v.mitigation as int) + "   Power "@ + signed_decimal(
        v.power as int,
    ) + "   Decompiler "@ + decimal(v.decompiler as nat)
}

/// The inventory screen's rows, the body of a large `Inventory` popup: the
/// player's figures in cyan; the three equipment slots keyed 1 to 3, the
/// weapon's replaced by the wielded program's line while one is wielded;
/// the buffer's count and each pile's rows, or `(empty)`; and the keys.
pub open spec fn spec_inventory_rows(v: InventoryView, selected: usize, max_fusions: u32) -> Seq<
    GearRowView,
> {
    seq![
        GearRowView::Colored(status_line(v), Tint::Cyan),
        GearRowView::Text(""@),
        GearRowView::Text("Equipped (number to swap or unequip):"@),
        match v.wielded {
            Some(w) => wielded_row_v(v.weapon.tag@, w),
            None => equipped_row_v('1', v.weapon, selected == 0, max_fusions),
        },
        equipped_row_v('2', v.armor, selected == 1, max_fusions),
        equipped_row_v('3', v.module, selected == 2, max_fusions),
        GearRowView::Text(""@),
        GearRowView::Text(
            "Inventory - Buffer "@ + decimal(v.inventory_used as nat)
                + " (row key to equip/fuse/erase):"@,
        ),
    ] + (if v.cargo@.len() == 0 {
        seq![GearRowView::Text("(empty)"@)]
    } else {
        Seq::empty()
    }) + all_cargo_rows(v.cargo@, selected, max_fusions) + seq![
        GearRowView::Text(""@),
        GearRowView::Text(
            "[S] sell one to a trader in range; [U] fuse all pairs; Esc to close; Up/Down + Enter also work"@,
        ),
        GearRowView::Text("[I] inspect \u{2014} full stats, and what a granted routine actually does"@),
    ]
}

/// A popup of gear rows: its title, its size, and its rows.
#[derive(Debug)]
pub struct GearPage {
    pub title: String,
    pub size: PopupSize,
    pub rows: Vec<GearRow>,
}

/// The inventory screen, a large `Inventory` popup; `max_fusions` is the
/// engine's fusion ceiling.
pub fn draw_inventory(v: &InventoryView, selected: usize, max_fusions: u32) -> (p: GearPage)
    requires
        forall|i: int| 0 <= i < v.cargo@.len() ==> (#[trigger] v.cargo@[i]).lines@.len() >= 1,
    ensures
        p.title@ == "Inventory"@,
        p.size == PopupSize::Large,
        p.rows.deep_view() == spec_inventory_rows(*v, selected, max_fusions),
{
    let rows = inventory_rows(v, selected, max_fusions);
    GearPage { title: String::from_str("Inventory"), size: PopupSize::Large, rows }
}

fn inventory_rows(v: &InventoryView, selected: usize, max_fusions: u32) -> (rows: Vec<GearRow>)
    requires
        forall|i: int| 0 <= i < v.cargo@.len() ==> (#[trigger] v.cargo@[i]).lines@.len() >= 1,
    ensures
        rows.deep_view() == spec_inventory_rows(*v, selected, max_fusions),
{
    let mut rows: Vec<GearRow> = Vec::new();
    let mut status = String::from_str("Level ");
    push_decimal(&mut status, v.level as u64);
    status.append("   Attack ");
    push_signed(&mut status, v.atk);
    status.append("   Defense ");
    push_signed(&mut status, v.mitigation);
    status.append("   Power ");
    push_signed(&mut status, v.power);
    status.append("   Decompiler ");
    push_decimal(&mut status, v.decompiler as u64);
    assert(status@ =~= status_line(*v));
    push_gear(&mut rows, GearRow::Colored(status, Tint::Cyan));
    push_gear(&mut rows, text_line(""));
    push_gear(&mut rows, text_line("Equipped (number to swap or unequip):"));
    match &v.wielded {
        Some(w) => push_gear(&mut rows, wielded_row(v.weapon.tag.as_str(), w)),
        None => push_gear(&mut rows, equipped_row('1', &v.weapon, selected == 0, max_fusions)),
    }
    push_gear(&mut rows, equipped_row('2', &v.armor, selected == 1, max_fusions));
    push_gear(&mut rows, equipped_row('3', &v.module, selected == 2, max_fusions));
    push_gear(&mut rows, text_line(""));
    let mut buffer = String::from_str("Inventory - Buffer ");
    push_decimal(&mut buffer, v.inventory_used as u64);
    buffer.append(" (row key to equip/fuse/erase):");
    push_gear(&mut rows, GearRow::Text(buffer));
    if v.cargo.len() == 0 {
        push_gear(&mut rows, text_line("(empty)"));
    }
    let ghost head = rows.deep_view();
    let mut i: usize = 0;
    while i < v.cargo.len()
        invariant
            i <= v.cargo@.len(),
            forall|k: int| 0 <= k < v.cargo@.len() ==> (#[trigger] v.cargo@[k]).lines@.len() >= 1,
            rows.deep_view() =~= head + all_cargo_rows(v.cargo@.take(i as int), selected, max_fusions),
        decreases v.cargo@.len() - i,
    {
        proof {
            assert(v.cargo@.take(i + 1).drop_last() =~= v.cargo@.take(i as int));
        }
        let picked = i <= usize::MAX - 3 && selected == i + 3;
        push_cargo(&mut rows, &v.cargo[i], picked, max_fusions);
        i = i + 1;
    }
    assert(v.cargo@.take(v.cargo@.len() as int) =~= v.cargo@);
    push_gear(&mut rows, text_line(""));
    push_gear(
        &mut rows,
        text_line(
            "[S] sell one to a trader in range; [U] fuse all pairs; Esc to close; Up/Down + Enter also work",
        ),
    );
    push_gear(&mut rows, text_line("[I] inspect \u{2014} full stats, and what a granted routine actually does"));
    assert(rows.deep_view() =~= spec_inventory_rows(*v, selected, max_fusions));
    rows
}

/// A carried pile's lead, category tag and lines: its head and the
/// continuations its tags were wrapped onto (`packed`, the head first),
/// then one indented line per extra effect the item has, never packed onto
/// the head, which carries the row key.
pub fn inventory_row_lines(lead: String, tag: String, packed: Vec<String>, effects: &[String]) -> (out: (
    String,
    String,
    Vec<String>,
))
    ensures
        out.0@ == lead@,
        out.1@ == tag@,
        out.2.deep_view() == packed.deep_view() + spec_effect_lines(effects.deep_view()),
{
    let mut lines = packed;
    let ghost head = lines.deep_view();
    let extra = effect_lines(effects);
    let mut i: usize = 0;
    while i < extra.len()
        invariant
            i <= extra@.len(),
            lines.deep_view() =~= head + extra.deep_view().take(i as int),
        decreases extra@.len() - i,
    {
        let l = extra[i].clone();
        let ghost before = lines.deep_view();
        lines.push(l);
        assert(lines.deep_view() =~= before.push(l@));
        assert(extra.deep_view().take(i + 1) =~= extra.deep_view().take(i as int).push(l@));
        i = i + 1;
    }
    assert(extra.deep_view().take(extra@.len() as int) =~= extra.deep_view());
    (lead, tag, lines)
}

/// One candidate in the replacement picker: its lines (its keyed label,
/// with the stats it would give and the change from what is worn packed
/// after it, wrapped where they do not fit), and its fusion and rare tiers.
#[derive(Debug)]
pub struct SwapRow {
    pub lines: Vec<String>,
    pub fusions: u32,
    pub rarity: Rarity,
}

/// The slot the picker replaces: its name, what is worn in it, and the
/// candidates.
#[derive(Debug)]
pub struct SwapSlot {
    pub label: String,
    pub worn: Option<WornCopy>,
    pub rows: Vec<SwapRow>,
}

/// A candidate's rows: every line carries its selection and tier colour, so
/// a wrapped candidate highlights as one thing.
pub open spec fn swap_rows_v(r: SwapRow, selected: bool, max_fusions: u32) -> Seq<GearRowView> {
    Seq::new(
        r.lines@.len(),
        |j: int|
            GearRowView::Item {
                text: r.lines@[j]@,
                selected,
                color: tier_tint(r.fusions, max_fusions, r.rarity),
                column: None,
            },
    )
}

pub open spec fn all_swap_rows(rows: Seq<SwapRow>, selected: usize, max_fusions: u32) -> Seq<
    GearRowView,
>
    decreases rows.len(),
{
    if rows.len() == 0 {
        Seq::empty()
    } else {
        all_swap_rows(rows.drop_last(), selected, max_fusions) + swap_rows_v(
            rows.last(),
            selected == rows.len() - 1,
            max_fusions,
        )
    }
}

/// The replacement picker's page for `slot`: what is worn in cyan, the
/// candidates, and the legend the two stat columns need; or a small note
/// when no slot is selected.
pub open spec fn spec_equip_swap(slot: Option<SwapSlot>, selected: usize, max_fusions: u32) -> (
    Seq<char>,
    PopupSize,
    Seq<GearRowView>,
) {
    match slot {
        None => ("Gear"@, PopupSize::Small, seq![GearRowView::Text("No slot selected."@)]),
        Some(s) => (
            "Replace "@ + s.label@,
            PopupSize::Large,
            seq![
                GearRowView::Colored(
                    "Wearing"@ + ": "@ + spec_worn_summary(s.worn),
                    Tint::Cyan,
                ),
                GearRowView::Text(""@),
            ] + all_swap_rows(s.rows@, selected, max_fusions) + seq![
                GearRowView::Text(""@),
                GearRowView::Text("Middle column is what you'd get; right column is the change"@),
                GearRowView::Text(
                    "[I] inspect \u{2014} full stats, and what a granted routine actually does"@,
                ),
                GearRowView::Text("Esc to go back; Up/Down + Enter also work"@),
            ],
        ),
    }
}

fn push_swap(rows: &mut Vec<GearRow>, r: &SwapRow, selected: bool, max_fusions: u32)
    ensures
        final(rows).deep_view() == old(rows).deep_view() + swap_rows_v(*r, selected, max_fusions),
{
    let ghost start = rows.deep_view();
    let color = match tier_color(r.fusions, max_fusions, r.rarity) {
        Some(t) => t,
        None => Tint::Text,
    };
    let mut j: usize = 0;
    while j < r.lines.len()
        invariant
            j <= r.lines@.len(),
            color == tier_tint(r.fusions, max_fusions, r.rarity),
            rows.deep_view() =~= start + swap_rows_v(*r, selected, max_fusions).take(j as int),
        decreases r.lines@.len() - j,
    {
        push_gear(rows, GearRow::Item { text: r.lines[j].clone(), selected, color, column: None });
        j = j + 1;
    }
    assert(swap_rows_v(*r, selected, max_fusions).take(j as int) =~= swap_rows_v(
        *r,
        selected,
        max_fusions,
    ));
}

/// The replacement picker for one equipment slot.
pub fn draw_equip_swap(slot: Option<&SwapSlot>, selected: usize, max_fusions: u32) -> (p: GearPage)
    ensures
        ({
            let want = spec_equip_swap(
                match slot {
                    Some(s) => Some(*s),
                    None => None,
                },
                selected,
                max_fusions,
            );
            &&& p.title@ == want.0
            &&& p.size == want.1
            &&& p.rows.deep_view() == want.2
        }),
{
    let mut rows: Vec<GearRow> = Vec::new();
    match slot {
        None => {
            push_gear(&mut rows, text_line("No slot selected."));
            assert(rows.deep_view() =~= seq![GearRowView::Text("No slot selected."@)]);
            GearPage { title: String::from_str("Gear"), size: PopupSize::Small, rows }
        },
        Some(s) => {
            let worn = match &s.worn {
                Some(w) => Some(w),
                None => None,
            };
            push_gear(&mut rows, GearRow::Colored(equipped_summary("Wearing", worn), Tint::Cyan));
            push_gear(&mut rows, text_line(""));
            let ghost head = rows.deep_view();
            let mut i: usize = 0;
            while i < s.rows.len()
                invariant
                    i <= s.rows@.len(),
                    rows.deep_view() =~= head + all_swap_rows(s.rows@.take(i as int), selected, max_fusions),
                decreases s.rows@.len() - i,
            {
                proof {
                    assert(s.rows@.take(i + 1).drop_last() =~= s.rows@.take(i as int));
                }
                push_swap(&mut rows, &s.rows[i], selected == i, max_fusions);
                i = i + 1;
            }
            assert(s.rows@.take(s.rows@.len() as int) =~= s.rows@);
            push_gear(&mut rows, text_line(""));
            push_gear(&mut rows, text_line("Middle column is what you'd get; right column is the change"));
            push_gear(
                &mut rows,
                text_line("[I] inspect \u{2014} full stats, and what a granted routine actually does"),
            );
            push_gear(&mut rows, text_line("Esc to go back; Up/Down + Enter also work"));
            let mut title = String::from_str("Replace ");
            title.append(s.label.as_str());
            let ghost want = spec_equip_swap(Some(*s), selected, max_fusions);
            assert(rows.deep_view() =~= want.2);
            GearPage { title, size: PopupSize::Large, rows }
        },
    }
}

} // verus!
