//! The inventory's per-item pages: what a worn piece reads as, the effect
//! lines an item carries under its row, the action list for one item, and
//! the mechanics lines under a routine a piece of gear grants.
use vstd::prelude::*;
use vstd::string::StringExecFns;

use crate::popup::{
    colored_item_row, colored_item_v, item_row, item_v, popup, popup_v, push_row, text_row, text_v,
    Popup, PopupSize, Row, RowView,
};
use crate::screens::{continuation_v, CONTINUATION_INDENT};
use crate::text::{decimal, joined_with, push_char, push_decimal, push_joined};
use crate::tint::{spec_fusion_color, spec_rarity_color, tier_color, Rarity, Tint};

verus! {

/// A worn copy, as the equipment panel prints it. `fusion_note` is how its
/// fusion tier reads, for a fused copy; `stats` is what it grants, written
/// out.
#[derive(Debug)]
pub struct WornCopy {
    pub name: String,
    pub level: u32,
    pub fusion_note: Option<String>,
    pub stats: String,
}

pub open spec fn worn_notes(w: WornCopy) -> Seq<Seq<char>> {
    (if w.level > 1 {
        seq!["Lv"@ + decimal(w.level as nat)]
    } else {
        Seq::empty()
    }) + match w.fusion_note {
        Some(n) => seq![n@],
        None => Seq::empty(),
    }
}

/// `Arc Lance Lv3 T1 (+16 ATK)`, or `(empty)`: the name, its level past the
/// first and its fusion note, then what it grants.
pub open spec fn spec_worn_summary(worn: Option<WornCopy>) -> Seq<char> {
    match worn {
        None => "(empty)"@,
        Some(w) => w.name@ + (if worn_notes(w).len() == 0 {
            Seq::empty()
        } else {
            " "@ + joined_with(worn_notes(w), " "@)
        }) + " ("@ + w.stats@ + ")"@,
    }
}

pub fn worn_summary(worn: Option<&WornCopy>) -> (out: String)
    ensures
        out@ == spec_worn_summary(
            match worn {
                Some(w) => Some(*w),
                None => None,
            },
        ),
{
    let w = match worn {
        None => return String::from_str("(empty)"),
        Some(w) => w,
    };
    let mut notes: Vec<String> = Vec::new();
    let ghost mut want: Seq<Seq<char>> = Seq::empty();
    if w.level > 1 {
        let mut t = String::from_str("Lv");
        push_decimal(&mut t, w.level as u64);
        let ghost tv = t@;
        notes.push(t);
        proof {
            want = want.push(tv);
        }
    }
    match &w.fusion_note {
        Some(n) => {
            notes.push(n.clone());
            proof {
                want = want.push(n@);
            }
        },
        None => {},
    }
    assert(notes.deep_view() =~= want);
    assert(want =~= worn_notes(*w));
    let mut out = w.name.clone();
    if notes.len() > 0 {
        out.append(" ");
        push_joined(&mut out, &notes, " ");
    }
    out.append(" (");
    out.append(w.stats.as_str());
    out.append(")");
    proof {
        reveal_strlit("");
    }
    assert(out@ =~= spec_worn_summary(Some(*w)));
    out
}

/// `Wearing: Arc Lance Lv3 T1 (+16 ATK)`: the labelled form, for the swap
/// picker's heading.
pub fn equipped_summary(label: &str, worn: Option<&WornCopy>) -> (out: String)
    ensures
        out@ == label@ + ": "@ + spec_worn_summary(
            match worn {
                Some(w) => Some(*w),
                None => None,
            },
        ),
{
    let mut out = String::from_str(label);
    out.append(": ");
    let summary = worn_summary(worn);
    out.append(summary.as_str());
    out
}

/// An item's extra effects as the indented lines under its row: each
/// effect's continuation lines in turn, none for an item that has none.
pub open spec fn spec_effect_lines(effects: Seq<Seq<char>>) -> Seq<Seq<char>>
    decreases effects.len(),
{
    if effects.len() == 0 {
        Seq::empty()
    } else {
        spec_effect_lines(effects.drop_last()) + continuation_v(effects.last())
    }
}

fn indent_line(text: &str) -> (out: String)
    ensures
        out@ == Seq::new(CONTINUATION_INDENT as nat, |_i: int| ' ') + text@,
{
    let mut out = String::new();
    let mut k: usize = 0;
    while k < CONTINUATION_INDENT
        invariant
            k <= CONTINUATION_INDENT,
            out@ =~= Seq::new(k as nat, |_i: int| ' '),
        decreases CONTINUATION_INDENT - k,
    {
        push_char(&mut out, ' ');
        k = k + 1;
    }
    out.append(text);
    out
}

/// The lines an item's effects contribute under its row. Every listing
/// screen draws them through here, so an effect is indented one way
/// everywhere.
pub fn effect_lines(effects: &[String]) -> (lines: Vec<String>)
    ensures
        lines.deep_view() == spec_effect_lines(effects.deep_view()),
{
    let mut lines: Vec<String> = Vec::new();
    let mut i: usize = 0;
    while i < effects.len()
        invariant
            i <= effects@.len(),
            lines.deep_view() =~= spec_effect_lines(effects.deep_view().take(i as int)),
        decreases effects@.len() - i,
    {
        let ghost before = lines.deep_view();
        let e = effects[i].as_str();
        if e.unicode_len() > 0 {
            lines.push(indent_line(e));
        }
        proof {
            let taken = effects.deep_view().take(i + 1);
            assert(taken.drop_last() =~= effects.deep_view().take(i as int));
            assert(taken.last() == effects@[i as int]@);
            assert(lines.deep_view() =~= before + continuation_v(effects@[i as int]@));
        }
        i = i + 1;
    }
    assert(effects.deep_view().take(effects@.len() as int) =~= effects.deep_view());
    lines
}

/// The item an action page is open on: its name, and what equipping it
/// would change.
#[derive(Debug)]
pub struct ActionItem {
    pub name: String,
    pub preview_tag: String,
    pub effects: Vec<String>,
}

pub open spec fn action_rows(actions: Seq<String>, selected: usize) -> Seq<RowView> {
    Seq::new(actions.len(), |i: int| item_v(actions[i]@, i == selected))
}

pub open spec fn nothing_selected() -> crate::popup::PopupView {
    popup_v("Item"@, PopupSize::Small, seq![text_v("Nothing selected."@)])
}

/// What can be done with one carried item: its name and preview in body
/// colour, the same effect lines its list row carries, then one row per
/// action. Nothing selected draws the small note saying so.
pub fn draw_inventory_item_action(item: Option<&ActionItem>, actions: &[String], selected: usize) -> (p: Popup)
    ensures
        p@ == match item {
            None => nothing_selected(),
            Some(it) => popup_v(
                "Item"@,
                PopupSize::Large,
                seq![RowView::TextColored(it.name@ + it.preview_tag@, Tint::Text)] + Seq::new(
                    spec_effect_lines(it.effects.deep_view()).len(),
                    |k: int| text_v(spec_effect_lines(it.effects.deep_view())[k]),
                ) + seq![text_v(""@)] + action_rows(actions@, selected) + seq![
                    text_v(""@),
                    text_v("Esc to cancel; Up/Down + Enter also work"@),
                ],
            ),
        },
{
    let it = match item {
        None => {
            let mut rows: Vec<Row> = Vec::new();
            push_row(&mut rows, text_row("Nothing selected."));
            return popup("Item", PopupSize::Small, rows);
        },
        Some(it) => it,
    };
    let mut title = it.name.clone();
    title.append(it.preview_tag.as_str());
    let mut rows: Vec<Row> = Vec::new();
    push_row(&mut rows, Row::TextColored(title, Tint::Text));
    let lines = effect_lines(it.effects.as_slice());
    let ghost head = rows.deep_view();
    let mut i: usize = 0;
    while i < lines.len()
        invariant
            i <= lines@.len(),
            rows.deep_view() =~= head + Seq::new(i as nat, |k: int| text_v(lines.deep_view()[k])),
        decreases lines@.len() - i,
    {
        push_row(&mut rows, Row::Text(lines[i].clone()));
        i = i + 1;
    }
    push_row(&mut rows, text_row(""));
    let ghost mid = rows.deep_view();
    let mut j: usize = 0;
    while j < actions.len()
        invariant
            j <= actions@.len(),
            rows.deep_view() =~= mid + action_rows(actions@, selected).take(j as int),
        decreases actions@.len() - j,
    {
        push_row(&mut rows, item_row(actions[j].clone(), j == selected));
        j = j + 1;
    }
    assert(action_rows(actions@, selected).take(actions@.len() as int) =~= action_rows(
        actions@,
        selected,
    ));
    push_row(&mut rows, text_row(""));
    push_row(&mut rows, text_row("Esc to cancel; Up/Down + Enter also work"));
    popup("Item", PopupSize::Large, rows)
}

/// A routine a piece of gear grants, as its detail view states it. Its
/// Power cost arrives written out, and only when it costs any.
#[derive(Debug)]
pub struct GrantedRoutine {
    pub name: String,
    pub when: String,
    pub target: String,
    pub effect: String,
    pub rolls_to_hit: bool,
    pub cooldown: u32,
    pub power_cost: Option<String>,
}

pub open spec fn cooldown_text(n: u32) -> Seq<char> {
    if n == 0 {
        "No cooldown"@
    } else if n == 1 {
        "Cooldown 1 round"@
    } else {
        "Cooldown "@ + decimal(n as nat) + " rounds"@
    }
}

pub open spec fn price_parts(g: GrantedRoutine) -> Seq<Seq<char>> {
    seq![cooldown_text(g.cooldown)] + match g.power_cost {
        Some(c) => seq!["Costs "@ + c@ + " Power"@],
        None => Seq::empty(),
    }
}

/// The four mechanics lines under a granted routine's prose: when it runs,
/// what it lands on, what it does (and that it can miss, when it rolls to
/// hit), and what it costs.
pub open spec fn spec_routine_mechanics(g: GrantedRoutine) -> Seq<Seq<char>> {
    seq![
        g.when@,
        "Hits "@ + g.target@,
        if g.rolls_to_hit {
            g.effect@ + ", and can miss"@
        } else {
            g.effect@
        },
        joined_with(price_parts(g), " \u{b7} "@),
    ]
}

pub fn routine_mechanics(g: &GrantedRoutine) -> (lines: Vec<String>)
    ensures
        lines.deep_view() == spec_routine_mechanics(*g),
{
    let mut lines: Vec<String> = Vec::new();
    lines.push(g.when.clone());
    let mut hits = String::from_str("Hits ");
    hits.append(g.target.as_str());
    lines.push(hits);
    let mut effect = g.effect.clone();
    if g.rolls_to_hit {
        effect.append(", and can miss");
    }
    lines.push(effect);
    let mut price: Vec<String> = Vec::new();
    let cooldown = if g.cooldown == 0 {
        String::from_str("No cooldown")
    } else if g.cooldown == 1 {
        String::from_str("Cooldown 1 round")
    } else {
        let mut t = String::from_str("Cooldown ");
        push_decimal(&mut t, g.cooldown as u64);
        t.append(" rounds");
        t
    };
    price.push(cooldown);
    match &g.power_cost {
        Some(c) => {
            let mut t = String::from_str("Costs ");
            t.append(c.as_str());
            t.append(" Power");
            price.push(t);
        },
        None => {},
    }
    assert(price.deep_view() =~= price_parts(*g));
    let mut last = String::new();
    push_joined(&mut last, &price, " \u{b7} ");
    lines.push(last);
    assert(lines.deep_view() =~= spec_routine_mechanics(*g));
    lines
}


/// The colour a row for a copy with `fusions` and `rarity` draws in: its
/// tier colour, or the body colour for a copy with neither.
pub open spec fn tier_tint(fusions: u32, max_fusions: u32, rarity: Rarity) -> Tint {
    match spec_fusion_color(fusions, max_fusions) {
        Some(t) => t,
        None => match spec_rarity_color(rarity) {
            Some(t) => t,
            None => Tint::Text,
        },
    }
}

/// A selectable row in its copy's tier colour.
pub fn tier_row(text: String, selected: bool, fusions: u32, max_fusions: u32, rarity: Rarity) -> (row: Row)
    ensures
        row@ == colored_item_v(text@, selected, tier_tint(fusions, max_fusions, rarity)),
{
    let color = match tier_color(fusions, max_fusions, rarity) {
        Some(t) => t,
        None => Tint::Text,
    };
    colored_item_row(text, selected, color)
}

/// What the inspect page says of a worn piece: its slot and what it grants,
/// how well it was compiled, and, for a piece that bears on the swing, the
/// hit chance line the frontend writes.
#[derive(Debug)]
pub struct WornDetail {
    pub slot_label: String,
    pub stats: String,
    pub quality: u32,
    /// The worn copy's damage band, low to high; `(0, 0)` for a piece that
    /// carries none.
    pub damage_band: (i32, i32),
    /// The accuracy the worn copy adds.
    pub accuracy_bonus: i32,
    /// The hit-chance line, written from its fractional figures.
    pub swing: String,
}

/// Whether a worn piece bears on the swing at all: it carries a damage band
/// or adds accuracy. Armour and most modules do neither, and a hit chance
/// under one would read as a claim about the armour.
pub open spec fn bears_on_swing(w: WornDetail) -> bool {
    w.damage_band != (0i32, 0i32) || w.accuracy_bonus != 0
}

/// A routine a piece grants, with its prose already wrapped to the page.
#[derive(Debug)]
pub struct GrantDetail {
    pub routine: GrantedRoutine,
    pub description: Vec<String>,
}

/// Everything the gear inspect page reads. Prose arrives wrapped to the
/// page's width.
#[derive(Debug)]
pub struct GearDetail {
    pub name: String,
    pub tier: u32,
    pub rarity: Rarity,
    pub description: Option<Vec<String>>,
    pub worn: Option<WornDetail>,
    pub effects: Vec<String>,
    pub grant: Option<GrantDetail>,
}

pub open spec fn text_rows(lines: Seq<Seq<char>>) -> Seq<RowView> {
    Seq::new(lines.len(), |i: int| text_v(lines[i]))
}

pub open spec fn indented(lines: Seq<Seq<char>>) -> Seq<Seq<char>> {
    Seq::new(lines.len(), |i: int| "  "@ + lines[i])
}

pub open spec fn description_block(d: GearDetail) -> Seq<RowView> {
    match d.description {
        Some(lines) => text_rows(lines.deep_view()),
        None => seq![text_v("(no description)"@)],
    }
}

pub open spec fn worn_block(d: GearDetail) -> Seq<RowView> {
    match d.worn {
        Some(w) => seq![
            text_v(""@),
            text_v(w.slot_label@ + ": "@ + w.stats@),
            text_v("Compiled at "@ + decimal(w.quality as nat) + "% of spec"@),
        ] + if bears_on_swing(w) {
            seq![text_v(w.swing@)]
        } else {
            Seq::empty()
        },
        None => Seq::empty(),
    }
}

pub open spec fn effects_block(d: GearDetail) -> Seq<RowView> {
    if d.effects@.len() > 0 {
        seq![text_v(""@)] + text_rows(d.effects.deep_view())
    } else {
        Seq::empty()
    }
}

pub open spec fn grant_block(d: GearDetail) -> Seq<RowView> {
    match d.grant {
        Some(g) => seq![text_v(""@), text_v("Grants: "@ + g.routine.name@)] + text_rows(
            g.description.deep_view(),
        ) + text_rows(indented(spec_routine_mechanics(g.routine))),
        None => Seq::empty(),
    }
}

/// The gear inspect page: the name in its tier colour, the description,
/// the worn figures, the extra effects, the granted routine with its
/// mechanics, and the way out.
pub open spec fn spec_gear_inspect_rows(d: GearDetail, max_fusions: u32) -> Seq<RowView> {
    seq![colored_item_v(d.name@, false, tier_tint(d.tier, max_fusions, d.rarity)), text_v(""@)]
        + description_block(d) + worn_block(d) + effects_block(d) + grant_block(d) + seq![
        text_v(""@),
        text_v("Any key to go back"@),
    ]
}

fn push_text_rows(rows: &mut Vec<Row>, lines: &Vec<String>, indent: bool)
    ensures
        final(rows).deep_view() == old(rows).deep_view() + text_rows(
            if indent {
                indented(lines.deep_view())
            } else {
                lines.deep_view()
            },
        ),
{
    let ghost start = rows.deep_view();
    let ghost want = text_rows(
        if indent {
            indented(lines.deep_view())
        } else {
            lines.deep_view()
        },
    );
    let mut i: usize = 0;
    while i < lines.len()
        invariant
            i <= lines@.len(),
            want.len() == lines@.len(),
            want == text_rows(
                if indent {
                    indented(lines.deep_view())
                } else {
                    lines.deep_view()
                },
            ),
            rows.deep_view() =~= start + want.take(i as int),
        decreases lines@.len() - i,
    {
        let line = if indent {
            let mut t = String::from_str("  ");
            t.append(lines[i].as_str());
            t
        } else {
            lines[i].clone()
        };
        push_row(rows, Row::Text(line));
        i = i + 1;
    }
    assert(want.take(lines@.len() as int) =~= want);
}

fn push_worn_block(rows: &mut Vec<Row>, d: &GearDetail)
    ensures
        final(rows).deep_view() == old(rows).deep_view() + worn_block(*d),
{
    let ghost start = rows.deep_view();
    match &d.worn {
        Some(w) => {
            push_row(rows, text_row(""));
            let mut stats = w.slot_label.clone();
            stats.append(": ");
            stats.append(w.stats.as_str());
            push_row(rows, Row::Text(stats));
            let mut compiled = String::from_str("Compiled at ");
            push_decimal(&mut compiled, w.quality as u64);
            compiled.append("% of spec");
            push_row(rows, Row::Text(compiled));
            if w.damage_band.0 != 0 || w.damage_band.1 != 0 || w.accuracy_bonus != 0 {
                push_row(rows, Row::Text(w.swing.clone()));
            }
        },
        None => {},
    }
    assert(rows.deep_view() =~= start + worn_block(*d));
}

fn push_grant_block(rows: &mut Vec<Row>, d: &GearDetail)
    ensures
        final(rows).deep_view() == old(rows).deep_view() + grant_block(*d),
{
    let ghost start = rows.deep_view();
    match &d.grant {
        Some(g) => {
            push_row(rows, text_row(""));
            let mut grants = String::from_str("Grants: ");
            grants.append(g.routine.name.as_str());
            push_row(rows, Row::Text(grants));
            push_text_rows(rows, &g.description, false);
            let mechanics = routine_mechanics(&g.routine);
            push_text_rows(rows, &mechanics, true);
        },
        None => {},
    }
    assert(rows.deep_view() =~= start + grant_block(*d));
}

pub fn gear_inspect_rows(d: &GearDetail, max_fusions: u32) -> (rows: Vec<Row>)
    ensures
        rows.deep_view() == spec_gear_inspect_rows(*d, max_fusions),
{
    let mut rows: Vec<Row> = Vec::new();
    push_row(&mut rows, tier_row(d.name.clone(), false, d.tier, max_fusions, d.rarity));
    push_row(&mut rows, text_row(""));
    let ghost a = rows.deep_view();
    match &d.description {
        Some(lines) => push_text_rows(&mut rows, lines, false),
        None => push_row(&mut rows, text_row("(no description)")),
    }
    assert(rows.deep_view() =~= a + description_block(*d));
    push_worn_block(&mut rows, d);
    let ghost c = rows.deep_view();
    if d.effects.len() > 0 {
        push_row(&mut rows, text_row(""));
        push_text_rows(&mut rows, &d.effects, false);
    }
    assert(rows.deep_view() =~= c + effects_block(*d));
    push_grant_block(&mut rows, d);
    push_row(&mut rows, text_row(""));
    push_row(&mut rows, text_row("Any key to go back"));
    assert(rows.deep_view() =~= spec_gear_inspect_rows(*d, max_fusions));
    rows
}

/// The gear inspect page, or the small note that nothing is selected.
pub fn draw_gear_inspect(inspect: Option<&GearDetail>, max_fusions: u32) -> (p: Popup)
    ensures
        p@ == match inspect {
            None => nothing_selected(),
            Some(d) => popup_v("Item"@, PopupSize::Large, spec_gear_inspect_rows(*d, max_fusions)),
        },
{
    match inspect {
        None => {
            let mut rows: Vec<Row> = Vec::new();
            push_row(&mut rows, text_row("Nothing selected."));
            popup("Item", PopupSize::Small, rows)
        },
        Some(d) => popup("Item", PopupSize::Large, gear_inspect_rows(d, max_fusions)),
    }
}

} // verus!
