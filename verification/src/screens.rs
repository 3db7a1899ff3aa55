//! In-run popups built from what the engine reports: running a field
//! routine, erasing a copy, an outpost's own page, and the inspect page.
use vstd::prelude::*;
use vstd::string::StringExecFns;

use crate::crew::BuffView;
use crate::menus::keyed;
use crate::palette::GlyphColor;
use crate::popup::{
    colored_item_row, colored_item_v, item_row, item_v, popup, popup_v, push_row,
    spent_item_row, spent_item_v, text_row, text_v, with_icon, with_icon_v, IconInk, Popup,
    PopupSize, PopupView, Row, RowView,
};
use crate::text::{cell, decimal, ellipsis_cell, ellipsized, push_char, push_decimal, push_signed, signed_decimal};
use crate::tint::Tint;

verus! {

/// An installed field routine, as the picker lists it.
#[derive(Debug)]
pub struct FieldRoutine {
    pub shortcut: char,
    pub name: String,
    /// The cost, already carrying its unit.
    pub cost: String,
    pub description: String,
    pub holder_label: String,
    /// Why the routine cannot run right now, if it cannot.
    pub unavailable: Option<String>,
}

pub open spec fn routine_label(r: FieldRoutine) -> Seq<char> {
    keyed(r.shortcut, r.name@ + " \u{2014} "@ + r.cost@ + " \u{2014} "@ + r.description@ + " ("@
        + r.holder_label@ + ")"@)
}

/// A routine's row: selectable when it can run, greyed but still selectable
/// with its reason appended when it cannot.
pub open spec fn routine_row(r: FieldRoutine, selected: bool) -> RowView {
    match r.unavailable {
        None => item_v(routine_label(r), selected),
        Some(reason) => spent_item_v(routine_label(r) + " \u{2014} "@ + reason@, selected),
    }
}

pub open spec fn routine_rows(rs: Seq<FieldRoutine>, selected: usize) -> Seq<RowView> {
    Seq::new(rs.len(), |i: int| routine_row(rs[i], i == selected))
}

fn routine_item(r: &FieldRoutine, selected: bool) -> (row: Row)
    ensures
        row@ == routine_row(*r, selected),
{
    let mut s = String::from_str("[");
    push_char(&mut s, r.shortcut);
    s.append("] ");
    s.append(r.name.as_str());
    s.append(" \u{2014} ");
    s.append(r.cost.as_str());
    s.append(" \u{2014} ");
    s.append(r.description.as_str());
    s.append(" (");
    s.append(r.holder_label.as_str());
    s.append(")");
    assert(s@ =~= routine_label(*r));
    match &r.unavailable {
        None => item_row(s, selected),
        Some(reason) => {
            s.append(" \u{2014} ");
            s.append(reason.as_str());
            spent_item_row(s, selected)
        },
    }
}

/// Which installed field routine to run. An unavailable one is greyed
/// rather than hidden, so a routine the player installed never vanishes.
pub fn draw_field_cast(routines: &[FieldRoutine], selected: usize) -> (p: Popup)
    ensures
        p@ == popup_v(
            "Run a Routine"@,
            PopupSize::Large,
            seq![text_v("Run which routine?"@)] + (if routines@.len() == 0 {
                seq![
                    text_v(
                        "(no field routines installed \u{2014} install one from the routines menu)"@,
                    ),
                ]
            } else {
                Seq::empty()
            }) + routine_rows(routines@, selected),
        ),
{
    let mut rows: Vec<Row> = Vec::new();
    push_row(&mut rows, text_row("Run which routine?"));
    if routines.len() == 0 {
        push_row(
            &mut rows,
            text_row("(no field routines installed \u{2014} install one from the routines menu)"),
        );
    }
    let ghost start = rows.deep_view();
    let mut i: usize = 0;
    while i < routines.len()
        invariant
            i <= routines@.len(),
            rows.deep_view() =~= start + routine_rows(routines@, selected).subrange(0, i as int),
        decreases routines@.len() - i,
    {
        push_row(&mut rows, routine_item(&routines[i], i == selected));
        i = i + 1;
    }
    assert(routine_rows(routines@, selected).subrange(0, routines@.len() as int) =~= routine_rows(
        routines@,
        selected,
    ));
    popup("Run a Routine", PopupSize::Large, rows)
}

/// The erase prompt's page for one carried copy named `name`, with its
/// fusion note when it is fused (erasing is irreversible, and a fused copy
/// is worth many plain ones), the quantity typed so far (1 until something
/// is typed), and how many are held against the buffer.
pub open spec fn erase_popup(
    name: Seq<char>,
    fusion_note: Option<Seq<char>>,
    quantity_input: Seq<char>,
    held: u32,
    buffer: u32,
) -> PopupView {
    popup_v(
        "Erase"@,
        PopupSize::Large,
        seq![
            text_v(
                "Erase how many "@ + name + (match fusion_note {
                    Some(n) => " "@ + n,
                    None => ""@,
                }) + "?"@,
            ),
            text_v(""@),
            text_v(
                "Quantity: "@ + if quantity_input.len() == 0 {
                    "1"@
                } else {
                    quantity_input
                },
            ),
            text_v(""@),
            text_v(
                "You have: "@ + decimal(held as nat) + "        Buffer: "@ + decimal(
                    buffer as nat,
                ),
            ),
            text_v(""@),
            text_v("Type digits, Enter to erase"@),
            text_v("[A] Erase all   Esc to go back"@),
        ],
    )
}

fn erase_prompt(
    name: &str,
    fusion_note: Option<&str>,
    quantity_input: &str,
    held: u32,
    buffer: u32,
) -> (p: Popup)
    ensures
        p@ == erase_popup(
            name@,
            match fusion_note {
                Some(n) => Some(n@),
                None => None,
            },
            quantity_input@,
            held,
            buffer,
        ),
{
    let mut ask = String::from_str("Erase how many ");
    ask.append(name);
    match fusion_note {
        Some(n) => {
            ask.append(" ");
            ask.append(n);
        },
        None => {
            proof {
                reveal_strlit("");
            }
        },
    }
    ask.append("?");
    let mut quantity = String::from_str("Quantity: ");
    if quantity_input.unicode_len() == 0 {
        quantity.append("1");
    } else {
        quantity.append(quantity_input);
    }
    let mut have = String::from_str("You have: ");
    push_decimal(&mut have, held as u64);
    have.append("        Buffer: ");
    push_decimal(&mut have, buffer as u64);
    assert(ask@ =~= "Erase how many "@ + name@ + (match fusion_note {
        Some(n) => " "@ + n@,
        None => ""@,
    }) + "?"@);
    assert(have@ =~= "You have: "@ + decimal(held as nat) + "        Buffer: "@ + decimal(
        buffer as nat,
    ));
    let mut rows: Vec<Row> = Vec::new();
    push_row(&mut rows, Row::Text(ask));
    push_row(&mut rows, text_row(""));
    push_row(&mut rows, Row::Text(quantity));
    push_row(&mut rows, text_row(""));
    push_row(&mut rows, Row::Text(have));
    push_row(&mut rows, text_row(""));
    push_row(&mut rows, text_row("Type digits, Enter to erase"));
    push_row(&mut rows, text_row("[A] Erase all   Esc to go back"));
    popup("Erase", PopupSize::Large, rows)
}

/// The copy the erase prompt asks about: its name, its fusion note when it
/// is fused, and how many of it the pack holds.
#[derive(Debug)]
pub struct EraseSubject {
    pub name: String,
    pub fusion_note: Option<String>,
    pub held: u32,
}

/// The erase prompt for the pending copy, or nothing at all when no copy is
/// pending.
pub fn draw_erase_quantity(pending: Option<&EraseSubject>, quantity_input: &str, buffer: u32) -> (p:
    Option<Popup>)
    ensures
        match pending {
            None => p is None,
            Some(c) => p matches Some(q) && q@ == erase_popup(
                c.name@,
                match c.fusion_note {
                    Some(n) => Some(n@),
                    None => None,
                },
                quantity_input@,
                c.held,
                buffer,
            ),
        },
{
    match pending {
        None => None,
        Some(c) => {
            let note = match &c.fusion_note {
                Some(n) => Some(n.as_str()),
                None => None,
            };
            Some(erase_prompt(c.name.as_str(), note, quantity_input, c.held, buffer))
        },
    }
}


/// How many rows the battle screen's buff panel shows at once, its `+N
/// more` row included.
pub const BATTLE_BUFF_ROW_CAP: usize = 4;

/// Width of the buff name column, in cells.
pub const BUFF_NAME_W: usize = 20;

/// How far a continuation line sits in under the row it belongs to.
pub const CONTINUATION_INDENT: usize = 4;

pub open spec fn buff_item_text(b: BuffView) -> Seq<char> {
    ellipsized(b.name@, BUFF_NAME_W as nat) + " "@ + b.magnitude@ + match b.holder {
        Some(h) => " ("@ + h@ + ")"@,
        None => Seq::empty(),
    }
}

/// A running buff's row: its name in a fixed cell, its magnitude, and its
/// holder for a companion-borne one; the ticks it has left ride in the
/// suffix.
pub open spec fn buff_item(b: BuffView) -> RowView {
    RowView::Item {
        text: buff_item_text(b),
        selected: false,
        bold: false,
        color: Tint::Text,
        suffix: Some(b.remaining@),
        icon: None,
    }
}

/// One row per running buff, in the order given.
pub fn buff_rows(buffs: &[BuffView]) -> (rows: Vec<Row>)
    ensures
        rows.deep_view() == Seq::new(buffs@.len(), |i: int| buff_item(buffs@[i])),
{
    let mut rows: Vec<Row> = Vec::new();
    let mut i: usize = 0;
    while i < buffs.len()
        invariant
            i <= buffs@.len(),
            rows.deep_view() =~= Seq::new(i as nat, |k: int| buff_item(buffs@[k])),
        decreases buffs@.len() - i,
    {
        let b = &buffs[i];
        let mut text = ellipsis_cell(b.name.as_str(), BUFF_NAME_W);
        text.append(" ");
        text.append(b.magnitude.as_str());
        match &b.holder {
            Some(h) => {
                text.append(" (");
                text.append(h.as_str());
                text.append(")");
            },
            None => {},
        }
        assert(text@ =~= buff_item_text(*b));
        push_row(
            &mut rows,
            Row::Item {
                text,
                selected: false,
                bold: false,
                color: Tint::Text,
                suffix: Some(b.remaining.clone()),
                icon: None,
            },
        );
        i = i + 1;
    }
    rows
}

/// The buff a cast would displace.
#[derive(Debug)]
pub struct RunningBuff {
    pub name: String,
    pub magnitude: String,
    pub remaining: String,
}

/// One target a `OneAlly` field routine can land on.
#[derive(Debug)]
pub struct FieldCastTarget {
    pub shortcut: char,
    pub glyph: char,
    pub color: GlyphColor,
    pub name: String,
    pub level: u32,
    pub hp: i32,
    pub max_hp: i32,
    pub atk: i32,
    pub def: i32,
    pub power: i32,
    /// A running buff of the kind this cast would replace.
    pub running: Option<RunningBuff>,
}

/// The lines a piece of prose takes under the row it belongs to: none for
/// no prose, otherwise one line indented under the row.
pub open spec fn continuation_v(text: Seq<char>) -> Seq<Seq<char>> {
    if text.len() == 0 {
        Seq::empty()
    } else {
        seq![Seq::new(CONTINUATION_INDENT as nat, |_i: int| ' ') + text]
    }
}

pub open spec fn target_head(t: FieldCastTarget) -> Seq<char> {
    keyed(
        t.shortcut,
        t.name@ + " Lv"@ + decimal(t.level as nat) + " - HP "@ + signed_decimal(t.hp as int) + "/"@
            + signed_decimal(t.max_hp as int) + "  ATK "@ + signed_decimal(t.atk as int) + "  DEF "@
            + signed_decimal(t.def as int) + "  PWR "@ + signed_decimal(t.power as int),
    )
}

pub open spec fn displaced_text(t: FieldCastTarget) -> Seq<char> {
    match t.running {
        Some(b) => "replaces "@ + b.name@ + " "@ + b.magnitude@ + " \u{2014} "@ + b.remaining@
            + "t left"@,
        None => Seq::empty(),
    }
}

/// One ally-picker target's lines: the row its shortcut selects, priced with
/// the stats the buff is about to land on, then the buff this cast would
/// displace, under it.
pub open spec fn spec_field_cast_target_rows(t: FieldCastTarget) -> Seq<Seq<char>> {
    seq![target_head(t)] + continuation_v(displaced_text(t))
}

pub fn field_cast_target_rows(t: &FieldCastTarget) -> (lines: Vec<String>)
    ensures
        lines.deep_view() == spec_field_cast_target_rows(*t),
{
    let mut head = String::from_str("[");
    push_char(&mut head, t.shortcut);
    head.append("] ");
    head.append(t.name.as_str());
    head.append(" Lv");
    push_decimal(&mut head, t.level as u64);
    head.append(" - HP ");
    push_signed(&mut head, t.hp as i64);
    head.append("/");
    push_signed(&mut head, t.max_hp as i64);
    head.append("  ATK ");
    push_signed(&mut head, t.atk as i64);
    head.append("  DEF ");
    push_signed(&mut head, t.def as i64);
    head.append("  PWR ");
    push_signed(&mut head, t.power as i64);
    assert(head@ =~= target_head(*t));
    let mut lines: Vec<String> = Vec::new();
    lines.push(head);
    match &t.running {
        Some(b) => {
            let mut line = String::new();
            let mut k: usize = 0;
            while k < CONTINUATION_INDENT
                invariant
                    k <= CONTINUATION_INDENT,
                    line@ =~= Seq::new(k as nat, |_i: int| ' '),
                decreases CONTINUATION_INDENT - k,
            {
                push_char(&mut line, ' ');
                k = k + 1;
            }
            line.append("replaces ");
            line.append(b.name.as_str());
            line.append(" ");
            line.append(b.magnitude.as_str());
            line.append(" \u{2014} ");
            line.append(b.remaining.as_str());
            line.append("t left");
            proof {
                reveal_strlit("replaces ");
            }
            assert(line@ =~= Seq::new(CONTINUATION_INDENT as nat, |_i: int| ' ') + displaced_text(*t));
            lines.push(line);
        },
        None => {},
    }
    assert(lines.deep_view() =~= spec_field_cast_target_rows(*t));
    lines
}

/// A target's rows on the picker: its head row, selectable and carrying the
/// target's glyph, then the displaced buff dim and never selected.
pub open spec fn target_rows(t: FieldCastTarget, selected: bool) -> Seq<RowView> {
    let lines = spec_field_cast_target_rows(t);
    seq![with_icon_v(item_v(lines[0], selected), t.glyph, IconInk::Glyph(t.color))] + Seq::new(
        (lines.len() - 1) as nat,
        |k: int| colored_item_v(lines[k + 1], false, Tint::TextDim),
    )
}

pub open spec fn all_target_rows(ts: Seq<FieldCastTarget>, selected: usize) -> Seq<RowView>
    decreases ts.len(),
{
    if ts.len() == 0 {
        Seq::empty()
    } else {
        all_target_rows(ts.drop_last(), selected) + target_rows(
            ts.last(),
            (ts.len() - 1) == selected,
        )
    }
}

/// Who a `OneAlly` field routine picked from `routines` lands on: nothing to
/// draw when no routine is pending or the pending one is gone, otherwise a
/// row per target in the order given.
pub fn draw_field_cast_ally(
    routines: &[FieldRoutine],
    pending: Option<usize>,
    targets: &[FieldCastTarget],
    selected: usize,
) -> (p: Option<Popup>)
    ensures
        match pending {
            Some(k) if k < routines@.len() => p matches Some(pp) && pp@ == popup_v(
                "Run a Routine"@,
                PopupSize::Large,
                seq![text_v("Run "@ + routines@[k as int].name@ + " on whom?"@)] + all_target_rows(
                    targets@,
                    selected,
                ),
            ),
            _ => p is None,
        },
{
    let k = match pending {
        Some(k) => k,
        None => return None,
    };
    if k >= routines.len() {
        return None;
    }
    let mut ask = String::from_str("Run ");
    ask.append(routines[k].name.as_str());
    ask.append(" on whom?");
    let mut rows: Vec<Row> = Vec::new();
    push_row(&mut rows, Row::Text(ask));
    let ghost head = rows.deep_view();
    let mut i: usize = 0;
    while i < targets.len()
        invariant
            i <= targets@.len(),
            rows.deep_view() =~= head + all_target_rows(targets@.take(i as int), selected),
        decreases targets@.len() - i,
    {
        let t = &targets[i];
        let lines = field_cast_target_rows(t);
        let ghost before = rows.deep_view();
        let ghost want = target_rows(*t, i == selected);
        push_row(
            &mut rows,
            with_icon(item_row(lines[0].clone(), i == selected), t.glyph, IconInk::Glyph(t.color)),
        );
        let mut j: usize = 1;
        while j < lines.len()
            invariant
                1 <= j <= lines@.len(),
                lines.deep_view() == spec_field_cast_target_rows(*t),
                want == target_rows(*t, i == selected),
                rows.deep_view() =~= before + want.take(j as int),
            decreases lines@.len() - j,
        {
            push_row(&mut rows, colored_item_row(lines[j].clone(), false, Tint::TextDim));
            j = j + 1;
        }
        proof {
            assert(want.take(lines@.len() as int) =~= want);
            assert(targets@.take(i + 1).drop_last() =~= targets@.take(i as int));
            assert(targets@.take(i + 1).last() == targets@[i as int]);
        }
        i = i + 1;
    }
    assert(targets@.take(targets@.len() as int) =~= targets@);
    Some(popup("Run a Routine", PopupSize::Large, rows))
}

} // verus!
