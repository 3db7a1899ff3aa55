//! The detail page for an inspected tile.
use vstd::prelude::*;
use vstd::string::StringExecFns;

use crate::popup::{popup, popup_v, push_row, text_row, text_v, Popup, PopupSize, Row, RowView};
use crate::text::{decimal, joined_with, push_decimal, push_joined, push_signed, signed_decimal};
use crate::tint::Tint;

verus! {

/// One move a program knows.
#[derive(Debug)]
pub struct MoveView {
    pub name: String,
    pub power: i64,
}

/// What the engine reports of an inspected program. The two percentages are
/// already rounded to whole percent.
#[derive(Debug)]
pub struct InspectView {
    pub name: String,
    pub level: Option<u32>,
    pub is_boss: bool,
    pub is_tamed: bool,
    pub is_hostile: bool,
    pub hp: i64,
    pub max_hp: i64,
    pub atk: i64,
    pub def: i64,
    pub power: i64,
    pub taming_difficulty_pct: u32,
    pub quality: Option<String>,
    pub fusions: u32,
    /// The odds of decompiling it right now, or nothing without a catalyst.
    pub decompile_chance_pct: Option<u32>,
    pub habitats: Vec<String>,
    pub moves: Vec<MoveView>,
    /// The resource it works, by name.
    pub work_resource: Option<String>,
}

pub open spec fn title_line(v: InspectView) -> Seq<char> {
    v.name@ + (match v.level {
        Some(l) => " - Lv"@ + decimal(l as nat),
        None => ""@,
    }) + if v.is_boss {
        " [BOSS]"@
    } else {
        ""@
    }
}

pub open spec fn status_word(v: InspectView) -> Seq<char> {
    if v.is_tamed {
        "compiled (yours)"@
    } else if v.is_hostile {
        "rogue"@
    } else {
        "idle"@
    }
}

/// The inspect panel's decompile-odds readout: a percentage, or what is
/// missing when there are no odds to quote.
pub open spec fn decompile_chance_line(chance: Option<u32>) -> Seq<char> {
    match chance {
        Some(c) => "Decompile chance right now: "@ + decimal(c as nat) + "%"@,
        None => "Decompile chance right now: needs a taming catalyst"@,
    }
}

pub open spec fn move_label(m: MoveView) -> Seq<char> {
    m.name@ + " (pow "@ + signed_decimal(m.power as int) + ")"@
}

pub open spec fn move_labels(moves: Seq<MoveView>) -> Seq<Seq<char>> {
    Seq::new(moves.len(), |i: int| move_label(moves[i]))
}

/// The figures every program has.
pub open spec fn inspect_head(v: InspectView) -> Seq<RowView> {
    seq![
        RowView::TextColored(
            title_line(v),
            if v.is_boss {
                Tint::Red
            } else {
                Tint::White
            },
        ),
        text_v("Status: "@ + status_word(v)),
        text_v("Integrity: "@ + signed_decimal(v.hp as int) + "/"@ + signed_decimal(v.max_hp as int)),
        text_v(
            "Attack "@ + signed_decimal(v.atk as int) + "   Defense "@ + signed_decimal(v.def as int)
                + "   Power "@ + signed_decimal(v.power as int),
        ),
        text_v("Decompile difficulty: "@ + decimal(v.taming_difficulty_pct as nat) + "%"@),
    ]
}

/// The rows only some programs get: a potential, a fusion depth, and the
/// decompile odds for a wild hostile one.
pub open spec fn inspect_extras(v: InspectView, max_fusions: u32) -> Seq<RowView> {
    (match v.quality {
        Some(q) => seq![text_v("Potential: "@ + q@)],
        None => Seq::empty(),
    }) + (if v.fusions > 0 {
        seq![
            text_v(
                "Fusions: "@ + decimal(v.fusions as nat) + "/"@ + decimal(max_fusions as nat) + if v.fusions
                    >= max_fusions {
                    " (can't be fused again)"@
                } else {
                    ""@
                },
            ),
        ]
    } else {
        Seq::empty()
    }) + if v.is_hostile && !v.is_tamed {
        seq![RowView::TextColored(decompile_chance_line(v.decompile_chance_pct), Tint::Magenta)]
    } else {
        Seq::empty()
    }
}

/// Where it lives, what it knows, what it works, and the keys.
pub open spec fn inspect_tail(v: InspectView) -> Seq<RowView> {
    seq![
        text_v(
            "Habitats: "@ + if v.habitats@.len() == 0 {
                "unknown"@
            } else {
                joined_with(v.habitats.deep_view(), ", "@)
            },
        ),
        text_v(
            "Moves: "@ + if v.moves@.len() == 0 {
                "none"@
            } else {
                joined_with(move_labels(v.moves@), ", "@)
            },
        ),
    ] + (match v.work_resource {
        Some(res) => seq![text_v("Work aptitude: "@ + res@)],
        None => Seq::empty(),
    }) + seq![text_v(""@), text_v("Press any key to go back, Esc to close"@)]
}

fn head_block(rows: &mut Vec<Row>, v: &InspectView)
    ensures
        final(rows).deep_view() == old(rows).deep_view() + inspect_head(*v),
{
    let ghost start = rows.deep_view();
    let mut title = String::from_str(v.name.as_str());
    match v.level {
        Some(l) => {
            title.append(" - Lv");
            push_decimal(&mut title, l as u64);
        },
        None => {
            proof {
                reveal_strlit("");
            }
        },
    }
    if v.is_boss {
        title.append(" [BOSS]");
    } else {
        proof {
            reveal_strlit("");
        }
    }
    assert(title@ =~= title_line(*v));
    let status = if v.is_tamed {
        "compiled (yours)"
    } else if v.is_hostile {
        "rogue"
    } else {
        "idle"
    };
    let mut status_row = String::from_str("Status: ");
    status_row.append(status);
    let mut integrity = String::from_str("Integrity: ");
    push_signed(&mut integrity, v.hp);
    integrity.append("/");
    push_signed(&mut integrity, v.max_hp);
    let mut stats = String::from_str("Attack ");
    push_signed(&mut stats, v.atk);
    stats.append("   Defense ");
    push_signed(&mut stats, v.def);
    stats.append("   Power ");
    push_signed(&mut stats, v.power);
    let mut difficulty = String::from_str("Decompile difficulty: ");
    push_decimal(&mut difficulty, v.taming_difficulty_pct as u64);
    difficulty.append("%");
    push_row(
        rows,
        Row::TextColored(
            title,
            if v.is_boss {
                Tint::Red
            } else {
                Tint::White
            },
        ),
    );
    push_row(rows, Row::Text(status_row));
    push_row(rows, Row::Text(integrity));
    push_row(rows, Row::Text(stats));
    push_row(rows, Row::Text(difficulty));
    assert(rows.deep_view() =~= start + inspect_head(*v));
}

fn extras_block(rows: &mut Vec<Row>, v: &InspectView, max_fusions: u32)
    ensures
        final(rows).deep_view() == old(rows).deep_view() + inspect_extras(*v, max_fusions),
{
    let ghost start = rows.deep_view();
    match &v.quality {
        Some(q) => {
            let mut s = String::from_str("Potential: ");
            s.append(q.as_str());
            push_row(rows, Row::Text(s));
        },
        None => {},
    }
    let ghost after_quality = rows.deep_view();
    if v.fusions > 0 {
        let mut s = String::from_str("Fusions: ");
        push_decimal(&mut s, v.fusions as u64);
        s.append("/");
        push_decimal(&mut s, max_fusions as u64);
        if v.fusions >= max_fusions {
            s.append(" (can't be fused again)");
        } else {
            proof {
                reveal_strlit("");
            }
        }
        push_row(rows, Row::Text(s));
    }
    let ghost after_fusions = rows.deep_view();
    if v.is_hostile && !v.is_tamed {
        let mut s = String::from_str("Decompile chance right now: ");
        match v.decompile_chance_pct {
            Some(c) => {
                push_decimal(&mut s, c as u64);
                s.append("%");
            },
            None => {
                s.append("needs a taming catalyst");
            },
        }
        proof {
            reveal_strlit("Decompile chance right now: ");
            reveal_strlit("needs a taming catalyst");
            reveal_strlit("Decompile chance right now: needs a taming catalyst");
        }
        assert(s@ =~= decompile_chance_line(v.decompile_chance_pct));
        push_row(rows, Row::TextColored(s, Tint::Magenta));
    }
    assert(rows.deep_view() =~= start + inspect_extras(*v, max_fusions));
}

fn tail_block(rows: &mut Vec<Row>, v: &InspectView)
    ensures
        final(rows).deep_view() == old(rows).deep_view() + inspect_tail(*v),
{
    let ghost start = rows.deep_view();
    let mut habitats = String::from_str("Habitats: ");
    if v.habitats.len() == 0 {
        habitats.append("unknown");
    } else {
        push_joined(&mut habitats, &v.habitats, ", ");
    }
    let mut labels: Vec<String> = Vec::new();
    let mut i: usize = 0;
    while i < v.moves.len()
        invariant
            i <= v.moves@.len(),
            labels.deep_view() =~= move_labels(v.moves@).subrange(0, i as int),
        decreases v.moves@.len() - i,
    {
        let mut s = String::from_str(v.moves[i].name.as_str());
        s.append(" (pow ");
        push_signed(&mut s, v.moves[i].power);
        s.append(")");
        let ghost before = labels.deep_view();
        labels.push(s);
        i = i + 1;
        proof {
            assert(labels.deep_view() =~= before.push(s@));
        }
    }
    assert(move_labels(v.moves@).subrange(0, v.moves@.len() as int) =~= move_labels(v.moves@));
    let mut moves = String::from_str("Moves: ");
    if v.moves.len() == 0 {
        moves.append("none");
    } else {
        push_joined(&mut moves, &labels, ", ");
    }
    push_row(rows, Row::Text(habitats));
    push_row(rows, Row::Text(moves));
    match &v.work_resource {
        Some(res) => {
            let mut s = String::from_str("Work aptitude: ");
            s.append(res.as_str());
            push_row(rows, Row::Text(s));
        },
        None => {},
    }
    push_row(rows, text_row(""));
    push_row(rows, text_row("Press any key to go back, Esc to close"));
    assert(rows.deep_view() =~= start + inspect_tail(*v));
}

/// The detail page for an inspected program, or a small note when it is
/// gone. `max_fusions` is the engine's fusion ceiling.
pub fn draw_inspect_detail(view: Option<&InspectView>, max_fusions: u32) -> (p: Popup)
    ensures
        p@ == match view {
            None => popup_v(
                "Inspect"@,
                PopupSize::Small,
                seq![text_v("That program is gone. Press any key to go back."@)],
            ),
            Some(v) => popup_v(
                "Inspect"@,
                PopupSize::Large,
                inspect_head(*v) + inspect_extras(*v, max_fusions) + inspect_tail(*v),
            ),
        },
{
    match view {
        None => {
            let mut rows: Vec<Row> = Vec::new();
            push_row(&mut rows, text_row("That program is gone. Press any key to go back."));
            popup("Inspect", PopupSize::Small, rows)
        },
        Some(v) => {
            let mut rows: Vec<Row> = Vec::new();
            head_block(&mut rows, v);
            extras_block(&mut rows, v, max_fusions);
            tail_block(&mut rows, v);
            assert(rows.deep_view() =~= inspect_head(*v) + inspect_extras(*v, max_fusions)
                + inspect_tail(*v));
            popup("Inspect", PopupSize::Large, rows)
        },
    }
}

} // verus!
