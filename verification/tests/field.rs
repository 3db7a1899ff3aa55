use feral_gui::level_up::{level_up_page, LevelUpReport, StatRow, ESC_HINT, PERKS_HINT};
use feral_gui::crew::BuffView;
use feral_gui::palette::GlyphColor;
use feral_gui::popup::{IconInk, PopupSize, Row};
use feral_gui::screens::{
    buff_rows, draw_field_cast, draw_field_cast_ally, field_cast_target_rows, FieldCastTarget,
    FieldRoutine, RunningBuff, BATTLE_BUFF_ROW_CAP, BUFF_NAME_W,
};
use feral_gui::sections::cap_rows;
use feral_gui::tint::Tint;

fn buff(name: &str, magnitude: &str, remaining: &str, holder: Option<&str>) -> BuffView {
    BuffView {
        name: name.to_string(),
        magnitude: magnitude.to_string(),
        remaining: remaining.to_string(),
        holder: holder.map(str::to_string),
    }
}

fn text_of(row: &Row) -> &str {
    match row {
        Row::Item { text, .. } => text,
        _ => panic!("expected an item row, got a text row"),
    }
}

fn suffix_of(row: &Row) -> Option<&str> {
    match row {
        Row::Item { suffix, .. } => suffix.as_deref(),
        _ => None,
    }
}

fn indicator_of(row: &Row) -> Option<&str> {
    match row {
        Row::TextColored(s, _) => Some(s),
        _ => None,
    }
}

fn at(s: &str, col: usize) -> String {
    s.chars().skip(col).collect()
}

fn named_buffs(names: &[&str]) -> Vec<BuffView> {
    names.iter().map(|n| buff(n, "DEF+2", "5t", None)).collect()
}

#[test]
fn one_row_per_buff_in_the_order_given() {
    let buffs = vec![
        buff("Hardened Shell", "DEF+2", "5t", None),
        buff("Trace Analysis", "XP+15%", "3t", None),
    ];
    let rows = buff_rows(&buffs);
    assert_eq!(rows.len(), 2);
    assert!(text_of(&rows[0]).contains("Hardened Shell"));
    assert!(text_of(&rows[1]).contains("Trace Analysis"));
}

#[test]
fn only_a_companion_borne_buff_carries_a_holder_tag() {
    let rows = buff_rows(&[
        buff("Hardened Shell", "DEF+2", "5t", None),
        buff("Data Cache", "HP+1/t", "5t", Some("Sparkgrub")),
    ]);
    assert!(!text_of(&rows[0]).contains('('));
    assert!(text_of(&rows[1]).contains("(Sparkgrub)"));
}

#[test]
fn no_active_buffs_produces_no_rows() {
    assert!(buff_rows(&[]).is_empty());
}

#[test]
fn a_long_buff_name_does_not_push_the_magnitude_out_of_the_panel() {
    let rows = buff_rows(&[
        buff("Shell", "DEF+2", "5t", None),
        buff("A Very Long Field Routine Name That Overruns The Column", "DEF+2", "5t", None),
    ]);
    let magnitude_col = BUFF_NAME_W + 1;
    assert!(at(text_of(&rows[0]), magnitude_col).starts_with("DEF+2"));
    assert!(at(text_of(&rows[1]), magnitude_col).starts_with("DEF+2"));
    assert!(text_of(&rows[1]).contains('\u{2026}'));
}

#[test]
fn remaining_ticks_ride_in_the_rows_suffix() {
    let rows = buff_rows(&[buff("Shell", "DEF+2", "7t", None)]);
    assert_eq!(suffix_of(&rows[0]), Some("7t"));
    assert_eq!(text_of(&rows[0]), "Shell                DEF+2");
}

#[test]
fn a_list_longer_than_the_battle_cap_emits_exactly_the_cap_including_the_indicator() {
    let buffs = named_buffs(&["Alpha", "Bravo", "Charlie", "Delta", "Echo", "Foxtrot"]);
    let rows = cap_rows(buff_rows(&buffs), BATTLE_BUFF_ROW_CAP);
    assert_eq!(rows.len(), BATTLE_BUFF_ROW_CAP);
    assert!(text_of(&rows[0]).contains("Alpha"));
    assert!(text_of(&rows[1]).contains("Bravo"));
    assert!(text_of(&rows[2]).contains("Charlie"));
    assert_eq!(indicator_of(&rows[3]), Some("+3 more"));
    assert!(matches!(&rows[3], Row::TextColored(_, Tint::TextDim)));
}

#[test]
fn a_list_at_or_under_the_battle_cap_emits_no_indicator() {
    let rows = cap_rows(buff_rows(&named_buffs(&["Alpha", "Bravo", "Charlie", "Delta"])), BATTLE_BUFF_ROW_CAP);
    assert_eq!(rows.len(), 4);
    assert!(rows.iter().all(|r| indicator_of(r).is_none()));
    assert!(text_of(&rows[3]).contains("Delta"));
    let rows = cap_rows(buff_rows(&named_buffs(&["Alpha", "Bravo"])), BATTLE_BUFF_ROW_CAP);
    assert_eq!(rows.len(), 2);
    assert!(rows.iter().all(|r| indicator_of(r).is_none()));
}

#[test]
fn a_list_longer_than_the_available_map_slots_emits_exactly_that_many_including_the_indicator() {
    let rows = cap_rows(buff_rows(&named_buffs(&["Alpha", "Bravo", "Charlie", "Delta", "Echo"])), 3);
    assert_eq!(rows.len(), 3);
    assert!(text_of(&rows[0]).contains("Alpha"));
    assert!(text_of(&rows[1]).contains("Bravo"));
    assert_eq!(indicator_of(&rows[2]), Some("+3 more"));
}

#[test]
fn a_list_that_fits_the_available_map_slots_emits_no_indicator() {
    let rows = cap_rows(buff_rows(&named_buffs(&["Alpha", "Bravo", "Charlie"])), 3);
    assert_eq!(rows.len(), 3);
    assert!(rows.iter().all(|r| indicator_of(r).is_none()));
}

#[test]
fn a_zero_slot_budget_still_counts_what_it_hid() {
    let rows = cap_rows(buff_rows(&named_buffs(&["Alpha", "Bravo"])), 0);
    assert_eq!(rows.len(), 1);
    assert_eq!(indicator_of(&rows[0]), Some("+2 more"));
}

fn target(name: &str, running: Option<RunningBuff>) -> FieldCastTarget {
    FieldCastTarget {
        shortcut: 'a',
        glyph: 'p',
        color: GlyphColor::White,
        name: name.to_string(),
        level: 6,
        hp: 22,
        max_hp: 28,
        atk: 8,
        def: 5,
        power: 19,
        running,
    }
}

#[test]
fn an_ally_picker_row_prices_the_target_by_its_stats() {
    let lines = field_cast_target_rows(&target("Kestrel", None));
    assert_eq!(lines.len(), 1);
    assert!(lines[0].contains("[a] Kestrel Lv6"));
    assert!(lines[0].contains("HP 22/28"));
    assert!(lines[0].contains("ATK 8"));
    assert!(lines[0].contains("DEF 5"));
    assert!(lines[0].contains("PWR 19"));
    assert_eq!(lines[0], "[a] Kestrel Lv6 - HP 22/28  ATK 8  DEF 5  PWR 19");
}

#[test]
fn an_ally_picker_row_says_what_the_cast_would_replace() {
    let mut t = target(
        "Kestrel",
        Some(RunningBuff {
            name: "Repair Loop Single".to_string(),
            magnitude: "HP+7/4t".to_string(),
            remaining: "62t".to_string(),
        }),
    );
    t.shortcut = 'b';
    let lines = field_cast_target_rows(&t);
    assert_eq!(lines.len(), 2);
    assert!(lines[1].contains("Repair Loop Single"));
    assert!(lines[1].contains("HP+7/4t"));
    assert!(lines[1].contains("62t"));
    assert!(lines[1].starts_with(' '));
}

fn routine(name: &str) -> FieldRoutine {
    FieldRoutine {
        shortcut: 'a',
        name: name.to_string(),
        cost: "5 PWR".to_string(),
        description: "mends".to_string(),
        holder_label: "you".to_string(),
        unavailable: None,
    }
}

#[test]
fn the_ally_picker_draws_nothing_without_a_pending_routine() {
    let routines = vec![routine("Regen")];
    let targets = vec![target("Kestrel", None)];
    assert!(draw_field_cast_ally(&routines, None, &targets, 0).is_none());
    assert!(draw_field_cast_ally(&routines, Some(1), &targets, 0).is_none());
}

#[test]
fn the_ally_picker_lists_each_target_with_its_glyph() {
    let routines = vec![routine("Regen")];
    let targets = vec![
        target("Kestrel", None),
        target(
            "Scrapper",
            Some(RunningBuff {
                name: "Regen".to_string(),
                magnitude: "HP+2".to_string(),
                remaining: "9".to_string(),
            }),
        ),
    ];
    let p = draw_field_cast_ally(&routines, Some(0), &targets, 1).expect("a routine is pending");
    assert_eq!(p.title, "Run a Routine");
    assert_eq!(p.size, PopupSize::Large);
    assert!(matches!(&p.rows[0], Row::Text(t) if t == "Run Regen on whom?"));
    assert_eq!(p.rows.len(), 4);
    match &p.rows[2] {
        Row::Item { selected, icon, .. } => {
            assert!(*selected);
            assert_eq!(*icon, Some(('p', IconInk::Glyph(GlyphColor::White))));
        }
        _ => panic!("a target row is selectable"),
    }
    match &p.rows[3] {
        Row::Item { text, selected, color, .. } => {
            assert!(!*selected);
            assert_eq!(*color, Tint::TextDim);
            assert_eq!(text, "    replaces Regen HP+2 \u{2014} 9t left");
        }
        _ => panic!("the displaced buff rides its own dim row"),
    }
}

#[test]
fn an_unavailable_routine_is_greyed_not_hidden() {
    let mut r = routine("Overclock");
    r.unavailable = Some("not enough Power".to_string());
    let p = draw_field_cast(&[r], 0);
    match &p.rows[1] {
        Row::Item { text, color, selected, .. } => {
            assert!(*selected);
            assert_eq!(*color, Tint::TextDim);
            assert!(text.ends_with(" \u{2014} not enough Power"), "{text}");
        }
        _ => panic!("the routine still has its row"),
    }
}

fn level_up_report() -> LevelUpReport {
    LevelUpReport {
        from_level: 99,
        to_level: 99,
        zone: 99,
        stats: vec![
            StatRow { label: "Max HP".to_string(), before: 1234, after: 9999 },
            StatRow { label: "ATK".to_string(), before: 1234, after: 9999 },
        ],
        swings_to_win: (999, 999),
        swings_to_down_you: (999, 999),
        perk_points_gained: 98,
        perk_points_unspent: 998,
        decompiler_gained: 98,
    }
}

#[test]
fn every_whole_figure_of_a_level_up_is_written() {
    let hit = format!("  Hit chance      {:.0}% \u{2192} {:.0}%", 0.05f64 * 100.0, 0.99f64 * 100.0);
    let swing = format!("  Per swing       {:.1} \u{2192} {:.1}", 1234.9f64, 9999.9f64);
    let page = level_up_page(&level_up_report(), hit, swing);
    assert_eq!(page.title, "LEVEL 99 \u{2192} 99");
    assert_eq!(page.stats, vec!["  Max HP   1234 \u{2192} 9999", "  ATK   1234 \u{2192} 9999"]);
    assert_eq!(page.duel_header, "AGAINST A TYPICAL ZONE 99 PROGRAM");
    assert_eq!(page.duel.len(), 4);
    assert!(page.duel[0].contains("5% \u{2192} 99%"));
    assert!(page.duel[1].contains("1234.9 \u{2192} 9999.9"));
    assert_eq!(page.duel[2], "  Swings to win    999 \u{2192} 999");
    assert_eq!(page.duel[3], "  Its swings to down you   999 \u{2192} 999");
    assert_eq!(page.perk_line, "  +98 Perk Points (998 unspent)");
    assert_eq!(page.decompiler_line, "  +98 Decompiler skill");
    assert_eq!(PERKS_HINT, "[P] Perks");
    assert_eq!(ESC_HINT, "[Esc] Close");
}

#[test]
fn a_stat_that_fell_keeps_its_sign() {
    let mut r = level_up_report();
    r.stats = vec![StatRow { label: "DEF".to_string(), before: 3, after: -1 }];
    let page = level_up_page(&r, String::new(), String::new());
    assert_eq!(page.stats, vec!["  DEF   3 \u{2192} -1"]);
}
