use feral_gui::column::{draw_collapsed_bar, draw_tab_row, tab_of, AttentionKind, AttentionRow};
use feral_gui::info::InfoTab;
use feral_gui::log_frame::{
    channel_tag, filter_label, filter_pieces, log_body, vitals_segments, LogFilter, Vitals,
    WrappedEntry,
};
use feral_gui::palette::{
    glyph, player_look_color, rgb, Rgb, ATTENTION, BODY, EMPHASIS, FAINT, HEALTHY, PLAYER, THREAT,
};
use feral_gui::palette::{machine_color, GlyphColor, MachineShade, MachineStatus};
use feral_gui::status_bar::{badge_pieces, badge_with, identity_runs, identity_text, StatusBarState};
use feral_gui::strip::{join_segments, map_frame_segments, threat_pieces, TerrainRow, Threat};
use feral_gui::tint::{
    emphasizes_numbers, fusion_color, message_color, quality_tag_style, tier_color, MessageKind,
    MessageSource, QualityBand, Rarity, Tint,
};

const MAX_FUSIONS: u32 = 3;

const ALL_GLYPHS: [GlyphColor; 11] = [
    GlyphColor::White,
    GlyphColor::Gray,
    GlyphColor::Green,
    GlyphColor::DarkGreen,
    GlyphColor::Red,
    GlyphColor::Yellow,
    GlyphColor::Orange,
    GlyphColor::Blue,
    GlyphColor::Magenta,
    GlyphColor::Cyan,
    GlyphColor::Brown,
];

const KINDS: [MessageKind; 12] = [
    MessageKind::Info,
    MessageKind::Loot,
    MessageKind::LevelUp,
    MessageKind::Round,
    MessageKind::Outcome,
    MessageKind::PartyDamage,
    MessageKind::EnemyAttack,
    MessageKind::EnemySpecial,
    MessageKind::Heal,
    MessageKind::Complete,
    MessageKind::Refusal,
    MessageKind::Raid,
];

fn dist(a: Rgb, b: Rgb) -> f32 {
    let c = |v: u8| v as f32 / 255.0;
    (c(a.r) - c(b.r)).abs() + (c(a.g) - c(b.g)).abs() + (c(a.b) - c(b.b)).abs()
}

#[test]
fn no_content_hue_takes_a_reserved_role_by_accident() {
    for c in ALL_GLYPHS {
        assert_ne!(glyph(c), rgb(ATTENTION), "{c:?} wears ATTENTION");
        if glyph(c) == rgb(THREAT) {
            assert_eq!(c, GlyphColor::Red, "{c:?} wears THREAT");
        }
    }
}

#[test]
fn every_content_hue_is_separable_from_the_others() {
    let mut hues: Vec<(String, Rgb)> = ALL_GLYPHS.into_iter().map(|c| (format!("{c:?}"), glyph(c))).collect();
    hues.push(("PLAYER".to_string(), rgb(PLAYER)));
    for i in 0..6u8 {
        hues.push((format!("PLAYER_CHOICES[{i}]"), player_look_color(Some(i))));
    }
    for (i, (name, colour)) in hues.iter().enumerate() {
        for (other_name, other) in hues.iter().skip(i + 1) {
            assert!(dist(*colour, *other) > 0.25, "{name} is only {:.2} from {other_name}", dist(*colour, *other));
        }
    }
}

#[test]
fn the_con_ladder_gets_hotter_at_every_rung() {
    const MARGIN: f32 = 0.10;
    let warmth = |c: GlyphColor| {
        let c = glyph(c);
        c.r as f32 / 255.0 - c.g as f32 / 255.0
    };
    let rungs = [GlyphColor::Green, GlyphColor::Yellow, GlyphColor::Orange, GlyphColor::Red];
    for pair in rungs.windows(2) {
        assert!(warmth(pair[1]) - warmth(pair[0]) > MARGIN, "{:?} is not clearly hotter than {:?}", pair[1], pair[0]);
    }
}

#[test]
fn a_look_outside_the_swatches_falls_back_to_the_player_colour() {
    assert_eq!(player_look_color(None), rgb(PLAYER));
    assert_eq!(player_look_color(Some(6)), rgb(PLAYER));
    assert_eq!(player_look_color(Some(0)), rgb(0xbdcc70));
}

#[test]
fn fusion_color_separates_a_fused_thing_from_a_maxed_one() {
    assert_eq!(fusion_color(0, MAX_FUSIONS), None);
    assert_eq!(fusion_color(1, MAX_FUSIONS), Some(Tint::Cyan));
    assert_eq!(fusion_color(MAX_FUSIONS - 1, MAX_FUSIONS), Some(Tint::Cyan));
    assert_eq!(fusion_color(MAX_FUSIONS, MAX_FUSIONS), Some(Tint::Magenta));
    assert_eq!(fusion_color(MAX_FUSIONS + 1, MAX_FUSIONS), Some(Tint::Magenta));
}

#[test]
fn the_quality_tag_ramp_gains_emphasis_and_never_gives_it_back() {
    let plain = quality_tag_style(None);
    assert_eq!(plain, (Tint::Text, false));
    assert_eq!(quality_tag_style(Some(QualityBand::AsDesigned)), plain);
    let mut last = (Tint::Gray, false);
    for band in [QualityBand::Under, QualityBand::AsDesigned, QualityBand::Above, QualityBand::Exceptional] {
        let style = quality_tag_style(Some(band));
        assert!(style.1 >= last.1, "emphasis went backwards at {band:?}");
        last = style;
    }
    assert_eq!(quality_tag_style(Some(QualityBand::Under)), (Tint::Gray, false));
    assert_eq!(quality_tag_style(Some(QualityBand::Exceptional)), (Tint::Gold, true));
    assert_eq!(quality_tag_style(Some(QualityBand::Above)), (Tint::Text, true));
}

#[test]
fn fusion_outranks_rarity_in_a_menu_row() {
    assert_eq!(tier_color(0, MAX_FUSIONS, Rarity::Gold), Some(Tint::Gold));
    assert_eq!(tier_color(1, MAX_FUSIONS, Rarity::Gold), Some(Tint::Cyan));
    assert_eq!(tier_color(MAX_FUSIONS, MAX_FUSIONS, Rarity::Silver), Some(Tint::Magenta));
    assert_eq!(tier_color(0, MAX_FUSIONS, Rarity::Ordinary), None);
}

#[test]
fn the_log_colours_a_player_reads_mid_fight_are_all_distinct() {
    let kinds = [
        MessageKind::Loot,
        MessageKind::EnemyAttack,
        MessageKind::EnemySpecial,
        MessageKind::PartyDamage,
        MessageKind::Heal,
        MessageKind::Outcome,
    ];
    for (i, a) in kinds.iter().enumerate() {
        for b in &kinds[i + 1..] {
            assert_ne!(message_color(*a), message_color(*b), "{a:?} and {b:?}");
        }
    }
}

#[test]
fn the_lines_read_for_a_number_are_the_partys_own_blows_and_its_own_mending() {
    for kind in [MessageKind::PartyDamage, MessageKind::Heal] {
        assert!(emphasizes_numbers(kind), "{kind:?}");
    }
    for kind in [
        MessageKind::Info,
        MessageKind::Loot,
        MessageKind::LevelUp,
        MessageKind::Raid,
        MessageKind::Round,
        MessageKind::Outcome,
        MessageKind::EnemyAttack,
        MessageKind::EnemySpecial,
        MessageKind::Complete,
    ] {
        assert!(!emphasizes_numbers(kind), "{kind:?}");
    }
}

#[test]
fn a_pickup_and_a_sweep_outrank_the_channel_they_came_from() {
    for source in [MessageSource::Field, MessageSource::Base] {
        assert_eq!(channel_tag(MessageKind::Loot, source).0, "GAIN");
        assert_eq!(channel_tag(MessageKind::Raid, source).0, "ALERT");
    }
}

#[test]
fn every_other_kind_falls_through_to_its_source() {
    for kind in KINDS {
        if matches!(kind, MessageKind::Loot | MessageKind::Raid) {
            continue;
        }
        assert_eq!(channel_tag(kind, MessageSource::Field).0, "FIELD", "{kind:?}");
        assert_eq!(channel_tag(kind, MessageSource::Base).0, "BASE", "{kind:?}");
    }
}

#[test]
fn the_threat_strip_reads_the_hostiles_and_the_shields() {
    for (hostiles, shielded, want) in [
        (0usize, true, "shields holding"),
        (0, false, "no defence"),
        (2, true, "2 hostile"),
        (2, false, "no defence"),
    ] {
        let text: String = threat_pieces(Threat { hostiles, shielded }).iter().map(|p| p.text.as_str()).collect();
        assert!(text.contains(want), "{hostiles} hostiles, shielded={shielded} drew {text:?}");
        assert!(!text.contains("tick"), "the threat strip invented a countdown: {text:?}");
    }
    let calm: String = threat_pieces(Threat { hostiles: 0, shielded: true }).iter().map(|p| p.text.as_str()).collect();
    assert!(calm.contains("clear"));
}

fn grid_state(power: (u32, u32)) -> StatusBarState {
    StatusBarState { zone: 16, position: (3, -2), tick: 40, power, attention: vec![] }
}

fn grid_piece(state: &StatusBarState) -> (String, feral_gui::strip::Ink) {
    let runs = identity_runs(state);
    let last = runs.last().expect("the grid figure");
    (last.text.clone(), last.color)
}

#[test]
fn the_grid_figure_reddens_only_when_the_base_is_short() {
    let (text, color) = grid_piece(&grid_state((7, 4)));
    assert_eq!(text, "7/4");
    assert_eq!(color, hud(ATTENTION));
    let (_, healthy) = grid_piece(&grid_state((4, 8)));
    assert_eq!(healthy, hud(BODY));
    let (_, exact) = grid_piece(&grid_state((8, 8)));
    assert_eq!(exact, healthy);
}

#[test]
fn the_grid_segment_is_never_absent() {
    for power in [(0, 0), (7, 4), (188, 188)] {
        let text: String = identity_runs(&grid_state(power)).iter().map(|p| p.text.as_str()).collect();
        assert!(text.contains("[GRID] "), "no grid segment at {power:?}: {text:?}");
    }
}

fn nagging(kind: AttentionKind, text: &str, threat: bool) -> AttentionRow {
    AttentionRow { kind, text: text.to_string(), key: 'b', threat }
}

#[test]
fn a_calm_base_reads_all_nominal() {
    let pieces = badge_pieces(&[]);
    let text: String = pieces.iter().map(|p| p.text.as_str()).collect();
    assert_eq!(text, "ALL NOMINAL");
    assert_eq!(pieces[0].color, hud(HEALTHY));
}

#[test]
fn the_badge_names_the_first_row_and_its_key() {
    let rows = [nagging(AttentionKind::IdleStructures, "4 nodes without a program", false)];
    let text: String = badge_pieces(&rows).iter().map(|p| p.text.as_str()).collect();
    assert_eq!(text, "4 NODES WITHOUT A PROGRAM [b]");
}

#[test]
fn a_second_condition_is_counted_not_listed() {
    let rows = [
        nagging(AttentionKind::IdleStructures, "4 nodes without a program", false),
        nagging(AttentionKind::PerkPoints, "2 perk points unspent", false),
        nagging(AttentionKind::RosterFull, "roster full (3/3)", false),
    ];
    let text: String = badge_pieces(&rows).iter().map(|p| p.text.as_str()).collect();
    assert_eq!(text, "4 NODES WITHOUT A PROGRAM [b] +2");
    assert!(!text.contains("PERK"));
}

#[test]
fn a_threat_badge_is_red() {
    let hostile = [nagging(AttentionKind::StructureDamaged, "Mining Node damaged", true)];
    let calm = [nagging(AttentionKind::IdleStructures, "1 node without a program", false)];
    assert_eq!(badge_pieces(&hostile)[0].color, hud(THREAT));
    assert_eq!(badge_pieces(&calm)[0].color, hud(ATTENTION));
    assert_eq!(badge_pieces(&hostile)[2].color, hud(EMPHASIS));
    assert_eq!(badge_pieces(&calm)[2].color, hud(EMPHASIS));
}

fn idle() -> AttentionRow {
    nagging(AttentionKind::IdleStructures, "4 nodes without a program", false)
}

#[test]
fn a_closed_tab_still_wears_its_marker() {
    let rows = [idle()];
    let tabs = draw_tab_row(InfoTab::Crew, &rows);
    assert!(tabs.iter().any(|p| p.text.trim() == "!" && p.color == hud(ATTENTION) && p.bold));
    let bar: String = draw_collapsed_bar(InfoTab::Base, &rows).iter().map(|p| p.text.as_str()).collect();
    assert!(bar.contains("4 nodes without a program"), "{bar}");
}

#[test]
fn a_calm_column_reads_nominal() {
    let tabs = draw_tab_row(InfoTab::Base, &[]);
    assert!(!tabs.iter().any(|p| p.bold && (p.color == hud(ATTENTION) || p.color == hud(THREAT))));
    let bars = [draw_collapsed_bar(InfoTab::Crew, &[]), draw_collapsed_bar(InfoTab::Pack, &[])];
    let nominal = bars
        .iter()
        .flatten()
        .filter(|p| p.color == hud(FAINT) && !p.bold && p.text.trim() == "nominal")
        .count();
    assert_eq!(nominal, 2);
}

#[test]
fn a_threat_colours_its_tab_and_its_bar() {
    let rows = [nagging(AttentionKind::StructureDamaged, "Mining Node damaged", true)];
    let tabs = draw_tab_row(InfoTab::Crew, &rows);
    assert!(!tabs.iter().any(|p| p.bold && p.color == hud(ATTENTION)));
    assert!(tabs.iter().any(|p| p.bold && p.color == hud(THREAT) && p.text.trim() == "!"));
    let bar = draw_collapsed_bar(InfoTab::Base, &rows);
    assert!(bar.iter().any(|p| !p.bold && p.color == hud(THREAT) && p.text.contains("Mining Node damaged")));
}

#[test]
fn every_kind_routes_to_a_tab() {
    for kind in [
        AttentionKind::StructureDamaged,
        AttentionKind::IdleStructures,
        AttentionKind::PerkPoints,
        AttentionKind::RosterFull,
    ] {
        let tab = tab_of(kind);
        assert!([InfoTab::Base, InfoTab::Crew, InfoTab::Pack, InfoTab::Contracts].contains(&tab), "{kind:?}");
    }
}

const FILTERS: [LogFilter; 3] = [LogFilter::All, LogFilter::Field, LogFilter::Base];

fn header_text(filter: LogFilter, filtered_out: usize) -> String {
    filter_pieces(filter, filtered_out).iter().map(|p| p.text.as_str()).collect()
}

#[test]
fn the_unfiltered_strip_still_names_its_keys_and_counts_nothing() {
    let header = header_text(LogFilter::All, 0);
    assert!(header.contains("All"), "{header}");
    assert!(header.contains("f cycle"), "{header}");
    assert!(header.contains("L history"), "{header}");
    assert!(!header.contains("hidden"), "{header}");
}

#[test]
fn the_strip_lists_every_filter_in_cycle_order() {
    for filter in FILTERS {
        let header = header_text(filter, 0);
        let mut cursor = 0;
        for label in FILTERS.iter().map(|f| filter_label(*f)) {
            let at = header[cursor..].find(label).unwrap_or_else(|| panic!("{label} missing from {header:?}"));
            cursor += at + label.len();
        }
    }
}

#[test]
fn only_the_active_filter_is_picked_out() {
    for filter in FILTERS {
        let pieces = filter_pieces(filter, 0);
        let picked: Vec<&str> = pieces
            .iter()
            .filter(|p| p.bold && p.color == hud(HEALTHY))
            .map(|p| p.text.as_str())
            .collect();
        assert_eq!(picked, [filter_label(filter)], "under {filter:?}");
    }
}

#[test]
fn a_filtered_strip_counts_the_channel_it_is_hiding() {
    let header = header_text(LogFilter::Field, 3);
    assert!(header.contains("Field"), "{header}");
    assert!(header.contains("3 base hidden"), "{header}");
}

#[test]
fn a_filtered_strip_with_an_empty_channel_says_nothing() {
    let header = header_text(LogFilter::Base, 0);
    assert!(!header.contains("hidden"), "{header}");
}

#[test]
fn the_whole_filter_strip_reads_in_one_line() {
    assert_eq!(
        header_text(LogFilter::Base, 2),
        "LOG  All \u{b7} Field \u{b7} Base   f cycle \u{b7} L history   2 field hidden"
    );
}

#[test]
fn the_identity_text_is_what_the_runs_say() {
    let s = grid_state((2, 9));
    assert_eq!(identity_text(&s), "feral-processes \u{b7} ZONE 16 \u{b7} (3, -2) \u{b7} tick 40 \u{b7} [GRID] 2/9");
}

#[test]
fn a_machine_wears_the_colour_of_what_it_asks_for() {
    assert_eq!(machine_color(MachineStatus::Running), MachineShade::Healthy);
    assert_eq!(machine_color(MachineStatus::Starved), MachineShade::Warn);
    assert_eq!(machine_color(MachineStatus::Unstaffed), MachineShade::Warn);
    assert_eq!(machine_color(MachineStatus::Clogged), MachineShade::Attention);
    assert_eq!(machine_color(MachineStatus::Stranded), MachineShade::Attention);
    assert_eq!(machine_color(MachineStatus::Unpowered), MachineShade::Attention);
    assert_eq!(machine_color(MachineStatus::Dry), MachineShade::Offline);
    assert_eq!(machine_color(MachineStatus::Idle), MachineShade::Faint);
}

fn hud(hex: u32) -> feral_gui::strip::Ink {
    feral_gui::strip::Ink::Hud(rgb(hex))
}

#[test]
fn the_badge_places_whatever_leading_text_it_is_given() {
    let rows = [nagging(AttentionKind::PerkPoints, "2 perk points", false), idle()];
    let pieces = badge_with(&rows, "Two Perk Points".to_string());
    let text: String = pieces.iter().map(|p| p.text.as_str()).collect();
    assert_eq!(text, "Two Perk Points [b] +1");
    assert_eq!(badge_with(&[], "ignored".to_string())[0].text, "ALL NOMINAL");
}

fn vitals(perk_points: u32) -> Vitals {
    Vitals {
        hp: 31,
        max_hp: 40,
        integ_filled: 12,
        power_filled: 5,
        power: "55".to_string(),
        level: 7,
        xp: 40,
        xp_to_next: 100,
        xp_filled: 5,
        perk_points,
        mitigation: 12,
        atk: 9,
        strength: 4,
        decompiler: 3,
        mining: false,
    }
}

#[test]
fn no_perk_segment_when_none_are_unspent() {
    let text: String = vitals_segments(&vitals(0)).iter().flatten().map(|p| p.text.as_str()).collect();
    assert!(!text.contains("perk"), "zero perk points still drew: {text}");
    let text: String = vitals_segments(&vitals(1)).iter().flatten().map(|p| p.text.as_str()).collect();
    assert!(text.contains("perk pts [k]"), "one perk point drew nothing");
}

#[test]
fn the_vitals_read_in_priority_order() {
    let segments = vitals_segments(&vitals(2));
    let texts: Vec<String> = segments.iter().map(|s| s.iter().map(|p| p.text.as_str()).collect()).collect();
    assert_eq!(texts.len(), 9);
    assert_eq!(texts[0], format!("INTEG {}{} 31/40", "\u{2588}".repeat(12), "\u{2588}".repeat(4)));
    assert_eq!(segments[0][1].color, hud(HEALTHY));
    assert_eq!(segments[0][2].color, hud(feral_gui::palette::BAR_TROUGH));
    assert_eq!(texts[1], format!("PWR {} 55", "\u{2588}".repeat(10)));
    assert!(texts[2].starts_with("L7 "));
    assert!(texts[2].ends_with(" 40/100"));
    assert_eq!(texts[3], "\u{25b8} 2 perk pts [k]");
    assert_eq!(texts[4], "MIT 12%");
    assert_eq!(texts[8], "mining off");
}

fn entry(kind: MessageKind, source: MessageSource, lines: &[&str]) -> WrappedEntry {
    WrappedEntry { kind, source, lines: lines.iter().map(|l| l.to_string()).collect() }
}

#[test]
fn a_wrapped_entry_carries_its_tag_on_its_first_row_alone() {
    let entries = [entry(MessageKind::Info, MessageSource::Field, &["overrun filler", "filler", "filler"])];
    let rows = log_body(&entries, 10);
    assert_eq!(rows.len(), 3);
    assert_eq!(rows[0].tag.map(|t| t.0), Some("FIELD"));
    assert_eq!(rows[0].tag.map(|t| t.1), Some(rgb(0x3fa9b5)));
    assert!(rows[1].tag.is_none() && rows[2].tag.is_none());
    let tags = rows.iter().filter(|r| r.tag.is_some()).count();
    assert_eq!(tags, 1);
}

#[test]
fn a_screenful_of_wrapped_entries_drops_the_oldest_rows() {
    let texts: Vec<String> = (0..10).map(|i| format!("mark{i:02}")).collect();
    let entries: Vec<WrappedEntry> = texts
        .iter()
        .map(|t| entry(MessageKind::Info, MessageSource::Base, &[t.as_str(), "and its tail"]))
        .collect();
    let rows = log_body(&entries, 5);
    assert_eq!(rows.len(), 5);
    let drawn: Vec<&str> = rows.iter().map(|r| r.text.as_str()).collect();
    assert_eq!(drawn, vec!["and its tail", "mark08", "and its tail", "mark09", "and its tail"]);
    assert!(rows[0].tag.is_none(), "a kept tail keeps no tag of its own");
    assert_eq!(rows[1].tag.map(|t| t.0), Some("BASE"));
}

#[test]
fn an_entry_taller_than_the_pane_keeps_its_tail() {
    let entries = [
        entry(MessageKind::Loot, MessageSource::Field, &["first"]),
        entry(MessageKind::Raid, MessageSource::Base, &["one", "two", "three", "four"]),
    ];
    let rows = log_body(&entries, 2);
    let drawn: Vec<&str> = rows.iter().map(|r| r.text.as_str()).collect();
    assert_eq!(drawn, vec!["three", "four"]);
    assert!(rows.iter().all(|r| r.kind == MessageKind::Raid));
    assert!(log_body(&entries, 0).is_empty());
    let all = log_body(&entries, 9);
    assert_eq!(all[0].tag.map(|t| t.0), Some("GAIN"));
    assert_eq!(all[1].tag.map(|t| t.0), Some("ALERT"));
}

fn strip_text(pieces: &[feral_gui::strip::Piece]) -> String {
    pieces.iter().map(|p| p.text.as_str()).collect()
}

#[test]
fn segments_join_with_one_separator_between_each_two() {
    let segs = vec![
        vec![feral_gui::strip::piece("A".to_string(), BODY, false)],
        Vec::new(),
        vec![
            feral_gui::strip::piece("B".to_string(), BODY, false),
            feral_gui::strip::piece("C".to_string(), FAINT, true),
        ],
    ];
    assert_eq!(strip_text(&join_segments(&segs, 0)), "");
    assert_eq!(strip_text(&join_segments(&segs, 1)), "A");
    assert_eq!(strip_text(&join_segments(&segs, 2)), "A \u{b7} ");
    assert_eq!(strip_text(&join_segments(&segs, 3)), "A \u{b7}  \u{b7} BC");
    let lead_empty = vec![Vec::new(), vec![feral_gui::strip::piece("G".to_string(), BODY, false)]];
    assert_eq!(strip_text(&join_segments(&lead_empty, 2)), "G", "an empty first segment leaves no separator");
}

#[test]
fn the_map_frame_gives_up_its_ground_before_its_weather() {
    let row = TerrainRow {
        biome: "Null Sector".to_string(),
        condition: Some("Lock Contention".to_string()),
        event: Some("Packet Flood".to_string()),
    };
    let segs = map_frame_segments(Some(&row));
    assert_eq!(segs.len(), 2);
    assert_eq!(strip_text(&join_segments(&segs, 1)), "Packet Flood", "the weather survives a narrow budget");
    assert_eq!(strip_text(&join_segments(&segs, 2)), "Packet Flood \u{b7} Lock Contention");
    assert_eq!(segs[0][0].color, feral_gui::strip::Ink::Hud(rgb(ATTENTION)));
    assert!(map_frame_segments(None).is_empty(), "underground the left mount has nothing");
    let calm = TerrainRow { biome: "Null Sector".to_string(), condition: None, event: None };
    let segs = map_frame_segments(Some(&calm));
    assert_eq!(strip_text(&join_segments(&segs, 2)), "Null Sector");
}
