use feral_gui::column::{mark_color, tab_label, AttentionKind, AttentionRow};
use feral_gui::info::InfoTab;
use feral_gui::inventory::tier_row;
use feral_gui::log_frame::keybar_segments;
use feral_gui::palette::{
    boss_color, glyph, grid_color, outpost_glyph_color, outpost_trend_color, palette_color, rgb,
    GlyphColor, Rgb, Trend, ATTENTION, BODY, HEALTHY, THREAT,
};
use feral_gui::popup::Row;
use feral_gui::text::{
    activity_tag, cell, clip, decimal_string, ellipsis_cell, fusion_tag, message_text,
    player_sprite_name, rarity_tag, refactor_tag,
};
use feral_gui::tint::{rarity_color, Rarity, Tint};

#[test]
fn capped_counts_read_nothing_then_a_count_then_maxed() {
    assert_eq!(fusion_tag(0, 3), "");
    assert_eq!(fusion_tag(2, 3), " (fused 2/3)");
    assert_eq!(fusion_tag(3, 3), " (fused 3/3 - maxed)");
    assert_eq!(refactor_tag(1, 4), " (upgraded 1/4)");
    assert_eq!(refactor_tag(5, 4), " (upgraded 5/4 - maxed)");
}

#[test]
fn a_folded_log_line_carries_its_repeat_count() {
    assert_eq!(message_text("Sparkgrub hits you.", 1), "Sparkgrub hits you.");
    assert_eq!(message_text("Sparkgrub hits you.", 4), "Sparkgrub hits you. \u{d7}4");
    assert_eq!(activity_tag("in party"), " (in party)");
}

#[test]
fn cells_pad_and_clip_to_their_width() {
    assert_eq!(cell("LV", 4), "LV  ");
    assert_eq!(cell("Overclocked", 4), "Over");
    assert_eq!(clip("Overclocked", 4), "Over");
    assert_eq!(clip("ab", 4), "ab");
    assert_eq!(ellipsis_cell("Overclocked", 6), "Overc\u{2026}");
    assert_eq!(ellipsis_cell("ab", 4), "ab  ");
    assert_eq!(ellipsis_cell("ab", 0), "");
    assert_eq!(decimal_string(0), "0");
    assert_eq!(decimal_string(18446744073709551615), "18446744073709551615");
}

#[test]
fn an_empty_sprite_name_is_no_sprite() {
    assert_eq!(player_sprite_name(""), None);
    assert_eq!(player_sprite_name("player_a"), Some("player_a"));
}

#[test]
fn the_keybar_leads_with_movement_and_ends_with_save() {
    let segs = keybar_segments();
    assert_eq!(segs.len(), 17);
    let text = |i: usize| segs[i].iter().map(|p| p.text.as_str()).collect::<String>();
    assert_eq!(text(0), "hjkl move");
    assert_eq!(text(2), "\u{2502}");
    assert_eq!(text(16), "s save");
    assert!(segs[0][0].bold && !segs[0][1].bold);
}

fn hud(hex: u32) -> Rgb {
    rgb(hex)
}

#[test]
fn the_grid_reads_amber_only_when_it_cannot_cover_its_draw() {
    assert_eq!(grid_color((12, 10)), hud(ATTENTION));
    assert_eq!(grid_color((10, 10)), hud(BODY), "a base exactly at capacity is not short");
    assert_eq!(grid_color((3, 10)), hud(BODY));
}

#[test]
fn the_named_hues_are_the_glyph_hues_they_borrow() {
    assert_eq!(boss_color(), glyph(GlyphColor::Magenta));
    assert_eq!(outpost_glyph_color(), glyph(GlyphColor::Brown));
    assert_eq!(outpost_glyph_color(), rgb(0x8a6a3a));
    assert_eq!(palette_color((1, 2, 3)), Rgb { r: 1, g: 2, b: 3 });
}

#[test]
fn each_trend_has_its_own_bar_colour() {
    assert_eq!(outpost_trend_color(Trend::Growing), hud(HEALTHY));
    let all = [Trend::Growing, Trend::Stable, Trend::Stale, Trend::Declining];
    for (i, a) in all.iter().enumerate() {
        for b in &all[i + 1..] {
            assert_ne!(outpost_trend_color(*a), outpost_trend_color(*b), "{a:?} and {b:?}");
        }
    }
    assert_eq!(outpost_trend_color(Trend::Declining), hud(ATTENTION));
}

#[test]
fn a_hostile_condition_is_marked_red() {
    let row = |threat: bool| AttentionRow {
        kind: AttentionKind::StructureDamaged,
        key: 'b',
        text: "Depot damaged".to_string(),
        threat,
    };
    assert_eq!(mark_color(&row(true)), hud(THREAT));
    assert_eq!(mark_color(&row(false)), hud(ATTENTION));
    assert_eq!(tab_label(InfoTab::Contracts), "CONTRACTS");
    assert_eq!(tab_label(InfoTab::Crew), "CREW");
}

#[test]
fn fusion_outranks_rarity_on_a_row() {
    assert_eq!(rarity_color(Rarity::Ordinary), None);
    assert_eq!(rarity_color(Rarity::Gold), Some(Tint::Gold));
    let colour = |r: Row| match r {
        Row::Item { color, .. } => color,
        _ => panic!("a tier row is selectable"),
    };
    assert_eq!(colour(tier_row("x".to_string(), false, 1, 3, Rarity::Gold)), Tint::Cyan);
    assert_eq!(colour(tier_row("x".to_string(), false, 3, 3, Rarity::Gold)), Tint::Magenta);
    assert_eq!(colour(tier_row("x".to_string(), false, 0, 3, Rarity::Gold)), Tint::Gold);
    assert_eq!(colour(tier_row("x".to_string(), false, 0, 3, Rarity::Ordinary)), Tint::Text);
}

#[test]
fn only_a_rare_tier_gets_a_roster_tag() {
    assert_eq!(rarity_tag(None), "");
    assert!(rarity_tag(Some("Overclocked")).contains("OVERCLOCKED"));
    assert!(
        rarity_tag(Some("Optimized")).starts_with(' '),
        "the tag is appended after a name and separates itself"
    );
    assert_eq!(rarity_tag(Some("Overclocked")), " [OVERCLOCKED]");
}
