use feral_gui::outposts::{
    draw_outpost_post, draw_outpost_visit, growth_bar, outpost_mark_parts, outpost_page_rows,
    CrewRow, OutpostReport, PostCandidate, YieldRow, GROWTH_BAR_WIDTH,
};
use feral_gui::popup::{PopupSize, Row};
use feral_gui::tint::Tint;

fn row_text(row: &Row) -> &str {
    match row {
        Row::Text(t) | Row::TextColored(t, _) => t,
        Row::Item { text, .. } => text,
    }
}

fn report() -> OutpostReport {
    OutpostReport {
        name: "Relay Nine".to_string(),
        biome: "Glass Flats".to_string(),
        tier: 1,
        tier_label: "Station".to_string(),
        growth_filled: 5,
        reason: "Growing: crew at work".to_string(),
        integrity: 40,
        max_integrity: 60,
        stock: 12,
        stock_cap: 50,
        route: Some("to Home, 3 days".to_string()),
        crew: vec![
            CrewRow { name: "Mote".to_string(), species: "Sparkgrub".to_string(), level: 4 },
            CrewRow { name: "Bolt".to_string(), species: "Arcwing".to_string(), level: 7 },
        ],
        yields: vec![YieldRow { name: "Silica".to_string(), tier: 2 }],
        next_tier_requirement: Some("Next tier: 3 crew".to_string()),
    }
}

#[test]
fn the_growth_gauge_is_filled_from_the_left() {
    assert_eq!(growth_bar(5, GROWTH_BAR_WIDTH), "[#####---------------]");
    assert_eq!(growth_bar(0, 3), "[---]");
    assert_eq!(growth_bar(3, 3), "[###]");
}

#[test]
fn the_outpost_page_reads_top_to_bottom() {
    let rows = outpost_page_rows(&report(), 1, 4);
    let texts: Vec<&str> = rows.iter().map(row_text).collect();
    assert_eq!(
        texts,
        vec![
            "Relay Nine \u{b7} Glass Flats \u{2014} Tier 2 \u{b7} Station",
            "Growth  [#####---------------]",
            "Growing: crew at work",
            "Integrity 40/60   Stock 12/50   Route: to Home, 3 days",
            "",
            "CREW (2/4)",
            "a  Mote  Sparkgrub  lv 4",
            "b  Bolt  Arcwing  lv 7",
            "",
            "YIELDS NOW",
            "  Silica   tier 2",
            "  Next tier: 3 crew",
            "",
            "[P] Post  [U] Recall  [R] Repair  [C] Take stock",
        ]
    );
    assert!(matches!(&rows[0], Row::TextColored(_, Tint::Cyan)));
    assert!(matches!(&rows[7], Row::Item { selected: true, .. }));
    assert!(matches!(&rows[6], Row::Item { selected: false, .. }));
}

#[test]
fn an_unstaffed_outpost_says_so_and_yields_nothing() {
    let mut r = report();
    r.crew.clear();
    r.yields.clear();
    r.route = None;
    r.next_tier_requirement = None;
    let rows = outpost_page_rows(&r, 0, 4);
    let texts: Vec<&str> = rows.iter().map(row_text).collect();
    assert!(texts.contains(&"  Nobody is posted here."));
    assert!(texts.contains(&"  Nothing yet."));
    assert!(texts.contains(&"Integrity 40/60   Stock 12/50"));
    assert!(texts.contains(&"CREW (0/4)"));
}

#[test]
fn with_nothing_to_report_the_page_is_a_small_note() {
    let p = draw_outpost_visit(None, 0, 4);
    assert_eq!(p.size, PopupSize::Small);
    assert_eq!(p.title, "Outpost");
    assert_eq!(row_text(&p.rows[0]), "Nothing to report.");
    let r = report();
    let full = draw_outpost_visit(Some(&r), 0, 4);
    assert_eq!(full.size, PopupSize::Large);
    assert_eq!(full.rows.len(), 14);
}

#[test]
fn the_post_picker_letters_each_free_program() {
    let cs = vec![PostCandidate { name: "Mote".to_string() }, PostCandidate { name: "Bolt".to_string() }];
    let p = draw_outpost_post(&cs, 1);
    let texts: Vec<&str> = p.rows.iter().map(row_text).collect();
    assert_eq!(texts, vec!["Post to the outpost", "a  Mote", "b  Bolt"]);
    let empty = draw_outpost_post(&[], 0);
    let texts: Vec<&str> = empty.rows.iter().map(row_text).collect();
    assert_eq!(texts, vec!["Post to the outpost", "Nobody on staff is free to post."]);
}

#[test]
fn glyph_draws_when_the_tile_is_unoccupied() {
    assert_eq!(outpost_mark_parts(false, None).glyph, Some(false));
}

#[test]
fn glyph_is_suppressed_when_an_entity_stands_on_the_tile() {
    assert!(
        outpost_mark_parts(false, Some(false)).glyph.is_none(),
        "the outpost glyph must not paint over the entity's own"
    );
}

#[test]
fn the_growth_bar_still_draws_over_a_non_nemesis_occupant() {
    assert!(outpost_mark_parts(false, Some(false)).bar, "the growth bar's fill must still be drawn");
}

#[test]
fn pips_are_suppressed_when_a_nemesis_occupies_the_tile() {
    assert!(
        !outpost_mark_parts(false, Some(true)).pips,
        "the pips must not collide with the nemesis mark in the same corner"
    );
}

#[test]
fn pips_still_draw_over_a_non_nemesis_occupant() {
    assert!(
        outpost_mark_parts(false, Some(false)).pips,
        "the pips must still draw when nothing contests their corner"
    );
}

#[test]
fn a_dark_outpost_shows_a_dim_glyph_and_nothing_else() {
    let parts = outpost_mark_parts(true, None);
    assert_eq!(parts.glyph, Some(true));
    assert!(!parts.bar && !parts.pips);
}
