use feral_gui::hp_critical;
use feral_gui::menus::main_menu_options;
use feral_gui::palette::{rgb, Rgb, ATTENTION, BODY, HEALTHY, LABEL, PANE_TITLE, THREAT};
use feral_gui::sections::{
    section_rows, section_rows_capped, SectionRow, MAX_AFFINITY_ROWS, MAX_BAND_ROWS,
    MAX_SECTION_ROWS,
};
use feral_gui::text::emphasize_numbers;
use feral_gui::tint::Tint;

const TEXT_DIM: Tint = Tint::TextDim;
const WHITE: Tint = Tint::White;

#[test]
fn hp_critical_triggers_at_exactly_a_third_and_not_a_point_above() {
    assert!(hp_critical(10, 30), "exactly a third is already critical");
    assert!(!hp_critical(11, 30), "a point above a third is not");
    assert!(hp_critical(0, 30), "a dead program reads as critical");
    assert!(!hp_critical(30, 30), "full health is never critical");
    assert!(
        !hp_critical(0, 0),
        "a program with no max HP is a malformed fixture, not a warning"
    );
}

#[test]
fn splitting_a_line_into_runs_preserves_it_exactly() {
    for line in [
        "You unleash a data strike for 7 damage.",
        "Sparkgrub 12 executes Arc Bite for 103 damage.",
        "42",
        "no numbers at all",
        "",
        "Ünïcödé hits you for 5 damage.",
    ] {
        let joined: String = emphasize_numbers(line, TEXT_DIM, WHITE)
            .iter()
            .map(|r| r.text.as_str())
            .collect();
        assert_eq!(joined, line);
    }
}

#[test]
fn only_the_digits_of_a_damage_line_are_emphasized() {
    let runs = emphasize_numbers("You unleash a data strike for 7 damage.", TEXT_DIM, WHITE);
    for run in &runs {
        let all_digits = run.text.chars().all(|c| c.is_ascii_digit());
        assert_eq!(
            run.bold, all_digits,
            "{:?} came out bold={} — a run is either all digits or none",
            run.text, run.bold
        );
        assert_eq!(run.color, if run.bold { WHITE } else { TEXT_DIM });
    }
    let emphasized: String = runs
        .iter()
        .filter(|r| r.bold)
        .map(|r| r.text.as_str())
        .collect::<Vec<_>>()
        .join("|");
    assert_eq!(emphasized, "7");
}

#[test]
fn a_multi_digit_number_is_one_run() {
    let runs = emphasize_numbers("Sparkgrub hits you for 103 damage.", TEXT_DIM, WHITE);
    let bold: Vec<&str> = runs
        .iter()
        .filter(|r| r.bold)
        .map(|r| r.text.as_str())
        .collect();
    assert_eq!(bold, ["103"]);
}

#[test]
fn the_main_menu_shows_arena_only_when_enabled() {
    let named = |opts: &[String]| opts.iter().any(|o| o.contains("Arena"));
    assert!(!named(&main_menu_options(true, false, false)));
    assert!(!named(&main_menu_options(false, false, false)));
    assert!(named(&main_menu_options(false, true, false)));
    let opts = main_menu_options(true, true, false);
    let at = |s: &str| opts.iter().position(|o| o.contains(s)).unwrap();
    assert!(at("Achievements") < at("Arena"));
    assert!(at("Arena") < at("Quit"));
}

#[test]
fn the_main_menu_shows_sprite_forge_only_when_enabled() {
    let named = |opts: &[String]| opts.iter().any(|o| o.contains("Sprite Forge"));
    assert!(!named(&main_menu_options(true, false, false)));
    assert!(!named(&main_menu_options(false, false, false)));
    assert!(named(&main_menu_options(false, false, true)));
    let opts = main_menu_options(true, true, true);
    let at = |s: &str| opts.iter().position(|o| o.contains(s)).unwrap();
    assert!(at("Arena") < at("Sprite Forge"));
    assert!(at("Sprite Forge") < at("Quit"));
}

#[test]
fn the_main_menu_offers_the_options_row() {
    let opts = main_menu_options(true, true, true);
    let at = |s: &str| opts.iter().position(|o| o.contains(s)).unwrap();
    assert!(
        opts.iter().any(|row| row.contains("[O]")),
        "the main menu does not offer the options row: {opts:#?}"
    );
    assert!(at("Achievements") < at("Options"));
    assert!(at("Options") < at("Arena"));
}

fn bytes(c: Rgb) -> (u8, u8, u8) {
    (c.r, c.g, c.b)
}

fn channels(c: Rgb) -> (f32, f32, f32) {
    (c.r as f32 / 255.0, c.g as f32 / 255.0, c.b as f32 / 255.0)
}

#[test]
fn rgb_round_trips_every_channel() {
    for (hex, want) in [
        (0x000000, (0, 0, 0)),
        (0xffffff, (255, 255, 255)),
        (0xff0000, (255, 0, 0)),
        (0x00ff00, (0, 255, 0)),
        (0x0000ff, (0, 0, 255)),
        (0x123456, (0x12, 0x34, 0x56)),
    ] {
        assert_eq!(bytes(rgb(hex)), want, "rgb({hex:#08x})");
    }
}

#[test]
fn the_reserved_roles_are_separable() {
    let roles = [
        ("ATTENTION", rgb(ATTENTION)),
        ("THREAT", rgb(THREAT)),
        ("HEALTHY", rgb(HEALTHY)),
        ("PANE_TITLE", rgb(PANE_TITLE)),
        ("BODY", rgb(BODY)),
        ("LABEL", rgb(LABEL)),
    ];
    for (i, (an, a)) in roles.iter().enumerate() {
        for (bn, b) in &roles[i + 1..] {
            let (ar, ag, ab) = channels(*a);
            let (br, bg, bb) = channels(*b);
            let d = (ar - br).abs() + (ag - bg).abs() + (ab - bb).abs();
            assert!(d > 0.25, "{an} and {bn} are too close to separate ({d:.3})");
        }
    }
}

#[test]
fn section_rows_trims_past_the_cap_and_says_how_many_it_hid() {
    let rows: Vec<SectionRow> = (0..MAX_SECTION_ROWS + 5)
        .map(|i| SectionRow::Note(format!("row {i}")))
        .collect();
    let trimmed = section_rows(rows);
    assert_eq!(trimmed.len(), MAX_SECTION_ROWS);
    let SectionRow::Note(last) = &trimmed[MAX_SECTION_ROWS - 1] else {
        panic!("the trailing row is a note");
    };
    assert_eq!(last, "+6 more");
}

#[test]
fn section_rows_leaves_a_short_list_alone() {
    let rows: Vec<SectionRow> = (0..3)
        .map(|i| SectionRow::Note(format!("row {i}")))
        .collect();
    assert_eq!(section_rows(rows).len(), 3);
}

#[test]
fn a_five_category_affinity_list_is_capped_with_an_honest_count() {
    let rows: Vec<SectionRow> = (0..5)
        .map(|i| SectionRow::Stat(format!("Category {i}"), "1.00x".to_string()))
        .collect();
    let trimmed = section_rows_capped(rows, MAX_AFFINITY_ROWS);
    assert_eq!(trimmed.len(), MAX_AFFINITY_ROWS);
    let SectionRow::Note(last) = &trimmed[MAX_AFFINITY_ROWS - 1] else {
        panic!("the trailing row is a note");
    };
    assert_eq!(last, "+4 more");
}

#[test]
fn a_move_list_past_the_band_cap_is_capped_with_an_honest_count() {
    let rows: Vec<SectionRow> = (0..MAX_BAND_ROWS + 3)
        .map(|i| SectionRow::Stat(format!("Move {i}"), format!("pow {i}")))
        .collect();
    let trimmed = section_rows_capped(rows, MAX_BAND_ROWS);
    assert_eq!(trimmed.len(), MAX_BAND_ROWS);
    let SectionRow::Note(last) = &trimmed[MAX_BAND_ROWS - 1] else {
        panic!("the trailing row is a note");
    };
    assert_eq!(last, "+4 more");
}
