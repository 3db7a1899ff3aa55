use feral_gui::text::middle_elision;
use feral_gui::manifest::{
    base_job_label, difficulty_label, draw_header, draw_manifest, draw_manifest_pick, equip_row,
    manifest_pick_label, move_row, player_sections, post_label, program_sections, sections_for,
    AffinityClass, DifficultyMode, ManifestEquipSlot, ManifestNav, ManifestScreen,
    ManifestSubject, ManifestView, MoveLine, NeedRow, PartyMember, PickSubject, PlayerManifest,
    Potential, ProgramManifest, RoutineSlot, Section, TaskKind,
};
use feral_gui::palette::GlyphColor;
use feral_gui::popup::{IconInk, PopupSize, Row};
use feral_gui::sections::{SectionRow, MAX_SECTION_ROWS};
use feral_gui::tint::{Rarity, Tint};

/// How many reserves the WORK box lists before counting the rest, in these
/// fixtures.
const NEED_CAP: usize = 3;

fn plain_program(base_speed: i32, base_int: i32) -> ProgramManifest {
    ProgramManifest {
        species_name: Some("Testmon".to_string()),
        is_hostile: false,
        is_companion: true,
        is_boss: false,
        activity: None,
        post: None,
        potential: None,
        fusions: 0,
        max_fusions: 3,
        rarity: Rarity::Ordinary,
        rarity_label: None,
        refactors: 0,
        max_refactors: 3,
        ring: 0,
        max_ring: 3,
        level_cap: 6,
        talents_spent: 0,
        talents_earned: 0,
        zone_tier: 1,
        player_zone: 1,
        habitats: vec![],
        moves: vec![],
        work_aptitude: Some("Core Fragment".to_string()),
        decompile_difficulty: "50%".to_string(),
        decompile_chance: None,
        growth: "1.00x".to_string(),
        base_speed,
        base_int,
        affinities: vec![],
        base_job: None,
        needs: vec![],
    }
}

fn program_view(program: ProgramManifest, equipment: Vec<ManifestEquipSlot>) -> ManifestView {
    ManifestView {
        name: "Testmon".to_string(),
        glyph: 'x',
        color: GlyphColor::White,
        level: None,
        hp: 10,
        max_hp: 10,
        atk: 5,
        mitigation: 5,
        damage: "3\u{2013}7".to_string(),
        power: 15,
        accuracy: "12.5".to_string(),
        evasion: "9.5".to_string(),
        status_effect: None,
        routines: vec![RoutineSlot { index: 0, name: "(empty)".to_string() }],
        equipment,
        subject: ManifestSubject::Program(program),
    }
}

fn plain_player() -> PlayerManifest {
    PlayerManifest {
        decompiler: 3,
        perk_points: 1,
        perks: Vec::new(),
        position: (4, 9),
        zone: 2,
        pet_count: 1,
        pet_capacity: 4,
        cargo_used: 12,
        party: Vec::new(),
        credits: 250,
        portal_fragments: 7,
        difficulty: DifficultyMode::Permadeath,
        cycle: 4310,
        active_contracts: 2,
    }
}

fn player_view(player: PlayerManifest) -> ManifestView {
    ManifestView {
        name: "You".to_string(),
        glyph: '@',
        color: GlyphColor::White,
        level: Some(6),
        hp: 30,
        max_hp: 40,
        atk: 9,
        mitigation: 12,
        damage: "4\u{2013}9".to_string(),
        power: 44,
        accuracy: "14.0".to_string(),
        evasion: "11.5".to_string(),
        status_effect: None,
        routines: Vec::new(),
        equipment: Vec::new(),
        subject: ManifestSubject::Player(player),
    }
}

fn worn(slot: &str) -> ManifestEquipSlot {
    ManifestEquipSlot {
        slot: slot.to_string(),
        item_name: "Arc Lance".to_string(),
        atk: 16,
        mitigation: 0,
        decompiler: 0,
        fusion_tier: 0,
    }
}

fn stat_value<'a>(section: &'a Section, label: &str) -> Option<&'a str> {
    section.rows.iter().find_map(|r| match r {
        SectionRow::Stat(l, v) if l == label => Some(v.as_str()),
        _ => None,
    })
}

fn titled<'a>(sections: &'a [Section], title: &str) -> &'a Section {
    sections
        .iter()
        .find(|s| s.title == title)
        .unwrap_or_else(|| panic!("the page emits a {title} box"))
}

fn labels(sections: &[Section], title: &str) -> Vec<String> {
    titled(sections, title)
        .rows
        .iter()
        .filter_map(|r| match r {
            SectionRow::Stat(label, _) => Some(label.clone()),
            SectionRow::Note(_) => None,
        })
        .collect()
}

#[test]
fn work_rows_live_in_their_own_box_and_species_drops_below_its_cap() {
    let mut sections = Vec::new();
    program_sections(&mut sections, &plain_program(14, 12), NEED_CAP);
    let work = labels(&sections, "WORK");
    assert!(work.iter().any(|l| l == "Speed"), "Speed moves into WORK: {work:?}");
    assert!(work.iter().any(|l| l == "Analysis"), "base_int is shown as Analysis: {work:?}");
    let species = labels(&sections, "SPECIES");
    assert!(!species.iter().any(|l| l == "Speed"));
    assert_eq!(species.len(), 5, "{species:?}");
    assert!(species.len() < MAX_SECTION_ROWS);
}

#[test]
fn the_work_box_names_what_a_class_does_at_a_post() {
    let job_row = |class| {
        let mut program = plain_program(14, 12);
        program.base_job = class;
        let mut sections = Vec::new();
        program_sections(&mut sections, &program, NEED_CAP);
        stat_value(titled(&sections, "WORK"), "Base job").map(str::to_string)
    };
    assert_eq!(job_row(Some(AffinityClass::Medic)).as_deref(), Some("repair (Medic)"));
    assert_eq!(job_row(Some(AffinityClass::Bastion)).as_deref(), Some("guard (Bastion)"));
    assert_eq!(job_row(Some(AffinityClass::Leech)).as_deref(), Some("extraction (Leech)"));
    assert_eq!(job_row(None), None, "a class-less program has no job row");
}

#[test]
fn a_class_with_no_base_job_says_so_on_the_row() {
    let mut program = plain_program(14, 12);
    program.base_job = Some(AffinityClass::Striker);
    let mut sections = Vec::new();
    program_sections(&mut sections, &program, NEED_CAP);
    assert_eq!(stat_value(titled(&sections, "WORK"), "Base job"), Some("none (Striker)"));
    assert_eq!(base_job_label(AffinityClass::Saboteur), "none (Saboteur)");
}

#[test]
fn a_manifest_pick_row_carries_the_combat_figures() {
    let mut view = program_view(plain_program(14, 12), Vec::new());
    view.name = "Kestrel".to_string();
    view.level = Some(4);
    view.atk = 8;
    view.mitigation = 5;
    let label = manifest_pick_label('a', &view);
    assert!(label.contains("ATK 8"), "{label}");
    assert!(label.contains("MIT 5%"), "{label}");
    assert_eq!(label, "[a] Kestrel Lv4 - HP 10/10  ATK 8  MIT 5%  PWR 15");
}

#[test]
fn the_players_pick_row_quotes_no_combat_figures() {
    let label = manifest_pick_label('b', &player_view(plain_player()));
    assert_eq!(label, "[b] You - Lv6");
}

#[test]
fn a_posted_programs_pick_row_says_what_it_is_doing() {
    let mut program = plain_program(14, 12);
    program.activity = Some("guarding Contract Broker".to_string());
    let mut view = program_view(program, Vec::new());
    view.level = None;
    let label = manifest_pick_label('c', &view);
    assert_eq!(label, "[c] Testmon Lv1 - HP 10/10  ATK 5  MIT 5%  PWR 15 (guarding Contract Broker)");
}

#[test]
fn sections_for_emits_moves_before_a_programs_equipment_and_routines() {
    let mut program = plain_program(14, 12);
    program.moves = vec![MoveLine { name: "Strike".to_string(), power: 5, ranged: false, effect: None }];
    program.base_job = Some(AffinityClass::Striker);
    program.post = Some((TaskKind::GatherResource, "Mining Node".to_string()));
    program.ring = 3;
    program.level_cap = 12;
    program.talents_earned = 6;
    program.talents_spent = 6;
    let view = program_view(program, vec![worn("WEP"), worn("ARM")]);
    let sections = sections_for(&view, NEED_CAP);
    let shape: Vec<(&str, usize, bool)> =
        sections.iter().map(|s| (s.title.as_str(), s.rows.len(), s.full_width)).collect();
    assert_eq!(
        shape,
        vec![
            ("COMBAT", 4, false),
            ("SPECIES", 5, false),
            ("WORK", 4, false),
            ("DEVELOPMENT", 3, false),
            ("MOVES", 1, true),
            ("EQUIPMENT", 2, false),
            ("ROUTINES", 1, false),
        ],
    );
}

#[test]
fn a_program_wearing_nothing_gets_no_equipment_box() {
    let sections = sections_for(&program_view(plain_program(14, 12), vec![]), NEED_CAP);
    assert!(!sections.iter().any(|s| s.title == "EQUIPMENT"));
}

#[test]
fn the_work_box_states_where_a_program_is_posted() {
    let post_rows = |post| {
        let mut program = plain_program(14, 12);
        program.post = post;
        let mut sections = Vec::new();
        program_sections(&mut sections, &program, NEED_CAP);
        titled(&sections, "WORK")
            .rows
            .iter()
            .filter_map(|r| match r {
                SectionRow::Stat(label, value) if label == "Posted to" || label == "Guarding" => {
                    Some((label.clone(), value.clone()))
                }
                _ => None,
            })
            .collect::<Vec<_>>()
    };
    assert_eq!(
        post_rows(Some((TaskKind::GatherResource, "Mining Node".to_string()))),
        vec![("Posted to".to_string(), "Mining Node".to_string())]
    );
    assert_eq!(
        post_rows(Some((TaskKind::Guard, "Shield Wall".to_string()))),
        vec![("Guarding".to_string(), "Shield Wall".to_string())]
    );
    assert!(post_rows(None).is_empty());
    assert_eq!(post_label(TaskKind::Excavate), "Cutting");
    assert_eq!(post_label(TaskKind::Construct), "Building");
}

#[test]
fn the_to_hit_pair_is_on_the_player_page_and_not_the_program_page() {
    let player = sections_for(&player_view(plain_player()), NEED_CAP);
    let combat = titled(&player, "COMBAT");
    assert_eq!(stat_value(combat, "Accuracy"), Some("14.0"));
    assert_eq!(stat_value(combat, "Evasion"), Some("11.5"));
    assert_eq!(combat.rows.len(), MAX_SECTION_ROWS);

    let program = sections_for(&program_view(plain_program(14, 12), Vec::new()), NEED_CAP);
    let combat = titled(&program, "COMBAT");
    assert_eq!(combat.rows.len(), 4);
    assert_eq!(stat_value(combat, "Accuracy"), None);
    assert_eq!(stat_value(combat, "Evasion"), None);
    assert_eq!(stat_value(combat, "Mitigation"), Some("5%"));
}

#[test]
fn the_run_box_says_what_the_run_holds() {
    let sections = sections_for(&player_view(plain_player()), NEED_CAP);
    let run = titled(&sections, "RUN");
    assert_eq!(stat_value(run, "Credits"), Some("250"));
    assert_eq!(stat_value(run, "Portal Fragments"), Some("7"));
    assert_eq!(stat_value(run, "Difficulty"), Some("Permadeath"));
    assert_eq!(stat_value(run, "Cycle"), Some("4310"));
    assert_eq!(stat_value(run, "Contracts"), Some("2"));
    assert_eq!(run.rows.len(), 5);
    assert_eq!(difficulty_label(DifficultyMode::Forgiving), "Forgiving");
}

#[test]
fn the_fullest_player_page_emits_the_boxes_its_layout_fixture_models() {
    let mut player = plain_player();
    player.perks = vec![("Obfuscation".to_string(), 2)];
    player.party = vec![PartyMember {
        name: "Scrapper".to_string(),
        hp: 10,
        max_hp: 10,
        atk: 4,
        mitigation: 2,
    }];
    let mut view = player_view(player);
    view.equipment = vec![worn("WEP")];
    view.routines = vec![RoutineSlot { index: 0, name: "(empty)".to_string() }];
    let sections = sections_for(&view, NEED_CAP);
    let shape: Vec<(&str, bool)> =
        sections.iter().map(|s| (s.title.as_str(), s.full_width)).collect();
    assert_eq!(
        shape,
        vec![
            ("COMBAT", false),
            ("PROGRESSION", false),
            ("PERKS", false),
            ("PARTY", false),
            ("RUN", false),
            ("EQUIPMENT", true),
            ("ROUTINES", false),
        ],
    );
    assert_eq!(stat_value(titled(&sections, "PERKS"), "Obfuscation"), Some("Lv 2"));
    assert_eq!(
        stat_value(titled(&sections, "PARTY"), "Scrapper"),
        Some("HP 10/10  ATK 4  MIT 2%")
    );
    assert_eq!(stat_value(titled(&sections, "PROGRESSION"), "Position"), Some("4, 9"));
    assert_eq!(stat_value(titled(&sections, "ROUTINES"), "1"), Some("(empty)"));
}

#[test]
fn the_player_sections_alone_are_progression_then_run() {
    let mut sections = Vec::new();
    player_sections(&mut sections, &plain_player());
    let titles: Vec<&str> = sections.iter().map(|s| s.title.as_str()).collect();
    assert_eq!(titles, ["PROGRESSION", "RUN"]);
}

#[test]
fn the_footer_offers_w_exactly_when_watching_would_work() {
    let view = program_view(plain_program(14, 12), Vec::new());
    let footer = |nav: ManifestNav| match draw_manifest(Some(&view), nav, NEED_CAP) {
        ManifestScreen::Page { footer, .. } => footer,
        ManifestScreen::Gone(_) => panic!("the subject is here"),
    };
    let plain = ManifestNav { cyclable: false, back_to_list: false, watchable: false };
    assert!(footer(ManifestNav { watchable: true, ..plain }).contains("[w] watch"));
    assert!(!footer(plain).contains("[w] watch"));
    assert_eq!(footer(plain), "Esc back");
    assert_eq!(
        footer(ManifestNav { cyclable: true, back_to_list: true, watchable: true }),
        "\u{2190}/\u{2192} other programs      [w] watch      Esc back to list"
    );
}

#[test]
fn a_vanished_subject_gets_the_gone_note() {
    let nav = ManifestNav { cyclable: false, back_to_list: false, watchable: false };
    match draw_manifest(None, nav, NEED_CAP) {
        ManifestScreen::Gone(p) => {
            assert_eq!(p.title, "Manifest");
            assert_eq!(p.size, PopupSize::Small);
            assert!(matches!(&p.rows[0], Row::Text(t) if t == "That program is gone. Esc to go back."));
        }
        ManifestScreen::Page { .. } => panic!("nothing to draw a page of"),
    }
}

#[test]
fn a_worn_piece_signs_every_bonus_and_names_its_tier() {
    let slot = ManifestEquipSlot {
        slot: "WEP".to_string(),
        item_name: "Arc Lance".to_string(),
        atk: 16,
        mitigation: -30,
        decompiler: 0,
        fusion_tier: 2,
    };
    match equip_row(&slot) {
        SectionRow::Stat(label, value) => {
            assert_eq!(label, "WEP: Arc Lance");
            assert_eq!(value, "+16 ATK -30 DEF T2");
        }
        SectionRow::Note(_) => panic!("a gear row is a stat row"),
    }
}

#[test]
fn a_move_row_lists_power_range_and_effect() {
    let mv = MoveLine {
        name: "Arc Bite".to_string(),
        power: 9,
        ranged: true,
        effect: Some("Stun 25% for 2".to_string()),
    };
    match move_row(&mv) {
        SectionRow::Stat(label, value) => {
            assert_eq!(label, "Arc Bite");
            assert_eq!(value, "pow 9, ranged, Stun 25% for 2");
        }
        SectionRow::Note(_) => panic!("a move row is a stat row"),
    }
}

#[test]
fn reserves_past_the_cap_are_counted_on_their_own_row() {
    let mut program = plain_program(14, 12);
    program.needs = (0..5)
        .map(|i| NeedRow {
            name: format!("Need {i}"),
            band: "low".to_string(),
            servicing: if i == 0 { Some("defragmenting".to_string()) } else { None },
        })
        .collect();
    let mut sections = Vec::new();
    program_sections(&mut sections, &program, 2);
    let work = titled(&sections, "WORK");
    assert_eq!(stat_value(work, "Need 0"), Some("low \u{2014} defragmenting"));
    assert_eq!(stat_value(work, "Need 1"), Some("low"));
    assert_eq!(stat_value(work, "Need 2"), None);
    assert_eq!(stat_value(work, "\u{2026}"), Some("+3 more"));
}

#[test]
fn potential_and_affinities_get_their_own_boxes() {
    let mut program = plain_program(14, 12);
    program.potential = Some(Potential {
        hp_roll: "1.20  +++".to_string(),
        atk_roll: "1.00  =".to_string(),
        def_roll: "0.90  -".to_string(),
        growth_roll: "0.80  --".to_string(),
        label: "Excellent".to_string(),
        percent: 99,
    });
    program.affinities = (0..5).map(|i| (format!("Category {i}"), "1.00x".to_string())).collect();
    let mut sections = Vec::new();
    program_sections(&mut sections, &program, NEED_CAP);
    assert_eq!(stat_value(titled(&sections, "POTENTIAL"), "Overall"), Some("Excellent (99%)"));
    let affinities = titled(&sections, "AFFINITIES");
    assert_eq!(affinities.rows.len(), 2);
    assert!(matches!(&affinities.rows[1], SectionRow::Note(t) if t == "+4 more"));
}

#[test]
fn a_bosses_species_box_quotes_no_decompile_odds() {
    let mut program = plain_program(14, 12);
    program.is_boss = true;
    program.habitats = vec!["Forest".to_string(), "Ruins".to_string()];
    let mut sections = Vec::new();
    program_sections(&mut sections, &program, NEED_CAP);
    let species = titled(&sections, "SPECIES");
    assert_eq!(stat_value(species, "Habitats"), Some("Forest, Ruins"));
    assert_eq!(stat_value(species, "Decompile difficulty"), None);
    assert_eq!(stat_value(species, "Decompile chance now"), None);
}

#[test]
fn a_program_without_odds_needs_a_catalyst() {
    let mut sections = Vec::new();
    program_sections(&mut sections, &plain_program(14, 12), NEED_CAP);
    let species = titled(&sections, "SPECIES");
    assert_eq!(stat_value(species, "Decompile chance now"), Some("needs a taming catalyst"));
    assert_eq!(stat_value(species, "Habitats"), Some("unknown"));
}

#[test]
fn the_header_flags_a_boss_and_lists_its_tags() {
    let mut program = plain_program(14, 12);
    program.is_boss = true;
    program.is_companion = false;
    program.is_hostile = true;
    program.fusions = 1;
    program.zone_tier = 1;
    program.player_zone = 3;
    program.rarity = Rarity::Gold;
    program.rarity_label = Some("Overclocked".to_string());
    let mut view = program_view(program, Vec::new());
    view.level = Some(30);
    view.status_effect = Some("STUNNED".to_string());
    let h = draw_header(&view);
    assert_eq!(h.title, "Testmon  (Testmon)  [BOSS]");
    assert!(h.boss);
    assert_eq!(h.title_tint, Tint::Red, "a boss's title reads red");
    assert_eq!(h.rarity, Rarity::Gold);
    assert_eq!(h.tier_tag, Some((" [OVERCLOCKED]".to_string(), Tint::Gold)));
    assert_eq!(h.tags, "Lv 30   fused 1/3   zone 1 \u{2014} you're in 3   rogue   STUNNED");
}

#[test]
fn the_players_header_reads_zone_and_pets() {
    let h = draw_header(&player_view(plain_player()));
    assert_eq!(h.title, "You");
    assert!(!h.boss);
    assert_eq!(h.title_tint, Tint::White);
    assert_eq!(h.rarity, Rarity::Ordinary);
    assert_eq!(h.tier_tag, None);
    assert_eq!(h.tags, "Lv 6   Zone 2   Pets 1/4");
}

#[test]
fn the_picker_keeps_a_slot_for_a_vanished_subject() {
    let subjects = vec![
        PickSubject { shortcut: 'a', view: Some(player_view(plain_player())) },
        PickSubject { shortcut: 'b', view: None },
    ];
    let p = draw_manifest_pick(&subjects, 1);
    assert_eq!(p.title, "Manifest");
    assert_eq!(p.rows.len(), 5);
    match &p.rows[1] {
        Row::Item { text, selected, icon, .. } => {
            assert_eq!(text, "[a] You - Lv6");
            assert!(!selected);
            assert_eq!(*icon, Some(('@', IconInk::Glyph(GlyphColor::White))));
        }
        _ => panic!("a subject's row is selectable"),
    }
    match &p.rows[2] {
        Row::Item { text, selected, icon, .. } => {
            assert_eq!(text, "[b] (gone)");
            assert!(*selected);
            assert_eq!(*icon, Some((' ', IconInk::Body)));
        }
        _ => panic!("a gone subject's row is still selectable"),
    }
    assert!(matches!(&p.rows[4], Row::Text(t) if t == "Esc to cancel"));
}

#[test]
fn a_long_value_is_cut_from_its_middle() {
    assert_eq!(middle_elision("MOD: Overclocked Lattice", 9), "MOD: \u{2026}tice");
    assert_eq!(middle_elision("abcdef", 0), "\u{2026}");
    assert_eq!(middle_elision("abcdef", 1), "a\u{2026}");
    assert_eq!(middle_elision("abcdef", 5), "abc\u{2026}ef");
    assert_eq!(middle_elision("\u{e9}t\u{e9}s", 2), "\u{e9}\u{2026}s");
}

#[test]
fn an_ordinary_program_draws_a_white_title_and_no_tier_tag() {
    let mut program = plain_program(14, 12);
    program.is_boss = false;
    let h = draw_header(&program_view(program, Vec::new()));
    assert_eq!(h.title_tint, Tint::White);
    assert_eq!(h.tier_tag, None);
}
