use feral_gui::history::{draw_history, history_rows, LogEntry};
use feral_gui::inspection::{draw_inspect_detail, InspectView, MoveView};
use feral_gui::popup::{Popup, PopupSize, Row};
use feral_gui::screens::{draw_erase_quantity, EraseSubject};
use feral_gui::tint::{MessageKind, MessageSource, Tint};

fn row_text(r: &Row) -> &str {
    match r {
        Row::Text(t) | Row::TextColored(t, _) => t.as_str(),
        Row::Item { text, .. } => text.as_str(),
    }
}

fn texts(p: &Popup) -> Vec<&str> {
    p.rows.iter().map(row_text).collect()
}

fn entry(text: &str, repeats: u32, kind: MessageKind) -> LogEntry {
    LogEntry { text: text.to_string(), repeats, kind, source: MessageSource::Field }
}

#[test]
fn the_history_folds_repeats_into_a_count_and_colours_by_kind() {
    let entries = vec![
        entry("You strike for 7 damage.", 3, MessageKind::PartyDamage),
        entry("Picked up Silica.", 1, MessageKind::Loot),
    ];
    let rows = history_rows(&entries, 1);
    assert_eq!(rows.len(), 2);
    match &rows[0] {
        Row::Item { text, suffix, color, selected, .. } => {
            assert_eq!(text, "You strike for 7 damage.");
            assert_eq!(suffix.as_deref(), Some("\u{d7}3"));
            assert_eq!(*color, Tint::TextDim);
            assert!(!*selected);
        }
        _ => panic!("an entry is a selectable row"),
    }
    match &rows[1] {
        Row::Item { suffix, color, selected, .. } => {
            assert!(suffix.is_none(), "a single line has no count");
            assert_eq!(*color, Tint::Blue);
            assert!(*selected);
        }
        _ => panic!("an entry is a selectable row"),
    }
}

#[test]
fn the_history_states_its_limits_below_the_log() {
    let p = draw_history(&[], 300, 0);
    assert_eq!(p.title, "History");
    assert_eq!(
        texts(&p),
        vec![
            "Nothing has happened yet.",
            "",
            "The last 300 lines, repeats folded. A finished intrusion keeps its results, not its blow-by-blow.",
            "Up/Down to scroll, Esc to close.",
        ]
    );
}

fn rogue() -> InspectView {
    InspectView {
        name: "Sparkgrub".to_string(),
        level: Some(12),
        is_boss: true,
        is_tamed: false,
        is_hostile: true,
        hp: 30,
        max_hp: 40,
        atk: 9,
        def: -2,
        power: 5,
        taming_difficulty_pct: 35,
        quality: Some("Overclocked".to_string()),
        fusions: 3,
        decompile_chance_pct: None,
        habitats: vec!["Glass Flats".to_string(), "Rust Belt".to_string()],
        moves: vec![
            MoveView { name: "Arc Bite".to_string(), power: 12 },
            MoveView { name: "Static".to_string(), power: 4 },
        ],
        work_resource: Some("Silica".to_string()),
    }
}

#[test]
fn an_inspected_rogue_boss_reads_top_to_bottom() {
    let p = draw_inspect_detail(Some(&rogue()), 3);
    assert_eq!(p.size, PopupSize::Large);
    assert_eq!(
        texts(&p),
        vec![
            "Sparkgrub - Lv12 [BOSS]",
            "Status: rogue",
            "Integrity: 30/40",
            "Attack 9   Defense -2   Power 5",
            "Decompile difficulty: 35%",
            "Potential: Overclocked",
            "Fusions: 3/3 (can't be fused again)",
            "Decompile chance right now: needs a taming catalyst",
            "Habitats: Glass Flats, Rust Belt",
            "Moves: Arc Bite (pow 12), Static (pow 4)",
            "Work aptitude: Silica",
            "",
            "Press any key to go back, Esc to close",
        ]
    );
    assert!(matches!(&p.rows[0], Row::TextColored(_, Tint::Red)));
    assert!(matches!(&p.rows[7], Row::TextColored(_, Tint::Magenta)));
}

#[test]
fn an_own_program_shows_no_decompile_odds_and_a_gone_one_a_note() {
    let mut v = rogue();
    v.is_tamed = true;
    v.is_boss = false;
    v.level = None;
    v.quality = None;
    v.fusions = 0;
    v.habitats.clear();
    v.moves.clear();
    v.work_resource = None;
    let p = draw_inspect_detail(Some(&v), 3);
    assert_eq!(
        texts(&p),
        vec![
            "Sparkgrub",
            "Status: compiled (yours)",
            "Integrity: 30/40",
            "Attack 9   Defense -2   Power 5",
            "Decompile difficulty: 35%",
            "Habitats: unknown",
            "Moves: none",
            "",
            "Press any key to go back, Esc to close",
        ]
    );
    assert!(matches!(&p.rows[0], Row::TextColored(_, Tint::White)));
    let mut wild = rogue();
    wild.decompile_chance_pct = Some(42);
    assert!(texts(&draw_inspect_detail(Some(&wild), 5)).contains(&"Decompile chance right now: 42%"));
    assert!(texts(&draw_inspect_detail(Some(&wild), 5)).contains(&"Fusions: 3/5"));
    let gone = draw_inspect_detail(None, 3);
    assert_eq!(gone.size, PopupSize::Small);
    assert_eq!(texts(&gone), vec!["That program is gone. Press any key to go back."]);
}

#[test]
fn the_erase_prompt_names_a_fused_copy_and_defaults_to_one() {
    let lance = EraseSubject { name: "Arc Lance".to_string(), fusion_note: Some("[T2]".to_string()), held: 4 };
    let p = draw_erase_quantity(Some(&lance), "", 9).unwrap();
    assert_eq!(p.title, "Erase");
    assert_eq!(
        texts(&p),
        vec![
            "Erase how many Arc Lance [T2]?",
            "",
            "Quantity: 1",
            "",
            "You have: 4        Buffer: 9",
            "",
            "Type digits, Enter to erase",
            "[A] Erase all   Esc to go back",
        ]
    );
    let silica = EraseSubject { name: "Silica".to_string(), fusion_note: None, held: 40 };
    let typed = draw_erase_quantity(Some(&silica), "12", 9).unwrap();
    assert_eq!(texts(&typed)[0], "Erase how many Silica?");
    assert_eq!(texts(&typed)[2], "Quantity: 12");
}

#[test]
fn with_no_copy_pending_the_erase_prompt_draws_nothing() {
    assert!(draw_erase_quantity(None, "3", 9).is_none());
}
