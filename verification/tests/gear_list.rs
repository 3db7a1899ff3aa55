use feral_gui::gear_list::{
    draw_equip_swap, draw_inventory, equipped_row, inventory_row_lines, CargoEntry, EquippedSlot,
    GearRow, InventoryView, SwapRow, SwapSlot, Wielded, WornSlot,
};
use feral_gui::inventory::WornCopy;
use feral_gui::popup::PopupSize;
use feral_gui::tint::{quality_tag_style, QualityBand, Rarity, Tint};

const MAX_FUSIONS: u32 = 3;

fn lance() -> WornCopy {
    WornCopy {
        name: "Arc Lance".to_string(),
        level: 3,
        fusion_note: Some("T1".to_string()),
        stats: "+16 ATK".to_string(),
    }
}

fn slot(tag: &str, worn: Option<WornSlot>) -> EquippedSlot {
    EquippedSlot { tag: tag.to_string(), worn }
}

/// The text a row draws, its column joined back on in front.
fn drawn(row: &GearRow) -> String {
    match row {
        GearRow::Text(t) | GearRow::Colored(t, _) => t.clone(),
        GearRow::Item { text, column: Some(c), .. } => format!("{}{}  {}", c.lead, c.tag, text),
        GearRow::Item { text, column: None, .. } => text.clone(),
    }
}

fn view(cargo: Vec<CargoEntry>) -> InventoryView {
    InventoryView {
        level: 6,
        atk: 12,
        mitigation: 4,
        power: 19,
        decompiler: 2,
        wielded: None,
        weapon: slot(
            "WEP",
            Some(WornSlot { copy: lance(), fusions: 1, rarity: Rarity::Gold, quality: QualityBand::Above }),
        ),
        armor: slot("ARM", None),
        module: slot("MOD", None),
        inventory_used: 5,
        cargo,
    }
}

fn pile(lead: &str, lines: &[&str], fusions: u32) -> CargoEntry {
    CargoEntry {
        lead: lead.to_string(),
        tag: "MAT".to_string(),
        lines: lines.iter().map(|l| l.to_string()).collect(),
        fusions,
        rarity: Rarity::Ordinary,
        quality: QualityBand::AsDesigned,
    }
}

#[test]
fn an_equipped_row_draws_its_slot_in_the_worn_copys_quality() {
    let worn = slot(
        "WEP",
        Some(WornSlot { copy: lance(), fusions: 0, rarity: Rarity::Ordinary, quality: QualityBand::Exceptional }),
    );
    match equipped_row('1', &worn, false, MAX_FUSIONS) {
        GearRow::Item { column: Some(c), .. } => {
            assert_eq!(c.tag, "WEP");
            assert_eq!(quality_tag_style(c.quality), (Tint::Gold, true));
        }
        _ => panic!("an equipment slot is a row you can pick"),
    }
    let empty = equipped_row('2', &slot("ARM", None), false, MAX_FUSIONS);
    assert_eq!(drawn(&empty), "[2] ARM  (empty)");
}

#[test]
fn the_inventory_reads_figures_slots_then_piles() {
    let cargo = vec![
        pile("[4]   3x ", &["Core Fragment"], 0),
        pile("[5]   1x ", &["Watchdog Tap (+2 MIT)", "    Grants Vigilance while worn"], 2),
    ];
    let p = draw_inventory(&view(cargo), 4, MAX_FUSIONS);
    assert_eq!(p.title, "Inventory");
    assert_eq!(p.size, PopupSize::Large);
    let rows: Vec<String> = p.rows.iter().map(drawn).collect();
    assert_eq!(
        rows,
        vec![
            "Level 6   Attack 12   Defense 4   Power 19   Decompiler 2",
            "",
            "Equipped (number to swap or unequip):",
            "[1] WEP  Arc Lance Lv3 T1 (+16 ATK)",
            "[2] ARM  (empty)",
            "[3] MOD  (empty)",
            "",
            "Inventory - Buffer 5 (row key to equip/fuse/erase):",
            "[4]   3x MAT  Core Fragment",
            "[5]   1x MAT  Watchdog Tap (+2 MIT)",
            "    Grants Vigilance while worn",
            "",
            "[S] sell one to a trader in range; [U] fuse all pairs; Esc to close; Up/Down + Enter also work",
            "[I] inspect \u{2014} full stats, and what a granted routine actually does",
        ]
    );
    assert!(matches!(&p.rows[0], GearRow::Colored(_, Tint::Cyan)));
    assert!(matches!(&p.rows[3], GearRow::Item { color: Tint::Cyan, selected: false, .. }));
    match (&p.rows[9], &p.rows[10]) {
        (
            GearRow::Item { selected: true, color: a, .. },
            GearRow::Item { selected: false, color: b, column: None, .. },
        ) => assert_eq!((*a, *b), (Tint::Cyan, Tint::Cyan), "a continuation keeps its row's tier colour"),
        _ => panic!("the picked pile's head is highlighted, its continuation is not"),
    }
}

#[test]
fn a_wielded_program_takes_the_weapon_line_and_an_empty_pack_says_so() {
    let mut v = view(Vec::new());
    v.wielded = Some(Wielded { name: "Sparkgrub".to_string(), level: 9, bonus: (7, 2) });
    let p = draw_inventory(&v, 0, MAX_FUSIONS);
    let rows: Vec<String> = p.rows.iter().map(drawn).collect();
    assert_eq!(rows[3], "[1] WEP  Sparkgrub Lv9 (+7 ATK, +2 DEF)");
    assert!(matches!(&p.rows[3], GearRow::Text(_)), "a wielded program is not a row to pick");
    assert_eq!(rows[8], "(empty)");
}

#[test]
fn a_granting_module_carries_its_passive_on_a_line_of_its_own() {
    let effect = "Grants Vigilance while worn".to_string();
    let (lead, tag, lines) = inventory_row_lines(
        "[4]   1x ".to_string(),
        "MOD".to_string(),
        vec!["Watchdog Tap (+2 MIT)".to_string()],
        &[effect.clone()],
    );
    assert_eq!((lead.as_str(), tag.as_str()), ("[4]   1x ", "MOD"));
    assert!(lines.len() > 1, "the effect must land on a line of its own: {lines:?}");
    assert!(lines[1..].iter().any(|l| l.contains(&effect)));
    assert!(!lines[0].contains(&effect), "never packed onto the head, which carries the row key");
}

#[test]
fn an_item_with_no_effects_is_still_one_line() {
    let (_, _, lines) =
        inventory_row_lines("[4]   1x ".to_string(), "MAT".to_string(), vec!["Core Fragment".to_string()], &[]);
    assert_eq!(lines.len(), 1);
}

#[test]
fn the_swap_picker_highlights_a_wrapped_candidate_as_one_thing() {
    let s = SwapSlot {
        label: "Weapon".to_string(),
        worn: Some(lance()),
        rows: vec![
            SwapRow { lines: vec!["[1] Pulse Blade  +9 ATK  -7".to_string()], fusions: 0, rarity: Rarity::Ordinary },
            SwapRow {
                lines: vec!["[2] Singularity Matrix  +30 ATK".to_string(), "    +14".to_string()],
                fusions: 3,
                rarity: Rarity::Gold,
            },
        ],
    };
    let p = draw_equip_swap(Some(&s), 1, MAX_FUSIONS);
    assert_eq!(p.title, "Replace Weapon");
    let rows: Vec<String> = p.rows.iter().map(drawn).collect();
    assert_eq!(rows[0], "Wearing: Arc Lance Lv3 T1 (+16 ATK)");
    assert_eq!(rows[2], "[1] Pulse Blade  +9 ATK  -7");
    assert_eq!(rows[5], "");
    assert_eq!(rows[6], "Middle column is what you'd get; right column is the change");
    for i in [3, 4] {
        assert!(matches!(&p.rows[i], GearRow::Item { selected: true, color: Tint::Magenta, .. }));
    }
    assert!(matches!(&p.rows[2], GearRow::Item { selected: false, color: Tint::Text, .. }));
    let none = draw_equip_swap(None, 0, MAX_FUSIONS);
    assert_eq!((none.title.as_str(), none.size), ("Gear", PopupSize::Small));
    assert_eq!(drawn(&none.rows[0]), "No slot selected.");
}
