use feral_gui::menus::{
    draw_achievements, draw_dev_console, draw_direction_prompt, draw_game_over, draw_group_menu,
    draw_help_index, draw_help_page, draw_load_game, draw_main_menu, draw_options,
    draw_quit_app_confirm, draw_quit_run_confirm, draw_save_action, AchievementRow, Earned,
    HelpPage, MenuRow, OptionRow, SaveRow,
};
use feral_gui::popup::{Popup, PopupSize, Row};
use feral_gui::tint::Tint;

fn texts(p: &Popup) -> Vec<&str> {
    p.rows
        .iter()
        .map(|r| match r {
            Row::Text(t) | Row::TextColored(t, _) => t.as_str(),
            Row::Item { text, .. } => text.as_str(),
        })
        .collect()
}

fn selected_text(p: &Popup) -> Vec<&str> {
    p.rows
        .iter()
        .filter_map(|r| match r {
            Row::Item { text, selected: true, .. } => Some(text.as_str()),
            _ => None,
        })
        .collect()
}

fn menu(rows: &[(char, &str)]) -> Vec<MenuRow> {
    rows.iter().map(|(k, l)| MenuRow { shortcut: *k, label: l.to_string() }).collect()
}

#[test]
fn the_main_menu_opens_on_the_games_name_and_highlights_one_option() {
    let p = draw_main_menu(true, false, false, 1);
    assert_eq!(p.title, "Main Menu");
    assert_eq!(
        texts(&p),
        vec![
            "feral-processes",
            "// jack into the Grid",
            "",
            "[N] New Game",
            "[L] Load Game",
            "[A] Achievements",
            "[O] Options",
            "[Q] Quit",
        ]
    );
    assert_eq!(selected_text(&p), vec!["[L] Load Game"]);
}

#[test]
fn options_read_label_colon_value() {
    let p = draw_options(&[OptionRow { label: "Tactical fights".to_string(), value: "on".to_string() }], 0);
    assert_eq!(texts(&p)[1], "Tactical fights: on");
    assert_eq!(selected_text(&p), vec!["Tactical fights: on"]);
    assert_eq!(*texts(&p).last().unwrap(), "Enter toggles, Esc to close.");
}

#[test]
fn achievements_count_what_is_earned_and_dim_the_rest() {
    let entries = vec![
        AchievementRow {
            name: "First Blood".to_string(),
            reward: "+5 ATK".to_string(),
            description: "Win a fight".to_string(),
            earned: Some(Earned { tick: 120, permadeath: true, rolled_stat: Some("ATK".to_string()) }),
        },
        AchievementRow {
            name: "Deep Diver".to_string(),
            reward: "+1 perk".to_string(),
            description: "Reach frame 10".to_string(),
            earned: None,
        },
    ];
    let p = draw_achievements(&entries, 1);
    let t = texts(&p);
    assert_eq!(t[0], "1 of 2 earned. Rewards are paid at the start of your next run.");
    assert_eq!(t[2], "First Blood - +5 ATK - cycle 120 [permadeath] -> ATK");
    assert_eq!(t[3], "Deep Diver - +1 perk - Reach frame 10");
    match &p.rows[2] {
        Row::Item { color, .. } => assert_eq!(*color, Tint::Green),
        _ => panic!("a rung is a selectable row"),
    }
    match &p.rows[3] {
        Row::Item { color, selected, .. } => {
            assert_eq!(*color, Tint::TextDim);
            assert!(*selected);
        }
        _ => panic!("a rung is a selectable row"),
    }
}

#[test]
fn the_save_picker_marks_an_unreadable_save() {
    let saves = vec![
        SaveRow { shortcut: '1', name: "alpha".to_string(), summary: Some("Lv 4, zone 2".to_string()) },
        SaveRow { shortcut: '2', name: "beta".to_string(), summary: None },
    ];
    let p = draw_load_game(&saves, 0);
    assert_eq!(
        texts(&p),
        vec![
            "Pick a save (Esc to cancel; Up/Down + Enter also work)",
            "[1] alpha - Lv 4, zone 2",
            "[2] beta - (incompatible save - can still be deleted)",
        ]
    );
    let none = draw_load_game(&[], 0);
    assert_eq!(texts(&none)[1], "(no saves found)");
}

#[test]
fn a_save_offers_load_and_delete() {
    let p = draw_save_action(Some("alpha"), 1);
    assert_eq!(texts(&p)[0], "alpha");
    assert_eq!(selected_text(&p), vec!["[X] Delete"]);
    assert_eq!(texts(&draw_save_action(None, 0))[0], "(unknown save)");
}

#[test]
fn game_over_reads_the_summary_or_a_lost_connection() {
    let p = draw_game_over(Some("Deleted on frame 3."));
    assert_eq!(p.title, "Session Terminated");
    assert_eq!(texts(&p)[0], "FLATLINE");
    assert!(matches!(&p.rows[0], Row::TextColored(_, Tint::Red)));
    assert_eq!(texts(&p)[2], "Deleted on frame 3.");
    assert_eq!(texts(&draw_game_over(None))[2], "Connection lost.");
}

#[test]
fn both_quit_prompts_spell_out_their_choices() {
    let run = draw_quit_run_confirm(2);
    assert_eq!(selected_text(&run), vec!["[N] Keep playing"]);
    assert!(texts(&run).contains(&"Quitting without saving drops progress since the last autosave."));
    let app = draw_quit_app_confirm(0);
    assert_eq!(app.title, "Quit");
    assert_eq!(selected_text(&app), vec!["[Y] Yes, quit"]);
}

#[test]
fn a_direction_prompt_is_small_and_says_one_thing() {
    let p = draw_direction_prompt("Inspect Direction", "Choose a direction");
    assert_eq!(p.size, PopupSize::Small);
    assert_eq!(p.title, "Inspect Direction");
    assert_eq!(texts(&p), vec!["Choose a direction"]);
}

#[test]
fn group_menus_and_the_dev_console_key_their_rows() {
    let rows = menu(&[('w', "Work a structure"), ('s', "Staff")]);
    let p = draw_group_menu(&rows, "Base", 0);
    assert_eq!(p.title, "Base");
    assert_eq!(texts(&p)[1..], ["[w] Work a structure", "[s] Staff"]);
    let empty = draw_group_menu(&[], "Party", 0);
    assert_eq!(texts(&empty)[1], "(nothing available here right now)");
    let dev = draw_dev_console(&menu(&[('1', "Reveal map")]), 0);
    assert_eq!(texts(&dev), vec!["Dev build only. Esc to close.", "[1] Reveal map"]);
}

#[test]
fn a_help_page_scrolls_its_prose_and_pins_its_links() {
    let topics = menu(&[('a', "Basics"), ('b', "Fights")]);
    let index = draw_help_index(&topics, 1);
    assert_eq!(index.title, "Help");
    assert_eq!(selected_text(&index), vec!["[b] Fights"]);
    let page = HelpPage {
        title: "Basics".to_string(),
        prose: vec!["Move with arrows.".to_string(), "Press g for the map.".to_string()],
        links: menu(&[('b', "Fights")]),
    };
    let p = draw_help_page(Some(&page), &topics, 1);
    assert_eq!(p.title, "Basics");
    let t = texts(&p);
    assert_eq!(t[0..2], ["Move with arrows.", "Press g for the map."]);
    assert!(t.contains(&"Read on:"));
    assert!(t.contains(&"  [b] Fights"));
    assert_eq!(selected_text(&p), vec!["Press g for the map."]);
    let fallback = draw_help_page(None, &topics, 1);
    assert_eq!(texts(&fallback), texts(&index));
}
