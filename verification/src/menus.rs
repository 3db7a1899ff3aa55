//! The screens outside a run and the plain menus: main menu, options,
//! achievements, the save picker, the game-over page, the two quit prompts,
//! the group menus, the dev console and the manual.
use vstd::prelude::*;
use vstd::string::StringExecFns;

use crate::popup::{
    colored_item_row, colored_item_v, colored_text_row, item_row, item_v, popup, popup_v, push_row,
    spent_item_row, spent_item_v, text_row, text_v, Popup, PopupSize, PopupView, Row, RowView,
};
use crate::text::{decimal, push_char, push_decimal};
use crate::tint::Tint;

verus! {

/// `[k] label`, the way every keyed menu row reads.
pub open spec fn keyed(key: char, label: Seq<char>) -> Seq<char> {
    "["@ + seq![key] + "] "@ + label
}

fn keyed_string(key: char, label: &str) -> (out: String)
    ensures
        out@ == keyed(key, label@),
{
    let mut out = String::from_str("[");
    push_char(&mut out, key);
    out.append("] ");
    out.append(label);
    proof {
        assert(out@ =~= keyed(key, label@));
    }
    out
}

/// One row of a keyed menu: the key that picks it and what it says.
#[derive(Debug)]
pub struct MenuRow {
    pub shortcut: char,
    pub label: String,
}

/// Selectable rows for `labels`, the `selected`th highlighted.
pub open spec fn item_rows(labels: Seq<Seq<char>>, selected: usize) -> Seq<RowView> {
    Seq::new(labels.len(), |i: int| item_v(labels[i], i == selected))
}

/// The labels of keyed menu rows.
pub open spec fn keyed_labels(rows: Seq<(char, Seq<char>)>) -> Seq<Seq<char>> {
    Seq::new(rows.len(), |i: int| keyed(rows[i].0, rows[i].1))
}

pub open spec fn menu_rows_v(rows: Seq<MenuRow>) -> Seq<(char, Seq<char>)> {
    Seq::new(rows.len(), |i: int| (rows[i].shortcut, rows[i].label@))
}

/// Appends a selectable row for each of `labels`.
fn push_items(rows: &mut Vec<Row>, labels: Vec<String>, selected: usize)
    ensures
        final(rows).deep_view() == old(rows).deep_view() + item_rows(labels.deep_view(), selected),
{
    let ghost start = rows.deep_view();
    let mut i: usize = 0;
    while i < labels.len()
        invariant
            i <= labels@.len(),
            rows.deep_view() =~= start + item_rows(labels.deep_view().subrange(0, i as int), selected),
        decreases labels@.len() - i,
    {
        push_row(rows, item_row(String::from_str(labels[i].as_str()), i == selected));
        i = i + 1;
        proof {
            assert(item_rows(labels.deep_view().subrange(0, i as int), selected) =~= item_rows(
                labels.deep_view().subrange(0, i - 1),
                selected,
            ).push(item_v(labels.deep_view()[i - 1], i - 1 == selected)));
        }
    }
    assert(labels.deep_view().subrange(0, labels@.len() as int) =~= labels.deep_view());
}

/// The keyed labels of `rows`, in order.
fn keyed_strings(rows: &[MenuRow]) -> (out: Vec<String>)
    ensures
        out.deep_view() == keyed_labels(menu_rows_v(rows@)),
{
    let mut out: Vec<String> = Vec::new();
    let mut i: usize = 0;
    while i < rows.len()
        invariant
            i <= rows@.len(),
            out.deep_view() =~= keyed_labels(menu_rows_v(rows@)).subrange(0, i as int),
        decreases rows@.len() - i,
    {
        let s = keyed_string(rows[i].shortcut, rows[i].label.as_str());
        let ghost before = out.deep_view();
        out.push(s);
        i = i + 1;
        proof {
            assert(out.deep_view() =~= before.push(s@));
            assert(out.deep_view() =~= keyed_labels(menu_rows_v(rows@)).subrange(0, i as int));
        }
    }
    out
}

pub open spec fn opt(present: bool, s: Seq<char>) -> Seq<Seq<char>> {
    if present {
        seq![s]
    } else {
        Seq::empty()
    }
}

/// The main menu's rows, in the order its key handler builds its key list.
/// Load appears only with saves on disk, and the two dev switches only when
/// enabled, Arena before Sprite Forge, both between Options and Quit.
pub open spec fn spec_main_menu_options(has_saves: bool, arena: bool, sprite_forge: bool) -> Seq<
    Seq<char>,
> {
    seq!["[N] New Game"@] + opt(has_saves, "[L] Load Game"@) + seq![
        "[A] Achievements"@,
        "[O] Options"@,
    ] + opt(arena, "[R] Arena"@) + opt(sprite_forge, "[D] Sprite Forge"@) + seq!["[Q] Quit"@]
}

pub fn main_menu_options(has_saves: bool, arena: bool, sprite_forge: bool) -> (options: Vec<String>)
    ensures
        options.deep_view() == spec_main_menu_options(has_saves, arena, sprite_forge),
{
    let mut options: Vec<String> = Vec::new();
    options.push(String::from_str("[N] New Game"));
    if has_saves {
        options.push(String::from_str("[L] Load Game"));
    }
    options.push(String::from_str("[A] Achievements"));
    options.push(String::from_str("[O] Options"));
    if arena {
        options.push(String::from_str("[R] Arena"));
    }
    if sprite_forge {
        options.push(String::from_str("[D] Sprite Forge"));
    }
    options.push(String::from_str("[Q] Quit"));
    assert(options.deep_view() =~= spec_main_menu_options(has_saves, arena, sprite_forge));
    options
}

/// The main menu: the game's name, its tagline, and the options.
pub fn draw_main_menu(has_saves: bool, arena: bool, sprite_forge: bool, selected: usize) -> (p: Popup)
    ensures
        p@ == popup_v(
            "Main Menu"@,
            PopupSize::Large,
            seq![
                RowView::TextColored("feral-processes"@, Tint::Text),
                RowView::TextColored("// jack into the Grid"@, Tint::Cyan),
                text_v(""@),
            ] + item_rows(spec_main_menu_options(has_saves, arena, sprite_forge), selected),
        ),
{
    let options = main_menu_options(has_saves, arena, sprite_forge);
    let mut rows: Vec<Row> = Vec::new();
    push_row(&mut rows, colored_text_row("feral-processes", Tint::Text));
    push_row(&mut rows, colored_text_row("// jack into the Grid", Tint::Cyan));
    push_row(&mut rows, text_row(""));
    push_items(&mut rows, options, selected);
    popup("Main Menu", PopupSize::Large, rows)
}

/// One settings row: what it sets and its current value.
#[derive(Debug)]
pub struct OptionRow {
    pub label: String,
    pub value: String,
}

pub open spec fn option_labels(rows: &[OptionRow]) -> Seq<Seq<char>> {
    Seq::new(rows@.len(), |i: int| rows@[i].label@ + ": "@ + rows@[i].value@)
}

/// The settings screen: one selectable `label: value` row per setting, then
/// a hand-wrapped description and the keys.
pub fn draw_options(options: &[OptionRow], selected: usize) -> (p: Popup)
    ensures
        p@ == popup_v(
            "Options"@,
            PopupSize::Large,
            seq![text_v(""@)] + item_rows(option_labels(options), selected) + seq![
                text_v(""@),
                text_v("Surface packs and town patrols fight on a generated grid,"@),
                text_v("one body at a time. Nests, lairs, Entropy Sweeps and the"@),
                text_v("Stack keep the abstract model."@),
                text_v(""@),
                text_v("Enter toggles, Esc to close."@),
            ],
        ),
{
    let mut labels: Vec<String> = Vec::new();
    let mut i: usize = 0;
    while i < options.len()
        invariant
            i <= options@.len(),
            labels.deep_view() =~= option_labels(options).subrange(0, i as int),
        decreases options@.len() - i,
    {
        let mut s = String::from_str(options[i].label.as_str());
        s.append(": ");
        s.append(options[i].value.as_str());
        let ghost before = labels.deep_view();
        labels.push(s);
        i = i + 1;
        proof {
            assert(labels.deep_view() =~= before.push(s@));
            assert(labels.deep_view() =~= option_labels(options).subrange(0, i as int));
        }
    }
    assert(option_labels(options).subrange(0, options@.len() as int) =~= option_labels(options));
    let mut rows: Vec<Row> = Vec::new();
    push_row(&mut rows, text_row(""));
    push_items(&mut rows, labels, selected);
    push_row(&mut rows, text_row(""));
    push_row(&mut rows, text_row("Surface packs and town patrols fight on a generated grid,"));
    push_row(&mut rows, text_row("one body at a time. Nests, lairs, Entropy Sweeps and the"));
    push_row(&mut rows, text_row("Stack keep the abstract model."));
    push_row(&mut rows, text_row(""));
    push_row(&mut rows, text_row("Enter toggles, Esc to close."));
    popup("Options", PopupSize::Large, rows)
}

/// A rung that has been earned: the cycle it was earned on, whether the run
/// was permadeath, and the stat its reward rolled, if any.
#[derive(Debug)]
pub struct Earned {
    pub tick: u64,
    pub permadeath: bool,
    pub rolled_stat: Option<String>,
}

/// One achievement rung, earned or not.
#[derive(Debug)]
pub struct AchievementRow {
    pub name: String,
    pub reward: String,
    pub description: String,
    pub earned: Option<Earned>,
}

/// How many of `entries` are earned.
pub open spec fn earned_count(entries: Seq<AchievementRow>) -> nat
    decreases entries.len(),
{
    if entries.len() == 0 {
        0
    } else {
        earned_count(entries.drop_last()) + if entries.last().earned is Some {
            1nat
        } else {
            0nat
        }
    }
}

/// A rung's row: an earned one in green with its cycle, a permadeath mark and
/// the rolled stat; an unearned one dim with what it asks for.
pub open spec fn achievement_row(entry: AchievementRow, selected: bool) -> RowView {
    match entry.earned {
        Some(e) => colored_item_v(
            entry.name@ + " - "@ + entry.reward@ + " - cycle "@ + decimal(e.tick as nat) + (if e.permadeath {
                " [permadeath]"@
            } else {
                ""@
            }) + match e.rolled_stat {
                Some(s) => " -> "@ + s@,
                None => ""@,
            },
            selected,
            Tint::Green,
        ),
        None => spent_item_v(
            entry.name@ + " - "@ + entry.reward@ + " - "@ + entry.description@,
            selected,
        ),
    }
}

fn achievement_item(entry: &AchievementRow, selected: bool) -> (row: Row)
    ensures
        row@ == achievement_row(*entry, selected),
{
    let mut s = String::from_str(entry.name.as_str());
    s.append(" - ");
    s.append(entry.reward.as_str());
    match &entry.earned {
        Some(e) => {
            s.append(" - cycle ");
            push_decimal(&mut s, e.tick);
            if e.permadeath {
                s.append(" [permadeath]");
            }
            match &e.rolled_stat {
                Some(stat) => {
                    s.append(" -> ");
                    s.append(stat.as_str());
                },
                None => {},
            }
            proof {
                reveal_strlit("");
                assert(s@ =~= entry.name@ + " - "@ + entry.reward@ + " - cycle "@ + decimal(
                    e.tick as nat,
                ) + (if e.permadeath {
                    " [permadeath]"@
                } else {
                    ""@
                }) + match e.rolled_stat {
                    Some(st) => " -> "@ + st@,
                    None => ""@,
                });
            }
            colored_item_row(s, selected, Tint::Green)
        },
        None => {
            s.append(" - ");
            s.append(entry.description.as_str());
            proof {
                assert(s@ =~= entry.name@ + " - "@ + entry.reward@ + " - "@ + entry.description@);
            }
            spent_item_row(s, selected)
        },
    }
}

pub open spec fn achievement_rows(entries: Seq<AchievementRow>, selected: usize) -> Seq<RowView> {
    Seq::new(entries.len(), |i: int| achievement_row(entries[i], i == selected))
}

/// Every authored rung, earned or not, under a count of how many are earned.
/// Each rung is one selectable row with its description folded into it, so
/// the row count is the rung count.
pub fn draw_achievements(entries: &[AchievementRow], selected: usize) -> (p: Popup)
    requires
        entries@.len() <= u64::MAX,
    ensures
        p@ == popup_v(
            "Achievements"@,
            PopupSize::Large,
            seq![
                text_v(
                    decimal(earned_count(entries@)) + " of "@ + decimal(entries@.len())
                        + " earned. Rewards are paid at the start of your next run."@,
                ),
                text_v(""@),
            ] + achievement_rows(entries@, selected) + seq![
                text_v(""@),
                text_v("Up/Down to scroll, Esc to close."@),
            ],
        ),
{
    let mut earned: u64 = 0;
    let mut i: usize = 0;
    while i < entries.len()
        invariant
            i <= entries@.len() <= u64::MAX,
            earned == earned_count(entries@.subrange(0, i as int)),
            earned <= i,
        decreases entries@.len() - i,
    {
        proof {
            assert(entries@.subrange(0, i + 1).drop_last() =~= entries@.subrange(0, i as int));
        }
        if entries[i].earned.is_some() {
            earned = earned + 1;
        }
        i = i + 1;
    }
    assert(entries@.subrange(0, entries@.len() as int) =~= entries@);
    let mut head = String::new();
    push_decimal(&mut head, earned);
    head.append(" of ");
    push_decimal(&mut head, entries.len() as u64);
    head.append(" earned. Rewards are paid at the start of your next run.");
    let mut rows: Vec<Row> = Vec::new();
    push_row(&mut rows, Row::Text(head));
    push_row(&mut rows, text_row(""));
    let ghost start = rows.deep_view();
    let mut k: usize = 0;
    while k < entries.len()
        invariant
            k <= entries@.len(),
            rows.deep_view() =~= start + achievement_rows(entries@, selected).subrange(0, k as int),
        decreases entries@.len() - k,
    {
        push_row(&mut rows, achievement_item(&entries[k], k == selected));
        k = k + 1;
    }
    assert(achievement_rows(entries@, selected).subrange(0, entries@.len() as int)
        =~= achievement_rows(entries@, selected));
    push_row(&mut rows, text_row(""));
    push_row(&mut rows, text_row("Up/Down to scroll, Esc to close."));
    popup("Achievements", PopupSize::Large, rows)
}

/// One save on disk: the key that picks it, its name, and its summary, which
/// is absent for a save this build cannot read.
#[derive(Debug)]
pub struct SaveRow {
    pub shortcut: char,
    pub name: String,
    pub summary: Option<String>,
}

pub open spec fn save_label(save: SaveRow) -> Seq<char> {
    keyed(save.shortcut, save.name@ + " - "@ + match save.summary {
        Some(s) => s@,
        None => "(incompatible save - can still be deleted)"@,
    })
}

/// The save picker: one keyed row per save, or a note that there are none.
pub fn draw_load_game(saves: &[SaveRow], selected: usize) -> (p: Popup)
    ensures
        p@ == popup_v(
            "Load Game"@,
            PopupSize::Large,
            seq![text_v("Pick a save (Esc to cancel; Up/Down + Enter also work)"@)] + (if saves@.len()
                == 0 {
                seq![text_v("(no saves found)"@)]
            } else {
                Seq::empty()
            }) + item_rows(Seq::new(saves@.len(), |i: int| save_label(saves@[i])), selected),
        ),
{
    let mut labels: Vec<String> = Vec::new();
    let mut i: usize = 0;
    while i < saves.len()
        invariant
            i <= saves@.len(),
            labels.deep_view() =~= Seq::new(saves@.len(), |j: int| save_label(saves@[j])).subrange(
                0,
                i as int,
            ),
        decreases saves@.len() - i,
    {
        let mut body = String::from_str(saves[i].name.as_str());
        body.append(" - ");
        match &saves[i].summary {
            Some(s) => body.append(s.as_str()),
            None => body.append("(incompatible save - can still be deleted)"),
        }
        let s = keyed_string(saves[i].shortcut, body.as_str());
        let ghost before = labels.deep_view();
        labels.push(s);
        i = i + 1;
        proof {
            assert(labels.deep_view() =~= before.push(s@));
        }
    }
    assert(Seq::new(saves@.len(), |j: int| save_label(saves@[j])).subrange(0, saves@.len() as int)
        =~= Seq::new(saves@.len(), |j: int| save_label(saves@[j])));
    let mut rows: Vec<Row> = Vec::new();
    push_row(&mut rows, text_row("Pick a save (Esc to cancel; Up/Down + Enter also work)"));
    if saves.len() == 0 {
        push_row(&mut rows, text_row("(no saves found)"));
    }
    push_items(&mut rows, labels, selected);
    popup("Load Game", PopupSize::Large, rows)
}

/// What to do with one save: its name, then load or delete.
pub fn draw_save_action(name: Option<&str>, selected: usize) -> (p: Popup)
    ensures
        p@ == popup_v(
            "Save"@,
            PopupSize::Large,
            seq![
                RowView::TextColored(
                    match name {
                        Some(n) => n@,
                        None => "(unknown save)"@,
                    },
                    Tint::Text,
                ),
                text_v(""@),
                item_v("[L]oad"@, selected == 0),
                item_v("[X] Delete"@, selected == 1),
                text_v(""@),
                text_v("Esc to cancel; Up/Down + Enter also work"@),
            ],
        ),
{
    let title = match name {
        Some(n) => String::from_str(n),
        None => String::from_str("(unknown save)"),
    };
    let mut rows: Vec<Row> = Vec::new();
    push_row(&mut rows, Row::TextColored(title, Tint::Text));
    push_row(&mut rows, text_row(""));
    push_row(&mut rows, item_row(String::from_str("[L]oad"), selected == 0));
    push_row(&mut rows, item_row(String::from_str("[X] Delete"), selected == 1));
    push_row(&mut rows, text_row(""));
    push_row(&mut rows, text_row("Esc to cancel; Up/Down + Enter also work"));
    popup("Save", PopupSize::Large, rows)
}

/// The game-over page: the run's summary, or that the connection was lost
/// when there is none.
pub fn draw_game_over(summary: Option<&str>) -> (p: Popup)
    ensures
        p@ == popup_v(
            "Session Terminated"@,
            PopupSize::Large,
            seq![
                RowView::TextColored("FLATLINE"@, Tint::Red),
                text_v(""@),
                text_v(
                    match summary {
                        Some(s) => s@,
                        None => "Connection lost."@,
                    },
                ),
                text_v(""@),
                text_v("Press any key to return to the main menu"@),
            ],
        ),
{
    let mut rows: Vec<Row> = Vec::new();
    push_row(&mut rows, colored_text_row("FLATLINE", Tint::Red));
    push_row(&mut rows, text_row(""));
    match summary {
        Some(s) => push_row(&mut rows, text_row(s)),
        None => push_row(&mut rows, text_row("Connection lost.")),
    }
    push_row(&mut rows, text_row(""));
    push_row(&mut rows, text_row("Press any key to return to the main menu"));
    popup("Session Terminated", PopupSize::Large, rows)
}

/// Confirms abandoning the run, spelling out what leaving costs.
pub fn draw_quit_run_confirm(selected: usize) -> (p: Popup)
    ensures
        p@ == popup_v(
            "Quit to Menu"@,
            PopupSize::Large,
            seq![
                text_v("Leave this run?"@),
                text_v(""@),
                item_v("[S] Save and quit to the menu"@, selected == 0),
                item_v("[Q] Quit without saving"@, selected == 1),
                item_v("[N] Keep playing"@, selected == 2),
                text_v(""@),
                text_v("Quitting without saving drops progress since the last autosave."@),
                text_v("Esc to cancel; Up/Down + Enter also work"@),
            ],
        ),
{
    let mut rows: Vec<Row> = Vec::new();
    push_row(&mut rows, text_row("Leave this run?"));
    push_row(&mut rows, text_row(""));
    push_row(&mut rows, item_row(String::from_str("[S] Save and quit to the menu"), selected == 0));
    push_row(&mut rows, item_row(String::from_str("[Q] Quit without saving"), selected == 1));
    push_row(&mut rows, item_row(String::from_str("[N] Keep playing"), selected == 2));
    push_row(&mut rows, text_row(""));
    push_row(
        &mut rows,
        text_row("Quitting without saving drops progress since the last autosave."),
    );
    push_row(&mut rows, text_row("Esc to cancel; Up/Down + Enter also work"));
    popup("Quit to Menu", PopupSize::Large, rows)
}

/// Confirms ending the process from the main menu.
pub fn draw_quit_app_confirm(selected: usize) -> (p: Popup)
    ensures
        p@ == popup_v(
            "Quit"@,
            PopupSize::Large,
            seq![
                text_v("Close feral-processes?"@),
                text_v(""@),
                item_v("[Y] Yes, quit"@, selected == 0),
                item_v("[N] No, stay"@, selected == 1),
                text_v(""@),
                text_v("Esc to cancel; Up/Down + Enter also work"@),
            ],
        ),
{
    let mut rows: Vec<Row> = Vec::new();
    push_row(&mut rows, text_row("Close feral-processes?"));
    push_row(&mut rows, text_row(""));
    push_row(&mut rows, item_row(String::from_str("[Y] Yes, quit"), selected == 0));
    push_row(&mut rows, item_row(String::from_str("[N] No, stay"), selected == 1));
    push_row(&mut rows, text_row(""));
    push_row(&mut rows, text_row("Esc to cancel; Up/Down + Enter also work"));
    popup("Quit", PopupSize::Large, rows)
}

/// A small prompt asking for a direction: a title and one line of body.
pub fn draw_direction_prompt(title: &str, body: &str) -> (p: Popup)
    ensures
        p@ == popup_v(title@, PopupSize::Small, seq![text_v(body@)]),
{
    let mut rows: Vec<Row> = Vec::new();
    push_row(&mut rows, text_row(body));
    popup(title, PopupSize::Small, rows)
}

/// A group menu (`b` base, `p` party): its keyed rows under the keys line,
/// or a note that nothing is available.
pub fn draw_group_menu(rows: &[MenuRow], title: &str, selected: usize) -> (p: Popup)
    ensures
        p@ == popup_v(
            title@,
            PopupSize::Large,
            seq![text_v("Esc to close; Up/Down + Enter also work"@)] + (if rows@.len() == 0 {
                seq![text_v("(nothing available here right now)"@)]
            } else {
                Seq::empty()
            }) + item_rows(keyed_labels(menu_rows_v(rows@)), selected),
        ),
{
    let labels = keyed_strings(rows);
    let mut out: Vec<Row> = Vec::new();
    push_row(&mut out, text_row("Esc to close; Up/Down + Enter also work"));
    if rows.len() == 0 {
        push_row(&mut out, text_row("(nothing available here right now)"));
    }
    push_items(&mut out, labels, selected);
    popup(title, PopupSize::Large, out)
}

/// The dev keypad: one keyed row per action, under a dev-only warning.
pub fn draw_dev_console(rows: &[MenuRow], selected: usize) -> (p: Popup)
    ensures
        p@ == popup_v(
            "Dev Console"@,
            PopupSize::Large,
            seq![text_v("Dev build only. Esc to close."@)] + item_rows(
                keyed_labels(menu_rows_v(rows@)),
                selected,
            ),
        ),
{
    let labels = keyed_strings(rows);
    let mut out: Vec<Row> = Vec::new();
    push_row(&mut out, text_row("Dev build only. Esc to close."));
    push_items(&mut out, labels, selected);
    popup("Dev Console", PopupSize::Large, out)
}

/// The manual's topic list: an ordinary keyed menu.
pub fn draw_help_index(topics: &[MenuRow], selected: usize) -> (p: Popup)
    ensures
        p@ == popup_v(
            "Help"@,
            PopupSize::Large,
            seq![text_v("The manual. Pick a topic."@), text_v(""@)] + (if topics@.len() == 0 {
                seq![text_v("No help pages are installed (assets/help/)."@)]
            } else {
                Seq::empty()
            }) + item_rows(keyed_labels(menu_rows_v(topics@)), selected) + seq![
                text_v(""@),
                text_v("Up/Down + Enter or a row's key to read, Esc to close."@),
            ],
        ),
{
    let labels = keyed_strings(topics);
    let mut out: Vec<Row> = Vec::new();
    push_row(&mut out, text_row("The manual. Pick a topic."));
    push_row(&mut out, text_row(""));
    if topics.len() == 0 {
        push_row(&mut out, text_row("No help pages are installed (assets/help/)."));
    }
    push_items(&mut out, labels, selected);
    push_row(&mut out, text_row(""));
    push_row(&mut out, text_row("Up/Down + Enter or a row's key to read, Esc to close."));
    popup("Help", PopupSize::Large, out)
}

/// One page of the manual: its title, its prose lines, and the topics it
/// links on to.
#[derive(Debug)]
pub struct HelpPage {
    pub title: String,
    pub prose: Vec<String>,
    pub links: Vec<MenuRow>,
}

pub open spec fn prose_rows(prose: Seq<Seq<char>>, selected: usize) -> Seq<RowView> {
    Seq::new(prose.len(), |i: int| colored_item_v(prose[i], i == selected, Tint::Text))
}

pub open spec fn link_rows(links: Seq<(char, Seq<char>)>) -> Seq<RowView> {
    Seq::new(links.len(), |i: int| text_v("  "@ + keyed(links[i].0, links[i].1)))
}

/// One page, or the index again when the page is not loaded. Every prose
/// line is a selectable row, so the highlight stands for the scroll
/// position; the links are pinned below, typed rather than selected.
pub fn draw_help_page(page: Option<&HelpPage>, topics: &[MenuRow], selected: usize) -> (p: Popup)
    ensures
        match page {
            None => p@ == draw_help_index_view(topics, selected),
            Some(v) => p@ == popup_v(
                v.title@,
                PopupSize::Large,
                prose_rows(v.prose.deep_view(), selected) + (if v.links@.len() > 0 {
                    seq![text_v(""@), text_v("Read on:"@)] + link_rows(menu_rows_v(v.links@))
                } else {
                    Seq::empty()
                }) + seq![
                    text_v(""@),
                    text_v("Up/Down to scroll, a topic's key to read on, Esc to go back."@),
                ],
            ),
        },
{
    match page {
        None => draw_help_index(topics, selected),
        Some(v) => {
            let mut rows: Vec<Row> = Vec::new();
            let mut i: usize = 0;
            while i < v.prose.len()
                invariant
                    i <= v.prose@.len(),
                    rows.deep_view() =~= prose_rows(v.prose.deep_view(), selected).subrange(
                        0,
                        i as int,
                    ),
                decreases v.prose@.len() - i,
            {
                push_row(
                    &mut rows,
                    colored_item_row(String::from_str(v.prose[i].as_str()), i == selected, Tint::Text),
                );
                i = i + 1;
            }
            if v.links.len() > 0 {
                push_row(&mut rows, text_row(""));
                push_row(&mut rows, text_row("Read on:"));
                let ghost start = rows.deep_view();
                let mut k: usize = 0;
                while k < v.links.len()
                    invariant
                        k <= v.links@.len(),
                        rows.deep_view() =~= start + link_rows(
                            menu_rows_v(v.links@),
                        ).subrange(0, k as int),
                    decreases v.links@.len() - k,
                {
                    let line = keyed_string(v.links[k].shortcut, v.links[k].label.as_str());
                    let mut s = String::from_str("  ");
                    s.append(line.as_str());
                    push_row(&mut rows, Row::Text(s));
                    k = k + 1;
                }
            }
            push_row(&mut rows, text_row(""));
            push_row(
                &mut rows,
                text_row("Up/Down to scroll, a topic's key to read on, Esc to go back."),
            );
            popup(v.title.as_str(), PopupSize::Large, rows)
        },
    }
}

/// What `draw_help_index` builds for `topics`.
pub open spec fn draw_help_index_view(topics: &[MenuRow], selected: usize) -> PopupView {
    popup_v(
        "Help"@,
        PopupSize::Large,
        seq![text_v("The manual. Pick a topic."@), text_v(""@)] + (if topics@.len() == 0 {
            seq![text_v("No help pages are installed (assets/help/)."@)]
        } else {
            Seq::empty()
        }) + item_rows(keyed_labels(menu_rows_v(topics@)), selected) + seq![
            text_v(""@),
            text_v("Up/Down + Enter or a row's key to read, Esc to close."@),
        ],
    )
}

} // verus!
