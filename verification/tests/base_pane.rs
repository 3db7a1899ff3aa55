use feral_gui::base_pane::{base_rows, BaseData, BuildOrder, StockRow, Structure, BUILD_ROWS, PRODUCTION_ROWS};
use feral_gui::palette::{rgb, ATTENTION, BODY, THREAT};
use feral_gui::panes::{contract_rows, fitting_rows, is_ready, overflow_row, ContractRow, PaneRow};
use feral_gui::strip::Ink;

fn sides(row: &PaneRow) -> (String, String) {
    match row {
        PaneRow::Text { left, right } => (
            left.iter().map(|p| p.text.as_str()).collect(),
            right.iter().map(|p| p.text.as_str()).collect(),
        ),
        PaneRow::Rule => ("---".to_string(), String::new()),
    }
}

fn structure(label: &str, workable: bool, assignees: &[&str], output: &[u32], dur: Option<(u32, u32)>) -> Structure {
    Structure {
        label: label.to_string(),
        workable,
        assignees: assignees.iter().map(|a| a.to_string()).collect(),
        output: output.to_vec(),
        durability: dur,
    }
}

fn build(name: &str, delivered: u32, materials: u32, ticks: u32, required: u32) -> BuildOrder {
    BuildOrder { structure: name.to_string(), delivered, materials, ticks, required_ticks: required }
}

fn base() -> BaseData {
    BaseData {
        structures: vec![
            structure("Miner", true, &["Mote"], &[3, 4], Some((40, 50))),
            structure("Depot", true, &[], &[], Some((10, 50))),
            structure("Wall", false, &[], &[], Some((50, 50))),
        ],
        stock: vec![StockRow { tag: "ORE".to_string(), name: "Core Fragment".to_string(), qty: 60 }],
        builds: vec![build("Forge", 2, 5, 0, 10), build("Lab", 5, 5, 3, 10)],
        wanted: 3,
        staff: 2,
        shortfall: 1,
        shielded: false,
        in_base: true,
    }
}

#[test]
fn the_base_pane_reads_its_five_blocks_in_order() {
    let rows = base_rows(&base());
    let got: Vec<(String, String)> = rows.iter().map(sides).collect();
    let want: Vec<(&str, &str)> = vec![
        ("BASE", "b base"),
        ("  NAME              PROGRAM      OUT", ""),
        ("  Miner             Mote         7", ""),
        ("! Depot             \u{2014} none \u{2014}     0", ""),
        ("---", ""),
        ("PRODUCTION", ""),
        ("  ORE Core Fragment", "60"),
        ("---", ""),
        ("DEFENCE", ""),
        ("  SHIELDS  no defence", ""),
        ("  WEAKEST  Depot", "10/50"),
        ("---", ""),
        ("BUILD QUEUE", ""),
        ("  \u{b7} Forge", "2/5 mat"),
        ("  \u{b7} Lab", "3/10 tk"),
        ("---", ""),
        ("PROGRAMS AVAILABLE", ""),
        ("  posted   2/2", ""),
        ("  1 idle \u{b7} 1 short", "b assign"),
    ];
    let want: Vec<(String, String)> = want.iter().map(|(l, r)| (l.to_string(), r.to_string())).collect();
    assert_eq!(got, want);
    match &rows[3] {
        PaneRow::Text { left, .. } => assert_eq!(left[0].color, Ink::Hud(rgb(ATTENTION)), "an idle post is flagged"),
        PaneRow::Rule => panic!("the idle structure row is text"),
    }
    match &rows[10] {
        PaneRow::Text { right, .. } => assert_eq!(right[0].color, Ink::Hud(rgb(THREAT)), "a damaged structure reads red"),
        PaneRow::Rule => panic!("the weakest row is text"),
    }
}

#[test]
fn off_the_base_the_pane_says_where_it_is_not() {
    let mut d = base();
    d.in_base = false;
    let got: Vec<(String, String)> = base_rows(&d).iter().map(sides).collect();
    assert_eq!(
        got,
        vec![
            ("BASE".to_string(), "b base".to_string()),
            ("no base space \u{2014} you are on the surface".to_string(), String::new()),
        ]
    );
}

#[test]
fn an_empty_base_says_so_in_every_block() {
    let d = BaseData {
        structures: Vec::new(),
        stock: Vec::new(),
        builds: Vec::new(),
        wanted: 0,
        staff: 0,
        shortfall: 0,
        shielded: true,
        in_base: true,
    };
    let got: Vec<String> = base_rows(&d).iter().map(|r| sides(r).0).collect();
    for want in [
        "  no workable structures",
        "  the shelves are empty",
        "  SHIELDS  holding",
        "  WEAKEST  nothing raidable",
        "  queue empty",
        "  every post is filled",
    ] {
        assert!(got.iter().any(|g| g == want), "missing {want:?} in {got:?}");
    }
}

#[test]
fn long_lists_stop_at_their_caps() {
    let mut d = base();
    d.stock = (0..10)
        .map(|i| StockRow { tag: "ORE".to_string(), name: format!("Pile {i}"), qty: i })
        .collect();
    d.builds = (0..9).map(|i| build(&format!("Site {i}"), 0, 1, 0, 1)).collect();
    let got: Vec<String> = base_rows(&d).iter().map(|r| sides(r).0).collect();
    let piles = got.iter().filter(|g| g.starts_with("  ORE Pile")).count();
    let sites = got.iter().filter(|g| g.contains("Site")).count();
    assert_eq!(piles, PRODUCTION_ROWS);
    assert_eq!(sites, BUILD_ROWS);
}

#[test]
fn an_undamaged_weakest_structure_reads_in_body_colour() {
    let mut d = base();
    d.structures = vec![structure("Wall", false, &[], &[], Some((50, 50)))];
    let rows = base_rows(&d);
    let weakest = rows.iter().find(|r| sides(r).0.starts_with("  WEAKEST")).unwrap();
    match weakest {
        PaneRow::Text { right, .. } => {
            assert_eq!(right[0].text, "50/50");
            assert_eq!(right[0].color, Ink::Hud(rgb(BODY)));
        }
        PaneRow::Rule => panic!("the weakest row is text"),
    }
}

#[test]
fn a_contract_reads_as_two_rows_and_lights_up_when_ready() {
    let contracts = vec![
        ContractRow {
            name: "Clear the Glass Flats of every last wild program".to_string(),
            objective_line: "Defeat 10 wild programs".to_string(),
            progress: 10,
            target: 10,
        },
        ContractRow {
            name: "Haul".to_string(),
            objective_line: "Deliver 5 Silica".to_string(),
            progress: 2,
            target: 5,
        },
    ];
    assert!(is_ready(&contracts[0]) && !is_ready(&contracts[1]));
    let rows = contract_rows(&contracts);
    let got: Vec<(String, String)> = rows.iter().map(sides).collect();
    assert_eq!(got[0], ("CONTRACTS".to_string(), "b contracts".to_string()));
    assert_eq!(got[1].0, "  \u{b7} Clear the Glass Flats of every");
    assert_eq!(got[1].1, "10/10");
    assert_eq!(got[2].0, "    Defeat 10 wild programs");
    assert_eq!(got[3], ("  \u{b7} Haul".to_string(), "2/5".to_string()));
    match &rows[1] {
        PaneRow::Text { right, .. } => {
            assert_eq!(right[0].color, Ink::Hud(rgb(ATTENTION)));
            assert!(right[0].bold);
        }
        PaneRow::Rule => panic!("a contract row is text"),
    }
    let none = contract_rows(&[]);
    assert_eq!(sides(&none[1]).0, "  nothing signed");
}

const LINE: u64 = 18;
const GAP: u64 = 6;

fn line(n: usize) -> PaneRow {
    PaneRow::Text {
        left: vec![feral_gui::strip::piece(format!("row {n}"), BODY, false)],
        right: Vec::new(),
    }
}

fn lines(n: usize) -> Vec<PaneRow> {
    (0..n).map(line).collect()
}

fn height(rows: &[PaneRow], gap: u64) -> u64 {
    rows.iter().map(|r| if matches!(r, PaneRow::Rule) { gap } else { LINE }).sum()
}

#[test]
fn a_pane_that_fits_is_not_cut() {
    let (shown, cut) = fitting_rows(lines(5), LINE * 5, LINE, GAP);
    assert_eq!(cut, 0, "a pane that fits exactly was cut");
    assert_eq!(shown.len(), 5);
}

#[test]
fn an_overflowing_pane_counts_what_it_dropped() {
    let rows = lines(20);
    let n = rows.len();
    let (shown, cut) = fitting_rows(rows, LINE * 10, LINE, GAP);
    assert!(cut > 0, "twenty rows in ten rows of room were not counted");
    assert_eq!(shown.len() + cut, n, "rows vanished uncounted");
}

#[test]
fn the_overflow_line_has_room_to_be_drawn() {
    for budget in 2..14u64 {
        let avail = LINE * budget;
        let (shown, cut) = fitting_rows(lines(40), avail, LINE, GAP);
        assert!(cut > 0, "the fixture must overflow at {budget}");
        let drawn = height(&shown, GAP);
        assert!(drawn + LINE <= avail, "at {budget} rows the pane drew {drawn} of {avail}");
    }
}

#[test]
fn a_trailing_rule_is_dropped_not_counted() {
    let mut rows = lines(3);
    rows.push(PaneRow::Rule);
    rows.extend(lines(30));
    let (shown, _) = fitting_rows(rows, LINE * 6, LINE, GAP);
    assert!(!matches!(shown.last(), Some(PaneRow::Rule)), "a divider was left hanging off the end of the pane");
}

#[test]
fn a_rule_that_would_end_the_pane_is_taken_off_uncounted() {
    let wide_gap = LINE * 2;
    let mut rows = lines(3);
    rows.push(PaneRow::Rule);
    rows.extend(lines(30));
    let total = rows.len();
    let (shown, cut) = fitting_rows(rows, LINE * 6, LINE, wide_gap);
    assert_eq!(shown.len(), 3, "three lines and the rule fit, the rule comes off");
    assert_eq!(cut, 30, "the rule is not one of the rows counted as cut");
    assert_eq!(shown.len() + 1 + cut, total);
}

#[test]
fn an_overflowing_pane_says_so_on_screen() {
    let (_, cut) = fitting_rows(lines(40), LINE * 8, LINE, GAP);
    let row = overflow_row(cut).expect("a cut pane ends on its count");
    let (text, _) = sides(&row);
    assert!(text.contains(&format!("+{cut} more")), "the pane dropped {cut} rows without saying so: {text:?}");
    match &row {
        PaneRow::Text { left, .. } => assert_eq!(left[0].color, Ink::Hud(rgb(ATTENTION))),
        PaneRow::Rule => panic!("the count is a line of text"),
    }
    assert!(overflow_row(0).is_none());
}

#[test]
fn a_pane_shorter_than_a_line_shows_nothing_and_counts_everything() {
    let (shown, cut) = fitting_rows(lines(4), LINE / 2, LINE, GAP);
    assert!(shown.is_empty());
    assert_eq!(cut, 4);
}
