//! The BASE pane of the info column: structures, production, defence, the
//! build queue and the labour shortfall, as rows of pieces.
use vstd::prelude::*;
use vstd::string::StringExecFns;

use crate::palette::{ATTENTION, BODY, FAINT, HEALTHY, LABEL, THREAT};
use crate::panes::{body, chip, chip_v, dim, head, head_v, label, subhead, text, with_tail, PaneRow, PaneRowView};
use crate::strip::{piece, piece_v, push_piece, Piece, PieceView};
use crate::text::{cell, clipped, decimal, push_decimal, spaces};

verus! {

/// Stock rows shown in the PRODUCTION block before the list stops.
pub const PRODUCTION_ROWS: usize = 6;

/// Build requests listed before the list stops.
pub const BUILD_ROWS: usize = 4;

/// One structure of the base, as the pane reads it.
#[derive(Debug)]
pub struct Structure {
    pub label: String,
    /// Whether a program can be posted to it.
    pub workable: bool,
    /// The programs posted to it, by name.
    pub assignees: Vec<String>,
    /// How much of each output it holds.
    pub output: Vec<u32>,
    /// Current and maximum durability, for a structure a raid can damage.
    pub durability: Option<(u32, u32)>,
}

/// One pile on the base's shelves.
#[derive(Debug)]
pub struct StockRow {
    pub tag: String,
    pub name: String,
    pub qty: u32,
}

/// One structure waiting to be built.
#[derive(Debug)]
pub struct BuildOrder {
    pub structure: String,
    pub delivered: u32,
    pub materials: u32,
    pub ticks: u32,
    pub required_ticks: u32,
}

/// Everything the BASE pane reads.
#[derive(Debug)]
pub struct BaseData {
    pub structures: Vec<Structure>,
    pub stock: Vec<StockRow>,
    pub builds: Vec<BuildOrder>,
    /// Posts the base wants filled, and programs on staff to fill them.
    pub wanted: u32,
    pub staff: u32,
    /// How many posts the staff cannot cover.
    pub shortfall: u32,
    pub shielded: bool,
    /// Base space only: out on the surface there is no base to report on.
    pub in_base: bool,
}

/// A row of one piece and no tail.
pub open spec fn line_v(p: PieceView) -> PaneRowView {
    PaneRowView::Text { left: seq![p], right: Seq::empty() }
}

pub open spec fn cell_v(t: Seq<char>, w: nat) -> Seq<char> {
    clipped(t, w) + spaces((w - clipped(t, w).len()) as nat)
}

pub open spec fn output_total(output: Seq<u32>) -> nat
    decreases output.len(),
{
    if output.len() == 0 {
        0
    } else {
        output_total(output.drop_last()) + output.last() as nat
    }
}

/// A workable structure's row: `!` and ATTENTION when nobody is posted to
/// it, then its name, who works it, and how much it holds.
pub open spec fn structure_row(s: Structure) -> PaneRowView {
    let idle = s.assignees@.len() == 0;
    let program = if idle {
        "\u{2014} none \u{2014}"@
    } else {
        s.assignees@[0]@
    };
    line_v(
        piece_v(
            (if idle {
                "! "@
            } else {
                "  "@
            }) + cell_v(s.label@, 18) + cell_v(program, 13) + decimal(output_total(s.output@)),
            if idle {
                ATTENTION
            } else {
                BODY
            },
            false,
        ),
    )
}

/// The rows of the workable structures, in order.
pub open spec fn structure_rows(ss: Seq<Structure>) -> Seq<PaneRowView>
    decreases ss.len(),
{
    if ss.len() == 0 {
        Seq::empty()
    } else {
        structure_rows(ss.drop_last()) + if ss.last().workable {
            seq![structure_row(ss.last())]
        } else {
            Seq::empty()
        }
    }
}

pub open spec fn any_workable(ss: Seq<Structure>) -> bool {
    exists|i: int| 0 <= i < ss.len() && (#[trigger] ss[i]).workable
}

/// The pane's head and its structures block.
pub open spec fn structures_block(d: BaseData) -> Seq<PaneRowView> {
    seq![
        line_v(piece_v(cell_v("  NAME"@, 20) + cell_v("PROGRAM"@, 13) + "OUT"@, LABEL, false)),
    ] + structure_rows(d.structures@) + if any_workable(d.structures@) {
        Seq::empty()
    } else {
        seq![line_v(piece_v("  no workable structures"@, FAINT, false))]
    }
}

pub open spec fn stock_row(r: StockRow) -> PaneRowView {
    PaneRowView::Text {
        left: seq![piece_v("  "@ + r.tag@ + " "@, LABEL, false), piece_v(r.name@, BODY, false)],
        right: seq![piece_v(decimal(r.qty as nat), BODY, false)],
    }
}

/// The PRODUCTION block: the first `PRODUCTION_ROWS` piles on the shelves.
pub open spec fn production_block(d: BaseData) -> Seq<PaneRowView> {
    let shown = if d.stock@.len() <= PRODUCTION_ROWS {
        d.stock@
    } else {
        d.stock@.take(PRODUCTION_ROWS as int)
    };
    seq![PaneRowView::Rule, subhead_v("PRODUCTION"@)] + (if d.stock@.len() == 0 {
        seq![line_v(piece_v("  the shelves are empty"@, FAINT, false))]
    } else {
        Seq::empty()
    }) + Seq::new(shown.len(), |i: int| stock_row(shown[i]))
}

pub open spec fn subhead_v(name: Seq<char>) -> PaneRowView {
    line_v(piece_v(name, crate::palette::PANE_TITLE, true))
}

/// How worn a structure is, as a whole percentage of its durability.
pub open spec fn wear_key(dur: (u32, u32)) -> int {
    (dur.0 * 100) / if dur.1 >= 1 {
        dur.1 as int
    } else {
        1
    }
}

/// The index of the weakest standing structure, the one a sweep takes
/// first: the lowest durability percentage, the first such on a tie.
pub open spec fn weakest(ss: Seq<Structure>) -> Option<int>
    decreases ss.len(),
{
    if ss.len() == 0 {
        None
    } else {
        let before = weakest(ss.drop_last());
        match ss.last().durability {
            None => before,
            Some(dur) => match before {
                None => Some(ss.len() - 1),
                Some(w) => if wear_key(dur) < wear_key(ss[w].durability.unwrap()) {
                    Some(ss.len() - 1)
                } else {
                    before
                },
            },
        }
    }
}

/// The DEFENCE block: the shields, and the weakest structure's durability,
/// in THREAT when it is damaged.
pub open spec fn defence_block(d: BaseData) -> Seq<PaneRowView> {
    seq![
        PaneRowView::Rule,
        subhead_v("DEFENCE"@),
        PaneRowView::Text {
            left: seq![
                piece_v("  SHIELDS  "@, LABEL, false),
                if d.shielded {
                    piece_v("holding"@, HEALTHY, false)
                } else {
                    piece_v("no defence"@, ATTENTION, false)
                },
            ],
            right: Seq::empty(),
        },
        match weakest(d.structures@) {
            Some(w) => {
                let s = d.structures@[w];
                let (cur, max) = s.durability.unwrap();
                PaneRowView::Text {
                    left: seq![piece_v("  WEAKEST  "@, LABEL, false), piece_v(s.label@, BODY, false)],
                    right: seq![
                        piece_v(
                            decimal(cur as nat) + "/"@ + decimal(max as nat),
                            if cur < max {
                                THREAT
                            } else {
                                BODY
                            },
                            false,
                        ),
                    ],
                }
            },
            None => PaneRowView::Text {
                left: seq![
                    piece_v("  WEAKEST  "@, LABEL, false),
                    piece_v("nothing raidable"@, FAINT, false),
                ],
                right: Seq::empty(),
            },
        },
    ]
}

/// A build's progress: materials while they are still arriving, then ticks.
pub open spec fn build_note(b: BuildOrder) -> Seq<char> {
    if b.delivered < b.materials {
        decimal(b.delivered as nat) + "/"@ + decimal(b.materials as nat) + " mat"@
    } else {
        decimal(b.ticks as nat) + "/"@ + decimal(b.required_ticks as nat) + " tk"@
    }
}

pub open spec fn build_row(b: BuildOrder) -> PaneRowView {
    PaneRowView::Text {
        left: seq![piece_v("  \u{b7} "@, FAINT, false), piece_v(b.structure@, BODY, false)],
        right: seq![piece_v(build_note(b), LABEL, false)],
    }
}

/// The BUILD QUEUE block: the first `BUILD_ROWS` requests, or an empty
/// queue with the key that marks a site.
pub open spec fn build_block(d: BaseData) -> Seq<PaneRowView> {
    let shown = if d.builds@.len() <= BUILD_ROWS {
        d.builds@
    } else {
        d.builds@.take(BUILD_ROWS as int)
    };
    seq![PaneRowView::Rule, subhead_v("BUILD QUEUE"@)] + (if d.builds@.len() == 0 {
        seq![
            PaneRowView::Text {
                left: seq![piece_v("  queue empty"@, FAINT, false)],
                right: chip_v('b', "mark a site"@),
            },
        ]
    } else {
        Seq::empty()
    }) + Seq::new(shown.len(), |i: int| build_row(shown[i]))
}

/// How many workable structures have nobody posted.
pub open spec fn idle_count(ss: Seq<Structure>) -> nat
    decreases ss.len(),
{
    if ss.len() == 0 {
        0
    } else {
        idle_count(ss.drop_last()) + if ss.last().workable && ss.last().assignees@.len() == 0 {
            1nat
        } else {
            0nat
        }
    }
}

/// The PROGRAMS AVAILABLE block: posts filled against staff, then the idle
/// structures and the shortfall in ATTENTION, or that every post is filled.
pub open spec fn labour_block(d: BaseData) -> Seq<PaneRowView> {
    let idle = idle_count(d.structures@);
    let filled = if d.wanted <= d.staff {
        d.wanted
    } else {
        d.staff
    };
    seq![
        PaneRowView::Rule,
        subhead_v("PROGRAMS AVAILABLE"@),
        PaneRowView::Text {
            left: seq![
                piece_v("  posted   "@, LABEL, false),
                piece_v(decimal(filled as nat) + "/"@ + decimal(d.staff as nat), BODY, false),
            ],
            right: Seq::empty(),
        },
        if idle > 0 || d.shortfall > 0 {
            PaneRowView::Text {
                left: seq![
                    piece_v(
                        "  "@ + decimal(idle) + " idle \u{b7} "@ + decimal(d.shortfall as nat)
                            + " short"@,
                        ATTENTION,
                        false,
                    ),
                ],
                right: chip_v('b', "assign"@),
            }
        } else {
            line_v(piece_v("  every post is filled"@, FAINT, false))
        },
    ]
}

/// The BASE pane: its head, then its five blocks in order; off
/// the base, only a note saying where the base is not.
pub open spec fn spec_base_rows(d: BaseData) -> Seq<PaneRowView> {
    seq![head_v("BASE"@, 'b', "base"@)] + if !d.in_base {
        seq![line_v(piece_v("no base space \u{2014} you are on the surface"@, FAINT, false))]
    } else {
        structures_block(d) + production_block(d) + defence_block(d) + build_block(d)
            + labour_block(d)
    }
}

/// The posted figure counts the posts actually filled against the staff:
/// with no more posts than programs it reads `wanted/staff`, and only with
/// more posts than programs does every program count as posted
/// (`staff/staff`). It stands third of the four rows that close the pane.
pub proof fn posted_counts_filled_posts(d: BaseData)
    requires
        d.in_base,
    ensures
        ({
            let rows = spec_base_rows(d);
            let posted = |f: nat|
                PaneRowView::Text {
                    left: seq![
                        piece_v("  posted   "@, LABEL, false),
                        piece_v(decimal(f) + "/"@ + decimal(d.staff as nat), BODY, false),
                    ],
                    right: Seq::empty(),
                };
            &&& rows.len() >= 5
            &&& d.wanted <= d.staff ==> rows[rows.len() - 2] == posted(d.wanted as nat)
            &&& d.staff < d.wanted ==> rows[rows.len() - 2] == posted(d.staff as nat)
        }),
{
    let head = seq![head_v("BASE"@, 'b', "base"@)];
    let blocks = structures_block(d) + production_block(d) + defence_block(d) + build_block(d);
    let lab = labour_block(d);
    let rows = spec_base_rows(d);
    assert(rows == head + (blocks + lab));
    assert(lab.len() == 4);
    assert(rows[rows.len() - 2] == lab[2]);
}

fn push_pane_row(rows: &mut Vec<PaneRow>, row: PaneRow)
    ensures
        final(rows).deep_view() == old(rows).deep_view().push(row@),
{
    let ghost before = rows.deep_view();
    rows.push(row);
    assert(rows.deep_view() =~= before.push(row@));
}

fn one(p: Piece) -> (out: Vec<Piece>)
    ensures
        out.deep_view() == seq![p@],
{
    let mut out: Vec<Piece> = Vec::new();
    push_piece(&mut out, p);
    assert(out.deep_view() =~= seq![p@]);
    out
}

fn two(a: Piece, b: Piece) -> (out: Vec<Piece>)
    ensures
        out.deep_view() == seq![a@, b@],
{
    let mut out: Vec<Piece> = Vec::new();
    push_piece(&mut out, a);
    push_piece(&mut out, b);
    assert(out.deep_view() =~= seq![a@, b@]);
    out
}

fn line(p: Piece) -> (row: PaneRow)
    ensures
        row@ == line_v(p@),
{
    text(one(p))
}

fn total_output(output: &Vec<u32>) -> (total: u64)
    requires
        output@.len() <= u32::MAX,
    ensures
        total == output_total(output@),
{
    let mut total: u64 = 0;
    let mut i: usize = 0;
    while i < output.len()
        invariant
            i <= output@.len() <= u32::MAX,
            total == output_total(output@.subrange(0, i as int)),
            total <= i * (u32::MAX as int),
        decreases output@.len() - i,
    {
        proof {
            assert(output@.subrange(0, i + 1).drop_last() =~= output@.subrange(0, i as int));
            assert((i + 1) * (u32::MAX as int) == i * (u32::MAX as int) + u32::MAX) by (nonlinear_arith);
        }
        total = total + output[i] as u64;
        i = i + 1;
    }
    assert(output@.subrange(0, output@.len() as int) =~= output@);
    total
}

fn structure_line(s: &Structure) -> (row: PaneRow)
    requires
        s.output@.len() <= u32::MAX,
    ensures
        row@ == structure_row(*s),
{
    let idle = s.assignees.len() == 0;
    let program = if idle {
        String::from_str("\u{2014} none \u{2014}")
    } else {
        String::from_str(s.assignees[0].as_str())
    };
    let mut t = String::from_str(if idle {
        "! "
    } else {
        "  "
    });
    t.append(cell(s.label.as_str(), 18).as_str());
    t.append(cell(program.as_str(), 13).as_str());
    push_decimal(&mut t, total_output(&s.output));
    line(
        piece(
            t,
            if idle {
                ATTENTION
            } else {
                BODY
            },
            false,
        ),
    )
}

fn structures_rows(rows: &mut Vec<PaneRow>, d: &BaseData)
    requires
        forall|i: int| 0 <= i < d.structures@.len() ==> (#[trigger] d.structures@[i]).output@.len() <= u32::MAX,
    ensures
        final(rows).deep_view() == old(rows).deep_view() + structures_block(*d),
{
    let ghost start = rows.deep_view();
    let mut header = cell("  NAME", 20);
    header.append(cell("PROGRAM", 13).as_str());
    header.append("OUT");
    push_pane_row(rows, line(piece(header, LABEL, false)));
    let ghost at = rows.deep_view();
    let mut any = false;
    let mut i: usize = 0;
    while i < d.structures.len()
        invariant
            i <= d.structures@.len(),
            forall|k: int| 0 <= k < d.structures@.len() ==> (#[trigger] d.structures@[k]).output@.len() <= u32::MAX,
            rows.deep_view() =~= at + structure_rows(d.structures@.subrange(0, i as int)),
            any == any_workable(d.structures@.subrange(0, i as int)),
        decreases d.structures@.len() - i,
    {
        let ghost sub = d.structures@.subrange(0, i + 1);
        proof {
            assert(sub.drop_last() =~= d.structures@.subrange(0, i as int));
            assert(sub.last() == d.structures@[i as int]);
        }
        if d.structures[i].workable {
            push_pane_row(rows, structure_line(&d.structures[i]));
            any = true;
            proof {
                assert(sub[i as int].workable);
            }
        } else {
            proof {
                if any_workable(sub) {
                    let j = choose|j: int| 0 <= j < sub.len() && (#[trigger] sub[j]).workable;
                    assert(d.structures@.subrange(0, i as int)[j] == sub[j]);
                }
            }
        }
        proof {
            if any_workable(d.structures@.subrange(0, i as int)) {
                let j = choose|j: int| 0 <= j < i && (#[trigger] d.structures@.subrange(0, i as int)[j]).workable;
                assert(sub[j] == d.structures@.subrange(0, i as int)[j]);
            }
        }
        i = i + 1;
    }
    assert(d.structures@.subrange(0, d.structures@.len() as int) =~= d.structures@);
    if !any {
        push_pane_row(rows, line(dim(String::from_str("  no workable structures"))));
    }
    assert(rows.deep_view() =~= start + structures_block(*d));
}

fn production_rows(rows: &mut Vec<PaneRow>, d: &BaseData)
    ensures
        final(rows).deep_view() == old(rows).deep_view() + production_block(*d),
{
    let ghost start = rows.deep_view();
    push_pane_row(rows, PaneRow::Rule);
    push_pane_row(rows, subhead("PRODUCTION"));
    if d.stock.len() == 0 {
        push_pane_row(rows, line(dim(String::from_str("  the shelves are empty"))));
    }
    let ghost at = rows.deep_view();
    let n = if d.stock.len() <= PRODUCTION_ROWS {
        d.stock.len()
    } else {
        PRODUCTION_ROWS
    };
    let mut i: usize = 0;
    while i < n
        invariant
            i <= n <= d.stock@.len(),
            rows.deep_view() =~= at + Seq::new(i as nat, |k: int| stock_row(d.stock@[k])),
        decreases n - i,
    {
        let r = &d.stock[i];
        let mut tag = String::from_str("  ");
        tag.append(r.tag.as_str());
        tag.append(" ");
        let mut qty = String::new();
        push_decimal(&mut qty, r.qty as u64);
        let row = with_tail(
            two(label(tag), body(String::from_str(r.name.as_str()))),
            one(body(qty)),
        );
        assert(row@ =~~= stock_row(*r));
        push_pane_row(rows, row);
        i = i + 1;
    }
    assert(rows.deep_view() =~= start + production_block(*d));
}

fn weakest_index(ss: &Vec<Structure>) -> (out: Option<usize>)
    ensures
        match out {
            Some(w) => weakest(ss@) == Some(w as int),
            None => weakest(ss@) is None,
        },
        weakest(ss@) matches Some(w) ==> 0 <= w < ss@.len() && ss@[w].durability is Some,
{
    let mut best: Option<usize> = None;
    let mut best_key: u64 = 0;
    let mut i: usize = 0;
    while i < ss.len()
        invariant
            i <= ss@.len(),
            match best {
                Some(w) => weakest(ss@.subrange(0, i as int)) == Some(w as int) && w < i
                    && ss@[w as int].durability is Some && best_key == wear_key(
                    ss@[w as int].durability.unwrap(),
                ),
                None => weakest(ss@.subrange(0, i as int)) is None,
            },
        decreases ss@.len() - i,
    {
        let ghost sub = ss@.subrange(0, i + 1);
        proof {
            assert(sub.drop_last() =~= ss@.subrange(0, i as int));
            assert(sub.last() == ss@[i as int]);
            if let Some(w) = best {
                assert(sub[w as int] == ss@[w as int]);
            }
        }
        match ss[i].durability {
            None => {},
            Some((cur, max)) => {
                let denom: u64 = if max >= 1 {
                    max as u64
                } else {
                    1
                };
                let key: u64 = (cur as u64 * 100) / denom;
                match best {
                    None => {
                        best = Some(i);
                        best_key = key;
                    },
                    Some(_) => {
                        if key < best_key {
                            best = Some(i);
                            best_key = key;
                        }
                    },
                }
            },
        }
        i = i + 1;
    }
    assert(ss@.subrange(0, ss@.len() as int) =~= ss@);
    best
}

fn defence_rows(rows: &mut Vec<PaneRow>, d: &BaseData)
    ensures
        final(rows).deep_view() == old(rows).deep_view() + defence_block(*d),
{
    let ghost start = rows.deep_view();
    push_pane_row(rows, PaneRow::Rule);
    push_pane_row(rows, subhead("DEFENCE"));
    let shield = if d.shielded {
        piece(String::from_str("holding"), HEALTHY, false)
    } else {
        piece(String::from_str("no defence"), ATTENTION, false)
    };
    push_pane_row(rows, text(two(label(String::from_str("  SHIELDS  ")), shield)));
    match weakest_index(&d.structures) {
        Some(w) => {
            let s = &d.structures[w];
            let (cur, max) = match s.durability {
                Some(dur) => dur,
                None => (0, 0),
            };
            let mut figure = String::new();
            push_decimal(&mut figure, cur as u64);
            figure.append("/");
            push_decimal(&mut figure, max as u64);
            let row = with_tail(
                two(label(String::from_str("  WEAKEST  ")), body(String::from_str(s.label.as_str()))),
                one(
                    piece(
                        figure,
                        if cur < max {
                            THREAT
                        } else {
                            BODY
                        },
                        false,
                    ),
                ),
            );
            push_pane_row(rows, row);
        },
        None => {
            push_pane_row(
                rows,
                text(
                    two(
                        label(String::from_str("  WEAKEST  ")),
                        dim(String::from_str("nothing raidable")),
                    ),
                ),
            );
        },
    }
    assert(rows.deep_view() =~~= start + defence_block(*d));
}

fn build_rows(rows: &mut Vec<PaneRow>, d: &BaseData)
    ensures
        final(rows).deep_view() == old(rows).deep_view() + build_block(*d),
{
    let ghost start = rows.deep_view();
    push_pane_row(rows, PaneRow::Rule);
    push_pane_row(rows, subhead("BUILD QUEUE"));
    if d.builds.len() == 0 {
        push_pane_row(
            rows,
            with_tail(one(dim(String::from_str("  queue empty"))), chip('b', "mark a site")),
        );
    }
    let ghost at = rows.deep_view();
    let n = if d.builds.len() <= BUILD_ROWS {
        d.builds.len()
    } else {
        BUILD_ROWS
    };
    let mut i: usize = 0;
    while i < n
        invariant
            i <= n <= d.builds@.len(),
            rows.deep_view() =~= at + Seq::new(i as nat, |k: int| build_row(d.builds@[k])),
        decreases n - i,
    {
        let b = &d.builds[i];
        let mut note = String::new();
        if b.delivered < b.materials {
            push_decimal(&mut note, b.delivered as u64);
            note.append("/");
            push_decimal(&mut note, b.materials as u64);
            note.append(" mat");
        } else {
            push_decimal(&mut note, b.ticks as u64);
            note.append("/");
            push_decimal(&mut note, b.required_ticks as u64);
            note.append(" tk");
        }
        let row = with_tail(
            two(dim(String::from_str("  \u{b7} ")), body(String::from_str(b.structure.as_str()))),
            one(label(note)),
        );
        assert(row@ =~~= build_row(*b));
        push_pane_row(rows, row);
        i = i + 1;
    }
    assert(rows.deep_view() =~~= start + build_block(*d));
}

fn count_idle(ss: &Vec<Structure>) -> (n: u64)
    ensures
        n == idle_count(ss@),
{
    let mut n: u64 = 0;
    let mut i: usize = 0;
    while i < ss.len()
        invariant
            i <= ss@.len(),
            n == idle_count(ss@.subrange(0, i as int)),
            n <= i,
        decreases ss@.len() - i,
    {
        proof {
            assert(ss@.subrange(0, i + 1).drop_last() =~= ss@.subrange(0, i as int));
        }
        if ss[i].workable && ss[i].assignees.len() == 0 {
            n = n + 1;
        }
        i = i + 1;
    }
    assert(ss@.subrange(0, ss@.len() as int) =~= ss@);
    n
}

fn labour_rows(rows: &mut Vec<PaneRow>, d: &BaseData)
    ensures
        final(rows).deep_view() == old(rows).deep_view() + labour_block(*d),
{
    let ghost start = rows.deep_view();
    push_pane_row(rows, PaneRow::Rule);
    push_pane_row(rows, subhead("PROGRAMS AVAILABLE"));
    let idle = count_idle(&d.structures);
    let filled = if d.wanted <= d.staff {
        d.wanted
    } else {
        d.staff
    };
    let mut posted = String::new();
    push_decimal(&mut posted, filled as u64);
    posted.append("/");
    push_decimal(&mut posted, d.staff as u64);
    push_pane_row(rows, text(two(label(String::from_str("  posted   ")), body(posted))));
    if idle > 0 || d.shortfall > 0 {
        let mut s = String::from_str("  ");
        push_decimal(&mut s, idle);
        s.append(" idle \u{b7} ");
        push_decimal(&mut s, d.shortfall as u64);
        s.append(" short");
        push_pane_row(rows, with_tail(one(piece(s, ATTENTION, false)), chip('b', "assign")));
    } else {
        push_pane_row(rows, line(dim(String::from_str("  every post is filled"))));
    }
    assert(rows.deep_view() =~~= start + labour_block(*d));
}

/// The BASE pane's rows; see `spec_base_rows`.
pub fn base_rows(d: &BaseData) -> (rows: Vec<PaneRow>)
    requires
        forall|i: int| 0 <= i < d.structures@.len() ==> (#[trigger] d.structures@[i]).output@.len() <= u32::MAX,
    ensures
        rows.deep_view() == spec_base_rows(*d),
{
    let mut rows: Vec<PaneRow> = Vec::new();
    push_pane_row(&mut rows, head("BASE", 'b', "base"));
    if !d.in_base {
        push_pane_row(&mut rows, line(dim(String::from_str("no base space \u{2014} you are on the surface"))));
        assert(rows.deep_view() =~~= spec_base_rows(*d));
        return rows;
    }
    let ghost at = rows.deep_view();
    structures_rows(&mut rows, d);
    production_rows(&mut rows, d);
    defence_rows(&mut rows, d);
    build_rows(&mut rows, d);
    labour_rows(&mut rows, d);
    assert(rows.deep_view() =~= at + structures_block(*d) + production_block(*d) + defence_block(*d)
        + build_block(*d) + labour_block(*d));
    rows
}

} // verus!
