//! What the info column's open pane draws, as rows of pieces: a row of text
//! with an optional right-aligned tail, or a hairline between two blocks.
use vstd::prelude::*;
use vstd::string::StringExecFns;

use crate::palette::{ATTENTION, BODY, EMPHASIS, FAINT, LABEL, PANE_TITLE};
use crate::strip::{piece, piece_v, push_piece, Piece, PieceView};
use crate::text::{clip, clipped, decimal, push_char, push_decimal};

verus! {

/// One line of a pane body.
#[derive(Debug)]
pub enum PaneRow {
    /// Text, with an optional right-aligned tail. The tail is where a keycap
    /// chip goes, so a key is never separated from the thing it acts on.
    Text { left: Vec<Piece>, right: Vec<Piece> },
    /// A hairline across the body, between two blocks.
    Rule,
}

#[verifier::ext_equal]
pub enum PaneRowView {
    Text { left: Seq<PieceView>, right: Seq<PieceView> },
    Rule,
}

impl View for PaneRow {
    type V = PaneRowView;

    open spec fn view(&self) -> PaneRowView {
        match self {
            PaneRow::Text { left, right } => PaneRowView::Text {
                left: left.deep_view(),
                right: right.deep_view(),
            },
            PaneRow::Rule => PaneRowView::Rule,
        }
    }
}

impl DeepView for PaneRow {
    type V = PaneRowView;

    open spec fn deep_view(&self) -> PaneRowView {
        self.view()
    }
}

/// A row of text with no tail.
pub fn text(left: Vec<Piece>) -> (row: PaneRow)
    ensures
        row@ == (PaneRowView::Text { left: left.deep_view(), right: Seq::empty() }),
{
    let right: Vec<Piece> = Vec::new();
    assert(right.deep_view() =~= Seq::<PieceView>::empty());
    PaneRow::Text { left, right }
}

/// A row of text with a right-aligned tail.
pub fn with_tail(left: Vec<Piece>, right: Vec<Piece>) -> (row: PaneRow)
    ensures
        row@ == (PaneRowView::Text { left: left.deep_view(), right: right.deep_view() }),
{
    PaneRow::Text { left, right }
}

/// A block's sub-head, bold in the pane-title colour on a row of its own.
pub fn subhead(name: &str) -> (row: PaneRow)
    ensures
        row@ == (PaneRowView::Text {
            left: seq![piece_v(name@, PANE_TITLE, true)],
            right: Seq::empty(),
        }),
{
    let mut left: Vec<Piece> = Vec::new();
    push_piece(&mut left, piece(String::from_str(name), PANE_TITLE, true));
    assert(left.deep_view() =~= seq![piece_v(name@, PANE_TITLE, true)]);
    text(left)
}

pub open spec fn chip_v(key: char, verb: Seq<char>) -> Seq<PieceView> {
    seq![piece_v(seq![key], EMPHASIS, true), piece_v(" "@ + verb, LABEL, false)]
}

/// A keycap chip: the key, then what it opens.
pub fn chip(key: char, verb: &str) -> (out: Vec<Piece>)
    ensures
        out.deep_view() == chip_v(key, verb@),
{
    let mut k = String::new();
    push_char(&mut k, key);
    let mut v = String::from_str(" ");
    v.append(verb);
    let mut out: Vec<Piece> = Vec::new();
    push_piece(&mut out, piece(k, EMPHASIS, true));
    push_piece(&mut out, piece(v, LABEL, false));
    assert(out.deep_view() =~= chip_v(key, verb@));
    out
}

pub open spec fn head_v(name: Seq<char>, key: char, verb: Seq<char>) -> PaneRowView {
    PaneRowView::Text { left: seq![piece_v(name, PANE_TITLE, true)], right: chip_v(key, verb) }
}

/// A pane's heading: its name, and the chip of the key that opens its full
/// screen.
pub fn head(name: &str, key: char, verb: &str) -> (row: PaneRow)
    ensures
        row@ == head_v(name@, key, verb@),
{
    let mut left: Vec<Piece> = Vec::new();
    push_piece(&mut left, piece(String::from_str(name), PANE_TITLE, true));
    assert(left.deep_view() =~= seq![piece_v(name@, PANE_TITLE, true)]);
    with_tail(left, chip(key, verb))
}

/// An inert hint.
pub fn dim(t: String) -> (p: Piece)
    ensures
        p@ == piece_v(t@, FAINT, false),
{
    piece(t, FAINT, false)
}

/// Body text.
pub fn body(t: String) -> (p: Piece)
    ensures
        p@ == piece_v(t@, BODY, false),
{
    piece(t, BODY, false)
}

/// A dim label.
pub fn label(t: String) -> (p: Piece)
    ensures
        p@ == piece_v(t@, LABEL, false),
{
    piece(t, LABEL, false)
}

/// Cells a contract's name gets before its progress tail.
pub const CONTRACT_NAME_CELLS: usize = 30;

/// Cells a contract's objective gets on its second row.
pub const CONTRACT_OBJECTIVE_CELLS: usize = 36;

/// What the run is signed to, as the pane reads it.
#[derive(Debug)]
pub struct ContractRow {
    pub name: String,
    pub objective_line: String,
    pub progress: u32,
    pub target: u32,
}

/// Whether a contract has met what it asks for and is waiting to be handed
/// in. The pane's colour and its collapsed bar both read this.
pub fn is_ready(c: &ContractRow) -> (ready: bool)
    ensures
        ready == (c.progress >= c.target),
{
    c.progress >= c.target
}

/// A contract's two rows: its clipped name with `progress/target` on the
/// tail (bold ATTENTION once ready), then its clipped objective.
pub open spec fn contract_rows_of(c: ContractRow) -> Seq<PaneRowView> {
    let ready = c.progress >= c.target;
    seq![
        PaneRowView::Text {
            left: seq![
                piece_v("  \u{b7} "@, FAINT, false),
                piece_v(clipped(c.name@, CONTRACT_NAME_CELLS as nat), BODY, false),
            ],
            right: seq![
                piece_v(
                    decimal(c.progress as nat) + "/"@ + decimal(c.target as nat),
                    if ready {
                        ATTENTION
                    } else {
                        BODY
                    },
                    ready,
                ),
            ],
        },
        PaneRowView::Text {
            left: seq![
                piece_v(
                    "    "@ + clipped(c.objective_line@, CONTRACT_OBJECTIVE_CELLS as nat),
                    FAINT,
                    false,
                ),
            ],
            right: Seq::empty(),
        },
    ]
}

pub open spec fn all_contract_rows(cs: Seq<ContractRow>) -> Seq<PaneRowView>
    decreases cs.len(),
{
    if cs.len() == 0 {
        Seq::empty()
    } else {
        all_contract_rows(cs.drop_last()) + contract_rows_of(cs.last())
    }
}

fn push_pane_row(rows: &mut Vec<PaneRow>, row: PaneRow)
    ensures
        final(rows).deep_view() == old(rows).deep_view().push(row@),
{
    let ghost before = rows.deep_view();
    rows.push(row);
    assert(rows.deep_view() =~= before.push(row@));
}

fn one_piece(p: Piece) -> (out: Vec<Piece>)
    ensures
        out.deep_view() == seq![p@],
{
    let mut out: Vec<Piece> = Vec::new();
    push_piece(&mut out, p);
    assert(out.deep_view() =~= seq![p@]);
    out
}

/// The CONTRACTS pane: what the run is signed to, two rows apiece, or a note
/// that nothing is signed. It reads from anywhere, so there is no locale for
/// it to be empty in.
pub fn contract_rows(contracts: &[ContractRow]) -> (out: Vec<PaneRow>)
    ensures
        out.deep_view() == seq![head_v("CONTRACTS"@, 'b', "contracts"@)] + if contracts@.len() == 0 {
            seq![
                PaneRowView::Text {
                    left: seq![piece_v("  nothing signed"@, FAINT, false)],
                    right: Seq::empty(),
                },
            ]
        } else {
            all_contract_rows(contracts@)
        },
{
    let mut out: Vec<PaneRow> = Vec::new();
    push_pane_row(&mut out, head("CONTRACTS", 'b', "contracts"));
    if contracts.len() == 0 {
        push_pane_row(&mut out, text(one_piece(dim(String::from_str("  nothing signed")))));
        return out;
    }
    let ghost start = out.deep_view();
    let mut i: usize = 0;
    while i < contracts.len()
        invariant
            i <= contracts@.len(),
            out.deep_view() =~= start + all_contract_rows(contracts@.subrange(0, i as int)),
        decreases contracts@.len() - i,
    {
        let c = &contracts[i];
        let ready = is_ready(c);
        let mut lead: Vec<Piece> = Vec::new();
        push_piece(&mut lead, dim(String::from_str("  \u{b7} ")));
        push_piece(&mut lead, body(clip(c.name.as_str(), CONTRACT_NAME_CELLS)));
        let mut figure = String::new();
        push_decimal(&mut figure, c.progress as u64);
        figure.append("/");
        push_decimal(&mut figure, c.target as u64);
        let tail = one_piece(
            piece(
                figure,
                if ready {
                    ATTENTION
                } else {
                    BODY
                },
                ready,
            ),
        );
        let first = with_tail(lead, tail);
        let mut objective = String::from_str("    ");
        objective.append(clip(c.objective_line.as_str(), CONTRACT_OBJECTIVE_CELLS).as_str());
        let second = text(one_piece(dim(objective)));
        proof {
            assert(figure@ =~= decimal(c.progress as nat) + "/"@ + decimal(c.target as nat));
            assert(seq![first@, second@] =~~= contract_rows_of(*c));
        }
        let ghost before = out.deep_view();
        push_pane_row(&mut out, first);
        push_pane_row(&mut out, second);
        proof {
            assert(out.deep_view() =~= before + contract_rows_of(*c));
            assert(contracts@.subrange(0, i + 1).drop_last() =~= contracts@.subrange(0, i as int));
            assert(contracts@.subrange(0, i + 1).last() == contracts@[i as int]);
        }
        i = i + 1;
    }
    assert(contracts@.subrange(0, contracts@.len() as int) =~= contracts@);
    out
}

// ---------------------------------------------------------------------------
// Fitting a pane to its height
// ---------------------------------------------------------------------------

/// How tall a row draws: a line of text, or the gap a hairline takes. The
/// two heights are in whatever one unit the caller measures the pane in.
pub open spec fn row_h(r: PaneRowView, line: nat, gap: nat) -> nat {
    match r {
        PaneRowView::Text { .. } => line,
        PaneRowView::Rule => gap,
    }
}

/// How tall `rows` draw, together.
pub open spec fn rows_h(rows: Seq<PaneRowView>, line: nat, gap: nat) -> nat
    decreases rows.len(),
{
    if rows.len() == 0 {
        0
    } else {
        rows_h(rows.drop_last(), line, gap) + row_h(rows.last(), line, gap)
    }
}

/// How many rows from the top fit in `budget`, stopping at the first that
/// does not.
pub open spec fn fit_count(rows: Seq<PaneRowView>, budget: int, line: nat, gap: nat) -> nat
    decreases rows.len(),
{
    if rows.len() == 0 || row_h(rows[0], line, gap) > budget {
        0
    } else {
        1 + fit_count(rows.drop_first(), budget - row_h(rows[0], line, gap), line, gap)
    }
}

/// `rows` with any hairlines at the end taken off.
pub open spec fn without_trailing_rules(rows: Seq<PaneRowView>) -> Seq<PaneRowView>
    decreases rows.len(),
{
    if rows.len() > 0 && rows.last() is Rule {
        without_trailing_rules(rows.drop_last())
    } else {
        rows
    }
}

/// The rows a pane of height `avail` draws, and how many it cut: all of them
/// when they fit; otherwise as many from the top as fit under one line kept
/// back for the count of the rest, less any hairline left at the end, which
/// is not counted: a divider with nothing under it is not lost information.
pub open spec fn spec_fitting_rows(rows: Seq<PaneRowView>, avail: nat, line: nat, gap: nat) -> (
    Seq<PaneRowView>,
    nat,
) {
    if rows_h(rows, line, gap) <= avail {
        (rows, 0)
    } else {
        let k = fit_count(rows, avail - line, line, gap);
        (without_trailing_rules(rows.take(k as int)), (rows.len() - k) as nat)
    }
}

fn row_height(row: &PaneRow, line: u64, gap: u64) -> (h: u64)
    ensures
        h == row_h(row@, line as nat, gap as nat),
{
    match row {
        PaneRow::Text { .. } => line,
        PaneRow::Rule => gap,
    }
}

proof fn rows_h_grows(rows: Seq<PaneRowView>, i: int, j: int, line: nat, gap: nat)
    requires
        0 <= i <= j <= rows.len(),
    ensures
        rows_h(rows.take(i), line, gap) <= rows_h(rows.take(j), line, gap),
    decreases j - i,
{
    if i < j {
        rows_h_grows(rows, i, j - 1, line, gap);
        assert(rows.take(j).drop_last() =~= rows.take(j - 1));
    }
}

/// The rows of `rows` a pane `avail` tall draws, and how many it cut; see
/// `spec_fitting_rows`. `line` and `gap` are the heights of a line of text
/// and of a hairline, in the unit `avail` is measured in.
pub fn fitting_rows(rows: Vec<PaneRow>, avail: u64, line: u64, gap: u64) -> (out: (
    Vec<PaneRow>,
    usize,
))
    requires
        rows_h(rows.deep_view(), line as nat, gap as nat) <= u64::MAX,
    ensures
        (out.0.deep_view(), out.1 as nat) == spec_fitting_rows(
            rows.deep_view(),
            avail as nat,
            line as nat,
            gap as nat,
        ),
{
    let ghost all = rows.deep_view();
    let n = rows.len();
    let mut total: u64 = 0;
    let mut i: usize = 0;
    while i < n
        invariant
            n == all.len(),
            all == rows.deep_view(),
            i <= n,
            total == rows_h(all.take(i as int), line as nat, gap as nat),
            rows_h(all, line as nat, gap as nat) <= u64::MAX,
        decreases n - i,
    {
        proof {
            assert(all.take(i + 1).drop_last() =~= all.take(i as int));
            rows_h_grows(all, i + 1, n as int, line as nat, gap as nat);
            assert(all.take(n as int) =~= all);
        }
        total = total + row_height(&rows[i], line, gap);
        i = i + 1;
    }
    assert(all.take(n as int) =~= all);
    if total <= avail {
        return (rows, 0);
    }
    let ghost budget: int = avail - line;
    let mut taken: usize = 0;
    if avail >= line {
        let room = avail - line;
        let mut used: u64 = 0;
        let mut stop = false;
        assert(all.skip(0) =~= all);
        while taken < n && !stop
            invariant
                n == all.len(),
                all == rows.deep_view(),
                budget == room,
                taken <= n,
                used <= room,
                fit_count(all, budget, line as nat, gap as nat) == taken + fit_count(
                    all.skip(taken as int),
                    budget - used,
                    line as nat,
                    gap as nat,
                ),
                stop ==> taken < n && row_h(all[taken as int], line as nat, gap as nat) > room
                    - used,
            decreases n - taken + if stop {
                0int
            } else {
                1int
            },
        {
            let h = row_height(&rows[taken], line, gap);
            proof {
                let rest = all.skip(taken as int);
                assert(rest[0] == all[taken as int]);
                assert(rest.drop_first() =~= all.skip(taken + 1));
            }
            if h > room - used {
                stop = true;
            } else {
                used = used + h;
                taken = taken + 1;
            }
        }
        proof {
            let rest = all.skip(taken as int);
            if stop {
                assert(rest[0] == all[taken as int]);
            } else {
                assert(rest.len() == 0);
            }
        }
    }
    assert(fit_count(all, budget, line as nat, gap as nat) == taken);
    let cut = n - taken;
    let mut shown = rows;
    shown.truncate(taken);
    assert(shown.deep_view() =~= all.take(taken as int));
    let mut more = true;
    while more
        invariant
            without_trailing_rules(shown.deep_view()) == without_trailing_rules(
                all.take(taken as int),
            ),
            !more ==> without_trailing_rules(shown.deep_view()) == shown.deep_view(),
        decreases shown.deep_view().len() * 2 + if more {
            1int
        } else {
            0int
        },
    {
        let len = shown.len();
        if len == 0 {
            more = false;
        } else {
            let is_rule = match &shown[len - 1] {
                PaneRow::Rule => true,
                PaneRow::Text { .. } => false,
            };
            if is_rule {
                let ghost before = shown.deep_view();
                shown.pop();
                assert(shown.deep_view() =~= before.drop_last());
            } else {
                more = false;
            }
        }
    }
    (shown, cut)
}

/// A pane that fits is drawn whole; one that does not shows a prefix of its
/// rows, says how many it cut, and never ends on a hairline. Every row is
/// shown, counted, or a hairline taken off the end. A pane at least a line
/// tall keeps room for the line that gives the count; a shorter one has no
/// room to keep.
pub proof fn a_pane_accounts_for_every_row(rows: Seq<PaneRowView>, avail: nat, line: nat, gap: nat)
    ensures
        ({
            let (shown, cut) = spec_fitting_rows(rows, avail, line, gap);
            &&& rows_h(rows, line, gap) <= avail ==> shown == rows && cut == 0
            &&& shown.len() + cut <= rows.len()
            &&& forall|i: int| 0 <= i < shown.len() ==> #[trigger] shown[i] == rows[i]
            &&& forall|i: int| shown.len() <= i < rows.len() - cut ==> #[trigger] rows[i] is Rule
            &&& cut > 0 && line <= avail ==> rows_h(shown, line, gap) + line <= avail
            &&& cut > 0 && shown.len() > 0 ==> !(shown.last() is Rule)
        }),
{
    if rows_h(rows, line, gap) > avail {
        let budget: int = avail - line;
        let k = fit_count(rows, budget, line, gap);
        fit_count_fits(rows, budget, line, gap);
        let kept = rows.take(k as int);
        trailing_rules_trimmed(kept);
        let shown = without_trailing_rules(kept);
        rows_h_grows(kept, shown.len() as int, kept.len() as int, line, gap);
        assert(kept.take(shown.len() as int) =~= shown);
        assert(kept.take(kept.len() as int) =~= kept);
        assert forall|i: int| 0 <= i < shown.len() implies #[trigger] shown[i] == rows[i] by {
            assert(shown[i] == kept[i]);
        }
        assert forall|i: int| shown.len() <= i < rows.len() - (rows.len() - k) implies #[trigger] rows[i] is Rule by {
            assert(kept[i] == rows[i]);
        }
    }
}

/// The rows `fit_count` takes fit in the budget, and are no more than
/// there are.
proof fn fit_count_fits(rows: Seq<PaneRowView>, budget: int, line: nat, gap: nat)
    ensures
        fit_count(rows, budget, line, gap) <= rows.len(),
        fit_count(rows, budget, line, gap) > 0 ==> rows_h(
            rows.take(fit_count(rows, budget, line, gap) as int),
            line,
            gap,
        ) <= budget,
        budget >= 0 ==> rows_h(rows.take(fit_count(rows, budget, line, gap) as int), line, gap)
            <= budget,
    decreases rows.len(),
{
    if rows.len() > 0 && row_h(rows[0], line, gap) <= budget {
        let rest = rows.drop_first();
        let b2 = budget - row_h(rows[0], line, gap);
        fit_count_fits(rest, b2, line, gap);
        let k = fit_count(rest, b2, line, gap);
        rows_h_front(rows.take(k + 1 as int), line, gap);
        assert(rows.take(k + 1 as int).drop_first() =~= rest.take(k as int));
    } else {
        assert(rows.take(0) =~= Seq::<PaneRowView>::empty());
    }
}

/// Summing from the front: the first row's height and the rest's.
proof fn rows_h_front(rows: Seq<PaneRowView>, line: nat, gap: nat)
    requires
        rows.len() > 0,
    ensures
        rows_h(rows, line, gap) == row_h(rows[0], line, gap) + rows_h(rows.drop_first(), line, gap),
    decreases rows.len(),
{
    if rows.len() > 1 {
        rows_h_front(rows.drop_last(), line, gap);
        assert(rows.drop_last().drop_first() =~= rows.drop_first().drop_last());
    } else {
        assert(rows.drop_first() =~= Seq::<PaneRowView>::empty());
        assert(rows.drop_last() =~= Seq::<PaneRowView>::empty());
    }
}

/// Taking the hairlines off the end leaves a prefix that does not end on
/// one, and takes off nothing else.
proof fn trailing_rules_trimmed(rows: Seq<PaneRowView>)
    ensures
        without_trailing_rules(rows).len() <= rows.len(),
        forall|i: int|
            0 <= i < without_trailing_rules(rows).len() ==> without_trailing_rules(rows)[i]
                == rows[i],
        forall|i: int|
            without_trailing_rules(rows).len() <= i < rows.len() ==> rows[i] is Rule,
        without_trailing_rules(rows).len() > 0 ==> !(without_trailing_rules(rows).last() is Rule),
    decreases rows.len(),
{
    if rows.len() > 0 && rows.last() is Rule {
        let r = rows.drop_last();
        trailing_rules_trimmed(r);
        let w = without_trailing_rules(rows);
        assert forall|i: int| 0 <= i < w.len() implies w[i] == rows[i] by {
            assert(r[i] == rows[i]);
        }
        assert forall|i: int| w.len() <= i < rows.len() implies rows[i] is Rule by {
            if i < r.len() {
                assert(r[i] == rows[i]);
            }
        }
    }
}

/// The line a cut pane ends on, in ATTENTION: the player is being told the
/// pane is not showing everything, which the pane's own screen answers.
/// Nothing when nothing was cut.
pub fn overflow_row(cut: usize) -> (row: Option<PaneRow>)
    ensures
        match row {
            None => cut == 0,
            Some(r) => cut > 0 && r@ == (PaneRowView::Text {
                left: seq![piece_v("+"@ + decimal(cut as nat) + " more"@, ATTENTION, false)],
                right: Seq::empty(),
            }),
        },
{
    if cut == 0 {
        return None;
    }
    let mut t = String::from_str("+");
    push_decimal(&mut t, cut as u64);
    t.append(" more");
    let mut left: Vec<Piece> = Vec::new();
    push_piece(&mut left, piece(t, ATTENTION, false));
    Some(text(left))
}

} // verus!
