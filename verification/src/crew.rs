//! The CREW pane of the info column: the roster, party first, then the
//! routines running on it.
use vstd::prelude::*;
use vstd::string::StrSliceExecFns;
use vstd::string::StringExecFns;

use crate::base_pane::{cell_v, line_v, subhead_v};
use crate::palette::{ATTENTION, BODY, FAINT, LABEL, THREAT};
use crate::panes::{body, dim, head, head_v, label, subhead, text, with_tail, PaneRow, PaneRowView};
use crate::strip::{piece, piece_v, push_piece, Piece};
use crate::text::{cell, decimal, ellipsized, push_decimal, push_signed, signed_decimal};

verus! {

/// Roster rows listed before the list stops.
pub const CREW_ROWS: usize = 12;

/// One owned program, as the roster reads it.
#[derive(Debug)]
pub struct PetInfo {
    pub name: String,
    pub level: u32,
    pub hp: i32,
    pub max_hp: i32,
    /// Its place in the party, for a program standing beside the player.
    pub party_slot: Option<u32>,
    pub activity: String,
}

/// One running routine.
#[derive(Debug)]
pub struct BuffView {
    pub name: String,
    pub magnitude: String,
    pub remaining: String,
    /// Who carries it, for a buff borne by a companion rather than the
    /// player.
    pub holder: Option<String>,
}

// ---------------------------------------------------------------------------
// Name order
// ---------------------------------------------------------------------------

/// `a` sorts strictly before `b`, comparing character by character.
/// Character order is code-point order, which is the byte order of the
/// strings' UTF-8.
pub open spec fn name_lt(a: Seq<char>, b: Seq<char>) -> bool
    decreases a.len(),
{
    if a.len() == 0 {
        b.len() > 0
    } else if b.len() == 0 {
        false
    } else if a[0] != b[0] {
        (a[0] as int) < (b[0] as int)
    } else {
        name_lt(a.drop_first(), b.drop_first())
    }
}

proof fn name_lt_transitive(a: Seq<char>, b: Seq<char>, c: Seq<char>)
    requires
        name_lt(a, b),
        name_lt(b, c),
    ensures
        name_lt(a, c),
    decreases a.len(),
{
    if a.len() > 0 && b.len() > 0 && c.len() > 0 && a[0] == b[0] && b[0] == c[0] {
        name_lt_transitive(a.drop_first(), b.drop_first(), c.drop_first());
    }
}

proof fn name_lt_asymmetric(a: Seq<char>, b: Seq<char>)
    requires
        name_lt(a, b),
    ensures
        !name_lt(b, a),
    decreases a.len(),
{
    if a.len() > 0 && b.len() > 0 && a[0] == b[0] {
        name_lt_asymmetric(a.drop_first(), b.drop_first());
    }
}

proof fn name_lt_total(a: Seq<char>, b: Seq<char>)
    requires
        a != b,
    ensures
        name_lt(a, b) || name_lt(b, a),
    decreases a.len(),
{
    if a.len() == 0 && b.len() == 0 {
        assert(a =~= b);
    }
    if a.len() > 0 && b.len() > 0 && a[0] == b[0] {
        if a.drop_first() == b.drop_first() {
            assert(a =~= seq![a[0]] + a.drop_first());
            assert(b =~= seq![b[0]] + b.drop_first());
        }
        name_lt_total(a.drop_first(), b.drop_first());
    }
}

proof fn name_lt_irreflexive(a: Seq<char>)
    ensures
        !name_lt(a, a),
    decreases a.len(),
{
    if a.len() > 0 {
        name_lt_irreflexive(a.drop_first());
    }
}

/// Whether `a` sorts before `b`.
pub fn name_before(a: &str, b: &str) -> (r: bool)
    ensures
        r == name_lt(a@, b@),
{
    let la = a.unicode_len();
    let lb = b.unicode_len();
    let mut i: usize = 0;
    assert(a@.skip(0) =~= a@);
    assert(b@.skip(0) =~= b@);
    while i < la && i < lb
        invariant
            i <= la,
            i <= lb,
            la == a@.len(),
            lb == b@.len(),
            name_lt(a@, b@) == name_lt(a@.skip(i as int), b@.skip(i as int)),
        decreases la - i,
    {
        let ca = a.get_char(i);
        let cb = b.get_char(i);
        proof {
            let sa = a@.skip(i as int);
            let sb = b@.skip(i as int);
            assert(sa[0] == ca);
            assert(sb[0] == cb);
            assert(sa.drop_first() =~= a@.skip(i + 1));
            assert(sb.drop_first() =~= b@.skip(i + 1));
        }
        if ca != cb {
            return ca < cb;
        }
        i = i + 1;
    }
    proof {
        assert(a@.skip(i as int).len() == la - i);
        assert(b@.skip(i as int).len() == lb - i);
    }
    i == la && i < lb
}

// ---------------------------------------------------------------------------
// Roster order
// ---------------------------------------------------------------------------

/// The roster's order on two programs: party members first, by slot, then
/// everyone by name.
pub open spec fn pet_lt(p: PetInfo, q: PetInfo) -> bool {
    if (p.party_slot is None) != (q.party_slot is None) {
        p.party_slot is Some
    } else if p.party_slot is Some && p.party_slot != q.party_slot {
        p.party_slot.unwrap() < q.party_slot.unwrap()
    } else {
        name_lt(p.name@, q.name@)
    }
}

/// Entry `a` of `pets` comes before entry `b` on the roster: by the roster
/// order, and by place in the list between two that order cannot tell
/// apart.
pub open spec fn listed_before(pets: Seq<PetInfo>, a: int, b: int) -> bool {
    pet_lt(pets[a], pets[b]) || (!pet_lt(pets[b], pets[a]) && a < b)
}

/// `order` lists every entry of `pets` once.
pub open spec fn is_arrangement(order: Seq<usize>, n: nat) -> bool {
    &&& order.len() == n
    &&& forall|i: int| 0 <= i < n ==> #[trigger] order[i] < n
    &&& forall|i: int, j: int| 0 <= i < j < n ==> order[i] != order[j]
}

/// `order` lists the entries of `pets` in roster order.
pub open spec fn in_roster_order(pets: Seq<PetInfo>, order: Seq<usize>) -> bool {
    forall|i: int, j: int|
        #![trigger order[i], order[j]]
        0 <= i < j < order.len() ==> listed_before(pets, order[i] as int, order[j] as int)
}

proof fn pet_lt_transitive(p: PetInfo, q: PetInfo, r: PetInfo)
    requires
        pet_lt(p, q),
        pet_lt(q, r),
    ensures
        pet_lt(p, r),
{
    if (p.party_slot is None) == (q.party_slot is None) && (q.party_slot is None) == (
    r.party_slot is None) {
        if p.party_slot is None || (p.party_slot == q.party_slot && q.party_slot == r.party_slot) {
            name_lt_transitive(p.name@, q.name@, r.name@);
        }
    }
}

proof fn pet_lt_asymmetric(p: PetInfo, q: PetInfo)
    requires
        pet_lt(p, q),
    ensures
        !pet_lt(q, p),
{
    if (p.party_slot is None) == (q.party_slot is None) && (p.party_slot is None
        || p.party_slot == q.party_slot) {
        name_lt_asymmetric(p.name@, q.name@);
    }
}

/// Two programs the roster order cannot tell apart share their party slot
/// and their name.
proof fn pet_tie(p: PetInfo, q: PetInfo)
    requires
        !pet_lt(p, q),
        !pet_lt(q, p),
    ensures
        p.party_slot == q.party_slot,
        p.name@ == q.name@,
{
    if p.name@ != q.name@ {
        name_lt_total(p.name@, q.name@);
    }
}

proof fn listed_before_transitive(pets: Seq<PetInfo>, a: int, b: int, c: int)
    requires
        listed_before(pets, a, b),
        listed_before(pets, b, c),
    ensures
        listed_before(pets, a, c),
{
    let (p, q, r) = (pets[a], pets[b], pets[c]);
    if pet_lt(p, q) && pet_lt(q, r) {
        pet_lt_transitive(p, q, r);
    } else if pet_lt(p, q) {
        pet_tie(q, r);
        if pet_lt(r, p) {
            pet_lt_asymmetric(p, q);
        }
    } else if pet_lt(q, r) {
        pet_tie(p, q);
        if pet_lt(r, p) {
            pet_lt_asymmetric(q, r);
        }
    } else {
        pet_tie(p, q);
        pet_tie(q, r);
        if pet_lt(r, p) {
            name_lt_irreflexive(p.name@);
        }
    }
}

proof fn listed_before_total(pets: Seq<PetInfo>, a: int, b: int)
    requires
        a != b,
        !listed_before(pets, a, b),
    ensures
        listed_before(pets, b, a),
{
}

/// Whether entry `a` of `pets` comes before entry `b`.
fn comes_before(pets: &[PetInfo], a: usize, b: usize) -> (r: bool)
    requires
        a < pets@.len(),
        b < pets@.len(),
    ensures
        r == listed_before(pets@, a as int, b as int),
{
    let p = &pets[a];
    let q = &pets[b];
    let lt_pq = pet_order(p, q);
    let lt_qp = pet_order(q, p);
    lt_pq || (!lt_qp && a < b)
}

fn pet_order(p: &PetInfo, q: &PetInfo) -> (r: bool)
    ensures
        r == pet_lt(*p, *q),
{
    match (p.party_slot, q.party_slot) {
        (Some(_), None) => true,
        (None, Some(_)) => false,
        (Some(x), Some(y)) => if x != y {
            x < y
        } else {
            name_before(p.name.as_str(), q.name.as_str())
        },
        (None, None) => name_before(p.name.as_str(), q.name.as_str()),
    }
}


/// The arrangement of `pets` in roster order. There is exactly one
/// (`roster_order` builds it, `roster_order_is_unique` shows no other).
pub open spec fn roster_arrangement(pets: Seq<PetInfo>) -> Seq<usize> {
    choose|order: Seq<usize>| is_arrangement(order, pets.len()) && in_roster_order(pets, order)
}

/// The roster's order: every entry of `pets` once, party members first by
/// slot, then everyone by name, and two the order cannot tell apart in the
/// order they were listed.
pub fn roster_order(pets: &[PetInfo]) -> (order: Vec<usize>)
    ensures
        is_arrangement(order@, pets@.len()),
        in_roster_order(pets@, order@),
        order@ == roster_arrangement(pets@),
{
    let mut order: Vec<usize> = Vec::new();
    let mut k: usize = 0;
    while k < pets.len()
        invariant
            k <= pets@.len(),
            is_arrangement(order@, k as nat),
            in_roster_order(pets@, order@),
        decreases pets@.len() - k,
    {
        let mut p: usize = 0;
        loop
            invariant
                p <= order@.len(),
                k < pets@.len(),
                is_arrangement(order@, k as nat),
                forall|q: int| 0 <= q < p ==> listed_before(pets@, order@[q] as int, k as int),
            ensures
                p <= order@.len(),
                forall|q: int| 0 <= q < p ==> listed_before(pets@, order@[q] as int, k as int),
                p < order@.len() ==> listed_before(pets@, k as int, order@[p as int] as int),
            decreases order@.len() - p,
        {
            if p == order.len() {
                break;
            }
            let next = order[p];
            if comes_before(pets, k, next) {
                break;
            }
            proof {
                listed_before_total(pets@, k as int, next as int);
            }
            p = p + 1;
        }
        let ghost old_order = order@;
        order.insert(p, k);
        proof {
            let o = order@;
            assert(o =~= old_order.insert(p as int, k));
            assert forall|i: int, j: int|
                #![trigger o[i], o[j]]
                0 <= i < j < o.len() implies listed_before(pets@, o[i] as int, o[j] as int) by {
                if j < p {
                    assert(o[i] == old_order[i] && o[j] == old_order[j]);
                } else if j == p {
                    assert(o[i] == old_order[i]);
                } else if i < p {
                    assert(o[i] == old_order[i] && o[j] == old_order[j - 1]);
                    assert(old_order[i] == old_order[i] && old_order[j - 1] == old_order[j - 1]);
                    if i < j - 1 {
                        assert(listed_before(pets@, old_order[i] as int, old_order[j - 1] as int));
                    }
                } else if i == p {
                    assert(o[j] == old_order[j - 1]);
                    if p < j - 1 {
                        assert(listed_before(pets@, old_order[p as int] as int, old_order[j - 1] as int));
                        listed_before_transitive(
                            pets@,
                            k as int,
                            old_order[p as int] as int,
                            old_order[j - 1] as int,
                        );
                    }
                } else {
                    assert(o[i] == old_order[i - 1] && o[j] == old_order[j - 1]);
                    assert(listed_before(pets@, old_order[i - 1] as int, old_order[j - 1] as int));
                }
            }
            assert forall|i: int| 0 <= i < (k + 1) implies #[trigger] o[i] < k + 1 by {
                if i < p {
                    assert(o[i] == old_order[i]);
                } else if i > p {
                    assert(o[i] == old_order[i - 1]);
                }
            }
            assert forall|i: int, j: int| 0 <= i < j < (k + 1) implies o[i] != o[j] by {
                if i < p {
                    assert(o[i] == old_order[i]);
                } else if i > p {
                    assert(o[i] == old_order[i - 1]);
                }
                if j < p {
                    assert(o[j] == old_order[j]);
                } else if j > p {
                    assert(o[j] == old_order[j - 1]);
                }
            }
        }
        k = k + 1;
    }
    proof {
        let o = order@;
        assert(is_arrangement(o, pets@.len()) && in_roster_order(pets@, o));
        let chosen = roster_arrangement(pets@);
        roster_order_is_unique(pets@, o, chosen);
    }
    order
}


/// Two different entries are never each listed before the other.
proof fn listed_before_asymmetric(pets: Seq<PetInfo>, a: int, b: int)
    requires
        listed_before(pets, a, b),
    ensures
        !listed_before(pets, b, a),
{
    if pet_lt(pets[a], pets[b]) {
        pet_lt_asymmetric(pets[a], pets[b]);
    } else if a == b {
        name_lt_irreflexive(pets[a].name@);
    }
}

/// An arrangement of `n` entries names each of them somewhere.
proof fn arrangement_covers(order: Seq<usize>, n: nat, x: int)
    requires
        is_arrangement(order, n),
        0 <= x < n,
    ensures
        exists|i: int| 0 <= i < n && order[i] as int == x,
{
    let s = order.map_values(|v: usize| v as int);
    assert(s.no_duplicates()) by {
        assert forall|i: int, j: int| 0 <= i < s.len() && 0 <= j < s.len() && i != j implies s[i]
            != s[j] by {
            if i < j {
                assert(order[i] != order[j]);
            } else {
                assert(order[j] != order[i]);
            }
        }
    }
    s.unique_seq_to_set();
    vstd::set_lib::lemma_int_range(0, n as int);
    let range = vstd::set_lib::set_int_range(0, n as int);
    assert(s.to_set().subset_of(range)) by {
        assert forall|v: int| s.to_set().contains(v) implies range.contains(v) by {
            let i = choose|i: int| 0 <= i < s.len() && s[i] == v;
            assert(order[i] < n);
        }
    }
    vstd::seq_lib::seq_to_set_is_finite(s);
    vstd::set_lib::lemma_subset_equality(s.to_set(), range);
    assert(range.contains(x));
    assert(s.to_set().contains(x));
    let i = choose|i: int| 0 <= i < s.len() && s[i] == x;
    assert(order[i] as int == x);
}

/// Two arrangements in roster order agree on their first `k` places.
proof fn roster_orders_agree(pets: Seq<PetInfo>, a: Seq<usize>, b: Seq<usize>, k: int)
    requires
        is_arrangement(a, pets.len()),
        in_roster_order(pets, a),
        is_arrangement(b, pets.len()),
        in_roster_order(pets, b),
        0 <= k <= pets.len(),
    ensures
        forall|i: int| 0 <= i < k ==> a[i] == b[i],
    decreases k,
{
    if k > 0 {
        roster_orders_agree(pets, a, b, k - 1);
        let i = k - 1;
        let n = pets.len();
        if a[i] != b[i] {
            let x = a[i] as int;
            let y = b[i] as int;
            arrangement_covers(b, n, x);
            arrangement_covers(a, n, y);
            let j = choose|j: int| 0 <= j < n && b[j] as int == x;
            let l = choose|l: int| 0 <= l < n && a[l] as int == y;
            // Neither can stand earlier: the places before `i` agree, and
            // no entry is named twice.
            if j < i {
                assert(a[j] == b[j]);
                assert(a[j] != a[i]);
            }
            if l < i {
                assert(a[l] == b[l]);
                assert(b[l] != b[i]);
            }
            assert(listed_before(pets, a[i] as int, a[l] as int));
            assert(listed_before(pets, b[i] as int, b[j] as int));
            listed_before_asymmetric(pets, x, y);
        }
    }
}

/// The roster order is a function of the roster: two arrangements of the
/// same programs, both in roster order, are the same arrangement.
pub proof fn roster_order_is_unique(pets: Seq<PetInfo>, a: Seq<usize>, b: Seq<usize>)
    requires
        is_arrangement(a, pets.len()),
        in_roster_order(pets, a),
        is_arrangement(b, pets.len()),
        in_roster_order(pets, b),
    ensures
        a == b,
{
    roster_orders_agree(pets, a, b, pets.len() as int);
    assert(a =~= b);
}

/// In roster order, every party member comes before every program outside
/// the party.
pub proof fn party_members_come_first(pets: Seq<PetInfo>, order: Seq<usize>)
    requires
        is_arrangement(order, pets.len()),
        in_roster_order(pets, order),
    ensures
        forall|i: int, j: int|
            #![trigger order[i], order[j]]
            0 <= i < j < order.len() && pets[order[j] as int].party_slot is Some
                ==> pets[order[i] as int].party_slot is Some,
{
    assert forall|i: int, j: int|
        #![trigger order[i], order[j]]
        0 <= i < j < order.len() && pets[order[j] as int].party_slot is Some implies pets[order[
        i] as int].party_slot is Some by {
        assert(listed_before(pets, order[i] as int, order[j] as int));
    }
}

// ---------------------------------------------------------------------------
// Rows
// ---------------------------------------------------------------------------

/// A roster row: `»` and body colour for a party member, faint otherwise;
/// name and level in fixed cells; Integrity in the threat colour under half;
/// and what the program is doing as the tail.
pub open spec fn roster_row(p: PetInfo) -> PaneRowView {
    let party = p.party_slot is Some;
    let mark = if party {
        "\u{bb} "@
    } else {
        "  "@
    };
    let ceiling: int = if p.max_hp >= 1 {
        p.max_hp as int
    } else {
        1
    };
    let hurt = p.hp * 2 < ceiling;
    PaneRowView::Text {
        left: seq![
            piece_v(
                mark + cell_v(p.name@, 14) + cell_v(decimal(p.level as nat), 4),
                if party {
                    BODY
                } else {
                    FAINT
                },
                false,
            ),
            piece_v(
                signed_decimal(p.hp as int) + "/"@ + signed_decimal(p.max_hp as int),
                if hurt {
                    THREAT
                } else {
                    BODY
                },
                false,
            ),
        ],
        right: seq![piece_v(p.activity@, LABEL, false)],
    }
}

/// A buff's own words in the pane: its name in a fixed cell, then its
/// magnitude.
pub open spec fn buff_text(b: BuffView) -> Seq<char> {
    ellipsized(b.name@, crate::screens::BUFF_NAME_W as nat) + " "@ + b.magnitude@
}

/// A running routine: its name and magnitude, with the ticks it has left as
/// the tail.
pub open spec fn buff_row(b: BuffView) -> PaneRowView {
    PaneRowView::Text {
        left: seq![piece_v("  "@ + buff_text(b), BODY, false)],
        right: seq![piece_v(b.remaining@, FAINT, false)],
    }
}

/// A running routine's rows: its own row, then, for one a companion bears,
/// the holder on a dim row of its own, indented under it. The column is a
/// fixed slice of the window and cannot widen to carry the holder inline.
pub open spec fn buff_rows_of(b: BuffView) -> Seq<PaneRowView> {
    seq![buff_row(b)] + match b.holder {
        Some(h) => seq![line_v(piece_v("    ("@ + h@ + ")"@, FAINT, false))],
        None => Seq::empty(),
    }
}

/// Every routine's rows, in the order given.
pub open spec fn all_buff_rows(buffs: Seq<BuffView>) -> Seq<PaneRowView>
    decreases buffs.len(),
{
    if buffs.len() == 0 {
        Seq::empty()
    } else {
        all_buff_rows(buffs.drop_last()) + buff_rows_of(buffs.last())
    }
}

pub open spec fn roster_count_row(roster: (usize, usize)) -> PaneRowView {
    PaneRowView::Text {
        left: seq![
            piece_v("ROSTER  "@, LABEL, false),
            piece_v(decimal(roster.0 as nat) + "/"@ + decimal(roster.1 as nat), BODY, false),
        ],
        right: if roster.0 >= roster.1 {
            seq![piece_v("full"@, ATTENTION, false)]
        } else {
            Seq::empty()
        },
    }
}

pub open spec fn shown_roster(pets: Seq<PetInfo>, order: Seq<usize>) -> Seq<PaneRowView> {
    let shown: nat = if order.len() < CREW_ROWS {
        order.len()
    } else {
        CREW_ROWS as nat
    };
    Seq::new(shown, |i: int| roster_row(pets[order[i] as int]))
}

/// The CREW pane, with the roster arranged as `order` lists it: the count
/// of programs owned against the capacity, the roster (party first, at most
/// `CREW_ROWS`), then the routines running.
pub open spec fn spec_crew_rows(
    roster: (usize, usize),
    pets: Seq<PetInfo>,
    order: Seq<usize>,
    buffs: Seq<BuffView>,
) -> Seq<PaneRowView> {
    seq![
        head_v("CREW"@, 'p', "party"@),
        roster_count_row(roster),
        line_v(piece_v(cell_v("  UNIT"@, 16) + cell_v("LV"@, 4) + "HP"@, LABEL, false)),
    ] + (if pets.len() == 0 {
        seq![line_v(piece_v("  nobody on the roster"@, FAINT, false))]
    } else {
        Seq::empty()
    }) + shown_roster(pets, order) + seq![PaneRowView::Rule, subhead_v("ROUTINES"@)] + (if buffs.len()
        == 0 {
        seq![line_v(piece_v("  nothing running"@, FAINT, false))]
    } else {
        Seq::empty()
    }) + all_buff_rows(buffs)
}

/// The count row under the CREW head reads `ROSTER  owned/capacity`, and
/// carries the "full" tag exactly when the roster is at or past capacity:
/// below it, its tail is empty.
pub proof fn only_a_roster_at_capacity_reads_full(
    roster: (usize, usize),
    pets: Seq<PetInfo>,
    order: Seq<usize>,
    buffs: Seq<BuffView>,
)
    ensures
        ({
            let rows = spec_crew_rows(roster, pets, order, buffs);
            &&& rows.len() > 1
            &&& rows[1] matches PaneRowView::Text { left, right } && {
                &&& left == seq![
                    piece_v("ROSTER  "@, LABEL, false),
                    piece_v(decimal(roster.0 as nat) + "/"@ + decimal(roster.1 as nat), BODY, false),
                ]
                &&& roster.0 < roster.1 ==> right.len() == 0
                &&& roster.0 >= roster.1 ==> right == seq![piece_v("full"@, ATTENTION, false)]
            }
        }),
{
    let rows = spec_crew_rows(roster, pets, order, buffs);
    assert(rows[1] == roster_count_row(roster));
}

fn push_pane_row(rows: &mut Vec<PaneRow>, row: PaneRow)
    ensures
        final(rows).deep_view() == old(rows).deep_view().push(row@),
{
    let ghost before = rows.deep_view();
    rows.push(row);
    assert(rows.deep_view() =~= before.push(row@));
}

fn one_piece_row(t: String, hex: u32) -> (row: PaneRow)
    ensures
        row@ == line_v(piece_v(t@, hex, false)),
{
    let mut left: Vec<Piece> = Vec::new();
    push_piece(&mut left, piece(t, hex, false));
    text(left)
}

fn roster_line(p: &PetInfo) -> (row: PaneRow)
    ensures
        row@ == roster_row(*p),
{
    let party = p.party_slot.is_some();
    let mut lead = if party {
        String::from_str("\u{bb} ")
    } else {
        String::from_str("  ")
    };
    let name = cell(p.name.as_str(), 14);
    lead.append(name.as_str());
    let level_text = crate::text::decimal_string(p.level as u64);
    let level = cell(level_text.as_str(), 4);
    lead.append(level.as_str());
    let ceiling: i64 = if p.max_hp >= 1 {
        p.max_hp as i64
    } else {
        1
    };
    let hurt = (p.hp as i64) * 2 < ceiling;
    let mut hp = String::new();
    push_signed(&mut hp, p.hp as i64);
    hp.append("/");
    push_signed(&mut hp, p.max_hp as i64);
    let mut left: Vec<Piece> = Vec::new();
    push_piece(&mut left, piece(lead, if party { BODY } else { FAINT }, false));
    push_piece(&mut left, piece(hp, if hurt { THREAT } else { BODY }, false));
    let mut right: Vec<Piece> = Vec::new();
    push_piece(&mut right, label(p.activity.clone()));
    let row = with_tail(left, right);
    assert(row@ =~= roster_row(*p));
    row
}

fn push_buff_rows(out: &mut Vec<PaneRow>, b: &BuffView)
    ensures
        final(out).deep_view() == old(out).deep_view() + buff_rows_of(*b),
{
    let ghost start = out.deep_view();
    let mut t = String::from_str("  ");
    let name = crate::text::ellipsis_cell(b.name.as_str(), crate::screens::BUFF_NAME_W);
    t.append(name.as_str());
    t.append(" ");
    t.append(b.magnitude.as_str());
    assert(t@ =~= "  "@ + buff_text(*b));
    let mut left: Vec<Piece> = Vec::new();
    push_piece(&mut left, body(t));
    let mut right: Vec<Piece> = Vec::new();
    push_piece(&mut right, dim(b.remaining.clone()));
    let row = with_tail(left, right);
    assert(row@ =~= buff_row(*b));
    push_pane_row(out, row);
    match &b.holder {
        Some(h) => {
            let mut tag = String::from_str("    (");
            tag.append(h.as_str());
            tag.append(")");
            push_pane_row(out, one_piece_row(tag, FAINT));
        },
        None => {},
    }
    assert(out.deep_view() =~= start + buff_rows_of(*b));
}

/// The CREW pane: the roster count, the roster party first (at most
/// `CREW_ROWS` of it), then the routines running.
pub fn crew_rows(roster: (usize, usize), pets: &[PetInfo], buffs: &[BuffView]) -> (out: Vec<
    PaneRow,
>)
    ensures
        out.deep_view() == spec_crew_rows(roster, pets@, roster_arrangement(pets@), buffs@),
{
    let mut out: Vec<PaneRow> = Vec::new();
    push_pane_row(&mut out, head("CREW", 'p', "party"));
    let mut count = String::new();
    push_decimal(&mut count, roster.0 as u64);
    count.append("/");
    push_decimal(&mut count, roster.1 as u64);
    let mut left: Vec<Piece> = Vec::new();
    push_piece(&mut left, label(String::from_str("ROSTER  ")));
    push_piece(&mut left, body(count));
    let mut right: Vec<Piece> = Vec::new();
    if roster.0 >= roster.1 {
        push_piece(&mut right, piece(String::from_str("full"), ATTENTION, false));
    }
    let count_row = with_tail(left, right);
    assert(count_row@ =~= roster_count_row(roster));
    push_pane_row(&mut out, count_row);
    let mut columns = cell("  UNIT", 16);
    let lv = cell("LV", 4);
    columns.append(lv.as_str());
    columns.append("HP");
    push_pane_row(&mut out, one_piece_row(columns, LABEL));
    if pets.len() == 0 {
        push_pane_row(&mut out, one_piece_row(String::from_str("  nobody on the roster"), FAINT));
    }
    let order = roster_order(pets);
    let ghost head_rows = out.deep_view();
    let shown = if order.len() < CREW_ROWS {
        order.len()
    } else {
        CREW_ROWS
    };
    let mut i: usize = 0;
    while i < shown
        invariant
            i <= shown,
            shown <= order@.len(),
            is_arrangement(order@, pets@.len()),
            out.deep_view() =~= head_rows + shown_roster(pets@, order@).take(i as int),
            shown_roster(pets@, order@).len() == shown,
        decreases shown - i,
    {
        let idx = order[i];
        push_pane_row(&mut out, roster_line(&pets[idx]));
        i = i + 1;
    }
    assert(shown_roster(pets@, order@).take(shown as int) =~= shown_roster(pets@, order@));
    push_pane_row(&mut out, PaneRow::Rule);
    push_pane_row(&mut out, subhead("ROUTINES"));
    if buffs.len() == 0 {
        push_pane_row(&mut out, one_piece_row(String::from_str("  nothing running"), FAINT));
    }
    let ghost mid = out.deep_view();
    let mut j: usize = 0;
    while j < buffs.len()
        invariant
            j <= buffs@.len(),
            out.deep_view() =~= mid + all_buff_rows(buffs@.take(j as int)),
        decreases buffs@.len() - j,
    {
        proof {
            assert(buffs@.take(j + 1).drop_last() =~= buffs@.take(j as int));
        }
        push_buff_rows(&mut out, &buffs[j]);
        j = j + 1;
    }
    assert(buffs@.take(buffs@.len() as int) =~= buffs@);
    assert(out.deep_view() =~= spec_crew_rows(roster, pets@, order@, buffs@));
    out
}

} // verus!
