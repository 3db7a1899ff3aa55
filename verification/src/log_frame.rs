//! The log pane's chrome: the channel tag down its gutter and the keybar on
//! its bottom border.
use vstd::prelude::*;
use vstd::string::StringExecFns;

use crate::palette::{
    rgb, spec_rgb, Rgb, ATTENTION, BAR_TROUGH, BODY, CH_BASE, CH_DEFEND, CH_FIELD, CH_GAIN,
    EMPHASIS, FIELD_LABEL, HEALTHY, KEYBAR_DIVIDER, LABEL,
};
use crate::text::{decimal, push_char, push_decimal, push_signed, signed_decimal};
use crate::strip::{piece, piece_v, push_piece, Piece, PieceView};
use crate::tint::{MessageKind, MessageSource};

verus! {

/// A dim piece of the log pane's chrome.
pub fn dim(text: String) -> (p: Piece)
    ensures
        p@ == piece_v(text@, FIELD_LABEL, false),
{
    piece(text, FIELD_LABEL, false)
}

pub open spec fn keycap_v(key: Seq<char>, verb: Seq<char>) -> Seq<PieceView> {
    seq![piece_v(key, EMPHASIS, true), piece_v(" "@ + verb, FIELD_LABEL, false)]
}

/// A keybar segment: the key bright and bold, then what it does.
pub fn keycap(key: &str, verb: &str) -> (out: Vec<Piece>)
    ensures
        out.deep_view() == keycap_v(key@, verb@),
{
    let mut out: Vec<Piece> = Vec::new();
    push_piece(&mut out, piece(String::from_str(key), EMPHASIS, true));
    let mut v = String::from_str(" ");
    v.append(verb);
    push_piece(&mut out, piece(v, FIELD_LABEL, false));
    assert(out.deep_view() =~= keycap_v(key@, verb@));
    out
}

pub open spec fn divider_v() -> Seq<PieceView> {
    seq![piece_v("\u{2502}"@, KEYBAR_DIVIDER, false)]
}

/// The rule between two groups of keys.
pub fn divider() -> (out: Vec<Piece>)
    ensures
        out.deep_view() == divider_v(),
{
    let mut out: Vec<Piece> = Vec::new();
    push_piece(&mut out, piece(String::from_str("\u{2502}"), KEYBAR_DIVIDER, false));
    assert(out.deep_view() =~= divider_v());
    out
}

/// The keybar's segments in priority order: movement and the three screens
/// that hold the rest come first, since what is last is what a narrow window
/// drops first.
pub open spec fn spec_keybar_segments() -> Seq<Seq<PieceView>> {
    seq![
        keycap_v("hjkl"@, "move"@),
        keycap_v("."@, "wait"@),
        divider_v(),
        keycap_v("b"@, "base"@),
        keycap_v("i"@, "pack"@),
        keycap_v("?"@, "help"@),
        keycap_v("q"@, "menu"@),
        divider_v(),
        keycap_v("a"@, "routine"@),
        keycap_v("c"@, "collect"@),
        keycap_v("n"@, "mine"@),
        keycap_v("x"@, "examine"@),
        keycap_v("e"@, "drain"@),
        keycap_v("r"@, "recharge"@),
        keycap_v("p"@, "party"@),
        keycap_v("t"@, "trade"@),
        keycap_v("s"@, "save"@),
    ]
}

fn push_segment(segments: &mut Vec<Vec<Piece>>, segment: Vec<Piece>)
    ensures
        final(segments).deep_view() == old(segments).deep_view().push(segment.deep_view()),
{
    let ghost before = segments.deep_view();
    let ghost s = segment.deep_view();
    segments.push(segment);
    assert(segments.deep_view() =~= before.push(s));
}

pub fn keybar_segments() -> (out: Vec<Vec<Piece>>)
    ensures
        out.deep_view() == spec_keybar_segments(),
{
    let mut out: Vec<Vec<Piece>> = Vec::new();
    push_segment(&mut out, keycap("hjkl", "move"));
    push_segment(&mut out, keycap(".", "wait"));
    push_segment(&mut out, divider());
    push_segment(&mut out, keycap("b", "base"));
    push_segment(&mut out, keycap("i", "pack"));
    push_segment(&mut out, keycap("?", "help"));
    push_segment(&mut out, keycap("q", "menu"));
    push_segment(&mut out, divider());
    push_segment(&mut out, keycap("a", "routine"));
    push_segment(&mut out, keycap("c", "collect"));
    push_segment(&mut out, keycap("n", "mine"));
    push_segment(&mut out, keycap("x", "examine"));
    push_segment(&mut out, keycap("e", "drain"));
    push_segment(&mut out, keycap("r", "recharge"));
    push_segment(&mut out, keycap("p", "party"));
    push_segment(&mut out, keycap("t", "trade"));
    push_segment(&mut out, keycap("s", "save"));
    assert(out.deep_view() =~= spec_keybar_segments());
    out
}

/// Which channel a log line belongs to, as the gutter says it: a pickup and
/// a sweep are their own news, everything else is tagged by where it came
/// from.
pub open spec fn spec_channel_tag(kind: MessageKind, source: MessageSource) -> (Seq<char>, u32) {
    match kind {
        MessageKind::Loot => ("GAIN"@, CH_GAIN),
        MessageKind::Raid => ("ALERT"@, CH_DEFEND),
        _ => match source {
            MessageSource::Field => ("FIELD"@, CH_FIELD),
            MessageSource::Base => ("BASE"@, CH_BASE),
        },
    }
}

pub fn channel_tag(kind: MessageKind, source: MessageSource) -> (out: (&'static str, Rgb))
    ensures
        out.0@ == spec_channel_tag(kind, source).0,
        out.1 == spec_rgb(spec_channel_tag(kind, source).1),
{
    match kind {
        MessageKind::Loot => ("GAIN", rgb(CH_GAIN)),
        MessageKind::Raid => ("ALERT", rgb(CH_DEFEND)),
        _ => match source {
            MessageSource::Field => ("FIELD", rgb(CH_FIELD)),
            MessageSource::Base => ("BASE", rgb(CH_BASE)),
        },
    }
}


/// Which channels the log pane shows, in the order the filter key steps
/// through them.
#[derive(Clone, Copy, Debug, PartialEq, Eq, Structural)]
pub enum LogFilter {
    All,
    Field,
    Base,
}

pub open spec fn spec_filter_label(f: LogFilter) -> Seq<char> {
    match f {
        LogFilter::All => "All"@,
        LogFilter::Field => "Field"@,
        LogFilter::Base => "Base"@,
    }
}

pub fn filter_label(f: LogFilter) -> (out: &'static str)
    ensures
        out@ == spec_filter_label(f),
{
    match f {
        LogFilter::All => "All",
        LogFilter::Field => "Field",
        LogFilter::Base => "Base",
    }
}

/// The channel a filter keeps out of the pane, if it keeps one out.
pub open spec fn spec_hidden_channel(f: LogFilter) -> Option<Seq<char>> {
    match f {
        LogFilter::All => None,
        LogFilter::Field => Some("base"@),
        LogFilter::Base => Some("field"@),
    }
}

pub open spec fn filter_option(i: int, option: LogFilter, active: LogFilter) -> Seq<PieceView> {
    (if i > 0 {
        seq![piece_v(" \u{b7} "@, FIELD_LABEL, false)]
    } else {
        Seq::empty()
    }) + if option == active {
        seq![piece_v(spec_filter_label(option), HEALTHY, true)]
    } else {
        seq![piece_v(spec_filter_label(option), FIELD_LABEL, false)]
    }
}

/// The filter row: every channel in the order the key walks, the active
/// one bold in HEALTHY; the two log keys; and, when a channel is being kept
/// out and has lines in it, how many are going unread.
pub open spec fn spec_filter_pieces(active: LogFilter, filtered_out: usize) -> Seq<PieceView> {
    seq![piece_v("LOG  "@, FIELD_LABEL, false)] + filter_option(0, LogFilter::All, active)
        + filter_option(1, LogFilter::Field, active) + filter_option(2, LogFilter::Base, active)
        + seq![piece_v("   f cycle \u{b7} L history"@, FIELD_LABEL, false)] + match spec_hidden_channel(
        active,
    ) {
        Some(channel) => if filtered_out > 0 {
            seq![
                piece_v(
                    "   "@ + decimal(filtered_out as nat) + " "@ + channel + " hidden"@,
                    FIELD_LABEL,
                    false,
                ),
            ]
        } else {
            Seq::empty()
        },
        None => Seq::empty(),
    }
}

fn push_filter_option(pieces: &mut Vec<Piece>, i: usize, option: LogFilter, active: LogFilter)
    ensures
        final(pieces).deep_view() == old(pieces).deep_view() + filter_option(i as int, option, active),
{
    let ghost start = pieces.deep_view();
    if i > 0 {
        push_piece(pieces, dim(String::from_str(" \u{b7} ")));
    }
    if option == active {
        push_piece(pieces, piece(String::from_str(filter_label(option)), HEALTHY, true));
    } else {
        push_piece(pieces, dim(String::from_str(filter_label(option))));
    }
    assert(pieces.deep_view() =~= start + filter_option(i as int, option, active));
}

pub fn filter_pieces(active: LogFilter, filtered_out: usize) -> (out: Vec<Piece>)
    ensures
        out.deep_view() == spec_filter_pieces(active, filtered_out),
{
    let mut out: Vec<Piece> = Vec::new();
    push_piece(&mut out, dim(String::from_str("LOG  ")));
    push_filter_option(&mut out, 0, LogFilter::All, active);
    push_filter_option(&mut out, 1, LogFilter::Field, active);
    push_filter_option(&mut out, 2, LogFilter::Base, active);
    push_piece(&mut out, dim(String::from_str("   f cycle \u{b7} L history")));
    let hidden: Option<&str> = match active {
        LogFilter::All => None,
        LogFilter::Field => Some("base"),
        LogFilter::Base => Some("field"),
    };
    match hidden {
        Some(channel) => {
            if filtered_out > 0 {
                let mut t = String::from_str("   ");
                push_decimal(&mut t, filtered_out as u64);
                t.append(" ");
                t.append(channel);
                t.append(" hidden");
                push_piece(&mut out, dim(t));
            }
        },
        None => {},
    }
    assert(out.deep_view() =~= spec_filter_pieces(active, filtered_out));
    out
}


/// Cells in the Integrity meter.
pub const INTEG_CELLS: usize = 16;

/// Cells in the Power meter.
pub const POWER_CELLS: usize = 10;

/// Cells in the experience meter.
pub const XP_CELLS: usize = 14;

/// What the vitals strip reads. Each meter arrives as how many of its cells
/// are filled (rounded down, so a meter reads full only at its maximum), and
/// the Power reserve's figure arrives written out.
#[derive(Debug)]
pub struct Vitals {
    pub hp: i32,
    pub max_hp: i32,
    pub integ_filled: usize,
    pub power_filled: usize,
    pub power: String,
    pub level: u32,
    pub xp: u32,
    pub xp_to_next: u32,
    pub xp_filled: usize,
    pub perk_points: u32,
    pub mitigation: i32,
    pub atk: i32,
    pub strength: i32,
    pub decompiler: i32,
    pub mining: bool,
}

/// `n` filled meter cells.
pub open spec fn cells_v(n: nat) -> Seq<char> {
    Seq::new(n, |_i: int| '\u{2588}')
}

/// A meter as three pieces: its label, its filled cells in `fill`, and the
/// rest of its `width` cells in the trough colour.
pub open spec fn meter_v(name: Seq<char>, filled: nat, width: nat, fill: u32) -> Seq<PieceView> {
    seq![
        piece_v(name, FIELD_LABEL, false),
        piece_v(cells_v(filled), fill, false),
        piece_v(cells_v((width - filled) as nat), BAR_TROUGH, false),
    ]
}

pub open spec fn field_v(name: Seq<char>, value: Seq<char>) -> Seq<PieceView> {
    seq![piece_v(name, FIELD_LABEL, false), piece_v(value, BODY, false)]
}

/// The vitals segments in priority order: Integrity, Power and experience
/// meters, unspent perk points (only when there are any, in ATTENTION), then
/// mitigation, attack, strength, decompiler and whether mining is on. The
/// caller keeps the longest prefix that fits.
pub open spec fn spec_vitals_segments(v: Vitals) -> Seq<Seq<PieceView>> {
    let ceiling: int = if v.max_hp >= 1 {
        v.max_hp as int
    } else {
        1
    };
    seq![
        meter_v("INTEG "@, v.integ_filled as nat, INTEG_CELLS as nat, HEALTHY).push(
            piece_v(" "@ + signed_decimal(v.hp as int) + "/"@ + signed_decimal(ceiling), BODY, false),
        ),
        meter_v("PWR "@, v.power_filled as nat, POWER_CELLS as nat, ATTENTION).push(
            piece_v(" "@ + v.power@, BODY, false),
        ),
        meter_v("L"@ + decimal(v.level as nat) + " "@, v.xp_filled as nat, XP_CELLS as nat, CH_GAIN).push(
            piece_v(" "@ + decimal(v.xp as nat) + "/"@ + decimal(v.xp_to_next as nat), BODY, false),
        ),
    ] + (if v.perk_points > 0 {
        seq![seq![piece_v("\u{25b8} "@ + decimal(v.perk_points as nat) + " perk pts [k]"@, ATTENTION, true)]]
    } else {
        Seq::empty()
    }) + seq![
        field_v("MIT "@, signed_decimal(v.mitigation as int) + "%"@),
        field_v("ATK "@, signed_decimal(v.atk as int)),
        field_v("STR "@, signed_decimal(v.strength as int)),
        field_v("DEC "@, signed_decimal(v.decompiler as int)),
        if v.mining {
            seq![piece_v("mining on"@, HEALTHY, false)]
        } else {
            seq![piece_v("mining off"@, LABEL, false)]
        },
    ]
}

fn cells(n: usize) -> (out: String)
    ensures
        out@ == cells_v(n as nat),
{
    let mut out = String::new();
    let mut i: usize = 0;
    while i < n
        invariant
            i <= n,
            out@ =~= cells_v(i as nat),
        decreases n - i,
    {
        push_char(&mut out, '\u{2588}');
        i = i + 1;
    }
    out
}

fn meter(name: String, filled: usize, width: usize, fill: u32, tail: String) -> (out: Vec<Piece>)
    requires
        filled <= width,
    ensures
        out.deep_view() == meter_v(name@, filled as nat, width as nat, fill).push(
            piece_v(tail@, BODY, false),
        ),
{
    let mut out: Vec<Piece> = Vec::new();
    push_piece(&mut out, piece(name, FIELD_LABEL, false));
    push_piece(&mut out, piece(cells(filled), fill, false));
    push_piece(&mut out, piece(cells(width - filled), BAR_TROUGH, false));
    push_piece(&mut out, piece(tail, BODY, false));
    out
}

fn field(name: &str, value: String) -> (out: Vec<Piece>)
    ensures
        out.deep_view() == field_v(name@, value@),
{
    let mut out: Vec<Piece> = Vec::new();
    push_piece(&mut out, piece(String::from_str(name), FIELD_LABEL, false));
    push_piece(&mut out, piece(value, BODY, false));
    out
}

fn signed_string(n: i64) -> (out: String)
    ensures
        out@ == signed_decimal(n as int),
{
    let mut out = String::new();
    push_signed(&mut out, n);
    assert(out@ =~= signed_decimal(n as int));
    out
}

pub fn vitals_segments(v: &Vitals) -> (out: Vec<Vec<Piece>>)
    requires
        v.integ_filled <= INTEG_CELLS,
        v.power_filled <= POWER_CELLS,
        v.xp_filled <= XP_CELLS,
    ensures
        out.deep_view() == spec_vitals_segments(*v),
{
    let mut out: Vec<Vec<Piece>> = Vec::new();
    let ceiling: i32 = if v.max_hp >= 1 {
        v.max_hp
    } else {
        1
    };
    let mut integ = String::from_str(" ");
    push_signed(&mut integ, v.hp as i64);
    integ.append("/");
    push_signed(&mut integ, ceiling as i64);
    assert(integ@ =~= " "@ + signed_decimal(v.hp as int) + "/"@ + signed_decimal(ceiling as int));
    push_segment(&mut out, meter(String::from_str("INTEG "), v.integ_filled, INTEG_CELLS, HEALTHY, integ));
    let mut power = String::from_str(" ");
    power.append(v.power.as_str());
    assert(power@ =~= " "@ + v.power@);
    push_segment(&mut out, meter(String::from_str("PWR "), v.power_filled, POWER_CELLS, ATTENTION, power));
    let mut level = String::from_str("L");
    push_decimal(&mut level, v.level as u64);
    level.append(" ");
    let mut xp = String::from_str(" ");
    push_decimal(&mut xp, v.xp as u64);
    xp.append("/");
    push_decimal(&mut xp, v.xp_to_next as u64);
    assert(level@ =~= "L"@ + decimal(v.level as nat) + " "@);
    assert(xp@ =~= " "@ + decimal(v.xp as nat) + "/"@ + decimal(v.xp_to_next as nat));
    push_segment(&mut out, meter(level, v.xp_filled, XP_CELLS, CH_GAIN, xp));
    if v.perk_points > 0 {
        let mut perks = String::from_str("\u{25b8} ");
        push_decimal(&mut perks, v.perk_points as u64);
        perks.append(" perk pts [k]");
        assert(perks@ =~= "\u{25b8} "@ + decimal(v.perk_points as nat) + " perk pts [k]"@);
        let mut seg: Vec<Piece> = Vec::new();
        push_piece(&mut seg, piece(perks, ATTENTION, true));
        push_segment(&mut out, seg);
    }
    let mut mit = signed_string(v.mitigation as i64);
    mit.append("%");
    push_segment(&mut out, field("MIT ", mit));
    push_segment(&mut out, field("ATK ", signed_string(v.atk as i64)));
    push_segment(&mut out, field("STR ", signed_string(v.strength as i64)));
    push_segment(&mut out, field("DEC ", signed_string(v.decompiler as i64)));
    let mut mining: Vec<Piece> = Vec::new();
    if v.mining {
        push_piece(&mut mining, piece(String::from_str("mining on"), HEALTHY, false));
    } else {
        push_piece(&mut mining, piece(String::from_str("mining off"), LABEL, false));
    }
    push_segment(&mut out, mining);
    assert(out.deep_view() =~~= spec_vitals_segments(*v));
    out
}

// ---------------------------------------------------------------------------
// The body
// ---------------------------------------------------------------------------

/// A log entry as the body lays it out: its kind and channel, and its text
/// already wrapped to the pane's measure.
#[derive(Debug)]
pub struct WrappedEntry {
    pub kind: MessageKind,
    pub source: MessageSource,
    pub lines: Vec<String>,
}

/// One row of the body: its text, the kind that styles it, and the channel
/// tag when this is the row its entry leads with.
#[derive(Debug)]
pub struct BodyRow {
    pub tag: Option<(&'static str, Rgb)>,
    pub text: String,
    pub kind: MessageKind,
}

#[verifier::ext_equal]
pub struct BodyRowView {
    pub tag: Option<(Seq<char>, Rgb)>,
    pub text: Seq<char>,
    pub kind: MessageKind,
}

impl View for BodyRow {
    type V = BodyRowView;

    open spec fn view(&self) -> BodyRowView {
        BodyRowView {
            tag: match self.tag {
                Some((t, c)) => Some((t@, c)),
                None => None,
            },
            text: self.text@,
            kind: self.kind,
        }
    }
}

impl DeepView for BodyRow {
    type V = BodyRowView;

    open spec fn deep_view(&self) -> BodyRowView {
        self.view()
    }
}

/// The gutter tag of a channel, as a row carries it.
pub open spec fn tag_v(kind: MessageKind, source: MessageSource) -> (Seq<char>, Rgb) {
    (spec_channel_tag(kind, source).0, spec_rgb(spec_channel_tag(kind, source).1))
}

/// An entry's rows: one per wrapped line, the tag on the first alone. It
/// says which channel a line came in on, and repeated down a wrapped entry
/// it would read as that many lines of traffic.
pub open spec fn entry_rows(e: WrappedEntry) -> Seq<BodyRowView> {
    Seq::new(
        e.lines@.len(),
        |i: int|
            BodyRowView {
                tag: if i == 0 {
                    Some(tag_v(e.kind, e.source))
                } else {
                    None
                },
                text: e.lines@[i]@,
                kind: e.kind,
            },
    )
}

/// Every entry's rows, oldest entry first.
pub open spec fn all_rows(entries: Seq<WrappedEntry>) -> Seq<BodyRowView>
    decreases entries.len(),
{
    if entries.len() == 0 {
        Seq::empty()
    } else {
        all_rows(entries.drop_last()) + entry_rows(entries.last())
    }
}

/// The body as it fits `room` rows: the newest `room` rows of all of them.
/// The cut comes off the oldest end, so a long line never pushes the newest
/// news off the bottom, and an entry taller than the pane keeps its tail.
pub open spec fn spec_log_body(entries: Seq<WrappedEntry>, room: nat) -> Seq<BodyRowView> {
    let rows = all_rows(entries);
    if rows.len() > room {
        rows.subrange(rows.len() - room, rows.len() as int)
    } else {
        rows
    }
}

/// The body rows for `entries` in a pane with `room` rows to give them.
pub fn log_body(entries: &[WrappedEntry], room: usize) -> (out: Vec<BodyRow>)
    ensures
        out.deep_view() == spec_log_body(entries@, room as nat),
{
    let mut rows: Vec<BodyRow> = Vec::new();
    let mut k: usize = 0;
    while k < entries.len()
        invariant
            k <= entries@.len(),
            rows.deep_view() =~= all_rows(entries@.take(k as int)),
        decreases entries@.len() - k,
    {
        let e = &entries[k];
        let (name, color) = channel_tag(e.kind, e.source);
        let ghost before = rows.deep_view();
        let mut i: usize = 0;
        while i < e.lines.len()
            invariant
                i <= e.lines@.len(),
                e == &entries@[k as int],
                name@ == spec_channel_tag(e.kind, e.source).0,
                color == spec_rgb(spec_channel_tag(e.kind, e.source).1),
                rows.deep_view() =~= before + entry_rows(*e).take(i as int),
            decreases e.lines@.len() - i,
        {
            let tag = if i == 0 {
                Some((name, color))
            } else {
                None
            };
            let row = BodyRow { tag, text: e.lines[i].clone(), kind: e.kind };
            let ghost mid = rows.deep_view();
            rows.push(row);
            assert(rows.deep_view() =~= mid.push(row@));
            assert(entry_rows(*e).take(i + 1) =~= entry_rows(*e).take(i as int).push(row@));
            i = i + 1;
        }
        proof {
            let taken = entries@.take(k + 1);
            assert(taken.drop_last() =~= entries@.take(k as int));
            assert(taken.last() == entries@[k as int]);
            assert(entry_rows(*e).take(i as int) =~= entry_rows(*e));
        }
        k = k + 1;
    }
    assert(entries@.take(entries@.len() as int) =~= entries@);
    if rows.len() > room {
        let cut = rows.len() - room;
        let ghost all = rows.deep_view();
        let out = rows.split_off(cut);
        assert(out.deep_view() =~= all.subrange(cut as int, all.len() as int));
        out
    } else {
        rows
    }
}

/// The body keeps the newest rows: as many as there is room for, ending on
/// the newest row there is, each in the order it came.
pub proof fn the_body_keeps_the_newest_rows(entries: Seq<WrappedEntry>, room: nat)
    ensures
        ({
            let all = all_rows(entries);
            let body = spec_log_body(entries, room);
            &&& body.len() == if all.len() < room {
                all.len()
            } else {
                room
            }
            &&& forall|i: int|
                0 <= i < body.len() ==> #[trigger] body[i] == all[all.len() - body.len() + i]
            &&& room > 0 && all.len() > 0 ==> body.last() == all.last()
        }),
{
}

/// How many of `rows` carry a channel tag.
pub open spec fn tagged_rows(rows: Seq<BodyRowView>) -> nat
    decreases rows.len(),
{
    if rows.len() == 0 {
        0
    } else {
        tagged_rows(rows.drop_last()) + if rows.last().tag is Some {
            1nat
        } else {
            0nat
        }
    }
}

/// How many of `entries` have a line to show.
pub open spec fn entries_with_lines(entries: Seq<WrappedEntry>) -> nat
    decreases entries.len(),
{
    if entries.len() == 0 {
        0
    } else {
        entries_with_lines(entries.drop_last()) + if entries.last().lines@.len() > 0 {
            1nat
        } else {
            0nat
        }
    }
}

proof fn tagged_rows_concat(a: Seq<BodyRowView>, b: Seq<BodyRowView>)
    ensures
        tagged_rows(a + b) == tagged_rows(a) + tagged_rows(b),
    decreases b.len(),
{
    if b.len() > 0 {
        tagged_rows_concat(a, b.drop_last());
        assert((a + b).drop_last() =~= a + b.drop_last());
    } else {
        assert(a + b =~= a);
    }
}

proof fn entry_tagged_once(e: WrappedEntry, k: int)
    requires
        0 <= k <= e.lines@.len(),
    ensures
        tagged_rows(entry_rows(e).take(k)) == if k > 0 {
            1nat
        } else {
            0nat
        },
    decreases k,
{
    if k > 0 {
        entry_tagged_once(e, k - 1);
        assert(entry_rows(e).take(k).drop_last() =~= entry_rows(e).take(k - 1));
    }
}

/// Every entry with a line to show wears its channel tag once, however many
/// rows it wraps to: a tag repeated down a wrapped entry would read as that
/// many lines of traffic.
pub proof fn each_entry_wears_one_tag(entries: Seq<WrappedEntry>)
    ensures
        tagged_rows(all_rows(entries)) == entries_with_lines(entries),
    decreases entries.len(),
{
    if entries.len() > 0 {
        let e = entries.last();
        each_entry_wears_one_tag(entries.drop_last());
        tagged_rows_concat(all_rows(entries.drop_last()), entry_rows(e));
        entry_tagged_once(e, e.lines@.len() as int);
        assert(entry_rows(e).take(e.lines@.len() as int) =~= entry_rows(e));
    }
}

} // verus!
