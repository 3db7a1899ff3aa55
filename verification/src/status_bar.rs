//! The status bar's words: the identity block on the left, and the
//! attention badge on the right.
use vstd::prelude::*;
use vstd::string::StringExecFns;

use crate::column::AttentionRow;
use crate::palette::{
    grid_color, ATTENTION, BODY, EMPHASIS, FAINT, FIELD_LABEL, HEALTHY, LABEL, THREAT,
};
use crate::strip::{piece, piece_v, pieces_text, push_piece, text_of, Ink, Piece, PieceView};
use crate::text::{
    decimal, push_char, push_decimal, push_signed, signed_decimal, to_uppercase, upper_cased,
};

verus! {

/// What the bar reads.
#[derive(Debug)]
pub struct StatusBarState {
    pub zone: u32,
    pub position: (i32, i32),
    pub tick: u64,
    /// The base's grid as `(draw, supply)`.
    pub power: (u32, u32),
    /// The conditions needing the player, most urgent first.
    pub attention: Vec<AttentionRow>,
}

/// Between one field of the identity block and the next.
pub open spec fn sep_v() -> PieceView {
    piece_v(" \u{b7} "@, FAINT, false)
}

/// The identity block: the game's name, then zone, position, tick, and the
/// base's grid in ATTENTION while it cannot cover its own draw.
pub open spec fn spec_identity_runs(s: StatusBarState) -> Seq<PieceView> {
    seq![
        piece_v("feral"@, EMPHASIS, true),
        piece_v("-processes"@, LABEL, false),
        sep_v(),
        piece_v("ZONE "@, FIELD_LABEL, false),
        piece_v(decimal(s.zone as nat), BODY, false),
        sep_v(),
        piece_v(
            "("@ + signed_decimal(s.position.0 as int) + ", "@ + signed_decimal(
                s.position.1 as int,
            ) + ")"@,
            BODY,
            false,
        ),
        sep_v(),
        piece_v("tick "@, FIELD_LABEL, false),
        piece_v(decimal(s.tick as nat), BODY, false),
        sep_v(),
        piece_v("[GRID] "@, FIELD_LABEL, false),
        piece_v(
            decimal(s.power.0 as nat) + "/"@ + decimal(s.power.1 as nat),
            if s.power.0 > s.power.1 {
                ATTENTION
            } else {
                BODY
            },
            false,
        ),
    ]
}

fn push_sep(pieces: &mut Vec<Piece>)
    ensures
        final(pieces).deep_view() == old(pieces).deep_view().push(sep_v()),
{
    push_piece(pieces, piece(String::from_str(" \u{b7} "), FAINT, false));
}

pub fn identity_runs(s: &StatusBarState) -> (out: Vec<Piece>)
    ensures
        out.deep_view() == spec_identity_runs(*s),
{
    let mut out: Vec<Piece> = Vec::new();
    push_piece(&mut out, piece(String::from_str("feral"), EMPHASIS, true));
    push_piece(&mut out, piece(String::from_str("-processes"), LABEL, false));
    push_sep(&mut out);
    push_piece(&mut out, piece(String::from_str("ZONE "), FIELD_LABEL, false));
    let mut zone = String::new();
    push_decimal(&mut zone, s.zone as u64);
    push_piece(&mut out, piece(zone, BODY, false));
    push_sep(&mut out);
    let mut at = String::from_str("(");
    push_signed(&mut at, s.position.0 as i64);
    at.append(", ");
    push_signed(&mut at, s.position.1 as i64);
    at.append(")");
    push_piece(&mut out, piece(at, BODY, false));
    push_sep(&mut out);
    push_piece(&mut out, piece(String::from_str("tick "), FIELD_LABEL, false));
    let mut tick = String::new();
    push_decimal(&mut tick, s.tick);
    push_piece(&mut out, piece(tick, BODY, false));
    push_sep(&mut out);
    push_piece(&mut out, piece(String::from_str("[GRID] "), FIELD_LABEL, false));
    let mut grid = String::new();
    push_decimal(&mut grid, s.power.0 as u64);
    grid.append("/");
    push_decimal(&mut grid, s.power.1 as u64);
    push_piece(&mut out, Piece { text: grid, color: Ink::Hud(grid_color(s.power)), bold: false });
    assert(out.deep_view() =~= spec_identity_runs(*s));
    out
}

/// The badge, with the leading condition's text as `leading` writes it:
/// that text in its colour, its keycap, and a faint `+N` for the rest; or
/// `ALL NOMINAL` when nothing holds.
pub open spec fn badge_v(rows: Seq<AttentionRow>, leading: Seq<char>) -> Seq<PieceView> {
    if rows.len() == 0 {
        seq![piece_v("ALL NOMINAL"@, HEALTHY, true)]
    } else {
        let first = rows[0];
        let hex = if first.threat {
            THREAT
        } else {
            ATTENTION
        };
        seq![
            piece_v(leading, hex, true),
            piece_v(" "@, FAINT, false),
            piece_v("["@ + seq![first.key] + "]"@, EMPHASIS, false),
        ] + if rows.len() > 1 {
            seq![piece_v(" +"@ + decimal((rows.len() - 1) as nat), FAINT, false)]
        } else {
            Seq::empty()
        }
    }
}

/// The badge as the bar draws it: the leading condition upper-cased.
pub open spec fn spec_badge_pieces(rows: Seq<AttentionRow>) -> Seq<PieceView> {
    badge_v(
        rows,
        if rows.len() == 0 {
            Seq::empty()
        } else {
            upper_cased(rows[0].text@)
        },
    )
}

/// The badge's pieces for `attention`, its leading condition's text given
/// as `leading` (unused when nothing holds).
pub fn badge_with(attention: &[AttentionRow], leading: String) -> (out: Vec<Piece>)
    ensures
        out.deep_view() == badge_v(attention@, leading@),
{
    let mut out: Vec<Piece> = Vec::new();
    if attention.len() == 0 {
        push_piece(&mut out, piece(String::from_str("ALL NOMINAL"), HEALTHY, true));
        assert(out.deep_view() =~= badge_v(attention@, leading@));
        return out;
    }
    let first = &attention[0];
    let hex: u32 = if first.threat {
        THREAT
    } else {
        ATTENTION
    };
    let ghost lead = leading@;
    push_piece(&mut out, piece(leading, hex, true));
    push_piece(&mut out, piece(String::from_str(" "), FAINT, false));
    let mut key = String::from_str("[");
    push_char(&mut key, first.key);
    key.append("]");
    assert(key@ =~= "["@ + seq![first.key] + "]"@);
    push_piece(&mut out, piece(key, EMPHASIS, false));
    let rest = attention.len() - 1;
    if rest > 0 {
        let mut more = String::from_str(" +");
        push_decimal(&mut more, rest as u64);
        push_piece(&mut out, piece(more, FAINT, false));
    }
    assert(out.deep_view() =~= badge_v(attention@, lead));
    out
}

/// The badge: the leading condition upper-cased in its colour, its keycap,
/// and a faint `+N` for the rest; or `ALL NOMINAL` when nothing holds.
pub fn badge_pieces(attention: &[AttentionRow]) -> (out: Vec<Piece>)
    ensures
        out.deep_view() == spec_badge_pieces(attention@),
{
    if attention.len() == 0 {
        return badge_with(attention, String::new());
    }
    let leading = to_uppercase(attention[0].text.as_str());
    badge_with(attention, leading)
}

/// The identity block's plain text: what gets measured before the stock
/// piles are given the rest of the bar.
pub fn identity_text(s: &StatusBarState) -> (out: String)
    ensures
        out@ == pieces_text(spec_identity_runs(*s)),
{
    let runs = identity_runs(s);
    text_of(&runs)
}

/// A stock pile as the bar lists it: its tag and its quantity, already
/// written out.
#[derive(Debug)]
pub struct Pile {
    pub tag: String,
    pub qty: String,
}

/// The first `n` piles: each tag in the label colour and its quantity in the
/// body colour, three faint spaces between one pile and the next.
pub open spec fn shown_piles(piles: Seq<Pile>, n: nat) -> Seq<PieceView>
    decreases n,
{
    if n == 0 {
        Seq::empty()
    } else {
        let p = piles[n - 1];
        shown_piles(piles, (n - 1) as nat) + (if n > 1 {
            seq![piece_v("   "@, FAINT, false)]
        } else {
            Seq::empty()
        }) + seq![piece_v(p.tag@, FIELD_LABEL, false), piece_v(p.qty@, BODY, false)]
    }
}

/// The stock half of the bar when `shown` of `piles` fit beside the
/// identity block: those piles, then a faint `+N` for the ones that did not
/// fit; or a faint `base stock: none` for a base that holds nothing.
pub open spec fn spec_stock_runs(piles: Seq<Pile>, shown: nat) -> Seq<PieceView> {
    if piles.len() == 0 {
        seq![piece_v("base stock: none"@, FAINT, false)]
    } else {
        shown_piles(piles, shown) + if shown < piles.len() {
            seq![piece_v("   +"@ + decimal((piles.len() - shown) as nat), FAINT, false)]
        } else {
            Seq::empty()
        }
    }
}

/// The stock half of the bar, with the first `shown` piles drawn.
pub fn stock_runs(piles: &[Pile], shown: usize) -> (out: Vec<Piece>)
    requires
        shown <= piles@.len(),
    ensures
        out.deep_view() == spec_stock_runs(piles@, shown as nat),
{
    let mut out: Vec<Piece> = Vec::new();
    if piles.len() == 0 {
        push_piece(&mut out, piece(String::from_str("base stock: none"), FAINT, false));
        assert(out.deep_view() =~= spec_stock_runs(piles@, shown as nat));
        return out;
    }
    let mut i: usize = 0;
    while i < shown
        invariant
            i <= shown,
            shown <= piles@.len(),
            out.deep_view() =~= shown_piles(piles@, i as nat),
        decreases shown - i,
    {
        let p = &piles[i];
        if i > 0 {
            push_piece(&mut out, piece(String::from_str("   "), FAINT, false));
        }
        push_piece(&mut out, piece(p.tag.clone(), FIELD_LABEL, false));
        push_piece(&mut out, piece(p.qty.clone(), BODY, false));
        i = i + 1;
    }
    let dropped = piles.len() - shown;
    if dropped > 0 {
        let mut tail = String::from_str("   +");
        push_decimal(&mut tail, dropped as u64);
        push_piece(&mut out, piece(tail, FAINT, false));
    }
    assert(out.deep_view() =~= spec_stock_runs(piles@, shown as nat));
    out
}

} // verus!
