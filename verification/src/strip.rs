//! Pieces of text mounted on a pane's border: a label, a value, a separator,
//! and the threat readout the map pane's top border carries.
use vstd::prelude::*;
use vstd::string::StringExecFns;

use crate::palette::{rgb, spec_rgb, Rgb, ATTENTION, BODY, FAINT, FIELD_LABEL, HEALTHY, LABEL, THREAT};
use crate::text::{decimal, push_decimal};
use crate::tint::Tint;

verus! {

/// The colour a piece is drawn in: a HUD palette entry, or one of the
/// popup palette's tints where a HUD row borrows a popup's colour rule.
#[derive(Clone, Copy, Debug, PartialEq, Eq, Structural)]
pub enum Ink {
    Hud(Rgb),
    Popup(Tint),
}

/// One piece of a strip or a pane row: text, colour, weight.
#[derive(Debug)]
pub struct Piece {
    pub text: String,
    pub color: Ink,
    pub bold: bool,
}

#[verifier::ext_equal]
pub struct PieceView {
    pub text: Seq<char>,
    pub color: Ink,
    pub bold: bool,
}

impl View for Piece {
    type V = PieceView;

    open spec fn view(&self) -> PieceView {
        PieceView { text: self.text@, color: self.color, bold: self.bold }
    }
}

impl DeepView for Piece {
    type V = PieceView;

    open spec fn deep_view(&self) -> PieceView {
        self.view()
    }
}

/// A piece of `text` in the colour a `0xRRGGBB` literal names.
pub open spec fn piece_v(text: Seq<char>, hex: u32, bold: bool) -> PieceView {
    PieceView { text, color: Ink::Hud(spec_rgb(hex)), bold }
}

pub fn piece(text: String, hex: u32, bold: bool) -> (p: Piece)
    ensures
        p@ == piece_v(text@, hex, bold),
{
    Piece { text, color: Ink::Hud(rgb(hex)), bold }
}

/// Appends `p`, as its view says.
pub fn push_piece(pieces: &mut Vec<Piece>, p: Piece)
    ensures
        final(pieces).deep_view() == old(pieces).deep_view().push(p@),
{
    let ghost before = pieces.deep_view();
    pieces.push(p);
    assert(pieces.deep_view() =~= before.push(p@));
}

/// The separator between two segments of a strip.
pub open spec fn spec_sep() -> PieceView {
    piece_v(" \u{b7} "@, FAINT, false)
}

/// A field's label, dimmer than its value.
pub fn label(text: &str) -> (p: Piece)
    ensures
        p@ == piece_v(text@, FIELD_LABEL, false),
{
    piece(String::from_str(text), FIELD_LABEL, false)
}

/// A field's value.
pub fn value(text: String) -> (p: Piece)
    ensures
        p@ == piece_v(text@, BODY, false),
{
    piece(text, BODY, false)
}

/// The separator between two segments of a strip: a faint middle dot.
pub fn sep() -> (p: Piece)
    ensures
        p@ == spec_sep(),
{
    piece(String::from_str(" \u{b7} "), FAINT, false)
}

/// What the threat strip reads. There is deliberately no countdown: a sweep
/// is a per-tick roll, not a schedule.
#[derive(Clone, Copy, Debug)]
pub struct Threat {
    pub hostiles: usize,
    pub shielded: bool,
}

/// The threat readout: hot in THREAT while anything hostile is near, then
/// the shield state, ATTENTION when the base has no defence.
pub open spec fn spec_threat_pieces(t: Threat) -> Seq<PieceView> {
    let hot = t.hostiles > 0;
    seq![
        piece_v(
            "THREAT "@,
            if hot {
                THREAT
            } else {
                LABEL
            },
            true,
        ),
        if hot {
            piece_v(" "@ + decimal(t.hostiles as nat) + " hostile"@, THREAT, false)
        } else {
            piece_v(" clear"@, LABEL, false)
        },
        spec_sep(),
        if t.shielded {
            piece_v("shields holding"@, HEALTHY, false)
        } else {
            piece_v("no defence"@, ATTENTION, false)
        },
    ]
}

pub fn threat_pieces(t: Threat) -> (out: Vec<Piece>)
    ensures
        out.deep_view() == spec_threat_pieces(t),
{
    let hot = t.hostiles > 0;
    let mut out: Vec<Piece> = Vec::new();
    push_piece(
        &mut out,
        piece(
            String::from_str("THREAT "),
            if hot {
                THREAT
            } else {
                LABEL
            },
            true,
        ),
    );
    if hot {
        let mut s = String::from_str(" ");
        push_decimal(&mut s, t.hostiles as u64);
        s.append(" hostile");
        push_piece(&mut out, piece(s, THREAT, false));
    } else {
        push_piece(&mut out, piece(String::from_str(" clear"), LABEL, false));
    }
    push_piece(&mut out, sep());
    if t.shielded {
        push_piece(&mut out, piece(String::from_str("shields holding"), HEALTHY, false));
    } else {
        push_piece(&mut out, piece(String::from_str("no defence"), ATTENTION, false));
    }
    assert(out.deep_view() =~= spec_threat_pieces(t));
    out
}


/// The ground the party stands on, as the map pane's bottom border reads it.
#[derive(Debug)]
pub struct TerrainRow {
    pub biome: String,
    /// A condition of the ground that overrides its biome's name.
    pub condition: Option<String>,
    /// Weather live over this ground.
    pub event: Option<String>,
}

/// The ground segment: the ground's condition where it has one, otherwise
/// its biome, as a dim label.
pub fn ground_pieces(row: &TerrainRow) -> (out: Vec<Piece>)
    ensures
        out.deep_view() == seq![
            piece_v(
                match row.condition {
                    Some(c) => c@,
                    None => row.biome@,
                },
                LABEL,
                false,
            ),
        ],
{
    let text = match &row.condition {
        Some(c) => c.clone(),
        None => row.biome.clone(),
    };
    let mut out: Vec<Piece> = Vec::new();
    push_piece(&mut out, piece(text, LABEL, false));
    out
}

/// The weather segment, in ATTENTION: empty when nothing is live, so a
/// dropped segment leaves no separator standing in for it.
pub fn weather_pieces(row: &TerrainRow) -> (out: Vec<Piece>)
    ensures
        out.deep_view() == match row.event {
            Some(e) => seq![piece_v(e@, ATTENTION, false)],
            None => Seq::empty(),
        },
{
    let mut out: Vec<Piece> = Vec::new();
    match &row.event {
        Some(e) => push_piece(&mut out, piece(e.clone(), ATTENTION, false)),
        None => {},
    }
    out
}


/// The text of `pieces`, end to end: what gets measured.
pub open spec fn pieces_text(ps: Seq<PieceView>) -> Seq<char>
    decreases ps.len(),
{
    if ps.len() == 0 {
        Seq::empty()
    } else {
        pieces_text(ps.drop_last()) + ps.last().text
    }
}

pub fn text_of(pieces: &Vec<Piece>) -> (out: String)
    ensures
        out@ == pieces_text(pieces.deep_view()),
{
    let mut out = String::new();
    let mut i: usize = 0;
    while i < pieces.len()
        invariant
            i <= pieces@.len(),
            out@ == pieces_text(pieces.deep_view().take(i as int)),
        decreases pieces@.len() - i,
    {
        out.append(pieces[i].text.as_str());
        proof {
            assert(pieces.deep_view().take(i + 1).drop_last() =~= pieces.deep_view().take(i as int));
        }
        i = i + 1;
    }
    assert(pieces.deep_view().take(pieces@.len() as int) =~= pieces.deep_view());
    out
}

/// The first `k` of `segments` as one strip: each segment's pieces in
/// order, with a separator before a segment whenever something already
/// stands before it (so an empty segment leaves no separator behind).
pub open spec fn joined_segments(segments: Seq<Seq<PieceView>>, k: nat) -> Seq<PieceView>
    decreases k,
{
    if k == 0 {
        Seq::empty()
    } else {
        let before = joined_segments(segments, (k - 1) as nat);
        before + (if before.len() > 0 {
            seq![spec_sep()]
        } else {
            Seq::empty()
        }) + segments[k - 1]
    }
}

fn copy_piece(p: &Piece) -> (out: Piece)
    ensures
        out@ == p@,
{
    Piece { text: p.text.clone(), color: p.color, bold: p.bold }
}

/// The first `k` of `segments` flattened into one strip; a caller keeps
/// the longest such prefix that its border has room for.
pub fn join_segments(segments: &Vec<Vec<Piece>>, k: usize) -> (out: Vec<Piece>)
    requires
        k <= segments@.len(),
    ensures
        out.deep_view() == joined_segments(segments.deep_view(), k as nat),
{
    let mut out: Vec<Piece> = Vec::new();
    let mut j: usize = 0;
    while j < k
        invariant
            j <= k <= segments@.len(),
            out.deep_view() =~= joined_segments(segments.deep_view(), j as nat),
        decreases k - j,
    {
        if out.len() > 0 {
            push_piece(&mut out, sep());
        }
        let seg = &segments[j];
        let ghost mid = out.deep_view();
        let mut i: usize = 0;
        while i < seg.len()
            invariant
                i <= seg@.len(),
                seg == &segments@[j as int],
                out.deep_view() =~= mid + seg.deep_view().take(i as int),
            decreases seg@.len() - i,
        {
            push_piece(&mut out, copy_piece(&seg[i]));
            proof {
                assert(seg.deep_view().take(i + 1) =~= seg.deep_view().take(i as int).push(
                    seg.deep_view()[i as int],
                ));
            }
            i = i + 1;
        }
        assert(seg.deep_view().take(seg@.len() as int) =~= seg.deep_view());
        assert(segments.deep_view()[j as int] == seg.deep_view());
        j = j + 1;
    }
    out
}

/// The map pane's left mount, in the order it gives way: the weather first
/// and the ground second, so a narrow window drops the ground detail and
/// keeps the news. Underground there is no ground to report, and nothing.
pub fn map_frame_segments(ground: Option<&TerrainRow>) -> (out: Vec<Vec<Piece>>)
    ensures
        out.deep_view() == match ground {
            Some(row) => seq![
                match row.event {
                    Some(e) => seq![piece_v(e@, ATTENTION, false)],
                    None => Seq::<PieceView>::empty(),
                },
                seq![
                    piece_v(
                        match row.condition {
                            Some(c) => c@,
                            None => row.biome@,
                        },
                        LABEL,
                        false,
                    ),
                ],
            ],
            None => Seq::<Seq<PieceView>>::empty(),
        },
{
    let mut out: Vec<Vec<Piece>> = Vec::new();
    match ground {
        Some(row) => {
            let w = weather_pieces(row);
            let g = ground_pieces(row);
            let ghost (wv, gv) = (w.deep_view(), g.deep_view());
            out.push(w);
            out.push(g);
            assert(out.deep_view() =~= seq![wv, gv]);
        },
        None => {
            assert(out.deep_view() =~= Seq::<Seq<PieceView>>::empty());
        },
    }
    out
}

} // verus!
