//! The HUD's colours, addressed by role and never by index.
//!
//! Every entry is written as a hex literal; `rgb` does the one conversion,
//! to a byte per channel. Two reservations are the design rather than a
//! convention: `ATTENTION` means the player must act, and `THREAT` means
//! hostility or inbound harm. The laws at the bottom of this file are what
//! keep both reservations, and every content hue, apart from their
//! neighbours.
use vstd::prelude::*;

verus! {

/// One opaque colour, a byte per channel.
#[derive(Clone, Copy, Debug, PartialEq, Eq, Structural)]
pub struct Rgb {
    pub r: u8,
    pub g: u8,
    pub b: u8,
}

/// The red byte of a `0xRRGGBB` literal.
pub open spec fn red_of(hex: u32) -> u8 {
    ((hex / 0x10000) % 0x100) as u8
}

/// The green byte of a `0xRRGGBB` literal.
pub open spec fn green_of(hex: u32) -> u8 {
    ((hex / 0x100) % 0x100) as u8
}

/// The blue byte of a `0xRRGGBB` literal.
pub open spec fn blue_of(hex: u32) -> u8 {
    (hex % 0x100) as u8
}

/// The colour a `0xRRGGBB` literal names.
pub open spec fn spec_rgb(hex: u32) -> Rgb {
    Rgb { r: red_of(hex), g: green_of(hex), b: blue_of(hex) }
}

/// One opaque colour from its `0xRRGGBB` hex form. Bits above the
/// low 24 name no channel and are ignored.
pub fn rgb(hex: u32) -> (c: Rgb)
    ensures
        c == spec_rgb(hex),
{
    let r = ((hex >> 16) & 0xff) as u8;
    let g = ((hex >> 8) & 0xff) as u8;
    let b = (hex & 0xff) as u8;
    assert(((hex >> 16) & 0xff) == (hex / 0x10000) % 0x100) by (bit_vector);
    assert(((hex >> 8) & 0xff) == (hex / 0x100) % 0x100) by (bit_vector);
    assert((hex & 0xff) == hex % 0x100) by (bit_vector);
    Rgb { r, g, b }
}

/// A colour given as its three channel bytes, the form the icon palette
/// stores a pixel in.
pub fn palette_color(channels: (u8, u8, u8)) -> (c: Rgb)
    ensures
        c == (Rgb { r: channels.0, g: channels.1, b: channels.2 }),
{
    Rgb { r: channels.0, g: channels.1, b: channels.2 }
}

// Content roles.
/// br yellow: the player must act. Reserved; never decorative.
pub const ATTENTION: u32 = 0xe3b341;

/// br red: hostility and inbound harm. Reserved; never an ordinary error.
pub const THREAT: u32 = 0xf26d6d;

/// green: a healthy bar fill, and the calm `ALL NOMINAL` state.
pub const HEALTHY: u32 = 0x4fa65b;

/// yellow: a caution that resolves itself.
pub const WARN: u32 = 0xb8943f;

/// br blue: the player's own plan drawn on the ground.
pub const PLAN: u32 = 0x4a7fd0;

/// br cyan: pane titles on their borders.
pub const PANE_TITLE: u32 = 0x56d4dd;

/// br cyan: the player's `@`, and an upgradeable item.
pub const PLAYER: u32 = 0x56d4dd;

/// br white: a keycap letter, or a value being emphasised.
pub const EMPHASIS: u32 = 0xe8eef4;

/// white: body text and table rows.
pub const BODY: u32 = 0xa8b3bf;

/// br black: dim labels, sub-heads, inert hints.
pub const LABEL: u32 = 0x3a4550;

// Log channels.
pub const CH_FIELD: u32 = 0x3fa9b5;

pub const CH_GAIN: u32 = 0x4a7fd0;

pub const CH_BASE: u32 = 0x7ee787;

pub const CH_DEFEND: u32 = 0xf26d6d;

// Chrome: fills, rules and troughs.
pub const STATUS_BG: u32 = 0x0b1117;

pub const PANE_BORDER: u32 = 0x1d2a36;

pub const BAR_TROUGH: u32 = 0x1b2733;

pub const DIVIDER: u32 = 0x141e26;

pub const KEYBAR_DIVIDER: u32 = 0x243040;

/// A field's label, as against `BODY` for its value.
pub const FIELD_LABEL: u32 = 0x5c6773;

pub const FAINT: u32 = 0x4a5563;

/// The six colours the character-creation wizard offers for the player's
/// glyph, indexed 0-based: moss, lime, teal, indigo, violet, rose.
pub open spec fn player_choices() -> Seq<u32> {
    seq![0xbdcc70u32, 0x6cd936u32, 0x39e69eu32, 0x2d38b2u32, 0x8a39e6u32, 0xa62972u32]
}

/// The hue a content glyph is authored in. Every species and structure file
/// names one of these eleven.
#[derive(Clone, Copy, Debug, PartialEq, Eq, Structural)]
pub enum GlyphColor {
    White,
    Gray,
    Green,
    DarkGreen,
    Red,
    Yellow,
    Orange,
    Blue,
    Magenta,
    Cyan,
    Brown,
}

/// What each content hue is drawn in, as its hex literal. Brown and orange
/// stand outside the palette's sixteen; ATTENTION appears nowhere here.
pub open spec fn glyph_hex(c: GlyphColor) -> u32 {
    match c {
        GlyphColor::White => EMPHASIS,
        GlyphColor::Gray => BODY,
        GlyphColor::Green => 0x7ee787,
        GlyphColor::DarkGreen => HEALTHY,
        GlyphColor::Red => THREAT,
        GlyphColor::Yellow => WARN,
        GlyphColor::Orange => 0xe07a3c,
        GlyphColor::Blue => 0x4a7fd0,
        GlyphColor::Magenta => 0xcf8ee0,
        GlyphColor::Cyan => 0x3fa9b5,
        GlyphColor::Brown => 0x8a6a3a,
    }
}

/// What a `GlyphColor` is drawn in: the map's entity glyphs, and the same
/// program's glyph wherever a screen shows it.
pub fn glyph(c: GlyphColor) -> (out: Rgb)
    ensures
        out == spec_rgb(glyph_hex(c)),
{
    let hex: u32 = match c {
        GlyphColor::White => EMPHASIS,
        GlyphColor::Gray => BODY,
        GlyphColor::Green => 0x7ee787,
        GlyphColor::DarkGreen => HEALTHY,
        GlyphColor::Red => THREAT,
        GlyphColor::Yellow => WARN,
        GlyphColor::Orange => 0xe07a3c,
        GlyphColor::Blue => 0x4a7fd0,
        GlyphColor::Magenta => 0xcf8ee0,
        GlyphColor::Cyan => 0x3fa9b5,
        GlyphColor::Brown => 0x8a6a3a,
    };
    rgb(hex)
}

/// The hue a boss's glyph wears: the magenta content hue.
pub fn boss_color() -> (out: Rgb)
    ensures
        out == spec_rgb(glyph_hex(GlyphColor::Magenta)),
{
    glyph(GlyphColor::Magenta)
}

/// The outpost glyph's own hue: brown, the hue no species claims.
pub fn outpost_glyph_color() -> (out: Rgb)
    ensures
        out == spec_rgb(glyph_hex(GlyphColor::Brown)),
{
    glyph(GlyphColor::Brown)
}

/// The colour the player's own glyph wears, off the 0-based swatch index the
/// character-creation wizard wrote. No choice, and an index the palette has
/// nothing at, are both the `PLAYER` role colour.
pub fn player_look_color(colour: Option<u8>) -> (out: Rgb)
    ensures
        out == (match colour {
            Some(i) if (i as int) < player_choices().len() => spec_rgb(player_choices()[i as int]),
            _ => spec_rgb(PLAYER),
        }),
{
    let hex: u32 = match colour {
        Some(0) => 0xbdcc70,
        Some(1) => 0x6cd936,
        Some(2) => 0x39e69e,
        Some(3) => 0x2d38b2,
        Some(4) => 0x8a39e6,
        Some(5) => 0xa62972,
        _ => PLAYER,
    };
    rgb(hex)
}

/// The grid figure's colour: ATTENTION while the base cannot cover its own
/// draw, otherwise the ordinary body grey. A base exactly at capacity is not
/// short.
pub fn grid_color(power: (u32, u32)) -> (out: Rgb)
    ensures
        out == spec_rgb(if power.0 > power.1 { ATTENTION } else { BODY }),
{
    if power.0 > power.1 {
        rgb(ATTENTION)
    } else {
        rgb(BODY)
    }
}

/// Which way an outpost is heading.
#[derive(Clone, Copy, Debug, PartialEq, Eq, Structural)]
pub enum Trend {
    Growing,
    Stable,
    Stale,
    Declining,
}

/// The outpost growth bar's colour, one term per trend; declining reads as
/// the more severe of the two warning colours.
pub fn outpost_trend_color(trend: Trend) -> (out: Rgb)
    ensures
        out == spec_rgb(
            match trend {
                Trend::Growing => HEALTHY,
                Trend::Stable => FAINT,
                Trend::Stale => WARN,
                Trend::Declining => ATTENTION,
            },
        ),
{
    match trend {
        Trend::Growing => rgb(HEALTHY),
        Trend::Stable => rgb(FAINT),
        Trend::Stale => rgb(WARN),
        Trend::Declining => rgb(ATTENTION),
    }
}

// ---------------------------------------------------------------------------
// Separability
// ---------------------------------------------------------------------------

pub open spec fn byte_gap(a: u8, b: u8) -> int {
    if a >= b {
        a - b
    } else {
        b - a
    }
}

/// The channel distance between two colours, in bytes: the sum of the three
/// channels' absolute differences.
pub open spec fn channel_distance(a: Rgb, b: Rgb) -> int {
    byte_gap(a.r, b.r) + byte_gap(a.g, b.g) + byte_gap(a.b, b.b)
}

/// Two colours the eye can tell apart: more than a quarter of full scale
/// apart by channel distance.
pub open spec fn separable(a: u32, b: u32) -> bool {
    4 * channel_distance(spec_rgb(a), spec_rgb(b)) > 255
}

/// The six roles whose meanings must never read alike.
pub open spec fn reserved_roles() -> Seq<u32> {
    seq![ATTENTION, THREAT, HEALTHY, PANE_TITLE, BODY, LABEL]
}

/// Every colour a content glyph can be drawn in: the eleven authored hues,
/// the player's own role colour, and the wizard's six choices.
pub open spec fn content_hues() -> Seq<u32> {
    seq![
        glyph_hex(GlyphColor::White),
        glyph_hex(GlyphColor::Gray),
        glyph_hex(GlyphColor::Green),
        glyph_hex(GlyphColor::DarkGreen),
        glyph_hex(GlyphColor::Red),
        glyph_hex(GlyphColor::Yellow),
        glyph_hex(GlyphColor::Orange),
        glyph_hex(GlyphColor::Blue),
        glyph_hex(GlyphColor::Magenta),
        glyph_hex(GlyphColor::Cyan),
        glyph_hex(GlyphColor::Brown),
        PLAYER,
    ] + player_choices()
}

/// The reserved roles can be told apart: every two of ATTENTION, THREAT,
/// HEALTHY, PANE_TITLE, BODY and LABEL are more than a quarter of full scale
/// apart by channel distance.
pub proof fn reserved_roles_are_separable()
    ensures
        forall|i: int, j: int|
            0 <= i < j < reserved_roles().len() ==> separable(
                #[trigger] reserved_roles()[i],
                #[trigger] reserved_roles()[j],
            ),
{
    let s = reserved_roles();
    assert(spec_rgb(s[0]) == Rgb { r: 227, g: 179, b: 65 });
    assert(spec_rgb(s[1]) == Rgb { r: 242, g: 109, b: 109 });
    assert(spec_rgb(s[2]) == Rgb { r: 79, g: 166, b: 91 });
    assert(spec_rgb(s[3]) == Rgb { r: 86, g: 212, b: 221 });
    assert(spec_rgb(s[4]) == Rgb { r: 168, g: 179, b: 191 });
    assert(spec_rgb(s[5]) == Rgb { r: 58, g: 69, b: 80 });
    assert forall|i: int, j: int| 0 <= i < j < s.len() implies separable(
        #[trigger] s[i],
        #[trigger] s[j],
    ) by {
        if i == 0 {
            assert(j == 1 || j == 2 || j == 3 || j == 4 || j == 5);
        } else if i == 1 {
            assert(j == 2 || j == 3 || j == 4 || j == 5);
        } else if i == 2 {
            assert(j == 3 || j == 4 || j == 5);
        } else if i == 3 {
            assert(j == 4 || j == 5);
        } else if i == 4 {
            assert(j == 5);
        }
    }
}

/// Every content hue, the player's role colour and each of the wizard's six
/// choices are separable from one another: two that read alike would be two
/// things the player cannot tell apart on the map.
pub proof fn content_hues_are_separable()
    ensures
        forall|i: int, j: int|
            0 <= i < j < content_hues().len() ==> separable(
                #[trigger] content_hues()[i],
                #[trigger] content_hues()[j],
            ),
{
    let s = content_hues();
    assert(spec_rgb(s[0]) == Rgb { r: 232, g: 238, b: 244 });
    assert(spec_rgb(s[1]) == Rgb { r: 168, g: 179, b: 191 });
    assert(spec_rgb(s[2]) == Rgb { r: 126, g: 231, b: 135 });
    assert(spec_rgb(s[3]) == Rgb { r: 79, g: 166, b: 91 });
    assert(spec_rgb(s[4]) == Rgb { r: 242, g: 109, b: 109 });
    assert(spec_rgb(s[5]) == Rgb { r: 184, g: 148, b: 63 });
    assert(spec_rgb(s[6]) == Rgb { r: 224, g: 122, b: 60 });
    assert(spec_rgb(s[7]) == Rgb { r: 74, g: 127, b: 208 });
    assert(spec_rgb(s[8]) == Rgb { r: 207, g: 142, b: 224 });
    assert(spec_rgb(s[9]) == Rgb { r: 63, g: 169, b: 181 });
    assert(spec_rgb(s[10]) == Rgb { r: 138, g: 106, b: 58 });
    assert(spec_rgb(s[11]) == Rgb { r: 86, g: 212, b: 221 });
    assert(spec_rgb(s[12]) == Rgb { r: 189, g: 204, b: 112 });
    assert(spec_rgb(s[13]) == Rgb { r: 108, g: 217, b: 54 });
    assert(spec_rgb(s[14]) == Rgb { r: 57, g: 230, b: 158 });
    assert(spec_rgb(s[15]) == Rgb { r: 45, g: 56, b: 178 });
    assert(spec_rgb(s[16]) == Rgb { r: 138, g: 57, b: 230 });
    assert(spec_rgb(s[17]) == Rgb { r: 166, g: 41, b: 114 });
    assert forall|i: int, j: int| 0 <= i < j < s.len() implies separable(
        #[trigger] s[i],
        #[trigger] s[j],
    ) by {
        if i == 0 {
            assert(j == 1 || j == 2 || j == 3 || j == 4 || j == 5 || j == 6 || j == 7 || j == 8 || j == 9 || j == 10 || j == 11 || j == 12 || j == 13 || j == 14 || j == 15 || j == 16 || j == 17);
        } else if i == 1 {
            assert(j == 2 || j == 3 || j == 4 || j == 5 || j == 6 || j == 7 || j == 8 || j == 9 || j == 10 || j == 11 || j == 12 || j == 13 || j == 14 || j == 15 || j == 16 || j == 17);
        } else if i == 2 {
            assert(j == 3 || j == 4 || j == 5 || j == 6 || j == 7 || j == 8 || j == 9 || j == 10 || j == 11 || j == 12 || j == 13 || j == 14 || j == 15 || j == 16 || j == 17);
        } else if i == 3 {
            assert(j == 4 || j == 5 || j == 6 || j == 7 || j == 8 || j == 9 || j == 10 || j == 11 || j == 12 || j == 13 || j == 14 || j == 15 || j == 16 || j == 17);
        } else if i == 4 {
            assert(j == 5 || j == 6 || j == 7 || j == 8 || j == 9 || j == 10 || j == 11 || j == 12 || j == 13 || j == 14 || j == 15 || j == 16 || j == 17);
        } else if i == 5 {
            assert(j == 6 || j == 7 || j == 8 || j == 9 || j == 10 || j == 11 || j == 12 || j == 13 || j == 14 || j == 15 || j == 16 || j == 17);
        } else if i == 6 {
            assert(j == 7 || j == 8 || j == 9 || j == 10 || j == 11 || j == 12 || j == 13 || j == 14 || j == 15 || j == 16 || j == 17);
        } else if i == 7 {
            assert(j == 8 || j == 9 || j == 10 || j == 11 || j == 12 || j == 13 || j == 14 || j == 15 || j == 16 || j == 17);
        } else if i == 8 {
            assert(j == 9 || j == 10 || j == 11 || j == 12 || j == 13 || j == 14 || j == 15 || j == 16 || j == 17);
        } else if i == 9 {
            assert(j == 10 || j == 11 || j == 12 || j == 13 || j == 14 || j == 15 || j == 16 || j == 17);
        } else if i == 10 {
            assert(j == 11 || j == 12 || j == 13 || j == 14 || j == 15 || j == 16 || j == 17);
        } else if i == 11 {
            assert(j == 12 || j == 13 || j == 14 || j == 15 || j == 16 || j == 17);
        } else if i == 12 {
            assert(j == 13 || j == 14 || j == 15 || j == 16 || j == 17);
        } else if i == 13 {
            assert(j == 14 || j == 15 || j == 16 || j == 17);
        } else if i == 14 {
            assert(j == 15 || j == 16 || j == 17);
        } else if i == 15 {
            assert(j == 16 || j == 17);
        } else if i == 16 {
            assert(j == 17);
        }
    }
}

/// No content hue wears ATTENTION, which is the HUD's alone, and only the
/// red hue (the rung a deadly creature is painted) wears THREAT.
pub proof fn no_content_hue_takes_a_reserved_role(c: GlyphColor)
    ensures
        glyph_hex(c) != ATTENTION,
        glyph_hex(c) == THREAT ==> c == GlyphColor::Red,
{
}

/// How warm a hue reads: red over green, in bytes.
pub open spec fn warmth(hex: u32) -> int {
    red_of(hex) - green_of(hex)
}

/// The con ladder climbs: easy (green), even (yellow), tough (orange) and
/// deadly (red) each carry more red over green than the rung below, by more
/// than a tenth of full scale.
pub proof fn con_ladder_gets_hotter()
    ensures
        10 * (warmth(glyph_hex(GlyphColor::Yellow)) - warmth(glyph_hex(GlyphColor::Green))) > 255,
        10 * (warmth(glyph_hex(GlyphColor::Orange)) - warmth(glyph_hex(GlyphColor::Yellow)))
            > 255,
        10 * (warmth(glyph_hex(GlyphColor::Red)) - warmth(glyph_hex(GlyphColor::Orange))) > 255,
{
    assert(10 * (warmth(glyph_hex(GlyphColor::Yellow)) - warmth(glyph_hex(GlyphColor::Green)))
        > 255);
    assert(10 * (warmth(glyph_hex(GlyphColor::Orange)) - warmth(glyph_hex(GlyphColor::Yellow)))
        > 255);
    assert(10 * (warmth(glyph_hex(GlyphColor::Red)) - warmth(glyph_hex(GlyphColor::Orange)))
        > 255);
}


/// What a machine on the base's grid is doing.
#[derive(Clone, Copy, Debug, PartialEq, Eq, Structural)]
pub enum MachineStatus {
    Running,
    Starved,
    Unstaffed,
    Clogged,
    Stranded,
    Unpowered,
    Dry,
    Idle,
}

/// The palette role a machine's glyph and outline wear. `Offline` is the
/// one red a machine can wear, kept apart from THREAT: a dry supplier is the
/// cause of every dark machine, not a hostile.
#[derive(Clone, Copy, Debug, PartialEq, Eq, Structural)]
pub enum MachineShade {
    Healthy,
    Warn,
    Attention,
    Offline,
    Faint,
}

pub open spec fn spec_machine_color(status: MachineStatus) -> MachineShade {
    match status {
        MachineStatus::Running => MachineShade::Healthy,
        MachineStatus::Starved | MachineStatus::Unstaffed => MachineShade::Warn,
        MachineStatus::Clogged | MachineStatus::Stranded | MachineStatus::Unpowered => MachineShade::Attention,
        MachineStatus::Dry => MachineShade::Offline,
        MachineStatus::Idle => MachineShade::Faint,
    }
}

/// A machine's state colour, ordered by what the player should do: nothing
/// while it runs, post a program or wait on a feeder, go and act on a clog,
/// a stranded crew or a dark machine, and walk to a dry supplier first.
pub fn machine_color(status: MachineStatus) -> (out: MachineShade)
    ensures
        out == spec_machine_color(status),
{
    match status {
        MachineStatus::Running => MachineShade::Healthy,
        MachineStatus::Starved | MachineStatus::Unstaffed => MachineShade::Warn,
        MachineStatus::Clogged | MachineStatus::Stranded | MachineStatus::Unpowered => MachineShade::Attention,
        MachineStatus::Dry => MachineShade::Offline,
        MachineStatus::Idle => MachineShade::Faint,
    }
}

/// Only a dry supplier wears the machine red, and every state that waiting
/// does not fix asks for the player.
pub proof fn only_a_dry_supplier_reads_offline(status: MachineStatus)
    ensures
        (spec_machine_color(status) == MachineShade::Offline) <==> (status == MachineStatus::Dry),
        (status == MachineStatus::Clogged || status == MachineStatus::Stranded || status
            == MachineStatus::Unpowered) ==> spec_machine_color(status) == MachineShade::Attention,
{
}

} // verus!
