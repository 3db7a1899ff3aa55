//! The party's own map of the Stack frame they are standing in: what each
//! cell looks like, the window a zoom level shows, and what the Wild Jump
//! cursor reads off the map.
use vstd::prelude::*;

use vstd::string::StringExecFns;

use crate::text::{push_signed, signed_decimal};
use crate::tint::Tint;

verus! {

/// What the map knows of one cell.
#[derive(Clone, Copy, Debug, PartialEq, Eq, Structural)]
pub enum FrameMapCell {
    Unknown,
    Rock,
    Floor,
    LinkUp,
    LinkDown,
    Cache,
    Lair,
    Door,
    SealedDoor,
    Breakpoint,
    Fault,
    Orphan,
    Market,
    Corruption,
}

/// Something pinned to a cell over its tile.
#[derive(Clone, Copy, Debug, PartialEq, Eq, Structural)]
pub enum FrameMapMark {
    Party,
    Fight,
}

/// A map tile's fill: never seen, seen rock, walked ground, or corruption,
/// the one walkable kind with a fill of its own.
#[derive(Clone, Copy, Debug, PartialEq, Eq, Structural)]
pub enum TileShade {
    Unknown,
    Rock,
    Walked,
    Corrupt,
}

pub open spec fn spec_tile_color(cell: FrameMapCell) -> TileShade {
    match cell {
        FrameMapCell::Unknown => TileShade::Unknown,
        FrameMapCell::Rock => TileShade::Rock,
        FrameMapCell::Corruption => TileShade::Corrupt,
        _ => TileShade::Walked,
    }
}

/// The fill a cell is drawn in.
pub fn tile_color(cell: FrameMapCell) -> (out: TileShade)
    ensures
        out == spec_tile_color(cell),
{
    match cell {
        FrameMapCell::Unknown => TileShade::Unknown,
        FrameMapCell::Rock => TileShade::Rock,
        FrameMapCell::Corruption => TileShade::Corrupt,
        FrameMapCell::Floor | FrameMapCell::LinkUp | FrameMapCell::LinkDown | FrameMapCell::Cache
        | FrameMapCell::Lair | FrameMapCell::Door | FrameMapCell::SealedDoor
        | FrameMapCell::Breakpoint | FrameMapCell::Fault | FrameMapCell::Orphan
        | FrameMapCell::Market => TileShade::Walked,
    }
}

pub open spec fn spec_cell_glyph(cell: FrameMapCell) -> Option<(char, Tint)> {
    match cell {
        FrameMapCell::LinkDown => Some(('>', Tint::Yellow)),
        FrameMapCell::LinkUp => Some(('<', Tint::Yellow)),
        FrameMapCell::Cache => Some(('!', Tint::Green)),
        FrameMapCell::Lair => Some(('&', Tint::Red)),
        FrameMapCell::Door => Some(('+', Tint::Orange)),
        FrameMapCell::SealedDoor => Some(('+', Tint::Red)),
        FrameMapCell::Breakpoint => Some(('*', Tint::Blue)),
        FrameMapCell::Fault => Some(('v', Tint::Orange)),
        FrameMapCell::Orphan => Some(('o', Tint::Green)),
        FrameMapCell::Market => Some(('$', Tint::Yellow)),
        _ => None,
    }
}

/// The glyph pinned to a cell, if any. Corruption has none: it carries its
/// meaning in its fill.
pub fn cell_glyph(cell: FrameMapCell) -> (out: Option<(char, Tint)>)
    ensures
        out == spec_cell_glyph(cell),
{
    match cell {
        FrameMapCell::LinkDown => Some(('>', Tint::Yellow)),
        FrameMapCell::LinkUp => Some(('<', Tint::Yellow)),
        FrameMapCell::Cache => Some(('!', Tint::Green)),
        FrameMapCell::Lair => Some(('&', Tint::Red)),
        FrameMapCell::Door => Some(('+', Tint::Orange)),
        FrameMapCell::SealedDoor => Some(('+', Tint::Red)),
        FrameMapCell::Breakpoint => Some(('*', Tint::Blue)),
        FrameMapCell::Fault => Some(('v', Tint::Orange)),
        FrameMapCell::Orphan => Some(('o', Tint::Green)),
        FrameMapCell::Market => Some(('$', Tint::Yellow)),
        FrameMapCell::Corruption | FrameMapCell::Unknown | FrameMapCell::Rock
        | FrameMapCell::Floor => None,
    }
}

pub open spec fn spec_mark_glyph(mark: FrameMapMark) -> (char, Tint) {
    match mark {
        FrameMapMark::Party => ('@', Tint::Cyan),
        FrameMapMark::Fight => ('x', Tint::Red),
    }
}

/// The glyph a mark is drawn as: the party's `@`, a fight's `x`.
pub fn mark_glyph(mark: FrameMapMark) -> (out: (char, Tint))
    ensures
        out == spec_mark_glyph(mark),
{
    match mark {
        FrameMapMark::Party => ('@', Tint::Cyan),
        FrameMapMark::Fight => ('x', Tint::Red),
    }
}

/// The Wild Jump cursor's outline colour.
pub const CURSOR: Tint = Tint::White;

/// The cursor never wears the party mark's colour: on the jump screen,
/// "where I am" and "where I am aiming" must stay apart.
pub proof fn the_cursor_is_not_the_party_colour()
    ensures
        CURSOR != spec_mark_glyph(FrameMapMark::Party).1,
{
}

/// Never-seen ground and seen rock are drawn differently.
pub proof fn unknown_and_rock_differ()
    ensures
        spec_tile_color(FrameMapCell::Unknown) != spec_tile_color(FrameMapCell::Rock),
{
}

/// The map of one frame: its size, what is known of each cell (row by row),
/// and the marks pinned over it.
#[derive(Debug)]
pub struct FrameMapView {
    pub width: i32,
    pub height: i32,
    pub cells: Vec<Vec<FrameMapCell>>,
    pub marks: Vec<((i32, i32), FrameMapMark)>,
}

/// A frame map as plain values.
#[verifier::ext_equal]
pub struct FrameMapViewV {
    pub width: i32,
    pub height: i32,
    pub cells: Seq<Seq<FrameMapCell>>,
    pub marks: Seq<((i32, i32), FrameMapMark)>,
}

impl View for FrameMapView {
    type V = FrameMapViewV;

    open spec fn view(&self) -> FrameMapViewV {
        FrameMapViewV {
            width: self.width,
            height: self.height,
            cells: Seq::new(self.cells@.len(), |y: int| self.cells@[y]@),
            marks: self.marks@,
        }
    }
}

/// `height` rows of `width` cells each.
pub open spec fn well_formed(v: FrameMapViewV) -> bool {
    &&& v.width >= 0
    &&& v.height >= 0
    &&& v.cells.len() == v.height
    &&& forall|y: int| 0 <= y < v.height ==> (#[trigger] v.cells[y]).len() == v.width
}

/// The zoom levels the map steps through, widest first.
pub const STACK_MAP_MIN_ZOOM: u16 = 1;

pub const STACK_MAP_MAX_ZOOM: u16 = 4;

pub open spec fn spec_window_radius(zoom: u16) -> Option<i32> {
    if zoom == STACK_MAP_MIN_ZOOM {
        None
    } else if zoom == 2 {
        Some(7)
    } else if zoom == 3 {
        Some(5)
    } else {
        Some(3)
    }
}

/// How many cells either side of the party a zoom level shows, or nothing
/// for the whole frame. Odd sides, so the party sits in the middle cell.
pub fn window_radius(zoom: u16) -> (out: Option<i32>)
    ensures
        out == spec_window_radius(zoom),
{
    if zoom == STACK_MAP_MIN_ZOOM {
        None
    } else if zoom == 2 {
        Some(7)
    } else if zoom == 3 {
        Some(5)
    } else {
        Some(3)
    }
}

/// The zoom ladder: the widest zoom shows the whole frame, then squares 15,
/// 11 and 7 cells across (radius 7, 5, 3), and every zoom past the last step
/// stays at 7 across.
pub proof fn the_zoom_ladder(zoom: u16)
    ensures
        spec_window_radius(STACK_MAP_MIN_ZOOM) is None,
        zoom != STACK_MAP_MIN_ZOOM ==> spec_window_radius(zoom) is Some,
        zoom == 2 ==> 2 * spec_window_radius(zoom)->0 + 1 == 15,
        zoom == 3 ==> 2 * spec_window_radius(zoom)->0 + 1 == 11,
        zoom >= STACK_MAP_MAX_ZOOM ==> 2 * spec_window_radius(zoom)->0 + 1 == 7,
{
}

/// Stepping in never widens the view: of two zooms past the widest, the
/// higher one's window is no larger, and strictly smaller while the lower one
/// is below the last step.
pub proof fn zooming_in_shows_less(lower: u16, higher: u16)
    requires
        STACK_MAP_MIN_ZOOM < lower < higher,
    ensures
        spec_window_radius(higher)->0 <= spec_window_radius(lower)->0,
        lower < STACK_MAP_MAX_ZOOM ==> spec_window_radius(higher)->0 < spec_window_radius(lower)->0,
{
}

/// Where the first party mark in `marks` stands, if any.
pub open spec fn first_party(marks: Seq<((i32, i32), FrameMapMark)>) -> Option<(i32, i32)>
    decreases marks.len(),
{
    if marks.len() == 0 {
        None
    } else if marks[0].1 == FrameMapMark::Party {
        Some(marks[0].0)
    } else {
        first_party(marks.drop_first())
    }
}

pub open spec fn clamp(v: int, lo: int, hi: int) -> int {
    if v < lo {
        lo
    } else if v > hi {
        hi
    } else {
        v
    }
}

/// The marks inside the `side`-wide window at `(x0, y0)`, moved into the
/// window's own coordinates, in order. Marks outside it are dropped.
pub open spec fn marks_in_window(
    marks: Seq<((i32, i32), FrameMapMark)>,
    x0: int,
    y0: int,
    side: int,
) -> Seq<((i32, i32), FrameMapMark)>
    decreases marks.len(),
{
    if marks.len() == 0 {
        Seq::empty()
    } else {
        let rest = marks_in_window(marks.drop_last(), x0, y0, side);
        let ((x, y), mark) = marks.last();
        let (lx, ly) = (x - x0, y - y0);
        if 0 <= lx < side && 0 <= ly < side {
            rest.push(((lx as i32, ly as i32), mark))
        } else {
            rest
        }
    }
}

/// The top-left cell of the `side`-wide window around `(cx, cy)`: centred on
/// it, but slid inside the frame at its edges.
pub open spec fn window_origin(v: FrameMapViewV, radius: int, cx: int, cy: int) -> (int, int) {
    let side = radius * 2 + 1;
    (clamp(cx - radius, 0, v.width - side), clamp(cy - radius, 0, v.height - side))
}

/// The window a zoom level draws: the whole frame at the widest zoom, for a
/// frame no larger than the window, or with no party mark to centre on;
/// otherwise the `side`-wide square at `window_origin`, with the marks
/// inside it moved along and the rest dropped.
pub open spec fn spec_crop(v: FrameMapViewV, zoom: u16) -> FrameMapViewV {
    match spec_window_radius(zoom) {
        None => v,
        Some(radius) => {
            let side = radius * 2 + 1;
            if v.width <= side || v.height <= side {
                v
            } else {
                match first_party(v.marks) {
                    None => v,
                    Some((cx, cy)) => {
                        let (x0, y0) = window_origin(v, radius as int, cx as int, cy as int);
                        FrameMapViewV {
                            width: side as i32,
                            height: side as i32,
                            cells: Seq::new(
                                side as nat,
                                |y: int| Seq::new(side as nat, |x: int| v.cells[y0 + y][x0 + x]),
                            ),
                            marks: marks_in_window(v.marks, x0, y0, side),
                        }
                    },
                }
            }
        },
    }
}

/// The widest zoom shows the whole frame, unchanged.
pub proof fn the_lowest_zoom_shows_the_whole_frame(v: FrameMapViewV)
    ensures
        spec_crop(v, STACK_MAP_MIN_ZOOM) == v,
{
}

/// A frame no larger than the window a zoom level asks for is shown whole.
pub proof fn a_small_frame_is_left_alone(v: FrameMapViewV, zoom: u16)
    requires
        spec_window_radius(zoom) matches Some(r) && (v.width <= r * 2 + 1 || v.height <= r * 2 + 1),
    ensures
        spec_crop(v, zoom) == v,
{
}

/// The window never hangs off the frame, and the party standing on the frame
/// always stands inside its own window: in the very middle of it, unless the
/// frame's edge is nearer than the radius.
pub proof fn the_window_follows_the_party(v: FrameMapViewV, radius: int, cx: int, cy: int)
    requires
        3 <= radius,
        v.width > radius * 2 + 1,
        v.height > radius * 2 + 1,
        0 <= cx < v.width,
        0 <= cy < v.height,
    ensures
        ({
            let (x0, y0) = window_origin(v, radius, cx, cy);
            let side = radius * 2 + 1;
            &&& 0 <= x0 && x0 + side <= v.width
            &&& 0 <= y0 && y0 + side <= v.height
            &&& 0 <= cx - x0 < side
            &&& 0 <= cy - y0 < side
            &&& (radius <= cx < v.width - radius ==> cx - x0 == radius)
            &&& (radius <= cy < v.height - radius ==> cy - y0 == radius)
        }),
{
}

/// Marks move with the window and nothing else happens to them: every mark
/// inside the window is kept, moved by the window's origin, and every kept
/// mark is such a moved mark. So two kept marks are as far apart as before.
pub proof fn marks_move_with_the_window(
    marks: Seq<((i32, i32), FrameMapMark)>,
    x0: int,
    y0: int,
    side: int,
)
    requires
        0 <= x0,
        0 <= y0,
        x0 + side <= i32::MAX,
        y0 + side <= i32::MAX,
    ensures
        forall|j: int|
            #![trigger marks[j]]
            0 <= j < marks.len() && 0 <= marks[j].0.0 - x0 < side && 0 <= marks[j].0.1 - y0 < side
                ==> marks_in_window(marks, x0, y0, side).contains(
                (
                    ((marks[j].0.0 - x0) as i32, (marks[j].0.1 - y0) as i32),
                    marks[j].1,
                ),
            ),
        forall|i: int|
            #![trigger marks_in_window(marks, x0, y0, side)[i]]
            0 <= i < marks_in_window(marks, x0, y0, side).len() ==> exists|j: int|
                0 <= j < marks.len() && #[trigger] marks[j].1 == marks_in_window(
                    marks,
                    x0,
                    y0,
                    side,
                )[i].1 && marks[j].0.0 - x0 == marks_in_window(marks, x0, y0, side)[i].0.0
                    && marks[j].0.1 - y0 == marks_in_window(marks, x0, y0, side)[i].0.1
                    && 0 <= marks_in_window(marks, x0, y0, side)[i].0.0 < side
                    && 0 <= marks_in_window(marks, x0, y0, side)[i].0.1 < side,
    decreases marks.len(),
{
    if marks.len() > 0 {
        let rest = marks.drop_last();
        marks_move_with_the_window(rest, x0, y0, side);
        let out = marks_in_window(marks, x0, y0, side);
        let prev = marks_in_window(rest, x0, y0, side);
        assert forall|j: int|
            #![trigger marks[j]]
            0 <= j < marks.len() && 0 <= marks[j].0.0 - x0 < side && 0 <= marks[j].0.1 - y0 < side
                implies out.contains(
                (((marks[j].0.0 - x0) as i32, (marks[j].0.1 - y0) as i32), marks[j].1),
            ) by {
            if j < marks.len() - 1 {
                assert(marks[j] == rest[j]);
                let w = (((rest[j].0.0 - x0) as i32, (rest[j].0.1 - y0) as i32), rest[j].1);
                assert(prev.contains(w));
                let k = choose|k: int| 0 <= k < prev.len() && prev[k] == w;
                assert(out[k] == w);
            } else {
                assert(out.last() == (
                    ((marks[j].0.0 - x0) as i32, (marks[j].0.1 - y0) as i32),
                    marks[j].1,
                ));
            }
        }
        assert forall|i: int|
            #![trigger out[i]]
            0 <= i < out.len() implies exists|j: int|
                0 <= j < marks.len() && #[trigger] marks[j].1 == out[i].1 && marks[j].0.0 - x0
                    == out[i].0.0 && marks[j].0.1 - y0 == out[i].0.1 && 0 <= out[i].0.0 < side && 0
                    <= out[i].0.1 < side by {
            if i < prev.len() {
                assert(out[i] == prev[i]);
                let j = choose|j: int|
                    0 <= j < rest.len() && #[trigger] rest[j].1 == prev[i].1 && rest[j].0.0 - x0
                        == prev[i].0.0 && rest[j].0.1 - y0 == prev[i].0.1 && 0 <= prev[i].0.0
                        < side && 0 <= prev[i].0.1 < side;
                assert(marks[j] == rest[j]);
            } else {
                assert(marks[marks.len() - 1] == marks.last());
            }
        }
    }
}

fn copy_row(row: &Vec<FrameMapCell>, from: usize, len: usize) -> (out: Vec<FrameMapCell>)
    requires
        from + len <= row@.len(),
    ensures
        out@ == row@.subrange(from as int, (from + len) as int),
{
    let total = row.len();
    let mut out: Vec<FrameMapCell> = Vec::new();
    let mut i: usize = 0;
    while i < len
        invariant
            i <= len,
            from + len <= row@.len(),
            total == row@.len(),
            out@ =~= row@.subrange(from as int, (from + i) as int),
        decreases len - i,
    {
        out.push(row[from + i]);
        i = i + 1;
    }
    out
}

/// A copy of `v`, value for value.
pub fn copy_view(v: &FrameMapView) -> (out: FrameMapView)
    ensures
        out@ == v@,
{
    let mut cells: Vec<Vec<FrameMapCell>> = Vec::new();
    let mut y: usize = 0;
    while y < v.cells.len()
        invariant
            y <= v.cells@.len(),
            cells@.len() == y,
            forall|k: int| 0 <= k < y ==> (#[trigger] cells@[k])@ == v.cells@[k]@,
        decreases v.cells@.len() - y,
    {
        let row = copy_row(&v.cells[y], 0, v.cells[y].len());
        assert(row@ =~= v.cells@[y as int]@);
        cells.push(row);
        y = y + 1;
    }
    let mut marks: Vec<((i32, i32), FrameMapMark)> = Vec::new();
    let mut k: usize = 0;
    while k < v.marks.len()
        invariant
            k <= v.marks@.len(),
            marks@ =~= v.marks@.subrange(0, k as int),
        decreases v.marks@.len() - k,
    {
        marks.push(v.marks[k]);
        k = k + 1;
    }
    let out = FrameMapView { width: v.width, height: v.height, cells, marks };
    assert(out@.cells =~= v@.cells);
    assert(out@.marks =~= v@.marks);
    out
}

fn find_party(marks: &Vec<((i32, i32), FrameMapMark)>) -> (out: Option<(i32, i32)>)
    ensures
        out == first_party(marks@),
{
    let mut i: usize = 0;
    assert(marks@.subrange(0, marks@.len() as int) =~= marks@);
    while i < marks.len()
        invariant
            i <= marks@.len(),
            first_party(marks@) == first_party(marks@.subrange(i as int, marks@.len() as int)),
        decreases marks@.len() - i,
    {
        let ghost rest = marks@.subrange(i as int, marks@.len() as int);
        assert(rest.drop_first() =~= marks@.subrange(i + 1, marks@.len() as int));
        if marks[i].1 == FrameMapMark::Party {
            return Some(marks[i].0);
        }
        i = i + 1;
    }
    None
}

/// The window a zoom level draws; see `spec_crop`. The window follows the
/// party rather than the frame's middle, and never hangs off the frame.
pub fn crop(view: &FrameMapView, zoom: u16) -> (out: FrameMapView)
    requires
        well_formed(view@),
    ensures
        out@ == spec_crop(view@, zoom),
        well_formed(out@),
{
    let radius = match window_radius(zoom) {
        None => return copy_view(view),
        Some(r) => r,
    };
    let side = radius * 2 + 1;
    if view.width <= side || view.height <= side {
        return copy_view(view);
    }
    let (cx, cy) = match find_party(&view.marks) {
        None => return copy_view(view),
        Some(at) => at,
    };
    let hi_x = (view.width - side) as i64;
    let hi_y = (view.height - side) as i64;
    let want_x = cx as i64 - radius as i64;
    let want_y = cy as i64 - radius as i64;
    let x0: i64 = if want_x < 0 {
        0
    } else if want_x > hi_x {
        hi_x
    } else {
        want_x
    };
    let y0: i64 = if want_y < 0 {
        0
    } else if want_y > hi_y {
        hi_y
    } else {
        want_y
    };
    let ghost v = view@;
    let ghost want = spec_crop(v, zoom);
    let mut cells: Vec<Vec<FrameMapCell>> = Vec::new();
    let mut y: i64 = 0;
    while y < side as i64
        invariant
            well_formed(v),
            v == view@,
            side == radius * 2 + 1,
            3 <= radius <= 7,
            side < v.width,
            side < v.height,
            0 <= x0 <= v.width - side,
            0 <= y0 <= v.height - side,
            0 <= y <= side,
            cells@.len() == y,
            forall|k: int|
                0 <= k < y ==> (#[trigger] cells@[k])@ =~= Seq::new(
                    side as nat,
                    |x: int| v.cells[y0 + k][x0 + x],
                ),
            (x0 as int, y0 as int) == window_origin(v, radius as int, cx as int, cy as int),
        decreases side - y,
    {
        let src = &view.cells[(y0 + y) as usize];
        assert(src@ == v.cells[y0 + y]);
        let row = copy_row(src, x0 as usize, side as usize);
        assert(row@ =~= Seq::new(side as nat, |x: int| v.cells[y0 + y][x0 + x]));
        cells.push(row);
        y = y + 1;
    }
    let mut marks: Vec<((i32, i32), FrameMapMark)> = Vec::new();
    let mut k: usize = 0;
    while k < view.marks.len()
        invariant
            v == view@,
            k <= v.marks.len(),
            marks@ == marks_in_window(v.marks.subrange(0, k as int), x0 as int, y0 as int, side as int),
            0 <= x0 <= i32::MAX,
            0 <= y0 <= i32::MAX,
            3 <= radius <= 7,
            side == radius * 2 + 1,
        decreases v.marks.len() - k,
    {
        let ((x, yy), mark) = view.marks[k];
        let lx = x as i64 - x0;
        let ly = yy as i64 - y0;
        proof {
            let sub = v.marks.subrange(0, k + 1);
            assert(sub.drop_last() =~= v.marks.subrange(0, k as int));
            assert(sub.last() == v.marks[k as int]);
        }
        if 0 <= lx && lx < side as i64 && 0 <= ly && ly < side as i64 {
            marks.push(((lx as i32, ly as i32), mark));
        }
        k = k + 1;
    }
    assert(v.marks.subrange(0, v.marks.len() as int) =~= v.marks);
    let out = FrameMapView { width: side, height: side, cells, marks };
    assert(out@.cells =~= want.cells);
    assert(out@ =~= want);
    out
}

/// What the map already knows of the cell under the cursor, in a word: it
/// never says more than the map shows, so unseen ground reads as unmapped.
pub open spec fn spec_cursor_reading(v: FrameMapViewV, at: (i32, i32)) -> Seq<char> {
    let (x, y) = at;
    if y < 0 || y >= v.cells.len() || x < 0 || x >= v.cells[y as int].len() {
        "off the frame"@
    } else {
        match v.cells[y as int][x as int] {
            FrameMapCell::Unknown => "UNMAPPED"@,
            FrameMapCell::Rock => "solid \u{2014} this kills you"@,
            _ => "open ground"@,
        }
    }
}

pub fn cursor_reading(view: &FrameMapView, at: (i32, i32)) -> (out: &'static str)
    ensures
        out@ == spec_cursor_reading(view@, at),
{
    let (x, y) = at;
    if y < 0 || y as usize >= view.cells.len() {
        return "off the frame";
    }
    let row = &view.cells[y as usize];
    if x < 0 || x as usize >= row.len() {
        return "off the frame";
    }
    match row[x as usize] {
        FrameMapCell::Unknown => "UNMAPPED",
        FrameMapCell::Rock => "solid \u{2014} this kills you",
        _ => "open ground",
    }
}

/// The Wild Jump screen's heading: the cell under the cursor by its
/// coordinates and by what the map knows of it, then the two keys.
pub open spec fn spec_cursor_heading(v: FrameMapViewV, at: (i32, i32)) -> Seq<char> {
    "WILD JUMP   target "@ + signed_decimal(at.0 as int) + ","@ + signed_decimal(at.1 as int)
        + "   "@ + spec_cursor_reading(v, at) + "   Enter to commit, Esc to back out"@
}

pub fn cursor_heading(view: &FrameMapView, at: (i32, i32)) -> (out: String)
    ensures
        out@ == spec_cursor_heading(view@, at),
{
    let mut out = String::from_str("WILD JUMP   target ");
    push_signed(&mut out, at.0 as i64);
    out.append(",");
    push_signed(&mut out, at.1 as i64);
    out.append("   ");
    out.append(cursor_reading(view, at));
    out.append("   Enter to commit, Esc to back out");
    out
}

/// The marks the grid draws over its cells: those inside the frame, in
/// the order given; one outside it has no cell to stand on.
pub open spec fn on_grid(v: FrameMapViewV) -> Seq<((i32, i32), FrameMapMark)> {
    v.marks.filter(
        |m: ((i32, i32), FrameMapMark)| 0 <= m.0.0 < v.width && 0 <= m.0.1 < v.height,
    )
}

pub fn grid_marks(view: &FrameMapView) -> (out: Vec<((i32, i32), FrameMapMark)>)
    ensures
        out@ == on_grid(view@),
{
    let mut out: Vec<((i32, i32), FrameMapMark)> = Vec::new();
    let mut k: usize = 0;
    while k < view.marks.len()
        invariant
            k <= view.marks@.len(),
            out@ == view@.marks.take(k as int).filter(
                |m: ((i32, i32), FrameMapMark)| 0 <= m.0.0 < view.width && 0 <= m.0.1 < view.height,
            ),
        decreases view.marks@.len() - k,
    {
        let (at, mark) = view.marks[k];
        proof {
            let f = |m: ((i32, i32), FrameMapMark)| 0 <= m.0.0 < view.width && 0 <= m.0.1 < view.height;
            assert(view@.marks.take(k + 1).drop_last() =~= view@.marks.take(k as int));
            view@.marks.take(k as int).lemma_filter_push(view@.marks[k as int], f);
            assert(view@.marks.take(k as int).push(view@.marks[k as int]) =~= view@.marks.take(k + 1));
        }
        if 0 <= at.0 && at.0 < view.width && 0 <= at.1 && at.1 < view.height {
            out.push((at, mark));
        }
        k = k + 1;
    }
    assert(view@.marks.take(view@.marks.len() as int) =~= view@.marks);
    out
}

} // verus!
