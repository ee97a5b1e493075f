//! The intro screen: when it ends, where the logo sits, and the
//! colour-cycling border drawn around it.
//!
//! Drawing to the terminal and the colour arithmetic in floating point
//! (blending two palette colours, fading in) are the application's part; this
//! module decides which cells the border covers, in which order, and which
//! palette colours and blend step each cell takes.

use vstd::prelude::*;
use ratatui::layout::{Constraint, Layout, Rect};
use crate::modules::keys::Key;
use crate::modules::logo::Area;

verus! {

/// How long the intro runs before it ends by itself, in milliseconds.
pub const INTRO_DURATION_MS: u128 = 3000;
/// The width of the box the logo is centred in.
pub const LOGO_BOX_WIDTH: u16 = 80;
/// The height of the box the logo is centred in.
pub const LOGO_BOX_HEIGHT: u16 = 15;
/// How many colours the border cycles through.
pub const BORDER_PALETTE_LEN: usize = 6;
/// How many border cells one palette colour spans.
pub const CELLS_PER_COLOR: usize = 10;

/// `q`, Esc, Enter and the space bar skip the intro.
pub open spec fn skips_intro(k: Key) -> bool {
    k == Key::Char('q') || k == Key::Esc || k == Key::Enter || k == Key::Char(' ')
}

/// Whether a key skips the intro.
pub fn is_skip_key(key: Key) -> (b: bool)
    ensures
        b == skips_intro(key),
{
    match key {
        Key::Char(c) => c == 'q' || c == ' ',
        Key::Esc => true,
        Key::Enter => true,
        _ => false,
    }
}

/// Whether the intro ends after a frame: a skipping key was pressed, or its
/// time is up.
pub fn intro_over(key: Option<Key>, elapsed_ms: u128) -> (b: bool)
    ensures
        b == ((key matches Some(k) && skips_intro(k)) || elapsed_ms >= INTRO_DURATION_MS),
{
    let skipped = match key {
        Some(k) => is_skip_key(k),
        None => false,
    };
    skipped || elapsed_ms >= INTRO_DURATION_MS
}

/// Whether the border is drawn: once the animation's progress (elapsed time
/// over the duration, at most 1) exceeds 0.3, that is after 900 ms.
pub fn border_shown(elapsed_ms: u32) -> (b: bool)
    ensures
        b == (elapsed_ms > 900),
{
    elapsed_ms > 900
}

/// Whether the tagline is drawn: once the progress reaches 0.3, that is from
/// 900 ms on.
pub fn tagline_shown(elapsed_ms: u32) -> (b: bool)
    ensures
        b == (elapsed_ms >= 900),
{
    elapsed_ms >= 900
}

/// The three areas that `Layout::split` gives for an area and the
/// constraints `[Length(first), Length(second), Min(rest)]`, stacked as rows
/// when `vertical` holds and side by side as columns otherwise.
pub uninterp spec fn layout_thirds(
    vertical: bool,
    area: Area,
    first: u16,
    second: u16,
    rest: u16,
) -> (Area, Area, Area);

/// The first two of three rows stacked from the top of `area`: `first`
/// rows high, then `second` rows high, each as wide as the area.
pub open spec fn stacked(area: Area, first: u16, second: u16) -> (Area, Area) {
    (
        Area { x: area.x, y: area.y, width: area.width, height: first },
        Area { x: area.x, y: (area.y + first) as u16, width: area.width, height: second },
    )
}

/// The first two of three columns placed from the left of `area`: `first`
/// columns wide, then `second` columns wide, each as high as the area.
pub open spec fn side_by_side(area: Area, first: u16, second: u16) -> (Area, Area) {
    (
        Area { x: area.x, y: area.y, width: first, height: area.height },
        Area { x: (area.x + first) as u16, y: area.y, width: second, height: area.height },
    )
}

/// A box of the given size with equal margins (the odd cell after it) on
/// both sides of each axis of `area`.
pub open spec fn centered_in(area: Area, width: u16, height: u16) -> Area {
    Area {
        x: (area.x + (area.width - width) / 2) as u16,
        y: (area.y + (area.height - height) / 2) as u16,
        width,
        height,
    }
}

/// Calls ratatui's `Layout::vertical(..).split(..)` with two lengths and a
/// minimum. The contract names the three areas it returns, as a function of
/// its arguments (the layout solver is deterministic), and states what the
/// solver's constraints fix when all three fit the area's height: the rows
/// start at the top, without gaps, the first two exactly as long as asked,
/// each as wide as the area. The third row's height is left unsaid.
#[verifier::external_body]
fn split_vertical(area: Area, first: u16, second: u16, rest: u16) -> (r: (Area, Area, Area))
    ensures
        r == layout_thirds(true, area, first, second, rest),
        area.in_range() && first + second + rest <= area.height ==> (r.0, r.1) == stacked(
            area,
            first,
            second,
        ),
{
    let rect = Rect::new(area.x, area.y, area.width, area.height);
    let constraints = [Constraint::Length(first), Constraint::Length(second), Constraint::Min(rest)];
    let p = Layout::vertical(constraints).split(rect);
    let back = |r: Rect| Area { x: r.x, y: r.y, width: r.width, height: r.height };
    (back(p[0]), back(p[1]), back(p[2]))
}

/// Calls ratatui's `Layout::horizontal(..).split(..)` with two lengths and
/// a minimum. The contract names the three areas it returns, as a function
/// of its arguments (the layout solver is deterministic), and states what the
/// solver's constraints fix when all three fit the area's width: the columns
/// start at the left, without gaps, the first two exactly as wide as asked,
/// each as high as the area. The third column's width is left unsaid.
#[verifier::external_body]
fn split_horizontal(area: Area, first: u16, second: u16, rest: u16) -> (r: (Area, Area, Area))
    ensures
        r == layout_thirds(false, area, first, second, rest),
        area.in_range() && first + second + rest <= area.width ==> (r.0, r.1) == side_by_side(
            area,
            first,
            second,
        ),
{
    let rect = Rect::new(area.x, area.y, area.width, area.height);
    let constraints = [Constraint::Length(first), Constraint::Length(second), Constraint::Min(rest)];
    let p = Layout::horizontal(constraints).split(rect);
    let back = |r: Rect| Area { x: r.x, y: r.y, width: r.width, height: r.height };
    (back(p[0]), back(p[1]), back(p[2]))
}

/// Half of what is left of `total` after `used`, at least 0.
pub open spec fn half_margin(total: u16, used: u16) -> u16 {
    if total > used {
        ((total - used) / 2) as u16
    } else {
        0
    }
}

/// The box that `center_rect` gives: the area is split into rows with the
/// margin above, then the middle row into columns with the margin left.
pub open spec fn centered_box(area: Area, width: u16, height: u16) -> Area {
    let row = layout_thirds(true, area, half_margin(area.height, height), height, 0).1;
    layout_thirds(false, row, half_margin(area.width, width), width, 0).1
}

/// A box of the given size centred in an area, as the layout solver places
/// it.
pub fn center_rect(area: Area, width: u16, height: u16) -> (r: Area)
    ensures
        r == centered_box(area, width, height),
        area.in_range() && width <= area.width && height <= area.height ==> r == centered_in(
            area,
            width,
            height,
        ),
{
    let top: u16 = if area.height > height { (area.height - height) / 2 } else { 0 };
    let left: u16 = if area.width > width { (area.width - width) / 2 } else { 0 };
    let rows = split_vertical(area, top, height, 0);
    let columns = split_horizontal(rows.1, left, width, 0);
    assert(area.in_range() && width <= area.width && height <= area.height ==> rows.1.in_range());
    columns.1
}

/// Where the logo is drawn within the middle band of the intro screen.
pub fn logo_box(band: Area) -> (r: Area)
    ensures
        r == centered_box(band, LOGO_BOX_WIDTH, LOGO_BOX_HEIGHT),
        band.in_range() && LOGO_BOX_WIDTH <= band.width && LOGO_BOX_HEIGHT <= band.height ==> r
            == centered_in(band, LOGO_BOX_WIDTH, LOGO_BOX_HEIGHT),
{
    center_rect(band, LOGO_BOX_WIDTH, LOGO_BOX_HEIGHT)
}

/// Which side of the box a border cell lies on; each side has its glyph.
#[derive(Debug, Clone, Copy, PartialEq, Eq, Structural)]
pub enum BorderSide {
    Top,
    Right,
    Bottom,
    Left,
}

impl BorderSide {
    /// The glyph drawn on this side.
    pub fn symbol(self) -> (s: &'static str)
        ensures
            s@ == side_symbol(self),
    {
        match self {
            BorderSide::Top => "▀",
            BorderSide::Right => "█",
            BorderSide::Bottom => "▄",
            BorderSide::Left => "█",
        }
    }
}

/// The glyph of a side.
pub open spec fn side_symbol(s: BorderSide) -> Seq<char> {
    match s {
        BorderSide::Top => "▀"@,
        BorderSide::Right => "█"@,
        BorderSide::Bottom => "▄"@,
        BorderSide::Left => "█"@,
    }
}

/// The colour of a border cell: palette colour `from`, blended towards
/// palette colour `to` when `step` is 5 or more (by `(step - 5) / 5`).
#[derive(Debug, Clone, Copy, PartialEq, Eq, Structural)]
pub struct BorderShade {
    pub from: usize,
    pub to: usize,
    pub step: usize,
}

/// One cell of the border.
#[derive(Debug, Clone, Copy, PartialEq, Eq, Structural)]
pub struct BorderCell {
    pub x: u16,
    pub y: u16,
    pub side: BorderSide,
    pub shade: BorderShade,
}

/// The colours of the border, as RGB.
pub open spec fn border_palette() -> Seq<(u8, u8, u8)> {
    seq![(0, 255, 255), (100, 255, 255), (0, 200, 200), (255, 0, 255), (0, 255, 150), (255, 255, 0)]
}

/// A palette colour of the border.
pub fn border_rgb(i: usize) -> (c: (u8, u8, u8))
    requires
        i < BORDER_PALETTE_LEN,
    ensures
        c == border_palette()[i as int],
{
    let palette: [(u8, u8, u8); 6] = [
        (0, 255, 255),
        (100, 255, 255),
        (0, 200, 200),
        (255, 0, 255),
        (0, 255, 150),
        (255, 255, 0),
    ];
    assert(palette@ == border_palette());
    palette[i]
}

/// The shade at position `c` of the colour cycle: the cycle spans ten
/// cells per colour over the six colours.
pub open spec fn shade_at(c: int) -> BorderShade {
    let k = c % 60;
    BorderShade { from: (k / 10) as usize, to: ((k / 10 + 1) % 6) as usize, step: (k % 10) as usize }
}

fn shade(c: usize) -> (s: BorderShade)
    ensures
        s == shade_at(c as int),
{
    let k = c % 60;
    BorderShade { from: k / 10, to: (k / 10 + 1) % 6, step: k % 10 }
}

/// A cell position with its side, before colouring.
pub type Spot = (int, int, BorderSide);

/// The row above the box, left to right, when there is one.
pub open spec fn top_run(a: Area) -> Seq<Spot> {
    if a.y > 0 {
        Seq::new(a.width as nat, |i: int| (a.x + i, a.y - 1, BorderSide::Top))
    } else {
        Seq::empty()
    }
}

/// The column right of the box, top to bottom, when it is on screen.
pub open spec fn right_run(a: Area, screen_width: u16) -> Seq<Spot> {
    if a.x + a.width < screen_width {
        Seq::new(a.height as nat, |i: int| (a.x + a.width, a.y + i, BorderSide::Right))
    } else {
        Seq::empty()
    }
}

/// The row below the box, right to left, when it is on screen.
pub open spec fn bottom_run(a: Area, screen_height: u16) -> Seq<Spot> {
    if a.y + a.height < screen_height {
        Seq::new(
            a.width as nat,
            |i: int| (a.x + a.width - 1 - i, a.y + a.height, BorderSide::Bottom),
        )
    } else {
        Seq::empty()
    }
}

/// The column left of the box, bottom to top, when there is one.
pub open spec fn left_run(a: Area) -> Seq<Spot> {
    if a.x > 0 {
        Seq::new(a.height as nat, |i: int| (a.x - 1, a.y + a.height - 1 - i, BorderSide::Left))
    } else {
        Seq::empty()
    }
}

/// The border's cells in drawing order: top, right, bottom, left.
pub open spec fn ring(a: Area, screen_width: u16, screen_height: u16) -> Seq<Spot> {
    top_run(a) + right_run(a, screen_width) + bottom_run(a, screen_height) + left_run(a)
}

/// The `i`th border cell for a frame: its place on the ring, coloured by
/// its place in the colour cycle, which moves one cell every two frames.
pub open spec fn border_cell_at(
    a: Area,
    screen_width: u16,
    screen_height: u16,
    frame_count: u32,
    i: int,
) -> BorderCell {
    let p = ring(a, screen_width, screen_height)[i];
    BorderCell { x: p.0 as u16, y: p.1 as u16, side: p.2, shade: shade_at(frame_count / 2 + i) }
}

/// The border drawn around the logo box on a screen of the given size.
pub fn border_cells(area: Area, screen_width: u16, screen_height: u16, frame_count: u32) -> (out:
    Vec<BorderCell>)
    requires
        area.in_range(),
    ensures
        out@.len() == ring(area, screen_width, screen_height).len(),
        forall|i: int|
            0 <= i < out@.len() ==> #[trigger] out@[i] == border_cell_at(
                area,
                screen_width,
                screen_height,
                frame_count,
                i,
            ),
{
    let ghost r = ring(area, screen_width, screen_height);
    let ghost t = top_run(area);
    let ghost rt = right_run(area, screen_width);
    let ghost b = bottom_run(area, screen_height);
    let ghost l = left_run(area);
    assert(r =~= t + rt + b + l);
    let cycle: usize = (frame_count / 2) as usize;
    let mut out: Vec<BorderCell> = Vec::new();
    if area.y > 0 {
        let mut i: u16 = 0;
        while i < area.width
            invariant
                area.in_range(),
                area.y > 0,
                r == ring(area, screen_width, screen_height),
                t == top_run(area),
                r =~= t + rt + b + l,
                cycle == frame_count / 2,
                cycle < 0x8000_0000,
                i <= area.width,
                out@.len() == i,
                forall|j: int|
                    0 <= j < i ==> #[trigger] out@[j] == border_cell_at(
                        area,
                        screen_width,
                        screen_height,
                        frame_count,
                        j,
                    ),
            decreases area.width - i,
        {
            assert(r[i as int] == t[i as int]);
            let cell = BorderCell {
                x: area.x + i,
                y: area.y - 1,
                side: BorderSide::Top,
                shade: shade(cycle + i as usize),
            };
            out.push(cell);
            i = i + 1;
        }
    }
    let base1: usize = out.len();
    assert(base1 == t.len());
    if area.x as u32 + (area.width as u32) < screen_width as u32 {
        let mut i: u16 = 0;
        while i < area.height
            invariant
                area.in_range(),
                area.x + area.width < screen_width,
                r == ring(area, screen_width, screen_height),
                rt == right_run(area, screen_width),
                r =~= t + rt + b + l,
                cycle == frame_count / 2,
                cycle < 0x8000_0000,
                base1 == t.len(),
                base1 <= 0xFFFF,
                i <= area.height,
                out@.len() == base1 + i,
                forall|j: int|
                    0 <= j < base1 + i ==> #[trigger] out@[j] == border_cell_at(
                        area,
                        screen_width,
                        screen_height,
                        frame_count,
                        j,
                    ),
            decreases area.height - i,
        {
            assert(r[base1 + i] == rt[i as int]);
            let cell = BorderCell {
                x: area.x + area.width,
                y: area.y + i,
                side: BorderSide::Right,
                shade: shade(cycle + base1 + i as usize),
            };
            out.push(cell);
            i = i + 1;
        }
    }
    let base2: usize = out.len();
    assert(base2 == t.len() + rt.len());
    if area.y as u32 + (area.height as u32) < screen_height as u32 {
        let mut i: u16 = 0;
        while i < area.width
            invariant
                area.in_range(),
                area.y + area.height < screen_height,
                r == ring(area, screen_width, screen_height),
                b == bottom_run(area, screen_height),
                r =~= t + rt + b + l,
                cycle == frame_count / 2,
                cycle < 0x8000_0000,
                base2 == t.len() + rt.len(),
                base2 <= 2 * 0xFFFF,
                i <= area.width,
                out@.len() == base2 + i,
                forall|j: int|
                    0 <= j < base2 + i ==> #[trigger] out@[j] == border_cell_at(
                        area,
                        screen_width,
                        screen_height,
                        frame_count,
                        j,
                    ),
            decreases area.width - i,
        {
            assert(r[base2 + i] == b[i as int]);
            let cell = BorderCell {
                x: area.x + area.width - 1 - i,
                y: area.y + area.height,
                side: BorderSide::Bottom,
                shade: shade(cycle + base2 + i as usize),
            };
            out.push(cell);
            i = i + 1;
        }
    }
    let base3: usize = out.len();
    assert(base3 == t.len() + rt.len() + b.len());
    if area.x > 0 {
        let mut i: u16 = 0;
        while i < area.height
            invariant
                area.in_range(),
                area.x > 0,
                r == ring(area, screen_width, screen_height),
                l == left_run(area),
                r =~= t + rt + b + l,
                cycle == frame_count / 2,
                cycle < 0x8000_0000,
                base3 == t.len() + rt.len() + b.len(),
                base3 <= 3 * 0xFFFF,
                i <= area.height,
                out@.len() == base3 + i,
                forall|j: int|
                    0 <= j < base3 + i ==> #[trigger] out@[j] == border_cell_at(
                        area,
                        screen_width,
                        screen_height,
                        frame_count,
                        j,
                    ),
            decreases area.height - i,
        {
            assert(r[base3 + i] == l[i as int]);
            let cell = BorderCell {
                x: area.x - 1,
                y: area.y + area.height - 1 - i,
                side: BorderSide::Left,
                shade: shade(cycle + base3 + i as usize),
            };
            out.push(cell);
            i = i + 1;
        }
    }
    out
}

/// A box with room on all four sides is framed by exactly its perimeter:
/// twice its width plus twice its height.
pub proof fn lemma_border_is_perimeter(a: Area, screen_width: u16, screen_height: u16)
    requires
        a.x > 0,
        a.y > 0,
        a.x + a.width < screen_width,
        a.y + a.height < screen_height,
    ensures
        ring(a, screen_width, screen_height).len() == 2 * a.width + 2 * a.height,
{
}

/// No border cell lies inside the box, and every border cell touches it:
/// it sits one step outside one of its edges.
pub proof fn lemma_border_hugs_box(a: Area, screen_width: u16, screen_height: u16, i: int)
    requires
        0 <= i < ring(a, screen_width, screen_height).len(),
    ensures
        ({
            let p = ring(a, screen_width, screen_height)[i];
            &&& !(a.x <= p.0 < a.x + a.width && a.y <= p.1 < a.y + a.height)
            &&& a.x - 1 <= p.0 <= a.x + a.width
            &&& a.y - 1 <= p.1 <= a.y + a.height
        }),
{
    let t = top_run(a);
    let rt = right_run(a, screen_width);
    let b = bottom_run(a, screen_height);
    let l = left_run(a);
    assert(ring(a, screen_width, screen_height) =~= t + rt + b + l);
    if i < t.len() {
        assert(ring(a, screen_width, screen_height)[i] == t[i]);
    } else if i < t.len() + rt.len() {
        assert(ring(a, screen_width, screen_height)[i] == rt[i - t.len()]);
    } else if i < t.len() + rt.len() + b.len() {
        assert(ring(a, screen_width, screen_height)[i] == b[i - t.len() - rt.len()]);
    } else {
        assert(ring(a, screen_width, screen_height)[i] == l[i - t.len() - rt.len() - b.len()]);
    }
}

} // verus!
