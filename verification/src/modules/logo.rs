//! Netrunner Logo Widget
//!
//! The logo spells "NETRUNNER" with horizontal, vertical and diagonal
//! strokes of block characters in a cyberpunk palette. This module decides
//! which cell of a terminal buffer receives which glyph in which colour; the
//! application writes those cells into its drawing buffer.

use vstd::prelude::*;

verus! {

/// A rectangle of terminal cells (column, row, width, height).
#[derive(Debug, Clone, Copy, PartialEq, Eq, Structural)]
pub struct Area {
    pub x: u16,
    pub y: u16,
    pub width: u16,
    pub height: u16,
}

impl Area {
    /// The first column past the rectangle, saturating at `u16::MAX`.
    pub open spec fn right(self) -> int {
        if self.x + self.width > 0xFFFF { 0xFFFF } else { self.x + self.width }
    }

    /// The first row past the rectangle, saturating at `u16::MAX`.
    pub open spec fn bottom(self) -> int {
        if self.y + self.height > 0xFFFF { 0xFFFF } else { self.y + self.height }
    }

    /// The rectangle does not reach past the last representable cell.
    pub open spec fn in_range(self) -> bool {
        self.x + self.width <= 0xFFFF && self.y + self.height <= 0xFFFF
    }
}

fn right_edge(a: Area) -> (r: u16)
    ensures
        r == a.right(),
{
    let s: u32 = a.x as u32 + a.width as u32;
    if s > 0xFFFF { 0xFFFF } else { s as u16 }
}

fn bottom_edge(a: Area) -> (r: u16)
    ensures
        r == a.bottom(),
{
    let s: u32 = a.y as u32 + a.height as u32;
    if s > 0xFFFF { 0xFFFF } else { s as u16 }
}

/// Size variants for the Netrunner logo
#[derive(Debug, Clone, Copy, PartialEq, Eq, Structural)]
pub enum NetrunnerLogoSize {
    /// Tiny logo (3 lines high)
    Tiny,
    /// Small logo (5 lines high)
    Small,
    /// Medium logo (7 lines high) - default
    Medium,
}

impl Default for NetrunnerLogoSize {
    fn default() -> (s: Self)
        ensures
            s == NetrunnerLogoSize::Medium,
    {
        NetrunnerLogoSize::Medium
    }
}

/// The Netrunner logo widget with cyberpunk aesthetic
#[derive(Debug, Clone, Copy, PartialEq, Eq, Structural)]
pub struct NetrunnerLogo {
    pub size: NetrunnerLogoSize,
}

impl Default for NetrunnerLogo {
    fn default() -> (l: Self)
        ensures
            l.size == NetrunnerLogoSize::Medium,
    {
        NetrunnerLogo { size: NetrunnerLogoSize::Medium }
    }
}

/// The colours of the logo palette.
#[derive(Debug, Clone, Copy, PartialEq, Eq, Structural)]
pub enum LogoColor {
    /// RGB (0, 255, 255)
    Cyan,
    /// RGB (100, 255, 255)
    CyanBright,
    /// RGB (0, 200, 200)
    CyanDim,
    /// RGB (255, 0, 255)
    Magenta,
    /// RGB (255, 255, 0)
    Yellow,
    /// RGB (0, 255, 150)
    GreenNeon,
}

impl LogoColor {
    /// The red, green and blue parts of the colour.
    pub fn rgb(self) -> (c: (u8, u8, u8))
        ensures
            c == logo_rgb(self),
    {
        match self {
            LogoColor::Cyan => (0, 255, 255),
            LogoColor::CyanBright => (100, 255, 255),
            LogoColor::CyanDim => (0, 200, 200),
            LogoColor::Magenta => (255, 0, 255),
            LogoColor::Yellow => (255, 255, 0),
            LogoColor::GreenNeon => (0, 255, 150),
        }
    }
}

/// The red, green and blue parts of each palette colour.
pub open spec fn logo_rgb(c: LogoColor) -> (u8, u8, u8) {
    match c {
        LogoColor::Cyan => (0, 255, 255),
        LogoColor::CyanBright => (100, 255, 255),
        LogoColor::CyanDim => (0, 200, 200),
        LogoColor::Magenta => (255, 0, 255),
        LogoColor::Yellow => (255, 255, 0),
        LogoColor::GreenNeon => (0, 255, 150),
    }
}

/// What is written at a cell: a block glyph, or (for the tiny logo) a short
/// run of glyphs written from that cell on.
#[derive(Debug, Clone, Copy, PartialEq, Eq, Structural)]
pub enum Glyph {
    /// "▀"
    Upper,
    /// "█"
    Full,
    /// "▄"
    Lower,
    /// "▓"
    Dark,
    /// "▒"
    Medium,
    /// "░"
    Light,
    /// "█▀█"
    BlockUpperBlock,
    /// "█▀"
    BlockUpper,
    /// "▀█▀"
    UpperBlockUpper,
    /// "█▀▄"
    BlockUpperLower,
    /// "█─█"
    BlockDashBlock,
}

impl Glyph {
    /// The text that the glyph stands for.
    pub fn symbol(self) -> (s: &'static str)
        ensures
            s@ == glyph_text(self),
    {
        match self {
            Glyph::Upper => "▀",
            Glyph::Full => "█",
            Glyph::Lower => "▄",
            Glyph::Dark => "▓",
            Glyph::Medium => "▒",
            Glyph::Light => "░",
            Glyph::BlockUpperBlock => "█▀█",
            Glyph::BlockUpper => "█▀",
            Glyph::UpperBlockUpper => "▀█▀",
            Glyph::BlockUpperLower => "█▀▄",
            Glyph::BlockDashBlock => "█─█",
        }
    }
}

/// The characters each glyph draws.
pub open spec fn glyph_text(g: Glyph) -> Seq<char> {
    match g {
        Glyph::Upper => "▀"@,
        Glyph::Full => "█"@,
        Glyph::Lower => "▄"@,
        Glyph::Dark => "▓"@,
        Glyph::Medium => "▒"@,
        Glyph::Light => "░"@,
        Glyph::BlockUpperBlock => "█▀█"@,
        Glyph::BlockUpper => "█▀"@,
        Glyph::UpperBlockUpper => "▀█▀"@,
        Glyph::BlockUpperLower => "█▀▄"@,
        Glyph::BlockDashBlock => "█─█"@,
    }
}

/// The shape of one stroke of the design.
#[derive(Debug, Clone, Copy, PartialEq, Eq, Structural)]
pub enum Stroke {
    /// `len` cells to the right of the start
    Horizontal,
    /// `len` cells down from the start
    Vertical,
    /// `len` cells down and to the right from the start
    Diagonal,
    /// the start cell alone
    Cell,
    /// a run of glyphs written at the start cell, not clipped to the buffer
    Text,
}

/// One stroke of a logo design, placed relative to the logo's top-left cell.
#[derive(Debug, Clone, Copy, PartialEq, Eq, Structural)]
pub struct Prim {
    pub stroke: Stroke,
    pub dx: u16,
    pub dy: u16,
    pub len: u16,
    pub color: LogoColor,
    pub glyph: Glyph,
}

/// A cell that the logo writes: its position, colour and glyph.
#[derive(Debug, Clone, Copy, PartialEq, Eq, Structural)]
pub struct LogoCell {
    pub x: u16,
    pub y: u16,
    pub color: LogoColor,
    pub glyph: Glyph,
}

/// The width of the box that a logo size occupies.
pub open spec fn logo_width(size: NetrunnerLogoSize) -> int {
    match size {
        NetrunnerLogoSize::Tiny => 35,
        NetrunnerLogoSize::Small => 50,
        NetrunnerLogoSize::Medium => 70,
    }
}

/// The height of the box that a logo size occupies.
pub open spec fn logo_height(size: NetrunnerLogoSize) -> int {
    match size {
        NetrunnerLogoSize::Tiny => 3,
        NetrunnerLogoSize::Small => 5,
        NetrunnerLogoSize::Medium => 7,
    }
}

/// The strokes of each logo size, in drawing order (later strokes are
/// written over earlier ones).
pub open spec fn design(size: NetrunnerLogoSize) -> Seq<Prim> {
    match size {
        NetrunnerLogoSize::Medium => seq![
            Prim { stroke: Stroke::Horizontal, dx: 0, dy: 0, len: 8, color: LogoColor::CyanBright, glyph: Glyph::Upper },
            Prim { stroke: Stroke::Horizontal, dx: 10, dy: 0, len: 8, color: LogoColor::Cyan, glyph: Glyph::Upper },
            Prim { stroke: Stroke::Horizontal, dx: 20, dy: 0, len: 8, color: LogoColor::Magenta, glyph: Glyph::Upper },
            Prim { stroke: Stroke::Horizontal, dx: 30, dy: 0, len: 8, color: LogoColor::Cyan, glyph: Glyph::Upper },
            Prim { stroke: Stroke::Horizontal, dx: 40, dy: 0, len: 8, color: LogoColor::Yellow, glyph: Glyph::Upper },
            Prim { stroke: Stroke::Horizontal, dx: 50, dy: 0, len: 8, color: LogoColor::CyanBright, glyph: Glyph::Upper },
            Prim { stroke: Stroke::Horizontal, dx: 60, dy: 0, len: 8, color: LogoColor::GreenNeon, glyph: Glyph::Upper },
            Prim { stroke: Stroke::Vertical, dx: 0, dy: 1, len: 5, color: LogoColor::CyanBright, glyph: Glyph::Full },
            Prim { stroke: Stroke::Diagonal, dx: 1, dy: 1, len: 4, color: LogoColor::CyanBright, glyph: Glyph::Upper },
            Prim { stroke: Stroke::Vertical, dx: 5, dy: 1, len: 5, color: LogoColor::CyanBright, glyph: Glyph::Full },
            Prim { stroke: Stroke::Vertical, dx: 8, dy: 1, len: 5, color: LogoColor::Cyan, glyph: Glyph::Full },
            Prim { stroke: Stroke::Horizontal, dx: 9, dy: 1, len: 3, color: LogoColor::Cyan, glyph: Glyph::Upper },
            Prim { stroke: Stroke::Horizontal, dx: 9, dy: 3, len: 2, color: LogoColor::Cyan, glyph: Glyph::Full },
            Prim { stroke: Stroke::Horizontal, dx: 9, dy: 5, len: 3, color: LogoColor::Cyan, glyph: Glyph::Lower },
            Prim { stroke: Stroke::Horizontal, dx: 14, dy: 1, len: 5, color: LogoColor::Magenta, glyph: Glyph::Upper },
            Prim { stroke: Stroke::Vertical, dx: 16, dy: 2, len: 4, color: LogoColor::Magenta, glyph: Glyph::Full },
            Prim { stroke: Stroke::Vertical, dx: 21, dy: 1, len: 5, color: LogoColor::Cyan, glyph: Glyph::Full },
            Prim { stroke: Stroke::Horizontal, dx: 22, dy: 1, len: 3, color: LogoColor::Cyan, glyph: Glyph::Upper },
            Prim { stroke: Stroke::Cell, dx: 25, dy: 2, len: 1, color: LogoColor::Cyan, glyph: Glyph::Lower },
            Prim { stroke: Stroke::Horizontal, dx: 22, dy: 3, len: 2, color: LogoColor::Cyan, glyph: Glyph::Upper },
            Prim { stroke: Stroke::Diagonal, dx: 24, dy: 4, len: 2, color: LogoColor::Cyan, glyph: Glyph::Lower },
            Prim { stroke: Stroke::Vertical, dx: 28, dy: 1, len: 4, color: LogoColor::Yellow, glyph: Glyph::Full },
            Prim { stroke: Stroke::Horizontal, dx: 29, dy: 5, len: 3, color: LogoColor::Yellow, glyph: Glyph::Lower },
            Prim { stroke: Stroke::Vertical, dx: 32, dy: 1, len: 4, color: LogoColor::Yellow, glyph: Glyph::Full },
            Prim { stroke: Stroke::Vertical, dx: 35, dy: 1, len: 5, color: LogoColor::CyanBright, glyph: Glyph::Full },
            Prim { stroke: Stroke::Diagonal, dx: 36, dy: 1, len: 4, color: LogoColor::CyanBright, glyph: Glyph::Upper },
            Prim { stroke: Stroke::Vertical, dx: 40, dy: 1, len: 5, color: LogoColor::CyanBright, glyph: Glyph::Full },
            Prim { stroke: Stroke::Vertical, dx: 43, dy: 1, len: 5, color: LogoColor::Cyan, glyph: Glyph::Full },
            Prim { stroke: Stroke::Diagonal, dx: 44, dy: 1, len: 4, color: LogoColor::Cyan, glyph: Glyph::Upper },
            Prim { stroke: Stroke::Vertical, dx: 48, dy: 1, len: 5, color: LogoColor::Cyan, glyph: Glyph::Full },
            Prim { stroke: Stroke::Vertical, dx: 51, dy: 1, len: 5, color: LogoColor::GreenNeon, glyph: Glyph::Full },
            Prim { stroke: Stroke::Horizontal, dx: 52, dy: 1, len: 3, color: LogoColor::GreenNeon, glyph: Glyph::Upper },
            Prim { stroke: Stroke::Horizontal, dx: 52, dy: 3, len: 2, color: LogoColor::GreenNeon, glyph: Glyph::Full },
            Prim { stroke: Stroke::Horizontal, dx: 52, dy: 5, len: 3, color: LogoColor::GreenNeon, glyph: Glyph::Lower },
            Prim { stroke: Stroke::Vertical, dx: 57, dy: 1, len: 5, color: LogoColor::Magenta, glyph: Glyph::Full },
            Prim { stroke: Stroke::Horizontal, dx: 58, dy: 1, len: 3, color: LogoColor::Magenta, glyph: Glyph::Upper },
            Prim { stroke: Stroke::Cell, dx: 61, dy: 2, len: 1, color: LogoColor::Magenta, glyph: Glyph::Lower },
            Prim { stroke: Stroke::Horizontal, dx: 58, dy: 3, len: 2, color: LogoColor::Magenta, glyph: Glyph::Upper },
            Prim { stroke: Stroke::Diagonal, dx: 60, dy: 4, len: 2, color: LogoColor::Magenta, glyph: Glyph::Lower },
            Prim { stroke: Stroke::Horizontal, dx: 0, dy: 6, len: 10, color: LogoColor::CyanDim, glyph: Glyph::Lower },
            Prim { stroke: Stroke::Horizontal, dx: 15, dy: 6, len: 8, color: LogoColor::CyanBright, glyph: Glyph::Lower },
            Prim { stroke: Stroke::Horizontal, dx: 28, dy: 6, len: 10, color: LogoColor::Magenta, glyph: Glyph::Lower },
            Prim { stroke: Stroke::Horizontal, dx: 43, dy: 6, len: 12, color: LogoColor::Cyan, glyph: Glyph::Lower },
            Prim { stroke: Stroke::Horizontal, dx: 58, dy: 6, len: 8, color: LogoColor::GreenNeon, glyph: Glyph::Lower },
            Prim { stroke: Stroke::Cell, dx: 12, dy: 1, len: 1, color: LogoColor::Magenta, glyph: Glyph::Dark },
            Prim { stroke: Stroke::Cell, dx: 26, dy: 4, len: 1, color: LogoColor::CyanBright, glyph: Glyph::Medium },
            Prim { stroke: Stroke::Cell, dx: 41, dy: 2, len: 1, color: LogoColor::Yellow, glyph: Glyph::Light },
            Prim { stroke: Stroke::Cell, dx: 55, dy: 5, len: 1, color: LogoColor::Cyan, glyph: Glyph::Dark },
        ],
        NetrunnerLogoSize::Small => seq![
            Prim { stroke: Stroke::Horizontal, dx: 0, dy: 0, len: 10, color: LogoColor::CyanBright, glyph: Glyph::Upper },
            Prim { stroke: Stroke::Horizontal, dx: 15, dy: 0, len: 10, color: LogoColor::Magenta, glyph: Glyph::Upper },
            Prim { stroke: Stroke::Horizontal, dx: 30, dy: 0, len: 10, color: LogoColor::GreenNeon, glyph: Glyph::Upper },
            Prim { stroke: Stroke::Vertical, dx: 0, dy: 1, len: 3, color: LogoColor::CyanBright, glyph: Glyph::Full },
            Prim { stroke: Stroke::Diagonal, dx: 1, dy: 1, len: 2, color: LogoColor::CyanBright, glyph: Glyph::Upper },
            Prim { stroke: Stroke::Vertical, dx: 3, dy: 1, len: 3, color: LogoColor::CyanBright, glyph: Glyph::Full },
            Prim { stroke: Stroke::Vertical, dx: 6, dy: 1, len: 3, color: LogoColor::Cyan, glyph: Glyph::Full },
            Prim { stroke: Stroke::Horizontal, dx: 7, dy: 1, len: 2, color: LogoColor::Cyan, glyph: Glyph::Upper },
            Prim { stroke: Stroke::Horizontal, dx: 7, dy: 3, len: 2, color: LogoColor::Cyan, glyph: Glyph::Lower },
            Prim { stroke: Stroke::Horizontal, dx: 11, dy: 1, len: 3, color: LogoColor::Magenta, glyph: Glyph::Upper },
            Prim { stroke: Stroke::Vertical, dx: 12, dy: 2, len: 2, color: LogoColor::Magenta, glyph: Glyph::Full },
            Prim { stroke: Stroke::Vertical, dx: 16, dy: 1, len: 3, color: LogoColor::Cyan, glyph: Glyph::Full },
            Prim { stroke: Stroke::Horizontal, dx: 17, dy: 1, len: 2, color: LogoColor::Cyan, glyph: Glyph::Upper },
            Prim { stroke: Stroke::Diagonal, dx: 18, dy: 2, len: 2, color: LogoColor::Cyan, glyph: Glyph::Lower },
            Prim { stroke: Stroke::Vertical, dx: 21, dy: 1, len: 2, color: LogoColor::Yellow, glyph: Glyph::Full },
            Prim { stroke: Stroke::Horizontal, dx: 22, dy: 3, len: 2, color: LogoColor::Yellow, glyph: Glyph::Lower },
            Prim { stroke: Stroke::Vertical, dx: 24, dy: 1, len: 2, color: LogoColor::Yellow, glyph: Glyph::Full },
            Prim { stroke: Stroke::Vertical, dx: 27, dy: 1, len: 3, color: LogoColor::CyanBright, glyph: Glyph::Full },
            Prim { stroke: Stroke::Diagonal, dx: 28, dy: 1, len: 2, color: LogoColor::CyanBright, glyph: Glyph::Upper },
            Prim { stroke: Stroke::Vertical, dx: 30, dy: 1, len: 3, color: LogoColor::CyanBright, glyph: Glyph::Full },
            Prim { stroke: Stroke::Vertical, dx: 33, dy: 1, len: 3, color: LogoColor::Cyan, glyph: Glyph::Full },
            Prim { stroke: Stroke::Diagonal, dx: 34, dy: 1, len: 2, color: LogoColor::Cyan, glyph: Glyph::Upper },
            Prim { stroke: Stroke::Vertical, dx: 36, dy: 1, len: 3, color: LogoColor::Cyan, glyph: Glyph::Full },
            Prim { stroke: Stroke::Vertical, dx: 39, dy: 1, len: 3, color: LogoColor::GreenNeon, glyph: Glyph::Full },
            Prim { stroke: Stroke::Horizontal, dx: 40, dy: 1, len: 2, color: LogoColor::GreenNeon, glyph: Glyph::Upper },
            Prim { stroke: Stroke::Horizontal, dx: 40, dy: 3, len: 2, color: LogoColor::GreenNeon, glyph: Glyph::Lower },
            Prim { stroke: Stroke::Vertical, dx: 44, dy: 1, len: 3, color: LogoColor::Magenta, glyph: Glyph::Full },
            Prim { stroke: Stroke::Horizontal, dx: 45, dy: 1, len: 2, color: LogoColor::Magenta, glyph: Glyph::Upper },
            Prim { stroke: Stroke::Diagonal, dx: 46, dy: 2, len: 2, color: LogoColor::Magenta, glyph: Glyph::Lower },
            Prim { stroke: Stroke::Horizontal, dx: 0, dy: 4, len: 15, color: LogoColor::CyanDim, glyph: Glyph::Lower },
            Prim { stroke: Stroke::Horizontal, dx: 20, dy: 4, len: 15, color: LogoColor::CyanBright, glyph: Glyph::Lower },
            Prim { stroke: Stroke::Horizontal, dx: 40, dy: 4, len: 10, color: LogoColor::Magenta, glyph: Glyph::Lower },
        ],
        NetrunnerLogoSize::Tiny => seq![
            Prim { stroke: Stroke::Horizontal, dx: 0, dy: 0, len: 12, color: LogoColor::CyanBright, glyph: Glyph::Upper },
            Prim { stroke: Stroke::Horizontal, dx: 15, dy: 0, len: 12, color: LogoColor::Magenta, glyph: Glyph::Upper },
            Prim { stroke: Stroke::Text, dx: 0, dy: 1, len: 1, color: LogoColor::CyanBright, glyph: Glyph::BlockUpperBlock },
            Prim { stroke: Stroke::Text, dx: 4, dy: 1, len: 1, color: LogoColor::Cyan, glyph: Glyph::BlockUpper },
            Prim { stroke: Stroke::Text, dx: 7, dy: 1, len: 1, color: LogoColor::Magenta, glyph: Glyph::UpperBlockUpper },
            Prim { stroke: Stroke::Text, dx: 11, dy: 1, len: 1, color: LogoColor::Cyan, glyph: Glyph::BlockUpperLower },
            Prim { stroke: Stroke::Text, dx: 15, dy: 1, len: 1, color: LogoColor::Yellow, glyph: Glyph::BlockDashBlock },
            Prim { stroke: Stroke::Text, dx: 19, dy: 1, len: 1, color: LogoColor::CyanBright, glyph: Glyph::BlockUpperBlock },
            Prim { stroke: Stroke::Text, dx: 23, dy: 1, len: 1, color: LogoColor::Cyan, glyph: Glyph::BlockUpperBlock },
            Prim { stroke: Stroke::Text, dx: 27, dy: 1, len: 1, color: LogoColor::GreenNeon, glyph: Glyph::BlockUpper },
            Prim { stroke: Stroke::Text, dx: 30, dy: 1, len: 1, color: LogoColor::Magenta, glyph: Glyph::BlockUpperLower },
            Prim { stroke: Stroke::Horizontal, dx: 0, dy: 2, len: 35, color: LogoColor::CyanDim, glyph: Glyph::Lower },
        ],
    }
}

/// How many cells a stroke covers.
pub open spec fn stroke_len(p: Prim) -> int {
    match p.stroke {
        Stroke::Cell | Stroke::Text => 1,
        _ => p.len as int,
    }
}

/// The column of the `i`-th cell of a stroke that starts from logo origin `ox`.
pub open spec fn stroke_x(p: Prim, ox: int, i: int) -> int {
    match p.stroke {
        Stroke::Horizontal | Stroke::Diagonal => ox + p.dx + i,
        _ => ox + p.dx,
    }
}

/// The row of the `i`-th cell of a stroke that starts from logo origin `oy`.
pub open spec fn stroke_y(p: Prim, oy: int, i: int) -> int {
    match p.stroke {
        Stroke::Vertical | Stroke::Diagonal => oy + p.dy + i,
        _ => oy + p.dy,
    }
}

/// Whether a cell is written: text runs always are, single cells only when
/// they lie before the buffer's right and bottom edges.
pub open spec fn is_drawn(p: Prim, x: int, y: int, buffer: Area) -> bool {
    p.stroke == Stroke::Text || (x < buffer.right() && y < buffer.bottom())
}

/// The cells written for the first `k` cells of a stroke.
pub open spec fn stroke_cells(p: Prim, ox: int, oy: int, buffer: Area, k: nat) -> Seq<LogoCell>
    decreases k,
{
    if k == 0 {
        Seq::empty()
    } else {
        let x = stroke_x(p, ox, k - 1);
        let y = stroke_y(p, oy, k - 1);
        let before = stroke_cells(p, ox, oy, buffer, (k - 1) as nat);
        if is_drawn(p, x, y, buffer) {
            before.push(LogoCell { x: x as u16, y: y as u16, color: p.color, glyph: p.glyph })
        } else {
            before
        }
    }
}

/// The cells written for a sequence of strokes, in order.
pub open spec fn draw_strokes(prims: Seq<Prim>, ox: int, oy: int, buffer: Area) -> Seq<LogoCell>
    decreases prims.len(),
{
    if prims.len() == 0 {
        Seq::empty()
    } else {
        let last = prims.last();
        draw_strokes(prims.drop_last(), ox, oy, buffer) + stroke_cells(
            last,
            ox,
            oy,
            buffer,
            stroke_len(last) as nat,
        )
    }
}

/// Whether the area is large enough for the logo.
pub open spec fn fits(size: NetrunnerLogoSize, area: Area) -> bool {
    area.width >= logo_width(size) && area.height >= logo_height(size)
}

/// The logo's top-left column: centred horizontally in the area.
pub open spec fn origin_x(size: NetrunnerLogoSize, area: Area) -> int {
    area.x + (area.width - logo_width(size)) / 2
}

/// The logo's top-left row: centred vertically in the area.
pub open spec fn origin_y(size: NetrunnerLogoSize, area: Area) -> int {
    area.y + (area.height - logo_height(size)) / 2
}

/// The cells the logo writes when rendered into `area` of a buffer whose
/// bounds are `buffer`: nothing when the area is too small, otherwise the
/// design's strokes drawn from the centred origin.
pub open spec fn logo_cells(size: NetrunnerLogoSize, area: Area, buffer: Area) -> Seq<LogoCell> {
    if fits(size, area) {
        draw_strokes(design(size), origin_x(size, area), origin_y(size, area), buffer)
    } else {
        Seq::empty()
    }
}

/// Whether a glyph is a run of several glyphs (written by a text stroke).
pub open spec fn is_run(g: Glyph) -> bool {
    match g {
        Glyph::BlockUpperBlock | Glyph::BlockUpper | Glyph::UpperBlockUpper
        | Glyph::BlockUpperLower | Glyph::BlockDashBlock => true,
        _ => false,
    }
}

/// A stroke stays inside a `w` by `h` box, and writes runs exactly when it
/// is a text stroke.
pub open spec fn stroke_fits(p: Prim, w: int, h: int) -> bool {
    &&& p.len >= 1
    &&& (p.stroke == Stroke::Text) == is_run(p.glyph)
    &&& stroke_x(p, 0, stroke_len(p) - 1) < w
    &&& stroke_y(p, 0, stroke_len(p) - 1) < h
}

/// Every stroke of a design stays inside the logo's box.
pub open spec fn design_fits(size: NetrunnerLogoSize) -> bool {
    forall|i: int|
        0 <= i < design(size).len() ==> stroke_fits(
            #[trigger] design(size)[i],
            logo_width(size),
            logo_height(size),
        )
}

/// Every design stays inside its logo's box.
pub proof fn lemma_design_fits(size: NetrunnerLogoSize)
    ensures
        design_fits(size),
{
}

/// The design of a logo size, as a vector of strokes.
pub fn design_of(size: NetrunnerLogoSize) -> (v: Vec<Prim>)
    ensures
        v@ == design(size),
        design_fits(size),
{
    proof {
        lemma_design_fits(size);
    }
    match size {
        NetrunnerLogoSize::Medium => vec![
            Prim { stroke: Stroke::Horizontal, dx: 0, dy: 0, len: 8, color: LogoColor::CyanBright, glyph: Glyph::Upper },
            Prim { stroke: Stroke::Horizontal, dx: 10, dy: 0, len: 8, color: LogoColor::Cyan, glyph: Glyph::Upper },
            Prim { stroke: Stroke::Horizontal, dx: 20, dy: 0, len: 8, color: LogoColor::Magenta, glyph: Glyph::Upper },
            Prim { stroke: Stroke::Horizontal, dx: 30, dy: 0, len: 8, color: LogoColor::Cyan, glyph: Glyph::Upper },
            Prim { stroke: Stroke::Horizontal, dx: 40, dy: 0, len: 8, color: LogoColor::Yellow, glyph: Glyph::Upper },
            Prim { stroke: Stroke::Horizontal, dx: 50, dy: 0, len: 8, color: LogoColor::CyanBright, glyph: Glyph::Upper },
            Prim { stroke: Stroke::Horizontal, dx: 60, dy: 0, len: 8, color: LogoColor::GreenNeon, glyph: Glyph::Upper },
            Prim { stroke: Stroke::Vertical, dx: 0, dy: 1, len: 5, color: LogoColor::CyanBright, glyph: Glyph::Full },
            Prim { stroke: Stroke::Diagonal, dx: 1, dy: 1, len: 4, color: LogoColor::CyanBright, glyph: Glyph::Upper },
            Prim { stroke: Stroke::Vertical, dx: 5, dy: 1, len: 5, color: LogoColor::CyanBright, glyph: Glyph::Full },
            Prim { stroke: Stroke::Vertical, dx: 8, dy: 1, len: 5, color: LogoColor::Cyan, glyph: Glyph::Full },
            Prim { stroke: Stroke::Horizontal, dx: 9, dy: 1, len: 3, color: LogoColor::Cyan, glyph: Glyph::Upper },
            Prim { stroke: Stroke::Horizontal, dx: 9, dy: 3, len: 2, color: LogoColor::Cyan, glyph: Glyph::Full },
            Prim { stroke: Stroke::Horizontal, dx: 9, dy: 5, len: 3, color: LogoColor::Cyan, glyph: Glyph::Lower },
            Prim { stroke: Stroke::Horizontal, dx: 14, dy: 1, len: 5, color: LogoColor::Magenta, glyph: Glyph::Upper },
            Prim { stroke: Stroke::Vertical, dx: 16, dy: 2, len: 4, color: LogoColor::Magenta, glyph: Glyph::Full },
            Prim { stroke: Stroke::Vertical, dx: 21, dy: 1, len: 5, color: LogoColor::Cyan, glyph: Glyph::Full },
            Prim { stroke: Stroke::Horizontal, dx: 22, dy: 1, len: 3, color: LogoColor::Cyan, glyph: Glyph::Upper },
            Prim { stroke: Stroke::Cell, dx: 25, dy: 2, len: 1, color: LogoColor::Cyan, glyph: Glyph::Lower },
            Prim { stroke: Stroke::Horizontal, dx: 22, dy: 3, len: 2, color: LogoColor::Cyan, glyph: Glyph::Upper },
            Prim { stroke: Stroke::Diagonal, dx: 24, dy: 4, len: 2, color: LogoColor::Cyan, glyph: Glyph::Lower },
            Prim { stroke: Stroke::Vertical, dx: 28, dy: 1, len: 4, color: LogoColor::Yellow, glyph: Glyph::Full },
            Prim { stroke: Stroke::Horizontal, dx: 29, dy: 5, len: 3, color: LogoColor::Yellow, glyph: Glyph::Lower },
            Prim { stroke: Stroke::Vertical, dx: 32, dy: 1, len: 4, color: LogoColor::Yellow, glyph: Glyph::Full },
            Prim { stroke: Stroke::Vertical, dx: 35, dy: 1, len: 5, color: LogoColor::CyanBright, glyph: Glyph::Full },
            Prim { stroke: Stroke::Diagonal, dx: 36, dy: 1, len: 4, color: LogoColor::CyanBright, glyph: Glyph::Upper },
            Prim { stroke: Stroke::Vertical, dx: 40, dy: 1, len: 5, color: LogoColor::CyanBright, glyph: Glyph::Full },
            Prim { stroke: Stroke::Vertical, dx: 43, dy: 1, len: 5, color: LogoColor::Cyan, glyph: Glyph::Full },
            Prim { stroke: Stroke::Diagonal, dx: 44, dy: 1, len: 4, color: LogoColor::Cyan, glyph: Glyph::Upper },
            Prim { stroke: Stroke::Vertical, dx: 48, dy: 1, len: 5, color: LogoColor::Cyan, glyph: Glyph::Full },
            Prim { stroke: Stroke::Vertical, dx: 51, dy: 1, len: 5, color: LogoColor::GreenNeon, glyph: Glyph::Full },
            Prim { stroke: Stroke::Horizontal, dx: 52, dy: 1, len: 3, color: LogoColor::GreenNeon, glyph: Glyph::Upper },
            Prim { stroke: Stroke::Horizontal, dx: 52, dy: 3, len: 2, color: LogoColor::GreenNeon, glyph: Glyph::Full },
            Prim { stroke: Stroke::Horizontal, dx: 52, dy: 5, len: 3, color: LogoColor::GreenNeon, glyph: Glyph::Lower },
            Prim { stroke: Stroke::Vertical, dx: 57, dy: 1, len: 5, color: LogoColor::Magenta, glyph: Glyph::Full },
            Prim { stroke: Stroke::Horizontal, dx: 58, dy: 1, len: 3, color: LogoColor::Magenta, glyph: Glyph::Upper },
            Prim { stroke: Stroke::Cell, dx: 61, dy: 2, len: 1, color: LogoColor::Magenta, glyph: Glyph::Lower },
            Prim { stroke: Stroke::Horizontal, dx: 58, dy: 3, len: 2, color: LogoColor::Magenta, glyph: Glyph::Upper },
            Prim { stroke: Stroke::Diagonal, dx: 60, dy: 4, len: 2, color: LogoColor::Magenta, glyph: Glyph::Lower },
            Prim { stroke: Stroke::Horizontal, dx: 0, dy: 6, len: 10, color: LogoColor::CyanDim, glyph: Glyph::Lower },
            Prim { stroke: Stroke::Horizontal, dx: 15, dy: 6, len: 8, color: LogoColor::CyanBright, glyph: Glyph::Lower },
            Prim { stroke: Stroke::Horizontal, dx: 28, dy: 6, len: 10, color: LogoColor::Magenta, glyph: Glyph::Lower },
            Prim { stroke: Stroke::Horizontal, dx: 43, dy: 6, len: 12, color: LogoColor::Cyan, glyph: Glyph::Lower },
            Prim { stroke: Stroke::Horizontal, dx: 58, dy: 6, len: 8, color: LogoColor::GreenNeon, glyph: Glyph::Lower },
            Prim { stroke: Stroke::Cell, dx: 12, dy: 1, len: 1, color: LogoColor::Magenta, glyph: Glyph::Dark },
            Prim { stroke: Stroke::Cell, dx: 26, dy: 4, len: 1, color: LogoColor::CyanBright, glyph: Glyph::Medium },
            Prim { stroke: Stroke::Cell, dx: 41, dy: 2, len: 1, color: LogoColor::Yellow, glyph: Glyph::Light },
            Prim { stroke: Stroke::Cell, dx: 55, dy: 5, len: 1, color: LogoColor::Cyan, glyph: Glyph::Dark },
        ],
        NetrunnerLogoSize::Small => vec![
            Prim { stroke: Stroke::Horizontal, dx: 0, dy: 0, len: 10, color: LogoColor::CyanBright, glyph: Glyph::Upper },
            Prim { stroke: Stroke::Horizontal, dx: 15, dy: 0, len: 10, color: LogoColor::Magenta, glyph: Glyph::Upper },
            Prim { stroke: Stroke::Horizontal, dx: 30, dy: 0, len: 10, color: LogoColor::GreenNeon, glyph: Glyph::Upper },
            Prim { stroke: Stroke::Vertical, dx: 0, dy: 1, len: 3, color: LogoColor::CyanBright, glyph: Glyph::Full },
            Prim { stroke: Stroke::Diagonal, dx: 1, dy: 1, len: 2, color: LogoColor::CyanBright, glyph: Glyph::Upper },
            Prim { stroke: Stroke::Vertical, dx: 3, dy: 1, len: 3, color: LogoColor::CyanBright, glyph: Glyph::Full },
            Prim { stroke: Stroke::Vertical, dx: 6, dy: 1, len: 3, color: LogoColor::Cyan, glyph: Glyph::Full },
            Prim { stroke: Stroke::Horizontal, dx: 7, dy: 1, len: 2, color: LogoColor::Cyan, glyph: Glyph::Upper },
            Prim { stroke: Stroke::Horizontal, dx: 7, dy: 3, len: 2, color: LogoColor::Cyan, glyph: Glyph::Lower },
            Prim { stroke: Stroke::Horizontal, dx: 11, dy: 1, len: 3, color: LogoColor::Magenta, glyph: Glyph::Upper },
            Prim { stroke: Stroke::Vertical, dx: 12, dy: 2, len: 2, color: LogoColor::Magenta, glyph: Glyph::Full },
            Prim { stroke: Stroke::Vertical, dx: 16, dy: 1, len: 3, color: LogoColor::Cyan, glyph: Glyph::Full },
            Prim { stroke: Stroke::Horizontal, dx: 17, dy: 1, len: 2, color: LogoColor::Cyan, glyph: Glyph::Upper },
            Prim { stroke: Stroke::Diagonal, dx: 18, dy: 2, len: 2, color: LogoColor::Cyan, glyph: Glyph::Lower },
            Prim { stroke: Stroke::Vertical, dx: 21, dy: 1, len: 2, color: LogoColor::Yellow, glyph: Glyph::Full },
            Prim { stroke: Stroke::Horizontal, dx: 22, dy: 3, len: 2, color: LogoColor::Yellow, glyph: Glyph::Lower },
            Prim { stroke: Stroke::Vertical, dx: 24, dy: 1, len: 2, color: LogoColor::Yellow, glyph: Glyph::Full },
            Prim { stroke: Stroke::Vertical, dx: 27, dy: 1, len: 3, color: LogoColor::CyanBright, glyph: Glyph::Full },
            Prim { stroke: Stroke::Diagonal, dx: 28, dy: 1, len: 2, color: LogoColor::CyanBright, glyph: Glyph::Upper },
            Prim { stroke: Stroke::Vertical, dx: 30, dy: 1, len: 3, color: LogoColor::CyanBright, glyph: Glyph::Full },
            Prim { stroke: Stroke::Vertical, dx: 33, dy: 1, len: 3, color: LogoColor::Cyan, glyph: Glyph::Full },
            Prim { stroke: Stroke::Diagonal, dx: 34, dy: 1, len: 2, color: LogoColor::Cyan, glyph: Glyph::Upper },
            Prim { stroke: Stroke::Vertical, dx: 36, dy: 1, len: 3, color: LogoColor::Cyan, glyph: Glyph::Full },
            Prim { stroke: Stroke::Vertical, dx: 39, dy: 1, len: 3, color: LogoColor::GreenNeon, glyph: Glyph::Full },
            Prim { stroke: Stroke::Horizontal, dx: 40, dy: 1, len: 2, color: LogoColor::GreenNeon, glyph: Glyph::Upper },
            Prim { stroke: Stroke::Horizontal, dx: 40, dy: 3, len: 2, color: LogoColor::GreenNeon, glyph: Glyph::Lower },
            Prim { stroke: Stroke::Vertical, dx: 44, dy: 1, len: 3, color: LogoColor::Magenta, glyph: Glyph::Full },
            Prim { stroke: Stroke::Horizontal, dx: 45, dy: 1, len: 2, color: LogoColor::Magenta, glyph: Glyph::Upper },
            Prim { stroke: Stroke::Diagonal, dx: 46, dy: 2, len: 2, color: LogoColor::Magenta, glyph: Glyph::Lower },
            Prim { stroke: Stroke::Horizontal, dx: 0, dy: 4, len: 15, color: LogoColor::CyanDim, glyph: Glyph::Lower },
            Prim { stroke: Stroke::Horizontal, dx: 20, dy: 4, len: 15, color: LogoColor::CyanBright, glyph: Glyph::Lower },
            Prim { stroke: Stroke::Horizontal, dx: 40, dy: 4, len: 10, color: LogoColor::Magenta, glyph: Glyph::Lower },
        ],
        NetrunnerLogoSize::Tiny => vec![
            Prim { stroke: Stroke::Horizontal, dx: 0, dy: 0, len: 12, color: LogoColor::CyanBright, glyph: Glyph::Upper },
            Prim { stroke: Stroke::Horizontal, dx: 15, dy: 0, len: 12, color: LogoColor::Magenta, glyph: Glyph::Upper },
            Prim { stroke: Stroke::Text, dx: 0, dy: 1, len: 1, color: LogoColor::CyanBright, glyph: Glyph::BlockUpperBlock },
            Prim { stroke: Stroke::Text, dx: 4, dy: 1, len: 1, color: LogoColor::Cyan, glyph: Glyph::BlockUpper },
            Prim { stroke: Stroke::Text, dx: 7, dy: 1, len: 1, color: LogoColor::Magenta, glyph: Glyph::UpperBlockUpper },
            Prim { stroke: Stroke::Text, dx: 11, dy: 1, len: 1, color: LogoColor::Cyan, glyph: Glyph::BlockUpperLower },
            Prim { stroke: Stroke::Text, dx: 15, dy: 1, len: 1, color: LogoColor::Yellow, glyph: Glyph::BlockDashBlock },
            Prim { stroke: Stroke::Text, dx: 19, dy: 1, len: 1, color: LogoColor::CyanBright, glyph: Glyph::BlockUpperBlock },
            Prim { stroke: Stroke::Text, dx: 23, dy: 1, len: 1, color: LogoColor::Cyan, glyph: Glyph::BlockUpperBlock },
            Prim { stroke: Stroke::Text, dx: 27, dy: 1, len: 1, color: LogoColor::GreenNeon, glyph: Glyph::BlockUpper },
            Prim { stroke: Stroke::Text, dx: 30, dy: 1, len: 1, color: LogoColor::Magenta, glyph: Glyph::BlockUpperLower },
            Prim { stroke: Stroke::Horizontal, dx: 0, dy: 2, len: 35, color: LogoColor::CyanDim, glyph: Glyph::Lower },
        ],
    }
}

/// The cells of a stroke that fits a `w` by `h` box drawn from `(ox, oy)`
/// lie in that box, and those that are not runs lie before the buffer's
/// edges.
proof fn lemma_stroke_cells_placed(p: Prim, ox: int, oy: int, w: int, h: int, buffer: Area, k: nat)
    requires
        stroke_fits(p, w, h),
        k <= stroke_len(p),
        0 <= ox,
        0 <= oy,
        ox + w <= 0xFFFF,
        oy + h <= 0xFFFF,
    ensures
        forall|n: int|
            0 <= n < stroke_cells(p, ox, oy, buffer, k).len() ==> cell_placed(
                #[trigger] stroke_cells(p, ox, oy, buffer, k)[n],
                ox,
                oy,
                w,
                h,
                buffer,
            ),
    decreases k,
{
    if k > 0 {
        lemma_stroke_cells_placed(p, ox, oy, w, h, buffer, (k - 1) as nat);
        let x = stroke_x(p, ox, k - 1);
        let y = stroke_y(p, oy, k - 1);
        assert(ox <= x <= ox + stroke_x(p, 0, stroke_len(p) - 1));
        assert(oy <= y <= oy + stroke_y(p, 0, stroke_len(p) - 1));
        let before = stroke_cells(p, ox, oy, buffer, (k - 1) as nat);
        if is_drawn(p, x, y, buffer) {
            let c = LogoCell { x: x as u16, y: y as u16, color: p.color, glyph: p.glyph };
            assert(c.x == x && c.y == y);
            assert(cell_placed(c, ox, oy, w, h, buffer));
            assert forall|n: int| 0 <= n < before.push(c).len() implies cell_placed(
                #[trigger] before.push(c)[n],
                ox,
                oy,
                w,
                h,
                buffer,
            ) by {
                if n < before.len() {
                    assert(before.push(c)[n] == before[n]);
                }
            }
        }
    }
}

/// A written cell lies in the `w` by `h` box at `(ox, oy)`, and unless it
/// starts a run it lies before the buffer's right and bottom edges.
pub open spec fn cell_placed(c: LogoCell, ox: int, oy: int, w: int, h: int, buffer: Area) -> bool {
    &&& ox <= c.x < ox + w
    &&& oy <= c.y < oy + h
    &&& !is_run(c.glyph) ==> c.x < buffer.right() && c.y < buffer.bottom()
}

proof fn lemma_draw_strokes_placed(prims: Seq<Prim>, ox: int, oy: int, w: int, h: int, buffer: Area)
    requires
        forall|i: int| 0 <= i < prims.len() ==> stroke_fits(#[trigger] prims[i], w, h),
        0 <= ox,
        0 <= oy,
        ox + w <= 0xFFFF,
        oy + h <= 0xFFFF,
    ensures
        forall|n: int|
            0 <= n < draw_strokes(prims, ox, oy, buffer).len() ==> cell_placed(
                #[trigger] draw_strokes(prims, ox, oy, buffer)[n],
                ox,
                oy,
                w,
                h,
                buffer,
            ),
    decreases prims.len(),
{
    if prims.len() > 0 {
        let last = prims.last();
        assert(stroke_fits(prims[prims.len() - 1], w, h));
        lemma_draw_strokes_placed(prims.drop_last(), ox, oy, w, h, buffer);
        lemma_stroke_cells_placed(last, ox, oy, w, h, buffer, stroke_len(last) as nat);
        let a = draw_strokes(prims.drop_last(), ox, oy, buffer);
        let b = stroke_cells(last, ox, oy, buffer, stroke_len(last) as nat);
        assert forall|n: int| 0 <= n < (a + b).len() implies cell_placed(
            #[trigger] (a + b)[n],
            ox,
            oy,
            w,
            h,
            buffer,
        ) by {
            if n < a.len() {
                assert((a + b)[n] == a[n]);
            } else {
                assert((a + b)[n] == b[n - a.len()]);
            }
        }
    }
}

/// Every cell the logo writes lies inside the area it is rendered into,
/// within the logo's box centred there; every single-glyph cell also lies
/// before the right and bottom edges of the buffer.
pub proof fn lemma_logo_cells_placed(size: NetrunnerLogoSize, area: Area, buffer: Area)
    requires
        area.in_range(),
    ensures
        forall|n: int|
            0 <= n < logo_cells(size, area, buffer).len() ==> {
                let c = #[trigger] logo_cells(size, area, buffer)[n];
                &&& area.x <= c.x < area.x + area.width
                &&& area.y <= c.y < area.y + area.height
                &&& cell_placed(
                    c,
                    origin_x(size, area),
                    origin_y(size, area),
                    logo_width(size),
                    logo_height(size),
                    buffer,
                )
            },
{
    if fits(size, area) {
        lemma_design_fits(size);
        lemma_draw_strokes_placed(
            design(size),
            origin_x(size, area),
            origin_y(size, area),
            logo_width(size),
            logo_height(size),
            buffer,
        );
    }
}

impl NetrunnerLogo {
    /// Creates a new Netrunner logo with the specified size
    pub fn new(size: NetrunnerLogoSize) -> (l: Self)
        ensures
            l.size == size,
    {
        NetrunnerLogo { size }
    }

    /// The cells the logo writes when rendered into `area` of a buffer whose
    /// bounds are `buffer`, in writing order.
    pub fn cells(&self, area: Area, buffer: Area) -> (out: Vec<LogoCell>)
        requires
            area.in_range(),
        ensures
            out@ == logo_cells(self.size, area, buffer),
    {
        let size = self.size;
        let (w, h): (u16, u16) = match size {
            NetrunnerLogoSize::Tiny => (35, 3),
            NetrunnerLogoSize::Small => (50, 5),
            NetrunnerLogoSize::Medium => (70, 7),
        };
        if area.width < w || area.height < h {
            return Vec::new();
        }
        let ox: u16 = area.x + (area.width - w) / 2;
        let oy: u16 = area.y + (area.height - h) / 2;
        let right = right_edge(buffer);
        let bottom = bottom_edge(buffer);
        let prims = design_of(size);
        let mut out: Vec<LogoCell> = Vec::new();
        let mut j: usize = 0;
        while j < prims.len()
            invariant
                prims@ == design(size),
                design_fits(size),
                w == logo_width(size),
                h == logo_height(size),
                fits(size, area),
                area.in_range(),
                ox == origin_x(size, area),
                oy == origin_y(size, area),
                right == buffer.right(),
                bottom == buffer.bottom(),
                j <= prims.len(),
                out@ == draw_strokes(prims@.take(j as int), ox as int, oy as int, buffer),
            decreases prims.len() - j,
        {
            let p = prims[j];
            assert(stroke_fits(p, w as int, h as int));
            let count: u16 = match p.stroke {
                Stroke::Cell | Stroke::Text => 1,
                _ => p.len,
            };
            let ghost before = out@;
            let mut i: u16 = 0;
            while i < count
                invariant
                    p == design(size)[j as int],
                    stroke_fits(p, w as int, h as int),
                    count == stroke_len(p),
                    w == logo_width(size),
                    h == logo_height(size),
                    fits(size, area),
                    area.in_range(),
                    ox == origin_x(size, area),
                    oy == origin_y(size, area),
                    right == buffer.right(),
                    bottom == buffer.bottom(),
                    i <= count,
                    out@ == before + stroke_cells(p, ox as int, oy as int, buffer, i as nat),
                decreases count - i,
            {
                let x: u16 = match p.stroke {
                    Stroke::Horizontal | Stroke::Diagonal => ox + p.dx + i,
                    _ => ox + p.dx,
                };
                let y: u16 = match p.stroke {
                    Stroke::Vertical | Stroke::Diagonal => oy + p.dy + i,
                    _ => oy + p.dy,
                };
                if p.stroke == Stroke::Text || (x < right && y < bottom) {
                    out.push(LogoCell { x, y, color: p.color, glyph: p.glyph });
                }
                i = i + 1;
            }
            assert(prims@.take(j + 1).drop_last() =~= prims@.take(j as int));
            j = j + 1;
        }
        assert(prims@.take(prims@.len() as int) =~= prims@);
        out
    }
}

} // verus!
