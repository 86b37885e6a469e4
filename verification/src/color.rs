//! Colors and cells of the character grid, and the ANSI color tables.

use vstd::prelude::*;

verus! {

/// Palette index of black.
pub const BLACK: u8 = 0;

/// Palette index of white.
pub const WHITE: u8 = 15;

/// Palette index that marks a transparent color: drawing with it keeps the
/// color that a cell already has.
pub const TRANSPARENT: u8 = 16;

/// A foreground or background color: one of the seventeen palette entries
/// (indices 0 to 16, the last being "transparent"), or a 24-bit color.
#[derive(Clone, Copy, Debug, PartialEq, Eq, Structural)]
pub enum Color {
    Palette(u8),
    Rgb(u8, u8, u8),
}

impl Color {
    /// A palette color names an existing palette entry.
    pub open spec fn valid(self) -> bool {
        match self {
            Color::Palette(i) => i <= TRANSPARENT,
            Color::Rgb(_, _, _) => true,
        }
    }

    /// A color that replaces what it is drawn over.
    pub open spec fn opaque(self) -> bool {
        match self {
            Color::Palette(i) => i < TRANSPARENT,
            Color::Rgb(_, _, _) => true,
        }
    }
}

/// Flag bit of a cell drawn bold.
pub const BOLD: u16 = 0x0001;

/// Flag bit of a cell drawn italic.
pub const ITALIC: u16 = 0x0002;

/// Flag bit of a cell drawn underlined.
pub const UNDERLINE: u16 = 0x0004;

/// All the flag bits that a cell can carry.
pub const ALL_FLAGS: u16 = 0x007F;

/// One cell of the grid: a character, its two colors and its style flags.
#[derive(Clone, Copy, Debug, PartialEq, Eq, Structural)]
pub struct Cell {
    pub code: char,
    pub foreground: Color,
    pub background: Color,
    pub flags: u16,
}

impl Cell {
    /// Both colors exist and no unknown flag bit is set.
    pub open spec fn valid(self) -> bool {
        &&& self.foreground.valid()
        &&& self.background.valid()
        &&& self.flags <= ALL_FLAGS
    }

    /// A cell that replaces whatever it is drawn over: it has a character,
    /// and neither color is transparent.
    pub open spec fn solid(self) -> bool {
        &&& self.valid()
        &&& self.code != '\0'
        &&& self.foreground.opaque()
        &&& self.background.opaque()
    }
}

/// What a cell holds after `over` is drawn on `under`: the character of
/// `over` unless it is NUL, each color of `over` unless it is transparent,
/// and the flags of `over`.
pub open spec fn overlay(under: Cell, over: Cell) -> Cell {
    Cell {
        code: if over.code != '\0' {
            over.code
        } else {
            under.code
        },
        foreground: if over.foreground != Color::Palette(TRANSPARENT) {
            over.foreground
        } else {
            under.foreground
        },
        background: if over.background != Color::Palette(TRANSPARENT) {
            over.background
        } else {
            under.background
        },
        flags: over.flags,
    }
}

/// Red, green and blue of entry `code` of the 8-color table at standard
/// intensity; a code outside 0..=7 gives pure white.
pub open spec fn base_rgb(code: int) -> (int, int, int) {
    if code == 0 {
        (0, 0, 0)
    } else if code == 1 {
        (128, 0, 0)
    } else if code == 2 {
        (0, 128, 0)
    } else if code == 3 {
        (128, 128, 0)
    } else if code == 4 {
        (0, 0, 128)
    } else if code == 5 {
        (128, 0, 128)
    } else if code == 6 {
        (0, 128, 128)
    } else if code == 7 {
        (192, 192, 192)
    } else {
        (255, 255, 255)
    }
}

/// A channel at bright intensity: doubled, and capped at 255.
pub open spec fn brighten(channel: int) -> int {
    if 2 * channel > 255 {
        255
    } else {
        2 * channel
    }
}

/// The color of entry `code` of the 8-color table, at standard or at bright
/// intensity.
pub open spec fn ansi_16_color_spec(code: u32, bright: bool) -> Color {
    let (r, g, b) = base_rgb(code as int);
    if bright {
        Color::Rgb(brighten(r) as u8, brighten(g) as u8, brighten(b) as u8)
    } else {
        Color::Rgb(r as u8, g as u8, b as u8)
    }
}

/// The color of entry `idx` of the 256-color palette: the 8-color table at
/// standard (0..=7) and bright (8..=15) intensity, a 6x6x6 cube with channels
/// in steps of 51 (16..=231), and a ramp of 24 grays (232..=255). An index
/// above 255 gives black.
pub open spec fn ansi_256_color_spec(idx: u32) -> Color {
    if idx < 8 {
        ansi_16_color_spec(idx, false)
    } else if idx < 16 {
        ansi_16_color_spec((idx - 8) as u32, true)
    } else if idx < 232 {
        let n = idx - 16;
        Color::Rgb((((n / 36) % 6) * 51) as u8, (((n / 6) % 6) * 51) as u8, ((n % 6) * 51) as u8)
    } else if idx < 256 {
        let level = 8 + (idx - 232) * 10;
        Color::Rgb(level as u8, level as u8, level as u8)
    } else {
        Color::Rgb(0, 0, 0)
    }
}

fn double_capped(channel: u8) -> (r: u8)
    ensures
        r == brighten(channel as int),
{
    if channel > 127 {
        255
    } else {
        channel * 2
    }
}

/// Maps a code of the 8-color table to its color.
pub fn ansi_16_color(code: u32, bright: bool) -> (color: Color)
    ensures
        color == ansi_16_color_spec(code, bright),
        color.opaque(),
{
    let (r, g, b): (u8, u8, u8) = match code {
        0 => (0, 0, 0),
        1 => (128, 0, 0),
        2 => (0, 128, 0),
        3 => (128, 128, 0),
        4 => (0, 0, 128),
        5 => (128, 0, 128),
        6 => (0, 128, 128),
        7 => (192, 192, 192),
        _ => (255, 255, 255),
    };
    if bright {
        Color::Rgb(double_capped(r), double_capped(g), double_capped(b))
    } else {
        Color::Rgb(r, g, b)
    }
}

/// Maps an index of the 256-color palette to its color.
pub fn ansi_256_color(idx: u32) -> (color: Color)
    ensures
        color == ansi_256_color_spec(idx),
        color.opaque(),
{
    if idx < 8 {
        ansi_16_color(idx, false)
    } else if idx < 16 {
        ansi_16_color(idx - 8, true)
    } else if idx < 232 {
        let n: u32 = idx - 16;
        let r: u32 = (n / 36) % 6;
        let g: u32 = (n / 6) % 6;
        let b: u32 = n % 6;
        Color::Rgb((r * 51) as u8, (g * 51) as u8, (b * 51) as u8)
    } else if idx < 256 {
        let level: u32 = 8 + (idx - 232) * 10;
        Color::Rgb(level as u8, level as u8, level as u8)
    } else {
        Color::Rgb(0, 0, 0)
    }
}

} // verus!
