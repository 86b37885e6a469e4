//! The pen and cursor of one terminal, and the SGR parameters that change
//! the pen.

use vstd::prelude::*;
use crate::color::{ansi_16_color, ansi_16_color_spec, ansi_256_color, ansi_256_color_spec, Cell, Color, BLACK, BOLD, ITALIC, UNDERLINE, WHITE};

verus! {

/// The current pen (colors and attributes) and the cursor position.
#[derive(Clone, Copy, Debug, PartialEq, Eq, Structural)]
pub struct TerminalState {
    pub foreground: Color,
    pub background: Color,
    pub bold: bool,
    pub dim: bool,
    pub italic: bool,
    pub underline: bool,
    pub cursor_x: i32,
    pub cursor_y: i32,
}

impl TerminalState {
    /// White on black, no attribute, cursor in the top left corner.
    pub open spec fn initial() -> TerminalState {
        TerminalState {
            foreground: Color::Palette(WHITE),
            background: Color::Palette(BLACK),
            bold: false,
            dim: false,
            italic: false,
            underline: false,
            cursor_x: 0,
            cursor_y: 0,
        }
    }

    /// The cursor lies on a grid of `width` columns and `height` rows.
    pub open spec fn cursor_within(self, width: int, height: int) -> bool {
        &&& 0 <= self.cursor_x < width
        &&& 0 <= self.cursor_y < height
    }

    /// Neither pen color is transparent.
    pub open spec fn pen_opaque(self) -> bool {
        &&& self.foreground.opaque()
        &&& self.background.opaque()
    }

    /// The style flags that the pen gives a cell. Dim is kept in the state
    /// but has no flag.
    pub open spec fn flags_spec(self) -> u16 {
        let bold: u16 = if self.bold {
            BOLD
        } else {
            0
        };
        let italic: u16 = if self.italic {
            ITALIC
        } else {
            0
        };
        let underline: u16 = if self.underline {
            UNDERLINE
        } else {
            0
        };
        (bold + italic + underline) as u16
    }

    /// The cell that the pen draws for the character `code`.
    pub open spec fn cell_spec(self, code: char) -> Cell {
        Cell {
            code,
            foreground: self.foreground,
            background: self.background,
            flags: self.flags_spec(),
        }
    }

    /// The blank cell that erasing leaves: a space in the pen's colors,
    /// without flags.
    pub open spec fn blank_spec(self) -> Cell {
        Cell { code: ' ', foreground: self.foreground, background: self.background, flags: 0 }
    }

    /// The state with one of the pen's colors replaced.
    pub open spec fn with_color(self, foreground: bool, color: Color) -> TerminalState {
        if foreground {
            TerminalState { foreground: color, ..self }
        } else {
            TerminalState { background: color, ..self }
        }
    }

    /// The style flags that the pen gives a cell.
    pub fn flags(&self) -> (flags: u16)
        ensures
            flags == self.flags_spec(),
            flags <= 7,
    {
        let mut flags: u16 = 0;
        if self.bold {
            flags = flags + BOLD;
        }
        if self.italic {
            flags = flags + ITALIC;
        }
        if self.underline {
            flags = flags + UNDERLINE;
        }
        flags
    }

    /// The cell that the pen draws for the character `code`.
    pub fn cell(&self, code: char) -> (cell: Cell)
        ensures
            cell == self.cell_spec(code),
    {
        Cell {
            code,
            foreground: self.foreground,
            background: self.background,
            flags: self.flags(),
        }
    }

    /// The blank cell that erasing leaves.
    pub fn blank(&self) -> (cell: Cell)
        ensures
            cell == self.blank_spec(),
    {
        Cell { code: ' ', foreground: self.foreground, background: self.background, flags: 0 }
    }

    /// Applies a list of SGR parameters to the pen, from left to right.
    pub fn apply_sgr(&mut self, params: &[u32])
        ensures
            *final(self) == sgr_from(*old(self), params@, 0),
    {
        let mut i: usize = 0;
        while i < params.len()
            invariant
                sgr_from(*self, params@, i as int) == sgr_from(*old(self), params@, 0),
            decreases params.len() - i,
        {
            let param: u32 = params[i];
            if param == 38 || param == 48 {
                let is_foreground = param == 38;
                if params.len() - i < 2 {
                    i = params.len();
                } else {
                    let mode: u32 = params[i + 1];
                    if mode == 5 {
                        if params.len() - i < 3 {
                            i = params.len();
                        } else {
                            let color = ansi_256_color(params[i + 2]);
                            self.set_color(is_foreground, color);
                            i = i + 3;
                        }
                    } else if mode == 2 {
                        let r: u32 = if params.len() - i > 2 {
                            params[i + 2]
                        } else {
                            0
                        };
                        let g: u32 = if params.len() - i > 3 {
                            params[i + 3]
                        } else {
                            0
                        };
                        let b: u32 = if params.len() - i > 4 {
                            params[i + 4]
                        } else {
                            0
                        };
                        let color = Color::Rgb((r % 256) as u8, (g % 256) as u8, (b % 256) as u8);
                        self.set_color(is_foreground, color);
                        if params.len() - i > 5 {
                            i = i + 5;
                        } else {
                            i = params.len();
                        }
                    } else {
                        i = i + 2;
                    }
                }
            } else {
                self.apply_sgr_code(param);
                i = i + 1;
            }
        }
    }

    fn set_color(&mut self, foreground: bool, color: Color)
        ensures
            *final(self) == old(self).with_color(foreground, color),
    {
        if foreground {
            self.foreground = color;
        } else {
            self.background = color;
        }
    }

    /// Applies one SGR parameter that stands for itself.
    fn apply_sgr_code(&mut self, param: u32)
        ensures
            *final(self) == sgr_code(*old(self), param),
    {
        if param == 0 {
            *self = TerminalState::default();
        } else if param == 1 {
            self.bold = true;
        } else if param == 2 {
            self.dim = true;
        } else if param == 3 {
            self.italic = true;
        } else if param == 4 {
            self.underline = true;
        } else if param == 22 {
            self.bold = false;
            self.dim = false;
        } else if param == 23 {
            self.italic = false;
        } else if param == 24 {
            self.underline = false;
        } else if 30 <= param && param <= 37 {
            self.foreground = ansi_16_color(param - 30, false);
        } else if 40 <= param && param <= 47 {
            self.background = ansi_16_color(param - 40, false);
        } else if 90 <= param && param <= 97 {
            self.foreground = ansi_16_color(param - 90, true);
        } else if 100 <= param && param <= 107 {
            self.background = ansi_16_color(param - 100, true);
        }
    }
}

impl Default for TerminalState {
    fn default() -> (state: Self)
        ensures
            state == TerminalState::initial(),
    {
        TerminalState {
            foreground: Color::Palette(WHITE),
            background: Color::Palette(BLACK),
            bold: false,
            dim: false,
            italic: false,
            underline: false,
            cursor_x: 0,
            cursor_y: 0,
        }
    }
}

/// The state after one SGR parameter that stands for itself: 0 resets the
/// whole state; 1 to 4 switch bold, dim, italic and underline on; 22 clears
/// bold and dim, 23 italic, 24 underline; 30..=37 and 40..=47 pick the
/// foreground and background from the 8-color table, 90..=97 and 100..=107
/// from the same table at bright intensity. Any other value changes nothing.
pub open spec fn sgr_code(state: TerminalState, param: u32) -> TerminalState {
    if param == 0 {
        TerminalState::initial()
    } else if param == 1 {
        TerminalState { bold: true, ..state }
    } else if param == 2 {
        TerminalState { dim: true, ..state }
    } else if param == 3 {
        TerminalState { italic: true, ..state }
    } else if param == 4 {
        TerminalState { underline: true, ..state }
    } else if param == 22 {
        TerminalState { bold: false, dim: false, ..state }
    } else if param == 23 {
        TerminalState { italic: false, ..state }
    } else if param == 24 {
        TerminalState { underline: false, ..state }
    } else if 30 <= param <= 37 {
        state.with_color(true, ansi_16_color_spec((param - 30) as u32, false))
    } else if 40 <= param <= 47 {
        state.with_color(false, ansi_16_color_spec((param - 40) as u32, false))
    } else if 90 <= param <= 97 {
        state.with_color(true, ansi_16_color_spec((param - 90) as u32, true))
    } else if 100 <= param <= 107 {
        state.with_color(false, ansi_16_color_spec((param - 100) as u32, true))
    } else {
        state
    }
}

/// The parameter at `i`, or 0 where the list has ended.
pub open spec fn param_or_zero(params: Seq<u32>, i: int) -> u32 {
    if 0 <= i < params.len() {
        params[i]
    } else {
        0
    }
}

/// Where reading goes on after a truecolor selection that starts at `i`: past
/// the five parameters, or at the end of the list where it is shorter.
pub open spec fn after_truecolor(params: Seq<u32>, i: int) -> int {
    if i + 5 <= params.len() {
        i + 5
    } else {
        params.len() as int
    }
}

/// The state after the SGR parameters from index `i` on are applied.
///
/// 38 and 48 read on: followed by 5 and a palette index they set the
/// foreground or background from the 256-color palette; followed by 2 they
/// set it from the next three parameters as red, green and blue (each taken
/// modulo 256, 0 where the list ends early); followed by anything else they
/// skip that one parameter. A 38 or 48 that ends the list, or a `38;5` without
/// an index, changes nothing.
pub open spec fn sgr_from(state: TerminalState, params: Seq<u32>, i: int) -> TerminalState
    decreases params.len() - i,
{
    if i < 0 || i >= params.len() {
        state
    } else if params[i] == 38 || params[i] == 48 {
        let foreground = params[i] == 38;
        if i + 1 >= params.len() {
            state
        } else if params[i + 1] == 5 {
            if i + 2 >= params.len() {
                state
            } else {
                sgr_from(
                    state.with_color(foreground, ansi_256_color_spec(params[i + 2])),
                    params,
                    i + 3,
                )
            }
        } else if params[i + 1] == 2 {
            let color = Color::Rgb(
                (param_or_zero(params, i + 2) % 256) as u8,
                (param_or_zero(params, i + 3) % 256) as u8,
                (param_or_zero(params, i + 4) % 256) as u8,
            );
            sgr_from(state.with_color(foreground, color), params, after_truecolor(params, i))
        } else {
            sgr_from(state, params, i + 2)
        }
    } else {
        sgr_from(sgr_code(state, params[i]), params, i + 1)
    }
}

/// The state after a whole list of SGR parameters.
pub open spec fn sgr(state: TerminalState, params: Seq<u32>) -> TerminalState {
    sgr_from(state, params, 0)
}

/// No SGR parameter makes a pen color transparent.
pub proof fn lemma_sgr_keeps_pen_opaque(state: TerminalState, params: Seq<u32>, i: int)
    requires
        state.pen_opaque(),
    ensures
        sgr_from(state, params, i).pen_opaque(),
    decreases params.len() - i,
{
    if i < 0 || i >= params.len() {
    } else if params[i] == 38 || params[i] == 48 {
        let foreground = params[i] == 38;
        if i + 1 >= params.len() {
        } else if params[i + 1] == 5 {
            if i + 2 < params.len() {
                lemma_sgr_keeps_pen_opaque(
                    state.with_color(foreground, ansi_256_color_spec(params[i + 2])),
                    params,
                    i + 3,
                );
            }
        } else if params[i + 1] == 2 {
            let color = Color::Rgb(
                (param_or_zero(params, i + 2) % 256) as u8,
                (param_or_zero(params, i + 3) % 256) as u8,
                (param_or_zero(params, i + 4) % 256) as u8,
            );
            lemma_sgr_keeps_pen_opaque(
                state.with_color(foreground, color),
                params,
                after_truecolor(params, i),
            );
        } else {
            lemma_sgr_keeps_pen_opaque(state, params, i + 2);
        }
    } else {
        lemma_sgr_keeps_pen_opaque(sgr_code(state, params[i]), params, i + 1);
    }
}

/// SGR parameters move the cursor only by resetting it to the corner, so a
/// cursor on the grid stays on the grid.
pub proof fn lemma_sgr_keeps_cursor_within(
    state: TerminalState,
    params: Seq<u32>,
    i: int,
    width: int,
    height: int,
)
    requires
        state.cursor_within(width, height),
    ensures
        sgr_from(state, params, i).cursor_within(width, height),
    decreases params.len() - i,
{
    if i < 0 || i >= params.len() {
    } else if params[i] == 38 || params[i] == 48 {
        let foreground = params[i] == 38;
        if i + 1 >= params.len() {
        } else if params[i + 1] == 5 {
            if i + 2 < params.len() {
                lemma_sgr_keeps_cursor_within(
                    state.with_color(foreground, ansi_256_color_spec(params[i + 2])),
                    params,
                    i + 3,
                    width,
                    height,
                );
            }
        } else if params[i + 1] == 2 {
            let color = Color::Rgb(
                (param_or_zero(params, i + 2) % 256) as u8,
                (param_or_zero(params, i + 3) % 256) as u8,
                (param_or_zero(params, i + 4) % 256) as u8,
            );
            lemma_sgr_keeps_cursor_within(
                state.with_color(foreground, color),
                params,
                after_truecolor(params, i),
                width,
                height,
            );
        } else {
            lemma_sgr_keeps_cursor_within(state, params, i + 2, width, height);
        }
    } else {
        lemma_sgr_keeps_cursor_within(sgr_code(state, params[i]), params, i + 1, width, height);
    }
}

/// A lone parameter 0 resets the state, whatever it was.
pub proof fn lemma_sgr_zero_resets(state: TerminalState)
    ensures
        sgr(state, seq![0u32]) == TerminalState::initial(),
{
    let params = seq![0u32];
    assert(sgr_from(state, params, 0) == sgr_from(sgr_code(state, params[0]), params, 1));
}

} // verus!
