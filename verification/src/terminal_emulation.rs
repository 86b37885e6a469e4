//! The emulator: it reads what a child process wrote and paints it on a
//! surface, keeping the pen and the cursor from one call to the next.

use vstd::prelude::*;
use appcui::graphics::Surface;
use crate::color::Cell;
use crate::csi::{csi_at, introducer_at, lemma_csi_extent, scan_escape_sequence, ESC};
use crate::screen::{clear, fill, hide_cursor, lemma_draw_everywhere_solid, lemma_draw_solid, screen_of, set_cursor, surface_admits, surface_cells, surface_cursor, surface_origin, write_char};
use crate::state::{lemma_sgr_keeps_cursor_within, lemma_sgr_keeps_pen_opaque, TerminalState};
use crate::terminal::{advance, command, control_char, display_area, erase, feed, feed_from, lemma_feed_wf, line_area, param_or, plain_command, private_command, put_char, span, Terminal};
use crate::text::{decode_lossy, lossy_utf8};

verus! {

/// What `char::is_control` answers: whether the character is a control
/// character. Those are the code points of the general category Cc, which
/// Unicode fixes as U+0000 to U+001F and U+007F to U+009F.
pub assume_specification[ char::is_control ](c: char) -> (r: bool)
    ensures
        r == control_char(c),
;

/// The emulator of one pane: the size of its grid, its pen and its cursor.
pub struct TerminalParser {
    width: u32,
    height: u32,
    state: TerminalState,
}

/// Fills the part of row `y` from column `from` up to, not including, column
/// `to` with `cell`.
fn fill_span(surface: &mut Surface, y: i32, from: i32, to: i32, cell: Cell)
    requires
        cell.solid(),
        0 <= from,
        0 <= y,
        surface_admits(*old(surface), to as int, y + 1),
    ensures
        surface_cells(*final(surface)) == fill(
            surface_cells(*old(surface)),
            span(y as int, from as int, to as int),
            cell,
        ),
        surface_origin(*final(surface)) == surface_origin(*old(surface)),
        surface_cursor(*final(surface)) == surface_cursor(*old(surface)),
{
    let ghost before = surface_cells(*surface);
    let ghost origin = surface_origin(*surface);
    let ghost cursor = surface_cursor(*surface);
    let mut x: i32 = from;
    assert(surface_cells(*surface) =~= fill(before, span(y as int, from as int, x as int), cell));
    while x < to
        invariant
            cell.solid(),
            0 <= from <= x,
            x <= to || x == from,
            0 <= y,
            origin.0 + to - 1 <= i32::MAX,
            origin.1 + y <= i32::MAX,
            surface_origin(*surface) == origin,
            surface_cursor(*surface) == cursor,
            surface_cells(*surface) == fill(before, span(y as int, from as int, x as int), cell),
        decreases to - x,
    {
        let ghost cells = surface_cells(*surface);
        write_char(surface, x, y, cell);
        proof {
            lemma_draw_solid(cells, x as int, y as int, cell);
            assert(surface_cells(*surface) =~= fill(
                before,
                span(y as int, from as int, x + 1),
                cell,
            ));
        }
        x = x + 1;
    }
    proof {
        if x > to {
            assert(span(y as int, from as int, x as int) =~= span(y as int, from as int, to as int));
        }
    }
}

impl TerminalParser {
    /// The number of columns of the grid.
    pub closed spec fn spec_width(&self) -> u32 {
        self.width
    }

    /// The number of rows of the grid.
    pub closed spec fn spec_height(&self) -> u32 {
        self.height
    }

    /// The pen and the cursor.
    pub closed spec fn spec_state(&self) -> TerminalState {
        self.state
    }

    /// The grid has at least one cell and fits signed coordinates, the cursor
    /// lies on it, and the pen's colors are not transparent. Every emulator
    /// that `new` made is so, and stays so.
    pub open spec fn wf(&self) -> bool {
        &&& 1 <= self.width() <= i32::MAX
        &&& 1 <= self.height() <= i32::MAX
        &&& self.state().cursor_within(self.width() as int, self.height() as int)
        &&& self.state().pen_opaque()
    }

    /// The terminal that this emulator and a surface make together.
    pub open spec fn terminal(&self, surface: Surface) -> Terminal {
        Terminal {
            width: self.width() as int,
            height: self.height() as int,
            state: self.state(),
            screen: screen_of(surface),
        }
    }

    /// The surface can take every coordinate of this emulator's grid.
    pub open spec fn fits(&self, surface: Surface) -> bool {
        surface_admits(surface, self.width() as int, self.height() as int)
    }

    /// An emulator for a grid of `width` columns and `height` rows, with the
    /// default pen and the cursor in the top left corner.
    pub fn new(width: u32, height: u32) -> (parser: Self)
        requires
            1 <= width <= i32::MAX,
            1 <= height <= i32::MAX,
        ensures
            parser.width() == width,
            parser.height() == height,
            parser.state() == TerminalState::initial(),
            parser.wf(),
    {
        Self { width, height, state: TerminalState::default() }
    }

    /// The number of columns of the grid.
    #[verifier::when_used_as_spec(spec_width)]
    pub fn width(&self) -> (width: u32)
        ensures
            width == self.spec_width(),
    {
        self.width
    }

    /// The number of rows of the grid.
    #[verifier::when_used_as_spec(spec_height)]
    pub fn height(&self) -> (height: u32)
        ensures
            height == self.spec_height(),
    {
        self.height
    }

    /// The pen and the cursor.
    #[verifier::when_used_as_spec(spec_state)]
    pub fn state(&self) -> (state: TerminalState)
        ensures
            state == self.spec_state(),
    {
        self.state
    }

    /// Moves the cursor one column on; past the last column it goes to the
    /// first column of the next row, and on the last row it stays there.
    pub fn cursor_forward(&mut self)
        requires
            old(self).wf(),
        ensures
            final(self).wf(),
            forall|surface: Surface| #[trigger]
                final(self).terminal(surface) == advance(old(self).terminal(surface)),
    {
        if self.state.cursor_x + 1 >= self.width as i32 {
            self.state.cursor_x = 0;
            self.line_down();
        } else {
            self.state.cursor_x = self.state.cursor_x + 1;
        }
    }

    /// Moves the cursor to the row below, unless it is on the last row.
    fn line_down(&mut self)
        requires
            1 <= old(self).width() <= i32::MAX,
            1 <= old(self).height() <= i32::MAX,
            0 <= old(self).state().cursor_y < old(self).height(),
        ensures
            final(self).width() == old(self).width(),
            final(self).height() == old(self).height(),
            final(self).state() == (TerminalState {
                cursor_y: if old(self).state().cursor_y + 1 >= old(self).height() {
                    (old(self).height() - 1) as i32
                } else {
                    (old(self).state().cursor_y + 1) as i32
                },
                ..old(self).state()
            }),
    {
        if self.state.cursor_y + 1 >= self.height as i32 {
            self.state.cursor_y = self.height as i32 - 1;
        } else {
            self.state.cursor_y = self.state.cursor_y + 1;
        }
    }

    /// Handles one character that is not part of a control sequence: moves
    /// the cursor for carriage return, line feed, tab and backspace, drops
    /// other control characters, and draws any other character at the cursor.
    pub fn write_character(&mut self, ch: char, surface: &mut Surface)
        requires
            old(self).wf(),
            old(self).fits(*old(surface)),
        ensures
            final(self).wf(),
            final(self).fits(*final(surface)),
            final(self).terminal(*final(surface)) == put_char(
                old(self).terminal(*old(surface)),
                ch,
            ),
    {
        if ch == '\r' {
            self.state.cursor_x = 0;
        } else if ch == '\n' {
            self.state.cursor_x = 0;
            self.line_down();
        } else if ch == '\t' {
            let stop: i64 = (self.state.cursor_x as i64 / 8 + 1) * 8;
            if stop >= self.width as i64 {
                self.state.cursor_x = 0;
                self.line_down();
            } else {
                self.state.cursor_x = stop as i32;
            }
        } else if ch == '\x08' {
            if self.state.cursor_x > 0 {
                self.state.cursor_x = self.state.cursor_x - 1;
            }
        } else if ch.is_control() {
        } else {
            let cell = self.state.cell(ch);
            let ghost cells = surface_cells(*surface);
            write_char(surface, self.state.cursor_x, self.state.cursor_y, cell);
            proof {
                lemma_draw_solid(
                    cells,
                    self.state.cursor_x as int,
                    self.state.cursor_y as int,
                    cell,
                );
            }
            self.cursor_forward();
        }
    }

    /// Erases in the cursor's row: mode 0 from the cursor to the end of the
    /// row, mode 1 from its start to the cursor, mode 2 all of it.
    pub fn handle_erase_line(&mut self, param: u32, surface: &mut Surface)
        requires
            old(self).wf(),
            old(self).fits(*old(surface)),
        ensures
            final(self).wf(),
            final(self).fits(*final(surface)),
            final(self).terminal(*final(surface)) == erase(
                old(self).terminal(*old(surface)),
                line_area(old(self).terminal(*old(surface)), param),
            ),
    {
        let blank = self.state.blank();
        let ghost cells = surface_cells(*surface);
        if param == 0 {
            fill_span(surface, self.state.cursor_y, self.state.cursor_x, self.width as i32, blank);
        } else if param == 1 {
            fill_span(surface, self.state.cursor_y, 0, self.state.cursor_x + 1, blank);
        } else if param == 2 {
            fill_span(surface, self.state.cursor_y, 0, self.width as i32, blank);
        } else {
            assert(cells =~= fill(cells, Set::empty(), blank));
        }
    }

    /// Erases in the display: mode 0 from the cursor to the end of the grid,
    /// mode 1 from its start to the cursor, mode 2 the whole surface.
    pub fn handle_erase_display(&mut self, param: u32, surface: &mut Surface)
        requires
            old(self).wf(),
            old(self).fits(*old(surface)),
        ensures
            final(self).wf(),
            final(self).fits(*final(surface)),
            final(self).terminal(*final(surface)) == erase(
                old(self).terminal(*old(surface)),
                display_area(old(self).terminal(*old(surface)), param),
            ),
    {
        let blank = self.state.blank();
        let ghost t = self.terminal(*surface);
        let ghost cells = surface_cells(*surface);
        let width: i32 = self.width as i32;
        let height: i32 = self.height as i32;
        let cursor_x: i32 = self.state.cursor_x;
        let cursor_y: i32 = self.state.cursor_y;
        if param == 0 {
            let mut y: i32 = cursor_y;
            assert(cells =~= fill(cells, rows_from_cursor(t, y as int), blank));
            while y < height
                invariant
                    blank.solid(),
                    t.wf(),
                    t.width == width,
                    t.height == height,
                    t.state.cursor_x == cursor_x,
                    t.state.cursor_y == cursor_y,
                    cursor_y <= y <= height,
                    surface_admits(*surface, width as int, height as int),
                    surface_origin(*surface) == t.screen.origin,
                    surface_cursor(*surface) == t.screen.cursor,
                    surface_cells(*surface) == fill(cells, rows_from_cursor(t, y as int), blank),
                decreases height - y,
            {
                let start: i32 = if y == cursor_y {
                    cursor_x
                } else {
                    0
                };
                fill_span(surface, y, start, width, blank);
                assert(surface_cells(*surface) =~= fill(cells, rows_from_cursor(t, y + 1), blank));
                y = y + 1;
            }
            assert(rows_from_cursor(t, height as int) =~= display_area(t, 0));
        } else if param == 1 {
            let mut y: i32 = 0;
            assert(cells =~= fill(cells, rows_to_cursor(t, y as int), blank));
            while y <= cursor_y
                invariant
                    blank.solid(),
                    t.wf(),
                    t.width == width,
                    t.height == height,
                    t.state.cursor_x == cursor_x,
                    t.state.cursor_y == cursor_y,
                    0 <= y <= cursor_y + 1,
                    surface_admits(*surface, width as int, height as int),
                    surface_origin(*surface) == t.screen.origin,
                    surface_cursor(*surface) == t.screen.cursor,
                    surface_cells(*surface) == fill(cells, rows_to_cursor(t, y as int), blank),
                decreases cursor_y + 1 - y,
            {
                let end: i32 = if y == cursor_y {
                    cursor_x + 1
                } else {
                    width
                };
                fill_span(surface, y, 0, end, blank);
                assert(surface_cells(*surface) =~= fill(cells, rows_to_cursor(t, y + 1), blank));
                y = y + 1;
            }
            assert(rows_to_cursor(t, cursor_y + 1) =~= display_area(t, 1));
        } else if param == 2 {
            clear(surface, blank);
            proof {
                lemma_draw_everywhere_solid(cells, blank);
            }
        } else {
            assert(cells =~= fill(cells, Set::empty(), blank));
        }
    }

    /// Applies a list of SGR parameters to the pen.
    pub fn handle_sgr_params(&mut self, params: &[u32])
        requires
            old(self).wf(),
        ensures
            final(self).wf(),
            final(self).width() == old(self).width(),
            final(self).height() == old(self).height(),
            final(self).state() == crate::state::sgr(old(self).state(), params@),
    {
        proof {
            lemma_sgr_keeps_pen_opaque(self.state, params@, 0);
            lemma_sgr_keeps_cursor_within(
                self.state,
                params@,
                0,
                self.width as int,
                self.height as int,
            );
        }
        self.state.apply_sgr(params);
    }

    /// Carries out a control sequence that is not private.
    pub fn handle_ansi_command(&mut self, command: char, params: &[u32], surface: &mut Surface)
        requires
            old(self).wf(),
            old(self).fits(*old(surface)),
        ensures
            final(self).wf(),
            final(self).fits(*final(surface)),
            final(self).terminal(*final(surface)) == plain_command(
                old(self).terminal(*old(surface)),
                command,
                params@,
            ),
    {
        let width: i64 = self.width as i64;
        let height: i64 = self.height as i64;
        if command == 'H' || command == 'f' {
            let row: i64 = param_at(params, 0, 1) as i64 - 1;
            let col: i64 = param_at(params, 1, 1) as i64 - 1;
            self.state.cursor_x = clamped(col, width - 1);
            self.state.cursor_y = clamped(row, height - 1);
        } else if command == 'A' {
            let count: i64 = param_at(params, 0, 1) as i64;
            self.state.cursor_y = clamped(self.state.cursor_y as i64 - count, height - 1);
        } else if command == 'B' {
            let count: i64 = param_at(params, 0, 1) as i64;
            self.state.cursor_y = clamped(self.state.cursor_y as i64 + count, height - 1);
        } else if command == 'C' {
            let count: i64 = param_at(params, 0, 1) as i64;
            self.state.cursor_x = clamped(self.state.cursor_x as i64 + count, width - 1);
        } else if command == 'D' {
            let count: i64 = param_at(params, 0, 1) as i64;
            self.state.cursor_x = clamped(self.state.cursor_x as i64 - count, width - 1);
        } else if command == 'm' {
            if params.len() == 0 {
                self.state = TerminalState::default();
            } else {
                self.handle_sgr_params(params);
            }
        } else if command == 'J' {
            let mode = param_at(params, 0, 0);
            self.handle_erase_display(mode, surface);
        } else if command == 'K' {
            let mode = param_at(params, 0, 0);
            self.handle_erase_line(mode, surface);
        }
    }

    /// Carries out a private control sequence: `l` hides the surface's cursor
    /// and `h` shows it at the emulator's cursor.
    pub fn handle_private_ansi_command(
        &mut self,
        command: char,
        params: &[u32],
        surface: &mut Surface,
    )
        requires
            old(self).wf(),
            old(self).fits(*old(surface)),
        ensures
            final(self).wf(),
            final(self).fits(*final(surface)),
            final(self).terminal(*final(surface)) == private_command(
                old(self).terminal(*old(surface)),
                command,
            ),
    {
        if command == 'l' {
            hide_cursor(surface);
        } else if command == 'h' {
            set_cursor(surface, self.state.cursor_x, self.state.cursor_y);
        }
    }

    /// Reads the control sequence that begins at `start`, where `ESC [`
    /// stands, and carries it out. Returns the number of characters to pass
    /// over: the length of the sequence, or 1 where it is not complete, and
    /// then nothing has changed. Each character of a complete sequence is one
    /// byte of the encoded text, so the number counts bytes as well.
    pub fn parse_ansi_sequence(&mut self, text: &[char], start: usize, surface: &mut Surface) -> (consumed: usize)
        requires
            old(self).wf(),
            old(self).fits(*old(surface)),
            introducer_at(text@, start as int),
        ensures
            final(self).wf(),
            final(self).fits(*final(surface)),
            1 <= consumed,
            start + consumed <= text.len(),
            match csi_at(text@, start as int) {
                Some(csi) => {
                    &&& consumed == csi.len
                    &&& final(self).terminal(*final(surface)) == command(
                        old(self).terminal(*old(surface)),
                        csi,
                    )
                },
                None => {
                    &&& consumed == 1
                    &&& final(self).terminal(*final(surface)) == old(self).terminal(
                        *old(surface),
                    )
                },
            },
    {
        proof {
            lemma_csi_extent(text@, start as int);
        }
        match scan_escape_sequence(text, start) {
            Some((sequence, len)) => {
                if sequence.private {
                    self.handle_private_ansi_command(
                        sequence.final_byte,
                        sequence.params.as_slice(),
                        surface,
                    );
                } else {
                    self.handle_ansi_command(
                        sequence.final_byte,
                        sequence.params.as_slice(),
                        surface,
                    );
                }
                len
            },
            None => 1,
        }
    }

    /// Applies decoded text to the surface and hands the surface back.
    pub fn parse_text(&mut self, text: &[char], surface: Surface) -> (painted: Surface)
        requires
            old(self).wf(),
            old(self).fits(surface),
        ensures
            final(self).wf(),
            final(self).fits(painted),
            final(self).width() == old(self).width(),
            final(self).height() == old(self).height(),
            final(self).terminal(painted) == feed(old(self).terminal(surface), text@),
    {
        let mut surface = surface;
        let ghost begin = self.terminal(surface);
        proof {
            lemma_feed_wf(begin, text@, 0);
        }
        let mut i: usize = 0;
        while i < text.len()
            invariant
                i <= text.len(),
                self.wf(),
                self.fits(surface),
                feed_from(self.terminal(surface), text@, i as int) == feed(begin, text@),
            decreases text.len() - i,
        {
            if text[i] == ESC && text.len() - i > 1 && text[i + 1] == '[' {
                let consumed = self.parse_ansi_sequence(text, i, &mut surface);
                i = i + consumed;
            } else {
                self.write_character(text[i], &mut surface);
                i = i + 1;
            }
        }
        surface
    }

    /// Decodes what the child wrote, applies it to the surface and hands the
    /// surface back. Bytes that are no valid UTF-8 are replaced, never
    /// refused; valid UTF-8 is applied as the text it encodes; an empty input
    /// changes nothing.
    pub fn parse_to_surface(&mut self, data: &[u8], surface: Surface) -> (painted: Surface)
        requires
            old(self).wf(),
            old(self).fits(surface),
        ensures
            final(self).wf(),
            final(self).fits(painted),
            final(self).width() == old(self).width(),
            final(self).height() == old(self).height(),
            final(self).terminal(painted) == feed(
                old(self).terminal(surface),
                lossy_utf8(data@),
            ),
            vstd::utf8::valid_utf8(data@) ==> final(self).terminal(painted) == feed(
                old(self).terminal(surface),
                vstd::utf8::decode_utf8(data@),
            ),
            data@.len() == 0 ==> final(self).terminal(painted) == old(self).terminal(surface),
    {
        let text = decode_lossy(data);
        proof {
            if data@.len() == 0 {
                crate::text::lemma_decode_empty(data@);
            }
        }
        self.parse_text(text.as_slice(), surface)
    }
}

/// The part of the grid from the cursor up to, not including, row `end`.
spec fn rows_from_cursor(t: Terminal, end: int) -> Set<(int, int)> {
    Set::new(
        |p: (int, int)|
            0 <= p.0 < t.width && p.1 < end && (p.1 > t.state.cursor_y || (p.1
                == t.state.cursor_y && p.0 >= t.state.cursor_x)),
    )
}

/// The part of the grid from its start to the cursor that lies above row
/// `end`.
spec fn rows_to_cursor(t: Terminal, end: int) -> Set<(int, int)> {
    Set::new(
        |p: (int, int)|
            0 <= p.0 < t.width && 0 <= p.1 < end && (p.1 < t.state.cursor_y || (p.1
                == t.state.cursor_y && p.0 <= t.state.cursor_x)),
    )
}

/// The parameter at `i`, or `default` where the sequence has none there.
fn param_at(params: &[u32], i: usize, default: u32) -> (value: u32)
    ensures
        value == param_or(params@, i as int, default),
{
    if i < params.len() {
        params[i]
    } else {
        default
    }
}

/// `value` held between 0 and `high`.
fn clamped(value: i64, high: i64) -> (held: i32)
    requires
        0 <= high <= i32::MAX,
    ensures
        held == crate::terminal::clamp(value as int, 0, high as int),
{
    if value < 0 {
        0
    } else if value > high {
        high as i32
    } else {
        value as i32
    }
}

} // verus!
