//! What the emulator does, stated over plain values: a terminal is a grid
//! size, a pen with its cursor, and a screen; text and control sequences take
//! one terminal to the next.

use vstd::prelude::*;
use crate::color::Cell;
use crate::csi::{csi_at, introducer_at, lemma_csi_extent, Csi};
use crate::screen::{cursor_set_to, fill, put_at, Screen};
use crate::csi::{digits_value, param_value, scan_from, ESC};
use crate::state::{lemma_sgr_keeps_cursor_within, lemma_sgr_keeps_pen_opaque, lemma_sgr_zero_resets, sgr, TerminalState};

verus! {

/// A terminal: the size of its grid, the pen and cursor, and the screen.
#[verifier::ext_equal]
pub struct Terminal {
    pub width: int,
    pub height: int,
    pub state: TerminalState,
    pub screen: Screen,
}

impl Terminal {
    /// The grid has at least one cell, the cursor is on it, and the pen's
    /// colors are not transparent.
    pub open spec fn wf(self) -> bool {
        &&& 1 <= self.width <= i32::MAX
        &&& 1 <= self.height <= i32::MAX
        &&& self.state.cursor_within(self.width, self.height)
        &&& self.state.pen_opaque()
    }

    /// The same terminal with another pen and cursor.
    pub open spec fn with_state(self, state: TerminalState) -> Terminal {
        Terminal { state, ..self }
    }

    /// The same terminal with the cursor moved.
    pub open spec fn with_cursor(self, x: int, y: int) -> Terminal {
        Terminal {
            state: TerminalState { cursor_x: x as i32, cursor_y: y as i32, ..self.state },
            ..self
        }
    }

    /// The same terminal with other cells on the screen.
    pub open spec fn with_cells(self, cells: Map<(int, int), Cell>) -> Terminal {
        Terminal { screen: Screen { cells, ..self.screen }, ..self }
    }

    /// The last row.
    pub open spec fn bottom(self) -> int {
        self.height - 1
    }

    /// The row below the cursor, or the last row where the cursor is on it:
    /// the grid never scrolls.
    pub open spec fn next_row(self) -> int {
        if self.state.cursor_y + 1 >= self.height {
            self.height - 1
        } else {
            self.state.cursor_y + 1
        }
    }
}

/// A control character: the code points U+0000 to U+001F and U+007F to
/// U+009F.
pub open spec fn control_char(c: char) -> bool {
    c as u32 <= 0x1F || 0x7F <= c as u32 <= 0x9F
}

/// The first tab stop after column `x`: the next multiple of 8.
pub open spec fn tab_stop(x: int) -> int {
    (x / 8 + 1) * 8
}

/// `value` held between `low` and `high`.
pub open spec fn clamp(value: int, low: int, high: int) -> int {
    if value < low {
        low
    } else if value > high {
        high
    } else {
        value
    }
}

/// The parameter at `i`, or `default` where the sequence has none there.
pub open spec fn param_or(params: Seq<u32>, i: int, default: u32) -> u32 {
    if 0 <= i < params.len() {
        params[i]
    } else {
        default
    }
}

/// The terminal after the cursor steps one column on: past the last column
/// it goes to the first column of the next row.
pub open spec fn advance(t: Terminal) -> Terminal {
    if t.state.cursor_x + 1 >= t.width {
        t.with_cursor(0, t.next_row())
    } else {
        t.with_cursor(t.state.cursor_x + 1, t.state.cursor_y as int)
    }
}

/// The terminal after one character that is not part of a control sequence.
///
/// Carriage return goes to the first column; line feed to the first column
/// of the next row; tab to the next tab stop, or to the first column of the
/// next row where that stop is beyond the last column; backspace one column
/// back unless the cursor is in the first. Other control characters are
/// dropped. Any other character is drawn at the cursor with the pen, and the
/// cursor steps on.
pub open spec fn put_char(t: Terminal, c: char) -> Terminal {
    if c == '\r' {
        t.with_cursor(0, t.state.cursor_y as int)
    } else if c == '\n' {
        t.with_cursor(0, t.next_row())
    } else if c == '\t' {
        if tab_stop(t.state.cursor_x as int) >= t.width {
            t.with_cursor(0, t.next_row())
        } else {
            t.with_cursor(tab_stop(t.state.cursor_x as int), t.state.cursor_y as int)
        }
    } else if c == '\x08' {
        if t.state.cursor_x > 0 {
            t.with_cursor(t.state.cursor_x - 1, t.state.cursor_y as int)
        } else {
            t
        }
    } else if control_char(c) {
        t
    } else {
        advance(
            t.with_cells(
                put_at(
                    t.screen.cells,
                    t.state.cursor_x as int,
                    t.state.cursor_y as int,
                    t.state.cell_spec(c),
                ),
            ),
        )
    }
}

/// The part of row `y` from column `from` up to, not including, column `to`.
pub open spec fn span(y: int, from: int, to: int) -> Set<(int, int)> {
    Set::new(|p: (int, int)| p.1 == y && from <= p.0 < to)
}

/// The part of the grid that an erase in the cursor's row covers: mode 0 from
/// the cursor to the end of the row, mode 1 from its start to the cursor,
/// cursor included, mode 2 the whole row. Other modes cover nothing.
pub open spec fn line_area(t: Terminal, mode: u32) -> Set<(int, int)> {
    if mode == 0 {
        span(t.state.cursor_y as int, t.state.cursor_x as int, t.width)
    } else if mode == 1 {
        span(t.state.cursor_y as int, 0, t.state.cursor_x + 1)
    } else if mode == 2 {
        span(t.state.cursor_y as int, 0, t.width)
    } else {
        Set::empty()
    }
}

/// The part of the grid that an erase in the display covers: mode 0 from the
/// cursor to the end of the grid, mode 1 from its start to the cursor, cursor
/// included. Mode 2 is not limited to the grid: it covers every cell that the
/// screen has. Other modes cover nothing.
pub open spec fn display_area(t: Terminal, mode: u32) -> Set<(int, int)> {
    if mode == 0 {
        Set::new(
            |p: (int, int)|
                0 <= p.0 < t.width && p.1 < t.height && (p.1 > t.state.cursor_y || (p.1
                    == t.state.cursor_y && p.0 >= t.state.cursor_x)),
        )
    } else if mode == 1 {
        Set::new(
            |p: (int, int)|
                0 <= p.0 < t.width && 0 <= p.1 && (p.1 < t.state.cursor_y || (p.1
                    == t.state.cursor_y && p.0 <= t.state.cursor_x)),
        )
    } else if mode == 2 {
        Set::full()
    } else {
        Set::empty()
    }
}

/// The terminal after the cells of `area` are blanked: each becomes a space
/// in the pen's colors.
pub open spec fn erase(t: Terminal, area: Set<(int, int)>) -> Terminal {
    t.with_cells(fill(t.screen.cells, area, t.state.blank_spec()))
}

/// The terminal after a control sequence that is not private.
///
/// `H` and `f` place the cursor at row and column, given from 1 and held on
/// the grid; `A`, `B`, `C`, `D` move it up, down, right, left by the first
/// parameter, 1 where there is none, and stop at the edge; `m` resets the
/// state where it has no parameter and else applies its parameters to the pen;
/// `J` and `K` erase in the display and in the row. Other letters do nothing.
pub open spec fn plain_command(t: Terminal, final_byte: char, params: Seq<u32>) -> Terminal {
    let x = t.state.cursor_x as int;
    let y = t.state.cursor_y as int;
    if final_byte == 'H' || final_byte == 'f' {
        t.with_cursor(
            clamp(param_or(params, 1, 1) - 1, 0, t.width - 1),
            clamp(param_or(params, 0, 1) - 1, 0, t.height - 1),
        )
    } else if final_byte == 'A' {
        t.with_cursor(x, clamp(y - param_or(params, 0, 1), 0, t.height - 1))
    } else if final_byte == 'B' {
        t.with_cursor(x, clamp(y + param_or(params, 0, 1), 0, t.height - 1))
    } else if final_byte == 'C' {
        t.with_cursor(clamp(x + param_or(params, 0, 1), 0, t.width - 1), y)
    } else if final_byte == 'D' {
        t.with_cursor(clamp(x - param_or(params, 0, 1), 0, t.width - 1), y)
    } else if final_byte == 'm' {
        if params.len() == 0 {
            t.with_state(TerminalState::initial())
        } else {
            t.with_state(sgr(t.state, params))
        }
    } else if final_byte == 'J' {
        erase(t, display_area(t, param_or(params, 0, 0)))
    } else if final_byte == 'K' {
        erase(t, line_area(t, param_or(params, 0, 0)))
    } else {
        t
    }
}

/// The terminal after a private control sequence: `l` hides the cursor of the
/// screen, `h` shows it at the terminal's cursor. Other letters do nothing.
pub open spec fn private_command(t: Terminal, final_byte: char) -> Terminal {
    if final_byte == 'l' {
        Terminal { screen: Screen { cursor: None, ..t.screen }, ..t }
    } else if final_byte == 'h' {
        Terminal {
            screen: Screen {
                cursor: cursor_set_to(t.screen, t.state.cursor_x as int, t.state.cursor_y as int),
                ..t.screen
            },
            ..t
        }
    } else {
        t
    }
}

/// The terminal after a control sequence.
pub open spec fn command(t: Terminal, csi: Csi) -> Terminal {
    if csi.private {
        private_command(t, csi.final_byte)
    } else {
        plain_command(t, csi.final_byte, csi.params)
    }
}

/// The terminal after the text from index `i` on.
///
/// Where `ESC [` opens a complete control sequence, the sequence is applied
/// and reading goes on after it. Where the sequence is not complete, the
/// escape character alone is passed over, and what follows it is read as
/// ordinary text. Every other character is put on the screen.
pub open spec fn feed_from(t: Terminal, text: Seq<char>, i: int) -> Terminal
    decreases text.len() - i,
    via feed_from_decreases
{
    if i < 0 || i >= text.len() {
        t
    } else if introducer_at(text, i) {
        match csi_at(text, i) {
            Some(csi) => feed_from(command(t, csi), text, i + csi.len),
            None => feed_from(t, text, i + 1),
        }
    } else {
        feed_from(put_char(t, text[i]), text, i + 1)
    }
}

#[via_fn]
proof fn feed_from_decreases(t: Terminal, text: Seq<char>, i: int) {
    if 0 <= i < text.len() && introducer_at(text, i) {
        lemma_csi_extent(text, i);
    }
}

/// The terminal after a whole text.
pub open spec fn feed(t: Terminal, text: Seq<char>) -> Terminal {
    feed_from(t, text, 0)
}

/// A character that is put on the screen leaves the cursor on the grid and
/// the size of the grid as it was.
pub proof fn lemma_put_char_wf(t: Terminal, c: char)
    requires
        t.wf(),
    ensures
        put_char(t, c).wf(),
        put_char(t, c).width == t.width,
        put_char(t, c).height == t.height,
        put_char(t, c).screen.origin == t.screen.origin,
{
}

/// Clamping: whatever a control sequence is and whatever its parameters are
/// (none, zero, or beyond the grid), the cursor is on the grid after it, and
/// the grid has the size it had.
pub proof fn lemma_command_wf(t: Terminal, csi: Csi)
    requires
        t.wf(),
    ensures
        command(t, csi).wf(),
        command(t, csi).width == t.width,
        command(t, csi).height == t.height,
        command(t, csi).screen.origin == t.screen.origin,
{
    if !csi.private && csi.final_byte == 'm' && csi.params.len() > 0 {
        lemma_sgr_keeps_pen_opaque(t.state, csi.params, 0);
        lemma_sgr_keeps_cursor_within(t.state, csi.params, 0, t.width, t.height);
    }
}

/// The cursor is on the grid after any text, and the grid has the size it
/// had.
pub proof fn lemma_feed_wf(t: Terminal, text: Seq<char>, i: int)
    requires
        t.wf(),
    ensures
        feed_from(t, text, i).wf(),
        feed_from(t, text, i).width == t.width,
        feed_from(t, text, i).height == t.height,
        feed_from(t, text, i).screen.origin == t.screen.origin,
    decreases text.len() - i,
{
    if i < 0 || i >= text.len() {
    } else if introducer_at(text, i) {
        lemma_csi_extent(text, i);
        match csi_at(text, i) {
            Some(csi) => {
                lemma_command_wf(t, csi);
                lemma_feed_wf(command(t, csi), text, i + csi.len);
            },
            None => {
                lemma_feed_wf(t, text, i + 1);
            },
        }
    } else {
        lemma_put_char_wf(t, text[i]);
        lemma_feed_wf(put_char(t, text[i]), text, i + 1);
    }
}

/// An `m` command without a parameter, or with the one parameter 0, gives the
/// initial state, whatever the state was, and leaves the screen alone.
pub proof fn lemma_reset_command(t: Terminal)
    ensures
        plain_command(t, 'm', Seq::empty()) == t.with_state(TerminalState::initial()),
        plain_command(t, 'm', seq![0u32]) == t.with_state(TerminalState::initial()),
{
    lemma_sgr_zero_resets(t.state);
}

/// The texts `ESC [ m` and `ESC [ 0 m` give the initial state, whatever the
/// state was, and leave the screen alone.
pub proof fn lemma_reset_text(t: Terminal)
    ensures
        feed(t, seq![ESC, '[', 'm']) == t.with_state(TerminalState::initial()),
        feed(t, seq![ESC, '[', '0', 'm']) == t.with_state(TerminalState::initial()),
{
    lemma_reset_command(t);
    let reset = t.with_state(TerminalState::initial());
    let bare = seq![ESC, '[', 'm'];
    assert(scan_from(bare, 2, Seq::empty(), Seq::empty()) == Some(
        (Seq::<u32>::empty(), 'm', 3int),
    ));
    assert(csi_at(bare, 0) == Some(
        Csi { params: Seq::empty(), private: false, final_byte: 'm', len: 3 },
    ));
    assert(feed_from(reset, bare, 3) == reset);
    assert(feed_from(t, bare, 0) == reset);

    let zero = seq![ESC, '[', '0', 'm'];
    let digits = Seq::<char>::empty().push('0');
    assert(digits.drop_last() =~= Seq::<char>::empty());
    assert(digits_value(digits) == 0) by {
        reveal_with_fuel(digits_value, 2);
    }
    assert(param_value(digits) == 0);
    assert(Seq::<u32>::empty().push(0u32) =~= seq![0u32]);
    assert(scan_from(zero, 3, Seq::empty(), digits) == Some((seq![0u32], 'm', 4int)));
    assert(scan_from(zero, 2, Seq::empty(), Seq::empty()) == Some((seq![0u32], 'm', 4int)));
    assert(csi_at(zero, 0) == Some(
        Csi { params: seq![0u32], private: false, final_byte: 'm', len: 4 },
    ));
    assert(feed_from(reset, zero, 4) == reset);
    assert(feed_from(t, zero, 0) == reset);
}

/// Text without a character changes nothing.
pub proof fn lemma_feed_nothing(t: Terminal)
    ensures
        feed(t, Seq::empty()) == t,
{
}

/// A control sequence that the text breaks off changes nothing by itself:
/// where `ESC [` opens no complete sequence, reading goes on one character
/// later from the same terminal.
pub proof fn lemma_feed_broken_sequence(t: Terminal, text: Seq<char>, i: int)
    requires
        introducer_at(text, i),
        csi_at(text, i) is None,
    ensures
        feed_from(t, text, i) == feed_from(t, text, i + 1),
{
}

} // verus!
