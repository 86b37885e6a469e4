//! A terminal emulation engine for panes that run console programs.
//!
//! Two halves make the engine. One reads what a child process writes, text
//! mixed with ANSI control sequences, and paints it on a character grid with
//! a pen and a cursor that persist between calls (`terminal_emulation`, with
//! `csi`, `state`, `color`, `text` and `screen` below it, and `terminal` as
//! the statement of what it does). The other turns key events into the bytes
//! that a terminal sends for them (`keyboard`). Around them stand the
//! decisions of a pane on each tick (`pane`), of the desktop's menus
//! (`desktop`), and the order of the taskbar (`shortcut`).

pub mod color;
pub mod csi;
pub mod desktop;
pub mod keyboard;
pub mod pane;
pub mod screen;
pub mod shortcut;
pub mod state;
pub mod terminal;
pub mod terminal_emulation;
pub mod text;
