//! The decisions of a pane: how large its grid is inside the window, and
//! what to do on each tick with what the child sent.

use vstd::prelude::*;
use appcui::graphics::Surface;
use crate::screen::{new_screen, new_surface, screen_of, surface_admits};

verus! {

/// A size in cells.
#[derive(Clone, Copy, Debug, PartialEq, Eq, Structural)]
pub struct Size {
    pub width: u32,
    pub height: u32,
}

/// Where the grid of a pane lies in its window.
#[derive(Clone, Copy, Debug, PartialEq, Eq, Structural)]
pub struct PaneLayout {
    /// The size of the window.
    pub window: Size,
    /// The column and row of the grid's corner inside the window.
    pub x: i32,
    pub y: i32,
    /// What the window is wider and higher than the grid.
    pub horizontal_adjustment: u32,
    pub vertical_adjustment: u32,
    /// The size of the grid.
    pub inner: Size,
}

/// What a tick found waiting from the child.
#[derive(Clone, Copy, Debug, PartialEq, Eq, Structural)]
pub enum Arrival {
    /// Nothing has arrived.
    Nothing,
    /// The process id of the child.
    Pid,
    /// Bytes that the child wrote.
    Stdout,
    /// An error of the transport.
    Error,
    /// The child has ended.
    Terminated,
}

/// What a pane does on a tick.
#[derive(Clone, Copy, Debug, PartialEq, Eq, Structural)]
pub enum TickAction {
    /// Send the terminate intent, close both channels and release the pane.
    Shutdown,
    /// Nothing to do.
    Idle,
    /// Parse the bytes against the current grid and install the result. Then,
    /// where `resize` holds a size, send it as a resize intent, give the grid
    /// that size and clear it.
    Render { resize: Option<Size> },
    /// Show the error and close the pane.
    Fail,
    /// Close the pane.
    Close,
}

/// The size of a window where none is configured.
pub open spec fn default_window() -> Size {
    Size { width: 100, height: 25 }
}

/// What a window is larger than its grid along one axis: two cells of frame
/// and the padding, as an unsigned 32-bit number.
pub open spec fn adjustment_spec(padding: i32) -> u32 {
    if 2 + padding < 0 {
        (2 + padding + 0x1_0000_0000) as u32
    } else {
        (2 + padding) as u32
    }
}

/// What is left of `outer` after `adjustment` is taken off, and nothing where
/// the adjustment is the larger.
pub open spec fn shrink(outer: u32, adjustment: u32) -> u32 {
    if outer >= adjustment {
        (outer - adjustment) as u32
    } else {
        0
    }
}

/// The size of the grid inside a window of size `outer`.
pub open spec fn inner_size_spec(
    outer: Size,
    horizontal_adjustment: u32,
    vertical_adjustment: u32,
) -> Size {
    Size {
        width: shrink(outer.width, horizontal_adjustment),
        height: shrink(outer.height, vertical_adjustment),
    }
}

/// The layout of a pane: the configured window size, or 100 by 25; the grid
/// at the padding, and smaller than the window by the frame and the padding.
pub open spec fn layout_spec(window: Option<Size>, padding: Option<(i32, i32)>) -> PaneLayout {
    let window = match window {
        Some(size) => size,
        None => default_window(),
    };
    let (x, y) = match padding {
        Some(p) => p,
        None => (0i32, 0i32),
    };
    PaneLayout {
        window,
        x,
        y,
        horizontal_adjustment: adjustment_spec(x),
        vertical_adjustment: adjustment_spec(y),
        inner: inner_size_spec(window, adjustment_spec(x), adjustment_spec(y)),
    }
}

/// What a pane does on a tick.
///
/// A pane marked for closing shuts down, whatever has arrived. Bytes from the
/// child are rendered, with a resize where the grid no longer has the size
/// that the window leaves for it. An error is shown and closes the pane; the
/// end of the child closes it. A process id, or nothing, leaves the pane idle.
pub open spec fn tick_spec(
    should_exit: bool,
    arrival: Arrival,
    window: Size,
    horizontal_adjustment: u32,
    vertical_adjustment: u32,
    grid: Size,
) -> TickAction {
    if should_exit {
        TickAction::Shutdown
    } else {
        match arrival {
            Arrival::Nothing => TickAction::Idle,
            Arrival::Pid => TickAction::Idle,
            Arrival::Stdout => {
                let inner = inner_size_spec(window, horizontal_adjustment, vertical_adjustment);
                TickAction::Render {
                    resize: if grid != inner {
                        Some(inner)
                    } else {
                        None
                    },
                }
            },
            Arrival::Error => TickAction::Fail,
            Arrival::Terminated => TickAction::Close,
        }
    }
}

/// What a window is larger than its grid along one axis.
pub fn adjustment(padding: i32) -> (adjustment: u32)
    ensures
        adjustment == adjustment_spec(padding),
{
    let sum: i64 = 2 + padding as i64;
    if sum < 0 {
        (sum + 0x1_0000_0000) as u32
    } else {
        sum as u32
    }
}

/// The size of the grid inside a window of size `outer`.
pub fn inner_size(outer: Size, horizontal_adjustment: u32, vertical_adjustment: u32) -> (inner: Size)
    ensures
        inner == inner_size_spec(outer, horizontal_adjustment, vertical_adjustment),
{
    Size {
        width: if outer.width >= horizontal_adjustment {
            outer.width - horizontal_adjustment
        } else {
            0
        },
        height: if outer.height >= vertical_adjustment {
            outer.height - vertical_adjustment
        } else {
            0
        },
    }
}

/// The layout of a pane from its configuration.
pub fn pane_layout(window: Option<Size>, padding: Option<(i32, i32)>) -> (layout: PaneLayout)
    ensures
        layout == layout_spec(window, padding),
{
    let window = match window {
        Some(size) => size,
        None => Size { width: 100, height: 25 },
    };
    let (x, y) = match padding {
        Some(p) => p,
        None => (0, 0),
    };
    let horizontal_adjustment = adjustment(x);
    let vertical_adjustment = adjustment(y);
    PaneLayout {
        window,
        x,
        y,
        horizontal_adjustment,
        vertical_adjustment,
        inner: inner_size(window, horizontal_adjustment, vertical_adjustment),
    }
}

/// Decides what a pane does on a tick.
pub fn tick(
    should_exit: bool,
    arrival: Arrival,
    window: Size,
    horizontal_adjustment: u32,
    vertical_adjustment: u32,
    grid: Size,
) -> (action: TickAction)
    ensures
        action == tick_spec(
            should_exit,
            arrival,
            window,
            horizontal_adjustment,
            vertical_adjustment,
            grid,
        ),
{
    if should_exit {
        return TickAction::Shutdown;
    }
    match arrival {
        Arrival::Nothing => TickAction::Idle,
        Arrival::Pid => TickAction::Idle,
        Arrival::Stdout => {
            let inner = inner_size(window, horizontal_adjustment, vertical_adjustment);
            if grid.width != inner.width || grid.height != inner.height {
                TickAction::Render { resize: Some(inner) }
            } else {
                TickAction::Render { resize: None }
            }
        },
        Arrival::Error => TickAction::Fail,
        Arrival::Terminated => TickAction::Close,
    }
}

/// A grid of blank cells for a pane: what a pane starts with, and what a
/// resize leaves. Nothing of an earlier grid is kept. The surface holds at
/// least one cell and at most 10000 each way, so a size beyond that is not
/// had in full.
pub fn blank_grid(size: Size) -> (grid: Surface)
    ensures
        screen_of(grid) == new_screen(size.width, size.height),
        forall|width: int, height: int|
            width <= i32::MAX + 1 && height <= i32::MAX + 1 ==> #[trigger] surface_admits(
                grid,
                width,
                height,
            ),
{
    new_surface(size.width, size.height)
}

impl TickAction {
    /// Whether the tick did anything: all but the idle one do.
    pub fn processed(&self) -> (processed: bool)
        ensures
            processed == !(*self == TickAction::Idle),
    {
        match self {
            TickAction::Idle => false,
            _ => true,
        }
    }
}

} // verus!
