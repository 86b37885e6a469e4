//! The drawing surface that the emulator paints on, as far as the emulator
//! uses it: its reachable cells, its origin and its cursor.
//!
//! The surface itself is `appcui`'s. Nothing here is proved of it: the
//! contracts below state what its source shows.

use vstd::prelude::*;
use appcui::graphics::Surface;
use crate::color::{Cell, Color, BLACK, WHITE};

verus! {

/// `appcui`'s `Surface`, taken as it is: nothing inside it is looked at.
#[verifier::external_type_specification]
#[verifier::external_body]
pub struct ExSurface(Surface);

/// The cells of a surface that drawing can reach, each under the coordinates
/// `(x, y)` by which `Surface::char` finds it: the coordinates are relative to
/// the surface's origin, and only those inside its clip area have a cell.
pub uninterp spec fn surface_cells(surface: Surface) -> Map<(int, int), Cell>;

/// The origin of a surface: what is added to the coordinates handed to a
/// drawing call to find the column and the row of the cell.
pub uninterp spec fn surface_origin(surface: Surface) -> (i32, i32);

/// The column and row of the surface at which its cursor is shown, or `None`
/// while it is hidden.
pub uninterp spec fn surface_cursor(surface: Surface) -> Option<(int, int)>;

/// What the emulator sees of a surface.
#[verifier::ext_equal]
pub struct Screen {
    pub cells: Map<(int, int), Cell>,
    pub origin: (i32, i32),
    pub cursor: Option<(int, int)>,
}

/// The surface as the emulator sees it.
pub open spec fn screen_of(surface: Surface) -> Screen {
    Screen {
        cells: surface_cells(surface),
        origin: surface_origin(surface),
        cursor: surface_cursor(surface),
    }
}

/// The surface can take every coordinate of a grid of `width` columns and
/// `height` rows.
pub open spec fn surface_admits(surface: Surface, width: int, height: int) -> bool {
    &&& surface_origin(surface).0 + width - 1 <= i32::MAX
    &&& surface_origin(surface).1 + height - 1 <= i32::MAX
}

/// The surface can take the coordinates `(x, y)`: adding its origin to them
/// stays within `i32`.
pub open spec fn surface_takes(surface: Surface, x: int, y: int) -> bool {
    &&& i32::MIN <= x + surface_origin(surface).0 <= i32::MAX
    &&& i32::MIN <= y + surface_origin(surface).1 <= i32::MAX
}

/// The cells after `cell` is drawn at `(x, y)`: where there is a cell it takes
/// the overlay, elsewhere nothing changes.
pub open spec fn draw_at(cells: Map<(int, int), Cell>, x: int, y: int, cell: Cell) -> Map<
    (int, int),
    Cell,
> {
    if cells.dom().contains((x, y)) {
        cells.insert((x, y), crate::color::overlay(cells[(x, y)], cell))
    } else {
        cells
    }
}

/// The cells after `cell` is drawn on every one of them.
pub open spec fn draw_everywhere(cells: Map<(int, int), Cell>, cell: Cell) -> Map<
    (int, int),
    Cell,
> {
    Map::new(
        |p: (int, int)| cells.dom().contains(p),
        |p: (int, int)| crate::color::overlay(cells[p], cell),
    )
}

/// The cells after the one at `(x, y)`, if there is one, is replaced by
/// `cell`.
pub open spec fn put_at(cells: Map<(int, int), Cell>, x: int, y: int, cell: Cell) -> Map<
    (int, int),
    Cell,
> {
    if cells.dom().contains((x, y)) {
        cells.insert((x, y), cell)
    } else {
        cells
    }
}

/// The cells after each one whose coordinates lie in `area` is replaced by
/// `cell`.
pub open spec fn fill(cells: Map<(int, int), Cell>, area: Set<(int, int)>, cell: Cell) -> Map<
    (int, int),
    Cell,
> {
    Map::new(
        |p: (int, int)| cells.dom().contains(p),
        |p: (int, int)|
            if area.contains(p) {
                cell
            } else {
                cells[p]
            },
    )
}

/// Drawing a solid cell replaces the cell that was there.
pub proof fn lemma_draw_solid(cells: Map<(int, int), Cell>, x: int, y: int, cell: Cell)
    requires
        cell.solid(),
    ensures
        draw_at(cells, x, y, cell) == put_at(cells, x, y, cell),
{
}

/// Drawing a solid cell everywhere fills the whole surface with it.
pub proof fn lemma_draw_everywhere_solid(cells: Map<(int, int), Cell>, cell: Cell)
    requires
        cell.solid(),
    ensures
        draw_everywhere(cells, cell) == fill(cells, Set::full(), cell),
{
    assert(draw_everywhere(cells, cell) =~= fill(cells, Set::full(), cell));
}

/// The cursor after it is set to `(x, y)`: shown at that place, counted from
/// the surface's corner, if a cell is there, and hidden if not.
pub open spec fn cursor_set_to(screen: Screen, x: int, y: int) -> Option<(int, int)> {
    if screen.cells.dom().contains((x, y)) {
        Some((x + screen.origin.0, y + screen.origin.1))
    } else {
        None
    }
}

/// The largest width and height that a surface can have.
pub const MAX_EXTENT: u32 = 10000;

/// The number of columns or rows that a surface gets where `asked` are asked
/// for: at least one, and at most `MAX_EXTENT`.
pub open spec fn extent(asked: u32) -> int {
    if asked < 1 {
        1
    } else if asked > MAX_EXTENT {
        MAX_EXTENT as int
    } else {
        asked as int
    }
}

/// The cell that a new surface is filled with: a space, white on black,
/// without flags.
pub open spec fn default_cell() -> Cell {
    Cell {
        code: ' ',
        foreground: Color::Palette(WHITE),
        background: Color::Palette(BLACK),
        flags: 0,
    }
}

/// A new surface for which `width` columns and `height` rows were asked:
/// every cell of it can be reached and holds the default cell, its origin is
/// its corner, and its cursor is hidden.
pub open spec fn new_screen(width: u32, height: u32) -> Screen {
    Screen {
        cells: Map::new(
            |p: (int, int)| 0 <= p.0 < extent(width) && 0 <= p.1 < extent(height),
            |p: (int, int)| default_cell(),
        ),
        origin: (0i32, 0i32),
        cursor: None,
    }
}

/// Calls `Surface::new`.
///
/// Believed of it: the size asked for is held between 1 and 10000 each way;
/// all cells hold a space, white on black, without flags; the origin is the
/// corner, the clip area the whole surface, and the cursor hidden.
#[verifier::external_body]
pub(crate) fn new_surface(width: u32, height: u32) -> (surface: Surface)
    ensures
        screen_of(surface) == new_screen(width, height),
{
    Surface::new(width, height)
}

/// Calls `Surface::write_char` with the character that `cell` describes.
///
/// Believed of it: a position outside the clip area is left alone; inside, the
/// one cell at `(x, y)` is set from the character (`Character::set`), which
/// keeps the old character for NUL and an old color for a transparent one.
/// Origin and cursor stay. The call adds the origin to `x` and `y`, so both
/// sums have to fit; the cell has to be valid for the conversions to succeed.
#[verifier::external_body]
pub(crate) fn write_char(surface: &mut Surface, x: i32, y: i32, cell: Cell)
    requires
        cell.valid(),
        surface_takes(*old(surface), x as int, y as int),
    ensures
        surface_cells(*final(surface)) == draw_at(surface_cells(*old(surface)), x as int, y as int, cell),
        surface_origin(*final(surface)) == surface_origin(*old(surface)),
        surface_cursor(*final(surface)) == surface_cursor(*old(surface)),
{
    let fore = match cell.foreground {
        Color::Palette(i) => appcui::graphics::Color::from_value(i32::from(i)).unwrap(),
        Color::Rgb(r, g, b) => appcui::graphics::Color::RGB(r, g, b),
    };
    let back = match cell.background {
        Color::Palette(i) => appcui::graphics::Color::from_value(i32::from(i)).unwrap(),
        Color::Rgb(r, g, b) => appcui::graphics::Color::RGB(r, g, b),
    };
    let flags = appcui::graphics::CharFlags::from_value(cell.flags).unwrap();
    surface.write_char(x, y, appcui::graphics::Character::new(cell.code, fore, back, flags));
}

/// Calls `Surface::clear` with the character that `cell` describes.
///
/// Believed of it: every cell inside the clip area is set from the character,
/// as `write_char` sets one; the cells outside stay, as do origin and cursor.
#[verifier::external_body]
pub(crate) fn clear(surface: &mut Surface, cell: Cell)
    requires
        cell.valid(),
    ensures
        surface_cells(*final(surface)) == draw_everywhere(surface_cells(*old(surface)), cell),
        surface_origin(*final(surface)) == surface_origin(*old(surface)),
        surface_cursor(*final(surface)) == surface_cursor(*old(surface)),
{
    let fore = match cell.foreground {
        Color::Palette(i) => appcui::graphics::Color::from_value(i32::from(i)).unwrap(),
        Color::Rgb(r, g, b) => appcui::graphics::Color::RGB(r, g, b),
    };
    let back = match cell.background {
        Color::Palette(i) => appcui::graphics::Color::from_value(i32::from(i)).unwrap(),
        Color::Rgb(r, g, b) => appcui::graphics::Color::RGB(r, g, b),
    };
    let flags = appcui::graphics::CharFlags::from_value(cell.flags).unwrap();
    surface.clear(appcui::graphics::Character::new(cell.code, fore, back, flags));
}

/// Calls `Surface::hide_cursor`.
///
/// Believed of it: the cursor is hidden afterwards, and nothing else changes.
#[verifier::external_body]
pub(crate) fn hide_cursor(surface: &mut Surface)
    ensures
        surface_cursor(*final(surface)) == None::<(int, int)>,
        surface_cells(*final(surface)) == surface_cells(*old(surface)),
        surface_origin(*final(surface)) == surface_origin(*old(surface)),
{
    surface.hide_cursor();
}

/// Calls `Surface::set_cursor`.
///
/// Believed of it: the cursor is shown at `(x, y)`, origin added, if that
/// lies inside the clip area, and hidden if not; nothing else changes. The
/// call adds the origin to `x` and `y`, so both sums have to fit.
#[verifier::external_body]
pub(crate) fn set_cursor(surface: &mut Surface, x: i32, y: i32)
    requires
        surface_takes(*old(surface), x as int, y as int),
    ensures
        surface_cursor(*final(surface)) == cursor_set_to(
            screen_of(*old(surface)),
            x as int,
            y as int,
        ),
        surface_cells(*final(surface)) == surface_cells(*old(surface)),
        surface_origin(*final(surface)) == surface_origin(*old(surface)),
{
    surface.set_cursor(x, y);
}

} // verus!
