use desktop_tui::pane::{adjustment, inner_size, pane_layout, tick, Arrival, PaneLayout, Size, TickAction};

const WINDOW: Size = Size { width: 100, height: 25 };
const GRID: Size = Size { width: 98, height: 23 };

#[test]
fn marked_pane_shuts_down() {
    for arrival in [Arrival::Nothing, Arrival::Pid, Arrival::Stdout, Arrival::Error, Arrival::Terminated] {
        assert_eq!(tick(true, arrival, WINDOW, 2, 2, GRID), TickAction::Shutdown);
    }
}

#[test]
fn nothing_to_do_without_output() {
    assert_eq!(tick(false, Arrival::Nothing, WINDOW, 2, 2, GRID), TickAction::Idle);
    assert_eq!(tick(false, Arrival::Pid, WINDOW, 2, 2, GRID), TickAction::Idle);
    assert!(!TickAction::Idle.processed());
}

#[test]
fn output_is_rendered() {
    let action = tick(false, Arrival::Stdout, WINDOW, 2, 2, GRID);
    assert_eq!(action, TickAction::Render { resize: None });
    assert!(action.processed());
}

#[test]
fn changed_size_asks_for_a_resize() {
    let window = Size { width: 80, height: 30 };
    assert_eq!(
        tick(false, Arrival::Stdout, window, 2, 2, GRID),
        TickAction::Render { resize: Some(Size { width: 78, height: 28 }) }
    );
    assert_eq!(
        tick(false, Arrival::Stdout, WINDOW, 3, 2, GRID),
        TickAction::Render { resize: Some(Size { width: 97, height: 23 }) }
    );
    assert_eq!(
        tick(false, Arrival::Stdout, Size { width: 1, height: 25 }, 2, 2, GRID),
        TickAction::Render { resize: Some(Size { width: 0, height: 23 }) }
    );
}

#[test]
fn errors_and_the_end_of_the_child_close_the_pane() {
    assert_eq!(tick(false, Arrival::Error, WINDOW, 2, 2, GRID), TickAction::Fail);
    assert_eq!(tick(false, Arrival::Terminated, WINDOW, 2, 2, GRID), TickAction::Close);
    assert!(TickAction::Fail.processed());
    assert!(TickAction::Close.processed());
    assert!(TickAction::Shutdown.processed());
}

#[test]
fn inner_size_never_goes_below_zero() {
    assert_eq!(inner_size(WINDOW, 2, 2), GRID);
    assert_eq!(inner_size(WINDOW, 100, 25), Size { width: 0, height: 0 });
    assert_eq!(inner_size(WINDOW, 101, 4_000_000_000), Size { width: 0, height: 0 });
    assert_eq!(inner_size(WINDOW, 0, 0), WINDOW);
}

#[test]
fn adjustment_is_frame_plus_padding() {
    assert_eq!(adjustment(0), 2);
    assert_eq!(adjustment(3), 5);
    assert_eq!(adjustment(-2), 0);
    assert_eq!(adjustment(-3), u32::MAX);
    assert_eq!(adjustment(i32::MAX), 0x8000_0001);
    assert_eq!(adjustment(i32::MIN), 0x8000_0002);
}

#[test]
fn layout_of_a_pane() {
    assert_eq!(
        pane_layout(None, None),
        PaneLayout { window: WINDOW, x: 0, y: 0, horizontal_adjustment: 2, vertical_adjustment: 2, inner: GRID }
    );
    assert_eq!(
        pane_layout(Some(Size { width: 40, height: 10 }), Some((1, 2))),
        PaneLayout {
            window: Size { width: 40, height: 10 },
            x: 1,
            y: 2,
            horizontal_adjustment: 3,
            vertical_adjustment: 4,
            inner: Size { width: 37, height: 6 },
        }
    );
    assert_eq!(pane_layout(Some(Size { width: 2, height: 1 }), None).inner, Size { width: 0, height: 0 });
    assert_eq!(pane_layout(None, Some((-5, 0))).inner, Size { width: 0, height: 23 });
}

#[test]
fn blank_grid_is_blank() {
    let grid = desktop_tui::pane::blank_grid(Size { width: 4, height: 3 });
    assert_eq!(grid.size().width, 4);
    assert_eq!(grid.size().height, 3);
    let blank = appcui::graphics::Character::new(
        ' ',
        appcui::graphics::Color::White,
        appcui::graphics::Color::Black,
        appcui::graphics::CharFlags::None,
    );
    for y in 0..3 {
        for x in 0..4 {
            assert_eq!(grid.char(x, y), Some(&blank));
        }
    }
    assert!(grid.char(4, 0).is_none());
    assert!(grid.char(0, 3).is_none());
    assert!(grid.char(-1, 0).is_none());
}

#[test]
fn blank_grid_holds_its_size_between_1_and_10000() {
    let grid = desktop_tui::pane::blank_grid(Size { width: 0, height: 0 });
    assert_eq!((grid.size().width, grid.size().height), (1, 1));
    let grid = desktop_tui::pane::blank_grid(Size { width: 20000, height: 1 });
    assert_eq!((grid.size().width, grid.size().height), (10000, 1));
}

#[test]
fn blank_grid_takes_output() {
    let mut parser = desktop_tui::terminal_emulation::TerminalParser::new(4, 3);
    let grid = desktop_tui::pane::blank_grid(Size { width: 4, height: 3 });
    let grid = parser.parse_to_surface(b"\x1b[3;4H#", grid);
    assert_eq!(grid.char(3, 2).map(|cell| cell.code), Some('#'));
}
