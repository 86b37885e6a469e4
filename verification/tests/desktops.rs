use desktop_tui::desktop::{arrangement, command_named, menu_action, Arrangement, MenuAction, MenuCommand, WindowState};

const STATES: [WindowState; 4] = [WindowState::Absent, WindowState::Lost, WindowState::Visible, WindowState::Hidden];

#[test]
fn exit_closes_everything() {
    for state in STATES {
        assert_eq!(menu_action(MenuCommand::Exit, state), MenuAction::CloseAll);
    }
}

#[test]
fn open_needs_no_window() {
    assert_eq!(menu_action(MenuCommand::OpenApp, WindowState::Absent), MenuAction::Open);
    assert_eq!(menu_action(MenuCommand::OpenApp, WindowState::Lost), MenuAction::Open);
    assert_eq!(menu_action(MenuCommand::OpenApp, WindowState::Visible), MenuAction::Nothing);
    assert_eq!(menu_action(MenuCommand::OpenApp, WindowState::Hidden), MenuAction::Nothing);
}

#[test]
fn additional_command_needs_a_fresh_shortcut() {
    assert_eq!(menu_action(MenuCommand::AppCommand, WindowState::Absent), MenuAction::OpenAdditional);
    assert_eq!(menu_action(MenuCommand::AppCommand, WindowState::Lost), MenuAction::Nothing);
    assert_eq!(menu_action(MenuCommand::AppCommand, WindowState::Visible), MenuAction::Nothing);
    assert_eq!(menu_action(MenuCommand::AppCommand, WindowState::Hidden), MenuAction::Nothing);
}

#[test]
fn toggle_and_close_need_the_window() {
    assert_eq!(menu_action(MenuCommand::AppVisibilityToggle, WindowState::Visible), MenuAction::Hide);
    assert_eq!(menu_action(MenuCommand::AppVisibilityToggle, WindowState::Hidden), MenuAction::Show);
    assert_eq!(menu_action(MenuCommand::AppVisibilityToggle, WindowState::Absent), MenuAction::Nothing);
    assert_eq!(menu_action(MenuCommand::AppVisibilityToggle, WindowState::Lost), MenuAction::Nothing);
    assert_eq!(menu_action(MenuCommand::CloseApp, WindowState::Visible), MenuAction::Close);
    assert_eq!(menu_action(MenuCommand::CloseApp, WindowState::Hidden), MenuAction::Close);
    assert_eq!(menu_action(MenuCommand::CloseApp, WindowState::Absent), MenuAction::Nothing);
    assert_eq!(menu_action(MenuCommand::CloseApp, WindowState::Lost), MenuAction::Nothing);
}

#[test]
fn arrangement_commands_do_nothing_to_windows() {
    for command in [MenuCommand::NoArrange, MenuCommand::Cascade, MenuCommand::Vertical, MenuCommand::Horizontal, MenuCommand::Grid, MenuCommand::Other] {
        for state in STATES {
            assert_eq!(menu_action(command, state), MenuAction::Nothing);
        }
    }
}

#[test]
fn arrangement_follows_the_choice() {
    assert_eq!(arrangement(MenuCommand::NoArrange, Some(Arrangement::Grid)), None);
    assert_eq!(arrangement(MenuCommand::Cascade, None), Some(Arrangement::Cascade));
    assert_eq!(arrangement(MenuCommand::Vertical, None), Some(Arrangement::Vertical));
    assert_eq!(arrangement(MenuCommand::Horizontal, Some(Arrangement::Grid)), Some(Arrangement::Horizontal));
    assert_eq!(arrangement(MenuCommand::Grid, None), Some(Arrangement::Grid));
    assert_eq!(arrangement(MenuCommand::Exit, Some(Arrangement::Vertical)), Some(Arrangement::Vertical));
    assert_eq!(arrangement(MenuCommand::OpenApp, None), None);
}

#[test]
fn additional_command_is_found_by_its_caption() {
    let names = vec!["logs".to_string(), "top".to_string(), "logs".to_string()];
    assert_eq!(command_named(&names, &"logs".to_string()), Some(0));
    assert_eq!(command_named(&names, &"top".to_string()), Some(1));
    assert_eq!(command_named(&names, &"Top".to_string()), None);
    assert_eq!(command_named(&[], &"top".to_string()), None);
}
