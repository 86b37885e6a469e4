//! The decisions of the desktop: what a command of a menu does to the window
//! of a shortcut, and how the windows are arranged.

use vstd::prelude::*;

verus! {

/// A command of the desktop's menus.
#[derive(Clone, Copy, Debug, PartialEq, Eq, Structural)]
pub enum MenuCommand {
    Exit,
    NoArrange,
    Cascade,
    Vertical,
    Horizontal,
    Grid,
    AppVisibilityToggle,
    OpenApp,
    CloseApp,
    AppCommand,
    Other,
}

/// What the desktop knows of the window of a shortcut.
#[derive(Clone, Copy, Debug, PartialEq, Eq, Structural)]
pub enum WindowState {
    /// No window was opened for the shortcut, or it was closed from the menu.
    Absent,
    /// A window was opened, but it is gone.
    Lost,
    /// The window is there and shown.
    Visible,
    /// The window is there and hidden.
    Hidden,
}

/// What the desktop does for a command.
#[derive(Clone, Copy, Debug, PartialEq, Eq, Structural)]
pub enum MenuAction {
    /// Nothing.
    Nothing,
    /// Close every window, then the desktop.
    CloseAll,
    /// Open a window that runs the shortcut's own command.
    Open,
    /// Open a window that runs the additional command that the menu item
    /// names.
    OpenAdditional,
    /// Hide the window; the menu item then offers to show it.
    Hide,
    /// Show the window; the menu item then offers to hide it.
    Show,
    /// Close the window and forget it.
    Close,
}

/// How the windows of the desktop are arranged.
#[derive(Clone, Copy, Debug, PartialEq, Eq, Structural)]
pub enum Arrangement {
    Cascade,
    Vertical,
    Horizontal,
    Grid,
}

/// What the desktop does for a command of the menu of a shortcut whose window
/// is in the given state.
///
/// `Exit` closes everything. Opening works only while no window is there;
/// an additional command only while none was opened. The visibility toggle
/// and closing need the window.
pub open spec fn menu_action_spec(command: MenuCommand, window: WindowState) -> MenuAction {
    match command {
        MenuCommand::Exit => MenuAction::CloseAll,
        MenuCommand::OpenApp => match window {
            WindowState::Absent => MenuAction::Open,
            WindowState::Lost => MenuAction::Open,
            _ => MenuAction::Nothing,
        },
        MenuCommand::AppCommand => match window {
            WindowState::Absent => MenuAction::OpenAdditional,
            _ => MenuAction::Nothing,
        },
        MenuCommand::AppVisibilityToggle => match window {
            WindowState::Visible => MenuAction::Hide,
            WindowState::Hidden => MenuAction::Show,
            _ => MenuAction::Nothing,
        },
        MenuCommand::CloseApp => match window {
            WindowState::Visible => MenuAction::Close,
            WindowState::Hidden => MenuAction::Close,
            _ => MenuAction::Nothing,
        },
        _ => MenuAction::Nothing,
    }
}

/// The arrangement after a choice in the arrangement menu: the one chosen,
/// none for `NoArrange`, and the current one for any other command.
pub open spec fn arrangement_spec(command: MenuCommand, current: Option<Arrangement>) -> Option<
    Arrangement,
> {
    match command {
        MenuCommand::NoArrange => None,
        MenuCommand::Cascade => Some(Arrangement::Cascade),
        MenuCommand::Vertical => Some(Arrangement::Vertical),
        MenuCommand::Horizontal => Some(Arrangement::Horizontal),
        MenuCommand::Grid => Some(Arrangement::Grid),
        _ => current,
    }
}

/// `found` is the place of the first of `names` that equals `caption`, or
/// `None` where none does.
pub open spec fn is_first_named(names: Seq<String>, caption: Seq<char>, found: Option<usize>) -> bool {
    match found {
        Some(at) => {
            &&& at < names.len()
            &&& names[at as int]@ == caption
            &&& forall|k: int| 0 <= k < at ==> (#[trigger] names[k])@ != caption
        },
        None => forall|k: int| 0 <= k < names.len() ==> (#[trigger] names[k])@ != caption,
    }
}

/// Decides what the desktop does for a command of a shortcut's menu.
pub fn menu_action(command: MenuCommand, window: WindowState) -> (action: MenuAction)
    ensures
        action == menu_action_spec(command, window),
{
    match command {
        MenuCommand::Exit => MenuAction::CloseAll,
        MenuCommand::OpenApp => match window {
            WindowState::Absent => MenuAction::Open,
            WindowState::Lost => MenuAction::Open,
            _ => MenuAction::Nothing,
        },
        MenuCommand::AppCommand => match window {
            WindowState::Absent => MenuAction::OpenAdditional,
            _ => MenuAction::Nothing,
        },
        MenuCommand::AppVisibilityToggle => match window {
            WindowState::Visible => MenuAction::Hide,
            WindowState::Hidden => MenuAction::Show,
            _ => MenuAction::Nothing,
        },
        MenuCommand::CloseApp => match window {
            WindowState::Visible => MenuAction::Close,
            WindowState::Hidden => MenuAction::Close,
            _ => MenuAction::Nothing,
        },
        _ => MenuAction::Nothing,
    }
}

/// The arrangement after a choice in the arrangement menu.
pub fn arrangement(command: MenuCommand, current: Option<Arrangement>) -> (chosen: Option<Arrangement>)
    ensures
        chosen == arrangement_spec(command, current),
{
    match command {
        MenuCommand::NoArrange => None,
        MenuCommand::Cascade => Some(Arrangement::Cascade),
        MenuCommand::Vertical => Some(Arrangement::Vertical),
        MenuCommand::Horizontal => Some(Arrangement::Horizontal),
        MenuCommand::Grid => Some(Arrangement::Grid),
        _ => current,
    }
}

/// Finds the additional command that a menu item stands for: the first whose
/// name is the item's caption.
pub fn command_named(names: &[String], caption: &String) -> (found: Option<usize>)
    ensures
        is_first_named(names@, caption@, found),
{
    let mut i: usize = 0;
    while i < names.len()
        invariant
            i <= names.len(),
            forall|k: int| 0 <= k < i ==> (#[trigger] names@[k])@ != caption@,
        decreases names.len() - i,
    {
        if names[i] == *caption {
            return Some(i);
        }
        i = i + 1;
    }
    None
}

} // verus!
