//! The main menu and the practice overlay.
use vstd::prelude::*;

verus! {

/// Event returned by the main menu when user wants to navigate
#[derive(Debug, Clone, PartialEq, Eq, Structural)]
pub enum MainMenuAction {
    /// User clicked Play - go to song select
    Play,
    /// User clicked Quit - exit the game
    Quit,
    /// No action
    Nothing,
}

/// The main menu screen: the title and the Play and Quit buttons.
pub struct MainMenuScreen;

/// The action a frame of the main menu yields: Quit where Quit was clicked,
/// else Play where Play was, else nothing (Quit is handled after Play).
pub fn main_menu_action(play_clicked: bool, quit_clicked: bool) -> (r: MainMenuAction)
    ensures
        r == if quit_clicked {
            MainMenuAction::Quit
        } else if play_clicked {
            MainMenuAction::Play
        } else {
            MainMenuAction::Nothing
        },
{
    let mut action = MainMenuAction::Nothing;
    if play_clicked {
        action = MainMenuAction::Play;
    }
    if quit_clicked {
        action = MainMenuAction::Quit;
    }
    action
}

/// The practice mode overlay: the progress bar with its checkpoints.
pub struct PracticeOverlay;

} // verus!
