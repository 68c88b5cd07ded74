use vstd::prelude::*;

verus! {

/// The screens a session moves through.
#[derive(Clone, Copy, PartialEq, Eq, Structural, Debug, Hash)]
pub enum GameState {
    MainMenu,
    Gameplay,
    Paused,
}

/// What becomes of the build menu after a frame's selection.
#[derive(Clone, Copy, PartialEq, Eq, Structural, Debug)]
pub enum MenuAction {
    Keep,
    Spawn,
    Despawn,
}

/// Decides the build menu from whether a tower base is selected and whether
/// the menu is open: it opens on a selection and closes when nothing is
/// selected.
pub fn create_ui_on_selection(at_least_one_selected: bool, menu_open: bool) -> (r: MenuAction)
    ensures
        r == (if menu_open && !at_least_one_selected {
            MenuAction::Despawn
        } else if !menu_open && at_least_one_selected {
            MenuAction::Spawn
        } else {
            MenuAction::Keep
        }),
{
    if menu_open {
        if !at_least_one_selected {
            MenuAction::Despawn
        } else {
            MenuAction::Keep
        }
    } else if at_least_one_selected {
        MenuAction::Spawn
    } else {
        MenuAction::Keep
    }
}

} // verus!
