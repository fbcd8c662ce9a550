use vstd::prelude::*;

verus! {

/// The screen that the session currently shows.
#[derive(Debug, Clone, Copy, PartialEq, Eq, Structural)]
pub enum View {
    Menu,
    NumberOfTurnsView,
    GameView,
    GameTables,
}

impl Default for View {
    fn default() -> (r: Self)
        ensures
            r == View::Menu,
    {
        View::Menu
    }
}

/// The entries of the main menu.
#[derive(Debug, Clone, Copy, PartialEq, Eq, Structural)]
pub enum MainMenu {
    /// Start a single-player game.
    Option1,
    /// Multiplayer, which this engine does not offer.
    Option2,
    /// Leave the application.
    Option3,
}

impl View {
    /// True on the screens that belong to a running game.
    pub open spec fn is_game(self) -> bool {
        self == View::GameView || self == View::GameTables
    }
}

} // verus!
