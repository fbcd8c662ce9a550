use crate::views::MainMenu;
use vstd::prelude::*;

verus! {

/// The intents that the session handles, one at a time.
#[derive(Debug, Clone)]
pub enum Message {
    Menu(MenuMessage),
    /// The configuration field now holds this text.
    InputChanged(String),
    /// Submit the configuration field as the number of turns.
    NumberOfTurns,
    BackToMainMenu,
    /// The human player wrote `value` in turn `row`, category `col`.
    PlayerInputChanged { row: usize, col: usize, value: String },
    /// The answers of the word source for a requested batch, in board order;
    /// `None` where a lookup failed.
    RandomWordsFetched(Vec<Option<String>>),
}

#[derive(Debug, Clone, Copy, PartialEq, Eq, Structural)]
pub enum MenuMessage {
    Select(MainMenu),
}

} // verus!
