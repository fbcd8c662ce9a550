use crate::config::{is_positive_count, numeral_value, parse_positive_count};
use crate::generator::{fallback_marker, lookup_views};
use crate::grid::{
    cell_total, checked_cell_total, initial_grid, lemma_index_bounds, lemma_simulated_index,
    lemma_totals, lookup_total, Cell, Grid,
    GridError, GridModel,
};
use crate::messages::{MenuMessage, Message};
use crate::views::{MainMenu, View};
use vstd::prelude::*;
use vstd::view::View as _;

verus! {

/// What the driver around the session has to do after an intent was handled.
#[derive(Debug, Clone, PartialEq, Eq)]
pub enum Outcome {
    /// Nothing: render the new state.
    Continued,
    /// The configuration text was refused; the state did not change.
    InvalidInput,
    /// The player chose to leave; the driver ends the process with success.
    Exited,
    /// The chosen menu entry is not available.
    Unsupported(MainMenu),
    /// The human player's answer was refused; nothing changed.
    EditRejected(GridError),
    /// Look up one word for each entry, which holds the index of the category
    /// asked for, and answer with `Message::RandomWordsFetched` in this order.
    WordsRequested(Vec<usize>),
}

pub enum OutcomeModel {
    Continued,
    InvalidInput,
    Exited,
    Unsupported(MainMenu),
    EditRejected(GridError),
    WordsRequested(Seq<usize>),
}

impl vstd::view::View for Outcome {
    type V = OutcomeModel;

    open spec fn view(&self) -> OutcomeModel {
        match self {
            Outcome::Continued => OutcomeModel::Continued,
            Outcome::InvalidInput => OutcomeModel::InvalidInput,
            Outcome::Exited => OutcomeModel::Exited,
            Outcome::Unsupported(o) => OutcomeModel::Unsupported(*o),
            Outcome::EditRejected(e) => OutcomeModel::EditRejected(*e),
            Outcome::WordsRequested(v) => OutcomeModel::WordsRequested(v@),
        }
    }
}

pub enum MessageModel {
    Select(MainMenu),
    InputChanged(Seq<char>),
    NumberOfTurns,
    BackToMainMenu,
    PlayerInputChanged { row: int, col: int, value: Seq<char> },
    RandomWordsFetched(Seq<Option<Seq<char>>>),
}

impl vstd::view::View for Message {
    type V = MessageModel;

    open spec fn view(&self) -> MessageModel {
        match self {
            Message::Menu(MenuMessage::Select(o)) => MessageModel::Select(*o),
            Message::InputChanged(s) => MessageModel::InputChanged(s@),
            Message::NumberOfTurns => MessageModel::NumberOfTurns,
            Message::BackToMainMenu => MessageModel::BackToMainMenu,
            Message::PlayerInputChanged { row, col, value } => MessageModel::PlayerInputChanged {
                row: *row as int,
                col: *col as int,
                value: value@,
            },
            Message::RandomWordsFetched(w) => MessageModel::RandomWordsFetched(lookup_views(w@)),
        }
    }
}

/// The state of one run of the game.
pub struct SessionModel {
    pub view: View,
    pub input: Seq<char>,
    pub turns: nat,
    pub players: nat,
    pub categories: Seq<Seq<char>>,
    /// A batch of words was requested and has not been applied yet.
    pub awaiting_words: bool,
    pub grid: Option<GridModel>,
}

pub open spec fn default_categories() -> Seq<Seq<char>> {
    seq!["Country"@, "City"@, "Plant"@, "Animal"@, "River"@]
}

/// The category asked for by each lookup of a batch, in board order.
pub open spec fn lookup_categories(players: nat, turns: nat, categories: nat) -> Seq<usize> {
    Seq::new(lookup_total(players, turns, categories), |k: int| (k % categories as int) as usize)
}

impl SessionModel {
    pub open spec fn wf(self) -> bool {
        &&& self.players >= 2
        &&& (self.grid is Some <==> self.view.is_game())
        &&& (self.grid matches Some(g) ==> {
            &&& g.wf()
            &&& g.players == self.players
            &&& g.turns == self.turns
            &&& g.categories == self.categories.len()
        })
        &&& (self.awaiting_words ==> {
            &&& self.view == View::NumberOfTurnsView
            &&& self.turns >= 1
            &&& cell_total(self.players, self.turns, self.categories.len()) <= usize::MAX
        })
    }

    /// The turn count that the configuration text would set: a positive count
    /// whose board fits in memory.
    pub open spec fn accepts_input(self) -> bool {
        &&& self.view == View::NumberOfTurnsView
        &&& !self.awaiting_words
        &&& is_positive_count(self.input)
        &&& cell_total(self.players, numeral_value(self.input) as nat, self.categories.len())
            <= usize::MAX
    }

    pub open spec fn select(self, option: MainMenu) -> (SessionModel, OutcomeModel) {
        if self.view != View::Menu {
            (self, OutcomeModel::Continued)
        } else {
            match option {
                MainMenu::Option1 => (
                    SessionModel { view: View::NumberOfTurnsView, ..self },
                    OutcomeModel::Continued,
                ),
                MainMenu::Option2 => (self, OutcomeModel::Unsupported(MainMenu::Option2)),
                MainMenu::Option3 => (self, OutcomeModel::Exited),
            }
        }
    }

    pub open spec fn with_input(self, text: Seq<char>) -> SessionModel {
        SessionModel { input: text, ..self }
    }

    pub open spec fn submit(self) -> (SessionModel, OutcomeModel) {
        if self.accepts_input() {
            let n = numeral_value(self.input) as nat;
            (
                SessionModel { turns: n, input: Seq::empty(), awaiting_words: true, ..self },
                OutcomeModel::WordsRequested(
                    lookup_categories(self.players, n, self.categories.len()),
                ),
            )
        } else if self.view == View::NumberOfTurnsView && !self.awaiting_words {
            (self, OutcomeModel::InvalidInput)
        } else {
            (self, OutcomeModel::Continued)
        }
    }

    /// Whether a batch of lookups is the one the session waits for.
    pub open spec fn expects(self, words: Seq<Option<Seq<char>>>) -> bool {
        &&& self.awaiting_words
        &&& words.len() == lookup_total(self.players, self.turns, self.categories.len())
    }

    pub open spec fn apply_words(self, words: Seq<Option<Seq<char>>>) -> SessionModel {
        if self.expects(words) {
            SessionModel {
                view: View::GameTables,
                awaiting_words: false,
                grid: Some(initial_grid(self.players, self.turns, self.categories.len(), words)),
                ..self
            }
        } else {
            self
        }
    }

    pub open spec fn back_to_menu(self) -> SessionModel {
        SessionModel {
            view: View::Menu,
            input: Seq::empty(),
            turns: 0,
            awaiting_words: false,
            grid: None,
            ..self
        }
    }

    pub open spec fn can_edit(self, turn: int, category: int) -> bool {
        self.grid matches Some(g) && g.in_range(0, turn, category)
    }

    pub open spec fn edit(self, turn: int, category: int, text: Seq<char>) -> SessionModel {
        match self.grid {
            Some(g) => SessionModel {
                grid: Some(g.with_human_value(turn, category, text)),
                ..self
            },
            None => self,
        }
    }

    /// How a write of the human player's answer is reported.
    pub open spec fn edit_outcome(self, turn: int, category: int) -> OutcomeModel {
        if self.can_edit(turn, category) {
            OutcomeModel::Continued
        } else if self.grid is None {
            OutcomeModel::EditRejected(GridError::NoGame)
        } else {
            OutcomeModel::EditRejected(GridError::OutOfRange)
        }
    }

    /// The session after one intent, and what the driver has to do.
    pub open spec fn step(self, m: MessageModel) -> (SessionModel, OutcomeModel) {
        match m {
            MessageModel::Select(o) => self.select(o),
            MessageModel::InputChanged(s) => (self.with_input(s), OutcomeModel::Continued),
            MessageModel::NumberOfTurns => self.submit(),
            MessageModel::BackToMainMenu => (self.back_to_menu(), OutcomeModel::Continued),
            MessageModel::PlayerInputChanged { row, col, value } => (
                self.edit(row, col, value),
                self.edit_outcome(row, col),
            ),
            MessageModel::RandomWordsFetched(w) => (self.apply_words(w), OutcomeModel::Continued),
        }
    }
}

/// The session: the current screen, the configuration field, and the board
/// once a game runs. Player 0 is the human; the others are simulated.
pub struct MainMenuApp {
    pub current_view: View,
    pub input_value: String,
    pub number_of_turns: usize,
    pub player_count: usize,
    pub categories: Vec<String>,
    pub awaiting_words: bool,
    pub grid: Option<Grid>,
}

impl vstd::view::View for MainMenuApp {
    type V = SessionModel;

    open spec fn view(&self) -> SessionModel {
        SessionModel {
            view: self.current_view,
            input: self.input_value@,
            turns: self.number_of_turns as nat,
            players: self.player_count as nat,
            categories: self.categories@.map_values(|s: String| s@),
            awaiting_words: self.awaiting_words,
            grid: match self.grid {
                Some(g) => Some(g@),
                None => None,
            },
        }
    }
}

impl Default for MainMenuApp {
    fn default() -> (r: Self)
        ensures
            r@.wf(),
            r@.view == View::Menu,
            r@.input.len() == 0,
            r@.turns == 0,
            r@.players == 3,
            r@.categories == default_categories(),
            !r@.awaiting_words,
            r@.grid is None,
    {
        let mut categories: Vec<String> = Vec::new();
        categories.push(String::from_str("Country"));
        categories.push(String::from_str("City"));
        categories.push(String::from_str("Plant"));
        categories.push(String::from_str("Animal"));
        categories.push(String::from_str("River"));
        let r = MainMenuApp::with_setup(3, categories);
        assert(r@.categories =~= default_categories());
        r
    }
}

/// The category index asked for by each lookup of a batch.
fn request_for(players: usize, turns: usize, categories: usize) -> (r: Vec<usize>)
    requires
        players >= 1,
        cell_total(players as nat, turns as nat, categories as nat) <= usize::MAX,
    ensures
        r@ == lookup_categories(players as nat, turns as nat, categories as nat),
{
    let total = match checked_cell_total(players, turns, categories) {
        Some(n) => n,
        None => 0,
    };
    proof {
        lemma_totals(players as nat, turns as nat, categories as nat);
    }
    let count = total - turns * categories;
    let ghost expected = lookup_categories(players as nat, turns as nat, categories as nat);
    let mut r: Vec<usize> = Vec::new();
    let mut k: usize = 0;
    while k < count
        invariant
            k <= count,
            count == expected.len(),
            count > 0 ==> categories > 0,
            expected == lookup_categories(players as nat, turns as nat, categories as nat),
            r@.len() == k,
            forall|j: int| 0 <= j < k ==> r@[j] == expected[j],
        decreases count - k,
    {
        r.push(k % categories);
        k = k + 1;
    }
    assert(r@ =~= expected);
    r
}

impl MainMenuApp {
    /// A session at the menu for `player_count` players (the human and the
    /// simulated ones) and the given categories.
    pub fn with_setup(player_count: usize, categories: Vec<String>) -> (r: Self)
        requires
            player_count >= 2,
        ensures
            r@.wf(),
            r@.view == View::Menu,
            r@.input.len() == 0,
            r@.turns == 0,
            r@.players == player_count,
            r@.categories == categories@.map_values(|s: String| s@),
            !r@.awaiting_words,
            r@.grid is None,
    {
        MainMenuApp {
            current_view: View::Menu,
            input_value: String::new(),
            number_of_turns: 0,
            player_count,
            categories,
            awaiting_words: false,
            grid: None,
        }
    }

    pub fn new() -> (r: Self)
        ensures
            r@.wf(),
            r@.view == View::Menu,
            r@.input.len() == 0,
            r@.turns == 0,
            r@.players == 3,
            r@.categories == default_categories(),
            !r@.awaiting_words,
            r@.grid is None,
    {
        MainMenuApp::default()
    }

    pub fn title(&self) -> (r: String)
        ensures
            r@ == "Cities-States"@,
    {
        String::from_str("Cities-States")
    }

    /// A choice on the main menu; ignored on other screens.
    pub fn select_menu_option(&mut self, option: MainMenu) -> (r: Outcome)
        requires
            old(self)@.wf(),
        ensures
            (final(self)@, r@) == old(self)@.select(option),
            final(self)@.wf(),
    {
        if self.current_view != View::Menu {
            return Outcome::Continued;
        }
        match option {
            MainMenu::Option1 => {
                self.current_view = View::NumberOfTurnsView;
                Outcome::Continued
            },
            MainMenu::Option2 => Outcome::Unsupported(MainMenu::Option2),
            MainMenu::Option3 => Outcome::Exited,
        }
    }

    /// Replaces the configuration text verbatim.
    pub fn update_input_buffer(&mut self, text: String)
        requires
            old(self)@.wf(),
        ensures
            final(self)@ == old(self)@.with_input(text@),
            final(self)@.wf(),
    {
        self.input_value = text;
    }

    /// Submits the configuration text as the number of turns. When it is a
    /// positive count, the count is stored, the text cleared, and the lookups
    /// for the simulated players' cells are requested. Otherwise nothing
    /// changes.
    pub fn submit_config_value(&mut self) -> (r: Outcome)
        requires
            old(self)@.wf(),
        ensures
            (final(self)@, r@) == old(self)@.submit(),
            !old(self)@.accepts_input() ==> *final(self) == *old(self),
            final(self)@.wf(),
    {
        if self.current_view != View::NumberOfTurnsView || self.awaiting_words {
            return Outcome::Continued;
        }
        let n = match parse_positive_count(self.input_value.as_str()) {
            Some(n) => n,
            None => {
                return Outcome::InvalidInput;
            },
        };
        let category_count = self.categories.len();
        if checked_cell_total(self.player_count, n, category_count).is_none() {
            return Outcome::InvalidInput;
        }
        let request = request_for(self.player_count, n, category_count);
        self.number_of_turns = n;
        self.input_value = String::new();
        self.awaiting_words = true;
        assert(self@.input =~= Seq::<char>::empty());
        Outcome::WordsRequested(request)
    }

    /// Applies a batch of lookups: when it is the batch the session waits
    /// for, the board is built from it in one step and the game begins.
    /// Any other batch, such as one that arrives after a return to the menu,
    /// is dropped.
    pub fn apply_generated_words(&mut self, words: Vec<Option<String>>)
        requires
            old(self)@.wf(),
        ensures
            final(self)@ == old(self)@.apply_words(lookup_views(words@)),
            final(self)@.wf(),
    {
        if !self.awaiting_words {
            return;
        }
        let category_count = self.categories.len();
        let total = match checked_cell_total(self.player_count, self.number_of_turns, category_count) {
            Some(n) => n,
            None => 0,
        };
        proof {
            lemma_totals(self.player_count as nat, self.number_of_turns as nat, category_count as nat);
        }
        if words.len() != total - self.number_of_turns * category_count {
            return;
        }
        let g = Grid::initialize(self.player_count, self.number_of_turns, category_count, &words);
        self.grid = Some(g);
        self.current_view = View::GameTables;
        self.awaiting_words = false;
    }

    /// Back to the menu from any screen: the board, the turn count and the
    /// configuration text are discarded, and so is a pending batch.
    pub fn go_back_to_menu(&mut self)
        requires
            old(self)@.wf(),
        ensures
            final(self)@ == old(self)@.back_to_menu(),
            final(self)@.wf(),
    {
        self.current_view = View::Menu;
        self.input_value = String::new();
        self.number_of_turns = 0;
        self.awaiting_words = false;
        self.grid = None;
        assert(self@.input =~= Seq::<char>::empty());
    }

    /// Writes the human player's answer. Refused, with nothing changed, when
    /// no game runs or the coordinate is off the board.
    pub fn edit_human_cell(&mut self, turn: usize, category: usize, text: String) -> (r: Result<
        (),
        GridError,
    >)
        requires
            old(self)@.wf(),
        ensures
            r is Ok <==> old(self)@.can_edit(turn as int, category as int),
            old(self)@.grid is None ==> r == Err::<(), GridError>(GridError::NoGame),
            old(self)@.grid is Some && !old(self)@.can_edit(turn as int, category as int) ==> r
                == Err::<(), GridError>(GridError::OutOfRange),
            !old(self)@.can_edit(turn as int, category as int) ==> final(self)@ == old(self)@,
            final(self)@ == old(self)@.edit(turn as int, category as int, text@),
            final(self)@.wf(),
    {
        match &mut self.grid {
            Some(g) => g.set_human_value(turn, category, text),
            None => Err(GridError::NoGame),
        }
    }

    /// The cell at `(player, turn, category)`; `None` when no game runs or the
    /// coordinate is off the board.
    pub fn get_cell(&self, player: usize, turn: usize, category: usize) -> (r: Option<&Cell>)
        requires
            self@.wf(),
        ensures
            r is Some <==> (self@.grid matches Some(g) && g.in_range(
                player as int,
                turn as int,
                category as int,
            )),
            r matches Some(x) ==> self@.grid->0.cell(player as int, turn as int, category as int)
                == Some(x@),
    {
        match &self.grid {
            Some(g) => g.get(player, turn, category),
            None => None,
        }
    }

    /// Handles one intent and says what the driver has to do next.
    pub fn update(&mut self, message: Message) -> (r: Outcome)
        requires
            old(self)@.wf(),
        ensures
            (final(self)@, r@) == old(self)@.step(message@),
            final(self)@.wf(),
    {
        match message {
            Message::Menu(MenuMessage::Select(option)) => self.select_menu_option(option),
            Message::InputChanged(text) => {
                self.update_input_buffer(text);
                Outcome::Continued
            },
            Message::NumberOfTurns => self.submit_config_value(),
            Message::BackToMainMenu => {
                self.go_back_to_menu();
                Outcome::Continued
            },
            Message::PlayerInputChanged { row, col, value } => {
                match self.edit_human_cell(row, col, value) {
                    Ok(()) => Outcome::Continued,
                    Err(e) => Outcome::EditRejected(e),
                }
            },
            Message::RandomWordsFetched(words) => {
                self.apply_generated_words(words);
                Outcome::Continued
            },
        }
    }
}

} // verus!

verus! {

/// A game started from an accepted turn count `n` has a full board, one
/// cell for every player, turn and category and none off it, and a word in
/// every cell of every simulated player, whatever the word source answered.
/// The submit asks the word source once for each simulated player's cell
/// and never for the human's.
pub proof fn lemma_started_game_is_full(s: SessionModel, words: Seq<Option<Seq<char>>>)
    requires
        s.wf(),
        s.accepts_input(),
        words.len() == lookup_total(s.players, numeral_value(s.input) as nat, s.categories.len()),
    ensures
        ({
            let started = s.submit().0.apply_words(words);
            let n = numeral_value(s.input) as nat;
            let g = started.grid->0;
            &&& started.wf()
            &&& started.view == View::GameTables
            &&& started.turns == n
            &&& started.grid is Some
            &&& s.submit().1 == OutcomeModel::WordsRequested(
                lookup_categories(s.players, n, s.categories.len()),
            )
            &&& lookup_categories(s.players, n, s.categories.len()).len() == (s.players - 1) * n
                * s.categories.len()
            &&& g.players == s.players
            &&& g.turns == n
            &&& g.categories == s.categories.len()
            &&& g.cells.len() == s.players * n * s.categories.len()
            &&& forall|p: int, t: int, c: int|
                (#[trigger] g.cell(p, t, c) is Some) <==> (0 <= p < s.players && 0 <= t < n && 0
                    <= c < s.categories.len())
            &&& forall|p: int, t: int, c: int|
                1 <= p < s.players && 0 <= t < n && 0 <= c < s.categories.len()
                    ==> (#[trigger] g.cell(p, t, c))->0.value.len() > 0
        }),
{
    let started = s.submit().0.apply_words(words);
    let n = numeral_value(s.input) as nat;
    let g = started.grid->0;
    lemma_totals(s.players, n, s.categories.len());
    assert(fallback_marker().len() == 3);
    assert forall|p: int, t: int, c: int|
        1 <= p < s.players && 0 <= t < n && 0 <= c < s.categories.len() implies (
        #[trigger] g.cell(p, t, c))->0.value.len() > 0 by {
        lemma_index_bounds(g, p, t, c);
        lemma_simulated_index(g, p, t, c);
    }
}

/// Writing the same answer twice leaves the session as writing it once.
pub proof fn lemma_edit_idempotent(s: SessionModel, turn: int, category: int, text: Seq<char>)
    requires
        s.wf(),
    ensures
        s.edit(turn, category, text).edit(turn, category, text) == s.edit(turn, category, text),
{
    if let Some(g) = s.grid {
        if g.in_range(0, turn, category) {
            let once = g.with_human_value(turn, category, text);
            lemma_index_bounds(g, 0, turn, category);
            assert(once.with_human_value(turn, category, text).cells =~= once.cells);
        }
    }
}

} // verus!
