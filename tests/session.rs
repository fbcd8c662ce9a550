use cities_states::config::parse_positive_count;
use cities_states::generator::{fallback_text, generate_cell};
use cities_states::grid::{CellOrigin, Grid, GridError};
use cities_states::menu::{MainMenuApp, Outcome};
use cities_states::messages::{MenuMessage, Message};
use cities_states::views::{MainMenu, View};

fn at_turn_count_screen() -> MainMenuApp {
    let mut app = MainMenuApp::new();
    let out = app.update(Message::Menu(MenuMessage::Select(MainMenu::Option1)));
    assert_eq!(out, Outcome::Continued);
    assert_eq!(app.current_view, View::NumberOfTurnsView);
    app
}

fn submit_turns(app: &mut MainMenuApp, text: &str) -> Outcome {
    app.update(Message::InputChanged(text.to_string()));
    app.update(Message::NumberOfTurns)
}

fn started_game(turns: &str, word: Option<&str>) -> MainMenuApp {
    let mut app = at_turn_count_screen();
    let request = match submit_turns(&mut app, turns) {
        Outcome::WordsRequested(r) => r,
        other => panic!("unexpected outcome {:?}", other),
    };
    let words = request.iter().map(|_| word.map(|w| w.to_string())).collect();
    app.update(Message::RandomWordsFetched(words));
    app
}

#[test]
fn new_session_starts_at_menu() {
    let app = MainMenuApp::new();
    assert_eq!(app.current_view, View::Menu);
    assert_eq!(app.input_value, "");
    assert_eq!(app.number_of_turns, 0);
    assert_eq!(app.player_count, 3);
    assert_eq!(app.categories, vec!["Country", "City", "Plant", "Animal", "River"]);
    assert!(app.grid.is_none());
    assert_eq!(app.title(), "Cities-States");
    assert_eq!(View::default(), View::Menu);
}

#[test]
fn exit_and_multiplayer_do_not_change_the_screen() {
    let mut app = MainMenuApp::new();
    assert_eq!(app.update(Message::Menu(MenuMessage::Select(MainMenu::Option3))), Outcome::Exited);
    assert_eq!(app.current_view, View::Menu);
    assert_eq!(
        app.update(Message::Menu(MenuMessage::Select(MainMenu::Option2))),
        Outcome::Unsupported(MainMenu::Option2)
    );
    assert_eq!(app.current_view, View::Menu);
}

#[test]
fn menu_choice_is_ignored_off_the_menu() {
    let mut app = at_turn_count_screen();
    assert_eq!(app.update(Message::Menu(MenuMessage::Select(MainMenu::Option3))), Outcome::Continued);
    assert_eq!(app.current_view, View::NumberOfTurnsView);
}

#[test]
fn three_turns_three_players_all_oak() {
    let mut app = at_turn_count_screen();
    let request = match submit_turns(&mut app, "3") {
        Outcome::WordsRequested(r) => r,
        other => panic!("unexpected outcome {:?}", other),
    };
    assert_eq!(request.len(), 30);
    assert_eq!(request[0], 0);
    assert_eq!(request[7], 2);
    assert_eq!(app.number_of_turns, 3);
    assert_eq!(app.input_value, "");
    let words = vec![Some("OAK".to_string()); 30];
    assert_eq!(app.update(Message::RandomWordsFetched(words)), Outcome::Continued);
    assert_eq!(app.current_view, View::GameTables);
    let grid = app.grid.as_ref().unwrap();
    assert_eq!(grid.cell_count(), 45);
    let mut simulated = 0;
    let mut human = 0;
    for p in 0..3 {
        for t in 0..3 {
            for c in 0..5 {
                let cell = app.get_cell(p, t, c).unwrap();
                if p == 0 {
                    human += 1;
                    assert_eq!(cell.value, "");
                    assert_eq!(cell.origin, CellOrigin::HumanEntered);
                } else {
                    simulated += 1;
                    assert_eq!(cell.value, "OAK");
                    assert_eq!(cell.origin, CellOrigin::GeneratedSuccess);
                }
            }
        }
    }
    assert_eq!(simulated, 30);
    assert_eq!(human, 15);
    assert!(app.get_cell(3, 0, 0).is_none());
    assert!(app.get_cell(0, 3, 0).is_none());
    assert!(app.get_cell(0, 0, 5).is_none());
}

#[test]
fn non_numeric_turn_count_is_refused() {
    let mut app = at_turn_count_screen();
    assert_eq!(submit_turns(&mut app, "abc"), Outcome::InvalidInput);
    assert_eq!(app.current_view, View::NumberOfTurnsView);
    assert_eq!(app.input_value, "abc");
    assert_eq!(app.number_of_turns, 0);
    assert!(app.grid.is_none());
    assert!(!app.awaiting_words);
}

#[test]
fn zero_negative_and_empty_turn_counts_are_refused() {
    for text in ["0", "-2", "", "+", " 3", "3x", "00"] {
        let mut app = at_turn_count_screen();
        assert_eq!(submit_turns(&mut app, text), Outcome::InvalidInput);
        assert_eq!(app.current_view, View::NumberOfTurnsView);
        assert_eq!(app.input_value, text);
        assert_eq!(app.number_of_turns, 0);
    }
}

#[test]
fn turn_count_too_large_for_the_board_is_refused() {
    let mut app = at_turn_count_screen();
    let text = usize::MAX.to_string();
    assert_eq!(submit_turns(&mut app, &text), Outcome::InvalidInput);
    assert_eq!(app.number_of_turns, 0);
}

#[test]
fn back_to_menu_discards_the_grid() {
    let mut app = started_game("2", Some("ELM"));
    assert!(app.get_cell(1, 0, 0).is_some());
    app.update(Message::BackToMainMenu);
    assert_eq!(app.current_view, View::Menu);
    assert!(app.grid.is_none());
    assert_eq!(app.number_of_turns, 0);
    assert_eq!(app.input_value, "");
    for p in 0..3 {
        for t in 0..2 {
            for c in 0..5 {
                assert!(app.get_cell(p, t, c).is_none());
            }
        }
    }
}

#[test]
fn late_batch_after_back_to_menu_is_dropped() {
    let mut app = at_turn_count_screen();
    let request = match submit_turns(&mut app, "1") {
        Outcome::WordsRequested(r) => r,
        other => panic!("unexpected outcome {:?}", other),
    };
    app.update(Message::BackToMainMenu);
    let words = vec![Some("FIG".to_string()); request.len()];
    app.update(Message::RandomWordsFetched(words));
    assert_eq!(app.current_view, View::Menu);
    assert!(app.grid.is_none());
}

#[test]
fn batch_of_the_wrong_length_is_dropped() {
    let mut app = at_turn_count_screen();
    submit_turns(&mut app, "1");
    app.update(Message::RandomWordsFetched(vec![Some("FIG".to_string()); 9]));
    assert_eq!(app.current_view, View::NumberOfTurnsView);
    assert!(app.grid.is_none());
    app.update(Message::RandomWordsFetched(vec![Some("FIG".to_string()); 10]));
    assert_eq!(app.current_view, View::GameTables);
}

#[test]
fn failed_lookups_become_fallback_cells() {
    let mut app = at_turn_count_screen();
    submit_turns(&mut app, "1");
    let mut words = vec![Some("ASH".to_string()); 10];
    words[3] = None;
    words[6] = Some(String::new());
    app.update(Message::RandomWordsFetched(words));
    let failed = app.get_cell(1, 0, 3).unwrap();
    assert_eq!(failed.value, "???");
    assert_eq!(failed.origin, CellOrigin::GeneratedFallback);
    let empty = app.get_cell(2, 0, 1).unwrap();
    assert_eq!(empty.value, "???");
    assert_eq!(empty.origin, CellOrigin::GeneratedFallback);
    for (p, c) in [(1, 0), (1, 2), (1, 4), (2, 0), (2, 4)] {
        let cell = app.get_cell(p, 0, c).unwrap();
        assert_eq!(cell.value, "ASH");
        assert_eq!(cell.origin, CellOrigin::GeneratedSuccess);
    }
}

#[test]
fn every_lookup_failing_still_fills_the_board() {
    let app = started_game("2", None);
    for p in 1..3 {
        for t in 0..2 {
            for c in 0..5 {
                let cell = app.get_cell(p, t, c).unwrap();
                assert_eq!(cell.value, "???");
                assert_eq!(cell.origin, CellOrigin::GeneratedFallback);
            }
        }
    }
}

#[test]
fn editing_a_human_cell() {
    let mut app = started_game("2", Some("OAK"));
    assert_eq!(app.edit_human_cell(1, 4, "Nile".to_string()), Ok(()));
    let cell = app.get_cell(0, 1, 4).unwrap();
    assert_eq!(cell.value, "Nile");
    assert_eq!(cell.origin, CellOrigin::HumanEntered);
    app.update(Message::PlayerInputChanged { row: 0, col: 0, value: "Peru".to_string() });
    assert_eq!(app.get_cell(0, 0, 0).unwrap().value, "Peru");
}

#[test]
fn editing_twice_with_the_same_text_is_editing_once() {
    let mut once = started_game("2", Some("OAK"));
    let mut twice = started_game("2", Some("OAK"));
    once.edit_human_cell(0, 2, "Rose".to_string()).unwrap();
    twice.edit_human_cell(0, 2, "Rose".to_string()).unwrap();
    twice.edit_human_cell(0, 2, "Rose".to_string()).unwrap();
    assert_eq!(once.get_cell(0, 0, 2), twice.get_cell(0, 0, 2));
    assert_eq!(twice.get_cell(0, 0, 2).unwrap().value, "Rose");
}

#[test]
fn out_of_range_edit_is_refused_without_change() {
    let mut app = started_game("2", Some("OAK"));
    assert_eq!(app.edit_human_cell(2, 0, "x".to_string()), Err(GridError::OutOfRange));
    assert_eq!(app.edit_human_cell(0, 5, "x".to_string()), Err(GridError::OutOfRange));
    app.update(Message::PlayerInputChanged { row: 9, col: 9, value: "x".to_string() });
    for t in 0..2 {
        for c in 0..5 {
            assert_eq!(app.get_cell(0, t, c).unwrap().value, "");
            assert_eq!(app.get_cell(1, t, c).unwrap().value, "OAK");
        }
    }
}

#[test]
fn edit_without_a_game_is_refused() {
    let mut app = MainMenuApp::new();
    assert_eq!(app.edit_human_cell(0, 0, "x".to_string()), Err(GridError::NoGame));
    assert!(app.grid.is_none());
}

#[test]
fn more_simulated_players_and_other_categories() {
    let mut app = MainMenuApp::with_setup(4, vec!["River".to_string(), "Plant".to_string()]);
    app.update(Message::Menu(MenuMessage::Select(MainMenu::Option1)));
    let request = match submit_turns(&mut app, "+2") {
        Outcome::WordsRequested(r) => r,
        other => panic!("unexpected outcome {:?}", other),
    };
    assert_eq!(request, vec![0, 1, 0, 1, 0, 1, 0, 1, 0, 1, 0, 1]);
    let words = (0..12).map(|i| Some(format!("w{}", i))).collect();
    app.update(Message::RandomWordsFetched(words));
    let grid = app.grid.as_ref().unwrap();
    assert_eq!(grid.cell_count(), 16);
    assert_eq!(grid.player_count(), 4);
    assert_eq!(grid.turn_count(), 2);
    assert_eq!(grid.category_count(), 2);
    assert_eq!(app.get_cell(1, 0, 0).unwrap().value, "w0");
    assert_eq!(app.get_cell(2, 1, 1).unwrap().value, "w7");
    assert_eq!(app.get_cell(3, 1, 1).unwrap().value, "w11");
}

#[test]
fn second_submit_while_waiting_is_ignored() {
    let mut app = at_turn_count_screen();
    submit_turns(&mut app, "2");
    assert_eq!(submit_turns(&mut app, "4"), Outcome::Continued);
    assert_eq!(app.number_of_turns, 2);
}

#[test]
fn parse_positive_count_values() {
    assert_eq!(parse_positive_count("3"), Some(3));
    assert_eq!(parse_positive_count("+12"), Some(12));
    assert_eq!(parse_positive_count("007"), Some(7));
    assert_eq!(parse_positive_count("18446744073709551615"), Some(usize::MAX));
    assert_eq!(parse_positive_count("18446744073709551616"), None);
    assert_eq!(parse_positive_count("0"), None);
    assert_eq!(parse_positive_count("-1"), None);
    assert_eq!(parse_positive_count("abc"), None);
    assert_eq!(parse_positive_count(""), None);
    assert_eq!(parse_positive_count("++1"), None);
    assert_eq!(parse_positive_count("1 "), None);
}

#[test]
fn generator_cells() {
    let ok = generate_cell(&Some("Danube".to_string()));
    assert_eq!(ok.value, "Danube");
    assert_eq!(ok.origin, CellOrigin::GeneratedSuccess);
    let failed = generate_cell(&None);
    assert_eq!(failed.value, "???");
    assert_eq!(failed.origin, CellOrigin::GeneratedFallback);
    let empty = generate_cell(&Some(String::new()));
    assert_eq!(empty.origin, CellOrigin::GeneratedFallback);
    assert_eq!(fallback_text(), "???");
}

#[test]
fn grid_direct_use() {
    let lookups = vec![Some("A".to_string()), None];
    let mut grid = Grid::initialize(2, 1, 2, &lookups);
    assert_eq!(grid.cell_count(), 4);
    assert_eq!(grid.get(1, 0, 0).unwrap().value, "A");
    assert_eq!(grid.get(1, 0, 1).unwrap().origin, CellOrigin::GeneratedFallback);
    assert!(grid.get(2, 0, 0).is_none());
    assert_eq!(grid.set_human_value(0, 1, "B".to_string()), Ok(()));
    assert_eq!(grid.get(0, 0, 1).unwrap().value, "B");
    assert_eq!(grid.set_human_value(1, 0, "C".to_string()), Err(GridError::OutOfRange));
    let empty = Grid::initialize(3, 4, 0, &Vec::new());
    assert_eq!(empty.cell_count(), 0);
}

#[test]
fn update_reports_a_refused_edit() {
    let mut app = started_game("2", Some("OAK"));
    let out = app.update(Message::PlayerInputChanged { row: 2, col: 0, value: "x".to_string() });
    assert_eq!(out, Outcome::EditRejected(GridError::OutOfRange));
    let out = app.update(Message::PlayerInputChanged { row: 0, col: 5, value: "x".to_string() });
    assert_eq!(out, Outcome::EditRejected(GridError::OutOfRange));
    for t in 0..2 {
        for c in 0..5 {
            assert_eq!(app.get_cell(0, t, c).unwrap().value, "");
        }
    }
    assert!(app.get_cell(0, 2, 0).is_none());
    assert_eq!(app.grid.as_ref().unwrap().cell_count(), 30);
    assert_eq!(app.current_view, View::GameTables);
    assert_eq!(app.number_of_turns, 2);
    let out = app.update(Message::PlayerInputChanged { row: 1, col: 4, value: "Nile".to_string() });
    assert_eq!(out, Outcome::Continued);
    let mut menu = MainMenuApp::new();
    let out = menu.update(Message::PlayerInputChanged { row: 0, col: 0, value: "x".to_string() });
    assert_eq!(out, Outcome::EditRejected(GridError::NoGame));
}
