use rusty_snake::food::Food;
use rusty_snake::menu::{convert_index_to_menuoption, Menu, MenuOption};
use rusty_snake::snake::Snake;

#[test]
fn cursor_wraps_both_ways() {
    let mut m = Menu::new();
    assert_eq!(0, m.option_index());
    m.decrement_menu();
    assert_eq!(3, m.option_index());
    m.increment_menu();
    assert_eq!(0, m.option_index());
    m.increment_menu();
    m.increment_menu();
    assert_eq!(2, m.option_index());
}

#[test]
fn enter_chooses_entry_under_cursor() {
    let mut m = Menu::new();
    assert!(!m.is_in_game());
    m.enter();
    assert_eq!(Some(MenuOption::SinglePlayer), m.selected());
    assert!(m.is_in_game());
    m.decrement_menu();
    m.enter();
    assert_eq!(Some(MenuOption::ExitGame), m.selected());
    assert!(!m.is_in_game());
}

#[test]
fn index_to_option() {
    assert_eq!(Some(MenuOption::MultiplayerRandomRoom), convert_index_to_menuoption(1));
    assert_eq!(Some(MenuOption::MultiPlayerExistingRoom), convert_index_to_menuoption(2));
    assert_eq!(None, convert_index_to_menuoption(4));
}

#[test]
fn exit_entry_ends_session() {
    let mut m = Menu::new();
    m.decrement_menu();
    m.enter();
    let mut snake = Snake::new();
    let mut food = Food::new(1, 1);
    let mut score: u32 = 0;
    assert!(m.execute_state(&mut snake, &mut food, &mut score));
}

#[test]
fn nothing_chosen_does_nothing() {
    let m = Menu::new();
    let mut snake = Snake::new();
    let mut food = Food::new(1, 1);
    let mut score: u32 = 0;
    assert!(!m.execute_state(&mut snake, &mut food, &mut score));
    assert_eq!((20, 20), (snake.get_head_x(), snake.get_head_y()));
}
