use crate::food::Food;
use crate::game::{eats, game_over, moved, score_after, single_player_game};
use crate::snake::Snake;
use vstd::prelude::*;

verus! {

/// The entries of the start menu, top to bottom.
#[derive(Clone, Copy, Debug, PartialEq, Eq, Hash, Structural)]
pub enum MenuOption {
    SinglePlayer,
    MultiplayerRandomRoom,
    MultiPlayerExistingRoom,
    ExitGame,
}

/// Number of entries in the menu.
pub const MENU_LEN: u8 = 4;

/// The entry at position `index`, if there is one.
pub open spec fn option_at(index: u8) -> Option<MenuOption> {
    match index {
        0 => Some(MenuOption::SinglePlayer),
        1 => Some(MenuOption::MultiplayerRandomRoom),
        2 => Some(MenuOption::MultiPlayerExistingRoom),
        3 => Some(MenuOption::ExitGame),
        _ => None,
    }
}

/// The entry at position `index`, if there is one.
pub fn convert_index_to_menuoption(index: u8) -> (r: Option<MenuOption>)
    ensures
        r == option_at(index),
{
    match index {
        0 => Some(MenuOption::SinglePlayer),
        1 => Some(MenuOption::MultiplayerRandomRoom),
        2 => Some(MenuOption::MultiPlayerExistingRoom),
        3 => Some(MenuOption::ExitGame),
        _ => None,
    }
}

/// The start menu: the entry under the cursor, and the entry chosen, if any.
#[derive(Debug)]
pub struct Menu {
    currently_selected_state: Option<MenuOption>,
    option_index: u8,
}

impl View for Menu {
    /// The chosen entry and the cursor's position.
    type V = (Option<MenuOption>, u8);

    closed spec fn view(&self) -> (Option<MenuOption>, u8) {
        (self.currently_selected_state, self.option_index)
    }
}

impl Menu {
    /// The cursor stays on an entry.
    pub open spec fn wf(&self) -> bool {
        self@.1 < MENU_LEN
    }

    /// A menu with the cursor on the first entry and nothing chosen.
    pub fn new() -> (r: Self)
        ensures
            r@ == (None::<MenuOption>, 0u8),
            r.wf(),
    {
        Menu { currently_selected_state: None, option_index: 0 }
    }

    /// Moves the cursor down one entry, from the last back to the first.
    pub fn increment_menu(&mut self)
        requires
            old(self).wf(),
        ensures
            final(self).wf(),
            final(self)@ == (old(self)@.0, ((old(self)@.1 + 1) % MENU_LEN as int) as u8),
    {
        self.option_index = (self.option_index + 1) % MENU_LEN;
    }

    /// Moves the cursor up one entry, from the first round to the last.
    pub fn decrement_menu(&mut self)
        requires
            old(self).wf(),
        ensures
            final(self).wf(),
            final(self)@ == (old(self)@.0, if old(self)@.1 == 0 {
                (MENU_LEN - 1) as u8
            } else {
                (old(self)@.1 - 1) as u8
            }),
    {
        let new_value = if self.option_index == 0 {
            MENU_LEN - 1
        } else {
            self.option_index - 1
        };
        self.option_index = new_value;
    }

    /// Chooses the entry under the cursor.
    pub fn enter(&mut self)
        requires
            old(self).wf(),
        ensures
            final(self).wf(),
            final(self)@ == (option_at(old(self)@.1), old(self)@.1),
    {
        self.currently_selected_state = convert_index_to_menuoption(self.option_index);
    }

    /// The entry under the cursor, by position.
    pub fn option_index(&self) -> (r: u8)
        ensures
            r == self@.1,
    {
        self.option_index
    }

    /// The chosen entry, if any.
    pub fn selected(&self) -> (r: Option<MenuOption>)
        ensures
            r == self@.0,
    {
        self.currently_selected_state
    }

    /// True iff an entry other than `ExitGame` has been chosen.
    pub fn is_in_game(&self) -> (r: bool)
        ensures
            r == (self@.0 is Some && self@.0 != Some(MenuOption::ExitGame)),
    {
        match self.currently_selected_state {
            Some(state) => state != MenuOption::ExitGame,
            None => false,
        }
    }

    /// Runs one tick of the chosen mode. Returns true when the session is to
    /// end: `ExitGame` was chosen, or the single-player game is over. The
    /// multiplayer modes do nothing yet.
    pub fn execute_state(&self, snake: &mut Snake, food: &mut Food, score: &mut u32) -> (end: bool)
        requires
            old(snake).wf(),
        ensures
            final(snake).wf(),
            end == match self@.0 {
                Some(MenuOption::ExitGame) => true,
                Some(MenuOption::SinglePlayer) => game_over(old(snake)@),
                _ => false,
            },
            self@.0 != Some(MenuOption::SinglePlayer) ==> final(snake)@ == old(snake)@
                && final(food)@ == old(food)@ && *final(score) == *old(score),
            self@.0 == Some(MenuOption::SinglePlayer) && !end ==> ({
                let ate = eats(old(snake)@, old(food)@);
                &&& final(snake)@ == moved(old(snake)@, ate)
                &&& *final(score) == score_after(*old(score), ate)
            }),
    {
        match self.currently_selected_state {
            Some(MenuOption::SinglePlayer) => single_player_game(snake, food, score),
            Some(MenuOption::ExitGame) => true,
            Some(MenuOption::MultiplayerRandomRoom) => false,
            Some(MenuOption::MultiPlayerExistingRoom) => false,
            None => false,
        }
    }
}

} // verus!
