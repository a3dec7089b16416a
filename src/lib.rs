pub mod food;
pub mod snake;
pub mod game;
pub mod menu;
