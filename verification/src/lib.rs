pub mod grid;
pub mod snake;
pub mod game;
pub mod input;
