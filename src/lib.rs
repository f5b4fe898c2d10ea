//! A toroidal snake game: the grid, the snake, the food and the per-tick
//! rules that drive them, with their behaviour stated as contracts.

pub mod grid;
pub mod snake;
pub mod food;
pub mod game;
