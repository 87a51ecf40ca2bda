//! A snake game on a wrap-around character grid: the grid model, the snake's
//! movement and growth, collision and scoring, and the per-tick state machine.
//! Terminal drawing and key delivery live outside this library.
pub mod food;
pub mod game;
pub mod grid;
pub mod render;
pub mod snake;
pub mod text;
