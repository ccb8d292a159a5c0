//! Rules engine for a falling-block puzzle game: the board of locked
//! cells, the seven piece shapes with their rotation states, collision
//! and placement rules, locking, line clearing, scoring, and the game
//! state machine that ties them together.

pub mod game;
pub mod grid;
pub mod piece;
pub mod random;
pub mod rules;
