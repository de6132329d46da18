//! A falling-block puzzle on a slanted board: the pieces and their shapes,
//! the board with its collision and wall-kick rules, the randomizer, the
//! difficulty curve, the input channels, and the controller that moves the
//! game on by one tick at a time.
pub mod board;
pub mod difficulty;
pub mod display;
pub mod game;
pub mod keys;
pub mod piece;
pub mod randomizer;
