//! The button-switched application framework: a board with two logical
//! LEDs and a user button, applications that tick, and a run loop that
//! picks which application ticks.
pub mod os;
pub mod apps;
pub mod board;
