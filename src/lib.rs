//! A terminal counter: the state of the application, how key presses change it,
//! and the text that a frame shows.

pub mod app;
pub mod key;
pub mod laws;
pub mod screen;
pub mod text;
