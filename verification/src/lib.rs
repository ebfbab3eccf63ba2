//! Verified core of a book-guessing quiz served over HTTP.
//!
//! A player sees three sentences from a book, one at a time, and tries to
//! guess its title. Points start at five for each book and drop with every
//! hint, every extra sentence and every wrong guess. All game state lives in
//! the player's session; the functions here decide, from the values read from
//! that session and the request, which values to write back and what to show.
pub mod text;
pub mod book;
pub mod placeholder;
pub mod config;
pub mod messages;
pub mod requests;
pub mod session;
pub mod reply;
pub mod page;
pub mod game;
pub mod laws;
