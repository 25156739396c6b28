//! A two-party pebble-taking game: a user plays against the program, each
//! move removes a bounded number of pebbles, and whoever takes the last
//! pebble wins.
//!
//! - [`model`] holds the types: players, configuration, requests,
//!   notifications and the state of a game.
//! - [`rules`] says what a configuration must satisfy, what one move does
//!   and how the program picks its move.
//! - [`requests`] says what each request does to a game.
//! - [`engine`] is the game itself: it owns the state and serves requests.
//! - [`laws`] states what holds of every game.
//! - [`draw`] turns the bytes of a random seed into a draw.
//!
//! Nothing here draws a random number. The host draws them and hands them
//! in, so every function is determined by its arguments.

pub mod draw;
pub mod engine;
pub mod laws;
pub mod model;
pub mod requests;
pub mod rules;
