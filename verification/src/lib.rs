//! The session coordination engine of a planning-poker game.
//!
//! A small group of players estimates work items with a shared deck of cards. Each
//! player picks a card; an admin calls the round, which reveals and freezes the picks,
//! and then resumes or resets it. This crate is the one place where the game is
//! decided: it holds the state, applies the commands one at a time, and says which
//! pushes go to which connections. It performs no I/O and reads no clock: time comes in
//! as a parameter, in milliseconds, and what is to be sent comes out as a value.
//!
//! - [`deck`]: the decks and their labels.
//! - [`player`]: players, their ids and their heartbeats.
//! - [`game`]: the game state and its operations, with the model that specifies them.
//! - [`snapshot`]: the picture of the game that a broadcast carries.
//! - [`registry`]: which connection belongs to which player.
//! - [`messages`]: commands in, pushes out.
//! - [`session`]: the coordinator, which turns a command into a new state and an
//!   outcome.
//! - [`laws`]: what holds of every state and every command, proved.
//! - [`identity`]: the player that a browser session speaks for.
//! - [`client`], [`player_cards`], [`text_edit`]: what a client remembers, shows and
//!   asks for.
//! - [`store`]: a game that is played in one place, without a server.

pub mod client;
pub mod deck;
pub mod game;
pub mod identity;
pub mod laws;
pub mod messages;
pub mod player;
pub mod player_cards;
pub mod registry;
pub mod session;
pub mod snapshot;
pub mod store;
pub mod text_edit;
