//! Tracking Magic: The Gathering card spoilers: which community posts are
//! spoilers, which card they announce, whether that card is already known,
//! how Scryfall confirms it, how cards are stored and queried, and the
//! terminal interface's state machine.
pub mod app;
pub mod captures;
pub mod card;
pub mod clock;
pub mod config;
pub mod db;
pub mod dedup;
pub mod fetcher;
pub mod index;
pub mod reddit;
pub mod scryfall;
pub mod text;
pub mod verify;
