//! Core of a card-reveal game: a fixed catalog of named image cards is
//! shuffled once into a deck, then presented one at a time on a countdown,
//! with start/pause/resume/cancel controls and a small list of prize winners.
//!
//! The state machine, the deck rotation and the timer bookkeeping live here,
//! fully specified; rendering and the real browser timer sit outside.

pub mod card;
pub mod game;
pub mod laws;
