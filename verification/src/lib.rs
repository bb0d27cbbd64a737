//! A single-player blackjack rules engine: deck construction and shuffling,
//! hand scoring with soft/hard ace adjustment, the dealer's hidden-card
//! lifecycle and fixed hit policy, and round settlement arithmetic.
pub mod deck;
pub mod game;
pub mod player;
