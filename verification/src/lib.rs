//! Core rules of a two-player card battle server.
//!
//! The library models the authoritative per-match state (each player's hand,
//! field units, tomb and field-energy pool, the static card dictionaries, the
//! session table and the opponent-visible notification channel) and verifies
//! the action-resolution pipeline that runs when a player asks to use an item
//! card: session authentication, possession and kind checks, the usability
//! rule, effect computation, state mutation and cross-player notification.

pub mod cards;
pub mod catalog;
pub mod deck;
pub mod effect;
pub mod game;
pub mod hand_service;
pub mod item_controller;
pub mod laws;
pub mod notice;
pub mod notify_service;
pub mod session;
pub mod state;
pub mod text;
