//! Core logic of a keyboard-driven terminal todo list.
//!
//! The library owns the interaction state machine (command mode versus
//! composing mode), the line-editing logic for the entry being composed,
//! and the pure render routine that turns the current state into a
//! three-region terminal layout with a cursor directive. Reading keyboard
//! events and drawing to a terminal are left to the surrounding binary.

pub mod render;
pub mod state;
pub mod text;
