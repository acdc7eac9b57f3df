//! Terminal user-interface building blocks: a paginated, keyboard-driven
//! selection list, and the configuration and decision logic of styled prompts.
//!
//! The library computes; it never touches the terminal. The list's key handling
//! is a state machine (`session::Session`), its drawing is a sequence of
//! cursor-addressed operations (`render::DrawOp`), and the program around it
//! performs those operations and feeds key presses back in.
pub mod color;
pub mod input;
pub mod layout;
pub mod list;
pub mod output;
pub mod prompt;
pub mod render;
pub mod session;
pub mod text;
