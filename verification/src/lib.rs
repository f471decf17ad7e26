//! The control loop of a terminal text editor, without its I/O.
//!
//! The loop is a state machine: [`editor::Editor::run`] takes what the
//! terminal last answered and says what to ask of it next. Everything that is
//! drawn goes through the command queue of [`editor::terminal::Terminal`],
//! which a driver performs on the real device.

pub mod editor;
