//! Core of a terminal task-board browser: typed records built from loosely
//! typed remote fields, numbered screen views, a compact command language,
//! insertion ordering for new tasks, and the screen state machine.

pub mod config;
pub mod text;
pub mod records;
pub mod view;
pub mod ordering;
pub mod command;
pub mod navigator;
