//! Core of a three-pane terminal browser for the branches of a repository.
//!
//! The crate holds everything that can be decided without touching a terminal
//! or a repository: where the panes lie, how the selection state reacts to
//! input, and what each pane shows. Reading input, reading the repository and
//! painting cells are left to the program built around it.

pub mod backend;
pub mod event_loop;
pub mod input;
pub mod layout;
pub mod render;
pub mod state;
