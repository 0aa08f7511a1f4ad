//! An interactive terminal tool for browsing a configured forest of
//! source-control checkouts — standalone repositories, bare-repository
//! containers with their worktree checkouts, and directories aggregating
//! many repositories — and for planning lifecycle operations on them.
//!
//! The library holds everything with real state and sequencing, verified:
//! the scanner that turns a configuration and a filesystem snapshot into a
//! typed, ordered forest; the navigation state machine that routes key
//! input between screens and widgets; the text-capture and option-selector
//! widgets; and the command orchestrator that plans external operations,
//! runs them step by step through a caller, and reduces the outcome to a
//! summary. Terminal rendering, raw input, configuration files and the
//! subprocesses themselves live with the caller, outside the library.

pub mod app;
pub mod command;
pub mod config;
pub mod keys;
pub mod multi_input;
pub mod order;
pub mod project_item;
pub mod screen;
pub mod switch_screen;
pub mod text;
