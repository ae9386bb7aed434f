//! A personal start page: the pure core behind the terminal and browser hosts.
//!
//! Everything here is free of I/O. Hosts turn their native key events into [`key::Key`],
//! feed [`state::Intent`]s to [`state::reduce`], and carry out the [`state::Effect`]s it returns.

pub mod text;
pub mod theme;
pub mod key;
pub mod links;
pub mod state;
pub mod config;
pub mod tui_host;
pub mod web_host;
pub mod server;
pub mod assets;
pub mod laws;
