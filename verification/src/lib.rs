//! A terminal music player's core logic: input validation, search and download
//! planning, playlist storage formats, and the state machines behind its menus and
//! its terminal and desktop front ends.
pub mod cli;
pub mod firecore;
pub mod text;
pub mod tui;
pub mod gui;
