//! Terminal dashboard state machine for a fixed 25x2 set of challenge tasks.
//!
//! The library holds the verified core: the challenge grid, the inline text
//! editor, the key-dispatch state machine, and the pure parts of the
//! command-runner boundary. Terminal, filesystem, subprocess and clipboard
//! access live outside the library and hand plain values in and out.

pub mod app;
pub mod cli;
pub mod day;
pub mod editor;
pub mod events;
pub mod grid;
pub mod render;
pub mod runner;
pub mod text;

