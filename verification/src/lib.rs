//! The decisions of a PipeWire equalizer front end: the filter window's bypass and pending
//! PipeWire updates, the save/load window's paths and outcomes, the tray icon's contents,
//! the command line, and the application's window, redraw and tray state machine.

pub mod app_state;
pub mod args;
pub mod filter;
pub mod laws;
pub mod paths;
pub mod pipewire;
pub mod save_load;
pub mod text;
pub mod tray;
