//! A keystroke-overlay library: the display state machine behind a
//! transparent always-on-top window that shows the user's recent key
//! presses, wrapping across up to three lines and resetting when full.

pub mod keys;
pub mod laws;
pub mod state;
