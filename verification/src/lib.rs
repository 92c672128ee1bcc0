//! Controller of an application launcher: the state machine that turns
//! keystrokes, window events and backend replies into backend requests and
//! window commands.

pub mod backend;
pub mod cli;
pub mod keymap;
pub mod launch;
pub mod launcher;
pub mod laws;
pub mod message;
pub mod model;
pub mod results;
pub mod rows;
pub mod surface;
