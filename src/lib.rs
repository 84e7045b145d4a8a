//! A colored triangle over a background color, with a GUI panel on top: the
//! state the scene keeps and the decisions the event loop takes, verified.
//! Drawing and windowing live with the program that runs the loop.
pub mod background;
pub mod color;
pub mod input;
pub mod pending;
pub mod state;
