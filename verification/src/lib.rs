//! A picture-in-picture viewer: it shows a window of the desktop, scaled down, in a small window
//! that stays on top.
//!
//! This crate holds what the viewer decides and computes. Talking to the X server, to PipeWire, to
//! the desktop portal and to the window system is left to the program around it: where a task needs
//! that, the task is a state that says what to do next and is advanced by what came of it.
pub mod capture;
pub mod capture_backend;
pub mod capture_pw;
pub mod client_finder;
pub mod icon;
pub mod overlay;
pub mod scale;
pub mod text;
pub mod tray;
pub mod viewer;
pub mod window_list;
pub mod window_picker;
pub mod window_property;
pub mod x11;
