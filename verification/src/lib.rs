//! A small terminal support tool: a selectable list of commands, the key
//! bindings that drive it, and the layout of the screen that shows it.
//!
//! The crate holds the state machine and the screen composition; reading the
//! terminal and painting on it are left to the program built around it.

pub mod app;
pub mod input;
pub mod layout;
pub mod main_loop;
pub mod scene;
pub mod theorems;
