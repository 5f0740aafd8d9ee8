//! A scriptable window toolkit: a stack of modal windows with message
//! routing, dialogue windows, script-driven windows, and a bridge that turns
//! script values into widget trees.

pub mod script;
pub mod bridge;
pub mod menu_main;
pub mod toolkit;
pub mod toolkit_lua;
