//! The logic of a window manager's menu bar item: what its menu lists, what
//! each entry does, and what the status item shows of the virtual workspaces.
//!
//! Nothing here draws. The library decides what is to be shown and keeps the
//! state behind that decision; the program around it owns the views.

pub mod actions;
pub mod config;
pub mod content;
pub mod descriptor;
pub mod indicator;
pub mod manager;
pub mod menu;
pub mod numerals;
pub mod ordered;
pub mod placement;
pub mod widths;
pub mod workspaces;
